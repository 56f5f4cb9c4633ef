use vstd::prelude::*;

use crate::float_bits::{is_below_one_bits, is_zero_bits};
use crate::key::DepthMode;
use crate::layers::view_accepts;
use crate::queue::{
    phase_of_alpha, stencil_key, stencil_plan, stencil_queued, volume_key, volume_plan,
    volume_queued, OutlineView, StencilEntity, VolumeEntity, VolumePhase,
};
use crate::key::PipelineKey;
use crate::layers::LayerMask;

verus! {

/// Every stencil draw names a drawn entity, with that entity's key; the draws
/// follow the entities' order, and every drawn entity has a draw.
pub proof fn lemma_stencil_plan_shape(base: PipelineKey, view: OutlineView, es: Seq<StencilEntity>)
    requires
        es.len() <= usize::MAX,
    ensures
        forall|k: int|
            #![trigger stencil_plan(base, view, es)[k]]
            0 <= k < stencil_plan(base, view, es).len() ==> {
                let i = stencil_plan(base, view, es)[k].index as int;
                &&& i < es.len()
                &&& stencil_queued(view, es[i])
                &&& stencil_plan(base, view, es)[k].key == stencil_key(base, es[i])
            },
        forall|k1: int, k2: int|
            0 <= k1 < k2 < stencil_plan(base, view, es).len() ==> #[trigger] stencil_plan(
                base,
                view,
                es,
            )[k1].index < #[trigger] stencil_plan(base, view, es)[k2].index,
        forall|j: int|
            0 <= j < es.len() && #[trigger] stencil_queued(view, es[j]) ==> exists|k: int|
                0 <= k < stencil_plan(base, view, es).len() && #[trigger] stencil_plan(
                    base,
                    view,
                    es,
                )[k].index == j,
    decreases es.len(),
{
    if es.len() > 0 {
        let rest = es.drop_last();
        lemma_stencil_plan_shape(base, view, rest);
        let last = es.len() - 1;
        let p = stencil_plan(base, view, es);
        let q = stencil_plan(base, view, rest);
        assert forall|j: int| 0 <= j < es.len() && #[trigger] stencil_queued(view, es[j]) implies exists|k: int|
            0 <= k < p.len() && p[k].index == j by {
            if j < last {
                assert(rest[j] == es[j]);
                let k = choose|k: int| 0 <= k < q.len() && #[trigger] q[k].index == j;
                assert(p[k] == q[k]);
            } else {
                assert(p[q.len() as int].index == j);
            }
        }
    }
}

/// Every volume draw names a drawn entity, with the phase and key of that
/// entity; the draws follow the entities' order, and every drawn entity has a draw.
pub proof fn lemma_volume_plan_shape(base: PipelineKey, view: OutlineView, es: Seq<VolumeEntity>)
    requires
        es.len() <= usize::MAX,
    ensures
        forall|k: int|
            #![trigger volume_plan(base, view, es)[k]]
            0 <= k < volume_plan(base, view, es).len() ==> {
                let i = volume_plan(base, view, es)[k].index as int;
                &&& i < es.len()
                &&& volume_queued(view, es[i])
                &&& volume_plan(base, view, es)[k].phase == phase_of_alpha(es[i].alpha_bits)
                &&& volume_plan(base, view, es)[k].key == volume_key(base, view, es[i])
            },
        forall|k1: int, k2: int|
            0 <= k1 < k2 < volume_plan(base, view, es).len() ==> #[trigger] volume_plan(
                base,
                view,
                es,
            )[k1].index < #[trigger] volume_plan(base, view, es)[k2].index,
        forall|j: int|
            0 <= j < es.len() && #[trigger] volume_queued(view, es[j]) ==> exists|k: int|
                0 <= k < volume_plan(base, view, es).len() && #[trigger] volume_plan(
                    base,
                    view,
                    es,
                )[k].index == j,
    decreases es.len(),
{
    if es.len() > 0 {
        let rest = es.drop_last();
        lemma_volume_plan_shape(base, view, rest);
        let last = es.len() - 1;
        let p = volume_plan(base, view, es);
        let q = volume_plan(base, view, rest);
        assert forall|j: int| 0 <= j < es.len() && #[trigger] volume_queued(view, es[j]) implies exists|k: int|
            0 <= k < p.len() && p[k].index == j by {
            if j < last {
                assert(rest[j] == es[j]);
                let k = choose|k: int| 0 <= k < q.len() && #[trigger] q[k].index == j;
                assert(p[k] == q[k]);
            } else {
                assert(p[q.len() as int].index == j);
            }
        }
    }
}

/// An entity whose depth mode is `Invalid` gets no draw from either queue, in
/// any view.
pub proof fn invalid_depth_never_queued(
    stencil_base: PipelineKey,
    volume_base: PipelineKey,
    view: OutlineView,
    stencil_entities: Seq<StencilEntity>,
    volume_entities: Seq<VolumeEntity>,
)
    requires
        stencil_entities.len() <= usize::MAX,
        volume_entities.len() <= usize::MAX,
    ensures
        forall|k: int|
            0 <= k < stencil_plan(stencil_base, view, stencil_entities).len()
                ==> stencil_entities[#[trigger] stencil_plan(
                stencil_base,
                view,
                stencil_entities,
            )[k].index as int].depth_mode != DepthMode::Invalid,
        forall|k: int|
            0 <= k < volume_plan(volume_base, view, volume_entities).len()
                ==> volume_entities[#[trigger] volume_plan(
                volume_base,
                view,
                volume_entities,
            )[k].index as int].depth_mode != DepthMode::Invalid,
{
    lemma_stencil_plan_shape(stencil_base, view, stencil_entities);
    lemma_volume_plan_shape(volume_base, view, volume_entities);
}

/// An entity whose layers the view does not show gets no draw from either
/// queue in that view; a view without a mask shows every entity.
pub proof fn hidden_layers_never_queued(
    stencil_base: PipelineKey,
    volume_base: PipelineKey,
    view: OutlineView,
    stencil_entities: Seq<StencilEntity>,
    volume_entities: Seq<VolumeEntity>,
)
    requires
        stencil_entities.len() <= usize::MAX,
        volume_entities.len() <= usize::MAX,
    ensures
        forall|k: int|
            0 <= k < stencil_plan(stencil_base, view, stencil_entities).len() ==> view_accepts(
                view.mask,
                stencil_entities[#[trigger] stencil_plan(
                    stencil_base,
                    view,
                    stencil_entities,
                )[k].index as int].mask,
            ),
        forall|k: int|
            0 <= k < volume_plan(volume_base, view, volume_entities).len() ==> view_accepts(
                view.mask,
                volume_entities[#[trigger] volume_plan(
                    volume_base,
                    view,
                    volume_entities,
                )[k].index as int].mask,
            ),
        view.mask is None ==> forall|m: LayerMask| #[trigger] view_accepts(view.mask, m),
{
    lemma_stencil_plan_shape(stencil_base, view, stencil_entities);
    lemma_volume_plan_shape(volume_base, view, volume_entities);
}

/// A volume entity that is drawn in a view gets exactly one draw there, in the
/// transparent phase when its alpha is below one and in the opaque phase otherwise.
pub proof fn volume_draw_in_one_phase(
    base: PipelineKey,
    view: OutlineView,
    es: Seq<VolumeEntity>,
    j: int,
)
    requires
        es.len() <= usize::MAX,
        0 <= j < es.len(),
        volume_queued(view, es[j]),
    ensures
        exists|k: int|
            0 <= k < volume_plan(base, view, es).len() && #[trigger] volume_plan(
                base,
                view,
                es,
            )[k].index == j,
        forall|k1: int, k2: int|
            0 <= k1 < volume_plan(base, view, es).len() && 0 <= k2 < volume_plan(
                base,
                view,
                es,
            ).len() && #[trigger] volume_plan(base, view, es)[k1].index == j
                && #[trigger] volume_plan(base, view, es)[k2].index == j ==> k1 == k2,
        forall|k: int|
            0 <= k < volume_plan(base, view, es).len() && #[trigger] volume_plan(
                base,
                view,
                es,
            )[k].index == j ==> (volume_plan(base, view, es)[k].phase == VolumePhase::Transparent
                <==> is_below_one_bits(es[j].alpha_bits)),
{
    lemma_volume_plan_shape(base, view, es);
    let p = volume_plan(base, view, es);
    assert forall|k1: int, k2: int|
        0 <= k1 < p.len() && 0 <= k2 < p.len() && #[trigger] p[k1].index == j
            && #[trigger] p[k2].index == j implies k1 == k2 by {
        if k1 < k2 {
            assert(p[k1].index < p[k2].index);
        } else if k2 < k1 {
            assert(p[k2].index < p[k1].index);
        }
    }
}

/// Two stencil draws from the same base whose entities agree on topology, depth
/// mode and whether the offset is zero have the same key, and only those do.
pub proof fn stencil_keys_match_axes(base: PipelineKey, a: StencilEntity, b: StencilEntity)
    requires
        a.mesh_topology is Some,
        b.mesh_topology is Some,
    ensures
        stencil_key(base, a) == stencil_key(base, b) <==> (a.mesh_topology == b.mesh_topology
            && a.depth_mode == b.depth_mode && is_zero_bits(a.offset_bits) == is_zero_bits(
            b.offset_bits,
        )),
{
}

/// Two volume draws in the same view from the same base whose entities agree on
/// topology, depth mode, whether the offset is zero and whether the alpha is
/// below one have the same key, and only those do.
pub proof fn volume_keys_match_axes(
    base: PipelineKey,
    view: OutlineView,
    a: VolumeEntity,
    b: VolumeEntity,
)
    requires
        a.mesh_topology is Some,
        b.mesh_topology is Some,
    ensures
        volume_key(base, view, a) == volume_key(base, view, b) <==> (a.mesh_topology
            == b.mesh_topology && a.depth_mode == b.depth_mode && is_zero_bits(a.offset_bits)
            == is_zero_bits(b.offset_bits) && is_below_one_bits(a.alpha_bits) == is_below_one_bits(
            b.alpha_bits,
        )),
{
}

/// Within one view's volume draws, two draws whose entities agree on every
/// axis of the key have the same key.
pub proof fn volume_plan_keys_match_axes(
    base: PipelineKey,
    view: OutlineView,
    es: Seq<VolumeEntity>,
    k1: int,
    k2: int,
)
    requires
        es.len() <= usize::MAX,
        0 <= k1 < volume_plan(base, view, es).len(),
        0 <= k2 < volume_plan(base, view, es).len(),
    ensures
        ({
            let a = es[volume_plan(base, view, es)[k1].index as int];
            let b = es[volume_plan(base, view, es)[k2].index as int];
            a.mesh_topology == b.mesh_topology && a.depth_mode == b.depth_mode && is_zero_bits(
                a.offset_bits,
            ) == is_zero_bits(b.offset_bits) && is_below_one_bits(a.alpha_bits)
                == is_below_one_bits(b.alpha_bits) ==> volume_plan(base, view, es)[k1].key
                == volume_plan(base, view, es)[k2].key
        }),
{
    lemma_volume_plan_shape(base, view, es);
    let p = volume_plan(base, view, es);
    assert(p[k1] == p[k1]);
    assert(p[k2] == p[k2]);
}

/// Within one view's stencil draws, two draws whose entities agree on every
/// axis of the key have the same key.
pub proof fn stencil_plan_keys_match_axes(
    base: PipelineKey,
    view: OutlineView,
    es: Seq<StencilEntity>,
    k1: int,
    k2: int,
)
    requires
        es.len() <= usize::MAX,
        0 <= k1 < stencil_plan(base, view, es).len(),
        0 <= k2 < stencil_plan(base, view, es).len(),
    ensures
        ({
            let a = es[stencil_plan(base, view, es)[k1].index as int];
            let b = es[stencil_plan(base, view, es)[k2].index as int];
            a.mesh_topology == b.mesh_topology && a.depth_mode == b.depth_mode && is_zero_bits(
                a.offset_bits,
            ) == is_zero_bits(b.offset_bits) ==> stencil_plan(base, view, es)[k1].key
                == stencil_plan(base, view, es)[k2].key
        }),
{
    lemma_stencil_plan_shape(base, view, es);
    let p = stencil_plan(base, view, es);
    assert(p[k1] == p[k1]);
    assert(p[k2] == p[k2]);
}

} // verus!
