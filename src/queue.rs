use vstd::prelude::*;

use crate::float_bits::{bits_below_one, bits_equal_zero, is_below_one_bits, is_zero_bits};
use crate::key::{neutral_key, DepthMode, PassType, PipelineKey, Topology};
use crate::layers::{view_accepts, view_shows, LayerMask};

verus! {

/// What the queueing stage reads of one view.
#[derive(Clone, Copy, Debug, PartialEq, Eq)]
pub struct OutlineView {
    /// The view's render layers; `None` shows every entity.
    pub mask: Option<LayerMask>,
    /// Whether the view renders to an HDR target.
    pub hdr: bool,
}

/// What the stencil queue reads of one entity.
#[derive(Clone, Copy, Debug, PartialEq, Eq)]
pub struct StencilEntity {
    pub mask: LayerMask,
    pub depth_mode: DepthMode,
    /// Bit pattern (`f32::to_bits`) of the outline offset.
    pub offset_bits: u32,
    /// Topology of the entity's mesh; `None` while the mesh asset is not loaded.
    pub mesh_topology: Option<Topology>,
}

/// What the volume queue reads of one entity.
#[derive(Clone, Copy, Debug, PartialEq, Eq)]
pub struct VolumeEntity {
    pub mask: LayerMask,
    pub depth_mode: DepthMode,
    /// Bit pattern (`f32::to_bits`) of the outline offset.
    pub offset_bits: u32,
    /// Bit pattern (`f32::to_bits`) of the alpha component of the outline colour.
    pub alpha_bits: u32,
    /// Topology of the entity's mesh; `None` while the mesh asset is not loaded.
    pub mesh_topology: Option<Topology>,
}

/// A stencil draw to add to a view's stencil phase: the entity at `index`
/// of the queued list, drawn with the pipeline specialized for `key`.
#[derive(Clone, Copy, Debug, PartialEq, Eq)]
pub struct StencilDraw {
    pub index: usize,
    pub key: PipelineKey,
}

/// The phase that receives a volume draw.
#[derive(Clone, Copy, Debug, PartialEq, Eq, Structural)]
pub enum VolumePhase {
    Opaque,
    Transparent,
}

/// A volume draw to add to the phase `phase` of a view: the entity at `index`
/// of the queued list, drawn with the pipeline specialized for `key`.
#[derive(Clone, Copy, Debug, PartialEq, Eq)]
pub struct VolumeDraw {
    pub index: usize,
    pub phase: VolumePhase,
    pub key: PipelineKey,
}

/// Whether an entity is drawn in a view: its layers are shown there, its depth
/// mode is known and its mesh is loaded.
pub open spec fn drawable(
    view: OutlineView,
    mask: LayerMask,
    depth_mode: DepthMode,
    mesh_topology: Option<Topology>,
) -> bool {
    &&& view_accepts(view.mask, mask)
    &&& depth_mode != DepthMode::Invalid
    &&& mesh_topology is Some
}

/// The key that every stencil draw of a frame starts from.
pub open spec fn stencil_base(msaa_samples: u32, opengl: bool) -> PipelineKey {
    PipelineKey {
        msaa_samples,
        pass_type: PassType::Stencil,
        opengl_workaround: opengl,
        ..neutral_key()
    }
}

/// The key that every volume draw of a frame starts from.
pub open spec fn volume_base(msaa_samples: u32, opengl: bool) -> PipelineKey {
    PipelineKey { msaa_samples, opengl_workaround: opengl, ..neutral_key() }
}

/// Whether the stencil queue draws `e` in `view`.
pub open spec fn stencil_queued(view: OutlineView, e: StencilEntity) -> bool {
    drawable(view, e.mask, e.depth_mode, e.mesh_topology)
}

/// The key of a stencil draw of `e`, refined from `base`.
pub open spec fn stencil_key(base: PipelineKey, e: StencilEntity) -> PipelineKey {
    PipelineKey {
        topology: e.mesh_topology->0,
        depth_mode: e.depth_mode,
        offset_zero: is_zero_bits(e.offset_bits),
        ..base
    }
}

/// The stencil draws of one view, in the order of the entities.
pub open spec fn stencil_plan(
    base: PipelineKey,
    view: OutlineView,
    es: Seq<StencilEntity>,
) -> Seq<StencilDraw>
    decreases es.len(),
{
    if es.len() == 0 {
        seq![]
    } else {
        let i = es.len() - 1;
        let rest = stencil_plan(base, view, es.drop_last());
        if stencil_queued(view, es[i]) {
            rest.push(StencilDraw { index: i as usize, key: stencil_key(base, es[i]) })
        } else {
            rest
        }
    }
}

/// Whether the volume queue draws `e` in `view`.
pub open spec fn volume_queued(view: OutlineView, e: VolumeEntity) -> bool {
    drawable(view, e.mask, e.depth_mode, e.mesh_topology)
}

/// Transparent exactly when the alpha is below one.
pub open spec fn phase_of_alpha(alpha_bits: u32) -> VolumePhase {
    if is_below_one_bits(alpha_bits) {
        VolumePhase::Transparent
    } else {
        VolumePhase::Opaque
    }
}

/// The pass type of the pipeline that draws into `phase`.
pub open spec fn pass_of_phase(phase: VolumePhase) -> PassType {
    match phase {
        VolumePhase::Opaque => PassType::Opaque,
        VolumePhase::Transparent => PassType::Transparent,
    }
}

/// The key of a volume draw of `e` in `view`, refined from `base`.
pub open spec fn volume_key(base: PipelineKey, view: OutlineView, e: VolumeEntity) -> PipelineKey {
    PipelineKey {
        topology: e.mesh_topology->0,
        pass_type: pass_of_phase(phase_of_alpha(e.alpha_bits)),
        depth_mode: e.depth_mode,
        offset_zero: is_zero_bits(e.offset_bits),
        hdr_format: view.hdr,
        ..base
    }
}

/// The volume draws of one view, in the order of the entities.
pub open spec fn volume_plan(
    base: PipelineKey,
    view: OutlineView,
    es: Seq<VolumeEntity>,
) -> Seq<VolumeDraw>
    decreases es.len(),
{
    if es.len() == 0 {
        seq![]
    } else {
        let i = es.len() - 1;
        let rest = volume_plan(base, view, es.drop_last());
        if volume_queued(view, es[i]) {
            rest.push(
                VolumeDraw {
                    index: i as usize,
                    phase: phase_of_alpha(es[i].alpha_bits),
                    key: volume_key(base, view, es[i]),
                },
            )
        } else {
            rest
        }
    }
}

/// Whether an entity is drawn in a view (the shared filter of both queues).
pub fn is_drawable(
    view: &OutlineView,
    mask: LayerMask,
    depth_mode: DepthMode,
    mesh_topology: Option<Topology>,
) -> (r: bool)
    ensures
        r == drawable(*view, mask, depth_mode, mesh_topology),
{
    if !view_shows(view.mask, mask) {
        return false;
    }
    if depth_mode == DepthMode::Invalid {
        return false;
    }
    mesh_topology.is_some()
}

/// The key every stencil draw of a frame starts from.
pub fn stencil_base_key(msaa_samples: u32, opengl: bool) -> (r: PipelineKey)
    ensures
        r == stencil_base(msaa_samples, opengl),
{
    PipelineKey::new().with_msaa(msaa_samples).with_pass_type(PassType::Stencil).with_opengl_workaround(
        opengl,
    )
}

/// The key every volume draw of a frame starts from.
pub fn volume_base_key(msaa_samples: u32, opengl: bool) -> (r: PipelineKey)
    ensures
        r == volume_base(msaa_samples, opengl),
{
    PipelineKey::new().with_msaa(msaa_samples).with_opengl_workaround(opengl)
}

/// The key of the stencil draw of `e` in `view`, or `None` when `e` is not drawn there.
pub fn stencil_entity_key(base: PipelineKey, view: &OutlineView, e: &StencilEntity) -> (r: Option<
    PipelineKey,
>)
    ensures
        r == (if stencil_queued(*view, *e) {
            Some(stencil_key(base, *e))
        } else {
            None
        }),
{
    if !is_drawable(view, e.mask, e.depth_mode, e.mesh_topology) {
        return None;
    }
    let topology = match e.mesh_topology {
        Some(t) => t,
        None => {
            return None;
        },
    };
    Some(
        base.with_primitive_topology(topology).with_depth_mode(e.depth_mode).with_offset_zero(
            bits_equal_zero(e.offset_bits),
        ),
    )
}

/// The phase of a volume draw: transparent exactly when the alpha is below one.
pub fn volume_phase(alpha_bits: u32) -> (r: VolumePhase)
    ensures
        r == phase_of_alpha(alpha_bits),
{
    if bits_below_one(alpha_bits) {
        VolumePhase::Transparent
    } else {
        VolumePhase::Opaque
    }
}

/// The phase and key of the volume draw of `e` in `view`, or `None` when `e`
/// is not drawn there.
pub fn volume_entity_key(base: PipelineKey, view: &OutlineView, e: &VolumeEntity) -> (r: Option<
    (VolumePhase, PipelineKey),
>)
    ensures
        r == (if volume_queued(*view, *e) {
            Some((phase_of_alpha(e.alpha_bits), volume_key(base, *view, *e)))
        } else {
            None
        }),
{
    if !is_drawable(view, e.mask, e.depth_mode, e.mesh_topology) {
        return None;
    }
    let topology = match e.mesh_topology {
        Some(t) => t,
        None => {
            return None;
        },
    };
    let phase = volume_phase(e.alpha_bits);
    let pass_type = match phase {
        VolumePhase::Opaque => PassType::Opaque,
        VolumePhase::Transparent => PassType::Transparent,
    };
    let key = base.with_primitive_topology(topology).with_pass_type(pass_type).with_depth_mode(
        e.depth_mode,
    ).with_offset_zero(bits_equal_zero(e.offset_bits)).with_hdr_format(view.hdr);
    Some((phase, key))
}

/// The stencil draws of one view, one for each entity drawn there, in the
/// order of `entities`.
pub fn queue_stencil_view(
    base: PipelineKey,
    view: &OutlineView,
    entities: &Vec<StencilEntity>,
) -> (r: Vec<StencilDraw>)
    ensures
        r@ == stencil_plan(base, *view, entities@),
{
    let mut out: Vec<StencilDraw> = Vec::new();
    let n = entities.len();
    let mut i: usize = 0;
    while i < n
        invariant
            n == entities@.len(),
            i <= n,
            out@ == stencil_plan(base, *view, entities@.subrange(0, i as int)),
        decreases n - i,
    {
        let e = &entities[i];
        proof {
            assert(entities@.subrange(0, i + 1).drop_last() =~= entities@.subrange(0, i as int));
        }
        match stencil_entity_key(base, view, e) {
            Some(key) => out.push(StencilDraw { index: i, key }),
            None => {},
        }
        i = i + 1;
    }
    proof {
        assert(entities@.subrange(0, n as int) =~= entities@);
    }
    out
}

/// The volume draws of one view, one for each entity drawn there, in the
/// order of `entities`.
pub fn queue_volume_view(
    base: PipelineKey,
    view: &OutlineView,
    entities: &Vec<VolumeEntity>,
) -> (r: Vec<VolumeDraw>)
    ensures
        r@ == volume_plan(base, *view, entities@),
{
    let mut out: Vec<VolumeDraw> = Vec::new();
    let n = entities.len();
    let mut i: usize = 0;
    while i < n
        invariant
            n == entities@.len(),
            i <= n,
            out@ == volume_plan(base, *view, entities@.subrange(0, i as int)),
        decreases n - i,
    {
        let e = &entities[i];
        proof {
            assert(entities@.subrange(0, i + 1).drop_last() =~= entities@.subrange(0, i as int));
        }
        match volume_entity_key(base, view, e) {
            Some((phase, key)) => out.push(VolumeDraw { index: i, phase, key }),
            None => {},
        }
        i = i + 1;
    }
    proof {
        assert(entities@.subrange(0, n as int) =~= entities@);
    }
    out
}

/// The stencil draws of a frame: for each view, in order, the draws of that view.
pub fn queue_outline_stencil_mesh(
    msaa_samples: u32,
    opengl: bool,
    views: &Vec<OutlineView>,
    entities: &Vec<StencilEntity>,
) -> (r: Vec<Vec<StencilDraw>>)
    ensures
        r@.len() == views@.len(),
        forall|v: int|
            0 <= v < views@.len() ==> #[trigger] r@[v]@ == stencil_plan(
                stencil_base(msaa_samples, opengl),
                views@[v],
                entities@,
            ),
{
    let base = stencil_base_key(msaa_samples, opengl);
    let mut out: Vec<Vec<StencilDraw>> = Vec::new();
    let mut v: usize = 0;
    while v < views.len()
        invariant
            v <= views@.len(),
            base == stencil_base(msaa_samples, opengl),
            out@.len() == v,
            forall|w: int|
                0 <= w < v ==> #[trigger] out@[w]@ == stencil_plan(base, views@[w], entities@),
        decreases views@.len() - v,
    {
        let draws = queue_stencil_view(base, &views[v], entities);
        out.push(draws);
        v = v + 1;
    }
    out
}

/// The volume draws of a frame: for each view, in order, the draws of that view.
pub fn queue_outline_volume_mesh(
    msaa_samples: u32,
    opengl: bool,
    views: &Vec<OutlineView>,
    entities: &Vec<VolumeEntity>,
) -> (r: Vec<Vec<VolumeDraw>>)
    ensures
        r@.len() == views@.len(),
        forall|v: int|
            0 <= v < views@.len() ==> #[trigger] r@[v]@ == volume_plan(
                volume_base(msaa_samples, opengl),
                views@[v],
                entities@,
            ),
{
    let base = volume_base_key(msaa_samples, opengl);
    let mut out: Vec<Vec<VolumeDraw>> = Vec::new();
    let mut v: usize = 0;
    while v < views.len()
        invariant
            v <= views@.len(),
            base == volume_base(msaa_samples, opengl),
            out@.len() == v,
            forall|w: int|
                0 <= w < v ==> #[trigger] out@[w]@ == volume_plan(base, views@[w], entities@),
        decreases views@.len() - v,
    {
        let draws = queue_volume_view(base, &views[v], entities);
        out.push(draws);
        v = v + 1;
    }
    out
}

} // verus!
