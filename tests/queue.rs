use outline_queue::float_bits::{bits_below_one, bits_equal_zero};
use outline_queue::key::{DepthMode, PassType, PipelineKey, Topology};
use outline_queue::layers::{view_shows, LayerMask};
use outline_queue::queue::{
    is_drawable, queue_outline_stencil_mesh, queue_outline_volume_mesh, queue_stencil_view,
    queue_volume_view, stencil_base_key, stencil_entity_key, volume_base_key, volume_entity_key,
    volume_phase, OutlineView, StencilEntity, VolumeEntity, VolumePhase,
};

fn volume(mask: LayerMask, depth_mode: DepthMode, alpha: f32, loaded: bool) -> VolumeEntity {
    VolumeEntity {
        mask,
        depth_mode,
        offset_bits: 0.0f32.to_bits(),
        alpha_bits: alpha.to_bits(),
        mesh_topology: if loaded { Some(Topology::TriangleList) } else { None },
    }
}

fn stencil(mask: LayerMask, depth_mode: DepthMode, offset: f32, loaded: bool) -> StencilEntity {
    StencilEntity {
        mask,
        depth_mode,
        offset_bits: offset.to_bits(),
        mesh_topology: if loaded { Some(Topology::TriangleList) } else { None },
    }
}

fn layer0_view() -> OutlineView {
    OutlineView { mask: Some(LayerMask::layer(0)), hdr: false }
}

#[test]
fn opaque_entity_gets_one_opaque_draw() {
    let a = volume(LayerMask::layer(0), DepthMode::Flat, 1.0, true);
    let base = volume_base_key(4, false);
    let draws = queue_volume_view(base, &layer0_view(), &vec![a]);
    assert_eq!(draws.len(), 1);
    assert_eq!(draws[0].index, 0);
    assert_eq!(draws[0].phase, VolumePhase::Opaque);
    assert_eq!(draws[0].key.pass_type, PassType::Opaque);
    assert_eq!(draws[0].key.msaa_samples, 4);
}

#[test]
fn translucent_entity_gets_one_transparent_draw() {
    let b = volume(LayerMask::layer(0), DepthMode::Flat, 0.5, true);
    let base = volume_base_key(4, false);
    let draws = queue_volume_view(base, &layer0_view(), &vec![b]);
    assert_eq!(draws.len(), 1);
    assert_eq!(draws[0].phase, VolumePhase::Transparent);
    assert_eq!(draws[0].key.pass_type, PassType::Transparent);
    assert!(draws.iter().all(|d| d.phase != VolumePhase::Opaque));
}

#[test]
fn invalid_depth_mode_gets_no_draw() {
    let view_all = OutlineView { mask: None, hdr: true };
    for alpha in [0.0f32, 0.5, 1.0] {
        let c = volume(LayerMask::all(), DepthMode::Invalid, alpha, true);
        for view in [layer0_view(), view_all] {
            assert!(queue_volume_view(volume_base_key(1, false), &view, &vec![c]).is_empty());
        }
    }
    let s = stencil(LayerMask::all(), DepthMode::Invalid, 0.0, true);
    assert!(queue_stencil_view(stencil_base_key(1, false), &view_all, &vec![s]).is_empty());
}

#[test]
fn disjoint_layers_get_no_draw() {
    let d = volume(LayerMask::layer(1), DepthMode::Flat, 1.0, true);
    assert!(queue_volume_view(volume_base_key(1, false), &layer0_view(), &vec![d]).is_empty());
    let s = stencil(LayerMask::layer(1), DepthMode::Flat, 0.0, true);
    assert!(queue_stencil_view(stencil_base_key(1, false), &layer0_view(), &vec![s]).is_empty());
}

#[test]
fn unloaded_mesh_is_drawn_once_loaded() {
    let base = volume_base_key(1, false);
    let e = volume(LayerMask::layer(0), DepthMode::Real, 1.0, false);
    assert!(queue_volume_view(base, &layer0_view(), &vec![e]).is_empty());
    let e = volume(LayerMask::layer(0), DepthMode::Real, 1.0, true);
    assert_eq!(queue_volume_view(base, &layer0_view(), &vec![e]).len(), 1);
}

#[test]
fn view_without_mask_shows_every_entity() {
    let view = OutlineView { mask: None, hdr: false };
    for bits in [0u32, 1, 2, 0x8000_0000] {
        assert!(view_shows(None, LayerMask { bits }));
        let e = stencil(LayerMask { bits }, DepthMode::Flat, 1.0, true);
        assert_eq!(queue_stencil_view(stencil_base_key(1, false), &view, &vec![e]).len(), 1);
    }
    assert!(!view_shows(Some(LayerMask::none()), LayerMask::all()));
    assert!(view_shows(Some(LayerMask::layer(3)), LayerMask::layer(0).with(3)));
}

#[test]
fn alpha_classification_matches_float_comparison() {
    let samples = [
        0.0f32, -0.0, 0.5, 0.999_999_9, 1.0, 1.000_000_1, 2.0, -1.0, f32::INFINITY,
        f32::NEG_INFINITY, f32::NAN, -f32::NAN, f32::MIN_POSITIVE, f32::MAX, f32::MIN,
        f32::from_bits(1),
    ];
    for a in samples {
        assert_eq!(bits_below_one(a.to_bits()), a < 1.0, "alpha {:?}", a);
        let expected = if a < 1.0 { VolumePhase::Transparent } else { VolumePhase::Opaque };
        assert_eq!(volume_phase(a.to_bits()), expected);
    }
}

#[test]
fn offset_zero_matches_float_comparison() {
    let samples = [0.0f32, -0.0, 1.0e-45, -1.0e-45, 0.25, f32::NAN, f32::INFINITY];
    for x in samples {
        assert_eq!(bits_equal_zero(x.to_bits()), x == 0.0, "offset {:?}", x);
    }
}

#[test]
fn equal_axes_give_equal_keys() {
    let view = OutlineView { mask: None, hdr: true };
    let base = volume_base_key(4, true);
    let a = volume(LayerMask::layer(0), DepthMode::Flat, 0.25, true);
    let mut b = volume(LayerMask::layer(5), DepthMode::Flat, 0.75, true);
    b.offset_bits = (-0.0f32).to_bits();
    let ka = volume_entity_key(base, &view, &a).unwrap();
    let kb = volume_entity_key(base, &view, &b).unwrap();
    assert_eq!(ka, kb);
    let c = volume(LayerMask::layer(0), DepthMode::Real, 0.25, true);
    assert_ne!(volume_entity_key(base, &view, &c).unwrap(), ka);
    let d = volume(LayerMask::layer(0), DepthMode::Flat, 1.0, true);
    assert_ne!(volume_entity_key(base, &view, &d).unwrap(), ka);
}

#[test]
fn stencil_key_carries_every_axis() {
    let base = stencil_base_key(8, true);
    let mut e = stencil(LayerMask::layer(0), DepthMode::Real, 0.0, true);
    e.mesh_topology = Some(Topology::LineStrip);
    let key = stencil_entity_key(base, &layer0_view(), &e).unwrap();
    assert_eq!(
        key,
        PipelineKey {
            msaa_samples: 8,
            pass_type: PassType::Stencil,
            topology: Topology::LineStrip,
            depth_mode: DepthMode::Real,
            offset_zero: true,
            hdr_format: false,
            opengl_workaround: true,
        }
    );
    let e = stencil(LayerMask::layer(0), DepthMode::Real, 0.1, true);
    assert!(!stencil_entity_key(base, &layer0_view(), &e).unwrap().offset_zero);
}

#[test]
fn volume_key_takes_hdr_from_view() {
    let base = volume_base_key(1, false);
    let e = volume(LayerMask::layer(0), DepthMode::Flat, 1.0, true);
    let hdr = OutlineView { mask: None, hdr: true };
    let (phase, key) = volume_entity_key(base, &hdr, &e).unwrap();
    assert_eq!(phase, VolumePhase::Opaque);
    assert!(key.hdr_format);
    assert!(!volume_entity_key(base, &layer0_view(), &e).unwrap().1.hdr_format);
}

#[test]
fn builder_sets_one_axis_at_a_time() {
    let k = PipelineKey::new();
    assert_eq!(k.msaa_samples, 1);
    assert_eq!(k.pass_type, PassType::Stencil);
    assert_eq!(k.depth_mode, DepthMode::Invalid);
    assert!(!k.offset_zero && !k.hdr_format && !k.opengl_workaround);
    let a = k.with_msaa(4).with_hdr_format(true).with_pass_type(PassType::Opaque);
    let b = k.with_pass_type(PassType::Opaque).with_msaa(4).with_hdr_format(true);
    assert_eq!(a, b);
    assert_eq!(a.with_opengl_workaround(true).opengl_workaround, true);
    assert_eq!(a.with_depth_mode(DepthMode::Flat).msaa_samples, 4);
    assert_eq!(a.with_offset_zero(true).with_primitive_topology(Topology::LineList).topology, Topology::LineList);
}

#[test]
fn frame_queues_each_view_in_order() {
    let views = vec![
        layer0_view(),
        OutlineView { mask: Some(LayerMask::layer(1)), hdr: true },
        OutlineView { mask: None, hdr: false },
    ];
    let entities = vec![
        volume(LayerMask::layer(0), DepthMode::Flat, 1.0, true),
        volume(LayerMask::layer(1), DepthMode::Flat, 0.5, true),
        volume(LayerMask::layer(1), DepthMode::Invalid, 0.5, true),
        volume(LayerMask::layer(0), DepthMode::Real, 0.0, false),
    ];
    let frame = queue_outline_volume_mesh(2, false, &views, &entities);
    assert_eq!(frame.len(), 3);
    let idx: Vec<Vec<usize>> = frame.iter().map(|v| v.iter().map(|d| d.index).collect()).collect();
    assert_eq!(idx, vec![vec![0], vec![1], vec![0, 1]]);
    assert_eq!(frame[1][0].phase, VolumePhase::Transparent);
    assert!(frame[1][0].key.hdr_format);
    assert_eq!(frame[2][0].phase, VolumePhase::Opaque);

    let stencils = vec![
        stencil(LayerMask::layer(1), DepthMode::Flat, 0.0, true),
        stencil(LayerMask::layer(0), DepthMode::Flat, 0.0, true),
    ];
    let frame = queue_outline_stencil_mesh(1, true, &views, &stencils);
    let idx: Vec<Vec<usize>> = frame.iter().map(|v| v.iter().map(|d| d.index).collect()).collect();
    assert_eq!(idx, vec![vec![1], vec![0], vec![0, 1]]);
    assert!(frame[2].iter().all(|d| d.key.pass_type == PassType::Stencil && d.key.opengl_workaround));
}

#[test]
fn drawable_needs_layers_depth_and_mesh() {
    let view = layer0_view();
    assert!(is_drawable(&view, LayerMask::layer(0), DepthMode::Flat, Some(Topology::TriangleStrip)));
    assert!(!is_drawable(&view, LayerMask::layer(2), DepthMode::Flat, Some(Topology::TriangleStrip)));
    assert!(!is_drawable(&view, LayerMask::layer(0), DepthMode::Invalid, Some(Topology::TriangleStrip)));
    assert!(!is_drawable(&view, LayerMask::layer(0), DepthMode::Flat, None));
}

#[test]
fn empty_entity_list_gives_no_draws() {
    let frame = queue_outline_stencil_mesh(1, false, &vec![layer0_view()], &Vec::new());
    assert_eq!(frame.len(), 1);
    assert!(frame[0].is_empty());
    assert!(queue_outline_volume_mesh(1, false, &Vec::new(), &Vec::new()).is_empty());
}
