use bevy_video_glitch::extract::{extract_uniforms, CameraSettings};
use bevy_video_glitch::graph::{registration_edges, GraphMode, OrderingEdge, StageLabel};
use bevy_video_glitch::node::{
    run_frame, BindGroupRecord, BindingResource, FrameOutput, ViewTargetState,
};
use bevy_video_glitch::pipeline::{
    bind_group_layout_entries, build_pipeline_resources, effect_pipeline_descriptor,
    fragment_entry_point, BindingKind, PipelineCache,
};
use bevy_video_glitch::settings::{ColumnBits, Mat3Bits, SettingsRecord, F32_ONE_BITS};
use bevy_video_glitch::uniform::UniformLayout;

fn identity_bits() -> Mat3Bits {
    Mat3Bits {
        x_axis: ColumnBits { x: F32_ONE_BITS, y: 0, z: 0 },
        y_axis: ColumnBits { x: 0, y: F32_ONE_BITS, z: 0 },
        z_axis: ColumnBits { x: 0, y: 0, z: F32_ONE_BITS },
    }
}

#[test]
fn default_settings_values() {
    let s = SettingsRecord::default();
    assert_eq!(s.intensity_bits, 1.0f32.to_bits());
    assert_eq!(s.intensity_bits, F32_ONE_BITS);
    assert_eq!(s.color_aberration_bits, identity_bits());
    assert_eq!(0.0f32.to_bits(), 0u32);
}

#[test]
fn default_uniform_bytes_exact() {
    let s = SettingsRecord::default();
    let b = s.to_uniform_bytes(UniformLayout::Tight);
    let one: [u8; 4] = [0x00, 0x00, 0x80, 0x3F];
    let zero: [u8; 4] = [0x00, 0x00, 0x00, 0x00];
    let mut expected: Vec<u8> = Vec::new();
    expected.extend_from_slice(&one); // intensity
    expected.extend_from_slice(&one); // column x: (1, 0, 0)
    expected.extend_from_slice(&zero);
    expected.extend_from_slice(&zero);
    expected.extend_from_slice(&zero); // column y: (0, 1, 0)
    expected.extend_from_slice(&one);
    expected.extend_from_slice(&zero);
    expected.extend_from_slice(&zero); // column z: (0, 0, 1)
    expected.extend_from_slice(&zero);
    expected.extend_from_slice(&one);
    assert_eq!(b, expected);
}

#[test]
fn uniform_round_trip_tight() {
    let s = SettingsRecord::default()
        .with_intensity_bits(0.25f32.to_bits())
        .with_color_aberration_bits(Mat3Bits {
            x_axis: ColumnBits {
                x: 0.5f32.to_bits(),
                y: 0.25f32.to_bits(),
                z: 0.25f32.to_bits(),
            },
            y_axis: ColumnBits {
                x: 0.25f32.to_bits(),
                y: 0.5f32.to_bits(),
                z: 0.25f32.to_bits(),
            },
            z_axis: ColumnBits {
                x: 0.25f32.to_bits(),
                y: 0.25f32.to_bits(),
                z: 0.5f32.to_bits(),
            },
        });
    let b = s.to_uniform_bytes(UniformLayout::Tight);
    assert_eq!(b.len(), 40);
    assert_eq!(SettingsRecord::from_uniform_bytes(&b, UniformLayout::Tight), Some(s));
}

#[test]
fn uniform_round_trip_aligned16() {
    let s = SettingsRecord::default();
    let b = s.to_uniform_bytes(UniformLayout::Aligned16);
    assert_eq!(b.len(), 48);
    // the two padding floats are zero bytes
    assert_eq!(&b[40..48], &[0u8; 8]);
    assert_eq!(SettingsRecord::from_uniform_bytes(&b, UniformLayout::Aligned16), Some(s));
}

#[test]
fn parse_wrong_length_is_none() {
    let s = SettingsRecord::default();
    let b = s.to_uniform_bytes(UniformLayout::Tight);
    assert_eq!(SettingsRecord::from_uniform_bytes(&b, UniformLayout::Aligned16), None);
    let mut short = b.clone();
    short.pop();
    assert_eq!(SettingsRecord::from_uniform_bytes(&short, UniformLayout::Tight), None);
}

#[test]
fn out_of_range_intensity_passes_through_unclamped() {
    // the effect is defined for [0, 1]; values outside are a caller error,
    // and must reach the uniform verbatim, never clamped or rejected
    for bad in [2.5f32, -1.0f32, 1000.0f32] {
        let s = SettingsRecord::default().with_intensity_bits(bad.to_bits());
        assert_eq!(s.intensity_bits, bad.to_bits());
        let b = s.to_uniform_bytes(UniformLayout::Tight);
        let back = SettingsRecord::from_uniform_bytes(&b, UniformLayout::Tight).unwrap();
        assert_eq!(back.intensity_bits, bad.to_bits());
        assert_eq!(f32::from_bits(back.intensity_bits), bad);
    }
}

#[test]
fn layout_declares_four_fragment_bindings() {
    let entries = bind_group_layout_entries(UniformLayout::Tight, 16);
    assert_eq!(entries.len(), 4);
    for (i, e) in entries.iter().enumerate() {
        assert_eq!(e.binding, i as u32);
        assert!(e.fragment_only);
    }
    assert_eq!(entries[0].kind, BindingKind::Texture2dFloatFilterable);
    assert_eq!(entries[1].kind, BindingKind::SamplerFiltering);
    assert_eq!(entries[2].kind, BindingKind::UniformBuffer { min_size: 40 });
    assert_eq!(entries[3].kind, BindingKind::UniformBuffer { min_size: 16 });
}

#[test]
fn pipeline_cache_reuses_identical_descriptors() {
    let mut cache = PipelineCache::new();
    let d1 = effect_pipeline_descriptor(UniformLayout::Tight, 16, 7);
    let d2 = effect_pipeline_descriptor(UniformLayout::Tight, 16, 7);
    let id1 = cache.queue(d1);
    let id2 = cache.queue(d2);
    assert_eq!(id1, id2);
    assert_eq!(cache.descriptors.len(), 1);
    // a different target format is a different pipeline
    let d3 = effect_pipeline_descriptor(UniformLayout::Tight, 16, 8);
    let id3 = cache.queue(d3);
    assert_ne!(id3, id1);
    assert_eq!(cache.descriptors.len(), 2);
    // readiness arrives later and is per entry
    assert!(!cache.get_ready(id1));
    cache.set_ready(id1);
    assert!(cache.get_ready(id1));
    assert!(!cache.get_ready(id3));
    // an id never queued is never ready, and marking it changes nothing
    assert!(!cache.get_ready(99));
    cache.set_ready(99);
    assert!(!cache.get_ready(99));
    assert_eq!(cache.descriptors.len(), 2);
}

#[test]
fn build_resources_never_recompiles() {
    let mut cache = PipelineCache::new();
    let r1 = build_pipeline_resources(&mut cache, UniformLayout::Aligned16, 16, 7, 11);
    let r2 = build_pipeline_resources(&mut cache, UniformLayout::Aligned16, 16, 7, 11);
    assert_eq!(r1.pipeline_id, r2.pipeline_id);
    assert_eq!(cache.descriptors.len(), 1);
    assert_eq!(r1.sampler, 11);
    assert_eq!(r1.bindings.len(), 4);
    assert_eq!(r1.bindings[2].kind, BindingKind::UniformBuffer { min_size: 48 });
}

#[test]
fn node_skips_when_pipeline_not_compiled() {
    let mut cache = PipelineCache::new();
    let r = build_pipeline_resources(&mut cache, UniformLayout::Tight, 16, 7, 11);
    let mut view = ViewTargetState { texture_a: 100, texture_b: 200, main_is_a: true };
    let before = view;
    let out = run_frame(&cache, r.pipeline_id, 11, Some(5), Some(6), &mut view);
    assert_eq!(out, FrameOutput::Skipped);
    assert_eq!(view, before);
}

#[test]
fn node_skips_when_a_binding_is_missing() {
    let mut cache = PipelineCache::new();
    let r = build_pipeline_resources(&mut cache, UniformLayout::Tight, 16, 7, 11);
    cache.set_ready(r.pipeline_id);
    let mut view = ViewTargetState { texture_a: 100, texture_b: 200, main_is_a: true };
    let before = view;
    assert_eq!(run_frame(&cache, r.pipeline_id, 11, None, Some(6), &mut view), FrameOutput::Skipped);
    assert_eq!(view, before);
    assert_eq!(run_frame(&cache, r.pipeline_id, 11, Some(5), None, &mut view), FrameOutput::Skipped);
    assert_eq!(view, before);
}

#[test]
fn node_draws_one_triangle_when_ready() {
    let mut cache = PipelineCache::new();
    let r = build_pipeline_resources(&mut cache, UniformLayout::Tight, 16, 7, 11);
    cache.set_ready(r.pipeline_id);
    let mut view = ViewTargetState { texture_a: 100, texture_b: 200, main_is_a: true };
    let out = run_frame(&cache, r.pipeline_id, 11, Some(5), Some(6), &mut view);
    let d = match out {
        FrameOutput::Draw(d) => d,
        FrameOutput::Skipped => panic!("expected a draw"),
    };
    assert_eq!(d.pipeline_id, r.pipeline_id);
    assert_eq!(d.bind_group.source_texture, 100);
    assert_eq!(d.bind_group.sampler, 11);
    assert_eq!(d.bind_group.settings_binding, 5);
    assert_eq!(d.bind_group.globals_binding, 6);
    assert_eq!(d.bind_group_slot, 0);
    assert_eq!(d.target, 200);
    assert_ne!(d.target, d.bind_group.source_texture);
    assert_eq!((d.first_vertex, d.vertex_count), (0, 3));
    assert_eq!((d.first_instance, d.instance_count), (0, 1));
    // the swap happened exactly once: the destination is the new main
    assert!(!view.main_is_a);
    // next frame ping-pongs: the last destination becomes the source
    let out2 = run_frame(&cache, r.pipeline_id, 11, Some(5), Some(6), &mut view);
    match out2 {
        FrameOutput::Draw(d2) => {
            assert_eq!(d2.bind_group.source_texture, 200);
            assert_eq!(d2.target, 100);
        }
        FrameOutput::Skipped => panic!("expected a draw"),
    }
}

#[test]
fn bind_group_resources_in_fixed_order() {
    let bg = BindGroupRecord {
        source_texture: 1,
        sampler: 2,
        settings_binding: 3,
        globals_binding: 4,
    };
    let rs = bg.resources_in_order();
    assert_eq!(
        rs,
        vec![
            BindingResource::TextureView(1),
            BindingResource::Sampler(2),
            BindingResource::Buffer(3),
            BindingResource::Buffer(4),
        ]
    );
}

#[test]
fn two_cameras_keep_independent_uniforms() {
    let a = CameraSettings {
        entity: 17,
        settings: SettingsRecord::default().with_intensity_bits(1.0f32.to_bits()),
    };
    let b = CameraSettings {
        entity: 42,
        settings: SettingsRecord::default()
            .with_intensity_bits(0.5f32.to_bits())
            .with_color_aberration_bits(Mat3Bits {
                x_axis: ColumnBits { x: 0, y: F32_ONE_BITS, z: 0 },
                y_axis: ColumnBits { x: 0, y: 0, z: F32_ONE_BITS },
                z_axis: ColumnBits { x: F32_ONE_BITS, y: 0, z: 0 },
            }),
    };
    let cams = vec![a, b];
    let r = extract_uniforms(&cams, UniformLayout::Tight);
    assert_eq!(r.bindings.len(), 2);
    assert_eq!(r.buffer.len(), 80);
    // two distinct bindings, keyed by each camera's entity
    assert_eq!(r.bindings[0].entity, 17);
    assert_eq!(r.bindings[1].entity, 42);
    assert_eq!(r.bindings[0].offset, 0);
    assert_eq!(r.bindings[1].offset, 40);
    assert_ne!(r.bindings[0].offset, r.bindings[1].offset);
    // each region holds exactly its own camera's bytes: no cross-contamination
    let slice_a = r.buffer[0..40].to_vec();
    let slice_b = r.buffer[40..80].to_vec();
    assert_eq!(slice_a, a.settings.to_uniform_bytes(UniformLayout::Tight));
    assert_eq!(slice_b, b.settings.to_uniform_bytes(UniformLayout::Tight));
    assert_eq!(
        SettingsRecord::from_uniform_bytes(&slice_a, UniformLayout::Tight),
        Some(a.settings)
    );
    assert_eq!(
        SettingsRecord::from_uniform_bytes(&slice_b, UniformLayout::Tight),
        Some(b.settings)
    );
    // and each camera's view draws with its own binding
    let mut cache = PipelineCache::new();
    let res = build_pipeline_resources(&mut cache, UniformLayout::Tight, 16, 7, 11);
    cache.set_ready(res.pipeline_id);
    let mut view_a = ViewTargetState { texture_a: 1, texture_b: 2, main_is_a: true };
    let mut view_b = ViewTargetState { texture_a: 3, texture_b: 4, main_is_a: true };
    let out_a = run_frame(&cache, res.pipeline_id, 11, Some(0), Some(6), &mut view_a);
    let out_b = run_frame(&cache, res.pipeline_id, 11, Some(40), Some(6), &mut view_b);
    match (out_a, out_b) {
        (FrameOutput::Draw(da), FrameOutput::Draw(db)) => {
            assert_eq!(da.bind_group.settings_binding, 0);
            assert_eq!(db.bind_group.settings_binding, 40);
            assert_ne!(da.bind_group.settings_binding, db.bind_group.settings_binding);
        }
        _ => panic!("expected two draws"),
    }
}

#[test]
fn graph_edges_bracket_the_effect() {
    let layered = registration_edges(GraphMode::Layered);
    assert_eq!(
        layered,
        vec![
            OrderingEdge {
                runs_before: StageLabel::Tonemapping,
                runs_after: StageLabel::VideoGlitch,
            },
            OrderingEdge {
                runs_before: StageLabel::VideoGlitch,
                runs_after: StageLabel::EndMainPassPostProcessing,
            },
        ]
    );
    let flat = registration_edges(GraphMode::Flat);
    assert_eq!(
        flat,
        vec![
            OrderingEdge {
                runs_before: StageLabel::EndMainPass,
                runs_after: StageLabel::VideoGlitch,
            },
            OrderingEdge {
                runs_before: StageLabel::VideoGlitch,
                runs_after: StageLabel::Tonemapping,
            },
        ]
    );
    // the two graphs put tone mapping on opposite sides of the effect
    assert_eq!(layered[0].runs_before, StageLabel::Tonemapping);
    assert_eq!(flat[1].runs_after, StageLabel::Tonemapping);
}

#[test]
fn fragment_entry_point_is_stable() {
    assert_eq!(fragment_entry_point(), "fragment");
}
