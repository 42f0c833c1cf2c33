use terrain_view::controls::Command;
use terrain_view::frame::{EventAction, FrameOutcome, Session, SurfaceFailure, SurfaceSize, WindowEvent};
use terrain_view::keys::{Key, KeyboardMode};
use terrain_view::layout::{
    buffer_size, check_group, group_entries, layout_entries, pipeline_bind_groups, vertex_words,
    BindGroupId, BuildProgress, BuildStage, GroupEntry, PipelineId, Resource,
};

#[test]
fn resize_then_render() {
    let mut s = Session::new(1376, 768);
    let a = s.handle_event(WindowEvent::Resized { width: 640, height: 480 });
    assert_eq!(a, EventAction::Reconfigure(SurfaceSize { width: 640, height: 480 }));
    assert_eq!(s.handle_event(WindowEvent::RedrawRequested), EventAction::Frame);
    assert_eq!(s.after_render(None), FrameOutcome::Presented);
    assert_eq!(s.size(), SurfaceSize { width: 640, height: 480 });
}

#[test]
fn zero_resize_is_ignored() {
    let mut s = Session::new(1376, 768);
    assert_eq!(s.handle_event(WindowEvent::Resized { width: 0, height: 480 }), EventAction::Nothing);
    assert!(!s.resize(640, 0));
    assert_eq!(s.size(), SurfaceSize { width: 1376, height: 768 });
}

#[test]
fn surface_failures() {
    let s = Session::new(800, 600);
    assert_eq!(
        s.after_render(Some(SurfaceFailure::Lost)),
        FrameOutcome::Reconfigure(SurfaceSize { width: 800, height: 600 })
    );
    assert_eq!(s.after_render(Some(SurfaceFailure::OutOfMemory)), FrameOutcome::Exit);
    assert_eq!(
        s.after_render(Some(SurfaceFailure::Timeout)),
        FrameOutcome::Skipped(SurfaceFailure::Timeout)
    );
    assert_eq!(
        s.after_render(Some(SurfaceFailure::Outdated)),
        FrameOutcome::Skipped(SurfaceFailure::Outdated)
    );
}

#[test]
fn close_exits() {
    let mut s = Session::new(800, 600);
    assert_eq!(s.handle_event(WindowEvent::CloseRequested), EventAction::Exit);
    assert_eq!(s.handle_event(WindowEvent::Other), EventAction::Nothing);
}

#[test]
fn focus_loss_clears_keys() {
    let mut s = Session::new(800, 600);
    s.handle_event(WindowEvent::KeyboardInput { key: Key::ArrowUp, pressed: true });
    s.handle_event(WindowEvent::KeyboardInput { key: Key::ShiftLeft, pressed: true });
    assert_eq!(s.controls().get_keys().len(), 2);
    assert_eq!(s.handle_event(WindowEvent::Focused(false)), EventAction::FocusLost);
    assert_eq!(s.handle_event(WindowEvent::Focused(true)), EventAction::Nothing);
    assert!(s.controls().get_keys().is_empty());
    // PRINT first, then VIEW with nothing held.
    assert_eq!(s.update(), Command::PrintParams);
    assert_eq!(s.update(), Command::Nothing);
    assert_eq!(s.controls().get_mode(), KeyboardMode::VIEW);
}

#[test]
fn bind_groups_match_layouts() {
    for g in [
        BindGroupId::Uniform,
        BindGroupId::Fragment,
        BindGroupId::Compute,
        BindGroupId::Texture,
        BindGroupId::SampledTexture,
    ] {
        assert!(check_group(&layout_entries(g), &group_entries(g)));
    }
    let slots: Vec<u32> = layout_entries(BindGroupId::Fragment).iter().map(|e| e.binding).collect();
    assert_eq!(slots, vec![0, 1, 7, 8, 9]);
}

#[test]
fn mismatched_groups_are_refused() {
    let layout = layout_entries(BindGroupId::Fragment);
    let mut group = group_entries(BindGroupId::Fragment);
    group.swap(2, 4);
    assert!(!check_group(&layout, &group));
    let short = vec![GroupEntry { binding: 0, resource: Resource::RayParams }];
    assert!(!check_group(&layout, &short));
    let wrong_kind = vec![GroupEntry { binding: 0, resource: Resource::RayParams }];
    assert!(!check_group(&layout_entries(BindGroupId::Uniform), &wrong_kind));
}

#[test]
fn buffer_sizes() {
    assert_eq!(buffer_size(Resource::ViewParams), 28);
    assert_eq!(buffer_size(Resource::RayParams), 12);
    assert_eq!(buffer_size(Resource::DebugArray1), 8192);
    assert_eq!(buffer_size(Resource::GenericDebug), 16);
    assert_eq!(buffer_size(Resource::TimeUniform), 4);
    assert_eq!(buffer_size(Resource::TerrainSampler), 0);
}

#[test]
fn pipelines_use_their_groups() {
    assert_eq!(
        pipeline_bind_groups(PipelineId::Render),
        vec![BindGroupId::Uniform, BindGroupId::Fragment, BindGroupId::SampledTexture]
    );
    assert_eq!(
        pipeline_bind_groups(PipelineId::GenerateTerrain),
        vec![BindGroupId::Uniform, BindGroupId::Compute, BindGroupId::Texture]
    );
}

#[test]
fn build_order_is_enforced() {
    let mut b = BuildProgress::new();
    assert!(!b.advance(BuildStage::BindGroups));
    assert!(b.advance(BuildStage::Buffers));
    assert!(b.advance(BuildStage::Textures));
    assert!(!b.advance(BuildStage::Pipelines));
    assert!(b.advance(BuildStage::BindGroups));
    assert!(b.advance(BuildStage::Pipelines));
    assert!(!b.advance(BuildStage::Pipelines));
}

#[test]
fn quad_vertices() {
    let w = vertex_words();
    assert_eq!(w.len(), 12);
    assert_eq!(f32::from_bits(w[0]), -1.0);
    assert_eq!(f32::from_bits(w[8]), 1.0);
    assert_eq!(f32::from_bits(w[11]), 1.0);
}
