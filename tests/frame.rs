use renderer_backend::scene::{MeshKind, PassCommand, World};
use renderer_backend::surface::{
    choose_surface_format, event_action, frame_action, preferred_format_index, Acquire, EventAction,
    FrameAction, SurfaceLifecycle, WindowEvent,
};

#[test]
fn resize_with_positive_size_reconfigures() {
    let mut s = SurfaceLifecycle::new((800, 600));
    assert!(s.resize((1024, 768)));
    assert_eq!(s.size(), (1024, 768));
    assert_eq!((s.width(), s.height()), (1024, 768));
}

#[test]
fn resize_with_empty_or_negative_size_is_ignored() {
    let mut s = SurfaceLifecycle::new((800, 600));
    for size in [(0, 600), (800, 0), (0, 0), (-5, 600), (800, -1), (-3, -3)] {
        assert!(!s.resize(size));
        assert_eq!(s.size(), (800, 600));
        assert_eq!((s.width(), s.height()), (800, 600));
    }
}

#[test]
fn lost_or_outdated_surface_is_recreated() {
    assert_eq!(frame_action(Acquire::Lost), FrameAction::RecreateSurface);
    assert_eq!(frame_action(Acquire::Outdated), FrameAction::RecreateSurface);
}

#[test]
fn acquired_image_is_drawn() {
    assert_eq!(frame_action(Acquire::Success), FrameAction::Draw);
    assert_eq!(frame_action(Acquire::Suboptimal), FrameAction::Draw);
}

#[test]
fn other_acquire_failures_skip_the_frame() {
    assert_eq!(frame_action(Acquire::Timeout), FrameAction::Skip);
    assert_eq!(frame_action(Acquire::Occluded), FrameAction::Skip);
    assert_eq!(frame_action(Acquire::Validation), FrameAction::Skip);
}

#[test]
fn window_events_map_to_actions() {
    assert_eq!(event_action(WindowEvent::Moved), EventAction::RecreateAndResize);
    assert_eq!(event_action(WindowEvent::FramebufferResized), EventAction::RecreateAndResize);
    assert_eq!(event_action(WindowEvent::EscapePressed), EventAction::Close);
    assert_eq!(event_action(WindowEvent::Other), EventAction::Ignore);
}

#[test]
fn first_srgb_format_is_preferred() {
    assert_eq!(preferred_format_index(&vec![false, true, true]), Some(1));
    assert_eq!(preferred_format_index(&vec![false, false]), Some(0));
    assert_eq!(preferred_format_index(&vec![]), None);
}

#[test]
fn surface_format_prefers_srgb() {
    let formats = vec![wgpu::TextureFormat::Bgra8Unorm, wgpu::TextureFormat::Bgra8UnormSrgb];
    assert_eq!(choose_surface_format(&formats), Some(wgpu::TextureFormat::Bgra8UnormSrgb));
    let formats = vec![wgpu::TextureFormat::Rgba16Float, wgpu::TextureFormat::Bgra8Unorm];
    assert_eq!(choose_surface_format(&formats), Some(wgpu::TextureFormat::Rgba16Float));
    assert_eq!(choose_surface_format(&vec![]), None);
}

#[test]
fn quads_are_drawn_before_triangles() {
    let mut w: World<&str> = World::new();
    assert_eq!(w.object_count(), 0);
    assert_eq!(w.pass_commands().len(), 5);
    w.tris.push("t0");
    w.quads.push("q0");
    w.quads.push("q1");
    assert_eq!(w.object_count(), 3);
    assert_eq!(w.quad_slot(1), 1);
    assert_eq!(w.tri_slot(0), 2);
    assert_eq!(*w.object(0), "q0");
    assert_eq!(*w.object(1), "q1");
    assert_eq!(*w.object(2), "t0");
    assert_eq!(
        w.pass_commands(),
        vec![
            PassCommand::SetPipeline,
            PassCommand::SetMaterial(MeshKind::Quad),
            PassCommand::SetMesh(MeshKind::Quad),
            PassCommand::SetObject(0),
            PassCommand::DrawIndexed(6),
            PassCommand::SetObject(1),
            PassCommand::DrawIndexed(6),
            PassCommand::SetMaterial(MeshKind::Triangle),
            PassCommand::SetMesh(MeshKind::Triangle),
            PassCommand::SetObject(2),
            PassCommand::Draw(3),
        ]
    );
}
