use fractal_viewport::events::{App, Reaction, WindowInput};
use fractal_viewport::primitives::{quad_bytes, quad_vertices, Uniforms, QUAD_VERTEX_COUNT};
use fractal_viewport::surface::{preferred_format_index, FrameAction, FrameOutcome, SurfaceLifecycle, SurfacePhase, SurfaceSize};
use fractal_viewport::viewport::{CursorPosition, ViewportController, ZoomDirection, ZoomStep};

fn size(width: u32, height: u32) -> SurfaceSize {
    SurfaceSize { width, height }
}

fn cursor(x: f64, y: f64) -> CursorPosition {
    CursorPosition { x_bits: x.to_bits(), y_bits: y.to_bits() }
}

fn running_app(width: u32, height: u32) -> App {
    let mut app = App::new();
    assert!(app.resumed(size(width, height)));
    app
}

#[test]
fn zero_width_configure_keeps_size() {
    let mut s = SurfaceLifecycle::new(size(800, 600));
    assert!(!s.configure(size(0, 600)));
    assert_eq!(s.size, size(800, 600));
    assert_eq!(s.phase, SurfacePhase::Configured);
}

#[test]
fn zero_height_configure_keeps_size() {
    let mut s = SurfaceLifecycle::new(size(800, 600));
    assert!(!s.configure(size(1024, 0)));
    assert_eq!(s.size, size(800, 600));
}

#[test]
fn configure_applies_new_size_and_repeats() {
    let mut s = SurfaceLifecycle::new(size(800, 600));
    assert!(s.configure(size(1024, 768)));
    assert_eq!(s.size, size(1024, 768));
    let once = s;
    assert!(s.configure(size(1024, 768)));
    assert_eq!(s, once);
}

#[test]
fn zero_initial_size_waits_for_resize() {
    let mut s = SurfaceLifecycle::new(size(0, 0));
    assert_eq!(s.phase, SurfacePhase::Unconfigured);
    assert!(!s.can_render());
    assert!(s.configure(size(640, 480)));
    assert_eq!(s.phase, SurfacePhase::Configured);
    assert!(s.can_render());
}

#[test]
fn lost_surface_recovers_after_configure() {
    let mut s = SurfaceLifecycle::new(size(800, 600));
    let action = s.on_frame_result(FrameOutcome::SurfaceLost);
    assert_eq!(action, FrameAction::Reconfigure(size(800, 600)));
    assert_eq!(s.phase, SurfacePhase::Lost);
    assert!(!s.can_render());
    assert!(s.configure(size(800, 600)));
    assert!(s.can_render());
    assert_eq!(s.on_frame_result(FrameOutcome::Presented), FrameAction::Continue);
}

#[test]
fn out_of_memory_terminates() {
    let mut s = SurfaceLifecycle::new(size(800, 600));
    assert_eq!(s.on_frame_result(FrameOutcome::OutOfMemory), FrameAction::Exit);
    assert_eq!(s.phase, SurfacePhase::Terminated);
    assert!(!s.configure(size(800, 600)));
    assert_eq!(s.phase, SurfacePhase::Terminated);
}

#[test]
fn transient_failure_skips_frame() {
    let mut s = SurfaceLifecycle::new(size(800, 600));
    assert_eq!(s.on_frame_result(FrameOutcome::Other), FrameAction::SkipFrame);
    assert!(s.can_render());
}

#[test]
fn scroll_direction_uses_sign_only() {
    assert_eq!(ZoomDirection::from_scroll(true), ZoomDirection::In);
    assert_eq!(ZoomDirection::from_scroll(false), ZoomDirection::Out);
}

#[test]
fn scroll_without_cursor_has_no_anchor() {
    let mut v = ViewportController::new();
    let step = v.on_scroll(ZoomDirection::In);
    assert_eq!(step, ZoomStep { from_level: 0, to_level: 1, anchor: None });
    assert_eq!(v.zoom_level, 1);
    assert!(v.cursor.is_none());
}

#[test]
fn scroll_after_pointer_move_is_anchored() {
    let mut v = ViewportController::new();
    v.on_pointer_move(cursor(800.0, 300.0));
    let step = v.on_scroll(ZoomDirection::In);
    assert_eq!(step.anchor, Some(cursor(800.0, 300.0)));
    assert_eq!(step.from_level, 0);
    assert_eq!(step.to_level, 1);
    let zoom = 1.05f32.powi(step.to_level);
    assert!((zoom - 1.05).abs() < 1e-6);
}

#[test]
fn zoom_in_then_out_returns_to_start() {
    let mut v = ViewportController::new();
    for _ in 0..25 {
        v.on_scroll(ZoomDirection::In);
    }
    assert_eq!(v.zoom_level, 25);
    for _ in 0..25 {
        v.on_scroll(ZoomDirection::Out);
    }
    assert_eq!(v.zoom_level, 0);
    for _ in 0..7 {
        v.on_scroll(ZoomDirection::Out);
    }
    for _ in 0..7 {
        v.on_scroll(ZoomDirection::In);
    }
    assert_eq!(v.zoom_level, 0);
}

#[test]
fn zoom_level_stops_at_bounds() {
    let mut v = ViewportController { cursor: None, zoom_level: i32::MAX };
    let step = v.on_scroll(ZoomDirection::In);
    assert_eq!(step.to_level, i32::MAX);
    let mut w = ViewportController { cursor: None, zoom_level: i32::MIN };
    w.on_scroll(ZoomDirection::Out);
    assert_eq!(w.zoom_level, i32::MIN);
}

#[test]
fn default_uniforms_bytes() {
    let u = Uniforms::new();
    let mut expected: Vec<u8> = Vec::new();
    for x in [0.0f32, 0.0, 1.0, 1.0] {
        expected.extend_from_slice(&x.to_le_bytes());
    }
    assert_eq!(u.to_bytes(), expected);
}

#[test]
fn uniforms_round_trip() {
    let u = Uniforms::from_view(
        (-0.75f32).to_bits(),
        0.125f32.to_bits(),
        1.05f32.powi(40).to_bits(),
        (800.0f32 / 600.0).to_bits(),
    );
    let bytes = u.to_bytes();
    assert_eq!(bytes.len(), 16);
    assert_eq!(&bytes[0..4], &(-0.75f32).to_le_bytes());
    assert_eq!(&bytes[12..16], &(800.0f32 / 600.0).to_le_bytes());
    assert_eq!(Uniforms::from_bytes(&bytes), Some(u));
}

#[test]
fn uniforms_from_wrong_length_is_none() {
    assert_eq!(Uniforms::from_bytes(&[0u8; 15]), None);
    assert_eq!(Uniforms::from_bytes(&[0u8; 17]), None);
    assert_eq!(Uniforms::from_bytes(&[]), None);
}

#[test]
fn quad_covers_viewport_counter_clockwise() {
    let vs = quad_vertices();
    assert_eq!(vs.len(), QUAD_VERTEX_COUNT);
    let expected: [[f32; 3]; 6] = [
        [-1.0, 1.0, 0.0],
        [-1.0, -1.0, 0.0],
        [1.0, -1.0, 0.0],
        [-1.0, 1.0, 0.0],
        [1.0, -1.0, 0.0],
        [1.0, 1.0, 0.0],
    ];
    let mut bytes: Vec<u8> = Vec::new();
    for (v, e) in vs.iter().zip(expected.iter()) {
        for k in 0..3 {
            assert_eq!(f32::from_bits(v.position[k]), e[k]);
            bytes.extend_from_slice(&e[k].to_le_bytes());
        }
    }
    assert_eq!(quad_bytes(), bytes);
    assert_eq!(quad_bytes().len(), 72);
}

#[test]
fn events_before_surface_are_ignored() {
    let mut app = App::new();
    assert_eq!(app.window_event(WindowInput::Scrolled { delta_is_positive: true }), Reaction::Nothing);
    assert_eq!(app.window_event(WindowInput::Resized(size(10, 10))), Reaction::Nothing);
    assert_eq!(app.window_event(WindowInput::RedrawRequested), Reaction::Nothing);
    assert_eq!(app.viewport.zoom_level, 0);
    assert_eq!(app.window_event(WindowInput::CursorMoved(cursor(1.0, 2.0))), Reaction::Nothing);
    assert_eq!(app.viewport.cursor, Some(cursor(1.0, 2.0)));
}

#[test]
fn surface_is_created_once() {
    let mut app = running_app(800, 600);
    assert!(!app.resumed(size(100, 100)));
    assert_eq!(app.surface.unwrap().size, size(800, 600));
}

#[test]
fn close_requested_exits() {
    let mut app = running_app(800, 600);
    assert_eq!(app.window_event(WindowInput::CloseRequested), Reaction::Exit);
}

#[test]
fn centered_cursor_scroll_in_is_anchored_at_center() {
    let mut app = running_app(800, 600);
    app.window_event(WindowInput::CursorMoved(cursor(400.0, 300.0)));
    for k in 0..5 {
        let r = app.window_event(WindowInput::Scrolled { delta_is_positive: true });
        assert_eq!(
            r,
            Reaction::Zoom(ZoomStep { from_level: k, to_level: k + 1, anchor: Some(cursor(400.0, 300.0)) })
        );
    }
}

#[test]
fn scroll_before_pointer_move_has_no_anchor() {
    let mut app = running_app(800, 600);
    let r = app.window_event(WindowInput::Scrolled { delta_is_positive: false });
    assert_eq!(r, Reaction::Zoom(ZoomStep { from_level: 0, to_level: -1, anchor: None }));
}

#[test]
fn resize_and_redraw_dispatch() {
    let mut app = running_app(800, 600);
    assert_eq!(app.window_event(WindowInput::Resized(size(0, 600))), Reaction::Nothing);
    assert_eq!(app.window_event(WindowInput::Resized(size(1024, 768))), Reaction::ApplySize(size(1024, 768)));
    assert_eq!(app.window_event(WindowInput::RedrawRequested), Reaction::RenderFrame);
    assert_eq!(app.window_event(WindowInput::Ignored), Reaction::Nothing);
}

#[test]
fn lost_frame_heals_through_events() {
    let mut app = running_app(800, 600);
    assert_eq!(app.window_event(WindowInput::RedrawRequested), Reaction::RenderFrame);
    let action = app.frame_finished(FrameOutcome::SurfaceLost);
    assert_eq!(action, FrameAction::Reconfigure(size(800, 600)));
    assert_eq!(app.window_event(WindowInput::RedrawRequested), Reaction::Nothing);
    assert_eq!(app.window_event(WindowInput::Resized(size(800, 600))), Reaction::ApplySize(size(800, 600)));
    assert_eq!(app.window_event(WindowInput::RedrawRequested), Reaction::RenderFrame);
    assert_eq!(app.frame_finished(FrameOutcome::Presented), FrameAction::Continue);
}

#[test]
fn format_prefers_first_srgb() {
    assert_eq!(preferred_format_index(&[false, true, true]), Some(1));
    assert_eq!(preferred_format_index(&[true, false]), Some(0));
    assert_eq!(preferred_format_index(&[false, false]), Some(0));
    assert_eq!(preferred_format_index(&[]), None);
}
