use wgpu_shapes::geometry::Shape;
use wgpu_shapes::state::{
    Action, DrawPlan, Key, RenderPath, State, SurfaceFault, WindowInput,
};

fn configured() -> State {
    let mut s = State::new(800, 600);
    assert!(s.resize(800, 600));
    s
}

#[test]
fn new_state_is_unconfigured_pentagon() {
    let s = State::new(800, 600);
    assert_eq!(s.width, 800);
    assert_eq!(s.height, 600);
    assert!(!s.is_surface_configured);
    assert!(!s.use_color);
    assert!(!s.use_funny);
    assert_eq!(s.render_path(), RenderPath::Plain);
    assert_eq!(s.draw_plan(), None);
}

#[test]
fn resize_with_zero_side_is_ignored() {
    let mut s = State::new(800, 600);
    assert!(!s.resize(0, 600));
    assert!(!s.resize(800, 0));
    assert!(!s.resize(0, 0));
    assert_eq!(s, State::new(800, 600));
}

#[test]
fn resize_records_size_and_configures() {
    let mut s = State::new(800, 600);
    assert!(s.resize(1024, 768));
    assert_eq!((s.width, s.height), (1024, 768));
    assert!(s.is_surface_configured);
    assert!(s.resize(u32::MAX, 1));
    assert_eq!((s.width, s.height), (u32::MAX, 1));
}

#[test]
fn keys_select_the_render_path() {
    let mut s = configured();
    assert!(!s.handle_key(Key::F, true));
    assert_eq!(s.render_path(), RenderPath::Letters);
    assert!(!s.handle_key(Key::F, false));
    assert_eq!(s.render_path(), RenderPath::Letters);
    assert!(!s.handle_key(Key::C, true));
    assert_eq!(s.render_path(), RenderPath::SolidColor);
    assert!(!s.handle_key(Key::C, false));
    assert_eq!(s.render_path(), RenderPath::SolidColor);
    assert!(!s.handle_key(Key::C, true));
    assert_eq!(s.render_path(), RenderPath::Letters);
    assert!(!s.handle_key(Key::F, true));
    assert_eq!(s.render_path(), RenderPath::Plain);
    assert!(!s.handle_key(Key::Other, true));
    assert_eq!(s.render_path(), RenderPath::Plain);
}

#[test]
fn second_press_toggles_back_and_releases_change_nothing() {
    let mut s = configured();
    s.handle_key(Key::C, true);
    assert!(s.use_color);
    s.handle_key(Key::C, false);
    assert!(s.use_color);
    s.handle_key(Key::C, true);
    assert!(!s.use_color);
    assert!(!s.use_funny);
    s.handle_key(Key::F, false);
    assert_eq!(s, configured());
}

#[test]
fn escape_press_exits_release_does_not() {
    let mut s = configured();
    assert!(!s.handle_key(Key::Escape, false));
    assert!(s.handle_key(Key::Escape, true));
    assert_eq!(s, configured());
}

#[test]
fn draw_plans_for_each_path() {
    let mut s = configured();
    assert_eq!(
        s.draw_plan(),
        Some(DrawPlan::Indexed { shape: Shape::Pentagon, index_count: 9 })
    );
    s.handle_key(Key::F, true);
    assert_eq!(
        s.draw_plan(),
        Some(DrawPlan::Indexed { shape: Shape::Letters, index_count: 48 })
    );
    s.handle_key(Key::C, true);
    assert_eq!(s.draw_plan(), Some(DrawPlan::SolidColor { vertex_count: 3 }));
}

#[test]
fn window_events_drive_the_state() {
    let mut s = State::new(800, 600);
    assert_eq!(s.window_event(WindowInput::RedrawRequested), Action::Nothing);
    assert_eq!(
        s.window_event(WindowInput::Resized { width: 0, height: 0 }),
        Action::Nothing
    );
    assert!(!s.is_surface_configured);
    assert_eq!(
        s.window_event(WindowInput::Resized { width: 640, height: 480 }),
        Action::Configure { width: 640, height: 480 }
    );
    assert_eq!(
        s.window_event(WindowInput::RedrawRequested),
        Action::Draw(DrawPlan::Indexed { shape: Shape::Pentagon, index_count: 9 })
    );
    assert_eq!(
        s.window_event(WindowInput::Keyboard { key: Key::C, pressed: true }),
        Action::Nothing
    );
    assert_eq!(
        s.window_event(WindowInput::RedrawRequested),
        Action::Draw(DrawPlan::SolidColor { vertex_count: 3 })
    );
    assert_eq!(s.window_event(WindowInput::Other), Action::Nothing);
    assert_eq!(
        s.window_event(WindowInput::Keyboard { key: Key::Escape, pressed: true }),
        Action::Exit
    );
    assert_eq!(s.window_event(WindowInput::CloseRequested), Action::Exit);
}

#[test]
fn lost_or_outdated_surface_is_configured_again() {
    for fault in [SurfaceFault::Lost, SurfaceFault::Outdated] {
        let mut s = configured();
        assert_eq!(
            s.render_fault(fault, 800, 600),
            Action::Configure { width: 800, height: 600 }
        );
        assert_eq!(s, configured());
        let mut m = configured();
        assert_eq!(m.render_fault(fault, 0, 600), Action::Nothing);
        assert_eq!(m, configured());
    }
}

#[test]
fn out_of_memory_exits_other_faults_are_reported() {
    let mut s = configured();
    assert_eq!(s.render_fault(SurfaceFault::OutOfMemory, 800, 600), Action::Exit);
    assert_eq!(s.render_fault(SurfaceFault::Timeout, 800, 600), Action::ReportError);
    assert_eq!(s.render_fault(SurfaceFault::Other, 800, 600), Action::ReportError);
    assert_eq!(s, configured());
}
