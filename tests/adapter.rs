use servoshell::geometry::DrawableGeometry;
use servoshell::servo::{
    is_within_click_distance, BrowserId, Cursor, EngineCommand, Servo, ServoCallbacks, ServoEvent,
};
use servoshell::view::{ElementState, MouseButton, TouchPhase};

fn plain_geometry() -> DrawableGeometry {
    DrawableGeometry { view_size: (800, 600), margins: (0, 0, 0, 0), position: (10, 20), hidpi_factor: 1 }
}

fn chrome_geometry() -> DrawableGeometry {
    DrawableGeometry { view_size: (800, 600), margins: (40, 5, 10, 20), position: (0, 0), hidpi_factor: 2 }
}

#[test]
fn margins_are_subtracted_at_device_scale() {
    let g = chrome_geometry();
    assert_eq!(g.content_point_of(100, 100), (60, 20));
    assert_eq!(g.content_point_of(i32::MIN, 0), (i32::MIN, -80));
}

#[test]
fn framebuffer_and_content_rect() {
    let g = chrome_geometry();
    assert_eq!(g.framebuffer(), (1600, 1200));
    assert_eq!(g.content_rect(), (40, 80, 1550, 1100));
    let big = DrawableGeometry { view_size: (u32::MAX, 1), margins: (0, 0, 0, 0), position: (0, 0), hidpi_factor: 2 };
    assert_eq!(big.framebuffer(), (u32::MAX, 2));
}

#[test]
fn click_distance() {
    assert!(is_within_click_distance(100, 100, 105, 103));
    assert!(!is_within_click_distance(100, 100, 200, 200));
    assert!(!is_within_click_distance(0, 0, 10, 0));
    assert!(is_within_click_distance(0, 0, 9, 0));
    assert!(!is_within_click_distance(i32::MIN, i32::MIN, i32::MAX, i32::MAX));
}

#[test]
fn press_then_near_release_is_a_click() {
    let mut servo = Servo::new(plain_geometry());
    servo.perform_click(100, 100, 0, 0, ElementState::Pressed, MouseButton::Left, None);
    servo.perform_click(105, 103, 100, 100, ElementState::Released, MouseButton::Left, Some(MouseButton::Left));
    assert_eq!(
        servo.sync(false),
        Some(vec![
            EngineCommand::MouseDown(MouseButton::Left, 100, 100),
            EngineCommand::MouseUp(MouseButton::Left, 105, 103),
            EngineCommand::Click(MouseButton::Left, 105, 103),
        ])
    );
}

#[test]
fn far_release_is_no_click() {
    let mut servo = Servo::new(plain_geometry());
    servo.perform_click(200, 200, 100, 100, ElementState::Released, MouseButton::Left, Some(MouseButton::Left));
    assert_eq!(servo.sync(false), Some(vec![EngineCommand::MouseUp(MouseButton::Left, 200, 200)]));
}

#[test]
fn release_of_another_button_is_no_click() {
    let mut servo = Servo::new(plain_geometry());
    servo.perform_click(100, 100, 100, 100, ElementState::Released, MouseButton::Right, Some(MouseButton::Left));
    servo.perform_click(100, 100, 100, 100, ElementState::Released, MouseButton::Right, None);
    assert_eq!(
        servo.sync(false),
        Some(vec![
            EngineCommand::MouseUp(MouseButton::Right, 100, 100),
            EngineCommand::MouseUp(MouseButton::Right, 100, 100),
        ])
    );
}

#[test]
fn pointer_moves_are_relative_to_content() {
    let mut servo = Servo::new(chrome_geometry());
    servo.perform_mouse_move(50, 90);
    servo.perform_scroll(0, 0, 3, -4, TouchPhase::Moved);
    assert_eq!(
        servo.sync(false),
        Some(vec![EngineCommand::MouseMove(10, 10), EngineCommand::Scroll(3, -4, -40, -80, TouchPhase::Moved)])
    );
}

#[test]
fn sync_flushes_only_when_needed() {
    let mut servo = Servo::new(plain_geometry());
    assert_eq!(servo.sync(false), None);
    assert_eq!(servo.sync(true), Some(vec![]));
    let id = BrowserId(7);
    servo.reload(id);
    servo.go_back(id);
    servo.go_forward(id);
    servo.load_url(id, "https://servo.org/".to_string());
    servo.zoom(2);
    servo.reset_zoom();
    servo.close_browser(id);
    assert_eq!(
        servo.sync(false),
        Some(vec![
            EngineCommand::Reload(id),
            EngineCommand::GoBack(id),
            EngineCommand::GoForward(id),
            EngineCommand::LoadUrl(id, "https://servo.org/".to_string()),
            EngineCommand::Zoom(2),
            EngineCommand::ResetZoom,
            EngineCommand::CloseBrowser(id),
        ])
    );
    assert_eq!(servo.sync(false), None);
}

#[test]
fn profiler_switch_queues_nothing() {
    let mut servo = Servo::new(plain_geometry());
    servo.set_webrender_profiler_enabled(true);
    assert_eq!(servo.sync(false), None);
}

#[test]
fn geometry_update_resizes() {
    let mut servo = Servo::new(plain_geometry());
    servo.update_geometry(chrome_geometry());
    assert_eq!(servo.sync(false), Some(vec![EngineCommand::Resize(1600, 1200)]));
    assert_eq!(servo.callbacks_mut().window_rect(), (40, 80, 1550, 1100));
}

#[test]
fn configure_resources() {
    assert_eq!(Servo::configure(Some("/opt/app".to_string())), Ok("/opt/app/servo_resources".to_string()));
    assert!(Servo::configure(None).is_err());
}

#[test]
fn callbacks_keep_reports_in_order() {
    let mut callbacks = ServoCallbacks::new(plain_geometry());
    let id = BrowserId(1);
    callbacks.load_start(id);
    callbacks.set_page_title(id, Some("Servo".to_string()));
    callbacks.set_cursor(Cursor::Pointer);
    callbacks.load_end(id);
    assert_eq!(
        callbacks.get_events(),
        vec![
            ServoEvent::LoadStart(id),
            ServoEvent::TitleChanged(id, Some("Servo".to_string())),
            ServoEvent::CursorChanged(Cursor::Pointer),
            ServoEvent::LoadEnd(id),
        ]
    );
    assert_eq!(callbacks.get_events(), vec![]);
}

#[test]
fn callbacks_answer_geometry() {
    let callbacks = ServoCallbacks::new(plain_geometry());
    assert_eq!(callbacks.size(), (800, 600));
    assert_eq!(callbacks.client_window(BrowserId(1)), ((800, 600), (10, 20)));
    assert_eq!(callbacks.hidpi_factor(), 1);
    assert_eq!(callbacks.framebuffer_size(), (800, 600));
    assert!(callbacks.prepare_for_composite(1, 1));
    assert!(!callbacks.supports_clipboard());
    assert!(callbacks.allow_navigation(BrowserId(1), "https://servo.org/"));
}
