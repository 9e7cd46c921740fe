use servoshell::app::{AppCommand, AppEvent, AppSurface};
use servoshell::geometry::DrawableGeometry;
use servoshell::servo::{BrowserId, Cursor, Engine, EngineCommand, Servo, ServoEvent};
use servoshell::shell::{
    after_settled, handle_app_event, handle_servo_event, handle_view_event, handle_window_command, handle_window_event,
    initial_url, process_batch, start, tick, TickOutcome,
};
use servoshell::state::{AppState, BrowserState, WindowState};
use servoshell::view::{ElementState, MouseButton, ViewEvent, ViewSurface};
use servoshell::window::{WindowCommand, WindowEvent, WindowSurface};

struct FakeEngine {
    next_id: u64,
    opened: Vec<String>,
    batches: Vec<Vec<EngineCommand>>,
}

impl FakeEngine {
    fn new() -> FakeEngine {
        FakeEngine { next_id: 1, opened: vec![], batches: vec![] }
    }
}

impl Engine for FakeEngine {
    fn new_browser(&mut self, url: &str) -> BrowserId {
        self.opened.push(url.to_string());
        let id = BrowserId(self.next_id);
        self.next_id += 1;
        id
    }

    fn handle_events(&mut self, commands: Vec<EngineCommand>) {
        self.batches.push(commands);
    }

    fn version(&self) -> String {
        "test engine".to_string()
    }
}

#[derive(Default)]
struct FakeSurfaces {
    app_events: Vec<AppEvent>,
    window_events: Vec<WindowEvent>,
    view_events: Vec<ViewEvent>,
    app_renders: usize,
    window_renders: usize,
    opened_externally: Vec<String>,
    fullscreen: bool,
    drawable_updates: usize,
    logs: Vec<String>,
}

impl AppSurface for FakeSurfaces {
    fn get_events(&mut self) -> Vec<AppEvent> {
        std::mem::take(&mut self.app_events)
    }

    fn render(&mut self, _state: &AppState) {
        self.app_renders += 1;
    }
}

impl WindowSurface for FakeSurfaces {
    fn get_events(&mut self) -> Vec<WindowEvent> {
        std::mem::take(&mut self.window_events)
    }

    fn render(&mut self, _state: &AppState) {
        self.window_renders += 1;
    }

    fn open_in_default_browser(&mut self, url: &str) {
        self.opened_externally.push(url.to_string());
    }

    fn append_logs(&mut self, logs: &Vec<String>) {
        self.logs.extend(logs.iter().cloned());
    }
}

impl ViewSurface for FakeSurfaces {
    fn get_events(&mut self) -> Vec<ViewEvent> {
        std::mem::take(&mut self.view_events)
    }

    fn get_geometry(&self) -> DrawableGeometry {
        DrawableGeometry { view_size: (400, 300), margins: (0, 0, 0, 0), position: (0, 0), hidpi_factor: 1 }
    }

    fn update_drawable(&mut self) {
        self.drawable_updates += 1;
    }

    fn enter_fullscreen(&mut self) {
        self.fullscreen = true;
    }

    fn exit_fullscreen(&mut self) {
        self.fullscreen = false;
    }
}

fn geometry() -> DrawableGeometry {
    DrawableGeometry { view_size: (400, 300), margins: (0, 0, 0, 0), position: (0, 0), hidpi_factor: 1 }
}

/// A window with tabs 1, 2, 3 (by id), the first selected.
fn three_tabs() -> WindowState {
    let mut w = WindowState::new(BrowserState::new(BrowserId(1)));
    w.add_tab(BrowserState::new(BrowserId(2)));
    w.add_tab(BrowserState::new(BrowserId(3)));
    w.current_browser_index = Some(0);
    w
}

fn ids(w: &WindowState) -> Vec<u64> {
    w.browsers.iter().map(|b| b.id.0).collect()
}

#[test]
fn new_tab_goes_last_and_is_selected() {
    let mut w = WindowState::new(BrowserState::new(BrowserId(1)));
    w.add_tab(BrowserState::new(BrowserId(2)));
    assert_eq!(ids(&w), vec![1, 2]);
    assert_eq!(w.current_browser_index, Some(1));
}

#[test]
fn closing_a_middle_tab_selects_its_successor() {
    let mut w = three_tabs();
    w.current_browser_index = Some(1);
    let mut servo = Servo::new(geometry());
    assert!(w.close_tab(&mut servo));
    assert_eq!(ids(&w), vec![1, 3]);
    assert_eq!(w.current_browser_index, Some(1));
    assert_eq!(
        servo.sync(false),
        Some(vec![EngineCommand::SelectBrowser(BrowserId(3)), EngineCommand::CloseBrowser(BrowserId(2))])
    );
}

#[test]
fn closing_the_last_tab_selects_its_predecessor() {
    let mut w = three_tabs();
    w.current_browser_index = Some(2);
    let mut servo = Servo::new(geometry());
    assert!(w.close_tab(&mut servo));
    assert_eq!(ids(&w), vec![1, 2]);
    assert_eq!(w.current_browser_index, Some(1));
    assert_eq!(
        servo.sync(false),
        Some(vec![EngineCommand::SelectBrowser(BrowserId(2)), EngineCommand::CloseBrowser(BrowserId(3))])
    );
}

#[test]
fn the_only_tab_stays() {
    let mut w = WindowState::new(BrowserState::new(BrowserId(1)));
    let mut servo = Servo::new(geometry());
    assert!(!w.close_tab(&mut servo));
    assert_eq!(ids(&w), vec![1]);
    assert_eq!(w.current_browser_index, Some(0));
    assert_eq!(servo.sync(false), None);
}

#[test]
fn open_close_sequence_keeps_a_tab() {
    let mut engine = FakeEngine::new();
    let mut servo = Servo::new(geometry());
    let mut surfaces = FakeSurfaces::default();
    let mut w = WindowState::new(BrowserState::new(BrowserId(100)));
    let script = [
        WindowCommand::CloseTab,
        WindowCommand::NewTab,
        WindowCommand::NewTab,
        WindowCommand::CloseTab,
        WindowCommand::CloseTab,
        WindowCommand::CloseTab,
        WindowCommand::NewTab,
        WindowCommand::PrevTab,
        WindowCommand::CloseTab,
    ];
    for cmd in script.iter() {
        let mut other = FakeSurfaces::default();
        handle_window_command(&mut w, &mut servo, &mut surfaces, &mut other, &mut engine, cmd.clone());
        assert!(!w.browsers.is_empty());
        assert!(w.current_browser_index.unwrap() < w.browsers.len());
    }
    assert_eq!(engine.opened, vec!["about:blank", "about:blank", "about:blank"]);
}

#[test]
fn next_and_prev_wrap_around() {
    let mut w = three_tabs();
    let mut servo = Servo::new(geometry());
    w.prev_tab(&mut servo);
    assert_eq!(w.current_browser_index, Some(2));
    w.next_tab(&mut servo);
    assert_eq!(w.current_browser_index, Some(0));
    w.next_tab(&mut servo);
    assert_eq!(w.current_browser_index, Some(1));
    assert_eq!(
        servo.sync(false),
        Some(vec![
            EngineCommand::SelectBrowser(BrowserId(3)),
            EngineCommand::SelectBrowser(BrowserId(1)),
            EngineCommand::SelectBrowser(BrowserId(2)),
        ])
    );
}

#[test]
fn selecting_the_selected_tab_does_nothing() {
    let mut w = three_tabs();
    let mut servo = Servo::new(geometry());
    let mut engine = FakeEngine::new();
    let mut view = FakeSurfaces::default();
    let mut window = FakeSurfaces::default();
    let dirty = handle_window_command(&mut w, &mut servo, &mut view, &mut window, &mut engine, WindowCommand::SelectTab(0));
    assert!(!dirty);
    assert_eq!(servo.sync(false), None);
    let dirty = handle_window_command(&mut w, &mut servo, &mut view, &mut window, &mut engine, WindowCommand::SelectTab(2));
    assert!(dirty);
    assert_eq!(w.current_browser_index, Some(2));
    assert_eq!(servo.sync(false), Some(vec![EngineCommand::SelectBrowser(BrowserId(3))]));
}

#[test]
fn selecting_a_missing_tab_does_nothing() {
    let mut w = three_tabs();
    let mut servo = Servo::new(geometry());
    assert!(!w.select_tab(&mut servo, 3));
    assert_eq!(w.current_browser_index, Some(0));
    assert_eq!(servo.sync(false), None);
}

#[test]
fn zoom_in_then_out_restores() {
    let mut w = three_tabs();
    let mut servo = Servo::new(geometry());
    w.zoom_in(&mut servo);
    assert_eq!(w.browsers[0].zoom_level, 1);
    w.zoom_out(&mut servo);
    assert_eq!(w.browsers[0].zoom_level, 0);
    w.zoom_out(&mut servo);
    w.zoom_out(&mut servo);
    w.reset_zoom(&mut servo);
    assert_eq!(w.browsers[0].zoom_level, 0);
    assert_eq!(
        servo.sync(false),
        Some(vec![
            EngineCommand::Zoom(1),
            EngineCommand::Zoom(0),
            EngineCommand::Zoom(-1),
            EngineCommand::Zoom(-2),
            EngineCommand::ResetZoom,
        ])
    );
}

#[test]
fn zoom_saturates_at_the_largest_level() {
    let mut w = three_tabs();
    let mut servo = Servo::new(geometry());
    w.browsers[0].zoom_level = i32::MAX;
    w.zoom_in(&mut servo);
    assert_eq!(w.browsers[0].zoom_level, i32::MAX);
}

#[test]
fn load_keeps_input_and_loads_resolved_url() {
    let mut w = three_tabs();
    let mut servo = Servo::new(geometry());
    assert!(w.load(&mut servo, "example.com".to_string()));
    assert_eq!(w.browsers[0].user_input, Some("example.com".to_string()));
    assert_eq!(
        servo.sync(false),
        Some(vec![EngineCommand::LoadUrl(BrowserId(1), "http://example.com/".to_string())])
    );
}

#[test]
fn unknown_tab_report_changes_nothing() {
    let mut state = AppState::new(BrowserState::new(BrowserId(1)));
    let mut view = FakeSurfaces::default();
    let dirty = handle_servo_event(&mut state, &mut view, ServoEvent::TitleChanged(BrowserId(9), Some("x".to_string())));
    assert!(!dirty);
    assert_eq!(state.windows[0].browsers[0].title, None);
    let dirty = handle_servo_event(&mut state, &mut view, ServoEvent::LoadStart(BrowserId(9)));
    assert!(!dirty);
    assert!(!state.windows[0].browsers[0].is_loading);
}

#[test]
fn reports_update_the_matching_tab() {
    let mut state = AppState::new(BrowserState::new(BrowserId(1)));
    state.windows[0].add_tab(BrowserState::new(BrowserId(2)));
    let mut view = FakeSurfaces::default();
    assert!(handle_servo_event(&mut state, &mut view, ServoEvent::TitleChanged(BrowserId(2), Some("Two".to_string()))));
    assert!(handle_servo_event(&mut state, &mut view, ServoEvent::LoadStart(BrowserId(2))));
    let entries = vec!["https://a/".to_string(), "https://b/".to_string(), "https://c/".to_string()];
    assert!(handle_servo_event(&mut state, &mut view, ServoEvent::HistoryChanged(BrowserId(2), entries, 1)));
    let b = &state.windows[0].browsers[1];
    assert_eq!(b.title, Some("Two".to_string()));
    assert!(b.is_loading);
    assert_eq!(b.url, Some("https://b/".to_string()));
    assert!(b.can_go_back);
    assert!(b.can_go_forward);
    assert_eq!(state.windows[0].browsers[0].title, None);
    assert!(handle_servo_event(&mut state, &mut view, ServoEvent::LoadEnd(BrowserId(2))));
    assert!(!state.windows[0].browsers[1].is_loading);
}

#[test]
fn history_at_the_end_cannot_go_forward() {
    let mut state = AppState::new(BrowserState::new(BrowserId(1)));
    let mut view = FakeSurfaces::default();
    let entries = vec!["https://a/".to_string()];
    assert!(handle_servo_event(&mut state, &mut view, ServoEvent::HistoryChanged(BrowserId(1), entries, 0)));
    let b = &state.windows[0].browsers[0];
    assert_eq!(b.url, Some("https://a/".to_string()));
    assert!(!b.can_go_back);
    assert!(!b.can_go_forward);
    let entries = vec!["https://a/".to_string()];
    assert!(!handle_servo_event(&mut state, &mut view, ServoEvent::HistoryChanged(BrowserId(1), entries, 1)));
}

#[test]
fn status_cursor_and_fullscreen() {
    let mut state = AppState::new(BrowserState::new(BrowserId(1)));
    let mut view = FakeSurfaces::default();
    assert!(handle_servo_event(&mut state, &mut view, ServoEvent::StatusChanged(Some("busy".to_string()))));
    assert_eq!(state.windows[0].status, Some("busy".to_string()));
    assert!(handle_servo_event(&mut state, &mut view, ServoEvent::CursorChanged(Cursor::Text)));
    assert_eq!(state.cursor, Cursor::Text);
    assert!(!handle_servo_event(&mut state, &mut view, ServoEvent::SetFullScreenState(true)));
    assert!(view.fullscreen);
    assert!(!handle_servo_event(&mut state, &mut view, ServoEvent::SetFullScreenState(false)));
    assert!(!view.fullscreen);
}

#[test]
fn empty_queues_are_idle_and_render_nothing() {
    let mut state = AppState::new(BrowserState::new(BrowserId(1)));
    let mut servo = Servo::new(geometry());
    let mut engine = FakeEngine::new();
    let mut app = FakeSurfaces::default();
    let mut window = FakeSurfaces::default();
    let mut view = FakeSurfaces::default();
    let r = tick(&mut state, &mut servo, &mut app, &mut window, &mut view, &mut engine);
    assert_eq!(r, TickOutcome::Idle);
    assert_eq!(app.app_renders, 0);
    assert_eq!(window.window_renders, 0);
    assert!(engine.batches.is_empty());
}

#[test]
fn a_tick_renders_once_and_flushes() {
    let mut engine = FakeEngine::new();
    let mut servo = Servo::new(geometry());
    let mut state = start(&mut servo, &mut engine, "https://servo.org/");
    let mut app = FakeSurfaces::default();
    let mut window = FakeSurfaces::default();
    let mut view = FakeSurfaces::default();
    window.window_events = vec![
        WindowEvent::DoCommand(WindowCommand::ZoomIn),
        WindowEvent::DoCommand(WindowCommand::ToggleSidebar),
        WindowEvent::DoCommand(WindowCommand::Reload),
    ];
    let r = tick(&mut state, &mut servo, &mut app, &mut window, &mut view, &mut engine);
    assert_eq!(r, TickOutcome::Processed { rendered: true });
    assert_eq!(app.app_renders, 1);
    assert_eq!(window.window_renders, 1);
    assert!(state.windows[0].sidebar_is_open);
    assert_eq!(
        engine.batches,
        vec![vec![
            EngineCommand::SelectBrowser(BrowserId(1)),
            EngineCommand::SelectBrowser(BrowserId(1)),
            EngineCommand::Zoom(1),
            EngineCommand::Reload(BrowserId(1)),
        ]]
    );
    let r = tick(&mut state, &mut servo, &mut app, &mut window, &mut view, &mut engine);
    assert_eq!(r, TickOutcome::Idle);
}

#[test]
fn wake_up_forces_a_flush() {
    let mut state = AppState::new(BrowserState::new(BrowserId(1)));
    let mut servo = Servo::new(geometry());
    let mut engine = FakeEngine::new();
    let mut app = FakeSurfaces::default();
    let mut window = FakeSurfaces::default();
    let mut view = FakeSurfaces::default();
    let r = process_batch(
        &mut state,
        &mut servo,
        &mut app,
        &mut window,
        &mut view,
        &mut engine,
        vec![],
        vec![WindowEvent::EventLoopAwaken],
        vec![],
        vec![],
    );
    assert_eq!(r, TickOutcome::Processed { rendered: false });
    assert_eq!(engine.batches, vec![Vec::<EngineCommand>::new()]);
    assert_eq!(app.app_renders, 0);
}

#[test]
fn dark_theme_toggles() {
    let mut state = AppState::new(BrowserState::new(BrowserId(1)));
    let mut servo = Servo::new(geometry());
    let mut view = FakeSurfaces::default();
    assert!(handle_app_event(&mut state, &mut servo, &mut view, AppEvent::DoCommand(AppCommand::ToggleOptionDarkTheme)));
    assert!(state.dark_theme);
    assert!(!handle_app_event(&mut state, &mut servo, &mut view, AppEvent::DidChangeScreenParameters));
    assert_eq!(view.drawable_updates, 1);
    assert_eq!(servo.sync(false), Some(vec![EngineCommand::Resize(400, 300)]));
}

#[test]
fn mouse_press_and_release_through_the_view() {
    let mut w = three_tabs();
    let mut servo = Servo::new(geometry());
    let mut view = FakeSurfaces::default();
    handle_view_event(&mut w, &mut servo, &mut view, ViewEvent::MouseMoved(100, 100));
    handle_view_event(&mut w, &mut servo, &mut view, ViewEvent::MouseInput(ElementState::Pressed, MouseButton::Left));
    handle_view_event(&mut w, &mut servo, &mut view, ViewEvent::MouseMoved(105, 103));
    handle_view_event(&mut w, &mut servo, &mut view, ViewEvent::MouseInput(ElementState::Released, MouseButton::Left));
    assert_eq!(
        servo.sync(false),
        Some(vec![
            EngineCommand::MouseMove(100, 100),
            EngineCommand::MouseDown(MouseButton::Left, 100, 100),
            EngineCommand::MouseMove(105, 103),
            EngineCommand::MouseUp(MouseButton::Left, 105, 103),
            EngineCommand::Click(MouseButton::Left, 105, 103),
        ])
    );
    assert_eq!(w.browsers[0].last_mouse_down_button, Some(MouseButton::Left));
}

#[test]
fn open_in_default_browser_needs_a_url() {
    let mut w = three_tabs();
    let mut servo = Servo::new(geometry());
    let mut engine = FakeEngine::new();
    let mut view = FakeSurfaces::default();
    let mut window = FakeSurfaces::default();
    handle_window_command(&mut w, &mut servo, &mut view, &mut window, &mut engine, WindowCommand::OpenInDefaultBrowser);
    assert!(window.opened_externally.is_empty());
    w.browsers[0].url = Some("https://servo.org/".to_string());
    handle_window_command(&mut w, &mut servo, &mut view, &mut window, &mut engine, WindowCommand::OpenInDefaultBrowser);
    assert_eq!(window.opened_externally, vec!["https://servo.org/".to_string()]);
}

#[test]
fn command_line_url() {
    let args = |v: &[&str]| v.iter().map(|s| s.to_string()).collect::<Vec<String>>();
    assert_eq!(initial_url(&args(&["shell"])), "https://blog.servo.org/");
    assert_eq!(initial_url(&args(&["shell", "-v", "--x", "servo.org", "other"])), "servo.org");
    assert_eq!(initial_url(&args(&["shell", "-v"])), "https://blog.servo.org/");
}

#[test]
fn new_tab_is_selected_and_takes_the_engine_id() {
    let mut w = three_tabs();
    let mut servo = Servo::new(geometry());
    let mut engine = FakeEngine::new();
    engine.next_id = 40;
    let mut view = FakeSurfaces::default();
    let mut window = FakeSurfaces::default();
    assert!(handle_window_command(&mut w, &mut servo, &mut view, &mut window, &mut engine, WindowCommand::NewTab));
    assert_eq!(ids(&w), vec![1, 2, 3, 40]);
    assert_eq!(w.current_browser_index, Some(3));
    assert_eq!(engine.opened, vec!["about:blank"]);
    assert_eq!(
        servo.sync(false),
        Some(vec![
            EngineCommand::SelectBrowser(BrowserId(40)),
            EngineCommand::SelectBrowser(BrowserId(40)),
            EngineCommand::Resize(400, 300),
        ])
    );
}

#[test]
fn a_tracked_id_is_not_taken_twice() {
    let mut w = three_tabs();
    assert!(!w.add_tab(BrowserState::new(BrowserId(2))));
    assert_eq!(ids(&w), vec![1, 2, 3]);
    assert_eq!(w.current_browser_index, Some(0));
}

#[test]
fn closing_the_only_tab_closes_the_window() {
    let mut state = AppState::new(BrowserState::new(BrowserId(5)));
    let mut servo = Servo::new(geometry());
    let mut engine = FakeEngine::new();
    let mut view = FakeSurfaces::default();
    let mut window = FakeSurfaces::default();
    let r = handle_window_event(
        &mut state,
        &mut servo,
        &mut view,
        &mut window,
        &mut engine,
        WindowEvent::DoCommand(WindowCommand::CloseTab),
    );
    assert_eq!(r, (true, false));
    assert!(state.windows.is_empty());
    assert_eq!(state.current_window_index, None);
    assert_eq!(servo.sync(false), Some(vec![EngineCommand::CloseBrowser(BrowserId(5))]));
    let r = handle_window_event(
        &mut state,
        &mut servo,
        &mut view,
        &mut window,
        &mut engine,
        WindowEvent::DoCommand(WindowCommand::Reload),
    );
    assert_eq!(r, (false, false));
    assert_eq!(servo.sync(false), None);
    assert!(handle_servo_event(&mut state, &mut view, ServoEvent::CursorChanged(Cursor::Wait)));
    assert!(!handle_servo_event(&mut state, &mut view, ServoEvent::LoadStart(BrowserId(5))));
}

#[test]
fn unknown_report_does_not_stop_the_round() {
    let mut state = AppState::new(BrowserState::new(BrowserId(1)));
    let mut servo = Servo::new(geometry());
    let mut engine = FakeEngine::new();
    let mut app = FakeSurfaces::default();
    let mut window = FakeSurfaces::default();
    let mut view = FakeSurfaces::default();
    let r = process_batch(
        &mut state,
        &mut servo,
        &mut app,
        &mut window,
        &mut view,
        &mut engine,
        vec![],
        vec![],
        vec![],
        vec![ServoEvent::LoadStart(BrowserId(9)), ServoEvent::TitleChanged(BrowserId(1), Some("One".to_string()))],
    );
    assert_eq!(r, TickOutcome::Processed { rendered: true });
    assert_eq!(state.windows[0].browsers[0].title, Some("One".to_string()));
    assert!(!state.windows[0].browsers[0].is_loading);
    assert_eq!(app.app_renders, 1);
    assert_eq!(window.window_renders, 1);
    assert!(engine.batches.is_empty());
}

#[test]
fn logs_go_to_a_window_that_shows_them() {
    let mut state = AppState::new(BrowserState::new(BrowserId(1)));
    let mut window = FakeSurfaces::default();
    let logs = vec!["one".to_string(), "two".to_string()];
    after_settled(&state, &mut window, &logs);
    assert!(window.logs.is_empty());
    state.windows[0].logs_visible = true;
    after_settled(&state, &mut window, &logs);
    assert_eq!(window.logs, logs);
}
