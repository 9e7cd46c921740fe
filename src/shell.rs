use vstd::prelude::*;

use crate::app::{AppCommand, AppEvent, AppSurface};
use crate::geometry::DrawableGeometry;
use crate::servo::{
    click_commands, BrowserId, Engine, EngineCommand, Servo, ServoEvent, WebRenderDebugOption,
};
use crate::location::{opt_chars, resolved_location};
use crate::state::{
    load_effect, next_index, prev_index, reported_tab, tab_after_report, tracks, zoomed_in, zoomed_out,
    AppState, BrowserState, TabOp, WindowState,
};
use crate::view::{MouseScrollDelta, ViewEvent, ViewSurface};
use crate::window::{WindowCommand, WindowEvent, WindowSurface};

verus! {

/// What one round of the event loop did.
#[derive(Clone, Copy, Debug, PartialEq, Eq, Structural)]
pub enum TickOutcome {
    /// Every queue was empty: nothing was done.
    Idle,
    /// Events were handled; `rendered` says whether the surfaces were
    /// asked to show the new state.
    Processed { rendered: bool },
}

/// How a window command changes the window, `before` to `after`.
pub open spec fn command_effect(before: WindowState, after: WindowState, cmd: WindowCommand) -> bool {
    match cmd {
        WindowCommand::NewTab => exists|id| after.is_after(&before, TabOp::Open(id)),
        WindowCommand::CloseTab => after.is_after(&before, TabOp::Close),
        WindowCommand::NextTab => after.is_after(&before, TabOp::Next),
        WindowCommand::PrevTab => after.is_after(&before, TabOp::Prev),
        WindowCommand::SelectTab(i) => after.is_after(&before, TabOp::Select(i)),
        WindowCommand::ZoomIn => after.current_became(
            &before,
            BrowserState { zoom_level: zoomed_in(before.current_browser().zoom_level), ..before.current_browser() },
        ),
        WindowCommand::ZoomOut => after.current_became(
            &before,
            BrowserState { zoom_level: zoomed_out(before.current_browser().zoom_level), ..before.current_browser() },
        ),
        WindowCommand::ZoomToActualSize => after.current_became(
            &before,
            BrowserState { zoom_level: 0, ..before.current_browser() },
        ),
        WindowCommand::Load(request) => load_effect(before, after, request),
        WindowCommand::OpenLocation => after == WindowState { urlbar_focused: true, ..before },
        WindowCommand::ToggleSidebar => after == WindowState { sidebar_is_open: !before.sidebar_is_open, ..before },
        WindowCommand::ShowOptions => after == WindowState { options_open: !before.options_open, ..before },
        WindowCommand::ToggleOptionShowLogs => after == WindowState { logs_visible: !before.logs_visible, ..before },
        WindowCommand::ToggleOptionWRProfiler => after == WindowState {
            debug_options: before.debug_options.toggled(WebRenderDebugOption::Profiler),
            ..before
        },
        WindowCommand::ToggleOptionWRTextureCacheDebug => after == WindowState {
            debug_options: before.debug_options.toggled(WebRenderDebugOption::TextureCacheDebug),
            ..before
        },
        WindowCommand::ToggleOptionWRTargetDebug => after == WindowState {
            debug_options: before.debug_options.toggled(WebRenderDebugOption::RenderTargetDebug),
            ..before
        },
        _ => after == before,
    }
}

/// Whether a window command changes what the surfaces show.
pub open spec fn command_invalidates(before: WindowState, cmd: WindowCommand) -> bool {
    match cmd {
        WindowCommand::OpenLocation => true,
        WindowCommand::ZoomIn => true,
        WindowCommand::ZoomOut => true,
        WindowCommand::ZoomToActualSize => true,
        WindowCommand::ToggleSidebar => true,
        WindowCommand::ShowOptions => true,
        WindowCommand::ToggleOptionShowLogs => true,
        WindowCommand::NewTab => true,
        WindowCommand::NextTab => true,
        WindowCommand::PrevTab => true,
        WindowCommand::CloseTab => before.browsers@.len() > 1,
        WindowCommand::SelectTab(i) => before.current_browser_index != Some(i) && i < before.browsers@.len(),
        WindowCommand::Load(request) => resolved_location(request@) is None,
        _ => false,
    }
}

/// What a window command queues for the engine, where that follows from the
/// window alone (`None` where the engine's answer or the URL parser decide).
pub open spec fn command_queues(before: WindowState, cmd: WindowCommand) -> Option<Seq<EngineCommand>> {
    let b = before.current_browser();
    let cur = before.current_index();
    let len = before.browsers@.len();
    match cmd {
        WindowCommand::Reload => Some(seq![EngineCommand::Reload(b.id)]),
        WindowCommand::NavigateBack => Some(seq![EngineCommand::GoBack(b.id)]),
        WindowCommand::NavigateForward => Some(seq![EngineCommand::GoForward(b.id)]),
        WindowCommand::ZoomIn => Some(seq![EngineCommand::Zoom(zoomed_in(b.zoom_level))]),
        WindowCommand::ZoomOut => Some(seq![EngineCommand::Zoom(zoomed_out(b.zoom_level))]),
        WindowCommand::ZoomToActualSize => Some(seq![EngineCommand::ResetZoom]),
        WindowCommand::CloseTab => {
            if len > 1 {
                let next = if cur == len - 1 {
                    before.browsers@[cur - 1]
                } else {
                    before.browsers@[cur + 1]
                };
                Some(seq![EngineCommand::SelectBrowser(next.id), EngineCommand::CloseBrowser(b.id)])
            } else {
                Some(Seq::empty())
            }
        },
        WindowCommand::NextTab => Some(
            seq![EngineCommand::SelectBrowser(before.browsers@[next_index(len, cur) as int].id)],
        ),
        WindowCommand::PrevTab => Some(
            seq![EngineCommand::SelectBrowser(before.browsers@[prev_index(len, cur) as int].id)],
        ),
        WindowCommand::SelectTab(i) => {
            if before.current_browser_index != Some(i) && i < len {
                Some(seq![EngineCommand::SelectBrowser(before.browsers@[i as int].id)])
            } else {
                Some(Seq::empty())
            }
        },
        WindowCommand::ToggleOptionWRProfiler => Some(
            seq![EngineCommand::ToggleWebRenderDebug(WebRenderDebugOption::Profiler)],
        ),
        WindowCommand::ToggleOptionWRTextureCacheDebug => Some(
            seq![EngineCommand::ToggleWebRenderDebug(WebRenderDebugOption::TextureCacheDebug)],
        ),
        WindowCommand::ToggleOptionWRTargetDebug => Some(
            seq![EngineCommand::ToggleWebRenderDebug(WebRenderDebugOption::RenderTargetDebug)],
        ),
        WindowCommand::NewTab => None,
        WindowCommand::Load(_) => None,
        _ => Some(Seq::empty()),
    }
}

/// What a new tab does, where `g` is the view's geometry and `opened` the
/// engine's record of opened tabs before and after: the engine is asked for
/// `about:blank`, its answer is the id of the new tab, which is selected
/// (twice, as the engine is told when the tab is made and again by the
/// window), and the engine learns the view's size.
pub open spec fn new_tab_effect(
    before: WindowState,
    after: WindowState,
    servo_before: Servo,
    servo_after: Servo,
    g: DrawableGeometry,
    opened_before: Seq<(Seq<char>, BrowserId)>,
    opened_after: Seq<(Seq<char>, BrowserId)>,
) -> bool {
    if before.browsers@.len() < usize::MAX {
        let id = opened_after.last().1;
        &&& opened_after == opened_before.push(("about:blank"@, id))
        &&& after.is_after(&before, TabOp::Open(id))
        &&& servo_after.queued() == servo_before.queued() + seq![
            EngineCommand::SelectBrowser(id),
            EngineCommand::SelectBrowser(id),
            EngineCommand::Resize(g.framebuffer_spec().0 as u32, g.framebuffer_spec().1 as u32),
        ]
    } else {
        &&& opened_after == opened_before
        &&& after == before
        &&& servo_after == servo_before
    }
}

/// Whether all four queues came back empty.
pub fn is_idle(
    app_events: &Vec<AppEvent>,
    win_events: &Vec<WindowEvent>,
    view_events: &Vec<ViewEvent>,
    servo_events: &Vec<ServoEvent>,
) -> (r: bool)
    ensures
        r == (app_events@.len() == 0 && win_events@.len() == 0 && view_events@.len() == 0
            && servo_events@.len() == 0),
{
    app_events.len() == 0 && win_events.len() == 0 && view_events.len() == 0 && servo_events.len() == 0
}

/// Hands the view's current geometry to the engine and the drawing surface.
fn refresh_geometry<V: ViewSurface>(servo: &mut Servo, view: &mut V)
    ensures
        final(servo).geometry_spec() == old(view).geometry(),
        final(servo).callbacks_spec().pending() == old(servo).callbacks_spec().pending(),
        final(servo).queued() == old(servo).queued().push(
            EngineCommand::Resize(
                final(servo).geometry_spec().framebuffer_spec().0 as u32,
                final(servo).geometry_spec().framebuffer_spec().1 as u32,
            ),
        ),
{
    let geometry = view.get_geometry();
    servo.update_geometry(geometry);
    view.update_drawable();
}

/// Whether an application event changes what is shown.
pub open spec fn app_event_dirty(event: AppEvent) -> bool {
    event == AppEvent::DoCommand(AppCommand::ToggleOptionDarkTheme)
}

/// How an application event changes the state, `before` to `after`: only
/// the theme can change.
pub open spec fn app_event_step(before: AppState, after: AppState, event: AppEvent) -> bool {
    &&& after.dark_theme == (before.dark_theme != app_event_dirty(event))
    &&& after.windows@ == before.windows@
    &&& after.current_window_index == before.current_window_index
    &&& after.cursor == before.cursor
}

/// Handles an application event. Returns whether the surfaces must show the
/// new state.
pub fn handle_app_event<V: ViewSurface>(
    state: &mut AppState,
    servo: &mut Servo,
    view: &mut V,
    event: AppEvent,
) -> (dirty: bool)
    requires
        old(state).wf(),
    ensures
        final(state).wf(),
        dirty == app_event_dirty(event),
        app_event_step(*old(state), *final(state), event),
        event != AppEvent::DidChangeScreenParameters ==> *final(servo) == *old(servo),
        event == AppEvent::DidChangeScreenParameters ==> final(servo).queued() == old(servo).queued().push(
            EngineCommand::Resize(
                old(view).geometry().framebuffer_spec().0 as u32,
                old(view).geometry().framebuffer_spec().1 as u32,
            ),
        ),
        old(servo).queued().is_prefix_of(final(servo).queued()),
{
    match event {
        AppEvent::DidFinishLaunching => false,
        AppEvent::WillTerminate => false,
        AppEvent::DidChangeScreenParameters => {
            refresh_geometry(servo, view);
            false
        },
        AppEvent::DoCommand(AppCommand::ClearHistory) => false,
        AppEvent::DoCommand(AppCommand::ToggleOptionDarkTheme) => {
            state.toggle_dark_theme();
            true
        },
    }
}

/// Has the engine open a blank tab and makes it the window's selected tab.
fn new_tab<V: ViewSurface, E: Engine>(win: &mut WindowState, servo: &mut Servo, view: &mut V, engine: &mut E)
    requires
        old(win).wf(),
    ensures
        final(win).wf(),
        new_tab_effect(*old(win), *final(win), *old(servo), *final(servo), old(view).geometry(), old(engine).opened(), final(engine).opened()),
        final(engine).handled() == old(engine).handled(),
{
    if win.browsers.len() < usize::MAX {
        let browser = servo.create_browser(engine, "about:blank");
        let ghost new_id = browser.id;
        servo.select_browser(browser.id);
        refresh_geometry(servo, view);
        win.add_tab(browser);
        assert(servo.queued() =~= old(servo).queued() + seq![
            EngineCommand::SelectBrowser(new_id),
            EngineCommand::SelectBrowser(new_id),
            EngineCommand::Resize(
                old(view).geometry().framebuffer_spec().0 as u32,
                old(view).geometry().framebuffer_spec().1 as u32,
            ),
        ]);
    }
}

/// Handles a command on a window, for its selected tab. Returns whether the
/// surfaces must show the new state.
#[verifier::rlimit(60)]
pub fn handle_window_command<V: ViewSurface, W: WindowSurface, E: Engine>(
    win: &mut WindowState,
    servo: &mut Servo,
    view: &mut V,
    window: &mut W,
    engine: &mut E,
    cmd: WindowCommand,
) -> (dirty: bool)
    requires
        old(win).wf(),
    ensures
        final(win).wf(),
        command_effect(*old(win), *final(win), cmd),
        dirty == command_invalidates(*old(win), cmd),
        match command_queues(*old(win), cmd) {
            Some(commands) => final(servo).queues(old(servo), commands),
            None => true,
        },
        cmd is SelectTab && !dirty ==> *final(servo) == *old(servo),
        match cmd {
            WindowCommand::Load(request) => match resolved_location(request@) {
                Some(u) => exists|url: String|
                    url@ == u && final(servo).queues(
                        old(servo),
                        seq![EngineCommand::LoadUrl(old(win).current_browser().id, url)],
                    ),
                None => *final(servo) == *old(servo),
            },
            WindowCommand::NewTab => new_tab_effect(*old(win), *final(win), *old(servo), *final(servo), old(view).geometry(), old(engine).opened(), final(engine).opened()),
            _ => final(engine).opened() == old(engine).opened(),
        },
        old(servo).queued().is_prefix_of(final(servo).queued()),
        final(engine).handled() == old(engine).handled(),
        final(window).renders() == old(window).renders(),
        final(window).appended() == old(window).appended(),
        final(window).shown_externally() == (if cmd == WindowCommand::OpenInDefaultBrowser
            && old(win).current_browser().url is Some {
            old(window).shown_externally().push(old(win).current_browser().url->Some_0@)
        } else {
            old(window).shown_externally()
        }),
{
    let id = win.current_id();
    match cmd {
        WindowCommand::Stop => false,
        WindowCommand::Reload => {
            servo.reload(id);
            false
        },
        WindowCommand::NavigateBack => {
            servo.go_back(id);
            false
        },
        WindowCommand::NavigateForward => {
            servo.go_forward(id);
            false
        },
        WindowCommand::OpenLocation => {
            win.urlbar_focused = true;
            true
        },
        WindowCommand::OpenInDefaultBrowser => {
            let idx = match win.current_browser_index {
                Some(i) => i,
                None => 0,
            };
            match &win.browsers[idx].url {
                Some(url) => window.open_in_default_browser(url.as_str()),
                None => {},
            }
            false
        },
        WindowCommand::ZoomIn => {
            win.zoom_in(servo);
            true
        },
        WindowCommand::ZoomOut => {
            win.zoom_out(servo);
            true
        },
        WindowCommand::ZoomToActualSize => {
            win.reset_zoom(servo);
            true
        },
        WindowCommand::ToggleSidebar => {
            win.sidebar_is_open = !win.sidebar_is_open;
            true
        },
        WindowCommand::ShowOptions => {
            win.options_open = !win.options_open;
            true
        },
        WindowCommand::Load(request) => !win.load(servo, request),
        WindowCommand::ToggleOptionShowLogs => {
            win.logs_visible = !win.logs_visible;
            true
        },
        WindowCommand::NewTab => {
            new_tab(win, servo, view, engine);
            proof {
                if old(win).browsers@.len() < usize::MAX {
                    assert(win.is_after(old(win), TabOp::Open(engine.opened().last().1)));
                } else {
                    assert(win.is_after(old(win), TabOp::Open(id)));
                }
            }
            true
        },
        WindowCommand::CloseTab => win.close_tab(servo),
        WindowCommand::PrevTab => {
            win.prev_tab(servo);
            true
        },
        WindowCommand::NextTab => {
            win.next_tab(servo);
            true
        },
        WindowCommand::SelectTab(idx) => win.select_tab(servo, idx),
        WindowCommand::ToggleOptionFragmentBorders => false,
        WindowCommand::ToggleOptionParallelDisplayListBuidling => false,
        WindowCommand::ToggleOptionShowParallelLayout => false,
        WindowCommand::ToggleOptionConvertMouseToTouch => false,
        WindowCommand::ToggleOptionTileBorders => false,
        WindowCommand::ToggleOptionWRProfiler => {
            win.debug_options.wr_profiler = !win.debug_options.wr_profiler;
            servo.toggle_webrender_debug_option(WebRenderDebugOption::Profiler);
            false
        },
        WindowCommand::ToggleOptionWRTextureCacheDebug => {
            win.debug_options.wr_texture_cache_debug = !win.debug_options.wr_texture_cache_debug;
            servo.toggle_webrender_debug_option(WebRenderDebugOption::TextureCacheDebug);
            false
        },
        WindowCommand::ToggleOptionWRTargetDebug => {
            win.debug_options.wr_render_target_debug = !win.debug_options.wr_render_target_debug;
            servo.toggle_webrender_debug_option(WebRenderDebugOption::RenderTargetDebug);
            false
        },
    }
}

/// How a window event changes the state, `before` to `after`: a command
/// acts on the selected window; the other events change no state.
pub open spec fn window_event_step(before: AppState, after: AppState, event: WindowEvent) -> bool {
    match event {
        WindowEvent::DoCommand(cmd) => {
            if !before.has_window() {
                after == before
            } else if closes_window(before, cmd) {
                after.window_closed(&before)
            } else {
                &&& after.window_became(&before, after.current_window())
                &&& command_effect(before.current_window(), after.current_window(), cmd)
            }
        },
        _ => after == before,
    }
}

/// Whether `cmd` closes the selected window's only tab, and so the window.
pub open spec fn closes_window(before: AppState, cmd: WindowCommand) -> bool {
    cmd == WindowCommand::CloseTab && before.current_window().browsers@.len() == 1
}

/// Whether a window event changes what is shown.
pub open spec fn window_event_dirty(before: AppState, event: WindowEvent) -> bool {
    match event {
        WindowEvent::DoCommand(cmd) => before.has_window() && (closes_window(before, cmd)
            || command_invalidates(before.current_window(), cmd)),
        _ => false,
    }
}

/// Handles a window event. Returns whether the surfaces must show the new
/// state, and whether the engine's queue must be flushed even when empty
/// (the engine woke the loop up).
pub fn handle_window_event<V: ViewSurface, W: WindowSurface, E: Engine>(
    state: &mut AppState,
    servo: &mut Servo,
    view: &mut V,
    window: &mut W,
    engine: &mut E,
    event: WindowEvent,
) -> (r: (bool, bool))
    requires
        old(state).wf(),
    ensures
        final(state).wf(),
        r.1 == (event == WindowEvent::EventLoopAwaken),
        window_event_step(*old(state), *final(state), event),
        r.0 == window_event_dirty(*old(state), event),
        match event {
            WindowEvent::DoCommand(cmd) => {
                &&& (cmd is SelectTab && !r.0 ==> *final(servo) == *old(servo))
                &&& (old(state).has_window() && closes_window(*old(state), cmd) ==> final(servo).queues(
                    old(servo),
                    seq![EngineCommand::CloseBrowser(old(state).current_window().current_browser().id)],
                ))
            },
            WindowEvent::GeometryDidChange => final(servo).queued() == old(servo).queued().push(
                EngineCommand::Resize(
                    old(view).geometry().framebuffer_spec().0 as u32,
                    old(view).geometry().framebuffer_spec().1 as u32,
                ),
            ),
            _ => *final(servo) == *old(servo),
        },
        old(servo).queued().is_prefix_of(final(servo).queued()),
        final(engine).handled() == old(engine).handled(),
        final(window).renders() == old(window).renders(),
        final(window).appended() == old(window).appended(),
{
    match event {
        WindowEvent::EventLoopAwaken => (false, true),
        WindowEvent::GeometryDidChange => {
            refresh_geometry(servo, view);
            (false, false)
        },
        WindowEvent::DidEnterFullScreen => (false, false),
        WindowEvent::DidExitFullScreen => (false, false),
        WindowEvent::WillClose => (false, false),
        WindowEvent::DoCommand(cmd) => {
            if state.current_window_index.is_none() {
                return (false, false);
            }
            let w = current_window(state);
            let close = match cmd {
                WindowCommand::CloseTab => true,
                _ => false,
            };
            if close && state.windows[w].browsers.len() == 1 {
                let id = state.windows[w].current_id();
                servo.close_browser(id);
                state.close_window();
                return (true, false);
            }
            let dirty = handle_window_command(&mut state.windows[w], servo, view, window, engine, cmd);
            proof {
                lemma_window_replaced(*old(state), *state, w as int);
            }
            (dirty, false)
        },
    }
}

/// The index of the selected window.
fn current_window(state: &AppState) -> (r: usize)
    requires
        state.wf(),
        state.has_window(),
    ensures
        r == state.window_index(),
        state.windows@[r as int].wf(),
{
    match state.current_window_index {
        Some(w) => w,
        None => 0,
    }
}

/// The scroll distance, in pixels, of a wheel movement; line steps scroll
/// nothing.
pub open spec fn pixel_delta(delta: MouseScrollDelta) -> (i32, i32) {
    match delta {
        MouseScrollDelta::PixelDelta(dx, dy) => (dx, dy),
        MouseScrollDelta::LineDelta(_, _) => (0, 0),
    }
}

/// What input on the view queues for the engine, given the window and the
/// geometry the engine knows (`None` for a change of geometry, which is
/// read from the view).
pub open spec fn view_event_queues(
    win: WindowState,
    g: DrawableGeometry,
    event: ViewEvent,
) -> Option<Seq<EngineCommand>> {
    let b = win.current_browser();
    match event {
        ViewEvent::GeometryDidChange => None,
        ViewEvent::MouseWheel(delta, phase) => Some(
            seq![EngineCommand::Scroll(
                pixel_delta(delta).0,
                pixel_delta(delta).1,
                g.content_point(0, 0).0,
                g.content_point(0, 0).1,
                phase,
            )],
        ),
        ViewEvent::MouseMoved(x, y) => Some(
            seq![EngineCommand::MouseMove(g.content_point(x, y).0, g.content_point(x, y).1)],
        ),
        ViewEvent::MouseInput(s, button) => Some(
            click_commands(
                g,
                b.last_mouse_point.0,
                b.last_mouse_point.1,
                b.last_mouse_down_point.0,
                b.last_mouse_down_point.1,
                s,
                button,
                b.last_mouse_down_button,
            ),
        ),
        ViewEvent::KeyEvent(ch, key, key_state, modifiers) => Some(
            seq![EngineCommand::Key(b.id, ch, key, key_state, modifiers)],
        ),
    }
}

/// How input on the view changes the window, `before` to `after`: only
/// the selected tab's pointer state changes.
pub open spec fn view_event_effect(before: WindowState, after: WindowState, event: ViewEvent) -> bool {
    match event {
        ViewEvent::MouseMoved(x, y) => after.current_became(
            &before,
            BrowserState { last_mouse_point: (x, y), ..before.current_browser() },
        ),
        ViewEvent::MouseInput(s, b) => after.current_became(
            &before,
            BrowserState {
                last_mouse_down_point: before.current_browser().last_mouse_point,
                last_mouse_down_button: if s == crate::view::ElementState::Pressed {
                    Some(b)
                } else {
                    before.current_browser().last_mouse_down_button
                },
                ..before.current_browser()
            },
        ),
        _ => after == before,
    }
}

/// Handles input on the content view, for the selected tab.
pub fn handle_view_event<V: ViewSurface>(
    win: &mut WindowState,
    servo: &mut Servo,
    view: &mut V,
    event: ViewEvent,
)
    requires
        old(win).wf(),
    ensures
        final(win).wf(),
        view_event_effect(*old(win), *final(win), event),
        match view_event_queues(*old(win), old(servo).geometry_spec(), event) {
            Some(commands) => final(servo).queues(old(servo), commands),
            None => true,
        },
        event == ViewEvent::GeometryDidChange ==> final(servo).queued() == old(servo).queued().push(
            EngineCommand::Resize(
                old(view).geometry().framebuffer_spec().0 as u32,
                old(view).geometry().framebuffer_spec().1 as u32,
            ),
        ),
        old(servo).queued().is_prefix_of(final(servo).queued()),
{
    match event {
        ViewEvent::GeometryDidChange => {
            refresh_geometry(servo, view);
        },
        ViewEvent::MouseWheel(delta, phase) => {
            let (dx, dy) = match delta {
                MouseScrollDelta::PixelDelta(dx, dy) => (dx, dy),
                MouseScrollDelta::LineDelta(_, _) => (0, 0),
            };
            servo.perform_scroll(0, 0, dx, dy, phase);
        },
        ViewEvent::MouseMoved(x, y) => {
            win.mouse_moved(servo, x, y);
        },
        ViewEvent::MouseInput(element_state, button) => {
            win.mouse_input(servo, element_state, button);
        },
        ViewEvent::KeyEvent(ch, key, key_state, modifiers) => {
            servo.send_key(win.current_id(), ch, key, key_state, modifiers);
        },
    }
}

/// How an engine report changes the state, `before` to `after`. A report
/// on a tab that the selected window does not track changes nothing.
pub open spec fn servo_event_step(before: AppState, after: AppState, event: ServoEvent) -> bool {
    if !before.has_window() {
        match event {
            ServoEvent::CursorChanged(cursor) => after == AppState { cursor, ..before },
            _ => after.same_as(&before),
        }
    } else {
        servo_event_step_on_window(before, after, event)
    }
}

/// How an engine report changes the state while a window is selected.
pub open spec fn servo_event_step_on_window(before: AppState, after: AppState, event: ServoEvent) -> bool {
    match reported_tab(event) {
        Some(id) => {
            if tracks(before.current_window().browsers@, id) {
                &&& after.window_became(&before, after.current_window())
                &&& exists|i: int|
                    0 <= i < before.current_window().browsers@.len()
                    && before.current_window().browsers@[i].id == id
                    && after.current_window().tab_became(
                        &before.current_window(),
                        i,
                        tab_after_report(before.current_window().browsers@[i], event),
                    )
            } else {
                after.same_as(&before)
            }
        },
        None => match event {
            ServoEvent::StatusChanged(status) => after.window_became(
                &before,
                WindowState { status, ..before.current_window() },
            ),
            ServoEvent::CursorChanged(cursor) => after == AppState { cursor, ..before },
            _ => after.same_as(&before),
        },
    }
}

/// Whether an engine report changes what is shown.
pub open spec fn servo_event_dirty(before: AppState, event: ServoEvent) -> bool {
    if !before.has_window() {
        event is CursorChanged
    } else {
        match reported_tab(event) {
            Some(id) => tracks(before.current_window().browsers@, id),
            None => event is StatusChanged || event is CursorChanged,
        }
    }
}

/// Handles an engine report. A report about a tab that the selected window
/// does not track changes nothing. Returns whether the surfaces must show
/// the new state.
pub fn handle_servo_event<V: ViewSurface>(state: &mut AppState, view: &mut V, event: ServoEvent) -> (dirty: bool)
    requires
        old(state).wf(),
    ensures
        final(state).wf(),
        servo_event_step(*old(state), *final(state), event),
        dirty == servo_event_dirty(*old(state), event),
{
    match event {
        ServoEvent::SetFullScreenState(fullscreen) => {
            if fullscreen {
                view.enter_fullscreen();
            } else {
                view.exit_fullscreen();
            }
            false
        },
        ServoEvent::StatusChanged(status) => {
            if state.current_window_index.is_none() {
                return false;
            }
            let w = current_window(state);
            state.windows[w].status = status;
            proof {
                lemma_window_replaced(*old(state), *state, w as int);
            }
            true
        },
        ServoEvent::CursorChanged(cursor) => {
            state.cursor = cursor;
            true
        },
        _ => {
            if state.current_window_index.is_none() {
                return false;
            }
            let w = current_window(state);
            let dirty = state.windows[w].update_tab(event);
            proof {
                lemma_window_replaced(*old(state), *state, w as int);
                if !dirty {
                    assert(state.windows@ =~= old(state).windows@);
                }
            }
            dirty
        },
    }
}

/// Replacing the selected window by a well-formed one keeps the state
/// well-formed.
proof fn lemma_window_replaced(before: AppState, after: AppState, w: int)
    requires
        before.wf(),
        before.has_window(),
        w == before.window_index(),
        after.windows@.len() == before.windows@.len(),
        after.current_window_index == before.current_window_index,
        after.windows@[w].wf(),
        forall|i: int| 0 <= i < before.windows@.len() && i != w ==> after.windows@[i] == before.windows@[i],
    ensures
        after.wf(),
{
    assert forall|i: int| 0 <= i < after.windows@.len() implies #[trigger] after.windows@[i].wf() by {
        if i != w {
            assert(after.windows@[i] == before.windows@[i]);
        }
    }
}

/// `trace` runs through the states as `events` are applied in order.
pub open spec fn app_events_applied(trace: Seq<AppState>, events: Seq<AppEvent>) -> bool {
    &&& trace.len() == events.len() + 1
    &&& forall|i: int| 0 <= i < events.len() ==> #[trigger] app_event_step(trace[i], trace[i + 1], events[i])
}

/// `trace` runs through the states as `events` are applied in order.
pub open spec fn window_events_applied(trace: Seq<AppState>, events: Seq<WindowEvent>) -> bool {
    &&& trace.len() == events.len() + 1
    &&& forall|i: int| 0 <= i < events.len() ==> #[trigger] window_event_step(trace[i], trace[i + 1], events[i])
}

/// `trace` runs through the states as `events` are applied in order, each
/// to the selected window.
pub open spec fn view_events_applied(trace: Seq<AppState>, events: Seq<ViewEvent>) -> bool {
    &&& trace.len() == events.len() + 1
    &&& forall|i: int| 0 <= i < events.len() ==> #[trigger] view_event_step(trace[i], trace[i + 1], events[i])
}

/// `trace` runs through the states as `events` are applied in order.
pub open spec fn servo_events_applied(trace: Seq<AppState>, events: Seq<ServoEvent>) -> bool {
    &&& trace.len() == events.len() + 1
    &&& forall|i: int| 0 <= i < events.len() ==> #[trigger] servo_event_step(trace[i], trace[i + 1], events[i])
}

/// How input on the view changes the state: the selected window changes
/// as `view_event_effect` says.
pub open spec fn view_event_step(before: AppState, after: AppState, event: ViewEvent) -> bool {
    if !before.has_window() {
        after == before
    } else {
        &&& after.window_became(&before, after.current_window())
        &&& view_event_effect(before.current_window(), after.current_window(), event)
    }
}

pub open spec fn some_app_dirty(events: Seq<AppEvent>) -> bool {
    exists|i: int| 0 <= i < events.len() && #[trigger] app_event_dirty(events[i])
}

pub open spec fn some_window_dirty(trace: Seq<AppState>, events: Seq<WindowEvent>) -> bool {
    exists|i: int| 0 <= i < events.len() && #[trigger] window_event_dirty(trace[i], events[i])
}

pub open spec fn some_servo_dirty(trace: Seq<AppState>, events: Seq<ServoEvent>) -> bool {
    exists|i: int| 0 <= i < events.len() && #[trigger] servo_event_dirty(trace[i], events[i])
}

/// Whether the engine woke the loop up.
pub open spec fn awakened(events: Seq<WindowEvent>) -> bool {
    exists|i: int| 0 <= i < events.len() && events[i] == WindowEvent::EventLoopAwaken
}

/// `after` is `before` with the application events, the window events, the
/// view's input and the engine's reports applied, each list in order and the
/// lists in that order, through the states of `ta`, `tw`, `tv` and `ts`;
/// `dirty` says whether any of them changed what is shown.
pub open spec fn tick_applied(
    before: AppState,
    after: AppState,
    ta: Seq<AppState>,
    tw: Seq<AppState>,
    tv: Seq<AppState>,
    ts: Seq<AppState>,
    app_events: Seq<AppEvent>,
    win_events: Seq<WindowEvent>,
    view_events: Seq<ViewEvent>,
    servo_events: Seq<ServoEvent>,
    dirty: bool,
) -> bool {
    &&& app_events_applied(ta, app_events)
    &&& ta[0] == before
    &&& window_events_applied(tw, win_events)
    &&& tw[0] == ta.last()
    &&& view_events_applied(tv, view_events)
    &&& tv[0] == tw.last()
    &&& servo_events_applied(ts, servo_events)
    &&& ts[0] == tv.last()
    &&& ts.last() == after
    &&& dirty == (some_app_dirty(app_events) || some_window_dirty(tw, win_events) || some_servo_dirty(ts, servo_events))
}

/// `after` is `before` with the four lists of events applied in order;
/// `dirty` says whether any of them changed what is shown.
pub open spec fn events_applied(
    before: AppState,
    after: AppState,
    app_events: Seq<AppEvent>,
    win_events: Seq<WindowEvent>,
    view_events: Seq<ViewEvent>,
    servo_events: Seq<ServoEvent>,
    dirty: bool,
) -> bool {
    exists|ta: Seq<AppState>, tw: Seq<AppState>, tv: Seq<AppState>, ts: Seq<AppState>|
        #[trigger] tick_applied(
            before,
            after,
            ta,
            tw,
            tv,
            ts,
            app_events,
            win_events,
            view_events,
            servo_events,
            dirty,
        )
}

/// The flush at the end of a round: `batch`, everything queued by then
/// (which starts with what was queued before the round), goes to the engine
/// in one call where it holds a command or the flush is forced.
pub open spec fn flushed(
    queued_before: Seq<EngineCommand>,
    batch: Seq<EngineCommand>,
    force: bool,
    handled_before: Seq<Seq<EngineCommand>>,
    handled_after: Seq<Seq<EngineCommand>>,
) -> bool {
    &&& queued_before.is_prefix_of(batch)
    &&& if batch.len() > 0 || force {
        handled_after == handled_before.push(batch)
    } else {
        handled_after == handled_before
    }
}

/// Handles one round of collected events: application events first, then
/// window events, input on the view and the engine's reports, each in the
/// order they came. Where any of them changed what is shown, both surfaces
/// render once; then the engine's queue is flushed, forced where the engine
/// woke the loop up. Where all four lists are empty, nothing at all is done.
#[verifier::rlimit(80)]
pub fn process_batch<A: AppSurface, W: WindowSurface, V: ViewSurface, E: Engine>(
    state: &mut AppState,
    servo: &mut Servo,
    app: &mut A,
    window: &mut W,
    view: &mut V,
    engine: &mut E,
    app_events: Vec<AppEvent>,
    win_events: Vec<WindowEvent>,
    view_events: Vec<ViewEvent>,
    servo_events: Vec<ServoEvent>,
) -> (r: TickOutcome)
    requires
        old(state).wf(),
    ensures
        final(state).wf(),
        (app_events@.len() == 0 && win_events@.len() == 0 && view_events@.len() == 0
            && servo_events@.len() == 0) <==> r == TickOutcome::Idle,
        r == TickOutcome::Idle ==> {
            &&& *final(state) == *old(state)
            &&& *final(servo) == *old(servo)
            &&& final(app).renders() == old(app).renders()
            &&& final(window).renders() == old(window).renders()
            &&& final(engine).handled() == old(engine).handled()
        },
        r matches TickOutcome::Processed { rendered } ==> events_applied(
            *old(state),
            *final(state),
            app_events@,
            win_events@,
            view_events@,
            servo_events@,
            rendered,
        ),
        r matches TickOutcome::Processed { rendered } ==> final(app).renders() == old(app).renders() + if rendered {
            1nat
        } else {
            0nat
        },
        r matches TickOutcome::Processed { rendered } ==> final(window).renders() == old(window).renders()
            + if rendered {
            1nat
        } else {
            0nat
        },
        r is Processed ==> exists|batch: Seq<EngineCommand>|
            #[trigger] flushed(
                old(servo).queued(),
                batch,
                awakened(win_events@),
                old(engine).handled(),
                final(engine).handled(),
            ),
        r is Processed ==> final(servo).queued() == Seq::<EngineCommand>::empty(),
{
    if is_idle(&app_events, &win_events, &view_events, &servo_events) {
        return TickOutcome::Idle;
    }
    let mut force_sync = false;
    let mut ui_invalidated = false;

    let ghost ta: Seq<AppState> = seq![*state];
    let mut i: usize = 0;
    while i < app_events.len()
        invariant
            state.wf(),
            i <= app_events@.len(),
            ta.len() == i + 1,
            ta[0] == *old(state),
            ta[i as int] == *state,
            forall|j: int| 0 <= j < i ==> #[trigger] app_event_step(ta[j], ta[j + 1], app_events@[j]),
            ui_invalidated == exists|j: int| 0 <= j < i && #[trigger] app_event_dirty(app_events@[j]),
            !force_sync,
            old(servo).queued().is_prefix_of(servo.queued()),
            engine.handled() == old(engine).handled(),
            app.renders() == old(app).renders(),
            window.renders() == old(window).renders(),
        decreases app_events@.len() - i,
    {
        let ghost prev = ta;
        let ghost q = servo.queued();
        let dirty = handle_app_event(state, servo, view, app_events[i]);
        proof {
            ta = ta.push(*state);
            assert forall|j: int| 0 <= j < i + 1 implies #[trigger] app_event_step(ta[j], ta[j + 1], app_events@[j]) by {
                if j < i {
                    assert(ta[j] == prev[j] && ta[j + 1] == prev[j + 1]);
                }
            }
            assert(q.is_prefix_of(servo.queued()));
        }
        ui_invalidated = ui_invalidated || dirty;
        i = i + 1;
    }
    assert(some_app_dirty(app_events@) == ui_invalidated);

    let ghost all_w = win_events@;
    let ghost tw: Seq<AppState> = seq![*state];
    let ghost k: int = 0;
    let ghost app_dirty = ui_invalidated;
    let mut pending_w = win_events;
    while pending_w.len() > 0
        invariant
            state.wf(),
            0 <= k <= all_w.len(),
            pending_w@ == all_w.subrange(k, all_w.len() as int),
            tw.len() == k + 1,
            ta.len() == app_events@.len() + 1,
            tw[0] == ta.last(),
            tw[k] == *state,
            forall|j: int| 0 <= j < k ==> #[trigger] window_event_step(tw[j], tw[j + 1], all_w[j]),
            ui_invalidated == (app_dirty || exists|j: int|
                0 <= j < k && #[trigger] window_event_dirty(tw[j], all_w[j])),
            force_sync == exists|j: int| 0 <= j < k && all_w[j] == WindowEvent::EventLoopAwaken,
            old(servo).queued().is_prefix_of(servo.queued()),
            engine.handled() == old(engine).handled(),
            app.renders() == old(app).renders(),
            window.renders() == old(window).renders(),
        decreases pending_w@.len(),
    {
        let ghost prev = tw;
        let ghost q = servo.queued();
        let event = pending_w.remove(0);
        assert(event == all_w[k]);
        let (dirty, force) = handle_window_event(state, servo, view, window, engine, event);
        proof {
            tw = tw.push(*state);
            assert forall|j: int| 0 <= j < k + 1 implies #[trigger] window_event_step(tw[j], tw[j + 1], all_w[j]) by {
                if j < k {
                    assert(tw[j] == prev[j] && tw[j + 1] == prev[j + 1]);
                }
            }
            let ghost old_ex = exists|j: int| 0 <= j < k && #[trigger] window_event_dirty(prev[j], all_w[j]);
            assert((exists|j: int| 0 <= j < k + 1 && #[trigger] window_event_dirty(tw[j], all_w[j])) == (old_ex || dirty)) by {
                if old_ex {
                    let j = choose|j: int| 0 <= j < k && #[trigger] window_event_dirty(prev[j], all_w[j]);
                    assert(tw[j] == prev[j]);
                    assert(window_event_dirty(tw[j], all_w[j]));
                }
                if dirty {
                    assert(window_event_dirty(tw[k], all_w[k]));
                }
                if exists|j: int| 0 <= j < k + 1 && #[trigger] window_event_dirty(tw[j], all_w[j]) {
                    let j = choose|j: int| 0 <= j < k + 1 && #[trigger] window_event_dirty(tw[j], all_w[j]);
                    if j < k {
                        assert(tw[j] == prev[j]);
                        assert(window_event_dirty(prev[j], all_w[j]));
                    }
                }
            }
            let ghost old_force = exists|j: int| 0 <= j < k && all_w[j] == WindowEvent::EventLoopAwaken;
            assert((exists|j: int| 0 <= j < k + 1 && all_w[j] == WindowEvent::EventLoopAwaken) == (old_force || force)) by {
                if force {
                    assert(all_w[k] == WindowEvent::EventLoopAwaken);
                }
            }
            assert(q.is_prefix_of(servo.queued()));
            k = k + 1;
            assert(pending_w@ =~= all_w.subrange(k, all_w.len() as int));
        }
        ui_invalidated = ui_invalidated || dirty;
        force_sync = force_sync || force;
    }
    assert(k == all_w.len());
    assert(awakened(all_w) == force_sync);
    let ghost win_dirty = ui_invalidated;

    let ghost tv: Seq<AppState> = seq![*state];
    let mut i: usize = 0;
    while i < view_events.len()
        invariant
            state.wf(),
            i <= view_events@.len(),
            tv.len() == i + 1,
            tw.len() == all_w.len() + 1,
            tv[0] == tw.last(),
            tv[i as int] == *state,
            forall|j: int| 0 <= j < i ==> #[trigger] view_event_step(tv[j], tv[j + 1], view_events@[j]),
            ui_invalidated == win_dirty,
            old(servo).queued().is_prefix_of(servo.queued()),
            engine.handled() == old(engine).handled(),
            app.renders() == old(app).renders(),
            window.renders() == old(window).renders(),
        decreases view_events@.len() - i,
    {
        let ghost prev = tv;
        let ghost q = servo.queued();
        if state.current_window_index.is_none() {
            proof {
                tv = tv.push(*state);
                assert forall|j: int| 0 <= j < i + 1 implies #[trigger] view_event_step(tv[j], tv[j + 1], view_events@[j]) by {
                    if j < i {
                        assert(tv[j] == prev[j] && tv[j + 1] == prev[j + 1]);
                    }
                }
            }
            i = i + 1;
            continue;
        }
        let w = current_window(state);
        let ghost before = *state;
        handle_view_event(&mut state.windows[w], servo, view, view_events[i]);
        proof {
            lemma_window_replaced(before, *state, w as int);
            tv = tv.push(*state);
            assert(state.current_window() == state.windows@[w as int]);
            assert(view_event_step(before, *state, view_events@[i as int]));
            assert forall|j: int| 0 <= j < i + 1 implies #[trigger] view_event_step(tv[j], tv[j + 1], view_events@[j]) by {
                if j < i {
                    assert(tv[j] == prev[j] && tv[j + 1] == prev[j + 1]);
                }
            }
            assert(q.is_prefix_of(servo.queued()));
        }
        i = i + 1;
    }

    let ghost all_s = servo_events@;
    let ghost ts: Seq<AppState> = seq![*state];
    let ghost k: int = 0;
    let mut pending_s = servo_events;
    while pending_s.len() > 0
        invariant
            state.wf(),
            0 <= k <= all_s.len(),
            pending_s@ == all_s.subrange(k, all_s.len() as int),
            ts.len() == k + 1,
            tv.len() == view_events@.len() + 1,
            ts[0] == tv.last(),
            ts[k] == *state,
            forall|j: int| 0 <= j < k ==> #[trigger] servo_event_step(ts[j], ts[j + 1], all_s[j]),
            ui_invalidated == (win_dirty || exists|j: int| 0 <= j < k && #[trigger] servo_event_dirty(ts[j], all_s[j])),
            old(servo).queued().is_prefix_of(servo.queued()),
            engine.handled() == old(engine).handled(),
            app.renders() == old(app).renders(),
            window.renders() == old(window).renders(),
        decreases pending_s@.len(),
    {
        let ghost prev = ts;
        let event = pending_s.remove(0);
        assert(event == all_s[k]);
        let dirty = handle_servo_event(state, view, event);
        proof {
            ts = ts.push(*state);
            assert forall|j: int| 0 <= j < k + 1 implies #[trigger] servo_event_step(ts[j], ts[j + 1], all_s[j]) by {
                if j < k {
                    assert(ts[j] == prev[j] && ts[j + 1] == prev[j + 1]);
                }
            }
            let ghost old_ex = exists|j: int| 0 <= j < k && #[trigger] servo_event_dirty(prev[j], all_s[j]);
            assert((exists|j: int| 0 <= j < k + 1 && #[trigger] servo_event_dirty(ts[j], all_s[j])) == (old_ex || dirty)) by {
                if old_ex {
                    let j = choose|j: int| 0 <= j < k && #[trigger] servo_event_dirty(prev[j], all_s[j]);
                    assert(ts[j] == prev[j]);
                    assert(servo_event_dirty(ts[j], all_s[j]));
                }
                if dirty {
                    assert(servo_event_dirty(ts[k], all_s[k]));
                }
                if exists|j: int| 0 <= j < k + 1 && #[trigger] servo_event_dirty(ts[j], all_s[j]) {
                    let j = choose|j: int| 0 <= j < k + 1 && #[trigger] servo_event_dirty(ts[j], all_s[j]);
                    if j < k {
                        assert(ts[j] == prev[j]);
                        assert(servo_event_dirty(prev[j], all_s[j]));
                    }
                }
            }
            k = k + 1;
            assert(pending_s@ =~= all_s.subrange(k, all_s.len() as int));
        }
        ui_invalidated = ui_invalidated || dirty;
    }
    assert(tick_applied(
        *old(state), *state, ta, tw, tv, ts, app_events@, all_w, view_events@, all_s, ui_invalidated,
    ));

    if ui_invalidated {
        app.render(state);
        window.render(state);
    }
    let ghost batch = servo.queued();
    match servo.sync(force_sync) {
        Some(b) => engine.handle_events(b),
        None => {},
    }
    assert(flushed(old(servo).queued(), batch, awakened(all_w), old(engine).handled(), engine.handled()));
    assert(events_applied(*old(state), *state, app_events@, win_events@, view_events@, servo_events@, ui_invalidated));
    assert(exists|b: Seq<EngineCommand>| #[trigger] flushed(old(servo).queued(), b, awakened(all_w), old(engine).handled(), engine.handled()));
    TickOutcome::Processed { rendered: ui_invalidated }
}

/// One round of the event loop: collects what the application, the window,
/// the view and the engine have to report, and handles it. `Idle` means
/// that nothing was pending; the caller goes round again until then.
pub fn tick<A: AppSurface, W: WindowSurface, V: ViewSurface, E: Engine>(
    state: &mut AppState,
    servo: &mut Servo,
    app: &mut A,
    window: &mut W,
    view: &mut V,
    engine: &mut E,
) -> (r: TickOutcome)
    requires
        old(state).wf(),
    ensures
        final(state).wf(),
        old(servo).callbacks_spec().pending().len() > 0 ==> r is Processed,
        r == TickOutcome::Idle ==> {
            &&& *final(state) == *old(state)
            &&& final(servo).queued() == old(servo).queued()
            &&& final(app).renders() == old(app).renders()
            &&& final(window).renders() == old(window).renders()
            &&& final(engine).handled() == old(engine).handled()
        },
        r matches TickOutcome::Processed { rendered } ==> exists|
            a: Seq<AppEvent>,
            w: Seq<WindowEvent>,
            v: Seq<ViewEvent>,
        |
            #[trigger] round_done(
                *old(state),
                *final(state),
                a,
                w,
                v,
                old(servo).callbacks_spec().pending(),
                rendered,
                old(servo).queued(),
                old(engine).handled(),
                final(engine).handled(),
            ),
        r matches TickOutcome::Processed { rendered } ==> final(app).renders() == old(app).renders() + if rendered {
            1nat
        } else {
            0nat
        },
        r matches TickOutcome::Processed { rendered } ==> final(window).renders() == old(window).renders()
            + if rendered {
            1nat
        } else {
            0nat
        },
        r is Processed ==> final(servo).queued() == Seq::<EngineCommand>::empty(),
{
    let app_events = app.get_events();
    let win_events = window.get_events();
    let view_events = view.get_events();
    let servo_events = servo.get_events();
    let ghost (a, w, v, e) = (app_events@, win_events@, view_events@, servo_events@);
    let r = process_batch(state, servo, app, window, view, engine, app_events, win_events, view_events, servo_events);
    proof {
        if let TickOutcome::Processed { rendered } = r {
            assert(round_done(*old(state), *state, a, w, v, e, rendered, old(servo).queued(), old(engine).handled(), engine.handled()));
        }
    }
    r
}

/// A round in which the application, window and view reported `a`, `w`
/// and `v`, and the engine `s`: `after` is `before` with all of it applied
/// and the engine's queue flushed as `flushed` says.
pub open spec fn round_done(
    before: AppState,
    after: AppState,
    a: Seq<AppEvent>,
    w: Seq<WindowEvent>,
    v: Seq<ViewEvent>,
    s: Seq<ServoEvent>,
    dirty: bool,
    queued_before: Seq<EngineCommand>,
    handled_before: Seq<Seq<EngineCommand>>,
    handled_after: Seq<Seq<EngineCommand>>,
) -> bool {
    &&& events_applied(before, after, a, w, v, s, dirty)
    &&& exists|batch: Seq<EngineCommand>| #[trigger] flushed(queued_before, batch, awakened(w), handled_before, handled_after)
}

/// What is done once the loop has settled, because it raises no new
/// events: the selected window's log view, where shown, gets `logs`.
pub fn after_settled<W: WindowSurface>(state: &AppState, window: &mut W, logs: &Vec<String>)
    requires
        state.wf(),
    ensures
        final(window).appended() == if state.has_window() && state.current_window().logs_visible {
            old(window).appended().push(logs@)
        } else {
            old(window).appended()
        },
        final(window).renders() == old(window).renders(),
{
    if state.logs_visible() {
        window.append_logs(logs);
    }
}

/// Whether a command-line argument is a flag.
pub open spec fn is_flag(arg: Seq<char>) -> bool {
    arg.len() > 0 && arg[0] == '-'
}

/// The first argument at or after `from` that is no flag.
pub open spec fn first_plain_arg(args: Seq<String>, from: int) -> Option<Seq<char>>
    decreases args.len() - from,
{
    if from < 0 || from >= args.len() {
        None
    } else if is_flag(args[from]@) {
        first_plain_arg(args, from + 1)
    } else {
        Some(args[from]@)
    }
}

/// The page opened at start-up: the first argument after the program's
/// name that is no flag, else the start page.
pub open spec fn initial_url_spec(args: Seq<String>) -> Seq<char> {
    match first_plain_arg(args, 1) {
        Some(url) => url,
        None => "https://blog.servo.org/"@,
    }
}

/// The page to open at start-up, from the command line `args` (the
/// program's name first).
pub fn initial_url(args: &Vec<String>) -> (r: String)
    ensures
        r@ == initial_url_spec(args@),
{
    let mut i: usize = 1;
    while i < args.len()
        invariant
            1 <= i,
            first_plain_arg(args@, i as int) == first_plain_arg(args@, 1),
        decreases args@.len() - i,
    {
        let arg = &args[i];
        let flag = arg.as_str().unicode_len() > 0 && arg.as_str().get_char(0) == '-';
        if !flag {
            return arg.clone();
        }
        i = i + 1;
    }
    String::from_str("https://blog.servo.org/")
}

/// Opens the first tab on `url` and builds the state of the application
/// around it.
pub fn start<E: Engine>(servo: &mut Servo, engine: &mut E, url: &str) -> (r: AppState)
    ensures
        r.wf(),
        r.windows@.len() == 1,
        r.current_window().browsers@.len() == 1,
        r.current_window().browsers@[0] == BrowserState::initial(r.current_window().browsers@[0].id),
        r.current_window_index == Some(0usize),
        r.current_window().current_browser_index == Some(0usize),
        final(engine).opened() == old(engine).opened().push((url@, r.current_window().browsers@[0].id)),
        final(engine).handled() == old(engine).handled(),
        final(servo).queues(
            old(servo),
            seq![
                EngineCommand::SelectBrowser(r.current_window().browsers@[0].id),
                EngineCommand::SelectBrowser(r.current_window().browsers@[0].id),
            ],
        ),
{
    let browser = servo.create_browser(engine, url);
    servo.select_browser(browser.id);
    let ghost id = browser.id;
    assert(servo.queued() =~= old(servo).queued() + seq![
        EngineCommand::SelectBrowser(id),
        EngineCommand::SelectBrowser(id),
    ]);
    AppState::new(browser)
}

} // verus!
