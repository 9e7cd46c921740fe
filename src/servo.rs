use vstd::prelude::*;

use crate::geometry::DrawableGeometry;
use crate::state::BrowserState;
use crate::view::{ElementState, Key, KeyModifiers, KeyState, MouseButton, TouchPhase};

verus! {

/// The engine's name for one tab. The engine hands it out; the shell only
/// carries it.
#[derive(Clone, Copy, Debug, PartialEq, Eq, Structural)]
pub struct BrowserId(pub u64);

/// The pointer shapes that the engine asks for.
#[derive(Clone, Copy, Debug, PartialEq, Eq, Structural)]
pub enum Cursor {
    Hidden,
    Default,
    Pointer,
    ContextMenu,
    Help,
    Progress,
    Wait,
    Cell,
    Crosshair,
    Text,
    VerticalText,
    Alias,
    Copy,
    Move,
    NoDrop,
    NotAllowed,
    Grab,
    Grabbing,
    EResize,
    NResize,
    NeResize,
    NwResize,
    SResize,
    SeResize,
    SwResize,
    WResize,
    EwResize,
    NsResize,
    NeswResize,
    NwseResize,
    ColResize,
    RowResize,
    AllScroll,
    ZoomIn,
    ZoomOut,
}

#[derive(Clone, Copy, Debug, PartialEq, Eq, Structural)]
pub enum WebRenderDebugOption {
    Profiler,
    TextureCacheDebug,
    RenderTargetDebug,
}

/// A command for the engine. Commands wait in the adapter's queue until the
/// next flush hands them over in one batch.
#[derive(Clone, Debug, PartialEq, Eq)]
pub enum EngineCommand {
    SelectBrowser(BrowserId),
    CloseBrowser(BrowserId),
    Reload(BrowserId),
    GoBack(BrowserId),
    GoForward(BrowserId),
    LoadUrl(BrowserId, String),
    MouseMove(i32, i32),
    /// Scroll by (dx, dy) at the point (x, y).
    Scroll(i32, i32, i32, i32, TouchPhase),
    Resize(u32, u32),
    MouseDown(MouseButton, i32, i32),
    MouseUp(MouseButton, i32, i32),
    Click(MouseButton, i32, i32),
    /// Show the page at 1.1 to the power of this level.
    Zoom(i32),
    ResetZoom,
    ToggleWebRenderDebug(WebRenderDebugOption),
    Key(BrowserId, Option<char>, Key, KeyState, KeyModifiers),
}

/// What the engine reports, in the order it reported it.
#[derive(Clone, Debug, PartialEq, Eq)]
pub enum ServoEvent {
    SetWindowInnerSize(u32, u32),
    SetWindowPosition(i32, i32),
    SetFullScreenState(bool),
    TitleChanged(BrowserId, Option<String>),
    StatusChanged(Option<String>),
    LoadStart(BrowserId),
    LoadEnd(BrowserId),
    HeadParsed(BrowserId),
    /// The URLs of a tab's history, and the index of the current one.
    HistoryChanged(BrowserId, Vec<String>, usize),
    CursorChanged(Cursor),
    FaviconChanged(BrowserId, String),
    Key(Option<char>, Key, KeyModifiers),
}

/// The embedded engine itself, as far as the shell drives it.
///
/// Its spec functions record what the shell asked of it. An implementation
/// checked by Verus defines them; the defaults only let other
/// implementations compile, and the generic code here never relies on them.
pub trait Engine {
    /// The tabs the engine was asked to open, in order: the URL asked for
    /// and the id the engine gave the tab.
    closed spec fn opened(&self) -> Seq<(Seq<char>, BrowserId)> {
        Seq::empty()
    }

    /// The batches of commands handed to the engine, in order.
    closed spec fn handled(&self) -> Seq<Seq<EngineCommand>> {
        Seq::empty()
    }

    /// Opens a tab on `url` and returns the id the engine gave it.
    fn new_browser(&mut self, url: &str) -> (r: BrowserId)
        ensures
            final(self).opened() == old(self).opened().push((url@, r)),
            final(self).handled() == old(self).handled(),
    ;

    /// Carries out `commands` in order.
    fn handle_events(&mut self, commands: Vec<EngineCommand>)
        ensures
            final(self).handled() == old(self).handled().push(commands@),
            final(self).opened() == old(self).opened(),
    ;

    fn version(&self) -> String;
}

/// Largest distance, in pixels, between a press and a release of the same
/// button that still counts as a click.
pub const MAX_CLICK_DISTANCE: i128 = 10;

/// Whether (ax, ay) and (bx, by) are closer than the click distance.
pub open spec fn within_click_distance(ax: int, ay: int, bx: int, by: int) -> bool {
    (ax - bx) * (ax - bx) + (ay - by) * (ay - by) < MAX_CLICK_DISTANCE * MAX_CLICK_DISTANCE
}

/// The commands that a button press or release at (x, y) sends, where
/// (org_x, org_y) is where a button last went down and `down_button` is the
/// button that last went down.
pub open spec fn click_commands(
    g: DrawableGeometry,
    x: i32,
    y: i32,
    org_x: i32,
    org_y: i32,
    state: ElementState,
    button: MouseButton,
    down_button: Option<MouseButton>,
) -> Seq<EngineCommand> {
    let (cx, cy) = g.content_point(x, y);
    let (ox, oy) = g.content_point(org_x, org_y);
    match state {
        ElementState::Pressed => seq![EngineCommand::MouseDown(button, cx, cy)],
        ElementState::Released => {
            if down_button == Some(button) && within_click_distance(ox as int, oy as int, cx as int, cy as int) {
                seq![EngineCommand::MouseUp(button, cx, cy), EngineCommand::Click(button, cx, cy)]
            } else {
                seq![EngineCommand::MouseUp(button, cx, cy)]
            }
        },
    }
}

/// The part of the adapter that the engine calls back: it answers the
/// engine's questions on geometry and keeps what the engine reports until
/// the shell collects it.
pub struct ServoCallbacks {
    geometry: DrawableGeometry,
    event_queue: Vec<ServoEvent>,
}

impl ServoCallbacks {
    pub closed spec fn geometry_spec(&self) -> DrawableGeometry {
        self.geometry
    }

    /// The reports not yet collected, oldest first.
    pub closed spec fn pending(&self) -> Seq<ServoEvent> {
        self.event_queue@
    }

    pub fn new(geometry: DrawableGeometry) -> (r: ServoCallbacks)
        ensures
            r.geometry_spec() == geometry,
            r.pending() == Seq::<ServoEvent>::empty(),
    {
        ServoCallbacks { geometry, event_queue: Vec::new() }
    }

    pub fn set_geometry(&mut self, geometry: DrawableGeometry)
        ensures
            final(self).geometry_spec() == geometry,
            final(self).pending() == old(self).pending(),
    {
        self.geometry = geometry;
    }

    /// Hands over every report in order and forgets them.
    pub fn get_events(&mut self) -> (r: Vec<ServoEvent>)
        ensures
            r@ == old(self).pending(),
            final(self).pending() == Seq::<ServoEvent>::empty(),
            final(self).geometry_spec() == old(self).geometry_spec(),
    {
        let mut events: Vec<ServoEvent> = Vec::new();
        std::mem::swap(&mut events, &mut self.event_queue);
        events
    }

    fn report(&mut self, event: ServoEvent)
        ensures
            final(self).pending() == old(self).pending().push(event),
            final(self).geometry_spec() == old(self).geometry_spec(),
    {
        self.event_queue.push(event);
    }

    pub fn prepare_for_composite(&self, _width: usize, _height: usize) -> (r: bool)
        ensures
            r,
    {
        true
    }

    pub fn supports_clipboard(&self) -> (r: bool)
        ensures
            !r,
    {
        false
    }

    /// Every navigation that the engine asks about is allowed.
    pub fn allow_navigation(&self, _id: BrowserId, _url: &str) -> (r: bool)
        ensures
            r,
    {
        true
    }

    pub fn hidpi_factor(&self) -> (r: u32)
        ensures
            r == self.geometry_spec().hidpi_factor,
    {
        self.geometry.hidpi_factor
    }

    /// The size of the view in device pixels.
    pub fn framebuffer_size(&self) -> (r: (u32, u32))
        ensures
            (r.0 as int, r.1 as int) == self.geometry_spec().framebuffer_spec(),
    {
        self.geometry.framebuffer()
    }

    /// The content area (x, y, width, height) in device pixels.
    pub fn window_rect(&self) -> (r: (u32, u32, u32, u32))
        ensures
            (r.0 as int, r.1 as int, r.2 as int, r.3 as int) == self.geometry_spec().content_rect_spec(),
    {
        self.geometry.content_rect()
    }

    /// The size of the view in logical pixels.
    pub fn size(&self) -> (r: (u32, u32))
        ensures
            r == self.geometry_spec().view_size,
    {
        self.geometry.view_size
    }

    /// The size and position of the view in logical pixels.
    pub fn client_window(&self, _id: BrowserId) -> (r: ((u32, u32), (i32, i32)))
        ensures
            r == (self.geometry_spec().view_size, self.geometry_spec().position),
    {
        (self.geometry.view_size, self.geometry.position)
    }

    pub fn set_inner_size(&mut self, _id: BrowserId, width: u32, height: u32)
        ensures
            final(self).pending() == old(self).pending().push(ServoEvent::SetWindowInnerSize(width, height)),
            final(self).geometry_spec() == old(self).geometry_spec(),
    {
        self.report(ServoEvent::SetWindowInnerSize(width, height));
    }

    pub fn set_position(&mut self, _id: BrowserId, x: i32, y: i32)
        ensures
            final(self).pending() == old(self).pending().push(ServoEvent::SetWindowPosition(x, y)),
            final(self).geometry_spec() == old(self).geometry_spec(),
    {
        self.report(ServoEvent::SetWindowPosition(x, y));
    }

    pub fn set_fullscreen_state(&mut self, _id: BrowserId, state: bool)
        ensures
            final(self).pending() == old(self).pending().push(ServoEvent::SetFullScreenState(state)),
            final(self).geometry_spec() == old(self).geometry_spec(),
    {
        self.report(ServoEvent::SetFullScreenState(state));
    }

    pub fn set_page_title(&mut self, id: BrowserId, title: Option<String>)
        ensures
            final(self).pending() == old(self).pending().push(ServoEvent::TitleChanged(id, title)),
            final(self).geometry_spec() == old(self).geometry_spec(),
    {
        self.report(ServoEvent::TitleChanged(id, title));
    }

    pub fn status(&mut self, _id: BrowserId, status: Option<String>)
        ensures
            final(self).pending() == old(self).pending().push(ServoEvent::StatusChanged(status)),
            final(self).geometry_spec() == old(self).geometry_spec(),
    {
        self.report(ServoEvent::StatusChanged(status));
    }

    pub fn load_start(&mut self, id: BrowserId)
        ensures
            final(self).pending() == old(self).pending().push(ServoEvent::LoadStart(id)),
            final(self).geometry_spec() == old(self).geometry_spec(),
    {
        self.report(ServoEvent::LoadStart(id));
    }

    pub fn load_end(&mut self, id: BrowserId)
        ensures
            final(self).pending() == old(self).pending().push(ServoEvent::LoadEnd(id)),
            final(self).geometry_spec() == old(self).geometry_spec(),
    {
        self.report(ServoEvent::LoadEnd(id));
    }

    pub fn head_parsed(&mut self, id: BrowserId)
        ensures
            final(self).pending() == old(self).pending().push(ServoEvent::HeadParsed(id)),
            final(self).geometry_spec() == old(self).geometry_spec(),
    {
        self.report(ServoEvent::HeadParsed(id));
    }

    pub fn history_changed(&mut self, id: BrowserId, entries: Vec<String>, current: usize)
        ensures
            final(self).pending() == old(self).pending().push(ServoEvent::HistoryChanged(id, entries, current)),
            final(self).geometry_spec() == old(self).geometry_spec(),
    {
        self.report(ServoEvent::HistoryChanged(id, entries, current));
    }

    pub fn set_cursor(&mut self, cursor: Cursor)
        ensures
            final(self).pending() == old(self).pending().push(ServoEvent::CursorChanged(cursor)),
            final(self).geometry_spec() == old(self).geometry_spec(),
    {
        self.report(ServoEvent::CursorChanged(cursor));
    }

    pub fn set_favicon(&mut self, id: BrowserId, url: String)
        ensures
            final(self).pending() == old(self).pending().push(ServoEvent::FaviconChanged(id, url)),
            final(self).geometry_spec() == old(self).geometry_spec(),
    {
        self.report(ServoEvent::FaviconChanged(id, url));
    }

    pub fn handle_key(&mut self, _id: Option<BrowserId>, ch: Option<char>, key: Key, mods: KeyModifiers)
        ensures
            final(self).pending() == old(self).pending().push(ServoEvent::Key(ch, key, mods)),
            final(self).geometry_spec() == old(self).geometry_spec(),
    {
        self.report(ServoEvent::Key(ch, key, mods));
    }
}

/// The engine adapter: turns the shell's intents into engine commands,
/// which wait in a queue until the next flush, and keeps what the engine
/// reports until the shell collects it.
pub struct Servo {
    events_for_servo: Vec<EngineCommand>,
    callbacks: ServoCallbacks,
}

impl Servo {
    /// The commands not yet handed to the engine, oldest first.
    pub closed spec fn queued(&self) -> Seq<EngineCommand> {
        self.events_for_servo@
    }

    pub closed spec fn callbacks_spec(&self) -> ServoCallbacks {
        self.callbacks
    }

    pub open spec fn geometry_spec(&self) -> DrawableGeometry {
        self.callbacks_spec().geometry_spec()
    }

    /// `self` with `command` queued and nothing else changed.
    pub open spec fn queues(&self, before: &Servo, commands: Seq<EngineCommand>) -> bool {
        &&& self.queued() == before.queued() + commands
        &&& self.callbacks_spec() == before.callbacks_spec()
    }

    /// Where the engine finds its resources, given the directory of the
    /// application's bundled resources.
    pub fn configure(resources_dir: Option<String>) -> (r: Result<String, &'static str>)
        ensures
            match resources_dir {
                Some(d) => r is Ok && r->Ok_0@ == d@ + "/servo_resources"@,
                None => r is Err,
            },
    {
        match resources_dir {
            Some(dir) => Ok(dir.concat("/servo_resources")),
            None => Err("Can't find resources directory"),
        }
    }

    pub fn version<E: Engine>(&self, engine: &E) -> String {
        engine.version()
    }

    pub fn new(geometry: DrawableGeometry) -> (r: Servo)
        ensures
            r.queued() == Seq::<EngineCommand>::empty(),
            r.callbacks_spec().pending() == Seq::<ServoEvent>::empty(),
            r.geometry_spec() == geometry,
    {
        Servo { events_for_servo: Vec::new(), callbacks: ServoCallbacks::new(geometry) }
    }

    /// The callbacks, for the engine to call.
    pub fn callbacks_mut(&mut self) -> (r: &mut ServoCallbacks)
        ensures
            *r == old(self).callbacks_spec(),
            final(self).callbacks_spec() == *final(r),
            final(self).queued() == old(self).queued(),
    {
        &mut self.callbacks
    }

    fn push(&mut self, command: EngineCommand)
        ensures
            final(self).queues(old(self), seq![command]),
    {
        self.events_for_servo.push(command);
        assert(self.events_for_servo@ =~= old(self).events_for_servo@ + seq![command]);
    }

    /// Has the engine open a tab on `url`, queues its selection, and returns
    /// the state of the new tab.
    pub fn create_browser<E: Engine>(&mut self, engine: &mut E, url: &str) -> (r: BrowserState)
        ensures
            r == BrowserState::initial(r.id),
            final(engine).opened() == old(engine).opened().push((url@, r.id)),
            final(engine).handled() == old(engine).handled(),
            final(self).queues(old(self), seq![EngineCommand::SelectBrowser(r.id)]),
    {
        let id = engine.new_browser(url);
        self.select_browser(id);
        BrowserState::new(id)
    }

    pub fn select_browser(&mut self, id: BrowserId)
        ensures
            final(self).queues(old(self), seq![EngineCommand::SelectBrowser(id)]),
    {
        self.push(EngineCommand::SelectBrowser(id));
    }

    pub fn close_browser(&mut self, id: BrowserId)
        ensures
            final(self).queues(old(self), seq![EngineCommand::CloseBrowser(id)]),
    {
        self.push(EngineCommand::CloseBrowser(id));
    }

    /// Hands over what the engine reported since the last call, in order.
    pub fn get_events(&mut self) -> (r: Vec<ServoEvent>)
        ensures
            r@ == old(self).callbacks_spec().pending(),
            final(self).callbacks_spec().pending() == Seq::<ServoEvent>::empty(),
            final(self).geometry_spec() == old(self).geometry_spec(),
            final(self).queued() == old(self).queued(),
    {
        self.callbacks.get_events()
    }

    pub fn reload(&mut self, id: BrowserId)
        ensures
            final(self).queues(old(self), seq![EngineCommand::Reload(id)]),
    {
        self.push(EngineCommand::Reload(id));
    }

    pub fn go_back(&mut self, id: BrowserId)
        ensures
            final(self).queues(old(self), seq![EngineCommand::GoBack(id)]),
    {
        self.push(EngineCommand::GoBack(id));
    }

    pub fn go_forward(&mut self, id: BrowserId)
        ensures
            final(self).queues(old(self), seq![EngineCommand::GoForward(id)]),
    {
        self.push(EngineCommand::GoForward(id));
    }

    pub fn load_url(&mut self, id: BrowserId, url: String)
        ensures
            final(self).queues(old(self), seq![EngineCommand::LoadUrl(id, url)]),
    {
        self.push(EngineCommand::LoadUrl(id, url));
    }

    /// A window coordinate made relative to the content area, in device
    /// pixels.
    fn substract_margins(&self, x: i32, y: i32) -> (r: (i32, i32))
        ensures
            r == self.geometry_spec().content_point(x, y),
    {
        self.callbacks.geometry.content_point_of(x, y)
    }

    pub fn perform_mouse_move(&mut self, x: i32, y: i32)
        ensures
            final(self).queues(
                old(self),
                seq![EngineCommand::MouseMove(
                    old(self).geometry_spec().content_point(x, y).0,
                    old(self).geometry_spec().content_point(x, y).1,
                )],
            ),
    {
        let (x, y) = self.substract_margins(x, y);
        self.push(EngineCommand::MouseMove(x, y));
    }

    pub fn perform_scroll(&mut self, x: i32, y: i32, dx: i32, dy: i32, phase: TouchPhase)
        ensures
            final(self).queues(
                old(self),
                seq![EngineCommand::Scroll(
                    dx,
                    dy,
                    old(self).geometry_spec().content_point(x, y).0,
                    old(self).geometry_spec().content_point(x, y).1,
                    phase,
                )],
            ),
    {
        let (x, y) = self.substract_margins(x, y);
        self.push(EngineCommand::Scroll(dx, dy, x, y, phase));
    }

    /// Takes the view's new geometry and tells the engine the new
    /// framebuffer size.
    pub fn update_geometry(&mut self, geometry: DrawableGeometry)
        ensures
            final(self).geometry_spec() == geometry,
            final(self).callbacks_spec().pending() == old(self).callbacks_spec().pending(),
            final(self).queued() == old(self).queued().push(
                EngineCommand::Resize(
                    geometry.framebuffer_spec().0 as u32,
                    geometry.framebuffer_spec().1 as u32,
                ),
            ),
    {
        self.callbacks.set_geometry(geometry);
        let (w, h) = self.callbacks.framebuffer_size();
        self.events_for_servo.push(EngineCommand::Resize(w, h));
    }

    /// Sends a button press or release at (x, y). A release of the button
    /// that last went down, close enough to where it went down at
    /// (org_x, org_y), is also a click.
    pub fn perform_click(
        &mut self,
        x: i32,
        y: i32,
        org_x: i32,
        org_y: i32,
        element_state: ElementState,
        mouse_button: MouseButton,
        mouse_down_button: Option<MouseButton>,
    )
        ensures
            final(self).queues(
                old(self),
                click_commands(
                    old(self).geometry_spec(),
                    x,
                    y,
                    org_x,
                    org_y,
                    element_state,
                    mouse_button,
                    mouse_down_button,
                ),
            ),
    {
        let (x, y) = self.substract_margins(x, y);
        let (org_x, org_y) = self.substract_margins(org_x, org_y);
        match element_state {
            ElementState::Pressed => {
                self.push(EngineCommand::MouseDown(mouse_button, x, y));
            },
            ElementState::Released => {
                self.push(EngineCommand::MouseUp(mouse_button, x, y));
                let same_button = match mouse_down_button {
                    Some(b) => b == mouse_button,
                    None => false,
                };
                if same_button && is_within_click_distance(org_x, org_y, x, y) {
                    self.push(EngineCommand::Click(mouse_button, x, y));
                    assert(self.queued() =~= old(self).queued() + seq![
                        EngineCommand::MouseUp(mouse_button, x, y),
                        EngineCommand::Click(mouse_button, x, y),
                    ]);
                }
            },
        }
    }

    /// Sets the zoom of the page to 1.1 to the power of `level`.
    pub fn zoom(&mut self, level: i32)
        ensures
            final(self).queues(old(self), seq![EngineCommand::Zoom(level)]),
    {
        self.push(EngineCommand::Zoom(level));
    }

    pub fn reset_zoom(&mut self)
        ensures
            final(self).queues(old(self), seq![EngineCommand::ResetZoom]),
    {
        self.push(EngineCommand::ResetZoom);
    }

    /// The engine has no such switch; nothing is queued.
    pub fn set_webrender_profiler_enabled(&mut self, _enabled: bool)
        ensures
            *final(self) == *old(self),
    {
    }

    pub fn toggle_webrender_debug_option(&mut self, option: WebRenderDebugOption)
        ensures
            final(self).queues(old(self), seq![EngineCommand::ToggleWebRenderDebug(option)]),
    {
        self.push(EngineCommand::ToggleWebRenderDebug(option));
    }

    pub fn send_key(
        &mut self,
        id: BrowserId,
        ch: Option<char>,
        key: Key,
        state: KeyState,
        mods: KeyModifiers,
    )
        ensures
            final(self).queues(old(self), seq![EngineCommand::Key(id, ch, key, state, mods)]),
    {
        self.push(EngineCommand::Key(id, ch, key, state, mods));
    }

    /// The batch of queued commands to hand to the engine now: all of them,
    /// where there are any or `force` is set, and the queue is emptied.
    pub fn sync(&mut self, force: bool) -> (r: Option<Vec<EngineCommand>>)
        ensures
            (old(self).queued().len() > 0 || force) ==> (r is Some && r->Some_0@ == old(self).queued()),
            !(old(self).queued().len() > 0 || force) ==> r is None,
            final(self).queued() == Seq::<EngineCommand>::empty(),
            final(self).callbacks_spec() == old(self).callbacks_spec(),
    {
        if self.events_for_servo.len() > 0 || force {
            let mut batch: Vec<EngineCommand> = Vec::new();
            std::mem::swap(&mut batch, &mut self.events_for_servo);
            Some(batch)
        } else {
            None
        }
    }
}

/// Whether (ax, ay) and (bx, by) are closer than the click distance.
pub fn is_within_click_distance(ax: i32, ay: i32, bx: i32, by: i32) -> (r: bool)
    ensures
        r == within_click_distance(ax as int, ay as int, bx as int, by as int),
{
    let dx: i128 = ax as i128 - bx as i128;
    let dy: i128 = ay as i128 - by as i128;
    proof {
        assert(0 <= dx * dx <= 0x1_0000_0000 * 0x1_0000_0000) by (nonlinear_arith)
            requires
                -0x1_0000_0000 <= dx <= 0x1_0000_0000,
        ;
        assert(0 <= dy * dy <= 0x1_0000_0000 * 0x1_0000_0000) by (nonlinear_arith)
            requires
                -0x1_0000_0000 <= dy <= 0x1_0000_0000,
        ;
    }
    dx * dx + dy * dy < MAX_CLICK_DISTANCE * MAX_CLICK_DISTANCE
}

} // verus!
