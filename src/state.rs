use vstd::prelude::*;

use crate::location::{opt_chars, resolve_location, resolved_location};
use crate::servo::{
    click_commands, BrowserId, Cursor, EngineCommand, Servo, ServoEvent, WebRenderDebugOption,
};
use crate::view::{ElementState, MouseButton};

verus! {

/// The zoom level after zooming in one step; a level stands for the factor
/// 1.1 to its power, so every level is a positive factor.
pub open spec fn zoomed_in(level: i32) -> i32 {
    if level < i32::MAX {
        (level + 1) as i32
    } else {
        level
    }
}

/// The zoom level after zooming out one step.
pub open spec fn zoomed_out(level: i32) -> i32 {
    if level > i32::MIN {
        (level - 1) as i32
    } else {
        level
    }
}

/// One tab.
#[derive(Debug)]
pub struct BrowserState {
    pub id: BrowserId,
    pub url: Option<String>,
    pub title: Option<String>,
    /// The last text typed in the address bar for this tab.
    pub user_input: Option<String>,
    /// The page is shown at 1.1 to the power of this level; 0 is actual size.
    pub zoom_level: i32,
    pub is_loading: bool,
    pub can_go_back: bool,
    pub can_go_forward: bool,
    pub last_mouse_point: (i32, i32),
    pub last_mouse_down_point: (i32, i32),
    pub last_mouse_down_button: Option<MouseButton>,
    pub show_fragment_borders: bool,
    pub parallel_display_list_building: bool,
    pub show_parallel_layout: bool,
    pub convert_mouse_to_touch: bool,
    pub show_webrender_stats: bool,
    pub show_tiles_borders: bool,
}

impl BrowserState {
    /// A tab that the engine has just opened under `id`.
    pub open spec fn initial(id: BrowserId) -> BrowserState {
        BrowserState {
            id,
            url: None,
            title: None,
            user_input: None,
            zoom_level: 0,
            is_loading: false,
            can_go_back: false,
            can_go_forward: false,
            last_mouse_point: (0, 0),
            last_mouse_down_point: (0, 0),
            last_mouse_down_button: None,
            show_fragment_borders: false,
            parallel_display_list_building: false,
            show_parallel_layout: false,
            convert_mouse_to_touch: false,
            show_webrender_stats: false,
            show_tiles_borders: false,
        }
    }

    pub fn new(id: BrowserId) -> (r: BrowserState)
        ensures
            r == BrowserState::initial(id),
    {
        BrowserState {
            id,
            url: None,
            title: None,
            user_input: None,
            zoom_level: 0,
            is_loading: false,
            can_go_back: false,
            can_go_forward: false,
            last_mouse_point: (0, 0),
            last_mouse_down_point: (0, 0),
            last_mouse_down_button: None,
            show_fragment_borders: false,
            parallel_display_list_building: false,
            show_parallel_layout: false,
            convert_mouse_to_touch: false,
            show_webrender_stats: false,
            show_tiles_borders: false,
        }
    }
}

#[derive(Clone, Copy, Debug, PartialEq, Eq, Structural)]
pub struct DebugOptions {
    pub wr_profiler: bool,
    pub wr_texture_cache_debug: bool,
    pub wr_render_target_debug: bool,
}

impl DebugOptions {
    /// The options with `option` switched over.
    pub open spec fn toggled(self, option: WebRenderDebugOption) -> DebugOptions {
        match option {
            WebRenderDebugOption::Profiler => DebugOptions { wr_profiler: !self.wr_profiler, ..self },
            WebRenderDebugOption::TextureCacheDebug => DebugOptions {
                wr_texture_cache_debug: !self.wr_texture_cache_debug,
                ..self
            },
            WebRenderDebugOption::RenderTargetDebug => DebugOptions {
                wr_render_target_debug: !self.wr_render_target_debug,
                ..self
            },
        }
    }
}

/// Whether no two of `browsers` have the same id.
pub open spec fn distinct_ids(browsers: Seq<BrowserState>) -> bool {
    forall|i: int, j: int| 0 <= i < j < browsers.len() ==> browsers[i].id != browsers[j].id
}

/// Whether `browsers` holds a tab, no two with the same id, and `current`
/// points at one of them.
pub open spec fn tabs_live(browsers: Seq<BrowserState>, current: Option<usize>) -> bool {
    &&& browsers.len() > 0
    &&& distinct_ids(browsers)
    &&& browsers.len() <= usize::MAX
    &&& current is Some
    &&& current->Some_0 < browsers.len()
}

/// A change to the set of tabs of a window, or to which one is selected.
pub enum TabOp {
    /// A tab that the engine opened under this id.
    Open(BrowserId),
    Close,
    Next,
    Prev,
    Select(usize),
}

/// The tab before `current`, the last one before the first.
pub open spec fn prev_index(len: nat, current: usize) -> usize {
    if current == 0 {
        (len - 1) as usize
    } else {
        (current - 1) as usize
    }
}

/// The tab after `current`, the first one after the last.
pub open spec fn next_index(len: nat, current: usize) -> usize {
    if current == len - 1 {
        0
    } else {
        (current + 1) as usize
    }
}

/// The tabs and the selected index after `op`. A new tab goes last and is
/// selected; an id that is already tracked is not taken twice. Closing is
/// refused on
/// the only tab; closing the last tab selects its predecessor, closing
/// another selects the one that moves into its place.
pub open spec fn after_tab_op(
    browsers: Seq<BrowserState>,
    current: usize,
    op: TabOp,
) -> (Seq<BrowserState>, usize) {
    match op {
        TabOp::Open(id) => {
            if browsers.len() < usize::MAX && !tracks(browsers, id) {
                (browsers.push(BrowserState::initial(id)), browsers.len() as usize)
            } else {
                (browsers, current)
            }
        },
        TabOp::Close => {
            if browsers.len() > 1 {
                if current == browsers.len() - 1 {
                    (browsers.remove(current as int), (current - 1) as usize)
                } else {
                    (browsers.remove(current as int), current)
                }
            } else {
                (browsers, current)
            }
        },
        TabOp::Next => (browsers, next_index(browsers.len(), current)),
        TabOp::Prev => (browsers, prev_index(browsers.len(), current)),
        TabOp::Select(i) => {
            if i < browsers.len() {
                (browsers, i)
            } else {
                (browsers, current)
            }
        },
    }
}

/// The tabs and the selected index after each of `ops` in turn.
pub open spec fn after_tab_ops(
    browsers: Seq<BrowserState>,
    current: usize,
    ops: Seq<TabOp>,
) -> (Seq<BrowserState>, usize)
    decreases ops.len(),
{
    if ops.len() == 0 {
        (browsers, current)
    } else {
        let (b, c) = after_tab_op(browsers, current, ops[0]);
        after_tab_ops(b, c, ops.drop_first())
    }
}

/// Whichever way tabs are opened, closed and selected, a window keeps at
/// least one tab and its selected index points at one of them.
pub proof fn lemma_tab_ops_keep_a_live_tab(browsers: Seq<BrowserState>, current: usize, ops: Seq<TabOp>)
    requires
        tabs_live(browsers, Some(current)),
    ensures
        tabs_live(after_tab_ops(browsers, current, ops).0, Some(after_tab_ops(browsers, current, ops).1)),
    decreases ops.len(),
{
    if ops.len() > 0 {
        let (b, c) = after_tab_op(browsers, current, ops[0]);
        lemma_tab_op_keeps_a_live_tab(browsers, current, ops[0]);
        lemma_tab_ops_keep_a_live_tab(b, c, ops.drop_first());
    }
}

/// One tab operation keeps a window live.
pub proof fn lemma_tab_op_keeps_a_live_tab(browsers: Seq<BrowserState>, current: usize, op: TabOp)
    requires
        tabs_live(browsers, Some(current)),
    ensures
        tabs_live(after_tab_op(browsers, current, op).0, Some(after_tab_op(browsers, current, op).1)),
{
    let (b, c) = after_tab_op(browsers, current, op);
    match op {
        TabOp::Close => {
            if browsers.len() > 1 {
                lemma_remove_keeps_distinct(browsers, current as int);
            }
        },
        TabOp::Open(id) => {
            if browsers.len() < usize::MAX && !tracks(browsers, id) {
                assert forall|i: int, j: int| 0 <= i < j < b.len() implies b[i].id != b[j].id by {
                    if j == browsers.len() {
                        assert(browsers[i].id != id);
                    }
                }
            }
        },
        _ => {},
    }
}

/// Removing a tab keeps the ids distinct.
pub proof fn lemma_remove_keeps_distinct(browsers: Seq<BrowserState>, k: int)
    requires
        distinct_ids(browsers),
        0 <= k < browsers.len(),
    ensures
        distinct_ids(browsers.remove(k)),
{
    let b = browsers.remove(k);
    assert forall|i: int, j: int| 0 <= i < j < b.len() implies b[i].id != b[j].id by {
        let oi = if i < k { i } else { i + 1 };
        let oj = if j < k { j } else { j + 1 };
        assert(b[i] == browsers[oi]);
        assert(b[j] == browsers[oj]);
    }
}

/// Closing a tab other than the last keeps the index selected, which now
/// holds the tab that came after the closed one; closing the last tab of
/// several selects the one before it.
pub proof fn lemma_close_selects_neighbour(browsers: Seq<BrowserState>, current: usize)
    requires
        tabs_live(browsers, Some(current)),
        browsers.len() > 1,
    ensures
        current < browsers.len() - 1 ==> {
            let (b, c) = after_tab_op(browsers, current, TabOp::Close);
            c == current && b[c as int] == browsers[current + 1] && b.len() == browsers.len() - 1
        },
        current == browsers.len() - 1 ==> after_tab_op(browsers, current, TabOp::Close).1 == browsers.len() - 2,
{
}

/// Zooming in one step and then out one step comes back to the same level,
/// short of the largest level.
pub proof fn lemma_zoom_in_then_out(level: i32)
    requires
        level < i32::MAX,
    ensures
        zoomed_out(zoomed_in(level)) == level,
{
}

/// The status shown when typed text leads nowhere.
pub open spec fn unparsable_message(request: Seq<char>) -> Seq<char> {
    "Can't parse url: "@ + request
}

/// How loading `request` changes the window, `before` to `after`: the text
/// is kept for the selected tab, and where it resolves to no URL the status
/// reports it.
pub open spec fn load_effect(before: WindowState, after: WindowState, request: String) -> bool {
    let b = BrowserState { user_input: Some(request), ..before.current_browser() };
    if resolved_location(request@) is Some {
        after.current_became(&before, b)
    } else {
        &&& after.browsers@ == before.browsers@.update(before.current_index() as int, b)
        &&& after.current_browser_index == before.current_browser_index
        &&& opt_chars(after.status) == Some(unparsable_message(request@))
        &&& after.urlbar_focused == before.urlbar_focused
        &&& after.sidebar_is_open == before.sidebar_is_open
        &&& after.options_open == before.options_open
        &&& after.logs_visible == before.logs_visible
        &&& after.debug_options == before.debug_options
    }
}

pub struct WindowState {
    pub current_browser_index: Option<usize>,
    pub browsers: Vec<BrowserState>,
    pub urlbar_focused: bool,
    pub sidebar_is_open: bool,
    pub options_open: bool,
    pub logs_visible: bool,
    pub status: Option<String>,
    pub debug_options: DebugOptions,
}

impl WindowState {
    pub open spec fn wf(&self) -> bool {
        tabs_live(self.browsers@, self.current_browser_index)
    }

    pub open spec fn current_index(&self) -> usize {
        self.current_browser_index->Some_0
    }

    pub open spec fn current_browser(&self) -> BrowserState {
        self.browsers@[self.current_index() as int]
    }

    /// `self` and `other` agree on everything but the tabs and the selection.
    pub open spec fn same_chrome(&self, other: &WindowState) -> bool {
        &&& self.urlbar_focused == other.urlbar_focused
        &&& self.sidebar_is_open == other.sidebar_is_open
        &&& self.options_open == other.options_open
        &&& self.logs_visible == other.logs_visible
        &&& self.status == other.status
        &&& self.debug_options == other.debug_options
    }

    /// `self` is `before` after `op` on its tabs, with the chrome unchanged.
    pub open spec fn is_after(&self, before: &WindowState, op: TabOp) -> bool {
        let (b, c) = after_tab_op(before.browsers@, before.current_index(), op);
        &&& self.browsers@ == b
        &&& self.current_browser_index == Some(c)
        &&& self.same_chrome(before)
    }

    /// A window whose only tab is `first`.
    pub fn new(first: BrowserState) -> (r: WindowState)
        ensures
            r.wf(),
            r.browsers@ == seq![first],
            r.current_browser_index == Some(0usize),
            !r.urlbar_focused && !r.sidebar_is_open && !r.options_open && !r.logs_visible,
            r.status is None,
            r.debug_options == (DebugOptions {
                wr_profiler: false,
                wr_texture_cache_debug: false,
                wr_render_target_debug: false,
            }),
    {
        let mut browsers: Vec<BrowserState> = Vec::new();
        browsers.push(first);
        WindowState {
            current_browser_index: Some(0),
            browsers,
            urlbar_focused: false,
            sidebar_is_open: false,
            options_open: false,
            logs_visible: false,
            status: None,
            debug_options: DebugOptions {
                wr_profiler: false,
                wr_texture_cache_debug: false,
                wr_render_target_debug: false,
            },
        }
    }

    /// Takes a tab that the engine opened: it goes last and is selected. A
    /// tab whose id is already tracked is not taken. Returns whether it was
    /// taken.
    pub fn add_tab(&mut self, browser: BrowserState) -> (r: bool)
        requires
            old(self).wf(),
            browser == BrowserState::initial(browser.id),
        ensures
            final(self).wf(),
            final(self).is_after(old(self), TabOp::Open(browser.id)),
            r == (old(self).browsers@.len() < usize::MAX && !tracks(old(self).browsers@, browser.id)),
    {
        let ghost id = browser.id;
        if self.browsers.len() < usize::MAX && self.find_browser(browser.id).is_none() {
            let len = self.browsers.len();
            self.current_browser_index = Some(len);
            self.browsers.push(browser);
            proof {
                lemma_tab_op_keeps_a_live_tab(old(self).browsers@, old(self).current_index(), TabOp::Open(id));
            }
            true
        } else {
            false
        }
    }

    /// Closes the selected tab, unless it is the only one, and tells the
    /// engine which tab to show instead. Returns whether a tab was closed.
    pub fn close_tab(&mut self, servo: &mut Servo) -> (r: bool)
        requires
            old(self).wf(),
        ensures
            final(self).wf(),
            final(self).is_after(old(self), TabOp::Close),
            r == (old(self).browsers@.len() > 1),
            r ==> final(servo).queues(
                old(servo),
                seq![
                    EngineCommand::SelectBrowser(final(self).current_browser().id),
                    EngineCommand::CloseBrowser(old(self).current_browser().id),
                ],
            ),
            !r ==> *final(servo) == *old(servo),
    {
        let idx = match self.current_browser_index {
            Some(i) => i,
            None => 0,
        };
        let len = self.browsers.len();
        if len > 1 {
            let id = self.browsers[idx].id;
            let new_id = if idx == len - 1 {
                self.current_browser_index = Some(idx - 1);
                self.browsers[idx - 1].id
            } else {
                self.browsers[idx + 1].id
            };
            servo.select_browser(new_id);
            servo.close_browser(id);
            self.browsers.remove(idx);
            proof {
                lemma_remove_keeps_distinct(old(self).browsers@, idx as int);
            }
            assert(servo.queued() =~= old(servo).queued() + seq![
                EngineCommand::SelectBrowser(new_id),
                EngineCommand::CloseBrowser(id),
            ]);
            assert(self.browsers@[self.current_index() as int].id == new_id);
            true
        } else {
            false
        }
    }

    /// Selects the tab before the selected one, wrapping around.
    pub fn prev_tab(&mut self, servo: &mut Servo)
        requires
            old(self).wf(),
        ensures
            final(self).wf(),
            final(self).is_after(old(self), TabOp::Prev),
            final(servo).queues(old(servo), seq![EngineCommand::SelectBrowser(final(self).current_browser().id)]),
    {
        let idx = match self.current_browser_index {
            Some(i) => i,
            None => 0,
        };
        let new_idx = if idx == 0 {
            self.browsers.len() - 1
        } else {
            idx - 1
        };
        self.current_browser_index = Some(new_idx);
        servo.select_browser(self.browsers[new_idx].id);
    }

    /// Selects the tab after the selected one, wrapping around.
    pub fn next_tab(&mut self, servo: &mut Servo)
        requires
            old(self).wf(),
        ensures
            final(self).wf(),
            final(self).is_after(old(self), TabOp::Next),
            final(servo).queues(old(servo), seq![EngineCommand::SelectBrowser(final(self).current_browser().id)]),
    {
        let idx = match self.current_browser_index {
            Some(i) => i,
            None => 0,
        };
        let new_idx = if idx == self.browsers.len() - 1 {
            0
        } else {
            idx + 1
        };
        self.current_browser_index = Some(new_idx);
        servo.select_browser(self.browsers[new_idx].id);
    }

    /// Selects tab `idx`. Selecting the tab that is already selected, or one
    /// that does not exist, changes nothing and sends nothing. Returns
    /// whether the selection changed.
    pub fn select_tab(&mut self, servo: &mut Servo, idx: usize) -> (r: bool)
        requires
            old(self).wf(),
        ensures
            final(self).wf(),
            final(self).is_after(old(self), TabOp::Select(idx)),
            r == (old(self).current_browser_index != Some(idx) && idx < old(self).browsers@.len()),
            r ==> final(servo).queues(old(servo), seq![EngineCommand::SelectBrowser(old(self).browsers@[idx as int].id)]),
            !r ==> *final(servo) == *old(servo) && *final(self) == *old(self),
    {
        if self.current_browser_index != Some(idx) && idx < self.browsers.len() {
            self.current_browser_index = Some(idx);
            servo.select_browser(self.browsers[idx].id);
            true
        } else {
            false
        }
    }
}

impl WindowState {
    /// `self` is `before` with the selected tab replaced by `b`, and nothing
    /// else changed.
    pub open spec fn current_became(&self, before: &WindowState, b: BrowserState) -> bool {
        &&& self.browsers@ == before.browsers@.update(before.current_index() as int, b)
        &&& self.current_browser_index == before.current_browser_index
        &&& self.same_chrome(before)
    }

    /// `self` is `before` with tab `i` replaced by `b`, and nothing else
    /// changed.
    pub open spec fn tab_became(&self, before: &WindowState, i: int, b: BrowserState) -> bool {
        &&& self.browsers@ == before.browsers@.update(i, b)
        &&& self.current_browser_index == before.current_browser_index
        &&& self.same_chrome(before)
    }

    fn current(&self) -> (r: usize)
        requires
            self.wf(),
        ensures
            r == self.current_index(),
    {
        match self.current_browser_index {
            Some(i) => i,
            None => 0,
        }
    }

    /// The engine's id of the selected tab.
    pub fn current_id(&self) -> (r: BrowserId)
        requires
            self.wf(),
        ensures
            r == self.current_browser().id,
    {
        self.browsers[self.current()].id
    }

    /// Zooms the selected tab in one step.
    pub fn zoom_in(&mut self, servo: &mut Servo)
        requires
            old(self).wf(),
        ensures
            final(self).wf(),
            final(self).current_became(
                old(self),
                BrowserState { zoom_level: zoomed_in(old(self).current_browser().zoom_level), ..old(self).current_browser() },
            ),
            final(servo).queues(old(servo), seq![EngineCommand::Zoom(zoomed_in(old(self).current_browser().zoom_level))]),
    {
        let idx = self.current();
        let b = &mut self.browsers[idx];
        if b.zoom_level < i32::MAX {
            b.zoom_level = b.zoom_level + 1;
        }
        servo.zoom(b.zoom_level);
    }

    /// Zooms the selected tab out one step.
    pub fn zoom_out(&mut self, servo: &mut Servo)
        requires
            old(self).wf(),
        ensures
            final(self).wf(),
            final(self).current_became(
                old(self),
                BrowserState { zoom_level: zoomed_out(old(self).current_browser().zoom_level), ..old(self).current_browser() },
            ),
            final(servo).queues(old(servo), seq![EngineCommand::Zoom(zoomed_out(old(self).current_browser().zoom_level))]),
    {
        let idx = self.current();
        let b = &mut self.browsers[idx];
        if b.zoom_level > i32::MIN {
            b.zoom_level = b.zoom_level - 1;
        }
        servo.zoom(b.zoom_level);
    }

    /// Shows the selected tab at actual size: level 0, the factor 1.
    pub fn reset_zoom(&mut self, servo: &mut Servo)
        requires
            old(self).wf(),
        ensures
            final(self).wf(),
            final(self).current_became(old(self), BrowserState { zoom_level: 0, ..old(self).current_browser() }),
            final(servo).queues(old(servo), seq![EngineCommand::ResetZoom]),
    {
        let idx = self.current();
        self.browsers[idx].zoom_level = 0;
        servo.reset_zoom();
    }

    /// Keeps `request` as what was typed for the selected tab and, where it
    /// resolves to a URL, has the tab load it; where it does not, the window's
    /// status says so. Returns whether it resolved.
    pub fn load(&mut self, servo: &mut Servo, request: String) -> (r: bool)
        requires
            old(self).wf(),
        ensures
            final(self).wf(),
            load_effect(*old(self), *final(self), request),
            r == resolved_location(request@) is Some,
            r ==> exists|u: String|
                opt_chars(Some(u)) == resolved_location(request@)
                && final(servo).queues(old(servo), seq![EngineCommand::LoadUrl(old(self).current_browser().id, u)]),
            !r ==> *final(servo) == *old(servo),
    {
        let idx = self.current();
        let resolved = resolve_location(request.as_str());
        let id = self.browsers[idx].id;
        let message = String::from_str("Can't parse url: ").concat(request.as_str());
        self.browsers[idx].user_input = Some(request);
        match resolved {
            Some(url) => {
                servo.load_url(id, url);
                true
            },
            None => {
                self.status = Some(message);
                false
            },
        }
    }

    /// Notes where the pointer is and tells the engine.
    pub fn mouse_moved(&mut self, servo: &mut Servo, x: i32, y: i32)
        requires
            old(self).wf(),
        ensures
            final(self).wf(),
            final(self).current_became(old(self), BrowserState { last_mouse_point: (x, y), ..old(self).current_browser() }),
            final(servo).queues(
                old(servo),
                seq![EngineCommand::MouseMove(
                    old(servo).geometry_spec().content_point(x, y).0,
                    old(servo).geometry_spec().content_point(x, y).1,
                )],
            ),
    {
        let idx = self.current();
        self.browsers[idx].last_mouse_point = (x, y);
        servo.perform_mouse_move(x, y);
    }

    /// A button went down or up where the pointer last was.
    pub fn mouse_input(&mut self, servo: &mut Servo, state: ElementState, button: MouseButton)
        requires
            old(self).wf(),
        ensures
            final(self).wf(),
            ({
                let b = old(self).current_browser();
                &&& final(self).current_became(
                    old(self),
                    BrowserState {
                        last_mouse_down_point: b.last_mouse_point,
                        last_mouse_down_button: if state == ElementState::Pressed {
                            Some(button)
                        } else {
                            b.last_mouse_down_button
                        },
                        ..b
                    },
                )
                &&& final(servo).queues(
                    old(servo),
                    click_commands(
                        old(servo).geometry_spec(),
                        b.last_mouse_point.0,
                        b.last_mouse_point.1,
                        b.last_mouse_down_point.0,
                        b.last_mouse_down_point.1,
                        state,
                        button,
                        b.last_mouse_down_button,
                    ),
                )
            }),
    {
        let idx = self.current();
        let b = &mut self.browsers[idx];
        let (x, y) = b.last_mouse_point;
        let (org_x, org_y) = b.last_mouse_down_point;
        servo.perform_click(x, y, org_x, org_y, state, button, b.last_mouse_down_button);
        b.last_mouse_down_point = (x, y);
        if state == ElementState::Pressed {
            b.last_mouse_down_button = Some(button);
        }
    }

    /// The index of the first tab with `id`.
    pub fn find_browser(&self, id: BrowserId) -> (r: Option<usize>)
        ensures
            match r {
                Some(i) => i < self.browsers@.len() && self.browsers@[i as int].id == id
                    && forall|j: int| 0 <= j < i ==> self.browsers@[j].id != id,
                None => forall|j: int| 0 <= j < self.browsers@.len() ==> self.browsers@[j].id != id,
            },
    {
        let mut i: usize = 0;
        while i < self.browsers.len()
            invariant
                i <= self.browsers@.len(),
                forall|j: int| 0 <= j < i ==> self.browsers@[j].id != id,
            decreases self.browsers@.len() - i,
        {
            if self.browsers[i].id == id {
                return Some(i);
            }
            i = i + 1;
        }
        None
    }
}

/// The tab that an engine report is about, where it changes a tab's state.
pub open spec fn reported_tab(e: ServoEvent) -> Option<BrowserId> {
    match e {
        ServoEvent::TitleChanged(id, _) => Some(id),
        ServoEvent::LoadStart(id) => Some(id),
        ServoEvent::LoadEnd(id) => Some(id),
        ServoEvent::HistoryChanged(id, entries, current) => {
            if current < entries@.len() {
                Some(id)
            } else {
                None
            }
        },
        _ => None,
    }
}

/// A tab's state after an engine report about it.
pub open spec fn tab_after_report(b: BrowserState, e: ServoEvent) -> BrowserState {
    match e {
        ServoEvent::TitleChanged(_, title) => BrowserState { title, ..b },
        ServoEvent::LoadStart(_) => BrowserState { is_loading: true, ..b },
        ServoEvent::LoadEnd(_) => BrowserState { is_loading: false, ..b },
        ServoEvent::HistoryChanged(_, entries, current) => BrowserState {
            url: Some(entries@[current as int]),
            can_go_back: current > 0,
            can_go_forward: current < entries@.len() - 1,
            ..b
        },
        _ => b,
    }
}

impl BrowserState {
    /// Applies an engine report about this tab.
    pub fn apply_report(&mut self, event: ServoEvent)
        requires
            reported_tab(event) is Some,
        ensures
            *final(self) == tab_after_report(*old(self), event),
    {
        match event {
            ServoEvent::TitleChanged(_, title) => {
                self.title = title;
            },
            ServoEvent::LoadStart(_) => {
                self.is_loading = true;
            },
            ServoEvent::LoadEnd(_) => {
                self.is_loading = false;
            },
            ServoEvent::HistoryChanged(_, entries, current) => {
                let mut entries = entries;
                let len = entries.len();
                let url = entries.remove(current);
                self.url = Some(url);
                self.can_go_back = current > 0;
                self.can_go_forward = current < len - 1;
            },
            _ => {},
        }
    }
}

/// Whether one of `browsers` has `id`.
pub open spec fn tracks(browsers: Seq<BrowserState>, id: BrowserId) -> bool {
    exists|i: int| 0 <= i < browsers.len() && browsers[i].id == id
}

impl WindowState {
    /// Applies an engine report to the tab it is about. A report about a tab
    /// that is not tracked, or one that changes no tab, changes nothing.
    /// Returns whether a tab changed.
    pub fn update_tab(&mut self, event: ServoEvent) -> (r: bool)
        requires
            old(self).wf(),
        ensures
            final(self).wf(),
            r == (reported_tab(event) is Some && tracks(old(self).browsers@, reported_tab(event)->Some_0)),
            r ==> exists|i: int|
                0 <= i < old(self).browsers@.len()
                && Some(old(self).browsers@[i].id) == reported_tab(event)
                && final(self).tab_became(old(self), i, tab_after_report(old(self).browsers@[i], event)),
            !r ==> *final(self) == *old(self),
    {
        let id = match &event {
            ServoEvent::TitleChanged(id, _) => *id,
            ServoEvent::LoadStart(id) => *id,
            ServoEvent::LoadEnd(id) => *id,
            ServoEvent::HistoryChanged(id, entries, current) => {
                if *current < entries.len() {
                    *id
                } else {
                    return false;
                }
            },
            _ => {
                return false;
            },
        };
        assert(reported_tab(event) == Some(id));
        match self.find_browser(id) {
            Some(i) => {
                self.browsers[i].apply_report(event);
                assert(self.tab_became(old(self), i as int, tab_after_report(old(self).browsers@[i as int], event)));
                true
            },
            None => false,
        }
    }
}

pub struct AppState {
    pub current_window_index: Option<usize>,
    pub windows: Vec<WindowState>,
    pub dark_theme: bool,
    pub cursor: Cursor,
}

impl AppState {
    /// The selected window, where there is one, exists, and every window
    /// keeps a live tab.
    pub open spec fn wf(&self) -> bool {
        &&& self.current_window_index is Some ==> self.current_window_index->Some_0 < self.windows@.len()
        &&& forall|i: int| 0 <= i < self.windows@.len() ==> #[trigger] self.windows@[i].wf()
    }

    /// Whether a window is selected; once the last one has closed, none is.
    pub open spec fn has_window(&self) -> bool {
        self.current_window_index is Some
    }

    /// `before` with its selected window closed: the first remaining window
    /// is selected, where one remains.
    pub open spec fn window_closed(&self, before: &AppState) -> bool {
        &&& self.windows@ == before.windows@.remove(before.window_index())
        &&& self.current_window_index == if self.windows@.len() == 0 {
            None
        } else {
            Some(0usize)
        }
        &&& self.dark_theme == before.dark_theme
        &&& self.cursor == before.cursor
    }

    /// Closes the selected window.
    pub fn close_window(&mut self)
        requires
            old(self).wf(),
            old(self).has_window(),
        ensures
            final(self).wf(),
            final(self).window_closed(old(self)),
    {
        let w = match self.current_window_index {
            Some(w) => w,
            None => 0,
        };
        self.windows.remove(w);
        if self.windows.len() == 0 {
            self.current_window_index = None;
        } else {
            self.current_window_index = Some(0);
        }
        proof {
            assert forall|i: int| 0 <= i < self.windows@.len() implies #[trigger] self.windows@[i].wf() by {
                if i < w {
                    assert(self.windows@[i] == old(self).windows@[i]);
                } else {
                    assert(self.windows@[i] == old(self).windows@[i + 1]);
                }
            }
        }
    }

    pub open spec fn window_index(&self) -> int {
        self.current_window_index->Some_0 as int
    }

    pub open spec fn current_window(&self) -> WindowState {
        self.windows@[self.window_index()]
    }

    /// `self` holds the same windows, with the same tabs, as `other`, and
    /// agrees with it on everything else.
    pub open spec fn same_as(&self, other: &AppState) -> bool {
        &&& self.windows@ == other.windows@
        &&& self.current_window_index == other.current_window_index
        &&& self.dark_theme == other.dark_theme
        &&& self.cursor == other.cursor
    }

    /// `self` is `before` with the selected window replaced by `w`.
    pub open spec fn window_became(&self, before: &AppState, w: WindowState) -> bool {
        &&& self.windows@ == before.windows@.update(before.window_index(), w)
        &&& self.current_window_index == before.current_window_index
        &&& self.dark_theme == before.dark_theme
        &&& self.cursor == before.cursor
    }

    /// The state at start-up: one window, whose only tab is `first`.
    pub fn new(first: BrowserState) -> (r: AppState)
        ensures
            r.wf(),
            r.windows@.len() == 1,
            r.current_window_index == Some(0usize),
            r.current_window().browsers@ == seq![first],
            r.current_window().current_browser_index == Some(0usize),
            !r.dark_theme,
            r.cursor == Cursor::Default,
    {
        let mut windows: Vec<WindowState> = Vec::new();
        windows.push(WindowState::new(first));
        AppState { current_window_index: Some(0), windows, dark_theme: false, cursor: Cursor::Default }
    }

    pub fn toggle_dark_theme(&mut self)
        ensures
            final(self).dark_theme == !old(self).dark_theme,
            final(self).windows@ == old(self).windows@,
            final(self).current_window_index == old(self).current_window_index,
            final(self).cursor == old(self).cursor,
    {
        self.dark_theme = !self.dark_theme;
    }

    /// Whether the selected window shows its logs.
    pub fn logs_visible(&self) -> (r: bool)
        requires
            self.wf(),
        ensures
            r == (self.has_window() && self.current_window().logs_visible),
    {
        match self.current_window_index {
            Some(w) => self.windows[w].logs_visible,
            None => false,
        }
    }
}

} // verus!
