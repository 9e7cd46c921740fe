use vstd::prelude::*;

use crate::state::AppState;

verus! {

#[derive(Clone, Debug, PartialEq, Eq)]
pub enum WindowCommand {
    Stop,
    Reload,
    NavigateBack,
    NavigateForward,
    OpenLocation,
    OpenInDefaultBrowser,
    ZoomIn,
    ZoomOut,
    ZoomToActualSize,
    ToggleSidebar,
    ShowOptions,
    Load(String),
    ToggleOptionShowLogs,
    NewTab,
    CloseTab,
    PrevTab,
    NextTab,
    SelectTab(usize),
    ToggleOptionFragmentBorders,
    ToggleOptionParallelDisplayListBuidling,
    ToggleOptionShowParallelLayout,
    ToggleOptionConvertMouseToTouch,
    ToggleOptionTileBorders,
    ToggleOptionWRProfiler,
    ToggleOptionWRTextureCacheDebug,
    ToggleOptionWRTargetDebug,
}

#[derive(Clone, Debug, PartialEq, Eq)]
pub enum WindowEvent {
    EventLoopAwaken,
    GeometryDidChange,
    DidEnterFullScreen,
    DidExitFullScreen,
    WillClose,
    DoCommand(WindowCommand),
}

/// What a windowing backend offers for one top-level window.
///
/// Its spec functions record what the shell asked of it. An implementation
/// checked by Verus defines them; the defaults only let other
/// implementations compile, and the generic code here never relies on them.
pub trait WindowSurface {
    /// How many times the surface was asked to render.
    closed spec fn renders(&self) -> nat {
        0
    }

    /// The batches of log lines handed to the log view, in order.
    closed spec fn appended(&self) -> Seq<Seq<String>> {
        Seq::empty()
    }

    /// The URLs handed to the system's default browser, in order.
    closed spec fn shown_externally(&self) -> Seq<Seq<char>> {
        Seq::empty()
    }

    /// The events received since the last call; the backend forgets them.
    fn get_events(&mut self) -> (r: Vec<WindowEvent>)
        ensures
            final(self).renders() == old(self).renders(),
            final(self).appended() == old(self).appended(),
            final(self).shown_externally() == old(self).shown_externally(),
    ;

    /// Shows the window chrome of `state`: title, tabs, status.
    fn render(&mut self, state: &AppState)
        ensures
            final(self).renders() == old(self).renders() + 1,
            final(self).appended() == old(self).appended(),
            final(self).shown_externally() == old(self).shown_externally(),
    ;

    /// Shows `url` in the system's default browser, as far as that works.
    fn open_in_default_browser(&mut self, url: &str)
        ensures
            final(self).renders() == old(self).renders(),
            final(self).appended() == old(self).appended(),
            final(self).shown_externally() == old(self).shown_externally().push(url@),
    ;

    /// Adds `logs` to the window's log view.
    fn append_logs(&mut self, logs: &Vec<String>)
        ensures
            final(self).renders() == old(self).renders(),
            final(self).appended() == old(self).appended().push(logs@),
            final(self).shown_externally() == old(self).shown_externally(),
    ;
}

} // verus!
