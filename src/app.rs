use vstd::prelude::*;

use crate::state::AppState;

verus! {

#[derive(Clone, Copy, Debug, PartialEq, Eq, Structural)]
pub enum AppCommand {
    ClearHistory,
    ToggleOptionDarkTheme,
}

#[derive(Clone, Copy, Debug, PartialEq, Eq, Structural)]
pub enum AppEvent {
    DidFinishLaunching,
    WillTerminate,
    DidChangeScreenParameters,
    DoCommand(AppCommand),
}

/// What a windowing backend offers at the level of the application.
///
/// Its spec functions record what the shell asked of it. An implementation
/// checked by Verus defines them; the defaults only let other
/// implementations compile, and the generic code here never relies on them.
pub trait AppSurface {
    /// How many times the surface was asked to render.
    closed spec fn renders(&self) -> nat {
        0
    }

    /// The events received since the last call; the backend forgets them.
    fn get_events(&mut self) -> (r: Vec<AppEvent>)
        ensures
            final(self).renders() == old(self).renders(),
    ;

    /// Shows the application-wide part of `state` (cursor, theme).
    fn render(&mut self, state: &AppState)
        ensures
            final(self).renders() == old(self).renders() + 1,
    ;
}

} // verus!
