use vstd::prelude::*;

use crate::geometry::DrawableGeometry;

verus! {

#[derive(Clone, Copy, Debug, PartialEq, Eq, Structural)]
pub enum ElementState {
    Pressed,
    Released,
}

#[derive(Clone, Copy, Debug, PartialEq, Eq, Structural)]
pub enum MouseButton {
    Left,
    Right,
    Middle,
}

#[derive(Clone, Copy, Debug, PartialEq, Eq, Structural)]
pub enum TouchPhase {
    Started,
    Moved,
    Ended,
}

/// How far a wheel or touchpad scrolled, in lines or in whole pixels.
#[derive(Clone, Copy, Debug, PartialEq, Eq, Structural)]
pub enum MouseScrollDelta {
    LineDelta(i32, i32),
    PixelDelta(i32, i32),
}

#[derive(Clone, Copy, Debug, PartialEq, Eq, Structural)]
pub enum KeyState {
    Pressed,
    Released,
}

/// A key as the engine numbers it.
#[derive(Clone, Copy, Debug, PartialEq, Eq, Structural)]
pub struct Key(pub u32);

#[derive(Clone, Copy, Debug, PartialEq, Eq, Structural)]
pub struct KeyModifiers {
    pub shift: bool,
    pub ctrl: bool,
    pub alt: bool,
    pub logo: bool,
}

/// Input that the content view reports, in the shell's own terms.
#[derive(Clone, Copy, Debug, PartialEq, Eq, Structural)]
pub enum ViewEvent {
    GeometryDidChange,
    MouseWheel(MouseScrollDelta, TouchPhase),
    MouseMoved(i32, i32),
    MouseInput(ElementState, MouseButton),
    KeyEvent(Option<char>, Key, KeyState, KeyModifiers),
}

/// What a windowing backend offers for the view that shows the page.
///
/// Its spec functions record what the shell asked of it. An implementation
/// checked by Verus defines them; the defaults only let other
/// implementations compile, and the generic code here never relies on them.
pub trait ViewSurface {
    /// The input received since the last call; the backend forgets it.
    fn get_events(&mut self) -> Vec<ViewEvent>;

    /// Where the view is drawn now.
    closed spec fn geometry(&self) -> DrawableGeometry {
        DrawableGeometry { view_size: (0, 0), margins: (0, 0, 0, 0), position: (0, 0), hidpi_factor: 1 }
    }

    fn get_geometry(&self) -> (r: DrawableGeometry)
        ensures
            r == self.geometry(),
    ;

    /// Brings the drawing surface in line with the current geometry.
    fn update_drawable(&mut self);

    fn enter_fullscreen(&mut self);

    fn exit_fullscreen(&mut self);
}

} // verus!
