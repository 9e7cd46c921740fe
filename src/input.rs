use vstd::prelude::*;

use crate::view::{ElementState, Key, KeyModifiers, KeyState, MouseButton, MouseScrollDelta, TouchPhase, ViewEvent};
use crate::window::WindowCommand;

verus! {

/// The keys that take part in the window's keyboard shortcuts.
#[derive(Clone, Copy, Debug, PartialEq, Eq, Structural)]
pub enum ShortcutKey {
    R,
    Left,
    Right,
    L,
    Equals,
    Minus,
    Key0,
    T,
    W,
    Tab,
    Key1,
    Key2,
    Key3,
    Key4,
    Key5,
    Key6,
    Key7,
    Key8,
    Key9,
    Other,
}

/// The window command that a key press stands for, where `cmd_or_ctrl` is
/// the platform's command modifier (Cmd or Ctrl).
pub open spec fn shortcut(key: ShortcutKey, cmd_or_ctrl: bool, ctrl: bool, shift: bool) -> Option<WindowCommand> {
    if key == ShortcutKey::Tab {
        if ctrl {
            if shift {
                Some(WindowCommand::PrevTab)
            } else {
                Some(WindowCommand::NextTab)
            }
        } else {
            None
        }
    } else if !cmd_or_ctrl {
        None
    } else {
        match key {
            ShortcutKey::R => Some(WindowCommand::Reload),
            ShortcutKey::Left => Some(WindowCommand::NavigateBack),
            ShortcutKey::Right => Some(WindowCommand::NavigateForward),
            ShortcutKey::L => Some(WindowCommand::OpenLocation),
            ShortcutKey::Equals => Some(WindowCommand::ZoomIn),
            ShortcutKey::Minus => Some(WindowCommand::ZoomOut),
            ShortcutKey::Key0 => Some(WindowCommand::ZoomToActualSize),
            ShortcutKey::T => Some(WindowCommand::NewTab),
            ShortcutKey::W => Some(WindowCommand::CloseTab),
            ShortcutKey::Key1 => Some(WindowCommand::SelectTab(0)),
            ShortcutKey::Key2 => Some(WindowCommand::SelectTab(1)),
            ShortcutKey::Key3 => Some(WindowCommand::SelectTab(2)),
            ShortcutKey::Key4 => Some(WindowCommand::SelectTab(3)),
            ShortcutKey::Key5 => Some(WindowCommand::SelectTab(4)),
            ShortcutKey::Key6 => Some(WindowCommand::SelectTab(5)),
            ShortcutKey::Key7 => Some(WindowCommand::SelectTab(6)),
            ShortcutKey::Key8 => Some(WindowCommand::SelectTab(7)),
            ShortcutKey::Key9 => Some(WindowCommand::SelectTab(8)),
            _ => None,
        }
    }
}

/// The window command for a key going down or up; only presses of a known
/// key are shortcuts.
pub fn key_to_command(
    state: ElementState,
    key: Option<ShortcutKey>,
    cmd_or_ctrl: bool,
    ctrl: bool,
    shift: bool,
) -> (r: Option<WindowCommand>)
    ensures
        r == (match (state, key) {
            (ElementState::Pressed, Some(k)) => shortcut(k, cmd_or_ctrl, ctrl, shift),
            _ => None,
        }),
{
    let key = match (state, key) {
        (ElementState::Pressed, Some(k)) => k,
        _ => {
            return None;
        },
    };
    match key {
        ShortcutKey::Tab => {
            if !ctrl {
                None
            } else if shift {
                Some(WindowCommand::PrevTab)
            } else {
                Some(WindowCommand::NextTab)
            }
        },
        _ => {
            if !cmd_or_ctrl {
                return None;
            }
            match key {
                ShortcutKey::R => Some(WindowCommand::Reload),
                ShortcutKey::Left => Some(WindowCommand::NavigateBack),
                ShortcutKey::Right => Some(WindowCommand::NavigateForward),
                ShortcutKey::L => Some(WindowCommand::OpenLocation),
                ShortcutKey::Equals => Some(WindowCommand::ZoomIn),
                ShortcutKey::Minus => Some(WindowCommand::ZoomOut),
                ShortcutKey::Key0 => Some(WindowCommand::ZoomToActualSize),
                ShortcutKey::T => Some(WindowCommand::NewTab),
                ShortcutKey::W => Some(WindowCommand::CloseTab),
                ShortcutKey::Key1 => Some(WindowCommand::SelectTab(0)),
                ShortcutKey::Key2 => Some(WindowCommand::SelectTab(1)),
                ShortcutKey::Key3 => Some(WindowCommand::SelectTab(2)),
                ShortcutKey::Key4 => Some(WindowCommand::SelectTab(3)),
                ShortcutKey::Key5 => Some(WindowCommand::SelectTab(4)),
                ShortcutKey::Key6 => Some(WindowCommand::SelectTab(5)),
                ShortcutKey::Key7 => Some(WindowCommand::SelectTab(6)),
                ShortcutKey::Key8 => Some(WindowCommand::SelectTab(7)),
                ShortcutKey::Key9 => Some(WindowCommand::SelectTab(8)),
                _ => None,
            }
        },
    }
}

/// A toolkit's touch phase, which knows cancelled gestures.
#[derive(Clone, Copy, Debug, PartialEq, Eq, Structural)]
pub enum NativeTouchPhase {
    Started,
    Moved,
    Ended,
    Cancelled,
}

/// A window-system input event, with what the backend knows of the keys
/// already worked out.
#[derive(Clone, Copy, Debug, PartialEq, Eq, Structural)]
pub enum NativeEvent {
    Resized,
    MouseMoved(i32, i32),
    MouseWheel(MouseScrollDelta, NativeTouchPhase),
    MouseInput(ElementState, MouseButton),
    /// A character was typed; `key` is the key that types it, where there
    /// is one, and `control` says whether it is a control character.
    ReceivedCharacter { ch: char, control: bool, key: Option<Key> },
    /// A key went down or up; `key` is its engine key, where it has one, and
    /// `printable` says whether it types a character.
    KeyboardInput { state: ElementState, key: Option<Key>, printable: bool, modifiers: KeyModifiers },
    Other,
}

/// What a backend remembers between input events: where the pointer is,
/// the modifiers held, and the printable key pressed last, whose character
/// has yet to arrive.
#[derive(Clone, Copy, Debug)]
pub struct InputTranslator {
    pub mouse_coordinate: (i32, i32),
    pub key_modifiers: KeyModifiers,
    pub last_pressed_key: Option<Key>,
}

pub open spec fn touch_phase(p: NativeTouchPhase) -> TouchPhase {
    match p {
        NativeTouchPhase::Started => TouchPhase::Started,
        NativeTouchPhase::Moved => TouchPhase::Moved,
        NativeTouchPhase::Ended => TouchPhase::Ended,
        NativeTouchPhase::Cancelled => TouchPhase::Ended,
    }
}

pub open spec fn key_state(s: ElementState) -> KeyState {
    match s {
        ElementState::Pressed => KeyState::Pressed,
        ElementState::Released => KeyState::Released,
    }
}

impl InputTranslator {
    pub fn new() -> (r: InputTranslator)
        ensures
            r.mouse_coordinate == (0i32, 0i32),
            r.key_modifiers == (KeyModifiers { shift: false, ctrl: false, alt: false, logo: false }),
            r.last_pressed_key is None,
    {
        InputTranslator {
            mouse_coordinate: (0, 0),
            key_modifiers: KeyModifiers { shift: false, ctrl: false, alt: false, logo: false },
            last_pressed_key: None,
        }
    }

    /// The translator and the view event after `e`.
    pub open spec fn after(self, e: NativeEvent) -> (InputTranslator, Option<ViewEvent>) {
        match e {
            NativeEvent::Resized => (self, Some(ViewEvent::GeometryDidChange)),
            NativeEvent::MouseMoved(x, y) => (
                InputTranslator { mouse_coordinate: (x, y), ..self },
                Some(ViewEvent::MouseMoved(x, y)),
            ),
            NativeEvent::MouseWheel(delta, phase) => (self, Some(ViewEvent::MouseWheel(delta, touch_phase(phase)))),
            NativeEvent::MouseInput(state, button) => {
                if button == MouseButton::Left {
                    (self, Some(ViewEvent::MouseInput(state, MouseButton::Left)))
                } else {
                    (self, None)
                }
            },
            NativeEvent::ReceivedCharacter { ch, control, key } => {
                let event = match self.last_pressed_key {
                    Some(k) => Some(ViewEvent::KeyEvent(Some(ch), k, KeyState::Pressed, self.key_modifiers)),
                    None => {
                        if control {
                            None
                        } else {
                            match key {
                                Some(k) => Some(ViewEvent::KeyEvent(Some(ch), k, KeyState::Pressed, self.key_modifiers)),
                                None => None,
                            }
                        }
                    },
                };
                (InputTranslator { last_pressed_key: None, ..self }, event)
            },
            NativeEvent::KeyboardInput { state, key, printable, modifiers } => {
                match key {
                    Some(k) => {
                        let last = if state == ElementState::Pressed && printable {
                            Some(k)
                        } else {
                            self.last_pressed_key
                        };
                        (
                            InputTranslator { key_modifiers: modifiers, last_pressed_key: last, ..self },
                            Some(ViewEvent::KeyEvent(None, k, key_state(state), modifiers)),
                        )
                    },
                    None => (InputTranslator { key_modifiers: modifiers, ..self }, None),
                }
            },
            NativeEvent::Other => (self, None),
        }
    }

    /// Turns a window-system event into the view event it stands for, if
    /// any. A printable key's press is remembered, so that the character it
    /// types arrives as a press of that key.
    pub fn to_view_event(&mut self, e: NativeEvent) -> (r: Option<ViewEvent>)
        ensures
            (*final(self), r) == old(self).after(e),
    {
        match e {
            NativeEvent::Resized => Some(ViewEvent::GeometryDidChange),
            NativeEvent::MouseMoved(x, y) => {
                self.mouse_coordinate = (x, y);
                Some(ViewEvent::MouseMoved(x, y))
            },
            NativeEvent::MouseWheel(delta, phase) => {
                let phase = match phase {
                    NativeTouchPhase::Started => TouchPhase::Started,
                    NativeTouchPhase::Moved => TouchPhase::Moved,
                    NativeTouchPhase::Ended => TouchPhase::Ended,
                    NativeTouchPhase::Cancelled => TouchPhase::Ended,
                };
                Some(ViewEvent::MouseWheel(delta, phase))
            },
            NativeEvent::MouseInput(state, button) => {
                match button {
                    MouseButton::Left => Some(ViewEvent::MouseInput(state, MouseButton::Left)),
                    _ => None,
                }
            },
            NativeEvent::ReceivedCharacter { ch, control, key } => {
                let mods = self.key_modifiers;
                let event = match self.last_pressed_key {
                    Some(last) => Some(ViewEvent::KeyEvent(Some(ch), last, KeyState::Pressed, mods)),
                    None => {
                        if control {
                            None
                        } else {
                            match key {
                                Some(k) => Some(ViewEvent::KeyEvent(Some(ch), k, KeyState::Pressed, mods)),
                                None => None,
                            }
                        }
                    },
                };
                self.last_pressed_key = None;
                event
            },
            NativeEvent::KeyboardInput { state, key, printable, modifiers } => {
                self.key_modifiers = modifiers;
                match key {
                    Some(k) => {
                        let ks = match state {
                            ElementState::Pressed => KeyState::Pressed,
                            ElementState::Released => KeyState::Released,
                        };
                        if ks == KeyState::Pressed && printable {
                            self.last_pressed_key = Some(k);
                        }
                        Some(ViewEvent::KeyEvent(None, k, ks, self.key_modifiers))
                    },
                    None => None,
                }
            },
            NativeEvent::Other => None,
        }
    }
}

} // verus!
