use servoshell::input::{key_to_command, InputTranslator, NativeEvent, NativeTouchPhase, ShortcutKey};
use servoshell::view::{ElementState, Key, KeyModifiers, KeyState, MouseButton, MouseScrollDelta, TouchPhase, ViewEvent};
use servoshell::window::WindowCommand;

#[test]
fn shortcuts_need_the_command_modifier() {
    assert_eq!(key_to_command(ElementState::Pressed, Some(ShortcutKey::R), true, false, false), Some(WindowCommand::Reload));
    assert_eq!(key_to_command(ElementState::Pressed, Some(ShortcutKey::R), false, false, false), None);
    assert_eq!(key_to_command(ElementState::Released, Some(ShortcutKey::R), true, false, false), None);
    assert_eq!(key_to_command(ElementState::Pressed, None, true, true, true), None);
    assert_eq!(key_to_command(ElementState::Pressed, Some(ShortcutKey::Other), true, false, false), None);
}

#[test]
fn digit_shortcuts_select_tabs() {
    assert_eq!(key_to_command(ElementState::Pressed, Some(ShortcutKey::Key1), true, false, false), Some(WindowCommand::SelectTab(0)));
    assert_eq!(key_to_command(ElementState::Pressed, Some(ShortcutKey::Key9), true, false, false), Some(WindowCommand::SelectTab(8)));
    assert_eq!(key_to_command(ElementState::Pressed, Some(ShortcutKey::Key0), true, false, false), Some(WindowCommand::ZoomToActualSize));
}

#[test]
fn ctrl_tab_cycles_tabs() {
    assert_eq!(key_to_command(ElementState::Pressed, Some(ShortcutKey::Tab), false, true, false), Some(WindowCommand::NextTab));
    assert_eq!(key_to_command(ElementState::Pressed, Some(ShortcutKey::Tab), false, true, true), Some(WindowCommand::PrevTab));
    assert_eq!(key_to_command(ElementState::Pressed, Some(ShortcutKey::Tab), true, false, false), None);
}

fn shift() -> KeyModifiers {
    KeyModifiers { shift: true, ctrl: false, alt: false, logo: false }
}

#[test]
fn printable_press_then_character() {
    let mut t = InputTranslator::new();
    let a = Key(65);
    assert_eq!(
        t.to_view_event(NativeEvent::KeyboardInput { state: ElementState::Pressed, key: Some(a), printable: true, modifiers: shift() }),
        Some(ViewEvent::KeyEvent(None, a, KeyState::Pressed, shift()))
    );
    assert_eq!(t.last_pressed_key, Some(a));
    assert_eq!(
        t.to_view_event(NativeEvent::ReceivedCharacter { ch: 'A', control: false, key: Some(Key(1)) }),
        Some(ViewEvent::KeyEvent(Some('A'), a, KeyState::Pressed, shift()))
    );
    assert_eq!(t.last_pressed_key, None);
}

#[test]
fn character_without_a_pressed_key() {
    let mut t = InputTranslator::new();
    let none = KeyModifiers { shift: false, ctrl: false, alt: false, logo: false };
    assert_eq!(
        t.to_view_event(NativeEvent::ReceivedCharacter { ch: 'x', control: false, key: Some(Key(88)) }),
        Some(ViewEvent::KeyEvent(Some('x'), Key(88), KeyState::Pressed, none))
    );
    assert_eq!(t.to_view_event(NativeEvent::ReceivedCharacter { ch: '\u{8}', control: true, key: Some(Key(8)) }), None);
    assert_eq!(t.to_view_event(NativeEvent::ReceivedCharacter { ch: 'y', control: false, key: None }), None);
}

#[test]
fn pointer_and_wheel() {
    let mut t = InputTranslator::new();
    assert_eq!(t.to_view_event(NativeEvent::MouseMoved(3, 4)), Some(ViewEvent::MouseMoved(3, 4)));
    assert_eq!(t.mouse_coordinate, (3, 4));
    assert_eq!(
        t.to_view_event(NativeEvent::MouseWheel(MouseScrollDelta::PixelDelta(0, 5), NativeTouchPhase::Cancelled)),
        Some(ViewEvent::MouseWheel(MouseScrollDelta::PixelDelta(0, 5), TouchPhase::Ended))
    );
    assert_eq!(
        t.to_view_event(NativeEvent::MouseInput(ElementState::Pressed, MouseButton::Left)),
        Some(ViewEvent::MouseInput(ElementState::Pressed, MouseButton::Left))
    );
    assert_eq!(t.to_view_event(NativeEvent::MouseInput(ElementState::Pressed, MouseButton::Right)), None);
    assert_eq!(t.to_view_event(NativeEvent::Resized), Some(ViewEvent::GeometryDidChange));
    assert_eq!(t.to_view_event(NativeEvent::Other), None);
}

#[test]
fn key_release_is_not_remembered() {
    let mut t = InputTranslator::new();
    let k = Key(70);
    assert_eq!(
        t.to_view_event(NativeEvent::KeyboardInput { state: ElementState::Released, key: Some(k), printable: true, modifiers: shift() }),
        Some(ViewEvent::KeyEvent(None, k, KeyState::Released, shift()))
    );
    assert_eq!(t.last_pressed_key, None);
    assert_eq!(t.key_modifiers, shift());
    assert_eq!(
        t.to_view_event(NativeEvent::KeyboardInput { state: ElementState::Pressed, key: None, printable: false, modifiers: shift() }),
        None
    );
}
