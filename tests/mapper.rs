use toca::{Key, KeyboardMapper, Keycode, MouseButton, MouseEventName, MouseMapper};

#[test]
fn capture_keys_translate_to_injection_keys() {
    assert_eq!(KeyboardMapper::dq_to_enigo(Keycode::A), Some(Key::Layout('a')));
    assert_eq!(KeyboardMapper::dq_to_enigo(Keycode::Key7), Some(Key::Layout('7')));
    assert_eq!(KeyboardMapper::dq_to_enigo(Keycode::F12), Some(Key::F12));
    assert_eq!(KeyboardMapper::dq_to_enigo(Keycode::Enter), Some(Key::Return));
    assert_eq!(KeyboardMapper::dq_to_enigo(Keycode::BackSlash), Some(Key::Layout('\\')));
    assert_eq!(KeyboardMapper::dq_to_enigo(Keycode::Apostrophe), Some(Key::Layout('\'')));
}

#[test]
fn modifiers_and_numpad_coalesce() {
    assert_eq!(KeyboardMapper::dq_to_enigo(Keycode::LShift), Some(Key::Shift));
    assert_eq!(KeyboardMapper::dq_to_enigo(Keycode::RShift), Some(Key::Shift));
    assert_eq!(KeyboardMapper::dq_to_enigo(Keycode::RControl), Some(Key::Control));
    assert_eq!(KeyboardMapper::dq_to_enigo(Keycode::RAlt), Some(Key::Alt));
    assert_eq!(KeyboardMapper::dq_to_enigo(Keycode::Numpad1), Some(Key::Layout('1')));
    assert_eq!(KeyboardMapper::dq_to_enigo(Keycode::NumpadSubtract), Some(Key::Layout('-')));
    assert_eq!(KeyboardMapper::dq_to_enigo(Keycode::NumpadDivide), Some(Key::Layout('/')));
    // the reverse direction picks one representative
    assert_eq!(KeyboardMapper::enigo_to_dq(Key::Shift), Some(Keycode::LShift));
    assert_eq!(KeyboardMapper::enigo_to_dq(Key::Layout('1')), Some(Keycode::Key1));
    assert_eq!(KeyboardMapper::enigo_to_dq(Key::Layout('-')), Some(Keycode::Minus));
}

#[test]
fn unsupported_keys_have_no_image() {
    assert_eq!(KeyboardMapper::dq_to_enigo(Keycode::Insert), None);
    assert_eq!(KeyboardMapper::dq_to_enigo(Keycode::Meta), None);
    assert_eq!(KeyboardMapper::dq_to_enigo(Keycode::NumpadAdd), None);
    assert_eq!(KeyboardMapper::dq_to_enigo(Keycode::NumpadMultiply), None);
    assert_eq!(KeyboardMapper::dq_to_front(Keycode::Insert), None);
    assert_eq!(KeyboardMapper::dq_to_front(Keycode::Meta), None);
    assert_eq!(KeyboardMapper::enigo_to_dq(Key::F13), None);
    assert_eq!(KeyboardMapper::enigo_to_dq(Key::Layout('*')), None);
    assert_eq!(KeyboardMapper::enigo_to_dq(Key::Raw(7)), None);
    assert_eq!(KeyboardMapper::enigo_to_front(Key::Meta), None);
}

#[test]
fn neutral_names() {
    assert_eq!(KeyboardMapper::dq_to_front(Keycode::A), Some("KeyA"));
    assert_eq!(KeyboardMapper::dq_to_front(Keycode::Key0), Some("Digit0"));
    assert_eq!(KeyboardMapper::dq_to_front(Keycode::Dot), Some("Period"));
    assert_eq!(KeyboardMapper::dq_to_front(Keycode::RShift), Some("ShiftRight"));
    assert_eq!(KeyboardMapper::dq_to_front(Keycode::NumpadAdd), Some("NumpadAdd"));
    assert_eq!(KeyboardMapper::front_to_dq("KeyA"), Some(Keycode::A));
    assert_eq!(KeyboardMapper::front_to_dq("Period"), Some(Keycode::Dot));
    assert_eq!(KeyboardMapper::front_to_dq("ShiftRight"), Some(Keycode::RShift));
    assert_eq!(KeyboardMapper::front_to_dq("F10"), Some(Keycode::F10));
    assert_eq!(KeyboardMapper::front_to_dq("F1"), Some(Keycode::F1));
    assert_eq!(KeyboardMapper::front_to_dq("Insert"), None);
    assert_eq!(KeyboardMapper::front_to_dq(""), None);
    assert_eq!(KeyboardMapper::front_to_dq("keya"), None);
    assert_eq!(KeyboardMapper::front_to_dq("KeyA "), None);
}

#[test]
fn names_round_trip() {
    let codes = [
        Keycode::A, Keycode::Z, Keycode::Key0, Keycode::Key9, Keycode::F1, Keycode::F10,
        Keycode::F11, Keycode::Escape, Keycode::LShift, Keycode::RShift, Keycode::LControl,
        Keycode::RAlt, Keycode::Space, Keycode::Up, Keycode::Backspace, Keycode::Grave,
        Keycode::BackSlash, Keycode::Numpad5, Keycode::NumpadMultiply, Keycode::Slash,
    ];
    for code in codes {
        let name = KeyboardMapper::dq_to_front(code).unwrap();
        assert_eq!(KeyboardMapper::front_to_dq(name), Some(code));
    }
}

#[test]
fn injection_keys_and_names() {
    assert_eq!(KeyboardMapper::enigo_to_front(Key::Shift), Some("ShiftLeft"));
    assert_eq!(KeyboardMapper::enigo_to_front(Key::Return), Some("Enter"));
    assert_eq!(KeyboardMapper::enigo_to_front(Key::Layout('0')), Some("Digit0"));
    assert_eq!(KeyboardMapper::enigo_to_front(Key::Layout('`')), Some("Backquote"));
    assert_eq!(KeyboardMapper::front_to_enigo("Numpad0"), Some(Key::Layout('0')));
    assert_eq!(KeyboardMapper::front_to_enigo("ShiftRight"), Some(Key::Shift));
    assert_eq!(KeyboardMapper::front_to_enigo("NumpadSubtract"), Some(Key::Layout('-')));
    assert_eq!(KeyboardMapper::front_to_enigo("KeyQ"), Some(Key::Layout('q')));
    assert_eq!(KeyboardMapper::front_to_enigo("NumpadAdd"), None);
    assert_eq!(KeyboardMapper::front_to_enigo("Nothing"), None);
}

#[test]
fn mouse_event_kinds_give_button_and_direction() {
    assert_eq!(MouseMapper::parse_ev_name(MouseEventName::LeftDown), (MouseButton::Left, true));
    assert_eq!(MouseMapper::parse_ev_name(MouseEventName::LeftUp), (MouseButton::Left, false));
    assert_eq!(MouseMapper::parse_ev_name(MouseEventName::RightDown), (MouseButton::Right, true));
    assert_eq!(MouseMapper::parse_ev_name(MouseEventName::RightUp), (MouseButton::Right, false));
    assert_eq!(MouseMapper::parse_ev_name(MouseEventName::MidDown), (MouseButton::Middle, true));
    assert_eq!(MouseMapper::parse_ev_name(MouseEventName::MidUp), (MouseButton::Middle, false));
}

#[test]
fn mouse_buttons_translate() {
    assert_eq!(MouseMapper::dq_to_enigo(1), Some(MouseButton::Left));
    assert_eq!(MouseMapper::dq_to_enigo(2), Some(MouseButton::Right));
    assert_eq!(MouseMapper::dq_to_enigo(3), Some(MouseButton::Middle));
    assert_eq!(MouseMapper::dq_to_enigo(4), None);
    assert_eq!(MouseMapper::dq_to_enigo(0), None);
    assert_eq!(MouseMapper::enigo_to_dq(MouseButton::Middle), Some(3));
    assert_eq!(MouseMapper::enigo_to_dq(MouseButton::ScrollUp), None);
    assert_eq!(MouseMapper::dq_to_front(1), Some(0));
    assert_eq!(MouseMapper::dq_to_front(2), Some(2));
    assert_eq!(MouseMapper::dq_to_front(3), Some(1));
    assert_eq!(MouseMapper::dq_to_front(5), None);
    assert_eq!(MouseMapper::front_to_dq(0), Some(1));
    assert_eq!(MouseMapper::front_to_dq(1), Some(3));
    assert_eq!(MouseMapper::front_to_dq(2), Some(2));
    assert_eq!(MouseMapper::front_to_dq(3), None);
    assert_eq!(MouseMapper::enigo_to_front(MouseButton::Middle), Some(1));
    assert_eq!(MouseMapper::enigo_to_front(MouseButton::Right), Some(2));
    assert_eq!(MouseMapper::enigo_to_front(MouseButton::Back), None);
    assert_eq!(MouseMapper::front_to_enigo(0), Some(MouseButton::Left));
    assert_eq!(MouseMapper::front_to_enigo(1), Some(MouseButton::Middle));
    assert_eq!(MouseMapper::front_to_enigo(9), None);
}
