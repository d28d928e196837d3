use vstd::prelude::*;
use crate::keys::{ButtonCode, Key, Keycode, MouseButton};
use crate::record::MouseEventName;

verus! {

// Three code spaces meet here: the capture space (`Keycode`), the injection
// space (`Key`) and the neutral space of names that recordings are stored in.
// Four tables are given; the two between the injection space and the neutral
// space go through the capture space.

/// The neutral name of a capture-space key, if it has one.
pub open spec fn name_of(code: Keycode) -> Option<Seq<char>> {
    match code {
        Keycode::F1 => Some("F1"@),
        Keycode::F2 => Some("F2"@),
        Keycode::F3 => Some("F3"@),
        Keycode::F4 => Some("F4"@),
        Keycode::F5 => Some("F5"@),
        Keycode::F6 => Some("F6"@),
        Keycode::F7 => Some("F7"@),
        Keycode::F8 => Some("F8"@),
        Keycode::F9 => Some("F9"@),
        Keycode::F10 => Some("F10"@),
        Keycode::F11 => Some("F11"@),
        Keycode::F12 => Some("F12"@),
        Keycode::Key0 => Some("Digit0"@),
        Keycode::Key1 => Some("Digit1"@),
        Keycode::Key2 => Some("Digit2"@),
        Keycode::Key3 => Some("Digit3"@),
        Keycode::Key4 => Some("Digit4"@),
        Keycode::Key5 => Some("Digit5"@),
        Keycode::Key6 => Some("Digit6"@),
        Keycode::Key7 => Some("Digit7"@),
        Keycode::Key8 => Some("Digit8"@),
        Keycode::Key9 => Some("Digit9"@),
        Keycode::A => Some("KeyA"@),
        Keycode::B => Some("KeyB"@),
        Keycode::C => Some("KeyC"@),
        Keycode::D => Some("KeyD"@),
        Keycode::E => Some("KeyE"@),
        Keycode::F => Some("KeyF"@),
        Keycode::G => Some("KeyG"@),
        Keycode::H => Some("KeyH"@),
        Keycode::I => Some("KeyI"@),
        Keycode::J => Some("KeyJ"@),
        Keycode::K => Some("KeyK"@),
        Keycode::L => Some("KeyL"@),
        Keycode::M => Some("KeyM"@),
        Keycode::N => Some("KeyN"@),
        Keycode::O => Some("KeyO"@),
        Keycode::P => Some("KeyP"@),
        Keycode::Q => Some("KeyQ"@),
        Keycode::R => Some("KeyR"@),
        Keycode::S => Some("KeyS"@),
        Keycode::T => Some("KeyT"@),
        Keycode::U => Some("KeyU"@),
        Keycode::V => Some("KeyV"@),
        Keycode::W => Some("KeyW"@),
        Keycode::X => Some("KeyX"@),
        Keycode::Y => Some("KeyY"@),
        Keycode::Z => Some("KeyZ"@),
        Keycode::Escape => Some("Escape"@),
        Keycode::Tab => Some("Tab"@),
        Keycode::CapsLock => Some("CapsLock"@),
        Keycode::LShift => Some("ShiftLeft"@),
        Keycode::RShift => Some("ShiftRight"@),
        Keycode::LControl => Some("ControlLeft"@),
        Keycode::RControl => Some("ControlRight"@),
        Keycode::LAlt => Some("AltLeft"@),
        Keycode::RAlt => Some("AltRight"@),
        Keycode::Space => Some("Space"@),
        Keycode::Up => Some("ArrowUp"@),
        Keycode::Right => Some("ArrowRight"@),
        Keycode::Down => Some("ArrowDown"@),
        Keycode::Left => Some("ArrowLeft"@),
        Keycode::Enter => Some("Enter"@),
        Keycode::Backspace => Some("Backspace"@),
        Keycode::Delete => Some("Delete"@),
        Keycode::Home => Some("Home"@),
        Keycode::PageUp => Some("PageUp"@),
        Keycode::PageDown => Some("PageDown"@),
        Keycode::End => Some("End"@),
        Keycode::Grave => Some("Backquote"@),
        Keycode::Minus => Some("Minus"@),
        Keycode::Equal => Some("Equal"@),
        Keycode::LeftBracket => Some("BracketLeft"@),
        Keycode::RightBracket => Some("BracketRight"@),
        Keycode::Comma => Some("Comma"@),
        Keycode::Dot => Some("Period"@),
        Keycode::Semicolon => Some("Semicolon"@),
        Keycode::Apostrophe => Some("Quote"@),
        Keycode::Slash => Some("Slash"@),
        Keycode::BackSlash => Some("BackSlash"@),
        Keycode::Numpad0 => Some("Numpad0"@),
        Keycode::Numpad1 => Some("Numpad1"@),
        Keycode::Numpad2 => Some("Numpad2"@),
        Keycode::Numpad3 => Some("Numpad3"@),
        Keycode::Numpad4 => Some("Numpad4"@),
        Keycode::Numpad5 => Some("Numpad5"@),
        Keycode::Numpad6 => Some("Numpad6"@),
        Keycode::Numpad7 => Some("Numpad7"@),
        Keycode::Numpad8 => Some("Numpad8"@),
        Keycode::Numpad9 => Some("Numpad9"@),
        Keycode::NumpadAdd => Some("NumpadAdd"@),
        Keycode::NumpadSubtract => Some("NumpadSubtract"@),
        Keycode::NumpadMultiply => Some("NumpadMultiply"@),
        Keycode::NumpadDivide => Some("NumpadDivide"@),
        _ => None,
    }
}

/// The capture-space key that a neutral name stands for, if any.
pub open spec fn code_named(name: Seq<char>) -> Option<Keycode> {
    if name == "F1"@ {
        Some(Keycode::F1)
    } else if name == "F2"@ {
        Some(Keycode::F2)
    } else if name == "F3"@ {
        Some(Keycode::F3)
    } else if name == "F4"@ {
        Some(Keycode::F4)
    } else if name == "F5"@ {
        Some(Keycode::F5)
    } else if name == "F6"@ {
        Some(Keycode::F6)
    } else if name == "F7"@ {
        Some(Keycode::F7)
    } else if name == "F8"@ {
        Some(Keycode::F8)
    } else if name == "F9"@ {
        Some(Keycode::F9)
    } else if name == "F10"@ {
        Some(Keycode::F10)
    } else if name == "F11"@ {
        Some(Keycode::F11)
    } else if name == "F12"@ {
        Some(Keycode::F12)
    } else if name == "Digit0"@ {
        Some(Keycode::Key0)
    } else if name == "Digit1"@ {
        Some(Keycode::Key1)
    } else if name == "Digit2"@ {
        Some(Keycode::Key2)
    } else if name == "Digit3"@ {
        Some(Keycode::Key3)
    } else if name == "Digit4"@ {
        Some(Keycode::Key4)
    } else if name == "Digit5"@ {
        Some(Keycode::Key5)
    } else if name == "Digit6"@ {
        Some(Keycode::Key6)
    } else if name == "Digit7"@ {
        Some(Keycode::Key7)
    } else if name == "Digit8"@ {
        Some(Keycode::Key8)
    } else if name == "Digit9"@ {
        Some(Keycode::Key9)
    } else if name == "KeyA"@ {
        Some(Keycode::A)
    } else if name == "KeyB"@ {
        Some(Keycode::B)
    } else if name == "KeyC"@ {
        Some(Keycode::C)
    } else if name == "KeyD"@ {
        Some(Keycode::D)
    } else if name == "KeyE"@ {
        Some(Keycode::E)
    } else if name == "KeyF"@ {
        Some(Keycode::F)
    } else if name == "KeyG"@ {
        Some(Keycode::G)
    } else if name == "KeyH"@ {
        Some(Keycode::H)
    } else if name == "KeyI"@ {
        Some(Keycode::I)
    } else if name == "KeyJ"@ {
        Some(Keycode::J)
    } else if name == "KeyK"@ {
        Some(Keycode::K)
    } else if name == "KeyL"@ {
        Some(Keycode::L)
    } else if name == "KeyM"@ {
        Some(Keycode::M)
    } else if name == "KeyN"@ {
        Some(Keycode::N)
    } else if name == "KeyO"@ {
        Some(Keycode::O)
    } else if name == "KeyP"@ {
        Some(Keycode::P)
    } else if name == "KeyQ"@ {
        Some(Keycode::Q)
    } else if name == "KeyR"@ {
        Some(Keycode::R)
    } else if name == "KeyS"@ {
        Some(Keycode::S)
    } else if name == "KeyT"@ {
        Some(Keycode::T)
    } else if name == "KeyU"@ {
        Some(Keycode::U)
    } else if name == "KeyV"@ {
        Some(Keycode::V)
    } else if name == "KeyW"@ {
        Some(Keycode::W)
    } else if name == "KeyX"@ {
        Some(Keycode::X)
    } else if name == "KeyY"@ {
        Some(Keycode::Y)
    } else if name == "KeyZ"@ {
        Some(Keycode::Z)
    } else if name == "Escape"@ {
        Some(Keycode::Escape)
    } else if name == "Tab"@ {
        Some(Keycode::Tab)
    } else if name == "CapsLock"@ {
        Some(Keycode::CapsLock)
    } else if name == "ShiftLeft"@ {
        Some(Keycode::LShift)
    } else if name == "ShiftRight"@ {
        Some(Keycode::RShift)
    } else if name == "ControlLeft"@ {
        Some(Keycode::LControl)
    } else if name == "ControlRight"@ {
        Some(Keycode::RControl)
    } else if name == "AltLeft"@ {
        Some(Keycode::LAlt)
    } else if name == "AltRight"@ {
        Some(Keycode::RAlt)
    } else if name == "Space"@ {
        Some(Keycode::Space)
    } else if name == "ArrowUp"@ {
        Some(Keycode::Up)
    } else if name == "ArrowRight"@ {
        Some(Keycode::Right)
    } else if name == "ArrowDown"@ {
        Some(Keycode::Down)
    } else if name == "ArrowLeft"@ {
        Some(Keycode::Left)
    } else if name == "Enter"@ {
        Some(Keycode::Enter)
    } else if name == "Backspace"@ {
        Some(Keycode::Backspace)
    } else if name == "Delete"@ {
        Some(Keycode::Delete)
    } else if name == "Home"@ {
        Some(Keycode::Home)
    } else if name == "PageUp"@ {
        Some(Keycode::PageUp)
    } else if name == "PageDown"@ {
        Some(Keycode::PageDown)
    } else if name == "End"@ {
        Some(Keycode::End)
    } else if name == "Backquote"@ {
        Some(Keycode::Grave)
    } else if name == "Minus"@ {
        Some(Keycode::Minus)
    } else if name == "Equal"@ {
        Some(Keycode::Equal)
    } else if name == "BracketLeft"@ {
        Some(Keycode::LeftBracket)
    } else if name == "BracketRight"@ {
        Some(Keycode::RightBracket)
    } else if name == "Comma"@ {
        Some(Keycode::Comma)
    } else if name == "Period"@ {
        Some(Keycode::Dot)
    } else if name == "Semicolon"@ {
        Some(Keycode::Semicolon)
    } else if name == "Quote"@ {
        Some(Keycode::Apostrophe)
    } else if name == "Slash"@ {
        Some(Keycode::Slash)
    } else if name == "BackSlash"@ {
        Some(Keycode::BackSlash)
    } else if name == "Numpad0"@ {
        Some(Keycode::Numpad0)
    } else if name == "Numpad1"@ {
        Some(Keycode::Numpad1)
    } else if name == "Numpad2"@ {
        Some(Keycode::Numpad2)
    } else if name == "Numpad3"@ {
        Some(Keycode::Numpad3)
    } else if name == "Numpad4"@ {
        Some(Keycode::Numpad4)
    } else if name == "Numpad5"@ {
        Some(Keycode::Numpad5)
    } else if name == "Numpad6"@ {
        Some(Keycode::Numpad6)
    } else if name == "Numpad7"@ {
        Some(Keycode::Numpad7)
    } else if name == "Numpad8"@ {
        Some(Keycode::Numpad8)
    } else if name == "Numpad9"@ {
        Some(Keycode::Numpad9)
    } else if name == "NumpadAdd"@ {
        Some(Keycode::NumpadAdd)
    } else if name == "NumpadSubtract"@ {
        Some(Keycode::NumpadSubtract)
    } else if name == "NumpadMultiply"@ {
        Some(Keycode::NumpadMultiply)
    } else if name == "NumpadDivide"@ {
        Some(Keycode::NumpadDivide)
    } else {
        None
    }
}

/// The injection-space key that a capture-space key is replayed as, if any.
/// Left and right modifiers share one injection key; numpad digits type digits.
pub open spec fn injection_of(code: Keycode) -> Option<Key> {
    match code {
        Keycode::F1 => Some(Key::F1),
        Keycode::F2 => Some(Key::F2),
        Keycode::F3 => Some(Key::F3),
        Keycode::F4 => Some(Key::F4),
        Keycode::F5 => Some(Key::F5),
        Keycode::F6 => Some(Key::F6),
        Keycode::F7 => Some(Key::F7),
        Keycode::F8 => Some(Key::F8),
        Keycode::F9 => Some(Key::F9),
        Keycode::F10 => Some(Key::F10),
        Keycode::F11 => Some(Key::F11),
        Keycode::F12 => Some(Key::F12),
        Keycode::Key0 => Some(Key::Layout('0')),
        Keycode::Key1 => Some(Key::Layout('1')),
        Keycode::Key2 => Some(Key::Layout('2')),
        Keycode::Key3 => Some(Key::Layout('3')),
        Keycode::Key4 => Some(Key::Layout('4')),
        Keycode::Key5 => Some(Key::Layout('5')),
        Keycode::Key6 => Some(Key::Layout('6')),
        Keycode::Key7 => Some(Key::Layout('7')),
        Keycode::Key8 => Some(Key::Layout('8')),
        Keycode::Key9 => Some(Key::Layout('9')),
        Keycode::A => Some(Key::Layout('a')),
        Keycode::B => Some(Key::Layout('b')),
        Keycode::C => Some(Key::Layout('c')),
        Keycode::D => Some(Key::Layout('d')),
        Keycode::E => Some(Key::Layout('e')),
        Keycode::F => Some(Key::Layout('f')),
        Keycode::G => Some(Key::Layout('g')),
        Keycode::H => Some(Key::Layout('h')),
        Keycode::I => Some(Key::Layout('i')),
        Keycode::J => Some(Key::Layout('j')),
        Keycode::K => Some(Key::Layout('k')),
        Keycode::L => Some(Key::Layout('l')),
        Keycode::M => Some(Key::Layout('m')),
        Keycode::N => Some(Key::Layout('n')),
        Keycode::O => Some(Key::Layout('o')),
        Keycode::P => Some(Key::Layout('p')),
        Keycode::Q => Some(Key::Layout('q')),
        Keycode::R => Some(Key::Layout('r')),
        Keycode::S => Some(Key::Layout('s')),
        Keycode::T => Some(Key::Layout('t')),
        Keycode::U => Some(Key::Layout('u')),
        Keycode::V => Some(Key::Layout('v')),
        Keycode::W => Some(Key::Layout('w')),
        Keycode::X => Some(Key::Layout('x')),
        Keycode::Y => Some(Key::Layout('y')),
        Keycode::Z => Some(Key::Layout('z')),
        Keycode::Escape => Some(Key::Escape),
        Keycode::Tab => Some(Key::Tab),
        Keycode::CapsLock => Some(Key::CapsLock),
        Keycode::LShift | Keycode::RShift => Some(Key::Shift),
        Keycode::LControl | Keycode::RControl => Some(Key::Control),
        Keycode::LAlt | Keycode::RAlt => Some(Key::Alt),
        Keycode::Space => Some(Key::Space),
        Keycode::Up => Some(Key::UpArrow),
        Keycode::Right => Some(Key::RightArrow),
        Keycode::Down => Some(Key::DownArrow),
        Keycode::Left => Some(Key::LeftArrow),
        Keycode::Enter => Some(Key::Return),
        Keycode::Backspace => Some(Key::Backspace),
        Keycode::Delete => Some(Key::Delete),
        Keycode::Home => Some(Key::Home),
        Keycode::PageUp => Some(Key::PageUp),
        Keycode::PageDown => Some(Key::PageDown),
        Keycode::End => Some(Key::End),
        Keycode::Grave => Some(Key::Layout('`')),
        Keycode::Minus | Keycode::NumpadSubtract => Some(Key::Layout('-')),
        Keycode::Equal => Some(Key::Layout('=')),
        Keycode::LeftBracket => Some(Key::Layout('[')),
        Keycode::RightBracket => Some(Key::Layout(']')),
        Keycode::Comma => Some(Key::Layout(',')),
        Keycode::Dot => Some(Key::Layout('.')),
        Keycode::Semicolon => Some(Key::Layout(';')),
        Keycode::Apostrophe => Some(Key::Layout('\'')),
        Keycode::Slash | Keycode::NumpadDivide => Some(Key::Layout('/')),
        Keycode::BackSlash => Some(Key::Layout('\\')),
        Keycode::Numpad0 => Some(Key::Layout('0')),
        Keycode::Numpad1 => Some(Key::Layout('1')),
        Keycode::Numpad2 => Some(Key::Layout('2')),
        Keycode::Numpad3 => Some(Key::Layout('3')),
        Keycode::Numpad4 => Some(Key::Layout('4')),
        Keycode::Numpad5 => Some(Key::Layout('5')),
        Keycode::Numpad6 => Some(Key::Layout('6')),
        Keycode::Numpad7 => Some(Key::Layout('7')),
        Keycode::Numpad8 => Some(Key::Layout('8')),
        Keycode::Numpad9 => Some(Key::Layout('9')),
        _ => None,
    }
}

/// The capture-space key that an injection-space key is recorded as, if any.
/// Where several capture keys share an injection key, this picks one of them.
pub open spec fn capture_of(key: Key) -> Option<Keycode> {
    match key {
        Key::F1 => Some(Keycode::F1),
        Key::F2 => Some(Keycode::F2),
        Key::F3 => Some(Keycode::F3),
        Key::F4 => Some(Keycode::F4),
        Key::F5 => Some(Keycode::F5),
        Key::F6 => Some(Keycode::F6),
        Key::F7 => Some(Keycode::F7),
        Key::F8 => Some(Keycode::F8),
        Key::F9 => Some(Keycode::F9),
        Key::F10 => Some(Keycode::F10),
        Key::F11 => Some(Keycode::F11),
        Key::F12 => Some(Keycode::F12),
        Key::Layout('0') => Some(Keycode::Key0),
        Key::Layout('1') => Some(Keycode::Key1),
        Key::Layout('2') => Some(Keycode::Key2),
        Key::Layout('3') => Some(Keycode::Key3),
        Key::Layout('4') => Some(Keycode::Key4),
        Key::Layout('5') => Some(Keycode::Key5),
        Key::Layout('6') => Some(Keycode::Key6),
        Key::Layout('7') => Some(Keycode::Key7),
        Key::Layout('8') => Some(Keycode::Key8),
        Key::Layout('9') => Some(Keycode::Key9),
        Key::Layout('a') => Some(Keycode::A),
        Key::Layout('b') => Some(Keycode::B),
        Key::Layout('c') => Some(Keycode::C),
        Key::Layout('d') => Some(Keycode::D),
        Key::Layout('e') => Some(Keycode::E),
        Key::Layout('f') => Some(Keycode::F),
        Key::Layout('g') => Some(Keycode::G),
        Key::Layout('h') => Some(Keycode::H),
        Key::Layout('i') => Some(Keycode::I),
        Key::Layout('j') => Some(Keycode::J),
        Key::Layout('k') => Some(Keycode::K),
        Key::Layout('l') => Some(Keycode::L),
        Key::Layout('m') => Some(Keycode::M),
        Key::Layout('n') => Some(Keycode::N),
        Key::Layout('o') => Some(Keycode::O),
        Key::Layout('p') => Some(Keycode::P),
        Key::Layout('q') => Some(Keycode::Q),
        Key::Layout('r') => Some(Keycode::R),
        Key::Layout('s') => Some(Keycode::S),
        Key::Layout('t') => Some(Keycode::T),
        Key::Layout('u') => Some(Keycode::U),
        Key::Layout('v') => Some(Keycode::V),
        Key::Layout('w') => Some(Keycode::W),
        Key::Layout('x') => Some(Keycode::X),
        Key::Layout('y') => Some(Keycode::Y),
        Key::Layout('z') => Some(Keycode::Z),
        Key::Escape => Some(Keycode::Escape),
        Key::Tab => Some(Keycode::Tab),
        Key::CapsLock => Some(Keycode::CapsLock),
        Key::Shift => Some(Keycode::LShift),
        Key::Control => Some(Keycode::LControl),
        Key::Alt => Some(Keycode::LAlt),
        Key::Space => Some(Keycode::Space),
        Key::UpArrow => Some(Keycode::Up),
        Key::RightArrow => Some(Keycode::Right),
        Key::DownArrow => Some(Keycode::Down),
        Key::LeftArrow => Some(Keycode::Left),
        Key::Return => Some(Keycode::Enter),
        Key::Backspace => Some(Keycode::Backspace),
        Key::Delete => Some(Keycode::Delete),
        Key::Home => Some(Keycode::Home),
        Key::PageUp => Some(Keycode::PageUp),
        Key::PageDown => Some(Keycode::PageDown),
        Key::End => Some(Keycode::End),
        Key::Layout('`') => Some(Keycode::Grave),
        Key::Layout('-') => Some(Keycode::Minus),
        Key::Layout('=') => Some(Keycode::Equal),
        Key::Layout('[') => Some(Keycode::LeftBracket),
        Key::Layout(']') => Some(Keycode::RightBracket),
        Key::Layout(',') => Some(Keycode::Comma),
        Key::Layout('.') => Some(Keycode::Dot),
        Key::Layout(';') => Some(Keycode::Semicolon),
        Key::Layout('\'') => Some(Keycode::Apostrophe),
        Key::Layout('/') => Some(Keycode::Slash),
        Key::Layout('\\') => Some(Keycode::BackSlash),
        _ => None,
    }
}

/// The neutral name of an injection-space key: that of the capture key it is
/// recorded as.
pub open spec fn name_of_key(key: Key) -> Option<Seq<char>> {
    match capture_of(key) {
        Some(code) => name_of(code),
        None => None,
    }
}

/// The injection-space key that a neutral name is replayed as.
pub open spec fn key_named(name: Seq<char>) -> Option<Key> {
    match code_named(name) {
        Some(code) => injection_of(code),
        None => None,
    }
}

/// The view of an optional string.
pub open spec fn opt_str_view(s: Option<&str>) -> Option<Seq<char>> {
    match s {
        Some(t) => Some(t@),
        None => None,
    }
}

/// The letters of every neutral name.
proof fn lemma_names_spelled()
    ensures
        "F1"@.len() == 2 && "F1"@[0] == 'F' && "F1"@[1] == '1',
        "F2"@.len() == 2 && "F2"@[0] == 'F' && "F2"@[1] == '2',
        "F3"@.len() == 2 && "F3"@[0] == 'F' && "F3"@[1] == '3',
        "F4"@.len() == 2 && "F4"@[0] == 'F' && "F4"@[1] == '4',
        "F5"@.len() == 2 && "F5"@[0] == 'F' && "F5"@[1] == '5',
        "F6"@.len() == 2 && "F6"@[0] == 'F' && "F6"@[1] == '6',
        "F7"@.len() == 2 && "F7"@[0] == 'F' && "F7"@[1] == '7',
        "F8"@.len() == 2 && "F8"@[0] == 'F' && "F8"@[1] == '8',
        "F9"@.len() == 2 && "F9"@[0] == 'F' && "F9"@[1] == '9',
        "F10"@.len() == 3 && "F10"@[0] == 'F' && "F10"@[1] == '1' && "F10"@[2] == '0',
        "F11"@.len() == 3 && "F11"@[0] == 'F' && "F11"@[1] == '1' && "F11"@[2] == '1',
        "F12"@.len() == 3 && "F12"@[0] == 'F' && "F12"@[1] == '1' && "F12"@[2] == '2',
        "Digit0"@.len() == 6 && "Digit0"@[0] == 'D' && "Digit0"@[1] == 'i' && "Digit0"@[2] == 'g' && "Digit0"@[3] == 'i' && "Digit0"@[4] == 't' && "Digit0"@[5] == '0',
        "Digit1"@.len() == 6 && "Digit1"@[0] == 'D' && "Digit1"@[1] == 'i' && "Digit1"@[2] == 'g' && "Digit1"@[3] == 'i' && "Digit1"@[4] == 't' && "Digit1"@[5] == '1',
        "Digit2"@.len() == 6 && "Digit2"@[0] == 'D' && "Digit2"@[1] == 'i' && "Digit2"@[2] == 'g' && "Digit2"@[3] == 'i' && "Digit2"@[4] == 't' && "Digit2"@[5] == '2',
        "Digit3"@.len() == 6 && "Digit3"@[0] == 'D' && "Digit3"@[1] == 'i' && "Digit3"@[2] == 'g' && "Digit3"@[3] == 'i' && "Digit3"@[4] == 't' && "Digit3"@[5] == '3',
        "Digit4"@.len() == 6 && "Digit4"@[0] == 'D' && "Digit4"@[1] == 'i' && "Digit4"@[2] == 'g' && "Digit4"@[3] == 'i' && "Digit4"@[4] == 't' && "Digit4"@[5] == '4',
        "Digit5"@.len() == 6 && "Digit5"@[0] == 'D' && "Digit5"@[1] == 'i' && "Digit5"@[2] == 'g' && "Digit5"@[3] == 'i' && "Digit5"@[4] == 't' && "Digit5"@[5] == '5',
        "Digit6"@.len() == 6 && "Digit6"@[0] == 'D' && "Digit6"@[1] == 'i' && "Digit6"@[2] == 'g' && "Digit6"@[3] == 'i' && "Digit6"@[4] == 't' && "Digit6"@[5] == '6',
        "Digit7"@.len() == 6 && "Digit7"@[0] == 'D' && "Digit7"@[1] == 'i' && "Digit7"@[2] == 'g' && "Digit7"@[3] == 'i' && "Digit7"@[4] == 't' && "Digit7"@[5] == '7',
        "Digit8"@.len() == 6 && "Digit8"@[0] == 'D' && "Digit8"@[1] == 'i' && "Digit8"@[2] == 'g' && "Digit8"@[3] == 'i' && "Digit8"@[4] == 't' && "Digit8"@[5] == '8',
        "Digit9"@.len() == 6 && "Digit9"@[0] == 'D' && "Digit9"@[1] == 'i' && "Digit9"@[2] == 'g' && "Digit9"@[3] == 'i' && "Digit9"@[4] == 't' && "Digit9"@[5] == '9',
        "KeyA"@.len() == 4 && "KeyA"@[0] == 'K' && "KeyA"@[1] == 'e' && "KeyA"@[2] == 'y' && "KeyA"@[3] == 'A',
        "KeyB"@.len() == 4 && "KeyB"@[0] == 'K' && "KeyB"@[1] == 'e' && "KeyB"@[2] == 'y' && "KeyB"@[3] == 'B',
        "KeyC"@.len() == 4 && "KeyC"@[0] == 'K' && "KeyC"@[1] == 'e' && "KeyC"@[2] == 'y' && "KeyC"@[3] == 'C',
        "KeyD"@.len() == 4 && "KeyD"@[0] == 'K' && "KeyD"@[1] == 'e' && "KeyD"@[2] == 'y' && "KeyD"@[3] == 'D',
        "KeyE"@.len() == 4 && "KeyE"@[0] == 'K' && "KeyE"@[1] == 'e' && "KeyE"@[2] == 'y' && "KeyE"@[3] == 'E',
        "KeyF"@.len() == 4 && "KeyF"@[0] == 'K' && "KeyF"@[1] == 'e' && "KeyF"@[2] == 'y' && "KeyF"@[3] == 'F',
        "KeyG"@.len() == 4 && "KeyG"@[0] == 'K' && "KeyG"@[1] == 'e' && "KeyG"@[2] == 'y' && "KeyG"@[3] == 'G',
        "KeyH"@.len() == 4 && "KeyH"@[0] == 'K' && "KeyH"@[1] == 'e' && "KeyH"@[2] == 'y' && "KeyH"@[3] == 'H',
        "KeyI"@.len() == 4 && "KeyI"@[0] == 'K' && "KeyI"@[1] == 'e' && "KeyI"@[2] == 'y' && "KeyI"@[3] == 'I',
        "KeyJ"@.len() == 4 && "KeyJ"@[0] == 'K' && "KeyJ"@[1] == 'e' && "KeyJ"@[2] == 'y' && "KeyJ"@[3] == 'J',
        "KeyK"@.len() == 4 && "KeyK"@[0] == 'K' && "KeyK"@[1] == 'e' && "KeyK"@[2] == 'y' && "KeyK"@[3] == 'K',
        "KeyL"@.len() == 4 && "KeyL"@[0] == 'K' && "KeyL"@[1] == 'e' && "KeyL"@[2] == 'y' && "KeyL"@[3] == 'L',
        "KeyM"@.len() == 4 && "KeyM"@[0] == 'K' && "KeyM"@[1] == 'e' && "KeyM"@[2] == 'y' && "KeyM"@[3] == 'M',
        "KeyN"@.len() == 4 && "KeyN"@[0] == 'K' && "KeyN"@[1] == 'e' && "KeyN"@[2] == 'y' && "KeyN"@[3] == 'N',
        "KeyO"@.len() == 4 && "KeyO"@[0] == 'K' && "KeyO"@[1] == 'e' && "KeyO"@[2] == 'y' && "KeyO"@[3] == 'O',
        "KeyP"@.len() == 4 && "KeyP"@[0] == 'K' && "KeyP"@[1] == 'e' && "KeyP"@[2] == 'y' && "KeyP"@[3] == 'P',
        "KeyQ"@.len() == 4 && "KeyQ"@[0] == 'K' && "KeyQ"@[1] == 'e' && "KeyQ"@[2] == 'y' && "KeyQ"@[3] == 'Q',
        "KeyR"@.len() == 4 && "KeyR"@[0] == 'K' && "KeyR"@[1] == 'e' && "KeyR"@[2] == 'y' && "KeyR"@[3] == 'R',
        "KeyS"@.len() == 4 && "KeyS"@[0] == 'K' && "KeyS"@[1] == 'e' && "KeyS"@[2] == 'y' && "KeyS"@[3] == 'S',
        "KeyT"@.len() == 4 && "KeyT"@[0] == 'K' && "KeyT"@[1] == 'e' && "KeyT"@[2] == 'y' && "KeyT"@[3] == 'T',
        "KeyU"@.len() == 4 && "KeyU"@[0] == 'K' && "KeyU"@[1] == 'e' && "KeyU"@[2] == 'y' && "KeyU"@[3] == 'U',
        "KeyV"@.len() == 4 && "KeyV"@[0] == 'K' && "KeyV"@[1] == 'e' && "KeyV"@[2] == 'y' && "KeyV"@[3] == 'V',
        "KeyW"@.len() == 4 && "KeyW"@[0] == 'K' && "KeyW"@[1] == 'e' && "KeyW"@[2] == 'y' && "KeyW"@[3] == 'W',
        "KeyX"@.len() == 4 && "KeyX"@[0] == 'K' && "KeyX"@[1] == 'e' && "KeyX"@[2] == 'y' && "KeyX"@[3] == 'X',
        "KeyY"@.len() == 4 && "KeyY"@[0] == 'K' && "KeyY"@[1] == 'e' && "KeyY"@[2] == 'y' && "KeyY"@[3] == 'Y',
        "KeyZ"@.len() == 4 && "KeyZ"@[0] == 'K' && "KeyZ"@[1] == 'e' && "KeyZ"@[2] == 'y' && "KeyZ"@[3] == 'Z',
        "Escape"@.len() == 6 && "Escape"@[0] == 'E' && "Escape"@[1] == 's' && "Escape"@[2] == 'c' && "Escape"@[3] == 'a' && "Escape"@[4] == 'p' && "Escape"@[5] == 'e',
        "Tab"@.len() == 3 && "Tab"@[0] == 'T' && "Tab"@[1] == 'a' && "Tab"@[2] == 'b',
        "CapsLock"@.len() == 8 && "CapsLock"@[0] == 'C' && "CapsLock"@[1] == 'a' && "CapsLock"@[2] == 'p' && "CapsLock"@[3] == 's' && "CapsLock"@[4] == 'L' && "CapsLock"@[5] == 'o' && "CapsLock"@[6] == 'c' && "CapsLock"@[7] == 'k',
        "ShiftLeft"@.len() == 9 && "ShiftLeft"@[0] == 'S' && "ShiftLeft"@[1] == 'h' && "ShiftLeft"@[2] == 'i' && "ShiftLeft"@[3] == 'f' && "ShiftLeft"@[4] == 't' && "ShiftLeft"@[5] == 'L' && "ShiftLeft"@[6] == 'e' && "ShiftLeft"@[7] == 'f' && "ShiftLeft"@[8] == 't',
        "ShiftRight"@.len() == 10 && "ShiftRight"@[0] == 'S' && "ShiftRight"@[1] == 'h' && "ShiftRight"@[2] == 'i' && "ShiftRight"@[3] == 'f' && "ShiftRight"@[4] == 't' && "ShiftRight"@[5] == 'R' && "ShiftRight"@[6] == 'i' && "ShiftRight"@[7] == 'g' && "ShiftRight"@[8] == 'h' && "ShiftRight"@[9] == 't',
        "ControlLeft"@.len() == 11 && "ControlLeft"@[0] == 'C' && "ControlLeft"@[1] == 'o' && "ControlLeft"@[2] == 'n' && "ControlLeft"@[3] == 't' && "ControlLeft"@[4] == 'r' && "ControlLeft"@[5] == 'o' && "ControlLeft"@[6] == 'l' && "ControlLeft"@[7] == 'L' && "ControlLeft"@[8] == 'e' && "ControlLeft"@[9] == 'f' && "ControlLeft"@[10] == 't',
        "ControlRight"@.len() == 12 && "ControlRight"@[0] == 'C' && "ControlRight"@[1] == 'o' && "ControlRight"@[2] == 'n' && "ControlRight"@[3] == 't' && "ControlRight"@[4] == 'r' && "ControlRight"@[5] == 'o' && "ControlRight"@[6] == 'l' && "ControlRight"@[7] == 'R' && "ControlRight"@[8] == 'i' && "ControlRight"@[9] == 'g' && "ControlRight"@[10] == 'h' && "ControlRight"@[11] == 't',
        "AltLeft"@.len() == 7 && "AltLeft"@[0] == 'A' && "AltLeft"@[1] == 'l' && "AltLeft"@[2] == 't' && "AltLeft"@[3] == 'L' && "AltLeft"@[4] == 'e' && "AltLeft"@[5] == 'f' && "AltLeft"@[6] == 't',
        "AltRight"@.len() == 8 && "AltRight"@[0] == 'A' && "AltRight"@[1] == 'l' && "AltRight"@[2] == 't' && "AltRight"@[3] == 'R' && "AltRight"@[4] == 'i' && "AltRight"@[5] == 'g' && "AltRight"@[6] == 'h' && "AltRight"@[7] == 't',
        "Space"@.len() == 5 && "Space"@[0] == 'S' && "Space"@[1] == 'p' && "Space"@[2] == 'a' && "Space"@[3] == 'c' && "Space"@[4] == 'e',
        "ArrowUp"@.len() == 7 && "ArrowUp"@[0] == 'A' && "ArrowUp"@[1] == 'r' && "ArrowUp"@[2] == 'r' && "ArrowUp"@[3] == 'o' && "ArrowUp"@[4] == 'w' && "ArrowUp"@[5] == 'U' && "ArrowUp"@[6] == 'p',
        "ArrowRight"@.len() == 10 && "ArrowRight"@[0] == 'A' && "ArrowRight"@[1] == 'r' && "ArrowRight"@[2] == 'r' && "ArrowRight"@[3] == 'o' && "ArrowRight"@[4] == 'w' && "ArrowRight"@[5] == 'R' && "ArrowRight"@[6] == 'i' && "ArrowRight"@[7] == 'g' && "ArrowRight"@[8] == 'h' && "ArrowRight"@[9] == 't',
        "ArrowDown"@.len() == 9 && "ArrowDown"@[0] == 'A' && "ArrowDown"@[1] == 'r' && "ArrowDown"@[2] == 'r' && "ArrowDown"@[3] == 'o' && "ArrowDown"@[4] == 'w' && "ArrowDown"@[5] == 'D' && "ArrowDown"@[6] == 'o' && "ArrowDown"@[7] == 'w' && "ArrowDown"@[8] == 'n',
        "ArrowLeft"@.len() == 9 && "ArrowLeft"@[0] == 'A' && "ArrowLeft"@[1] == 'r' && "ArrowLeft"@[2] == 'r' && "ArrowLeft"@[3] == 'o' && "ArrowLeft"@[4] == 'w' && "ArrowLeft"@[5] == 'L' && "ArrowLeft"@[6] == 'e' && "ArrowLeft"@[7] == 'f' && "ArrowLeft"@[8] == 't',
        "Enter"@.len() == 5 && "Enter"@[0] == 'E' && "Enter"@[1] == 'n' && "Enter"@[2] == 't' && "Enter"@[3] == 'e' && "Enter"@[4] == 'r',
        "Backspace"@.len() == 9 && "Backspace"@[0] == 'B' && "Backspace"@[1] == 'a' && "Backspace"@[2] == 'c' && "Backspace"@[3] == 'k' && "Backspace"@[4] == 's' && "Backspace"@[5] == 'p' && "Backspace"@[6] == 'a' && "Backspace"@[7] == 'c' && "Backspace"@[8] == 'e',
        "Delete"@.len() == 6 && "Delete"@[0] == 'D' && "Delete"@[1] == 'e' && "Delete"@[2] == 'l' && "Delete"@[3] == 'e' && "Delete"@[4] == 't' && "Delete"@[5] == 'e',
        "Home"@.len() == 4 && "Home"@[0] == 'H' && "Home"@[1] == 'o' && "Home"@[2] == 'm' && "Home"@[3] == 'e',
        "PageUp"@.len() == 6 && "PageUp"@[0] == 'P' && "PageUp"@[1] == 'a' && "PageUp"@[2] == 'g' && "PageUp"@[3] == 'e' && "PageUp"@[4] == 'U' && "PageUp"@[5] == 'p',
        "PageDown"@.len() == 8 && "PageDown"@[0] == 'P' && "PageDown"@[1] == 'a' && "PageDown"@[2] == 'g' && "PageDown"@[3] == 'e' && "PageDown"@[4] == 'D' && "PageDown"@[5] == 'o' && "PageDown"@[6] == 'w' && "PageDown"@[7] == 'n',
        "End"@.len() == 3 && "End"@[0] == 'E' && "End"@[1] == 'n' && "End"@[2] == 'd',
        "Backquote"@.len() == 9 && "Backquote"@[0] == 'B' && "Backquote"@[1] == 'a' && "Backquote"@[2] == 'c' && "Backquote"@[3] == 'k' && "Backquote"@[4] == 'q' && "Backquote"@[5] == 'u' && "Backquote"@[6] == 'o' && "Backquote"@[7] == 't' && "Backquote"@[8] == 'e',
        "Minus"@.len() == 5 && "Minus"@[0] == 'M' && "Minus"@[1] == 'i' && "Minus"@[2] == 'n' && "Minus"@[3] == 'u' && "Minus"@[4] == 's',
        "Equal"@.len() == 5 && "Equal"@[0] == 'E' && "Equal"@[1] == 'q' && "Equal"@[2] == 'u' && "Equal"@[3] == 'a' && "Equal"@[4] == 'l',
        "BracketLeft"@.len() == 11 && "BracketLeft"@[0] == 'B' && "BracketLeft"@[1] == 'r' && "BracketLeft"@[2] == 'a' && "BracketLeft"@[3] == 'c' && "BracketLeft"@[4] == 'k' && "BracketLeft"@[5] == 'e' && "BracketLeft"@[6] == 't' && "BracketLeft"@[7] == 'L' && "BracketLeft"@[8] == 'e' && "BracketLeft"@[9] == 'f' && "BracketLeft"@[10] == 't',
        "BracketRight"@.len() == 12 && "BracketRight"@[0] == 'B' && "BracketRight"@[1] == 'r' && "BracketRight"@[2] == 'a' && "BracketRight"@[3] == 'c' && "BracketRight"@[4] == 'k' && "BracketRight"@[5] == 'e' && "BracketRight"@[6] == 't' && "BracketRight"@[7] == 'R' && "BracketRight"@[8] == 'i' && "BracketRight"@[9] == 'g' && "BracketRight"@[10] == 'h' && "BracketRight"@[11] == 't',
        "Comma"@.len() == 5 && "Comma"@[0] == 'C' && "Comma"@[1] == 'o' && "Comma"@[2] == 'm' && "Comma"@[3] == 'm' && "Comma"@[4] == 'a',
        "Period"@.len() == 6 && "Period"@[0] == 'P' && "Period"@[1] == 'e' && "Period"@[2] == 'r' && "Period"@[3] == 'i' && "Period"@[4] == 'o' && "Period"@[5] == 'd',
        "Semicolon"@.len() == 9 && "Semicolon"@[0] == 'S' && "Semicolon"@[1] == 'e' && "Semicolon"@[2] == 'm' && "Semicolon"@[3] == 'i' && "Semicolon"@[4] == 'c' && "Semicolon"@[5] == 'o' && "Semicolon"@[6] == 'l' && "Semicolon"@[7] == 'o' && "Semicolon"@[8] == 'n',
        "Quote"@.len() == 5 && "Quote"@[0] == 'Q' && "Quote"@[1] == 'u' && "Quote"@[2] == 'o' && "Quote"@[3] == 't' && "Quote"@[4] == 'e',
        "Slash"@.len() == 5 && "Slash"@[0] == 'S' && "Slash"@[1] == 'l' && "Slash"@[2] == 'a' && "Slash"@[3] == 's' && "Slash"@[4] == 'h',
        "BackSlash"@.len() == 9 && "BackSlash"@[0] == 'B' && "BackSlash"@[1] == 'a' && "BackSlash"@[2] == 'c' && "BackSlash"@[3] == 'k' && "BackSlash"@[4] == 'S' && "BackSlash"@[5] == 'l' && "BackSlash"@[6] == 'a' && "BackSlash"@[7] == 's' && "BackSlash"@[8] == 'h',
        "Numpad0"@.len() == 7 && "Numpad0"@[0] == 'N' && "Numpad0"@[1] == 'u' && "Numpad0"@[2] == 'm' && "Numpad0"@[3] == 'p' && "Numpad0"@[4] == 'a' && "Numpad0"@[5] == 'd' && "Numpad0"@[6] == '0',
        "Numpad1"@.len() == 7 && "Numpad1"@[0] == 'N' && "Numpad1"@[1] == 'u' && "Numpad1"@[2] == 'm' && "Numpad1"@[3] == 'p' && "Numpad1"@[4] == 'a' && "Numpad1"@[5] == 'd' && "Numpad1"@[6] == '1',
        "Numpad2"@.len() == 7 && "Numpad2"@[0] == 'N' && "Numpad2"@[1] == 'u' && "Numpad2"@[2] == 'm' && "Numpad2"@[3] == 'p' && "Numpad2"@[4] == 'a' && "Numpad2"@[5] == 'd' && "Numpad2"@[6] == '2',
        "Numpad3"@.len() == 7 && "Numpad3"@[0] == 'N' && "Numpad3"@[1] == 'u' && "Numpad3"@[2] == 'm' && "Numpad3"@[3] == 'p' && "Numpad3"@[4] == 'a' && "Numpad3"@[5] == 'd' && "Numpad3"@[6] == '3',
        "Numpad4"@.len() == 7 && "Numpad4"@[0] == 'N' && "Numpad4"@[1] == 'u' && "Numpad4"@[2] == 'm' && "Numpad4"@[3] == 'p' && "Numpad4"@[4] == 'a' && "Numpad4"@[5] == 'd' && "Numpad4"@[6] == '4',
        "Numpad5"@.len() == 7 && "Numpad5"@[0] == 'N' && "Numpad5"@[1] == 'u' && "Numpad5"@[2] == 'm' && "Numpad5"@[3] == 'p' && "Numpad5"@[4] == 'a' && "Numpad5"@[5] == 'd' && "Numpad5"@[6] == '5',
        "Numpad6"@.len() == 7 && "Numpad6"@[0] == 'N' && "Numpad6"@[1] == 'u' && "Numpad6"@[2] == 'm' && "Numpad6"@[3] == 'p' && "Numpad6"@[4] == 'a' && "Numpad6"@[5] == 'd' && "Numpad6"@[6] == '6',
        "Numpad7"@.len() == 7 && "Numpad7"@[0] == 'N' && "Numpad7"@[1] == 'u' && "Numpad7"@[2] == 'm' && "Numpad7"@[3] == 'p' && "Numpad7"@[4] == 'a' && "Numpad7"@[5] == 'd' && "Numpad7"@[6] == '7',
        "Numpad8"@.len() == 7 && "Numpad8"@[0] == 'N' && "Numpad8"@[1] == 'u' && "Numpad8"@[2] == 'm' && "Numpad8"@[3] == 'p' && "Numpad8"@[4] == 'a' && "Numpad8"@[5] == 'd' && "Numpad8"@[6] == '8',
        "Numpad9"@.len() == 7 && "Numpad9"@[0] == 'N' && "Numpad9"@[1] == 'u' && "Numpad9"@[2] == 'm' && "Numpad9"@[3] == 'p' && "Numpad9"@[4] == 'a' && "Numpad9"@[5] == 'd' && "Numpad9"@[6] == '9',
        "NumpadAdd"@.len() == 9 && "NumpadAdd"@[0] == 'N' && "NumpadAdd"@[1] == 'u' && "NumpadAdd"@[2] == 'm' && "NumpadAdd"@[3] == 'p' && "NumpadAdd"@[4] == 'a' && "NumpadAdd"@[5] == 'd' && "NumpadAdd"@[6] == 'A' && "NumpadAdd"@[7] == 'd' && "NumpadAdd"@[8] == 'd',
        "NumpadSubtract"@.len() == 14 && "NumpadSubtract"@[0] == 'N' && "NumpadSubtract"@[1] == 'u' && "NumpadSubtract"@[2] == 'm' && "NumpadSubtract"@[3] == 'p' && "NumpadSubtract"@[4] == 'a' && "NumpadSubtract"@[5] == 'd' && "NumpadSubtract"@[6] == 'S' && "NumpadSubtract"@[7] == 'u' && "NumpadSubtract"@[8] == 'b' && "NumpadSubtract"@[9] == 't' && "NumpadSubtract"@[10] == 'r' && "NumpadSubtract"@[11] == 'a' && "NumpadSubtract"@[12] == 'c' && "NumpadSubtract"@[13] == 't',
        "NumpadMultiply"@.len() == 14 && "NumpadMultiply"@[0] == 'N' && "NumpadMultiply"@[1] == 'u' && "NumpadMultiply"@[2] == 'm' && "NumpadMultiply"@[3] == 'p' && "NumpadMultiply"@[4] == 'a' && "NumpadMultiply"@[5] == 'd' && "NumpadMultiply"@[6] == 'M' && "NumpadMultiply"@[7] == 'u' && "NumpadMultiply"@[8] == 'l' && "NumpadMultiply"@[9] == 't' && "NumpadMultiply"@[10] == 'i' && "NumpadMultiply"@[11] == 'p' && "NumpadMultiply"@[12] == 'l' && "NumpadMultiply"@[13] == 'y',
        "NumpadDivide"@.len() == 12 && "NumpadDivide"@[0] == 'N' && "NumpadDivide"@[1] == 'u' && "NumpadDivide"@[2] == 'm' && "NumpadDivide"@[3] == 'p' && "NumpadDivide"@[4] == 'a' && "NumpadDivide"@[5] == 'd' && "NumpadDivide"@[6] == 'D' && "NumpadDivide"@[7] == 'i' && "NumpadDivide"@[8] == 'v' && "NumpadDivide"@[9] == 'i' && "NumpadDivide"@[10] == 'd' && "NumpadDivide"@[11] == 'e',
{
    reveal_strlit("F1");
    reveal_strlit("F2");
    reveal_strlit("F3");
    reveal_strlit("F4");
    reveal_strlit("F5");
    reveal_strlit("F6");
    reveal_strlit("F7");
    reveal_strlit("F8");
    reveal_strlit("F9");
    reveal_strlit("F10");
    reveal_strlit("F11");
    reveal_strlit("F12");
    reveal_strlit("Digit0");
    reveal_strlit("Digit1");
    reveal_strlit("Digit2");
    reveal_strlit("Digit3");
    reveal_strlit("Digit4");
    reveal_strlit("Digit5");
    reveal_strlit("Digit6");
    reveal_strlit("Digit7");
    reveal_strlit("Digit8");
    reveal_strlit("Digit9");
    reveal_strlit("KeyA");
    reveal_strlit("KeyB");
    reveal_strlit("KeyC");
    reveal_strlit("KeyD");
    reveal_strlit("KeyE");
    reveal_strlit("KeyF");
    reveal_strlit("KeyG");
    reveal_strlit("KeyH");
    reveal_strlit("KeyI");
    reveal_strlit("KeyJ");
    reveal_strlit("KeyK");
    reveal_strlit("KeyL");
    reveal_strlit("KeyM");
    reveal_strlit("KeyN");
    reveal_strlit("KeyO");
    reveal_strlit("KeyP");
    reveal_strlit("KeyQ");
    reveal_strlit("KeyR");
    reveal_strlit("KeyS");
    reveal_strlit("KeyT");
    reveal_strlit("KeyU");
    reveal_strlit("KeyV");
    reveal_strlit("KeyW");
    reveal_strlit("KeyX");
    reveal_strlit("KeyY");
    reveal_strlit("KeyZ");
    reveal_strlit("Escape");
    reveal_strlit("Tab");
    reveal_strlit("CapsLock");
    reveal_strlit("ShiftLeft");
    reveal_strlit("ShiftRight");
    reveal_strlit("ControlLeft");
    reveal_strlit("ControlRight");
    reveal_strlit("AltLeft");
    reveal_strlit("AltRight");
    reveal_strlit("Space");
    reveal_strlit("ArrowUp");
    reveal_strlit("ArrowRight");
    reveal_strlit("ArrowDown");
    reveal_strlit("ArrowLeft");
    reveal_strlit("Enter");
    reveal_strlit("Backspace");
    reveal_strlit("Delete");
    reveal_strlit("Home");
    reveal_strlit("PageUp");
    reveal_strlit("PageDown");
    reveal_strlit("End");
    reveal_strlit("Backquote");
    reveal_strlit("Minus");
    reveal_strlit("Equal");
    reveal_strlit("BracketLeft");
    reveal_strlit("BracketRight");
    reveal_strlit("Comma");
    reveal_strlit("Period");
    reveal_strlit("Semicolon");
    reveal_strlit("Quote");
    reveal_strlit("Slash");
    reveal_strlit("BackSlash");
    reveal_strlit("Numpad0");
    reveal_strlit("Numpad1");
    reveal_strlit("Numpad2");
    reveal_strlit("Numpad3");
    reveal_strlit("Numpad4");
    reveal_strlit("Numpad5");
    reveal_strlit("Numpad6");
    reveal_strlit("Numpad7");
    reveal_strlit("Numpad8");
    reveal_strlit("Numpad9");
    reveal_strlit("NumpadAdd");
    reveal_strlit("NumpadSubtract");
    reveal_strlit("NumpadMultiply");
    reveal_strlit("NumpadDivide");
}

/// Whether two strings hold the same characters.
fn same_text(a: &str, b: &str) -> (r: bool)
    ensures
        r == (a@ == b@),
{
    let n = a.unicode_len();
    if n != b.unicode_len() {
        return false;
    }
    let mut i: usize = 0;
    while i < n
        invariant
            n == a@.len(),
            n == b@.len(),
            i <= n,
            forall|j: int| 0 <= j < i ==> a@[j] == b@[j],
        decreases n - i,
    {
        if a.get_char(i) != b.get_char(i) {
            return false;
        }
        i = i + 1;
    }
    assert(a@ =~= b@);
    true
}

/// Translation between the key code spaces. A key with no image in the target
/// space gives `None`, which callers treat as "skip this key".
pub struct KeyboardMapper {}

impl KeyboardMapper {
    /// Capture-space key to injection-space key.
    pub fn dq_to_enigo(key_in_dq: Keycode) -> (r: Option<Key>)
        ensures
            r == injection_of(key_in_dq),
    {
        match key_in_dq {
            Keycode::F1 => Some(Key::F1),
            Keycode::F2 => Some(Key::F2),
            Keycode::F3 => Some(Key::F3),
            Keycode::F4 => Some(Key::F4),
            Keycode::F5 => Some(Key::F5),
            Keycode::F6 => Some(Key::F6),
            Keycode::F7 => Some(Key::F7),
            Keycode::F8 => Some(Key::F8),
            Keycode::F9 => Some(Key::F9),
            Keycode::F10 => Some(Key::F10),
            Keycode::F11 => Some(Key::F11),
            Keycode::F12 => Some(Key::F12),
            Keycode::Key0 => Some(Key::Layout('0')),
            Keycode::Key1 => Some(Key::Layout('1')),
            Keycode::Key2 => Some(Key::Layout('2')),
            Keycode::Key3 => Some(Key::Layout('3')),
            Keycode::Key4 => Some(Key::Layout('4')),
            Keycode::Key5 => Some(Key::Layout('5')),
            Keycode::Key6 => Some(Key::Layout('6')),
            Keycode::Key7 => Some(Key::Layout('7')),
            Keycode::Key8 => Some(Key::Layout('8')),
            Keycode::Key9 => Some(Key::Layout('9')),
            Keycode::A => Some(Key::Layout('a')),
            Keycode::B => Some(Key::Layout('b')),
            Keycode::C => Some(Key::Layout('c')),
            Keycode::D => Some(Key::Layout('d')),
            Keycode::E => Some(Key::Layout('e')),
            Keycode::F => Some(Key::Layout('f')),
            Keycode::G => Some(Key::Layout('g')),
            Keycode::H => Some(Key::Layout('h')),
            Keycode::I => Some(Key::Layout('i')),
            Keycode::J => Some(Key::Layout('j')),
            Keycode::K => Some(Key::Layout('k')),
            Keycode::L => Some(Key::Layout('l')),
            Keycode::M => Some(Key::Layout('m')),
            Keycode::N => Some(Key::Layout('n')),
            Keycode::O => Some(Key::Layout('o')),
            Keycode::P => Some(Key::Layout('p')),
            Keycode::Q => Some(Key::Layout('q')),
            Keycode::R => Some(Key::Layout('r')),
            Keycode::S => Some(Key::Layout('s')),
            Keycode::T => Some(Key::Layout('t')),
            Keycode::U => Some(Key::Layout('u')),
            Keycode::V => Some(Key::Layout('v')),
            Keycode::W => Some(Key::Layout('w')),
            Keycode::X => Some(Key::Layout('x')),
            Keycode::Y => Some(Key::Layout('y')),
            Keycode::Z => Some(Key::Layout('z')),
            Keycode::Escape => Some(Key::Escape),
            Keycode::Tab => Some(Key::Tab),
            Keycode::CapsLock => Some(Key::CapsLock),
            Keycode::LShift | Keycode::RShift => Some(Key::Shift),
            Keycode::LControl | Keycode::RControl => Some(Key::Control),
            Keycode::LAlt | Keycode::RAlt => Some(Key::Alt),
            Keycode::Space => Some(Key::Space),
            Keycode::Up => Some(Key::UpArrow),
            Keycode::Right => Some(Key::RightArrow),
            Keycode::Down => Some(Key::DownArrow),
            Keycode::Left => Some(Key::LeftArrow),
            Keycode::Enter => Some(Key::Return),
            Keycode::Backspace => Some(Key::Backspace),
            Keycode::Delete => Some(Key::Delete),
            Keycode::Home => Some(Key::Home),
            Keycode::PageUp => Some(Key::PageUp),
            Keycode::PageDown => Some(Key::PageDown),
            Keycode::End => Some(Key::End),
            Keycode::Grave => Some(Key::Layout('`')),
            Keycode::Minus | Keycode::NumpadSubtract => Some(Key::Layout('-')),
            Keycode::Equal => Some(Key::Layout('=')),
            Keycode::LeftBracket => Some(Key::Layout('[')),
            Keycode::RightBracket => Some(Key::Layout(']')),
            Keycode::Comma => Some(Key::Layout(',')),
            Keycode::Dot => Some(Key::Layout('.')),
            Keycode::Semicolon => Some(Key::Layout(';')),
            Keycode::Apostrophe => Some(Key::Layout('\'')),
            Keycode::Slash | Keycode::NumpadDivide => Some(Key::Layout('/')),
            Keycode::BackSlash => Some(Key::Layout('\\')),
            Keycode::Numpad0 => Some(Key::Layout('0')),
            Keycode::Numpad1 => Some(Key::Layout('1')),
            Keycode::Numpad2 => Some(Key::Layout('2')),
            Keycode::Numpad3 => Some(Key::Layout('3')),
            Keycode::Numpad4 => Some(Key::Layout('4')),
            Keycode::Numpad5 => Some(Key::Layout('5')),
            Keycode::Numpad6 => Some(Key::Layout('6')),
            Keycode::Numpad7 => Some(Key::Layout('7')),
            Keycode::Numpad8 => Some(Key::Layout('8')),
            Keycode::Numpad9 => Some(Key::Layout('9')),
            _ => None,
        }
    }

    /// Injection-space key to capture-space key.
    pub fn enigo_to_dq(key_in_enigo: Key) -> (r: Option<Keycode>)
        ensures
            r == capture_of(key_in_enigo),
    {
        match key_in_enigo {
            Key::F1 => Some(Keycode::F1),
            Key::F2 => Some(Keycode::F2),
            Key::F3 => Some(Keycode::F3),
            Key::F4 => Some(Keycode::F4),
            Key::F5 => Some(Keycode::F5),
            Key::F6 => Some(Keycode::F6),
            Key::F7 => Some(Keycode::F7),
            Key::F8 => Some(Keycode::F8),
            Key::F9 => Some(Keycode::F9),
            Key::F10 => Some(Keycode::F10),
            Key::F11 => Some(Keycode::F11),
            Key::F12 => Some(Keycode::F12),
            Key::Layout('0') => Some(Keycode::Key0),
            Key::Layout('1') => Some(Keycode::Key1),
            Key::Layout('2') => Some(Keycode::Key2),
            Key::Layout('3') => Some(Keycode::Key3),
            Key::Layout('4') => Some(Keycode::Key4),
            Key::Layout('5') => Some(Keycode::Key5),
            Key::Layout('6') => Some(Keycode::Key6),
            Key::Layout('7') => Some(Keycode::Key7),
            Key::Layout('8') => Some(Keycode::Key8),
            Key::Layout('9') => Some(Keycode::Key9),
            Key::Layout('a') => Some(Keycode::A),
            Key::Layout('b') => Some(Keycode::B),
            Key::Layout('c') => Some(Keycode::C),
            Key::Layout('d') => Some(Keycode::D),
            Key::Layout('e') => Some(Keycode::E),
            Key::Layout('f') => Some(Keycode::F),
            Key::Layout('g') => Some(Keycode::G),
            Key::Layout('h') => Some(Keycode::H),
            Key::Layout('i') => Some(Keycode::I),
            Key::Layout('j') => Some(Keycode::J),
            Key::Layout('k') => Some(Keycode::K),
            Key::Layout('l') => Some(Keycode::L),
            Key::Layout('m') => Some(Keycode::M),
            Key::Layout('n') => Some(Keycode::N),
            Key::Layout('o') => Some(Keycode::O),
            Key::Layout('p') => Some(Keycode::P),
            Key::Layout('q') => Some(Keycode::Q),
            Key::Layout('r') => Some(Keycode::R),
            Key::Layout('s') => Some(Keycode::S),
            Key::Layout('t') => Some(Keycode::T),
            Key::Layout('u') => Some(Keycode::U),
            Key::Layout('v') => Some(Keycode::V),
            Key::Layout('w') => Some(Keycode::W),
            Key::Layout('x') => Some(Keycode::X),
            Key::Layout('y') => Some(Keycode::Y),
            Key::Layout('z') => Some(Keycode::Z),
            Key::Escape => Some(Keycode::Escape),
            Key::Tab => Some(Keycode::Tab),
            Key::CapsLock => Some(Keycode::CapsLock),
            Key::Shift => Some(Keycode::LShift),
            Key::Control => Some(Keycode::LControl),
            Key::Alt => Some(Keycode::LAlt),
            Key::Space => Some(Keycode::Space),
            Key::UpArrow => Some(Keycode::Up),
            Key::RightArrow => Some(Keycode::Right),
            Key::DownArrow => Some(Keycode::Down),
            Key::LeftArrow => Some(Keycode::Left),
            Key::Return => Some(Keycode::Enter),
            Key::Backspace => Some(Keycode::Backspace),
            Key::Delete => Some(Keycode::Delete),
            Key::Home => Some(Keycode::Home),
            Key::PageUp => Some(Keycode::PageUp),
            Key::PageDown => Some(Keycode::PageDown),
            Key::End => Some(Keycode::End),
            Key::Layout('`') => Some(Keycode::Grave),
            Key::Layout('-') => Some(Keycode::Minus),
            Key::Layout('=') => Some(Keycode::Equal),
            Key::Layout('[') => Some(Keycode::LeftBracket),
            Key::Layout(']') => Some(Keycode::RightBracket),
            Key::Layout(',') => Some(Keycode::Comma),
            Key::Layout('.') => Some(Keycode::Dot),
            Key::Layout(';') => Some(Keycode::Semicolon),
            Key::Layout('\'') => Some(Keycode::Apostrophe),
            Key::Layout('/') => Some(Keycode::Slash),
            Key::Layout('\\') => Some(Keycode::BackSlash),
            _ => None,
        }
    }

    /// Capture-space key to neutral name.
    pub fn dq_to_front(key_in_dq: Keycode) -> (r: Option<&'static str>)
        ensures
            opt_str_view(r) == name_of(key_in_dq),
    {
        match key_in_dq {
            Keycode::F1 => Some("F1"),
            Keycode::F2 => Some("F2"),
            Keycode::F3 => Some("F3"),
            Keycode::F4 => Some("F4"),
            Keycode::F5 => Some("F5"),
            Keycode::F6 => Some("F6"),
            Keycode::F7 => Some("F7"),
            Keycode::F8 => Some("F8"),
            Keycode::F9 => Some("F9"),
            Keycode::F10 => Some("F10"),
            Keycode::F11 => Some("F11"),
            Keycode::F12 => Some("F12"),
            Keycode::Key0 => Some("Digit0"),
            Keycode::Key1 => Some("Digit1"),
            Keycode::Key2 => Some("Digit2"),
            Keycode::Key3 => Some("Digit3"),
            Keycode::Key4 => Some("Digit4"),
            Keycode::Key5 => Some("Digit5"),
            Keycode::Key6 => Some("Digit6"),
            Keycode::Key7 => Some("Digit7"),
            Keycode::Key8 => Some("Digit8"),
            Keycode::Key9 => Some("Digit9"),
            Keycode::A => Some("KeyA"),
            Keycode::B => Some("KeyB"),
            Keycode::C => Some("KeyC"),
            Keycode::D => Some("KeyD"),
            Keycode::E => Some("KeyE"),
            Keycode::F => Some("KeyF"),
            Keycode::G => Some("KeyG"),
            Keycode::H => Some("KeyH"),
            Keycode::I => Some("KeyI"),
            Keycode::J => Some("KeyJ"),
            Keycode::K => Some("KeyK"),
            Keycode::L => Some("KeyL"),
            Keycode::M => Some("KeyM"),
            Keycode::N => Some("KeyN"),
            Keycode::O => Some("KeyO"),
            Keycode::P => Some("KeyP"),
            Keycode::Q => Some("KeyQ"),
            Keycode::R => Some("KeyR"),
            Keycode::S => Some("KeyS"),
            Keycode::T => Some("KeyT"),
            Keycode::U => Some("KeyU"),
            Keycode::V => Some("KeyV"),
            Keycode::W => Some("KeyW"),
            Keycode::X => Some("KeyX"),
            Keycode::Y => Some("KeyY"),
            Keycode::Z => Some("KeyZ"),
            Keycode::Escape => Some("Escape"),
            Keycode::Tab => Some("Tab"),
            Keycode::CapsLock => Some("CapsLock"),
            Keycode::LShift => Some("ShiftLeft"),
            Keycode::RShift => Some("ShiftRight"),
            Keycode::LControl => Some("ControlLeft"),
            Keycode::RControl => Some("ControlRight"),
            Keycode::LAlt => Some("AltLeft"),
            Keycode::RAlt => Some("AltRight"),
            Keycode::Space => Some("Space"),
            Keycode::Up => Some("ArrowUp"),
            Keycode::Right => Some("ArrowRight"),
            Keycode::Down => Some("ArrowDown"),
            Keycode::Left => Some("ArrowLeft"),
            Keycode::Enter => Some("Enter"),
            Keycode::Backspace => Some("Backspace"),
            Keycode::Delete => Some("Delete"),
            Keycode::Home => Some("Home"),
            Keycode::PageUp => Some("PageUp"),
            Keycode::PageDown => Some("PageDown"),
            Keycode::End => Some("End"),
            Keycode::Grave => Some("Backquote"),
            Keycode::Minus => Some("Minus"),
            Keycode::Equal => Some("Equal"),
            Keycode::LeftBracket => Some("BracketLeft"),
            Keycode::RightBracket => Some("BracketRight"),
            Keycode::Comma => Some("Comma"),
            Keycode::Dot => Some("Period"),
            Keycode::Semicolon => Some("Semicolon"),
            Keycode::Apostrophe => Some("Quote"),
            Keycode::Slash => Some("Slash"),
            Keycode::BackSlash => Some("BackSlash"),
            Keycode::Numpad0 => Some("Numpad0"),
            Keycode::Numpad1 => Some("Numpad1"),
            Keycode::Numpad2 => Some("Numpad2"),
            Keycode::Numpad3 => Some("Numpad3"),
            Keycode::Numpad4 => Some("Numpad4"),
            Keycode::Numpad5 => Some("Numpad5"),
            Keycode::Numpad6 => Some("Numpad6"),
            Keycode::Numpad7 => Some("Numpad7"),
            Keycode::Numpad8 => Some("Numpad8"),
            Keycode::Numpad9 => Some("Numpad9"),
            Keycode::NumpadAdd => Some("NumpadAdd"),
            Keycode::NumpadSubtract => Some("NumpadSubtract"),
            Keycode::NumpadMultiply => Some("NumpadMultiply"),
            Keycode::NumpadDivide => Some("NumpadDivide"),
            _ => None,
        }
    }

    /// Neutral name to capture-space key.
    pub fn front_to_dq(code_in_front: &str) -> (r: Option<Keycode>)
        ensures
            r == code_named(code_in_front@),
    {
        if same_text(code_in_front, "F1") {
            Some(Keycode::F1)
        } else if same_text(code_in_front, "F2") {
            Some(Keycode::F2)
        } else if same_text(code_in_front, "F3") {
            Some(Keycode::F3)
        } else if same_text(code_in_front, "F4") {
            Some(Keycode::F4)
        } else if same_text(code_in_front, "F5") {
            Some(Keycode::F5)
        } else if same_text(code_in_front, "F6") {
            Some(Keycode::F6)
        } else if same_text(code_in_front, "F7") {
            Some(Keycode::F7)
        } else if same_text(code_in_front, "F8") {
            Some(Keycode::F8)
        } else if same_text(code_in_front, "F9") {
            Some(Keycode::F9)
        } else if same_text(code_in_front, "F10") {
            Some(Keycode::F10)
        } else if same_text(code_in_front, "F11") {
            Some(Keycode::F11)
        } else if same_text(code_in_front, "F12") {
            Some(Keycode::F12)
        } else if same_text(code_in_front, "Digit0") {
            Some(Keycode::Key0)
        } else if same_text(code_in_front, "Digit1") {
            Some(Keycode::Key1)
        } else if same_text(code_in_front, "Digit2") {
            Some(Keycode::Key2)
        } else if same_text(code_in_front, "Digit3") {
            Some(Keycode::Key3)
        } else if same_text(code_in_front, "Digit4") {
            Some(Keycode::Key4)
        } else if same_text(code_in_front, "Digit5") {
            Some(Keycode::Key5)
        } else if same_text(code_in_front, "Digit6") {
            Some(Keycode::Key6)
        } else if same_text(code_in_front, "Digit7") {
            Some(Keycode::Key7)
        } else if same_text(code_in_front, "Digit8") {
            Some(Keycode::Key8)
        } else if same_text(code_in_front, "Digit9") {
            Some(Keycode::Key9)
        } else if same_text(code_in_front, "KeyA") {
            Some(Keycode::A)
        } else if same_text(code_in_front, "KeyB") {
            Some(Keycode::B)
        } else if same_text(code_in_front, "KeyC") {
            Some(Keycode::C)
        } else if same_text(code_in_front, "KeyD") {
            Some(Keycode::D)
        } else if same_text(code_in_front, "KeyE") {
            Some(Keycode::E)
        } else if same_text(code_in_front, "KeyF") {
            Some(Keycode::F)
        } else if same_text(code_in_front, "KeyG") {
            Some(Keycode::G)
        } else if same_text(code_in_front, "KeyH") {
            Some(Keycode::H)
        } else if same_text(code_in_front, "KeyI") {
            Some(Keycode::I)
        } else if same_text(code_in_front, "KeyJ") {
            Some(Keycode::J)
        } else if same_text(code_in_front, "KeyK") {
            Some(Keycode::K)
        } else if same_text(code_in_front, "KeyL") {
            Some(Keycode::L)
        } else if same_text(code_in_front, "KeyM") {
            Some(Keycode::M)
        } else if same_text(code_in_front, "KeyN") {
            Some(Keycode::N)
        } else if same_text(code_in_front, "KeyO") {
            Some(Keycode::O)
        } else if same_text(code_in_front, "KeyP") {
            Some(Keycode::P)
        } else if same_text(code_in_front, "KeyQ") {
            Some(Keycode::Q)
        } else if same_text(code_in_front, "KeyR") {
            Some(Keycode::R)
        } else if same_text(code_in_front, "KeyS") {
            Some(Keycode::S)
        } else if same_text(code_in_front, "KeyT") {
            Some(Keycode::T)
        } else if same_text(code_in_front, "KeyU") {
            Some(Keycode::U)
        } else if same_text(code_in_front, "KeyV") {
            Some(Keycode::V)
        } else if same_text(code_in_front, "KeyW") {
            Some(Keycode::W)
        } else if same_text(code_in_front, "KeyX") {
            Some(Keycode::X)
        } else if same_text(code_in_front, "KeyY") {
            Some(Keycode::Y)
        } else if same_text(code_in_front, "KeyZ") {
            Some(Keycode::Z)
        } else if same_text(code_in_front, "Escape") {
            Some(Keycode::Escape)
        } else if same_text(code_in_front, "Tab") {
            Some(Keycode::Tab)
        } else if same_text(code_in_front, "CapsLock") {
            Some(Keycode::CapsLock)
        } else if same_text(code_in_front, "ShiftLeft") {
            Some(Keycode::LShift)
        } else if same_text(code_in_front, "ShiftRight") {
            Some(Keycode::RShift)
        } else if same_text(code_in_front, "ControlLeft") {
            Some(Keycode::LControl)
        } else if same_text(code_in_front, "ControlRight") {
            Some(Keycode::RControl)
        } else if same_text(code_in_front, "AltLeft") {
            Some(Keycode::LAlt)
        } else if same_text(code_in_front, "AltRight") {
            Some(Keycode::RAlt)
        } else if same_text(code_in_front, "Space") {
            Some(Keycode::Space)
        } else if same_text(code_in_front, "ArrowUp") {
            Some(Keycode::Up)
        } else if same_text(code_in_front, "ArrowRight") {
            Some(Keycode::Right)
        } else if same_text(code_in_front, "ArrowDown") {
            Some(Keycode::Down)
        } else if same_text(code_in_front, "ArrowLeft") {
            Some(Keycode::Left)
        } else if same_text(code_in_front, "Enter") {
            Some(Keycode::Enter)
        } else if same_text(code_in_front, "Backspace") {
            Some(Keycode::Backspace)
        } else if same_text(code_in_front, "Delete") {
            Some(Keycode::Delete)
        } else if same_text(code_in_front, "Home") {
            Some(Keycode::Home)
        } else if same_text(code_in_front, "PageUp") {
            Some(Keycode::PageUp)
        } else if same_text(code_in_front, "PageDown") {
            Some(Keycode::PageDown)
        } else if same_text(code_in_front, "End") {
            Some(Keycode::End)
        } else if same_text(code_in_front, "Backquote") {
            Some(Keycode::Grave)
        } else if same_text(code_in_front, "Minus") {
            Some(Keycode::Minus)
        } else if same_text(code_in_front, "Equal") {
            Some(Keycode::Equal)
        } else if same_text(code_in_front, "BracketLeft") {
            Some(Keycode::LeftBracket)
        } else if same_text(code_in_front, "BracketRight") {
            Some(Keycode::RightBracket)
        } else if same_text(code_in_front, "Comma") {
            Some(Keycode::Comma)
        } else if same_text(code_in_front, "Period") {
            Some(Keycode::Dot)
        } else if same_text(code_in_front, "Semicolon") {
            Some(Keycode::Semicolon)
        } else if same_text(code_in_front, "Quote") {
            Some(Keycode::Apostrophe)
        } else if same_text(code_in_front, "Slash") {
            Some(Keycode::Slash)
        } else if same_text(code_in_front, "BackSlash") {
            Some(Keycode::BackSlash)
        } else if same_text(code_in_front, "Numpad0") {
            Some(Keycode::Numpad0)
        } else if same_text(code_in_front, "Numpad1") {
            Some(Keycode::Numpad1)
        } else if same_text(code_in_front, "Numpad2") {
            Some(Keycode::Numpad2)
        } else if same_text(code_in_front, "Numpad3") {
            Some(Keycode::Numpad3)
        } else if same_text(code_in_front, "Numpad4") {
            Some(Keycode::Numpad4)
        } else if same_text(code_in_front, "Numpad5") {
            Some(Keycode::Numpad5)
        } else if same_text(code_in_front, "Numpad6") {
            Some(Keycode::Numpad6)
        } else if same_text(code_in_front, "Numpad7") {
            Some(Keycode::Numpad7)
        } else if same_text(code_in_front, "Numpad8") {
            Some(Keycode::Numpad8)
        } else if same_text(code_in_front, "Numpad9") {
            Some(Keycode::Numpad9)
        } else if same_text(code_in_front, "NumpadAdd") {
            Some(Keycode::NumpadAdd)
        } else if same_text(code_in_front, "NumpadSubtract") {
            Some(Keycode::NumpadSubtract)
        } else if same_text(code_in_front, "NumpadMultiply") {
            Some(Keycode::NumpadMultiply)
        } else if same_text(code_in_front, "NumpadDivide") {
            Some(Keycode::NumpadDivide)
        } else {
            None
        }
    }

    /// Injection-space key to neutral name.
    pub fn enigo_to_front(key_in_enigo: Key) -> (r: Option<&'static str>)
        ensures
            opt_str_view(r) == name_of_key(key_in_enigo),
    {
        match Self::enigo_to_dq(key_in_enigo) {
            Some(code) => Self::dq_to_front(code),
            None => None,
        }
    }

    /// Neutral name to injection-space key.
    pub fn front_to_enigo(code_in_front: &str) -> (r: Option<Key>)
        ensures
            r == key_named(code_in_front@),
    {
        match Self::front_to_dq(code_in_front) {
            Some(code) => Self::dq_to_enigo(code),
            None => None,
        }
    }
}

/// A neutral name read back gives the key it was written for: no two
/// capture-space keys share a name.
pub proof fn lemma_name_round_trip(code: Keycode)
    ensures
        name_of(code) matches Some(name) ==> code_named(name) == Some(code),
{
    lemma_names_spelled();
}

/// A key read from a neutral name is one that the name was written for.
pub proof fn lemma_code_named_has_that_name(name: Seq<char>)
    ensures
        code_named(name) matches Some(code) ==> name_of(code) == Some(name),
{
}

/// Where several capture-space keys share an injection-space key, going back
/// gives one of them: one that is replayed as that same key.
pub proof fn lemma_capture_of_is_a_preimage(key: Key)
    ensures
        capture_of(key) matches Some(code) ==> injection_of(code) == Some(key),
{
}

/// Every injection-space key that a capture-space key is replayed as can be
/// translated back.
pub proof fn lemma_injection_image_goes_back(code: Keycode)
    ensures
        injection_of(code) matches Some(key) ==> capture_of(key).is_some(),
{
}

/// Every capture-space key that can be replayed also has a neutral name.
pub proof fn lemma_replayable_has_name(code: Keycode)
    ensures
        injection_of(code).is_some() ==> name_of(code).is_some(),
{
}

/// The injection-space button and the direction of a recorded mouse event.
pub open spec fn button_action(ev_name: MouseEventName) -> (MouseButton, bool) {
    match ev_name {
        MouseEventName::LeftDown => (MouseButton::Left, true),
        MouseEventName::LeftUp => (MouseButton::Left, false),
        MouseEventName::RightDown => (MouseButton::Right, true),
        MouseEventName::RightUp => (MouseButton::Right, false),
        MouseEventName::MidDown => (MouseButton::Middle, true),
        MouseEventName::MidUp => (MouseButton::Middle, false),
    }
}

/// The injection-space button for a capture-space button number.
pub open spec fn button_of_code(button: ButtonCode) -> Option<MouseButton> {
    if button == 1 {
        Some(MouseButton::Left)
    } else if button == 2 {
        Some(MouseButton::Right)
    } else if button == 3 {
        Some(MouseButton::Middle)
    } else {
        None
    }
}

/// The capture-space button number for an injection-space button.
pub open spec fn code_of_button(button: MouseButton) -> Option<ButtonCode> {
    match button {
        MouseButton::Left => Some(1),
        MouseButton::Right => Some(2),
        MouseButton::Middle => Some(3),
        _ => None,
    }
}

/// The neutral button number (0 left, 1 middle, 2 right) of a capture-space
/// button number.
pub open spec fn front_of_code(button: ButtonCode) -> Option<usize> {
    if button == 1 {
        Some(0)
    } else if button == 2 {
        Some(2)
    } else if button == 3 {
        Some(1)
    } else {
        None
    }
}

/// The capture-space button number of a neutral button number.
pub open spec fn code_of_front(button: usize) -> Option<ButtonCode> {
    if button == 0 {
        Some(1)
    } else if button == 2 {
        Some(2)
    } else if button == 1 {
        Some(3)
    } else {
        None
    }
}

/// Translation between the mouse button spaces.
pub struct MouseMapper {}

impl MouseMapper {
    /// The injection-space button and whether it goes down (`true`) or up.
    pub fn parse_ev_name(ev_name: MouseEventName) -> (r: (MouseButton, bool))
        ensures
            r == button_action(ev_name),
    {
        match ev_name {
            MouseEventName::LeftDown => (MouseButton::Left, true),
            MouseEventName::LeftUp => (MouseButton::Left, false),
            MouseEventName::RightDown => (MouseButton::Right, true),
            MouseEventName::RightUp => (MouseButton::Right, false),
            MouseEventName::MidDown => (MouseButton::Middle, true),
            MouseEventName::MidUp => (MouseButton::Middle, false),
        }
    }

    /// Capture-space button number to injection-space button.
    pub fn dq_to_enigo(button_in_dq: ButtonCode) -> (r: Option<MouseButton>)
        ensures
            r == button_of_code(button_in_dq),
    {
        if button_in_dq == 1 {
            Some(MouseButton::Left)
        } else if button_in_dq == 2 {
            Some(MouseButton::Right)
        } else if button_in_dq == 3 {
            Some(MouseButton::Middle)
        } else {
            None
        }
    }

    /// Injection-space button to capture-space button number.
    pub fn enigo_to_dq(button_in_enigo: MouseButton) -> (r: Option<ButtonCode>)
        ensures
            r == code_of_button(button_in_enigo),
    {
        match button_in_enigo {
            MouseButton::Left => Some(1),
            MouseButton::Right => Some(2),
            MouseButton::Middle => Some(3),
            _ => None,
        }
    }

    /// Capture-space button number to neutral button number.
    pub fn dq_to_front(button_in_dq: ButtonCode) -> (r: Option<usize>)
        ensures
            r == front_of_code(button_in_dq),
    {
        if button_in_dq == 1 {
            Some(0)
        } else if button_in_dq == 2 {
            Some(2)
        } else if button_in_dq == 3 {
            Some(1)
        } else {
            None
        }
    }

    /// Neutral button number to capture-space button number.
    pub fn front_to_dq(code_in_front: usize) -> (r: Option<ButtonCode>)
        ensures
            r == code_of_front(code_in_front),
    {
        if code_in_front == 0 {
            Some(1)
        } else if code_in_front == 2 {
            Some(2)
        } else if code_in_front == 1 {
            Some(3)
        } else {
            None
        }
    }

    /// Injection-space button to neutral button number.
    pub fn enigo_to_front(button_in_enigo: MouseButton) -> (r: Option<usize>)
        ensures
            r == (match code_of_button(button_in_enigo) {
                Some(code) => front_of_code(code),
                None => None,
            }),
    {
        match Self::enigo_to_dq(button_in_enigo) {
            Some(code) => Self::dq_to_front(code),
            None => None,
        }
    }

    /// Neutral button number to injection-space button.
    pub fn front_to_enigo(code_in_front: usize) -> (r: Option<MouseButton>)
        ensures
            r == (match code_of_front(code_in_front) {
                Some(code) => button_of_code(code),
                None => None,
            }),
    {
        match Self::front_to_dq(code_in_front) {
            Some(code) => Self::dq_to_enigo(code),
            None => None,
        }
    }
}

/// Each of the three button spaces maps onto the others one for one, on the
/// left, right and middle buttons.
pub proof fn lemma_button_round_trips(button: ButtonCode, front: usize, key: MouseButton)
    ensures
        front_of_code(button) matches Some(f) ==> code_of_front(f) == Some(button),
        code_of_front(front) matches Some(b) ==> front_of_code(b) == Some(front),
        button_of_code(button) matches Some(k) ==> code_of_button(k) == Some(button),
        code_of_button(key) matches Some(b) ==> button_of_code(b) == Some(key),
{
}

} // verus!
