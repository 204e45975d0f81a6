use vstd::prelude::*;

use crate::error::{AppError, AppErrorModel};
use crate::input_pipeline::mapping::{PenInjectionCommand, PenInjectionCommandKind};
use crate::shortcut::domain::MouseButton;
use crate::shortcut::keys::KeyCode;

verus! {

pub const K_CG_EVENT_LEFT_MOUSE_DOWN: u32 = 1;

pub const K_CG_EVENT_LEFT_MOUSE_UP: u32 = 2;

pub const K_CG_EVENT_RIGHT_MOUSE_DOWN: u32 = 3;

pub const K_CG_EVENT_RIGHT_MOUSE_UP: u32 = 4;

pub const K_CG_EVENT_MOUSE_MOVED: u32 = 5;

pub const K_CG_EVENT_LEFT_MOUSE_DRAGGED: u32 = 6;

pub const K_CG_MOUSE_BUTTON_LEFT: u32 = 0;

pub const K_CG_MOUSE_BUTTON_RIGHT: u32 = 1;

/// The macOS virtual key code of `key`, for the keys macOS has.
pub open spec fn spec_macos_key_code(key: KeyCode) -> Option<u16> {
    match key {
        KeyCode::Alt => Some(58),
        KeyCode::AltLeft => Some(58),
        KeyCode::AltRight => Some(61),
        KeyCode::Space => Some(49),
        KeyCode::Shift => Some(56),
        KeyCode::ShiftLeft => Some(56),
        KeyCode::ShiftRight => Some(60),
        KeyCode::Control => Some(59),
        KeyCode::ControlLeft => Some(59),
        KeyCode::ControlRight => Some(62),
        KeyCode::MetaLeft => Some(55),
        KeyCode::MetaRight => Some(54),
        KeyCode::Enter => Some(36),
        KeyCode::Tab => Some(48),
        KeyCode::Escape => Some(53),
        KeyCode::Backspace => Some(51),
        KeyCode::Delete => Some(117),
        KeyCode::Insert => Some(114),
        KeyCode::Home => Some(115),
        KeyCode::End => Some(119),
        KeyCode::PageUp => Some(116),
        KeyCode::PageDown => Some(121),
        KeyCode::ArrowUp => Some(126),
        KeyCode::ArrowDown => Some(125),
        KeyCode::ArrowLeft => Some(123),
        KeyCode::ArrowRight => Some(124),
        KeyCode::CapsLock => Some(57),
        KeyCode::NumLock => Some(71),
        KeyCode::A => Some(0),
        KeyCode::B => Some(11),
        KeyCode::C => Some(8),
        KeyCode::D => Some(2),
        KeyCode::E => Some(14),
        KeyCode::F => Some(3),
        KeyCode::G => Some(5),
        KeyCode::H => Some(4),
        KeyCode::I => Some(34),
        KeyCode::J => Some(38),
        KeyCode::K => Some(40),
        KeyCode::L => Some(37),
        KeyCode::M => Some(46),
        KeyCode::N => Some(45),
        KeyCode::O => Some(31),
        KeyCode::P => Some(35),
        KeyCode::Q => Some(12),
        KeyCode::R => Some(15),
        KeyCode::S => Some(1),
        KeyCode::T => Some(17),
        KeyCode::U => Some(32),
        KeyCode::V => Some(9),
        KeyCode::W => Some(13),
        KeyCode::X => Some(7),
        KeyCode::Y => Some(16),
        KeyCode::Z => Some(6),
        KeyCode::Digit0 => Some(29),
        KeyCode::Digit1 => Some(18),
        KeyCode::Digit2 => Some(19),
        KeyCode::Digit3 => Some(20),
        KeyCode::Digit4 => Some(21),
        KeyCode::Digit5 => Some(23),
        KeyCode::Digit6 => Some(22),
        KeyCode::Digit7 => Some(26),
        KeyCode::Digit8 => Some(28),
        KeyCode::Digit9 => Some(25),
        KeyCode::BracketLeft => Some(33),
        KeyCode::BracketRight => Some(30),
        KeyCode::Backquote => Some(50),
        KeyCode::Minus => Some(27),
        KeyCode::Equal => Some(24),
        KeyCode::Backslash => Some(42),
        KeyCode::Semicolon => Some(41),
        KeyCode::Quote => Some(39),
        KeyCode::Comma => Some(43),
        KeyCode::Period => Some(47),
        KeyCode::Slash => Some(44),
        KeyCode::F1 => Some(122),
        KeyCode::F2 => Some(120),
        KeyCode::F3 => Some(99),
        KeyCode::F4 => Some(118),
        KeyCode::F5 => Some(96),
        KeyCode::F6 => Some(97),
        KeyCode::F7 => Some(98),
        KeyCode::F8 => Some(100),
        KeyCode::F9 => Some(101),
        KeyCode::F10 => Some(109),
        KeyCode::F11 => Some(103),
        KeyCode::F12 => Some(111),
        KeyCode::F13 => Some(105),
        KeyCode::F14 => Some(107),
        KeyCode::F15 => Some(113),
        KeyCode::F16 => Some(106),
        KeyCode::F17 => Some(64),
        KeyCode::F18 => Some(79),
        KeyCode::F19 => Some(80),
        KeyCode::F20 => Some(90),
        KeyCode::Numpad0 => Some(82),
        KeyCode::Numpad1 => Some(83),
        KeyCode::Numpad2 => Some(84),
        KeyCode::Numpad3 => Some(85),
        KeyCode::Numpad4 => Some(86),
        KeyCode::Numpad5 => Some(87),
        KeyCode::Numpad6 => Some(88),
        KeyCode::Numpad7 => Some(89),
        KeyCode::Numpad8 => Some(91),
        KeyCode::Numpad9 => Some(92),
        KeyCode::NumpadAdd => Some(69),
        KeyCode::NumpadSubtract => Some(78),
        KeyCode::NumpadMultiply => Some(67),
        KeyCode::NumpadDivide => Some(75),
        KeyCode::NumpadDecimal => Some(65),
        KeyCode::NumpadEnter => Some(76),
        KeyCode::VolumeMute => Some(74),
        KeyCode::VolumeDown => Some(73),
        KeyCode::VolumeUp => Some(72),
        _ => None,
    }
}

/// The macOS virtual key code of `key`; a key macOS lacks is an error naming it.
pub fn macos_key_code(key: KeyCode) -> (r: Result<u16, AppError>)
    ensures
        match spec_macos_key_code(key) {
            Some(code) => r == Ok::<u16, AppError>(code),
            None => r matches Err(e) && e@ == (AppErrorModel::UnsupportedShortcutKey {
                platform: "macOS"@,
                key: key.spec_label()@,
            }),
        },
{
    let code: u16 = match key {
        KeyCode::Alt => 58,
        KeyCode::AltLeft => 58,
        KeyCode::AltRight => 61,
        KeyCode::Space => 49,
        KeyCode::Shift => 56,
        KeyCode::ShiftLeft => 56,
        KeyCode::ShiftRight => 60,
        KeyCode::Control => 59,
        KeyCode::ControlLeft => 59,
        KeyCode::ControlRight => 62,
        KeyCode::MetaLeft => 55,
        KeyCode::MetaRight => 54,
        KeyCode::Enter => 36,
        KeyCode::Tab => 48,
        KeyCode::Escape => 53,
        KeyCode::Backspace => 51,
        KeyCode::Delete => 117,
        KeyCode::Insert => 114,
        KeyCode::Home => 115,
        KeyCode::End => 119,
        KeyCode::PageUp => 116,
        KeyCode::PageDown => 121,
        KeyCode::ArrowUp => 126,
        KeyCode::ArrowDown => 125,
        KeyCode::ArrowLeft => 123,
        KeyCode::ArrowRight => 124,
        KeyCode::CapsLock => 57,
        KeyCode::NumLock => 71,
        KeyCode::A => 0,
        KeyCode::B => 11,
        KeyCode::C => 8,
        KeyCode::D => 2,
        KeyCode::E => 14,
        KeyCode::F => 3,
        KeyCode::G => 5,
        KeyCode::H => 4,
        KeyCode::I => 34,
        KeyCode::J => 38,
        KeyCode::K => 40,
        KeyCode::L => 37,
        KeyCode::M => 46,
        KeyCode::N => 45,
        KeyCode::O => 31,
        KeyCode::P => 35,
        KeyCode::Q => 12,
        KeyCode::R => 15,
        KeyCode::S => 1,
        KeyCode::T => 17,
        KeyCode::U => 32,
        KeyCode::V => 9,
        KeyCode::W => 13,
        KeyCode::X => 7,
        KeyCode::Y => 16,
        KeyCode::Z => 6,
        KeyCode::Digit0 => 29,
        KeyCode::Digit1 => 18,
        KeyCode::Digit2 => 19,
        KeyCode::Digit3 => 20,
        KeyCode::Digit4 => 21,
        KeyCode::Digit5 => 23,
        KeyCode::Digit6 => 22,
        KeyCode::Digit7 => 26,
        KeyCode::Digit8 => 28,
        KeyCode::Digit9 => 25,
        KeyCode::BracketLeft => 33,
        KeyCode::BracketRight => 30,
        KeyCode::Backquote => 50,
        KeyCode::Minus => 27,
        KeyCode::Equal => 24,
        KeyCode::Backslash => 42,
        KeyCode::Semicolon => 41,
        KeyCode::Quote => 39,
        KeyCode::Comma => 43,
        KeyCode::Period => 47,
        KeyCode::Slash => 44,
        KeyCode::F1 => 122,
        KeyCode::F2 => 120,
        KeyCode::F3 => 99,
        KeyCode::F4 => 118,
        KeyCode::F5 => 96,
        KeyCode::F6 => 97,
        KeyCode::F7 => 98,
        KeyCode::F8 => 100,
        KeyCode::F9 => 101,
        KeyCode::F10 => 109,
        KeyCode::F11 => 103,
        KeyCode::F12 => 111,
        KeyCode::F13 => 105,
        KeyCode::F14 => 107,
        KeyCode::F15 => 113,
        KeyCode::F16 => 106,
        KeyCode::F17 => 64,
        KeyCode::F18 => 79,
        KeyCode::F19 => 80,
        KeyCode::F20 => 90,
        KeyCode::Numpad0 => 82,
        KeyCode::Numpad1 => 83,
        KeyCode::Numpad2 => 84,
        KeyCode::Numpad3 => 85,
        KeyCode::Numpad4 => 86,
        KeyCode::Numpad5 => 87,
        KeyCode::Numpad6 => 88,
        KeyCode::Numpad7 => 89,
        KeyCode::Numpad8 => 91,
        KeyCode::Numpad9 => 92,
        KeyCode::NumpadAdd => 69,
        KeyCode::NumpadSubtract => 78,
        KeyCode::NumpadMultiply => 67,
        KeyCode::NumpadDivide => 75,
        KeyCode::NumpadDecimal => 65,
        KeyCode::NumpadEnter => 76,
        KeyCode::VolumeMute => 74,
        KeyCode::VolumeDown => 73,
        KeyCode::VolumeUp => 72,
        _ => {
            return Err(AppError::UnsupportedShortcutKey { platform: "macOS", key: key.label() });
        },
    };
    Ok(code)
}

pub open spec fn spec_mouse_event_type(button: MouseButton, down: bool) -> u32 {
    match (button, down) {
        (MouseButton::Left, true) => K_CG_EVENT_LEFT_MOUSE_DOWN,
        (MouseButton::Left, false) => K_CG_EVENT_LEFT_MOUSE_UP,
        (MouseButton::Right, true) => K_CG_EVENT_RIGHT_MOUSE_DOWN,
        (MouseButton::Right, false) => K_CG_EVENT_RIGHT_MOUSE_UP,
    }
}

/// The CoreGraphics event type of a button press or release.
pub fn mouse_event_type(button: MouseButton, down: bool) -> (r: u32)
    ensures
        r == spec_mouse_event_type(button, down),
{
    match (button, down) {
        (MouseButton::Left, true) => K_CG_EVENT_LEFT_MOUSE_DOWN,
        (MouseButton::Left, false) => K_CG_EVENT_LEFT_MOUSE_UP,
        (MouseButton::Right, true) => K_CG_EVENT_RIGHT_MOUSE_DOWN,
        (MouseButton::Right, false) => K_CG_EVENT_RIGHT_MOUSE_UP,
    }
}

/// The CoreGraphics number of a mouse button.
pub fn mouse_button(button: MouseButton) -> (r: u32)
    ensures
        r == (match button {
            MouseButton::Left => K_CG_MOUSE_BUTTON_LEFT,
            MouseButton::Right => K_CG_MOUSE_BUTTON_RIGHT,
        }),
{
    match button {
        MouseButton::Left => K_CG_MOUSE_BUTTON_LEFT,
        MouseButton::Right => K_CG_MOUSE_BUTTON_RIGHT,
    }
}

/// `a / 120` rounded toward zero, as Rust divides.
pub open spec fn notches_toward_zero(a: i32) -> int {
    if a >= 0 {
        a / 120
    } else {
        -((-a) / 120)
    }
}

/// The scroll in whole lines for a wheel delta in Windows units of 120 per
/// notch; a delta under one notch still scrolls one line its way.
pub open spec fn spec_wheel_line_delta(delta: i32) -> i32 {
    let lines = notches_toward_zero(delta);
    if lines == 0 {
        if delta > 0 {
            1i32
        } else if delta < 0 {
            -1i32
        } else {
            0i32
        }
    } else {
        lines as i32
    }
}

pub fn wheel_line_delta(delta: i32) -> (r: i32)
    ensures
        r == spec_wheel_line_delta(delta),
{
    let lines: i32 = if delta >= 0 {
        delta / 120
    } else {
        let magnitude: i64 = -(delta as i64);
        -((magnitude / 120) as i32)
    };
    if lines == 0 {
        if delta > 0 {
            1
        } else if delta < 0 {
            -1
        } else {
            0
        }
    } else {
        lines
    }
}

/// The CoreGraphics event type of a pen sample, given whether the pen was
/// already touching.
pub open spec fn spec_pen_event_type(was_contact: bool, command: PenInjectionCommand) -> u32 {
    match command.kind {
        PenInjectionCommandKind::Down => K_CG_EVENT_LEFT_MOUSE_DOWN,
        PenInjectionCommandKind::Up => K_CG_EVENT_LEFT_MOUSE_UP,
        PenInjectionCommandKind::Cancel => K_CG_EVENT_LEFT_MOUSE_UP,
        PenInjectionCommandKind::Update => if was_contact || command.is_contact {
            K_CG_EVENT_LEFT_MOUSE_DRAGGED
        } else {
            K_CG_EVENT_MOUSE_MOVED
        },
    }
}

pub fn pen_event_type(was_contact: bool, command: &PenInjectionCommand) -> (r: u32)
    ensures
        r == spec_pen_event_type(was_contact, *command),
{
    match command.kind {
        PenInjectionCommandKind::Down => K_CG_EVENT_LEFT_MOUSE_DOWN,
        PenInjectionCommandKind::Up => K_CG_EVENT_LEFT_MOUSE_UP,
        PenInjectionCommandKind::Cancel => K_CG_EVENT_LEFT_MOUSE_UP,
        PenInjectionCommandKind::Update => if was_contact || command.is_contact {
            K_CG_EVENT_LEFT_MOUSE_DRAGGED
        } else {
            K_CG_EVENT_MOUSE_MOVED
        },
    }
}


/// The key itself, except that a modifier named without a side is its left one.
pub open spec fn sided_key(key: KeyCode) -> KeyCode {
    match key {
        KeyCode::Alt => KeyCode::AltLeft,
        KeyCode::Shift => KeyCode::ShiftLeft,
        KeyCode::Control => KeyCode::ControlLeft,
        _ => key,
    }
}

/// The key that posts the macOS key code `code`.
spec fn key_for_macos_code(code: u16) -> Option<KeyCode> {
    if code == 58 {
        Some(KeyCode::AltLeft)
    } else
    if code == 61 {
        Some(KeyCode::AltRight)
    } else
    if code == 49 {
        Some(KeyCode::Space)
    } else
    if code == 56 {
        Some(KeyCode::ShiftLeft)
    } else
    if code == 60 {
        Some(KeyCode::ShiftRight)
    } else
    if code == 59 {
        Some(KeyCode::ControlLeft)
    } else
    if code == 62 {
        Some(KeyCode::ControlRight)
    } else
    if code == 55 {
        Some(KeyCode::MetaLeft)
    } else
    if code == 54 {
        Some(KeyCode::MetaRight)
    } else
    if code == 36 {
        Some(KeyCode::Enter)
    } else
    if code == 48 {
        Some(KeyCode::Tab)
    } else
    if code == 53 {
        Some(KeyCode::Escape)
    } else
    if code == 51 {
        Some(KeyCode::Backspace)
    } else
    if code == 117 {
        Some(KeyCode::Delete)
    } else
    if code == 114 {
        Some(KeyCode::Insert)
    } else
    if code == 115 {
        Some(KeyCode::Home)
    } else
    if code == 119 {
        Some(KeyCode::End)
    } else
    if code == 116 {
        Some(KeyCode::PageUp)
    } else
    if code == 121 {
        Some(KeyCode::PageDown)
    } else
    if code == 126 {
        Some(KeyCode::ArrowUp)
    } else
    if code == 125 {
        Some(KeyCode::ArrowDown)
    } else
    if code == 123 {
        Some(KeyCode::ArrowLeft)
    } else
    if code == 124 {
        Some(KeyCode::ArrowRight)
    } else
    if code == 57 {
        Some(KeyCode::CapsLock)
    } else
    if code == 71 {
        Some(KeyCode::NumLock)
    } else
    if code == 0 {
        Some(KeyCode::A)
    } else
    if code == 11 {
        Some(KeyCode::B)
    } else
    if code == 8 {
        Some(KeyCode::C)
    } else
    if code == 2 {
        Some(KeyCode::D)
    } else
    if code == 14 {
        Some(KeyCode::E)
    } else
    if code == 3 {
        Some(KeyCode::F)
    } else
    if code == 5 {
        Some(KeyCode::G)
    } else
    if code == 4 {
        Some(KeyCode::H)
    } else
    if code == 34 {
        Some(KeyCode::I)
    } else
    if code == 38 {
        Some(KeyCode::J)
    } else
    if code == 40 {
        Some(KeyCode::K)
    } else
    if code == 37 {
        Some(KeyCode::L)
    } else
    if code == 46 {
        Some(KeyCode::M)
    } else
    if code == 45 {
        Some(KeyCode::N)
    } else
    if code == 31 {
        Some(KeyCode::O)
    } else
    if code == 35 {
        Some(KeyCode::P)
    } else
    if code == 12 {
        Some(KeyCode::Q)
    } else
    if code == 15 {
        Some(KeyCode::R)
    } else
    if code == 1 {
        Some(KeyCode::S)
    } else
    if code == 17 {
        Some(KeyCode::T)
    } else
    if code == 32 {
        Some(KeyCode::U)
    } else
    if code == 9 {
        Some(KeyCode::V)
    } else
    if code == 13 {
        Some(KeyCode::W)
    } else
    if code == 7 {
        Some(KeyCode::X)
    } else
    if code == 16 {
        Some(KeyCode::Y)
    } else
    if code == 6 {
        Some(KeyCode::Z)
    } else
    if code == 29 {
        Some(KeyCode::Digit0)
    } else
    if code == 18 {
        Some(KeyCode::Digit1)
    } else
    if code == 19 {
        Some(KeyCode::Digit2)
    } else
    if code == 20 {
        Some(KeyCode::Digit3)
    } else
    if code == 21 {
        Some(KeyCode::Digit4)
    } else
    if code == 23 {
        Some(KeyCode::Digit5)
    } else
    if code == 22 {
        Some(KeyCode::Digit6)
    } else
    if code == 26 {
        Some(KeyCode::Digit7)
    } else
    if code == 28 {
        Some(KeyCode::Digit8)
    } else
    if code == 25 {
        Some(KeyCode::Digit9)
    } else
    if code == 33 {
        Some(KeyCode::BracketLeft)
    } else
    if code == 30 {
        Some(KeyCode::BracketRight)
    } else
    if code == 50 {
        Some(KeyCode::Backquote)
    } else
    if code == 27 {
        Some(KeyCode::Minus)
    } else
    if code == 24 {
        Some(KeyCode::Equal)
    } else
    if code == 42 {
        Some(KeyCode::Backslash)
    } else
    if code == 41 {
        Some(KeyCode::Semicolon)
    } else
    if code == 39 {
        Some(KeyCode::Quote)
    } else
    if code == 43 {
        Some(KeyCode::Comma)
    } else
    if code == 47 {
        Some(KeyCode::Period)
    } else
    if code == 44 {
        Some(KeyCode::Slash)
    } else
    if code == 122 {
        Some(KeyCode::F1)
    } else
    if code == 120 {
        Some(KeyCode::F2)
    } else
    if code == 99 {
        Some(KeyCode::F3)
    } else
    if code == 118 {
        Some(KeyCode::F4)
    } else
    if code == 96 {
        Some(KeyCode::F5)
    } else
    if code == 97 {
        Some(KeyCode::F6)
    } else
    if code == 98 {
        Some(KeyCode::F7)
    } else
    if code == 100 {
        Some(KeyCode::F8)
    } else
    if code == 101 {
        Some(KeyCode::F9)
    } else
    if code == 109 {
        Some(KeyCode::F10)
    } else
    if code == 103 {
        Some(KeyCode::F11)
    } else
    if code == 111 {
        Some(KeyCode::F12)
    } else
    if code == 105 {
        Some(KeyCode::F13)
    } else
    if code == 107 {
        Some(KeyCode::F14)
    } else
    if code == 113 {
        Some(KeyCode::F15)
    } else
    if code == 106 {
        Some(KeyCode::F16)
    } else
    if code == 64 {
        Some(KeyCode::F17)
    } else
    if code == 79 {
        Some(KeyCode::F18)
    } else
    if code == 80 {
        Some(KeyCode::F19)
    } else
    if code == 90 {
        Some(KeyCode::F20)
    } else
    if code == 82 {
        Some(KeyCode::Numpad0)
    } else
    if code == 83 {
        Some(KeyCode::Numpad1)
    } else
    if code == 84 {
        Some(KeyCode::Numpad2)
    } else
    if code == 85 {
        Some(KeyCode::Numpad3)
    } else
    if code == 86 {
        Some(KeyCode::Numpad4)
    } else
    if code == 87 {
        Some(KeyCode::Numpad5)
    } else
    if code == 88 {
        Some(KeyCode::Numpad6)
    } else
    if code == 89 {
        Some(KeyCode::Numpad7)
    } else
    if code == 91 {
        Some(KeyCode::Numpad8)
    } else
    if code == 92 {
        Some(KeyCode::Numpad9)
    } else
    if code == 69 {
        Some(KeyCode::NumpadAdd)
    } else
    if code == 78 {
        Some(KeyCode::NumpadSubtract)
    } else
    if code == 67 {
        Some(KeyCode::NumpadMultiply)
    } else
    if code == 75 {
        Some(KeyCode::NumpadDivide)
    } else
    if code == 65 {
        Some(KeyCode::NumpadDecimal)
    } else
    if code == 76 {
        Some(KeyCode::NumpadEnter)
    } else
    if code == 74 {
        Some(KeyCode::VolumeMute)
    } else
    if code == 73 {
        Some(KeyCode::VolumeDown)
    } else
    if code == 72 {
        Some(KeyCode::VolumeUp)
    } else {
        None
    }
}

/// A key that macOS can post is named back by its code.
proof fn lemma_macos_code_names_the_key(key: KeyCode)
    requires
        spec_macos_key_code(key) is Some,
    ensures
        key_for_macos_code(spec_macos_key_code(key)->0) == Some(sided_key(key)),
{
    match key {
        KeyCode::Alt | KeyCode::AltLeft | KeyCode::AltRight | KeyCode::Space | KeyCode::Shift | KeyCode::ShiftLeft | KeyCode::ShiftRight | KeyCode::Control | KeyCode::ControlLeft | KeyCode::ControlRight | KeyCode::MetaLeft | KeyCode::MetaRight | KeyCode::Enter | KeyCode::Tab | KeyCode::Escape | KeyCode::Backspace | KeyCode::Delete | KeyCode::Insert | KeyCode::Home | KeyCode::End => lemma_macos_code_names_the_key_0(key),
        KeyCode::PageUp | KeyCode::PageDown | KeyCode::ArrowUp | KeyCode::ArrowDown | KeyCode::ArrowLeft | KeyCode::ArrowRight | KeyCode::CapsLock | KeyCode::NumLock | KeyCode::A | KeyCode::B | KeyCode::C | KeyCode::D | KeyCode::E | KeyCode::F | KeyCode::G | KeyCode::H | KeyCode::I | KeyCode::J | KeyCode::K | KeyCode::L => lemma_macos_code_names_the_key_1(key),
        KeyCode::M | KeyCode::N | KeyCode::O | KeyCode::P | KeyCode::Q | KeyCode::R | KeyCode::S | KeyCode::T | KeyCode::U | KeyCode::V | KeyCode::W | KeyCode::X | KeyCode::Y | KeyCode::Z | KeyCode::Digit0 | KeyCode::Digit1 | KeyCode::Digit2 | KeyCode::Digit3 | KeyCode::Digit4 | KeyCode::Digit5 => lemma_macos_code_names_the_key_2(key),
        KeyCode::Digit6 | KeyCode::Digit7 | KeyCode::Digit8 | KeyCode::Digit9 | KeyCode::BracketLeft | KeyCode::BracketRight | KeyCode::Backquote | KeyCode::Minus | KeyCode::Equal | KeyCode::Backslash | KeyCode::Semicolon | KeyCode::Quote | KeyCode::Comma | KeyCode::Period | KeyCode::Slash | KeyCode::F1 | KeyCode::F2 | KeyCode::F3 | KeyCode::F4 | KeyCode::F5 => lemma_macos_code_names_the_key_3(key),
        KeyCode::F6 | KeyCode::F7 | KeyCode::F8 | KeyCode::F9 | KeyCode::F10 | KeyCode::F11 | KeyCode::F12 | KeyCode::F13 | KeyCode::F14 | KeyCode::F15 | KeyCode::F16 | KeyCode::F17 | KeyCode::F18 | KeyCode::F19 | KeyCode::F20 | KeyCode::Numpad0 | KeyCode::Numpad1 | KeyCode::Numpad2 | KeyCode::Numpad3 | KeyCode::Numpad4 => lemma_macos_code_names_the_key_4(key),
        KeyCode::Numpad5 | KeyCode::Numpad6 | KeyCode::Numpad7 | KeyCode::Numpad8 | KeyCode::Numpad9 | KeyCode::NumpadAdd | KeyCode::NumpadSubtract | KeyCode::NumpadMultiply | KeyCode::NumpadDivide | KeyCode::NumpadDecimal | KeyCode::NumpadEnter | KeyCode::VolumeMute | KeyCode::VolumeDown | KeyCode::VolumeUp => lemma_macos_code_names_the_key_5(key),
        _ => {},
    }
}

proof fn lemma_macos_code_names_the_key_0(key: KeyCode)
    requires
        key == KeyCode::Alt || key == KeyCode::AltLeft || key == KeyCode::AltRight || key == KeyCode::Space || key == KeyCode::Shift || key == KeyCode::ShiftLeft || key == KeyCode::ShiftRight || key == KeyCode::Control || key == KeyCode::ControlLeft || key == KeyCode::ControlRight || key == KeyCode::MetaLeft || key == KeyCode::MetaRight || key == KeyCode::Enter || key == KeyCode::Tab || key == KeyCode::Escape || key == KeyCode::Backspace || key == KeyCode::Delete || key == KeyCode::Insert || key == KeyCode::Home || key == KeyCode::End,
    ensures
        key_for_macos_code(spec_macos_key_code(key)->0) == Some(sided_key(key)),
{
}

proof fn lemma_macos_code_names_the_key_1(key: KeyCode)
    requires
        key == KeyCode::PageUp || key == KeyCode::PageDown || key == KeyCode::ArrowUp || key == KeyCode::ArrowDown || key == KeyCode::ArrowLeft || key == KeyCode::ArrowRight || key == KeyCode::CapsLock || key == KeyCode::NumLock || key == KeyCode::A || key == KeyCode::B || key == KeyCode::C || key == KeyCode::D || key == KeyCode::E || key == KeyCode::F || key == KeyCode::G || key == KeyCode::H || key == KeyCode::I || key == KeyCode::J || key == KeyCode::K || key == KeyCode::L,
    ensures
        key_for_macos_code(spec_macos_key_code(key)->0) == Some(sided_key(key)),
{
}

proof fn lemma_macos_code_names_the_key_2(key: KeyCode)
    requires
        key == KeyCode::M || key == KeyCode::N || key == KeyCode::O || key == KeyCode::P || key == KeyCode::Q || key == KeyCode::R || key == KeyCode::S || key == KeyCode::T || key == KeyCode::U || key == KeyCode::V || key == KeyCode::W || key == KeyCode::X || key == KeyCode::Y || key == KeyCode::Z || key == KeyCode::Digit0 || key == KeyCode::Digit1 || key == KeyCode::Digit2 || key == KeyCode::Digit3 || key == KeyCode::Digit4 || key == KeyCode::Digit5,
    ensures
        key_for_macos_code(spec_macos_key_code(key)->0) == Some(sided_key(key)),
{
}

proof fn lemma_macos_code_names_the_key_3(key: KeyCode)
    requires
        key == KeyCode::Digit6 || key == KeyCode::Digit7 || key == KeyCode::Digit8 || key == KeyCode::Digit9 || key == KeyCode::BracketLeft || key == KeyCode::BracketRight || key == KeyCode::Backquote || key == KeyCode::Minus || key == KeyCode::Equal || key == KeyCode::Backslash || key == KeyCode::Semicolon || key == KeyCode::Quote || key == KeyCode::Comma || key == KeyCode::Period || key == KeyCode::Slash || key == KeyCode::F1 || key == KeyCode::F2 || key == KeyCode::F3 || key == KeyCode::F4 || key == KeyCode::F5,
    ensures
        key_for_macos_code(spec_macos_key_code(key)->0) == Some(sided_key(key)),
{
}

proof fn lemma_macos_code_names_the_key_4(key: KeyCode)
    requires
        key == KeyCode::F6 || key == KeyCode::F7 || key == KeyCode::F8 || key == KeyCode::F9 || key == KeyCode::F10 || key == KeyCode::F11 || key == KeyCode::F12 || key == KeyCode::F13 || key == KeyCode::F14 || key == KeyCode::F15 || key == KeyCode::F16 || key == KeyCode::F17 || key == KeyCode::F18 || key == KeyCode::F19 || key == KeyCode::F20 || key == KeyCode::Numpad0 || key == KeyCode::Numpad1 || key == KeyCode::Numpad2 || key == KeyCode::Numpad3 || key == KeyCode::Numpad4,
    ensures
        key_for_macos_code(spec_macos_key_code(key)->0) == Some(sided_key(key)),
{
}

proof fn lemma_macos_code_names_the_key_5(key: KeyCode)
    requires
        key == KeyCode::Numpad5 || key == KeyCode::Numpad6 || key == KeyCode::Numpad7 || key == KeyCode::Numpad8 || key == KeyCode::Numpad9 || key == KeyCode::NumpadAdd || key == KeyCode::NumpadSubtract || key == KeyCode::NumpadMultiply || key == KeyCode::NumpadDivide || key == KeyCode::NumpadDecimal || key == KeyCode::NumpadEnter || key == KeyCode::VolumeMute || key == KeyCode::VolumeDown || key == KeyCode::VolumeUp,
    ensures
        key_for_macos_code(spec_macos_key_code(key)->0) == Some(sided_key(key)),
{
}

/// The macOS key table posts different keys as different key codes: two keys
/// share a code only when one is a modifier named without a side and the
/// other is its left one.
pub proof fn law_macos_key_codes_are_distinct(a: KeyCode, b: KeyCode)
    requires
        spec_macos_key_code(a) is Some,
        spec_macos_key_code(a) == spec_macos_key_code(b),
    ensures
        sided_key(a) == sided_key(b),
{
    lemma_macos_code_names_the_key(a);
    lemma_macos_code_names_the_key(b);
}

} // verus!
