use vstd::prelude::*;

use crate::text::str_eq;

verus! {

/// A keyboard key that a shortcut can press.
#[derive(Debug, Clone, Copy, PartialEq, Eq, Hash, Structural)]
pub enum KeyCode {
    Alt,
    AltLeft,
    AltRight,
    Space,
    Shift,
    ShiftLeft,
    ShiftRight,
    Control,
    ControlLeft,
    ControlRight,
    MetaLeft,
    MetaRight,
    Enter,
    Tab,
    Escape,
    Backspace,
    Delete,
    Insert,
    Home,
    End,
    PageUp,
    PageDown,
    ArrowUp,
    ArrowDown,
    ArrowLeft,
    ArrowRight,
    CapsLock,
    NumLock,
    ScrollLock,
    PrintScreen,
    Pause,
    ContextMenu,
    A,
    B,
    C,
    D,
    E,
    F,
    G,
    H,
    I,
    J,
    K,
    L,
    M,
    N,
    O,
    P,
    Q,
    R,
    S,
    T,
    U,
    V,
    W,
    X,
    Y,
    Z,
    Digit0,
    Digit1,
    Digit2,
    Digit3,
    Digit4,
    Digit5,
    Digit6,
    Digit7,
    Digit8,
    Digit9,
    BracketLeft,
    BracketRight,
    Backquote,
    Minus,
    Equal,
    Backslash,
    Semicolon,
    Quote,
    Comma,
    Period,
    Slash,
    F1,
    F2,
    F3,
    F4,
    F5,
    F6,
    F7,
    F8,
    F9,
    F10,
    F11,
    F12,
    F13,
    F14,
    F15,
    F16,
    F17,
    F18,
    F19,
    F20,
    F21,
    F22,
    F23,
    F24,
    Numpad0,
    Numpad1,
    Numpad2,
    Numpad3,
    Numpad4,
    Numpad5,
    Numpad6,
    Numpad7,
    Numpad8,
    Numpad9,
    NumpadAdd,
    NumpadSubtract,
    NumpadMultiply,
    NumpadDivide,
    NumpadDecimal,
    NumpadEnter,
    VolumeMute,
    VolumeDown,
    VolumeUp,
    MediaPreviousTrack,
    MediaNextTrack,
    MediaPlayPause,
    MediaStop,
    BrowserBack,
    BrowserForward,
    BrowserRefresh,
    BrowserStop,
    BrowserSearch,
    BrowserFavorites,
    BrowserHome,
}

/// Every key, in declaration order.
pub open spec fn spec_all_key_codes() -> Seq<KeyCode> {
    seq![
        KeyCode::Alt,
        KeyCode::AltLeft,
        KeyCode::AltRight,
        KeyCode::Space,
        KeyCode::Shift,
        KeyCode::ShiftLeft,
        KeyCode::ShiftRight,
        KeyCode::Control,
        KeyCode::ControlLeft,
        KeyCode::ControlRight,
        KeyCode::MetaLeft,
        KeyCode::MetaRight,
        KeyCode::Enter,
        KeyCode::Tab,
        KeyCode::Escape,
        KeyCode::Backspace,
        KeyCode::Delete,
        KeyCode::Insert,
        KeyCode::Home,
        KeyCode::End,
        KeyCode::PageUp,
        KeyCode::PageDown,
        KeyCode::ArrowUp,
        KeyCode::ArrowDown,
        KeyCode::ArrowLeft,
        KeyCode::ArrowRight,
        KeyCode::CapsLock,
        KeyCode::NumLock,
        KeyCode::ScrollLock,
        KeyCode::PrintScreen,
        KeyCode::Pause,
        KeyCode::ContextMenu,
        KeyCode::A,
        KeyCode::B,
        KeyCode::C,
        KeyCode::D,
        KeyCode::E,
        KeyCode::F,
        KeyCode::G,
        KeyCode::H,
        KeyCode::I,
        KeyCode::J,
        KeyCode::K,
        KeyCode::L,
        KeyCode::M,
        KeyCode::N,
        KeyCode::O,
        KeyCode::P,
        KeyCode::Q,
        KeyCode::R,
        KeyCode::S,
        KeyCode::T,
        KeyCode::U,
        KeyCode::V,
        KeyCode::W,
        KeyCode::X,
        KeyCode::Y,
        KeyCode::Z,
        KeyCode::Digit0,
        KeyCode::Digit1,
        KeyCode::Digit2,
        KeyCode::Digit3,
        KeyCode::Digit4,
        KeyCode::Digit5,
        KeyCode::Digit6,
        KeyCode::Digit7,
        KeyCode::Digit8,
        KeyCode::Digit9,
        KeyCode::BracketLeft,
        KeyCode::BracketRight,
        KeyCode::Backquote,
        KeyCode::Minus,
        KeyCode::Equal,
        KeyCode::Backslash,
        KeyCode::Semicolon,
        KeyCode::Quote,
        KeyCode::Comma,
        KeyCode::Period,
        KeyCode::Slash,
        KeyCode::F1,
        KeyCode::F2,
        KeyCode::F3,
        KeyCode::F4,
        KeyCode::F5,
        KeyCode::F6,
        KeyCode::F7,
        KeyCode::F8,
        KeyCode::F9,
        KeyCode::F10,
        KeyCode::F11,
        KeyCode::F12,
        KeyCode::F13,
        KeyCode::F14,
        KeyCode::F15,
        KeyCode::F16,
        KeyCode::F17,
        KeyCode::F18,
        KeyCode::F19,
        KeyCode::F20,
        KeyCode::F21,
        KeyCode::F22,
        KeyCode::F23,
        KeyCode::F24,
        KeyCode::Numpad0,
        KeyCode::Numpad1,
        KeyCode::Numpad2,
        KeyCode::Numpad3,
        KeyCode::Numpad4,
        KeyCode::Numpad5,
        KeyCode::Numpad6,
        KeyCode::Numpad7,
        KeyCode::Numpad8,
        KeyCode::Numpad9,
        KeyCode::NumpadAdd,
        KeyCode::NumpadSubtract,
        KeyCode::NumpadMultiply,
        KeyCode::NumpadDivide,
        KeyCode::NumpadDecimal,
        KeyCode::NumpadEnter,
        KeyCode::VolumeMute,
        KeyCode::VolumeDown,
        KeyCode::VolumeUp,
        KeyCode::MediaPreviousTrack,
        KeyCode::MediaNextTrack,
        KeyCode::MediaPlayPause,
        KeyCode::MediaStop,
        KeyCode::BrowserBack,
        KeyCode::BrowserForward,
        KeyCode::BrowserRefresh,
        KeyCode::BrowserStop,
        KeyCode::BrowserSearch,
        KeyCode::BrowserFavorites,
        KeyCode::BrowserHome,
    ]
}

impl KeyCode {
    /// The label shown for the key and accepted back by `parse`.
    pub open spec fn spec_label(self) -> &'static str {
        match self {
            KeyCode::Alt => "Alt",
            KeyCode::AltLeft => "左 Alt",
            KeyCode::AltRight => "右 Alt",
            KeyCode::Space => "Space",
            KeyCode::Shift => "Shift",
            KeyCode::ShiftLeft => "左 Shift",
            KeyCode::ShiftRight => "右 Shift",
            KeyCode::Control => "Ctrl",
            KeyCode::ControlLeft => "左 Ctrl",
            KeyCode::ControlRight => "右 Ctrl",
            KeyCode::MetaLeft => "左 Win",
            KeyCode::MetaRight => "右 Win",
            KeyCode::Enter => "Enter",
            KeyCode::Tab => "Tab",
            KeyCode::Escape => "Esc",
            KeyCode::Backspace => "Backspace",
            KeyCode::Delete => "Delete",
            KeyCode::Insert => "Insert",
            KeyCode::Home => "Home",
            KeyCode::End => "End",
            KeyCode::PageUp => "Page Up",
            KeyCode::PageDown => "Page Down",
            KeyCode::ArrowUp => "↑",
            KeyCode::ArrowDown => "↓",
            KeyCode::ArrowLeft => "←",
            KeyCode::ArrowRight => "→",
            KeyCode::CapsLock => "Caps Lock",
            KeyCode::NumLock => "Num Lock",
            KeyCode::ScrollLock => "Scroll Lock",
            KeyCode::PrintScreen => "Print Screen",
            KeyCode::Pause => "Pause",
            KeyCode::ContextMenu => "菜单键",
            KeyCode::A => "A",
            KeyCode::B => "B",
            KeyCode::C => "C",
            KeyCode::D => "D",
            KeyCode::E => "E",
            KeyCode::F => "F",
            KeyCode::G => "G",
            KeyCode::H => "H",
            KeyCode::I => "I",
            KeyCode::J => "J",
            KeyCode::K => "K",
            KeyCode::L => "L",
            KeyCode::M => "M",
            KeyCode::N => "N",
            KeyCode::O => "O",
            KeyCode::P => "P",
            KeyCode::Q => "Q",
            KeyCode::R => "R",
            KeyCode::S => "S",
            KeyCode::T => "T",
            KeyCode::U => "U",
            KeyCode::V => "V",
            KeyCode::W => "W",
            KeyCode::X => "X",
            KeyCode::Y => "Y",
            KeyCode::Z => "Z",
            KeyCode::Digit0 => "0",
            KeyCode::Digit1 => "1",
            KeyCode::Digit2 => "2",
            KeyCode::Digit3 => "3",
            KeyCode::Digit4 => "4",
            KeyCode::Digit5 => "5",
            KeyCode::Digit6 => "6",
            KeyCode::Digit7 => "7",
            KeyCode::Digit8 => "8",
            KeyCode::Digit9 => "9",
            KeyCode::BracketLeft => "[",
            KeyCode::BracketRight => "]",
            KeyCode::Backquote => "`",
            KeyCode::Minus => "-",
            KeyCode::Equal => "=",
            KeyCode::Backslash => "\\",
            KeyCode::Semicolon => ";",
            KeyCode::Quote => "'",
            KeyCode::Comma => ",",
            KeyCode::Period => ".",
            KeyCode::Slash => "/",
            KeyCode::F1 => "F1",
            KeyCode::F2 => "F2",
            KeyCode::F3 => "F3",
            KeyCode::F4 => "F4",
            KeyCode::F5 => "F5",
            KeyCode::F6 => "F6",
            KeyCode::F7 => "F7",
            KeyCode::F8 => "F8",
            KeyCode::F9 => "F9",
            KeyCode::F10 => "F10",
            KeyCode::F11 => "F11",
            KeyCode::F12 => "F12",
            KeyCode::F13 => "F13",
            KeyCode::F14 => "F14",
            KeyCode::F15 => "F15",
            KeyCode::F16 => "F16",
            KeyCode::F17 => "F17",
            KeyCode::F18 => "F18",
            KeyCode::F19 => "F19",
            KeyCode::F20 => "F20",
            KeyCode::F21 => "F21",
            KeyCode::F22 => "F22",
            KeyCode::F23 => "F23",
            KeyCode::F24 => "F24",
            KeyCode::Numpad0 => "Num 0",
            KeyCode::Numpad1 => "Num 1",
            KeyCode::Numpad2 => "Num 2",
            KeyCode::Numpad3 => "Num 3",
            KeyCode::Numpad4 => "Num 4",
            KeyCode::Numpad5 => "Num 5",
            KeyCode::Numpad6 => "Num 6",
            KeyCode::Numpad7 => "Num 7",
            KeyCode::Numpad8 => "Num 8",
            KeyCode::Numpad9 => "Num 9",
            KeyCode::NumpadAdd => "Num +",
            KeyCode::NumpadSubtract => "Num -",
            KeyCode::NumpadMultiply => "Num *",
            KeyCode::NumpadDivide => "Num /",
            KeyCode::NumpadDecimal => "Num .",
            KeyCode::NumpadEnter => "Num Enter",
            KeyCode::VolumeMute => "静音",
            KeyCode::VolumeDown => "音量 -",
            KeyCode::VolumeUp => "音量 +",
            KeyCode::MediaPreviousTrack => "上一曲",
            KeyCode::MediaNextTrack => "下一曲",
            KeyCode::MediaPlayPause => "播放/暂停",
            KeyCode::MediaStop => "停止",
            KeyCode::BrowserBack => "浏览器后退",
            KeyCode::BrowserForward => "浏览器前进",
            KeyCode::BrowserRefresh => "浏览器刷新",
            KeyCode::BrowserStop => "浏览器停止",
            KeyCode::BrowserSearch => "浏览器搜索",
            KeyCode::BrowserFavorites => "浏览器收藏",
            KeyCode::BrowserHome => "浏览器主页",
        }
    }

    pub fn label(self) -> (r: &'static str)
        ensures
            r == self.spec_label(),
    {
        match self {
            KeyCode::Alt => "Alt",
            KeyCode::AltLeft => "左 Alt",
            KeyCode::AltRight => "右 Alt",
            KeyCode::Space => "Space",
            KeyCode::Shift => "Shift",
            KeyCode::ShiftLeft => "左 Shift",
            KeyCode::ShiftRight => "右 Shift",
            KeyCode::Control => "Ctrl",
            KeyCode::ControlLeft => "左 Ctrl",
            KeyCode::ControlRight => "右 Ctrl",
            KeyCode::MetaLeft => "左 Win",
            KeyCode::MetaRight => "右 Win",
            KeyCode::Enter => "Enter",
            KeyCode::Tab => "Tab",
            KeyCode::Escape => "Esc",
            KeyCode::Backspace => "Backspace",
            KeyCode::Delete => "Delete",
            KeyCode::Insert => "Insert",
            KeyCode::Home => "Home",
            KeyCode::End => "End",
            KeyCode::PageUp => "Page Up",
            KeyCode::PageDown => "Page Down",
            KeyCode::ArrowUp => "↑",
            KeyCode::ArrowDown => "↓",
            KeyCode::ArrowLeft => "←",
            KeyCode::ArrowRight => "→",
            KeyCode::CapsLock => "Caps Lock",
            KeyCode::NumLock => "Num Lock",
            KeyCode::ScrollLock => "Scroll Lock",
            KeyCode::PrintScreen => "Print Screen",
            KeyCode::Pause => "Pause",
            KeyCode::ContextMenu => "菜单键",
            KeyCode::A => "A",
            KeyCode::B => "B",
            KeyCode::C => "C",
            KeyCode::D => "D",
            KeyCode::E => "E",
            KeyCode::F => "F",
            KeyCode::G => "G",
            KeyCode::H => "H",
            KeyCode::I => "I",
            KeyCode::J => "J",
            KeyCode::K => "K",
            KeyCode::L => "L",
            KeyCode::M => "M",
            KeyCode::N => "N",
            KeyCode::O => "O",
            KeyCode::P => "P",
            KeyCode::Q => "Q",
            KeyCode::R => "R",
            KeyCode::S => "S",
            KeyCode::T => "T",
            KeyCode::U => "U",
            KeyCode::V => "V",
            KeyCode::W => "W",
            KeyCode::X => "X",
            KeyCode::Y => "Y",
            KeyCode::Z => "Z",
            KeyCode::Digit0 => "0",
            KeyCode::Digit1 => "1",
            KeyCode::Digit2 => "2",
            KeyCode::Digit3 => "3",
            KeyCode::Digit4 => "4",
            KeyCode::Digit5 => "5",
            KeyCode::Digit6 => "6",
            KeyCode::Digit7 => "7",
            KeyCode::Digit8 => "8",
            KeyCode::Digit9 => "9",
            KeyCode::BracketLeft => "[",
            KeyCode::BracketRight => "]",
            KeyCode::Backquote => "`",
            KeyCode::Minus => "-",
            KeyCode::Equal => "=",
            KeyCode::Backslash => "\\",
            KeyCode::Semicolon => ";",
            KeyCode::Quote => "'",
            KeyCode::Comma => ",",
            KeyCode::Period => ".",
            KeyCode::Slash => "/",
            KeyCode::F1 => "F1",
            KeyCode::F2 => "F2",
            KeyCode::F3 => "F3",
            KeyCode::F4 => "F4",
            KeyCode::F5 => "F5",
            KeyCode::F6 => "F6",
            KeyCode::F7 => "F7",
            KeyCode::F8 => "F8",
            KeyCode::F9 => "F9",
            KeyCode::F10 => "F10",
            KeyCode::F11 => "F11",
            KeyCode::F12 => "F12",
            KeyCode::F13 => "F13",
            KeyCode::F14 => "F14",
            KeyCode::F15 => "F15",
            KeyCode::F16 => "F16",
            KeyCode::F17 => "F17",
            KeyCode::F18 => "F18",
            KeyCode::F19 => "F19",
            KeyCode::F20 => "F20",
            KeyCode::F21 => "F21",
            KeyCode::F22 => "F22",
            KeyCode::F23 => "F23",
            KeyCode::F24 => "F24",
            KeyCode::Numpad0 => "Num 0",
            KeyCode::Numpad1 => "Num 1",
            KeyCode::Numpad2 => "Num 2",
            KeyCode::Numpad3 => "Num 3",
            KeyCode::Numpad4 => "Num 4",
            KeyCode::Numpad5 => "Num 5",
            KeyCode::Numpad6 => "Num 6",
            KeyCode::Numpad7 => "Num 7",
            KeyCode::Numpad8 => "Num 8",
            KeyCode::Numpad9 => "Num 9",
            KeyCode::NumpadAdd => "Num +",
            KeyCode::NumpadSubtract => "Num -",
            KeyCode::NumpadMultiply => "Num *",
            KeyCode::NumpadDivide => "Num /",
            KeyCode::NumpadDecimal => "Num .",
            KeyCode::NumpadEnter => "Num Enter",
            KeyCode::VolumeMute => "静音",
            KeyCode::VolumeDown => "音量 -",
            KeyCode::VolumeUp => "音量 +",
            KeyCode::MediaPreviousTrack => "上一曲",
            KeyCode::MediaNextTrack => "下一曲",
            KeyCode::MediaPlayPause => "播放/暂停",
            KeyCode::MediaStop => "停止",
            KeyCode::BrowserBack => "浏览器后退",
            KeyCode::BrowserForward => "浏览器前进",
            KeyCode::BrowserRefresh => "浏览器刷新",
            KeyCode::BrowserStop => "浏览器停止",
            KeyCode::BrowserSearch => "浏览器搜索",
            KeyCode::BrowserFavorites => "浏览器收藏",
            KeyCode::BrowserHome => "浏览器主页",
        }
    }

    /// The first key, in declaration order, whose label is `value`.
    pub fn parse(value: &str) -> (r: Option<KeyCode>)
        ensures
            r matches Some(k) ==> k.spec_label()@ == value@ && exists|i: int|
                0 <= i < spec_all_key_codes().len() && spec_all_key_codes()[i] == k && forall|j: int|
                    0 <= j < i ==> (#[trigger] spec_all_key_codes()[j]).spec_label()@ != value@,
            r is None ==> forall|k: KeyCode| (#[trigger] k.spec_label())@ != value@,
            r == spec_key_for_label(value@),
    {
        let keys = all_key_codes();
        let mut i: usize = 0;
        while i < keys.len()
            invariant
                keys@ == spec_all_key_codes(),
                i <= keys@.len(),
                forall|j: int| 0 <= j < i ==> (#[trigger] spec_all_key_codes()[j]).spec_label()@ != value@,
            decreases keys@.len() - i,
        {
            let key = keys[i];
            if str_eq(key.label(), value) {
                proof {
                    let other = choose|k: KeyCode| k.spec_label()@ == value@;
                    lemma_labels_distinct(key, other);
                }
                return Some(key);
            }
            i = i + 1;
        }
        proof {
            assert forall|k: KeyCode| (#[trigger] k.spec_label())@ != value@ by {
                lemma_all_key_codes_complete(k);
                let n = choose|n: int| 0 <= n < spec_all_key_codes().len() && spec_all_key_codes()[n] == k;
                assert(spec_all_key_codes()[n].spec_label()@ != value@);
            }
        }
        None
    }

    /// The Windows virtual-key code of the key.
    pub open spec fn spec_virtual_key(self) -> u16 {
        match self {
            KeyCode::Alt => 0x12,
            KeyCode::AltLeft => 0xA4,
            KeyCode::AltRight => 0xA5,
            KeyCode::Space => 0x20,
            KeyCode::Shift => 0x10,
            KeyCode::ShiftLeft => 0xA0,
            KeyCode::ShiftRight => 0xA1,
            KeyCode::Control => 0x11,
            KeyCode::ControlLeft => 0xA2,
            KeyCode::ControlRight => 0xA3,
            KeyCode::MetaLeft => 0x5B,
            KeyCode::MetaRight => 0x5C,
            KeyCode::Enter => 0x0D,
            KeyCode::Tab => 0x09,
            KeyCode::Escape => 0x1B,
            KeyCode::Backspace => 0x08,
            KeyCode::Delete => 0x2E,
            KeyCode::Insert => 0x2D,
            KeyCode::Home => 0x24,
            KeyCode::End => 0x23,
            KeyCode::PageUp => 0x21,
            KeyCode::PageDown => 0x22,
            KeyCode::ArrowUp => 0x26,
            KeyCode::ArrowDown => 0x28,
            KeyCode::ArrowLeft => 0x25,
            KeyCode::ArrowRight => 0x27,
            KeyCode::CapsLock => 0x14,
            KeyCode::NumLock => 0x90,
            KeyCode::ScrollLock => 0x91,
            KeyCode::PrintScreen => 0x2C,
            KeyCode::Pause => 0x13,
            KeyCode::ContextMenu => 0x5D,
            KeyCode::A => 0x41,
            KeyCode::B => 0x42,
            KeyCode::C => 0x43,
            KeyCode::D => 0x44,
            KeyCode::E => 0x45,
            KeyCode::F => 0x46,
            KeyCode::G => 0x47,
            KeyCode::H => 0x48,
            KeyCode::I => 0x49,
            KeyCode::J => 0x4A,
            KeyCode::K => 0x4B,
            KeyCode::L => 0x4C,
            KeyCode::M => 0x4D,
            KeyCode::N => 0x4E,
            KeyCode::O => 0x4F,
            KeyCode::P => 0x50,
            KeyCode::Q => 0x51,
            KeyCode::R => 0x52,
            KeyCode::S => 0x53,
            KeyCode::T => 0x54,
            KeyCode::U => 0x55,
            KeyCode::V => 0x56,
            KeyCode::W => 0x57,
            KeyCode::X => 0x58,
            KeyCode::Y => 0x59,
            KeyCode::Z => 0x5A,
            KeyCode::Digit0 => 0x30,
            KeyCode::Digit1 => 0x31,
            KeyCode::Digit2 => 0x32,
            KeyCode::Digit3 => 0x33,
            KeyCode::Digit4 => 0x34,
            KeyCode::Digit5 => 0x35,
            KeyCode::Digit6 => 0x36,
            KeyCode::Digit7 => 0x37,
            KeyCode::Digit8 => 0x38,
            KeyCode::Digit9 => 0x39,
            KeyCode::BracketLeft => 0xDB,
            KeyCode::BracketRight => 0xDD,
            KeyCode::Backquote => 0xC0,
            KeyCode::Minus => 0xBD,
            KeyCode::Equal => 0xBB,
            KeyCode::Backslash => 0xDC,
            KeyCode::Semicolon => 0xBA,
            KeyCode::Quote => 0xDE,
            KeyCode::Comma => 0xBC,
            KeyCode::Period => 0xBE,
            KeyCode::Slash => 0xBF,
            KeyCode::F1 => 0x70,
            KeyCode::F2 => 0x71,
            KeyCode::F3 => 0x72,
            KeyCode::F4 => 0x73,
            KeyCode::F5 => 0x74,
            KeyCode::F6 => 0x75,
            KeyCode::F7 => 0x76,
            KeyCode::F8 => 0x77,
            KeyCode::F9 => 0x78,
            KeyCode::F10 => 0x79,
            KeyCode::F11 => 0x7A,
            KeyCode::F12 => 0x7B,
            KeyCode::F13 => 0x7C,
            KeyCode::F14 => 0x7D,
            KeyCode::F15 => 0x7E,
            KeyCode::F16 => 0x7F,
            KeyCode::F17 => 0x80,
            KeyCode::F18 => 0x81,
            KeyCode::F19 => 0x82,
            KeyCode::F20 => 0x83,
            KeyCode::F21 => 0x84,
            KeyCode::F22 => 0x85,
            KeyCode::F23 => 0x86,
            KeyCode::F24 => 0x87,
            KeyCode::Numpad0 => 0x60,
            KeyCode::Numpad1 => 0x61,
            KeyCode::Numpad2 => 0x62,
            KeyCode::Numpad3 => 0x63,
            KeyCode::Numpad4 => 0x64,
            KeyCode::Numpad5 => 0x65,
            KeyCode::Numpad6 => 0x66,
            KeyCode::Numpad7 => 0x67,
            KeyCode::Numpad8 => 0x68,
            KeyCode::Numpad9 => 0x69,
            KeyCode::NumpadAdd => 0x6B,
            KeyCode::NumpadSubtract => 0x6D,
            KeyCode::NumpadMultiply => 0x6A,
            KeyCode::NumpadDivide => 0x6F,
            KeyCode::NumpadDecimal => 0x6E,
            KeyCode::NumpadEnter => 0x0D,
            KeyCode::VolumeMute => 0xAD,
            KeyCode::VolumeDown => 0xAE,
            KeyCode::VolumeUp => 0xAF,
            KeyCode::MediaPreviousTrack => 0xB1,
            KeyCode::MediaNextTrack => 0xB0,
            KeyCode::MediaPlayPause => 0xB3,
            KeyCode::MediaStop => 0xB2,
            KeyCode::BrowserBack => 0xA6,
            KeyCode::BrowserForward => 0xA7,
            KeyCode::BrowserRefresh => 0xA8,
            KeyCode::BrowserStop => 0xA9,
            KeyCode::BrowserSearch => 0xAA,
            KeyCode::BrowserFavorites => 0xAB,
            KeyCode::BrowserHome => 0xAC,
        }
    }

    pub fn virtual_key(self) -> (r: u16)
        ensures
            r == self.spec_virtual_key(),
    {
        match self {
            KeyCode::Alt => 0x12,
            KeyCode::AltLeft => 0xA4,
            KeyCode::AltRight => 0xA5,
            KeyCode::Space => 0x20,
            KeyCode::Shift => 0x10,
            KeyCode::ShiftLeft => 0xA0,
            KeyCode::ShiftRight => 0xA1,
            KeyCode::Control => 0x11,
            KeyCode::ControlLeft => 0xA2,
            KeyCode::ControlRight => 0xA3,
            KeyCode::MetaLeft => 0x5B,
            KeyCode::MetaRight => 0x5C,
            KeyCode::Enter => 0x0D,
            KeyCode::Tab => 0x09,
            KeyCode::Escape => 0x1B,
            KeyCode::Backspace => 0x08,
            KeyCode::Delete => 0x2E,
            KeyCode::Insert => 0x2D,
            KeyCode::Home => 0x24,
            KeyCode::End => 0x23,
            KeyCode::PageUp => 0x21,
            KeyCode::PageDown => 0x22,
            KeyCode::ArrowUp => 0x26,
            KeyCode::ArrowDown => 0x28,
            KeyCode::ArrowLeft => 0x25,
            KeyCode::ArrowRight => 0x27,
            KeyCode::CapsLock => 0x14,
            KeyCode::NumLock => 0x90,
            KeyCode::ScrollLock => 0x91,
            KeyCode::PrintScreen => 0x2C,
            KeyCode::Pause => 0x13,
            KeyCode::ContextMenu => 0x5D,
            KeyCode::A => 0x41,
            KeyCode::B => 0x42,
            KeyCode::C => 0x43,
            KeyCode::D => 0x44,
            KeyCode::E => 0x45,
            KeyCode::F => 0x46,
            KeyCode::G => 0x47,
            KeyCode::H => 0x48,
            KeyCode::I => 0x49,
            KeyCode::J => 0x4A,
            KeyCode::K => 0x4B,
            KeyCode::L => 0x4C,
            KeyCode::M => 0x4D,
            KeyCode::N => 0x4E,
            KeyCode::O => 0x4F,
            KeyCode::P => 0x50,
            KeyCode::Q => 0x51,
            KeyCode::R => 0x52,
            KeyCode::S => 0x53,
            KeyCode::T => 0x54,
            KeyCode::U => 0x55,
            KeyCode::V => 0x56,
            KeyCode::W => 0x57,
            KeyCode::X => 0x58,
            KeyCode::Y => 0x59,
            KeyCode::Z => 0x5A,
            KeyCode::Digit0 => 0x30,
            KeyCode::Digit1 => 0x31,
            KeyCode::Digit2 => 0x32,
            KeyCode::Digit3 => 0x33,
            KeyCode::Digit4 => 0x34,
            KeyCode::Digit5 => 0x35,
            KeyCode::Digit6 => 0x36,
            KeyCode::Digit7 => 0x37,
            KeyCode::Digit8 => 0x38,
            KeyCode::Digit9 => 0x39,
            KeyCode::BracketLeft => 0xDB,
            KeyCode::BracketRight => 0xDD,
            KeyCode::Backquote => 0xC0,
            KeyCode::Minus => 0xBD,
            KeyCode::Equal => 0xBB,
            KeyCode::Backslash => 0xDC,
            KeyCode::Semicolon => 0xBA,
            KeyCode::Quote => 0xDE,
            KeyCode::Comma => 0xBC,
            KeyCode::Period => 0xBE,
            KeyCode::Slash => 0xBF,
            KeyCode::F1 => 0x70,
            KeyCode::F2 => 0x71,
            KeyCode::F3 => 0x72,
            KeyCode::F4 => 0x73,
            KeyCode::F5 => 0x74,
            KeyCode::F6 => 0x75,
            KeyCode::F7 => 0x76,
            KeyCode::F8 => 0x77,
            KeyCode::F9 => 0x78,
            KeyCode::F10 => 0x79,
            KeyCode::F11 => 0x7A,
            KeyCode::F12 => 0x7B,
            KeyCode::F13 => 0x7C,
            KeyCode::F14 => 0x7D,
            KeyCode::F15 => 0x7E,
            KeyCode::F16 => 0x7F,
            KeyCode::F17 => 0x80,
            KeyCode::F18 => 0x81,
            KeyCode::F19 => 0x82,
            KeyCode::F20 => 0x83,
            KeyCode::F21 => 0x84,
            KeyCode::F22 => 0x85,
            KeyCode::F23 => 0x86,
            KeyCode::F24 => 0x87,
            KeyCode::Numpad0 => 0x60,
            KeyCode::Numpad1 => 0x61,
            KeyCode::Numpad2 => 0x62,
            KeyCode::Numpad3 => 0x63,
            KeyCode::Numpad4 => 0x64,
            KeyCode::Numpad5 => 0x65,
            KeyCode::Numpad6 => 0x66,
            KeyCode::Numpad7 => 0x67,
            KeyCode::Numpad8 => 0x68,
            KeyCode::Numpad9 => 0x69,
            KeyCode::NumpadAdd => 0x6B,
            KeyCode::NumpadSubtract => 0x6D,
            KeyCode::NumpadMultiply => 0x6A,
            KeyCode::NumpadDivide => 0x6F,
            KeyCode::NumpadDecimal => 0x6E,
            KeyCode::NumpadEnter => 0x0D,
            KeyCode::VolumeMute => 0xAD,
            KeyCode::VolumeDown => 0xAE,
            KeyCode::VolumeUp => 0xAF,
            KeyCode::MediaPreviousTrack => 0xB1,
            KeyCode::MediaNextTrack => 0xB0,
            KeyCode::MediaPlayPause => 0xB3,
            KeyCode::MediaStop => 0xB2,
            KeyCode::BrowserBack => 0xA6,
            KeyCode::BrowserForward => 0xA7,
            KeyCode::BrowserRefresh => 0xA8,
            KeyCode::BrowserStop => 0xA9,
            KeyCode::BrowserSearch => 0xAA,
            KeyCode::BrowserFavorites => 0xAB,
            KeyCode::BrowserHome => 0xAC,
        }
    }

    /// Order in which keys are listed in a chord: modifiers first, then by virtual-key code.
    pub open spec fn spec_sort_rank(self) -> u16 {
        match self {
            KeyCode::Control => 0,
            KeyCode::ControlLeft => 1,
            KeyCode::ControlRight => 2,
            KeyCode::Shift => 3,
            KeyCode::ShiftLeft => 4,
            KeyCode::ShiftRight => 5,
            KeyCode::Alt => 6,
            KeyCode::AltLeft => 7,
            KeyCode::AltRight => 8,
            KeyCode::MetaLeft => 9,
            KeyCode::MetaRight => 10,
            _ => (100 + self.spec_virtual_key()) as u16,
        }
    }

    pub fn sort_rank(self) -> (r: u16)
        ensures
            r == self.spec_sort_rank(),
    {
        match self {
            KeyCode::Control => 0,
            KeyCode::ControlLeft => 1,
            KeyCode::ControlRight => 2,
            KeyCode::Shift => 3,
            KeyCode::ShiftLeft => 4,
            KeyCode::ShiftRight => 5,
            KeyCode::Alt => 6,
            KeyCode::AltLeft => 7,
            KeyCode::AltRight => 8,
            KeyCode::MetaLeft => 9,
            KeyCode::MetaRight => 10,
            _ => 100 + self.virtual_key(),
        }
    }

    /// The key is sent with the Windows extended-key flag.
    pub open spec fn spec_is_extended(self) -> bool {
        match self {
            KeyCode::AltRight
            | KeyCode::ControlRight
            | KeyCode::MetaLeft
            | KeyCode::MetaRight
            | KeyCode::ContextMenu
            | KeyCode::Insert
            | KeyCode::Delete
            | KeyCode::Home
            | KeyCode::End
            | KeyCode::PageUp
            | KeyCode::PageDown
            | KeyCode::ArrowUp
            | KeyCode::ArrowDown
            | KeyCode::ArrowLeft
            | KeyCode::ArrowRight
            | KeyCode::PrintScreen
            | KeyCode::NumLock
            | KeyCode::NumpadDivide
            | KeyCode::NumpadEnter
            | KeyCode::BrowserBack
            | KeyCode::BrowserForward
            | KeyCode::BrowserRefresh
            | KeyCode::BrowserStop
            | KeyCode::BrowserSearch
            | KeyCode::BrowserFavorites
            | KeyCode::BrowserHome
            | KeyCode::VolumeMute
            | KeyCode::VolumeDown
            | KeyCode::VolumeUp
            | KeyCode::MediaPreviousTrack
            | KeyCode::MediaNextTrack
            | KeyCode::MediaPlayPause
            | KeyCode::MediaStop => true,
            _ => false,
        }
    }

    pub fn is_extended(self) -> (r: bool)
        ensures
            r == self.spec_is_extended(),
    {
        match self {
            KeyCode::AltRight
            | KeyCode::ControlRight
            | KeyCode::MetaLeft
            | KeyCode::MetaRight
            | KeyCode::ContextMenu
            | KeyCode::Insert
            | KeyCode::Delete
            | KeyCode::Home
            | KeyCode::End
            | KeyCode::PageUp
            | KeyCode::PageDown
            | KeyCode::ArrowUp
            | KeyCode::ArrowDown
            | KeyCode::ArrowLeft
            | KeyCode::ArrowRight
            | KeyCode::PrintScreen
            | KeyCode::NumLock
            | KeyCode::NumpadDivide
            | KeyCode::NumpadEnter
            | KeyCode::BrowserBack
            | KeyCode::BrowserForward
            | KeyCode::BrowserRefresh
            | KeyCode::BrowserStop
            | KeyCode::BrowserSearch
            | KeyCode::BrowserFavorites
            | KeyCode::BrowserHome
            | KeyCode::VolumeMute
            | KeyCode::VolumeDown
            | KeyCode::VolumeUp
            | KeyCode::MediaPreviousTrack
            | KeyCode::MediaNextTrack
            | KeyCode::MediaPlayPause
            | KeyCode::MediaStop => true,
            _ => false,
        }
    }
}

/// All keys, in declaration order.
pub fn all_key_codes() -> (r: Vec<KeyCode>)
    ensures
        r@ == spec_all_key_codes(),
{
    let r = vec![
        KeyCode::Alt,
        KeyCode::AltLeft,
        KeyCode::AltRight,
        KeyCode::Space,
        KeyCode::Shift,
        KeyCode::ShiftLeft,
        KeyCode::ShiftRight,
        KeyCode::Control,
        KeyCode::ControlLeft,
        KeyCode::ControlRight,
        KeyCode::MetaLeft,
        KeyCode::MetaRight,
        KeyCode::Enter,
        KeyCode::Tab,
        KeyCode::Escape,
        KeyCode::Backspace,
        KeyCode::Delete,
        KeyCode::Insert,
        KeyCode::Home,
        KeyCode::End,
        KeyCode::PageUp,
        KeyCode::PageDown,
        KeyCode::ArrowUp,
        KeyCode::ArrowDown,
        KeyCode::ArrowLeft,
        KeyCode::ArrowRight,
        KeyCode::CapsLock,
        KeyCode::NumLock,
        KeyCode::ScrollLock,
        KeyCode::PrintScreen,
        KeyCode::Pause,
        KeyCode::ContextMenu,
        KeyCode::A,
        KeyCode::B,
        KeyCode::C,
        KeyCode::D,
        KeyCode::E,
        KeyCode::F,
        KeyCode::G,
        KeyCode::H,
        KeyCode::I,
        KeyCode::J,
        KeyCode::K,
        KeyCode::L,
        KeyCode::M,
        KeyCode::N,
        KeyCode::O,
        KeyCode::P,
        KeyCode::Q,
        KeyCode::R,
        KeyCode::S,
        KeyCode::T,
        KeyCode::U,
        KeyCode::V,
        KeyCode::W,
        KeyCode::X,
        KeyCode::Y,
        KeyCode::Z,
        KeyCode::Digit0,
        KeyCode::Digit1,
        KeyCode::Digit2,
        KeyCode::Digit3,
        KeyCode::Digit4,
        KeyCode::Digit5,
        KeyCode::Digit6,
        KeyCode::Digit7,
        KeyCode::Digit8,
        KeyCode::Digit9,
        KeyCode::BracketLeft,
        KeyCode::BracketRight,
        KeyCode::Backquote,
        KeyCode::Minus,
        KeyCode::Equal,
        KeyCode::Backslash,
        KeyCode::Semicolon,
        KeyCode::Quote,
        KeyCode::Comma,
        KeyCode::Period,
        KeyCode::Slash,
        KeyCode::F1,
        KeyCode::F2,
        KeyCode::F3,
        KeyCode::F4,
        KeyCode::F5,
        KeyCode::F6,
        KeyCode::F7,
        KeyCode::F8,
        KeyCode::F9,
        KeyCode::F10,
        KeyCode::F11,
        KeyCode::F12,
        KeyCode::F13,
        KeyCode::F14,
        KeyCode::F15,
        KeyCode::F16,
        KeyCode::F17,
        KeyCode::F18,
        KeyCode::F19,
        KeyCode::F20,
        KeyCode::F21,
        KeyCode::F22,
        KeyCode::F23,
        KeyCode::F24,
        KeyCode::Numpad0,
        KeyCode::Numpad1,
        KeyCode::Numpad2,
        KeyCode::Numpad3,
        KeyCode::Numpad4,
        KeyCode::Numpad5,
        KeyCode::Numpad6,
        KeyCode::Numpad7,
        KeyCode::Numpad8,
        KeyCode::Numpad9,
        KeyCode::NumpadAdd,
        KeyCode::NumpadSubtract,
        KeyCode::NumpadMultiply,
        KeyCode::NumpadDivide,
        KeyCode::NumpadDecimal,
        KeyCode::NumpadEnter,
        KeyCode::VolumeMute,
        KeyCode::VolumeDown,
        KeyCode::VolumeUp,
        KeyCode::MediaPreviousTrack,
        KeyCode::MediaNextTrack,
        KeyCode::MediaPlayPause,
        KeyCode::MediaStop,
        KeyCode::BrowserBack,
        KeyCode::BrowserForward,
        KeyCode::BrowserRefresh,
        KeyCode::BrowserStop,
        KeyCode::BrowserSearch,
        KeyCode::BrowserFavorites,
        KeyCode::BrowserHome,
    ];
    assert(r@ =~= spec_all_key_codes());
    r
}

pub proof fn lemma_all_key_codes_complete(k: KeyCode)
    ensures
        exists|i: int| 0 <= i < spec_all_key_codes().len() && spec_all_key_codes()[i] == k,
{
    let s = spec_all_key_codes();
    match k {
        KeyCode::Alt => assert(s[0] == k),
        KeyCode::AltLeft => assert(s[1] == k),
        KeyCode::AltRight => assert(s[2] == k),
        KeyCode::Space => assert(s[3] == k),
        KeyCode::Shift => assert(s[4] == k),
        KeyCode::ShiftLeft => assert(s[5] == k),
        KeyCode::ShiftRight => assert(s[6] == k),
        KeyCode::Control => assert(s[7] == k),
        KeyCode::ControlLeft => assert(s[8] == k),
        KeyCode::ControlRight => assert(s[9] == k),
        KeyCode::MetaLeft => assert(s[10] == k),
        KeyCode::MetaRight => assert(s[11] == k),
        KeyCode::Enter => assert(s[12] == k),
        KeyCode::Tab => assert(s[13] == k),
        KeyCode::Escape => assert(s[14] == k),
        KeyCode::Backspace => assert(s[15] == k),
        KeyCode::Delete => assert(s[16] == k),
        KeyCode::Insert => assert(s[17] == k),
        KeyCode::Home => assert(s[18] == k),
        KeyCode::End => assert(s[19] == k),
        KeyCode::PageUp => assert(s[20] == k),
        KeyCode::PageDown => assert(s[21] == k),
        KeyCode::ArrowUp => assert(s[22] == k),
        KeyCode::ArrowDown => assert(s[23] == k),
        KeyCode::ArrowLeft => assert(s[24] == k),
        KeyCode::ArrowRight => assert(s[25] == k),
        KeyCode::CapsLock => assert(s[26] == k),
        KeyCode::NumLock => assert(s[27] == k),
        KeyCode::ScrollLock => assert(s[28] == k),
        KeyCode::PrintScreen => assert(s[29] == k),
        KeyCode::Pause => assert(s[30] == k),
        KeyCode::ContextMenu => assert(s[31] == k),
        KeyCode::A => assert(s[32] == k),
        KeyCode::B => assert(s[33] == k),
        KeyCode::C => assert(s[34] == k),
        KeyCode::D => assert(s[35] == k),
        KeyCode::E => assert(s[36] == k),
        KeyCode::F => assert(s[37] == k),
        KeyCode::G => assert(s[38] == k),
        KeyCode::H => assert(s[39] == k),
        KeyCode::I => assert(s[40] == k),
        KeyCode::J => assert(s[41] == k),
        KeyCode::K => assert(s[42] == k),
        KeyCode::L => assert(s[43] == k),
        KeyCode::M => assert(s[44] == k),
        KeyCode::N => assert(s[45] == k),
        KeyCode::O => assert(s[46] == k),
        KeyCode::P => assert(s[47] == k),
        KeyCode::Q => assert(s[48] == k),
        KeyCode::R => assert(s[49] == k),
        KeyCode::S => assert(s[50] == k),
        KeyCode::T => assert(s[51] == k),
        KeyCode::U => assert(s[52] == k),
        KeyCode::V => assert(s[53] == k),
        KeyCode::W => assert(s[54] == k),
        KeyCode::X => assert(s[55] == k),
        KeyCode::Y => assert(s[56] == k),
        KeyCode::Z => assert(s[57] == k),
        KeyCode::Digit0 => assert(s[58] == k),
        KeyCode::Digit1 => assert(s[59] == k),
        KeyCode::Digit2 => assert(s[60] == k),
        KeyCode::Digit3 => assert(s[61] == k),
        KeyCode::Digit4 => assert(s[62] == k),
        KeyCode::Digit5 => assert(s[63] == k),
        KeyCode::Digit6 => assert(s[64] == k),
        KeyCode::Digit7 => assert(s[65] == k),
        KeyCode::Digit8 => assert(s[66] == k),
        KeyCode::Digit9 => assert(s[67] == k),
        KeyCode::BracketLeft => assert(s[68] == k),
        KeyCode::BracketRight => assert(s[69] == k),
        KeyCode::Backquote => assert(s[70] == k),
        KeyCode::Minus => assert(s[71] == k),
        KeyCode::Equal => assert(s[72] == k),
        KeyCode::Backslash => assert(s[73] == k),
        KeyCode::Semicolon => assert(s[74] == k),
        KeyCode::Quote => assert(s[75] == k),
        KeyCode::Comma => assert(s[76] == k),
        KeyCode::Period => assert(s[77] == k),
        KeyCode::Slash => assert(s[78] == k),
        KeyCode::F1 => assert(s[79] == k),
        KeyCode::F2 => assert(s[80] == k),
        KeyCode::F3 => assert(s[81] == k),
        KeyCode::F4 => assert(s[82] == k),
        KeyCode::F5 => assert(s[83] == k),
        KeyCode::F6 => assert(s[84] == k),
        KeyCode::F7 => assert(s[85] == k),
        KeyCode::F8 => assert(s[86] == k),
        KeyCode::F9 => assert(s[87] == k),
        KeyCode::F10 => assert(s[88] == k),
        KeyCode::F11 => assert(s[89] == k),
        KeyCode::F12 => assert(s[90] == k),
        KeyCode::F13 => assert(s[91] == k),
        KeyCode::F14 => assert(s[92] == k),
        KeyCode::F15 => assert(s[93] == k),
        KeyCode::F16 => assert(s[94] == k),
        KeyCode::F17 => assert(s[95] == k),
        KeyCode::F18 => assert(s[96] == k),
        KeyCode::F19 => assert(s[97] == k),
        KeyCode::F20 => assert(s[98] == k),
        KeyCode::F21 => assert(s[99] == k),
        KeyCode::F22 => assert(s[100] == k),
        KeyCode::F23 => assert(s[101] == k),
        KeyCode::F24 => assert(s[102] == k),
        KeyCode::Numpad0 => assert(s[103] == k),
        KeyCode::Numpad1 => assert(s[104] == k),
        KeyCode::Numpad2 => assert(s[105] == k),
        KeyCode::Numpad3 => assert(s[106] == k),
        KeyCode::Numpad4 => assert(s[107] == k),
        KeyCode::Numpad5 => assert(s[108] == k),
        KeyCode::Numpad6 => assert(s[109] == k),
        KeyCode::Numpad7 => assert(s[110] == k),
        KeyCode::Numpad8 => assert(s[111] == k),
        KeyCode::Numpad9 => assert(s[112] == k),
        KeyCode::NumpadAdd => assert(s[113] == k),
        KeyCode::NumpadSubtract => assert(s[114] == k),
        KeyCode::NumpadMultiply => assert(s[115] == k),
        KeyCode::NumpadDivide => assert(s[116] == k),
        KeyCode::NumpadDecimal => assert(s[117] == k),
        KeyCode::NumpadEnter => assert(s[118] == k),
        KeyCode::VolumeMute => assert(s[119] == k),
        KeyCode::VolumeDown => assert(s[120] == k),
        KeyCode::VolumeUp => assert(s[121] == k),
        KeyCode::MediaPreviousTrack => assert(s[122] == k),
        KeyCode::MediaNextTrack => assert(s[123] == k),
        KeyCode::MediaPlayPause => assert(s[124] == k),
        KeyCode::MediaStop => assert(s[125] == k),
        KeyCode::BrowserBack => assert(s[126] == k),
        KeyCode::BrowserForward => assert(s[127] == k),
        KeyCode::BrowserRefresh => assert(s[128] == k),
        KeyCode::BrowserStop => assert(s[129] == k),
        KeyCode::BrowserSearch => assert(s[130] == k),
        KeyCode::BrowserFavorites => assert(s[131] == k),
        KeyCode::BrowserHome => assert(s[132] == k),
    }
}


/// Four characters of a label that tell the labels apart: its length, its
/// first and last characters, and its middle one.
pub open spec fn label_fingerprint(s: Seq<char>) -> (int, char, char, char) {
    (s.len() as int, s[0], s[s.len() - 1], s[s.len() as int / 2])
}

/// The key whose label has fingerprint `fp`.
pub open spec fn key_for_fingerprint(fp: (int, char, char, char)) -> Option<KeyCode> {
    if fp == (3int, 'A', 't', 'l') {
        Some(KeyCode::Alt)
    } else
    if fp == (5int, '左', 't', 'A') {
        Some(KeyCode::AltLeft)
    } else
    if fp == (5int, '右', 't', 'A') {
        Some(KeyCode::AltRight)
    } else
    if fp == (5int, 'S', 'e', 'a') {
        Some(KeyCode::Space)
    } else
    if fp == (5int, 'S', 't', 'i') {
        Some(KeyCode::Shift)
    } else
    if fp == (7int, '左', 't', 'h') {
        Some(KeyCode::ShiftLeft)
    } else
    if fp == (7int, '右', 't', 'h') {
        Some(KeyCode::ShiftRight)
    } else
    if fp == (4int, 'C', 'l', 'r') {
        Some(KeyCode::Control)
    } else
    if fp == (6int, '左', 'l', 't') {
        Some(KeyCode::ControlLeft)
    } else
    if fp == (6int, '右', 'l', 't') {
        Some(KeyCode::ControlRight)
    } else
    if fp == (5int, '左', 'n', 'W') {
        Some(KeyCode::MetaLeft)
    } else
    if fp == (5int, '右', 'n', 'W') {
        Some(KeyCode::MetaRight)
    } else
    if fp == (5int, 'E', 'r', 't') {
        Some(KeyCode::Enter)
    } else
    if fp == (3int, 'T', 'b', 'a') {
        Some(KeyCode::Tab)
    } else
    if fp == (3int, 'E', 'c', 's') {
        Some(KeyCode::Escape)
    } else
    if fp == (9int, 'B', 'e', 's') {
        Some(KeyCode::Backspace)
    } else
    if fp == (6int, 'D', 'e', 'e') {
        Some(KeyCode::Delete)
    } else
    if fp == (6int, 'I', 't', 'e') {
        Some(KeyCode::Insert)
    } else
    if fp == (4int, 'H', 'e', 'm') {
        Some(KeyCode::Home)
    } else
    if fp == (3int, 'E', 'd', 'n') {
        Some(KeyCode::End)
    } else
    if fp == (7int, 'P', 'p', 'e') {
        Some(KeyCode::PageUp)
    } else
    if fp == (9int, 'P', 'n', ' ') {
        Some(KeyCode::PageDown)
    } else
    if fp == (1int, '↑', '↑', '↑') {
        Some(KeyCode::ArrowUp)
    } else
    if fp == (1int, '↓', '↓', '↓') {
        Some(KeyCode::ArrowDown)
    } else
    if fp == (1int, '←', '←', '←') {
        Some(KeyCode::ArrowLeft)
    } else
    if fp == (1int, '→', '→', '→') {
        Some(KeyCode::ArrowRight)
    } else
    if fp == (9int, 'C', 'k', ' ') {
        Some(KeyCode::CapsLock)
    } else
    if fp == (8int, 'N', 'k', 'L') {
        Some(KeyCode::NumLock)
    } else
    if fp == (11int, 'S', 'k', 'l') {
        Some(KeyCode::ScrollLock)
    } else
    if fp == (12int, 'P', 'n', 'S') {
        Some(KeyCode::PrintScreen)
    } else
    if fp == (5int, 'P', 'e', 'u') {
        Some(KeyCode::Pause)
    } else
    if fp == (3int, '菜', '键', '单') {
        Some(KeyCode::ContextMenu)
    } else
    if fp == (1int, 'A', 'A', 'A') {
        Some(KeyCode::A)
    } else
    if fp == (1int, 'B', 'B', 'B') {
        Some(KeyCode::B)
    } else
    if fp == (1int, 'C', 'C', 'C') {
        Some(KeyCode::C)
    } else
    if fp == (1int, 'D', 'D', 'D') {
        Some(KeyCode::D)
    } else
    if fp == (1int, 'E', 'E', 'E') {
        Some(KeyCode::E)
    } else
    if fp == (1int, 'F', 'F', 'F') {
        Some(KeyCode::F)
    } else
    if fp == (1int, 'G', 'G', 'G') {
        Some(KeyCode::G)
    } else
    if fp == (1int, 'H', 'H', 'H') {
        Some(KeyCode::H)
    } else
    if fp == (1int, 'I', 'I', 'I') {
        Some(KeyCode::I)
    } else
    if fp == (1int, 'J', 'J', 'J') {
        Some(KeyCode::J)
    } else
    if fp == (1int, 'K', 'K', 'K') {
        Some(KeyCode::K)
    } else
    if fp == (1int, 'L', 'L', 'L') {
        Some(KeyCode::L)
    } else
    if fp == (1int, 'M', 'M', 'M') {
        Some(KeyCode::M)
    } else
    if fp == (1int, 'N', 'N', 'N') {
        Some(KeyCode::N)
    } else
    if fp == (1int, 'O', 'O', 'O') {
        Some(KeyCode::O)
    } else
    if fp == (1int, 'P', 'P', 'P') {
        Some(KeyCode::P)
    } else
    if fp == (1int, 'Q', 'Q', 'Q') {
        Some(KeyCode::Q)
    } else
    if fp == (1int, 'R', 'R', 'R') {
        Some(KeyCode::R)
    } else
    if fp == (1int, 'S', 'S', 'S') {
        Some(KeyCode::S)
    } else
    if fp == (1int, 'T', 'T', 'T') {
        Some(KeyCode::T)
    } else
    if fp == (1int, 'U', 'U', 'U') {
        Some(KeyCode::U)
    } else
    if fp == (1int, 'V', 'V', 'V') {
        Some(KeyCode::V)
    } else
    if fp == (1int, 'W', 'W', 'W') {
        Some(KeyCode::W)
    } else
    if fp == (1int, 'X', 'X', 'X') {
        Some(KeyCode::X)
    } else
    if fp == (1int, 'Y', 'Y', 'Y') {
        Some(KeyCode::Y)
    } else
    if fp == (1int, 'Z', 'Z', 'Z') {
        Some(KeyCode::Z)
    } else
    if fp == (1int, '0', '0', '0') {
        Some(KeyCode::Digit0)
    } else
    if fp == (1int, '1', '1', '1') {
        Some(KeyCode::Digit1)
    } else
    if fp == (1int, '2', '2', '2') {
        Some(KeyCode::Digit2)
    } else
    if fp == (1int, '3', '3', '3') {
        Some(KeyCode::Digit3)
    } else
    if fp == (1int, '4', '4', '4') {
        Some(KeyCode::Digit4)
    } else
    if fp == (1int, '5', '5', '5') {
        Some(KeyCode::Digit5)
    } else
    if fp == (1int, '6', '6', '6') {
        Some(KeyCode::Digit6)
    } else
    if fp == (1int, '7', '7', '7') {
        Some(KeyCode::Digit7)
    } else
    if fp == (1int, '8', '8', '8') {
        Some(KeyCode::Digit8)
    } else
    if fp == (1int, '9', '9', '9') {
        Some(KeyCode::Digit9)
    } else
    if fp == (1int, '[', '[', '[') {
        Some(KeyCode::BracketLeft)
    } else
    if fp == (1int, ']', ']', ']') {
        Some(KeyCode::BracketRight)
    } else
    if fp == (1int, '`', '`', '`') {
        Some(KeyCode::Backquote)
    } else
    if fp == (1int, '-', '-', '-') {
        Some(KeyCode::Minus)
    } else
    if fp == (1int, '=', '=', '=') {
        Some(KeyCode::Equal)
    } else
    if fp == (1int, '\\', '\\', '\\') {
        Some(KeyCode::Backslash)
    } else
    if fp == (1int, ';', ';', ';') {
        Some(KeyCode::Semicolon)
    } else
    if fp == (1int, '\'', '\'', '\'') {
        Some(KeyCode::Quote)
    } else
    if fp == (1int, ',', ',', ',') {
        Some(KeyCode::Comma)
    } else
    if fp == (1int, '.', '.', '.') {
        Some(KeyCode::Period)
    } else
    if fp == (1int, '/', '/', '/') {
        Some(KeyCode::Slash)
    } else
    if fp == (2int, 'F', '1', '1') {
        Some(KeyCode::F1)
    } else
    if fp == (2int, 'F', '2', '2') {
        Some(KeyCode::F2)
    } else
    if fp == (2int, 'F', '3', '3') {
        Some(KeyCode::F3)
    } else
    if fp == (2int, 'F', '4', '4') {
        Some(KeyCode::F4)
    } else
    if fp == (2int, 'F', '5', '5') {
        Some(KeyCode::F5)
    } else
    if fp == (2int, 'F', '6', '6') {
        Some(KeyCode::F6)
    } else
    if fp == (2int, 'F', '7', '7') {
        Some(KeyCode::F7)
    } else
    if fp == (2int, 'F', '8', '8') {
        Some(KeyCode::F8)
    } else
    if fp == (2int, 'F', '9', '9') {
        Some(KeyCode::F9)
    } else
    if fp == (3int, 'F', '0', '1') {
        Some(KeyCode::F10)
    } else
    if fp == (3int, 'F', '1', '1') {
        Some(KeyCode::F11)
    } else
    if fp == (3int, 'F', '2', '1') {
        Some(KeyCode::F12)
    } else
    if fp == (3int, 'F', '3', '1') {
        Some(KeyCode::F13)
    } else
    if fp == (3int, 'F', '4', '1') {
        Some(KeyCode::F14)
    } else
    if fp == (3int, 'F', '5', '1') {
        Some(KeyCode::F15)
    } else
    if fp == (3int, 'F', '6', '1') {
        Some(KeyCode::F16)
    } else
    if fp == (3int, 'F', '7', '1') {
        Some(KeyCode::F17)
    } else
    if fp == (3int, 'F', '8', '1') {
        Some(KeyCode::F18)
    } else
    if fp == (3int, 'F', '9', '1') {
        Some(KeyCode::F19)
    } else
    if fp == (3int, 'F', '0', '2') {
        Some(KeyCode::F20)
    } else
    if fp == (3int, 'F', '1', '2') {
        Some(KeyCode::F21)
    } else
    if fp == (3int, 'F', '2', '2') {
        Some(KeyCode::F22)
    } else
    if fp == (3int, 'F', '3', '2') {
        Some(KeyCode::F23)
    } else
    if fp == (3int, 'F', '4', '2') {
        Some(KeyCode::F24)
    } else
    if fp == (5int, 'N', '0', 'm') {
        Some(KeyCode::Numpad0)
    } else
    if fp == (5int, 'N', '1', 'm') {
        Some(KeyCode::Numpad1)
    } else
    if fp == (5int, 'N', '2', 'm') {
        Some(KeyCode::Numpad2)
    } else
    if fp == (5int, 'N', '3', 'm') {
        Some(KeyCode::Numpad3)
    } else
    if fp == (5int, 'N', '4', 'm') {
        Some(KeyCode::Numpad4)
    } else
    if fp == (5int, 'N', '5', 'm') {
        Some(KeyCode::Numpad5)
    } else
    if fp == (5int, 'N', '6', 'm') {
        Some(KeyCode::Numpad6)
    } else
    if fp == (5int, 'N', '7', 'm') {
        Some(KeyCode::Numpad7)
    } else
    if fp == (5int, 'N', '8', 'm') {
        Some(KeyCode::Numpad8)
    } else
    if fp == (5int, 'N', '9', 'm') {
        Some(KeyCode::Numpad9)
    } else
    if fp == (5int, 'N', '+', 'm') {
        Some(KeyCode::NumpadAdd)
    } else
    if fp == (5int, 'N', '-', 'm') {
        Some(KeyCode::NumpadSubtract)
    } else
    if fp == (5int, 'N', '*', 'm') {
        Some(KeyCode::NumpadMultiply)
    } else
    if fp == (5int, 'N', '/', 'm') {
        Some(KeyCode::NumpadDivide)
    } else
    if fp == (5int, 'N', '.', 'm') {
        Some(KeyCode::NumpadDecimal)
    } else
    if fp == (9int, 'N', 'r', 'E') {
        Some(KeyCode::NumpadEnter)
    } else
    if fp == (2int, '静', '音', '音') {
        Some(KeyCode::VolumeMute)
    } else
    if fp == (4int, '音', '-', ' ') {
        Some(KeyCode::VolumeDown)
    } else
    if fp == (4int, '音', '+', ' ') {
        Some(KeyCode::VolumeUp)
    } else
    if fp == (3int, '上', '曲', '一') {
        Some(KeyCode::MediaPreviousTrack)
    } else
    if fp == (3int, '下', '曲', '一') {
        Some(KeyCode::MediaNextTrack)
    } else
    if fp == (5int, '播', '停', '/') {
        Some(KeyCode::MediaPlayPause)
    } else
    if fp == (2int, '停', '止', '止') {
        Some(KeyCode::MediaStop)
    } else
    if fp == (5int, '浏', '退', '器') {
        Some(KeyCode::BrowserBack)
    } else
    if fp == (5int, '浏', '进', '器') {
        Some(KeyCode::BrowserForward)
    } else
    if fp == (5int, '浏', '新', '器') {
        Some(KeyCode::BrowserRefresh)
    } else
    if fp == (5int, '浏', '止', '器') {
        Some(KeyCode::BrowserStop)
    } else
    if fp == (5int, '浏', '索', '器') {
        Some(KeyCode::BrowserSearch)
    } else
    if fp == (5int, '浏', '藏', '器') {
        Some(KeyCode::BrowserFavorites)
    } else
    if fp == (5int, '浏', '页', '器') {
        Some(KeyCode::BrowserHome)
    } else {
        None
    }
}

/// A key's label has a fingerprint that names the key again.
proof fn lemma_label_fingerprint(k: KeyCode)
    ensures
        key_for_fingerprint(label_fingerprint(k.spec_label()@)) == Some(k),
{
    match k {
        KeyCode::Alt | KeyCode::AltLeft | KeyCode::AltRight | KeyCode::Space | KeyCode::Shift | KeyCode::ShiftLeft | KeyCode::ShiftRight | KeyCode::Control | KeyCode::ControlLeft | KeyCode::ControlRight | KeyCode::MetaLeft | KeyCode::MetaRight => lemma_label_fingerprint_0(k),
        KeyCode::Enter | KeyCode::Tab | KeyCode::Escape | KeyCode::Backspace | KeyCode::Delete | KeyCode::Insert | KeyCode::Home | KeyCode::End | KeyCode::PageUp | KeyCode::PageDown | KeyCode::ArrowUp | KeyCode::ArrowDown => lemma_label_fingerprint_1(k),
        KeyCode::ArrowLeft | KeyCode::ArrowRight | KeyCode::CapsLock | KeyCode::NumLock | KeyCode::ScrollLock | KeyCode::PrintScreen | KeyCode::Pause | KeyCode::ContextMenu | KeyCode::A | KeyCode::B | KeyCode::C | KeyCode::D => lemma_label_fingerprint_2(k),
        KeyCode::E | KeyCode::F | KeyCode::G | KeyCode::H | KeyCode::I | KeyCode::J | KeyCode::K | KeyCode::L | KeyCode::M | KeyCode::N | KeyCode::O | KeyCode::P => lemma_label_fingerprint_3(k),
        KeyCode::Q | KeyCode::R | KeyCode::S | KeyCode::T | KeyCode::U | KeyCode::V | KeyCode::W | KeyCode::X | KeyCode::Y | KeyCode::Z | KeyCode::Digit0 | KeyCode::Digit1 => lemma_label_fingerprint_4(k),
        KeyCode::Digit2 | KeyCode::Digit3 | KeyCode::Digit4 | KeyCode::Digit5 | KeyCode::Digit6 | KeyCode::Digit7 | KeyCode::Digit8 | KeyCode::Digit9 | KeyCode::BracketLeft | KeyCode::BracketRight | KeyCode::Backquote | KeyCode::Minus => lemma_label_fingerprint_5(k),
        KeyCode::Equal | KeyCode::Backslash | KeyCode::Semicolon | KeyCode::Quote | KeyCode::Comma | KeyCode::Period | KeyCode::Slash | KeyCode::F1 | KeyCode::F2 | KeyCode::F3 | KeyCode::F4 | KeyCode::F5 => lemma_label_fingerprint_6(k),
        KeyCode::F6 | KeyCode::F7 | KeyCode::F8 | KeyCode::F9 | KeyCode::F10 | KeyCode::F11 | KeyCode::F12 | KeyCode::F13 | KeyCode::F14 | KeyCode::F15 | KeyCode::F16 | KeyCode::F17 => lemma_label_fingerprint_7(k),
        KeyCode::F18 | KeyCode::F19 | KeyCode::F20 | KeyCode::F21 | KeyCode::F22 | KeyCode::F23 | KeyCode::F24 | KeyCode::Numpad0 | KeyCode::Numpad1 | KeyCode::Numpad2 | KeyCode::Numpad3 | KeyCode::Numpad4 => lemma_label_fingerprint_8(k),
        KeyCode::Numpad5 | KeyCode::Numpad6 | KeyCode::Numpad7 | KeyCode::Numpad8 | KeyCode::Numpad9 | KeyCode::NumpadAdd | KeyCode::NumpadSubtract | KeyCode::NumpadMultiply | KeyCode::NumpadDivide | KeyCode::NumpadDecimal | KeyCode::NumpadEnter | KeyCode::VolumeMute => lemma_label_fingerprint_9(k),
        KeyCode::VolumeDown | KeyCode::VolumeUp | KeyCode::MediaPreviousTrack | KeyCode::MediaNextTrack | KeyCode::MediaPlayPause | KeyCode::MediaStop | KeyCode::BrowserBack | KeyCode::BrowserForward | KeyCode::BrowserRefresh | KeyCode::BrowserStop | KeyCode::BrowserSearch | KeyCode::BrowserFavorites => lemma_label_fingerprint_10(k),
        KeyCode::BrowserHome => lemma_label_fingerprint_11(k),
    }
}

proof fn lemma_label_fingerprint_0(k: KeyCode)
    requires
        k == KeyCode::Alt || k == KeyCode::AltLeft || k == KeyCode::AltRight || k == KeyCode::Space || k == KeyCode::Shift || k == KeyCode::ShiftLeft || k == KeyCode::ShiftRight || k == KeyCode::Control || k == KeyCode::ControlLeft || k == KeyCode::ControlRight || k == KeyCode::MetaLeft || k == KeyCode::MetaRight,
    ensures
        key_for_fingerprint(label_fingerprint(k.spec_label()@)) == Some(k),
{
    match k {
        KeyCode::Alt => {
            reveal_strlit("Alt");
        },
        KeyCode::AltLeft => {
            reveal_strlit("左 Alt");
        },
        KeyCode::AltRight => {
            reveal_strlit("右 Alt");
        },
        KeyCode::Space => {
            reveal_strlit("Space");
        },
        KeyCode::Shift => {
            reveal_strlit("Shift");
        },
        KeyCode::ShiftLeft => {
            reveal_strlit("左 Shift");
        },
        KeyCode::ShiftRight => {
            reveal_strlit("右 Shift");
        },
        KeyCode::Control => {
            reveal_strlit("Ctrl");
        },
        KeyCode::ControlLeft => {
            reveal_strlit("左 Ctrl");
        },
        KeyCode::ControlRight => {
            reveal_strlit("右 Ctrl");
        },
        KeyCode::MetaLeft => {
            reveal_strlit("左 Win");
        },
        KeyCode::MetaRight => {
            reveal_strlit("右 Win");
        },
        _ => {},
    }
}

proof fn lemma_label_fingerprint_1(k: KeyCode)
    requires
        k == KeyCode::Enter || k == KeyCode::Tab || k == KeyCode::Escape || k == KeyCode::Backspace || k == KeyCode::Delete || k == KeyCode::Insert || k == KeyCode::Home || k == KeyCode::End || k == KeyCode::PageUp || k == KeyCode::PageDown || k == KeyCode::ArrowUp || k == KeyCode::ArrowDown,
    ensures
        key_for_fingerprint(label_fingerprint(k.spec_label()@)) == Some(k),
{
    match k {
        KeyCode::Enter => {
            reveal_strlit("Enter");
        },
        KeyCode::Tab => {
            reveal_strlit("Tab");
        },
        KeyCode::Escape => {
            reveal_strlit("Esc");
        },
        KeyCode::Backspace => {
            reveal_strlit("Backspace");
        },
        KeyCode::Delete => {
            reveal_strlit("Delete");
        },
        KeyCode::Insert => {
            reveal_strlit("Insert");
        },
        KeyCode::Home => {
            reveal_strlit("Home");
        },
        KeyCode::End => {
            reveal_strlit("End");
        },
        KeyCode::PageUp => {
            reveal_strlit("Page Up");
        },
        KeyCode::PageDown => {
            reveal_strlit("Page Down");
        },
        KeyCode::ArrowUp => {
            reveal_strlit("↑");
        },
        KeyCode::ArrowDown => {
            reveal_strlit("↓");
        },
        _ => {},
    }
}

proof fn lemma_label_fingerprint_2(k: KeyCode)
    requires
        k == KeyCode::ArrowLeft || k == KeyCode::ArrowRight || k == KeyCode::CapsLock || k == KeyCode::NumLock || k == KeyCode::ScrollLock || k == KeyCode::PrintScreen || k == KeyCode::Pause || k == KeyCode::ContextMenu || k == KeyCode::A || k == KeyCode::B || k == KeyCode::C || k == KeyCode::D,
    ensures
        key_for_fingerprint(label_fingerprint(k.spec_label()@)) == Some(k),
{
    match k {
        KeyCode::ArrowLeft => {
            reveal_strlit("←");
        },
        KeyCode::ArrowRight => {
            reveal_strlit("→");
        },
        KeyCode::CapsLock => {
            reveal_strlit("Caps Lock");
        },
        KeyCode::NumLock => {
            reveal_strlit("Num Lock");
        },
        KeyCode::ScrollLock => {
            reveal_strlit("Scroll Lock");
        },
        KeyCode::PrintScreen => {
            reveal_strlit("Print Screen");
        },
        KeyCode::Pause => {
            reveal_strlit("Pause");
        },
        KeyCode::ContextMenu => {
            reveal_strlit("菜单键");
        },
        KeyCode::A => {
            reveal_strlit("A");
        },
        KeyCode::B => {
            reveal_strlit("B");
        },
        KeyCode::C => {
            reveal_strlit("C");
        },
        KeyCode::D => {
            reveal_strlit("D");
        },
        _ => {},
    }
}

proof fn lemma_label_fingerprint_3(k: KeyCode)
    requires
        k == KeyCode::E || k == KeyCode::F || k == KeyCode::G || k == KeyCode::H || k == KeyCode::I || k == KeyCode::J || k == KeyCode::K || k == KeyCode::L || k == KeyCode::M || k == KeyCode::N || k == KeyCode::O || k == KeyCode::P,
    ensures
        key_for_fingerprint(label_fingerprint(k.spec_label()@)) == Some(k),
{
    match k {
        KeyCode::E => {
            reveal_strlit("E");
        },
        KeyCode::F => {
            reveal_strlit("F");
        },
        KeyCode::G => {
            reveal_strlit("G");
        },
        KeyCode::H => {
            reveal_strlit("H");
        },
        KeyCode::I => {
            reveal_strlit("I");
        },
        KeyCode::J => {
            reveal_strlit("J");
        },
        KeyCode::K => {
            reveal_strlit("K");
        },
        KeyCode::L => {
            reveal_strlit("L");
        },
        KeyCode::M => {
            reveal_strlit("M");
        },
        KeyCode::N => {
            reveal_strlit("N");
        },
        KeyCode::O => {
            reveal_strlit("O");
        },
        KeyCode::P => {
            reveal_strlit("P");
        },
        _ => {},
    }
}

proof fn lemma_label_fingerprint_4(k: KeyCode)
    requires
        k == KeyCode::Q || k == KeyCode::R || k == KeyCode::S || k == KeyCode::T || k == KeyCode::U || k == KeyCode::V || k == KeyCode::W || k == KeyCode::X || k == KeyCode::Y || k == KeyCode::Z || k == KeyCode::Digit0 || k == KeyCode::Digit1,
    ensures
        key_for_fingerprint(label_fingerprint(k.spec_label()@)) == Some(k),
{
    match k {
        KeyCode::Q => {
            reveal_strlit("Q");
        },
        KeyCode::R => {
            reveal_strlit("R");
        },
        KeyCode::S => {
            reveal_strlit("S");
        },
        KeyCode::T => {
            reveal_strlit("T");
        },
        KeyCode::U => {
            reveal_strlit("U");
        },
        KeyCode::V => {
            reveal_strlit("V");
        },
        KeyCode::W => {
            reveal_strlit("W");
        },
        KeyCode::X => {
            reveal_strlit("X");
        },
        KeyCode::Y => {
            reveal_strlit("Y");
        },
        KeyCode::Z => {
            reveal_strlit("Z");
        },
        KeyCode::Digit0 => {
            reveal_strlit("0");
        },
        KeyCode::Digit1 => {
            reveal_strlit("1");
        },
        _ => {},
    }
}

proof fn lemma_label_fingerprint_5(k: KeyCode)
    requires
        k == KeyCode::Digit2 || k == KeyCode::Digit3 || k == KeyCode::Digit4 || k == KeyCode::Digit5 || k == KeyCode::Digit6 || k == KeyCode::Digit7 || k == KeyCode::Digit8 || k == KeyCode::Digit9 || k == KeyCode::BracketLeft || k == KeyCode::BracketRight || k == KeyCode::Backquote || k == KeyCode::Minus,
    ensures
        key_for_fingerprint(label_fingerprint(k.spec_label()@)) == Some(k),
{
    match k {
        KeyCode::Digit2 => {
            reveal_strlit("2");
        },
        KeyCode::Digit3 => {
            reveal_strlit("3");
        },
        KeyCode::Digit4 => {
            reveal_strlit("4");
        },
        KeyCode::Digit5 => {
            reveal_strlit("5");
        },
        KeyCode::Digit6 => {
            reveal_strlit("6");
        },
        KeyCode::Digit7 => {
            reveal_strlit("7");
        },
        KeyCode::Digit8 => {
            reveal_strlit("8");
        },
        KeyCode::Digit9 => {
            reveal_strlit("9");
        },
        KeyCode::BracketLeft => {
            reveal_strlit("[");
        },
        KeyCode::BracketRight => {
            reveal_strlit("]");
        },
        KeyCode::Backquote => {
            reveal_strlit("`");
        },
        KeyCode::Minus => {
            reveal_strlit("-");
        },
        _ => {},
    }
}

proof fn lemma_label_fingerprint_6(k: KeyCode)
    requires
        k == KeyCode::Equal || k == KeyCode::Backslash || k == KeyCode::Semicolon || k == KeyCode::Quote || k == KeyCode::Comma || k == KeyCode::Period || k == KeyCode::Slash || k == KeyCode::F1 || k == KeyCode::F2 || k == KeyCode::F3 || k == KeyCode::F4 || k == KeyCode::F5,
    ensures
        key_for_fingerprint(label_fingerprint(k.spec_label()@)) == Some(k),
{
    match k {
        KeyCode::Equal => {
            reveal_strlit("=");
        },
        KeyCode::Backslash => {
            reveal_strlit("\\");
        },
        KeyCode::Semicolon => {
            reveal_strlit(";");
        },
        KeyCode::Quote => {
            reveal_strlit("'");
        },
        KeyCode::Comma => {
            reveal_strlit(",");
        },
        KeyCode::Period => {
            reveal_strlit(".");
        },
        KeyCode::Slash => {
            reveal_strlit("/");
        },
        KeyCode::F1 => {
            reveal_strlit("F1");
        },
        KeyCode::F2 => {
            reveal_strlit("F2");
        },
        KeyCode::F3 => {
            reveal_strlit("F3");
        },
        KeyCode::F4 => {
            reveal_strlit("F4");
        },
        KeyCode::F5 => {
            reveal_strlit("F5");
        },
        _ => {},
    }
}

proof fn lemma_label_fingerprint_7(k: KeyCode)
    requires
        k == KeyCode::F6 || k == KeyCode::F7 || k == KeyCode::F8 || k == KeyCode::F9 || k == KeyCode::F10 || k == KeyCode::F11 || k == KeyCode::F12 || k == KeyCode::F13 || k == KeyCode::F14 || k == KeyCode::F15 || k == KeyCode::F16 || k == KeyCode::F17,
    ensures
        key_for_fingerprint(label_fingerprint(k.spec_label()@)) == Some(k),
{
    match k {
        KeyCode::F6 => {
            reveal_strlit("F6");
        },
        KeyCode::F7 => {
            reveal_strlit("F7");
        },
        KeyCode::F8 => {
            reveal_strlit("F8");
        },
        KeyCode::F9 => {
            reveal_strlit("F9");
        },
        KeyCode::F10 => {
            reveal_strlit("F10");
        },
        KeyCode::F11 => {
            reveal_strlit("F11");
        },
        KeyCode::F12 => {
            reveal_strlit("F12");
        },
        KeyCode::F13 => {
            reveal_strlit("F13");
        },
        KeyCode::F14 => {
            reveal_strlit("F14");
        },
        KeyCode::F15 => {
            reveal_strlit("F15");
        },
        KeyCode::F16 => {
            reveal_strlit("F16");
        },
        KeyCode::F17 => {
            reveal_strlit("F17");
        },
        _ => {},
    }
}

proof fn lemma_label_fingerprint_8(k: KeyCode)
    requires
        k == KeyCode::F18 || k == KeyCode::F19 || k == KeyCode::F20 || k == KeyCode::F21 || k == KeyCode::F22 || k == KeyCode::F23 || k == KeyCode::F24 || k == KeyCode::Numpad0 || k == KeyCode::Numpad1 || k == KeyCode::Numpad2 || k == KeyCode::Numpad3 || k == KeyCode::Numpad4,
    ensures
        key_for_fingerprint(label_fingerprint(k.spec_label()@)) == Some(k),
{
    match k {
        KeyCode::F18 => {
            reveal_strlit("F18");
        },
        KeyCode::F19 => {
            reveal_strlit("F19");
        },
        KeyCode::F20 => {
            reveal_strlit("F20");
        },
        KeyCode::F21 => {
            reveal_strlit("F21");
        },
        KeyCode::F22 => {
            reveal_strlit("F22");
        },
        KeyCode::F23 => {
            reveal_strlit("F23");
        },
        KeyCode::F24 => {
            reveal_strlit("F24");
        },
        KeyCode::Numpad0 => {
            reveal_strlit("Num 0");
        },
        KeyCode::Numpad1 => {
            reveal_strlit("Num 1");
        },
        KeyCode::Numpad2 => {
            reveal_strlit("Num 2");
        },
        KeyCode::Numpad3 => {
            reveal_strlit("Num 3");
        },
        KeyCode::Numpad4 => {
            reveal_strlit("Num 4");
        },
        _ => {},
    }
}

proof fn lemma_label_fingerprint_9(k: KeyCode)
    requires
        k == KeyCode::Numpad5 || k == KeyCode::Numpad6 || k == KeyCode::Numpad7 || k == KeyCode::Numpad8 || k == KeyCode::Numpad9 || k == KeyCode::NumpadAdd || k == KeyCode::NumpadSubtract || k == KeyCode::NumpadMultiply || k == KeyCode::NumpadDivide || k == KeyCode::NumpadDecimal || k == KeyCode::NumpadEnter || k == KeyCode::VolumeMute,
    ensures
        key_for_fingerprint(label_fingerprint(k.spec_label()@)) == Some(k),
{
    match k {
        KeyCode::Numpad5 => {
            reveal_strlit("Num 5");
        },
        KeyCode::Numpad6 => {
            reveal_strlit("Num 6");
        },
        KeyCode::Numpad7 => {
            reveal_strlit("Num 7");
        },
        KeyCode::Numpad8 => {
            reveal_strlit("Num 8");
        },
        KeyCode::Numpad9 => {
            reveal_strlit("Num 9");
        },
        KeyCode::NumpadAdd => {
            reveal_strlit("Num +");
        },
        KeyCode::NumpadSubtract => {
            reveal_strlit("Num -");
        },
        KeyCode::NumpadMultiply => {
            reveal_strlit("Num *");
        },
        KeyCode::NumpadDivide => {
            reveal_strlit("Num /");
        },
        KeyCode::NumpadDecimal => {
            reveal_strlit("Num .");
        },
        KeyCode::NumpadEnter => {
            reveal_strlit("Num Enter");
        },
        KeyCode::VolumeMute => {
            reveal_strlit("静音");
        },
        _ => {},
    }
}

proof fn lemma_label_fingerprint_10(k: KeyCode)
    requires
        k == KeyCode::VolumeDown || k == KeyCode::VolumeUp || k == KeyCode::MediaPreviousTrack || k == KeyCode::MediaNextTrack || k == KeyCode::MediaPlayPause || k == KeyCode::MediaStop || k == KeyCode::BrowserBack || k == KeyCode::BrowserForward || k == KeyCode::BrowserRefresh || k == KeyCode::BrowserStop || k == KeyCode::BrowserSearch || k == KeyCode::BrowserFavorites,
    ensures
        key_for_fingerprint(label_fingerprint(k.spec_label()@)) == Some(k),
{
    match k {
        KeyCode::VolumeDown => {
            reveal_strlit("音量 -");
        },
        KeyCode::VolumeUp => {
            reveal_strlit("音量 +");
        },
        KeyCode::MediaPreviousTrack => {
            reveal_strlit("上一曲");
        },
        KeyCode::MediaNextTrack => {
            reveal_strlit("下一曲");
        },
        KeyCode::MediaPlayPause => {
            reveal_strlit("播放/暂停");
        },
        KeyCode::MediaStop => {
            reveal_strlit("停止");
        },
        KeyCode::BrowserBack => {
            reveal_strlit("浏览器后退");
        },
        KeyCode::BrowserForward => {
            reveal_strlit("浏览器前进");
        },
        KeyCode::BrowserRefresh => {
            reveal_strlit("浏览器刷新");
        },
        KeyCode::BrowserStop => {
            reveal_strlit("浏览器停止");
        },
        KeyCode::BrowserSearch => {
            reveal_strlit("浏览器搜索");
        },
        KeyCode::BrowserFavorites => {
            reveal_strlit("浏览器收藏");
        },
        _ => {},
    }
}

proof fn lemma_label_fingerprint_11(k: KeyCode)
    requires
        k == KeyCode::BrowserHome,
    ensures
        key_for_fingerprint(label_fingerprint(k.spec_label()@)) == Some(k),
{
    match k {
        KeyCode::BrowserHome => {
            reveal_strlit("浏览器主页");
        },
        _ => {},
    }
}

/// The key whose label is `s`, if there is one; labels are distinct, so
/// there is at most one.
pub open spec fn spec_key_for_label(s: Seq<char>) -> Option<KeyCode> {
    if exists|k: KeyCode| k.spec_label()@ == s {
        Some(choose|k: KeyCode| k.spec_label()@ == s)
    } else {
        None
    }
}

/// No two keys share a label.
pub proof fn lemma_labels_distinct(a: KeyCode, b: KeyCode)
    requires
        a.spec_label()@ == b.spec_label()@,
    ensures
        a == b,
{
    lemma_label_fingerprint(a);
    lemma_label_fingerprint(b);
}

} // verus!
