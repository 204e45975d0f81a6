use vstd::prelude::*;

use crate::error::{AppError, AppErrorModel};
use crate::input_pipeline::mapping::{PenInjectionCommand, PenInjectionCommandKind};
use crate::text::string_of;
use crate::shortcut::domain::{MouseButton, ShortcutCommand, ShortcutCommandModel};
use crate::shortcut::keys::{all_key_codes, spec_all_key_codes, KeyCode};
use crate::workspace::MonitorInfo;

verus! {

/// Highest absolute-axis value reported by both virtual devices. libinput and the
/// compositors normalize absolute axes against this range and map the result onto
/// the monitor union, so proportional coordinates track monitor changes.
pub const AXIS_MAX: i32 = 32_767;

/// The tilt range the virtual tablet declares.
pub const TILT_MIN: i32 = -64;

pub const TILT_MAX: i32 = 64;

/* Linux input event types and codes. */

pub const EV_SYN: u16 = 0x00;

pub const EV_KEY: u16 = 0x01;

pub const EV_ABS: u16 = 0x03;

pub const SYN_REPORT: u16 = 0;

pub const BTN_TOOL_PEN: u16 = 0x140;

pub const BTN_TOUCH: u16 = 0x14a;

pub const ABS_X: u16 = 0x00;

pub const ABS_Y: u16 = 0x01;

pub const ABS_PRESSURE: u16 = 0x18;

pub const ABS_TILT_X: u16 = 0x1a;

pub const ABS_TILT_Y: u16 = 0x1b;

/// One input event for a uinput device.
#[derive(Debug, Clone, Copy, PartialEq, Eq, Structural)]
pub struct InputEvent {
    pub kind: u16,
    pub code: u16,
    pub value: i32,
}

pub open spec fn spec_event(kind: u16, code: u16, value: i32) -> InputEvent {
    InputEvent { kind, code, value }
}

pub fn event(kind: u16, code: u16, value: i32) -> (r: InputEvent)
    ensures
        r == spec_event(kind, code, value),
{
    InputEvent { kind, code, value }
}

/// The end of an event frame.
pub fn syn_event() -> (r: InputEvent)
    ensures
        r == spec_event(EV_SYN, SYN_REPORT, 0),
{
    event(EV_SYN, SYN_REPORT, 0)
}

/// The union of every monitor, in desktop pixels.
#[derive(Debug, Clone, Copy, PartialEq, Eq, Structural)]
pub struct ScreenGeometry {
    pub left: i32,
    pub top: i32,
    pub width: i32,
    pub height: i32,
}

pub open spec fn min_i32(a: i32, b: i32) -> i32 {
    if a < b {
        a
    } else {
        b
    }
}

pub open spec fn max_i32(a: i32, b: i32) -> i32 {
    if a > b {
        a
    } else {
        b
    }
}

/// The edges of the union of the monitors: left, top, right, bottom.
pub open spec fn union_edges(m: Seq<MonitorInfo>) -> (i32, i32, i32, i32)
    decreases m.len(),
{
    if m.len() <= 1 {
        (m[0].virtual_left, m[0].virtual_top, m[0].virtual_right, m[0].virtual_bottom)
    } else {
        let (l, t, r, b) = union_edges(m.drop_last());
        let x = m.last();
        (
            min_i32(l, x.virtual_left),
            min_i32(t, x.virtual_top),
            max_i32(r, x.virtual_right),
            max_i32(b, x.virtual_bottom),
        )
    }
}

/// The geometry of a union whose edges are `(l, t, r, b)`; an empty or
/// inverted extent counts as one pixel.
pub open spec fn geometry_of(edges: (i32, i32, i32, i32)) -> ScreenGeometry {
    let (l, t, r, b) = edges;
    ScreenGeometry {
        left: l,
        top: t,
        width: if r - l > 1 {
            (r - l) as i32
        } else {
            1
        },
        height: if b - t > 1 {
            (b - t) as i32
        } else {
            1
        },
    }
}

/// The extents of the union fit an `i32`.
pub open spec fn union_fits(m: Seq<MonitorInfo>) -> bool {
    m.len() > 0 && {
        let (l, t, r, b) = union_edges(m);
        r - l <= i32::MAX && b - t <= i32::MAX
    }
}


/// The edges of the union of `monitors`; see [`union_edges`].
pub fn monitor_union_edges(monitors: &Vec<MonitorInfo>) -> (r: (i32, i32, i32, i32))
    requires
        monitors@.len() > 0,
    ensures
        r == union_edges(monitors@),
{
        let first = &monitors[0];
        let mut left = first.virtual_left;
        let mut top = first.virtual_top;
        let mut right = first.virtual_right;
        let mut bottom = first.virtual_bottom;
        let mut i: usize = 1;
        proof {
            assert(union_edges(monitors@.take(1)) == (left, top, right, bottom));
        }
        while i < monitors.len()
            invariant
                1 <= i <= monitors@.len(),
                union_edges(monitors@.take(i as int)) == (left, top, right, bottom),
            decreases monitors@.len() - i,
        {
            let m = &monitors[i];
            if m.virtual_left < left {
                left = m.virtual_left;
            }
            if m.virtual_top < top {
                top = m.virtual_top;
            }
            if m.virtual_right > right {
                right = m.virtual_right;
            }
            if m.virtual_bottom > bottom {
                bottom = m.virtual_bottom;
            }
            proof {
                let t = monitors@.take(i as int + 1);
                assert(t.drop_last() =~= monitors@.take(i as int));
                assert(t.last() == monitors@[i as int]);
            }
            i = i + 1;
        }
        proof {
            assert(monitors@.take(monitors@.len() as int) =~= monitors@);
        }
        (left, top, right, bottom)
}

/// Whether [`ScreenGeometry::from_monitors`] accepts `monitors`: there are
/// none, or the extents of their union fit an `i32`.
pub fn monitors_fit(monitors: &Vec<MonitorInfo>) -> (r: bool)
    ensures
        r == (monitors@.len() > 0 ==> union_fits(monitors@)),
{
    if monitors.len() == 0 {
        return true;
    }
    let (left, top, right, bottom) = monitor_union_edges(monitors);
    (right as i64 - left as i64) <= 2_147_483_647 && (bottom as i64 - top as i64) <= 2_147_483_647
}

/// Whether [`ProximityState::build_events`] accepts `command` on `geometry`.
pub fn pen_command_fits(command: &PenInjectionCommand, geometry: &ScreenGeometry) -> (r: bool)
    ensures
        r == pen_fits(*command, *geometry),
{
    let dx = command.x as i64 - geometry.left as i64;
    let dy = command.y as i64 - geometry.top as i64;
    -2_147_483_648 <= dx && dx <= 2_147_483_647 && -2_147_483_648 <= dy && dy <= 2_147_483_647
}

impl ScreenGeometry {
    /// The union of the monitors; a workspace without monitors is an error.
    pub fn from_monitors(monitors: &Vec<MonitorInfo>) -> (r: Result<ScreenGeometry, AppError>)
        requires
            monitors@.len() > 0 ==> union_fits(monitors@),
        ensures
            monitors@.len() == 0 ==> (r matches Err(e) && e@ == AppErrorModel::Workspace(
                "workspace snapshot contains no monitors"@,
            )),
            monitors@.len() > 0 ==> r == Ok::<ScreenGeometry, AppError>(
                geometry_of(union_edges(monitors@)),
            ),
    {
        if monitors.len() == 0 {
            return Err(AppError::Workspace(string_of("workspace snapshot contains no monitors")));
        }
        let (left, top, right, bottom) = monitor_union_edges(monitors);
        let width = if right as i64 - left as i64 > 1 {
            right - left
        } else {
            1
        };
        let height = if bottom as i64 - top as i64 > 1 {
            bottom - top
        } else {
            1
        };
        Ok(ScreenGeometry { left, top, width, height })
    }

    pub fn axis_x(&self, desktop_x: i32) -> (r: i32)
        requires
            i32::MIN <= desktop_x - self.left <= i32::MAX,
        ensures
            r == spec_map_axis(desktop_x, self.left, self.width),
    {
        map_axis(desktop_x, self.left, self.width)
    }

    pub fn axis_y(&self, desktop_y: i32) -> (r: i32)
        requires
            i32::MIN <= desktop_y - self.top <= i32::MAX,
        ensures
            r == spec_map_axis(desktop_y, self.top, self.height),
    {
        map_axis(desktop_y, self.top, self.height)
    }
}

/// `n / d` rounded toward zero, as Rust divides, for `d > 0`.
pub open spec fn quotient_toward_zero(n: int, d: int) -> int {
    if n >= 0 {
        n / d
    } else {
        -((-n) / d)
    }
}

/// A desktop pixel scaled into the uinput axis range and clamped to it.
pub open spec fn spec_map_axis(desktop: i32, origin: i32, extent: i32) -> i32 {
    let denominator = if extent - 1 > 1 {
        extent - 1
    } else {
        1
    };
    let scaled = quotient_toward_zero((desktop - origin) * AXIS_MAX, denominator);
    if scaled < 0 {
        0
    } else if scaled > AXIS_MAX {
        AXIS_MAX
    } else {
        scaled as i32
    }
}

/// Maps a desktop pixel coordinate into the uinput axis range, clamped to it.
pub fn map_axis(desktop: i32, origin: i32, extent: i32) -> (r: i32)
    requires
        i32::MIN <= desktop - origin <= i32::MAX,
    ensures
        r == spec_map_axis(desktop, origin, extent),
        0 <= r <= AXIS_MAX,
{
    let denominator: i64 = if extent as i64 - 1 > 1 {
        extent as i64 - 1
    } else {
        1
    };
    let d: i64 = (desktop - origin) as i64;
    assert(-0x8000_0000 * 32_767 <= d * 32_767 <= 0x7fff_ffff * 32_767) by (nonlinear_arith)
        requires
            -0x8000_0000 <= d <= 0x7fff_ffff,
    ;
    let numerator: i64 = d * (AXIS_MAX as i64);
    let scaled: i64 = if numerator >= 0 {
        numerator / denominator
    } else {
        -((-numerator) / denominator)
    };
    if scaled < 0 {
        0
    } else if scaled > AXIS_MAX as i64 {
        AXIS_MAX
    } else {
        scaled as i32
    }
}

pub open spec fn clamp_tilt(v: i32) -> i32 {
    if v < TILT_MIN {
        TILT_MIN
    } else if v > TILT_MAX {
        TILT_MAX
    } else {
        v
    }
}

/// The axis events of a pen sample: position, pressure and tilt.
pub open spec fn spec_pen_axes(command: PenInjectionCommand, g: ScreenGeometry) -> Seq<InputEvent> {
    seq![
        spec_event(EV_ABS, ABS_X, spec_map_axis(command.x, g.left, g.width)),
        spec_event(EV_ABS, ABS_Y, spec_map_axis(command.y, g.top, g.height)),
        spec_event(EV_ABS, ABS_PRESSURE, command.pressure as i32),
        spec_event(EV_ABS, ABS_TILT_X, clamp_tilt(command.tilt_x)),
        spec_event(EV_ABS, ABS_TILT_Y, clamp_tilt(command.tilt_y)),
    ]
}

/// The pen sample lies where the geometry's corner can be subtracted from it.
pub open spec fn pen_fits(command: PenInjectionCommand, g: ScreenGeometry) -> bool {
    i32::MIN <= command.x - g.left <= i32::MAX && i32::MIN <= command.y - g.top <= i32::MAX
}

pub fn push_pen_axes(events: &mut Vec<InputEvent>, command: &PenInjectionCommand, geometry: &ScreenGeometry)
    requires
        pen_fits(*command, *geometry),
    ensures
        final(events)@ == old(events)@ + spec_pen_axes(*command, *geometry),
{
    events.push(event(EV_ABS, ABS_X, geometry.axis_x(command.x)));
    events.push(event(EV_ABS, ABS_Y, geometry.axis_y(command.y)));
    events.push(event(EV_ABS, ABS_PRESSURE, command.pressure as i32));
    let tx = if command.tilt_x < TILT_MIN {
        TILT_MIN
    } else if command.tilt_x > TILT_MAX {
        TILT_MAX
    } else {
        command.tilt_x
    };
    let ty = if command.tilt_y < TILT_MIN {
        TILT_MIN
    } else if command.tilt_y > TILT_MAX {
        TILT_MAX
    } else {
        command.tilt_y
    };
    events.push(event(EV_ABS, ABS_TILT_X, tx));
    events.push(event(EV_ABS, ABS_TILT_Y, ty));
    assert(events@ =~= old(events)@ + spec_pen_axes(*command, *geometry));
}

/// Whether the virtual pen tool is asserted, so entering and leaving
/// proximity are reported once each.
#[derive(Debug, Clone, Copy, PartialEq, Eq, Default, Structural)]
pub struct ProximityState {
    pub in_proximity: bool,
}

/// The events of one pen sample and whether the tool is in proximity after
/// it: the tool enters when the pen comes in range, the sample's own frame
/// follows, and leaving range adds a frame that releases the tool.
pub open spec fn spec_build_events(in_proximity: bool, command: PenInjectionCommand, g: ScreenGeometry) -> (
    Seq<InputEvent>,
    bool,
) {
    let enter = command.in_range && !in_proximity;
    let head = if enter {
        seq![spec_event(EV_KEY, BTN_TOOL_PEN, 1)]
    } else {
        Seq::empty()
    };
    let p1 = in_proximity || enter;
    let (body, p2) = match command.kind {
        PenInjectionCommandKind::Down => (
            seq![spec_event(EV_KEY, BTN_TOUCH, 1)] + spec_pen_axes(command, g),
            p1,
        ),
        PenInjectionCommandKind::Update => (
            seq![spec_event(EV_KEY, BTN_TOUCH, if command.is_contact { 1i32 } else { 0i32 })]
                + spec_pen_axes(command, g),
            p1,
        ),
        PenInjectionCommandKind::Up => (seq![spec_event(EV_KEY, BTN_TOUCH, 0)], p1),
        PenInjectionCommandKind::Cancel => (
            seq![
                spec_event(EV_KEY, BTN_TOUCH, 0),
                spec_event(EV_KEY, BTN_TOOL_PEN, 0),
                spec_event(EV_ABS, ABS_PRESSURE, 0),
            ],
            false,
        ),
    };
    let frame = head + body + seq![spec_event(EV_SYN, SYN_REPORT, 0)];
    if !command.in_range && p2 {
        (
            frame + seq![spec_event(EV_KEY, BTN_TOOL_PEN, 0), spec_event(EV_SYN, SYN_REPORT, 0)],
            false,
        )
    } else {
        (frame, p2)
    }
}

impl ProximityState {
    /// The events of one pen sample; see [`spec_build_events`].
    pub fn build_events(&mut self, command: &PenInjectionCommand, geometry: &ScreenGeometry) -> (r: Vec<
        InputEvent,
    >)
        requires
            pen_fits(*command, *geometry),
        ensures
            (r@, final(self).in_proximity) == spec_build_events(
                old(self).in_proximity,
                *command,
                *geometry,
            ),
    {
        let mut events: Vec<InputEvent> = Vec::new();
        if command.in_range && !self.in_proximity {
            events.push(event(EV_KEY, BTN_TOOL_PEN, 1));
            self.in_proximity = true;
        }
        let ghost head = events@;
        match command.kind {
            PenInjectionCommandKind::Down => {
                events.push(event(EV_KEY, BTN_TOUCH, 1));
                push_pen_axes(&mut events, command, geometry);
            },
            PenInjectionCommandKind::Update => {
                let touch: i32 = if command.is_contact {
                    1
                } else {
                    0
                };
                events.push(event(EV_KEY, BTN_TOUCH, touch));
                push_pen_axes(&mut events, command, geometry);
            },
            PenInjectionCommandKind::Up => {
                events.push(event(EV_KEY, BTN_TOUCH, 0));
            },
            PenInjectionCommandKind::Cancel => {
                events.push(event(EV_KEY, BTN_TOUCH, 0));
                events.push(event(EV_KEY, BTN_TOOL_PEN, 0));
                events.push(event(EV_ABS, ABS_PRESSURE, 0));
                self.in_proximity = false;
            },
        }
        events.push(syn_event());
        let ghost frame = events@;
        if !command.in_range && self.in_proximity {
            events.push(event(EV_KEY, BTN_TOOL_PEN, 0));
            self.in_proximity = false;
            events.push(syn_event());
        }
        proof {
            let (want, _) = spec_build_events(old(self).in_proximity, *command, *geometry);
            assert(events@ =~= want);
        }
        events
    }
}


/// The evdev code of a key of the virtual keyboard. A key that exists on
/// both sides of the keyboard without a side stands for its left one.
pub open spec fn spec_linux_key(key: KeyCode) -> u16 {
    match key {
        KeyCode::Alt => 56,
        KeyCode::AltLeft => 56,
        KeyCode::AltRight => 100,
        KeyCode::Space => 57,
        KeyCode::Shift => 42,
        KeyCode::ShiftLeft => 42,
        KeyCode::ShiftRight => 54,
        KeyCode::Control => 29,
        KeyCode::ControlLeft => 29,
        KeyCode::ControlRight => 97,
        KeyCode::MetaLeft => 125,
        KeyCode::MetaRight => 126,
        KeyCode::Enter => 28,
        KeyCode::Tab => 15,
        KeyCode::Escape => 1,
        KeyCode::Backspace => 14,
        KeyCode::Delete => 111,
        KeyCode::Insert => 110,
        KeyCode::Home => 102,
        KeyCode::End => 107,
        KeyCode::PageUp => 104,
        KeyCode::PageDown => 109,
        KeyCode::ArrowUp => 103,
        KeyCode::ArrowDown => 108,
        KeyCode::ArrowLeft => 105,
        KeyCode::ArrowRight => 106,
        KeyCode::CapsLock => 58,
        KeyCode::NumLock => 69,
        KeyCode::ScrollLock => 70,
        KeyCode::PrintScreen => 99,
        KeyCode::Pause => 119,
        KeyCode::ContextMenu => 127,
        KeyCode::A => 30,
        KeyCode::B => 48,
        KeyCode::C => 46,
        KeyCode::D => 32,
        KeyCode::E => 18,
        KeyCode::F => 33,
        KeyCode::G => 34,
        KeyCode::H => 35,
        KeyCode::I => 23,
        KeyCode::J => 36,
        KeyCode::K => 37,
        KeyCode::L => 38,
        KeyCode::M => 50,
        KeyCode::N => 49,
        KeyCode::O => 24,
        KeyCode::P => 25,
        KeyCode::Q => 16,
        KeyCode::R => 19,
        KeyCode::S => 31,
        KeyCode::T => 20,
        KeyCode::U => 22,
        KeyCode::V => 47,
        KeyCode::W => 17,
        KeyCode::X => 45,
        KeyCode::Y => 21,
        KeyCode::Z => 44,
        KeyCode::Digit0 => 11,
        KeyCode::Digit1 => 2,
        KeyCode::Digit2 => 3,
        KeyCode::Digit3 => 4,
        KeyCode::Digit4 => 5,
        KeyCode::Digit5 => 6,
        KeyCode::Digit6 => 7,
        KeyCode::Digit7 => 8,
        KeyCode::Digit8 => 9,
        KeyCode::Digit9 => 10,
        KeyCode::BracketLeft => 26,
        KeyCode::BracketRight => 27,
        KeyCode::Backquote => 41,
        KeyCode::Minus => 12,
        KeyCode::Equal => 13,
        KeyCode::Backslash => 43,
        KeyCode::Semicolon => 39,
        KeyCode::Quote => 40,
        KeyCode::Comma => 51,
        KeyCode::Period => 52,
        KeyCode::Slash => 53,
        KeyCode::F1 => 59,
        KeyCode::F2 => 60,
        KeyCode::F3 => 61,
        KeyCode::F4 => 62,
        KeyCode::F5 => 63,
        KeyCode::F6 => 64,
        KeyCode::F7 => 65,
        KeyCode::F8 => 66,
        KeyCode::F9 => 67,
        KeyCode::F10 => 68,
        KeyCode::F11 => 87,
        KeyCode::F12 => 88,
        KeyCode::F13 => 183,
        KeyCode::F14 => 184,
        KeyCode::F15 => 185,
        KeyCode::F16 => 186,
        KeyCode::F17 => 187,
        KeyCode::F18 => 188,
        KeyCode::F19 => 189,
        KeyCode::F20 => 190,
        KeyCode::F21 => 191,
        KeyCode::F22 => 192,
        KeyCode::F23 => 193,
        KeyCode::F24 => 194,
        KeyCode::Numpad0 => 82,
        KeyCode::Numpad1 => 79,
        KeyCode::Numpad2 => 80,
        KeyCode::Numpad3 => 81,
        KeyCode::Numpad4 => 75,
        KeyCode::Numpad5 => 76,
        KeyCode::Numpad6 => 77,
        KeyCode::Numpad7 => 71,
        KeyCode::Numpad8 => 72,
        KeyCode::Numpad9 => 73,
        KeyCode::NumpadAdd => 78,
        KeyCode::NumpadSubtract => 74,
        KeyCode::NumpadMultiply => 55,
        KeyCode::NumpadDivide => 98,
        KeyCode::NumpadDecimal => 83,
        KeyCode::NumpadEnter => 96,
        KeyCode::VolumeMute => 113,
        KeyCode::VolumeDown => 114,
        KeyCode::VolumeUp => 115,
        KeyCode::MediaPreviousTrack => 165,
        KeyCode::MediaNextTrack => 163,
        KeyCode::MediaPlayPause => 164,
        KeyCode::MediaStop => 166,
        KeyCode::BrowserBack => 158,
        KeyCode::BrowserForward => 159,
        KeyCode::BrowserRefresh => 173,
        KeyCode::BrowserStop => 128,
        KeyCode::BrowserSearch => 217,
        KeyCode::BrowserFavorites => 156,
        KeyCode::BrowserHome => 172,
    }
}

/// The evdev code of `key`; see [`spec_linux_key`].
pub fn linux_key(key: KeyCode) -> (r: u16)
    ensures
        r == spec_linux_key(key),
{
    match key {
        KeyCode::Alt => 56,
        KeyCode::AltLeft => 56,
        KeyCode::AltRight => 100,
        KeyCode::Space => 57,
        KeyCode::Shift => 42,
        KeyCode::ShiftLeft => 42,
        KeyCode::ShiftRight => 54,
        KeyCode::Control => 29,
        KeyCode::ControlLeft => 29,
        KeyCode::ControlRight => 97,
        KeyCode::MetaLeft => 125,
        KeyCode::MetaRight => 126,
        KeyCode::Enter => 28,
        KeyCode::Tab => 15,
        KeyCode::Escape => 1,
        KeyCode::Backspace => 14,
        KeyCode::Delete => 111,
        KeyCode::Insert => 110,
        KeyCode::Home => 102,
        KeyCode::End => 107,
        KeyCode::PageUp => 104,
        KeyCode::PageDown => 109,
        KeyCode::ArrowUp => 103,
        KeyCode::ArrowDown => 108,
        KeyCode::ArrowLeft => 105,
        KeyCode::ArrowRight => 106,
        KeyCode::CapsLock => 58,
        KeyCode::NumLock => 69,
        KeyCode::ScrollLock => 70,
        KeyCode::PrintScreen => 99,
        KeyCode::Pause => 119,
        KeyCode::ContextMenu => 127,
        KeyCode::A => 30,
        KeyCode::B => 48,
        KeyCode::C => 46,
        KeyCode::D => 32,
        KeyCode::E => 18,
        KeyCode::F => 33,
        KeyCode::G => 34,
        KeyCode::H => 35,
        KeyCode::I => 23,
        KeyCode::J => 36,
        KeyCode::K => 37,
        KeyCode::L => 38,
        KeyCode::M => 50,
        KeyCode::N => 49,
        KeyCode::O => 24,
        KeyCode::P => 25,
        KeyCode::Q => 16,
        KeyCode::R => 19,
        KeyCode::S => 31,
        KeyCode::T => 20,
        KeyCode::U => 22,
        KeyCode::V => 47,
        KeyCode::W => 17,
        KeyCode::X => 45,
        KeyCode::Y => 21,
        KeyCode::Z => 44,
        KeyCode::Digit0 => 11,
        KeyCode::Digit1 => 2,
        KeyCode::Digit2 => 3,
        KeyCode::Digit3 => 4,
        KeyCode::Digit4 => 5,
        KeyCode::Digit5 => 6,
        KeyCode::Digit6 => 7,
        KeyCode::Digit7 => 8,
        KeyCode::Digit8 => 9,
        KeyCode::Digit9 => 10,
        KeyCode::BracketLeft => 26,
        KeyCode::BracketRight => 27,
        KeyCode::Backquote => 41,
        KeyCode::Minus => 12,
        KeyCode::Equal => 13,
        KeyCode::Backslash => 43,
        KeyCode::Semicolon => 39,
        KeyCode::Quote => 40,
        KeyCode::Comma => 51,
        KeyCode::Period => 52,
        KeyCode::Slash => 53,
        KeyCode::F1 => 59,
        KeyCode::F2 => 60,
        KeyCode::F3 => 61,
        KeyCode::F4 => 62,
        KeyCode::F5 => 63,
        KeyCode::F6 => 64,
        KeyCode::F7 => 65,
        KeyCode::F8 => 66,
        KeyCode::F9 => 67,
        KeyCode::F10 => 68,
        KeyCode::F11 => 87,
        KeyCode::F12 => 88,
        KeyCode::F13 => 183,
        KeyCode::F14 => 184,
        KeyCode::F15 => 185,
        KeyCode::F16 => 186,
        KeyCode::F17 => 187,
        KeyCode::F18 => 188,
        KeyCode::F19 => 189,
        KeyCode::F20 => 190,
        KeyCode::F21 => 191,
        KeyCode::F22 => 192,
        KeyCode::F23 => 193,
        KeyCode::F24 => 194,
        KeyCode::Numpad0 => 82,
        KeyCode::Numpad1 => 79,
        KeyCode::Numpad2 => 80,
        KeyCode::Numpad3 => 81,
        KeyCode::Numpad4 => 75,
        KeyCode::Numpad5 => 76,
        KeyCode::Numpad6 => 77,
        KeyCode::Numpad7 => 71,
        KeyCode::Numpad8 => 72,
        KeyCode::Numpad9 => 73,
        KeyCode::NumpadAdd => 78,
        KeyCode::NumpadSubtract => 74,
        KeyCode::NumpadMultiply => 55,
        KeyCode::NumpadDivide => 98,
        KeyCode::NumpadDecimal => 83,
        KeyCode::NumpadEnter => 96,
        KeyCode::VolumeMute => 113,
        KeyCode::VolumeDown => 114,
        KeyCode::VolumeUp => 115,
        KeyCode::MediaPreviousTrack => 165,
        KeyCode::MediaNextTrack => 163,
        KeyCode::MediaPlayPause => 164,
        KeyCode::MediaStop => 166,
        KeyCode::BrowserBack => 158,
        KeyCode::BrowserForward => 159,
        KeyCode::BrowserRefresh => 173,
        KeyCode::BrowserStop => 128,
        KeyCode::BrowserSearch => 217,
        KeyCode::BrowserFavorites => 156,
        KeyCode::BrowserHome => 172,
    }
}

/// Relative-axis events.
pub const EV_REL: u16 = 0x02;
pub const REL_X: u16 = 0x00;
pub const REL_Y: u16 = 0x01;
pub const REL_WHEEL: u16 = 0x08;
pub const BTN_LEFT: u16 = 0x110;
pub const BTN_RIGHT: u16 = 0x111;

/// One wheel notch in the units the shortcut engine emits.
pub const WHEEL_NOTCH: i32 = 120;

pub open spec fn spec_button_key(button: MouseButton) -> u16 {
    match button {
        MouseButton::Left => BTN_LEFT,
        MouseButton::Right => BTN_RIGHT,
    }
}

/// The evdev code of a mouse button.
pub fn button_key(button: MouseButton) -> (r: u16)
    ensures
        r == spec_button_key(button),
{
    match button {
        MouseButton::Left => BTN_LEFT,
        MouseButton::Right => BTN_RIGHT,
    }
}

/// Presses of `keys`, in order.
pub open spec fn key_presses(keys: Seq<KeyCode>) -> Seq<InputEvent> {
    keys.map_values(|k: KeyCode| spec_event(EV_KEY, spec_linux_key(k), 1))
}

/// Releases of `keys`, last key first.
pub open spec fn key_releases_reversed(keys: Seq<KeyCode>) -> Seq<InputEvent>
    decreases keys.len(),
{
    if keys.len() == 0 {
        Seq::empty()
    } else {
        seq![spec_event(EV_KEY, spec_linux_key(keys.last()), 0)] + key_releases_reversed(
            keys.drop_last(),
        )
    }
}

/// A click target lies where the geometry's corner can be subtracted from it.
pub open spec fn command_fits(command: ShortcutCommandModel, g: ScreenGeometry) -> bool {
    match command {
        ShortcutCommandModel::ClickAt { x, y, .. } => i32::MIN <= x - g.left <= i32::MAX && i32::MIN
            <= y - g.top <= i32::MAX,
        _ => true,
    }
}

/// The virtual keyboard's events for one shortcut command: key and button
/// changes each end a frame, a chord presses its keys in one frame and
/// releases them in reverse in the next, the wheel moves by whole notches
/// (rounded toward zero), and a click first moves the pointer to its target.
pub open spec fn spec_shortcut_events(command: ShortcutCommandModel, g: ScreenGeometry) -> Seq<
    InputEvent,
> {
    let syn = spec_event(EV_SYN, SYN_REPORT, 0);
    match command {
        ShortcutCommandModel::KeyDown(k) => seq![spec_event(EV_KEY, spec_linux_key(k), 1), syn],
        ShortcutCommandModel::KeyUp(k) => seq![spec_event(EV_KEY, spec_linux_key(k), 0), syn],
        ShortcutCommandModel::PressChord(keys) => key_presses(keys) + seq![syn]
            + key_releases_reversed(keys) + seq![syn],
        ShortcutCommandModel::MouseMoveRelative { dx, dy } => seq![
            spec_event(EV_REL, REL_X, dx),
            spec_event(EV_REL, REL_Y, dy),
            syn,
        ],
        ShortcutCommandModel::MouseWheel { delta } => seq![
            spec_event(EV_REL, REL_WHEEL, quotient_toward_zero(delta as int, 120) as i32),
            syn,
        ],
        ShortcutCommandModel::MouseButtonDown(b) => seq![
            spec_event(EV_KEY, spec_button_key(b), 1),
            syn,
        ],
        ShortcutCommandModel::MouseButtonUp(b) => seq![spec_event(EV_KEY, spec_button_key(b), 0), syn],
        ShortcutCommandModel::ClickAt { button, x, y } => seq![
            spec_event(EV_ABS, ABS_X, spec_map_axis(x, g.left, g.width)),
            spec_event(EV_ABS, ABS_Y, spec_map_axis(y, g.top, g.height)),
            syn,
            spec_event(EV_KEY, spec_button_key(button), 1),
            syn,
            spec_event(EV_KEY, spec_button_key(button), 0),
            syn,
        ],
    }
}

/// Whether [`build_shortcut_events`] accepts `command` on `geometry`.
pub fn shortcut_command_fits(command: &ShortcutCommand, geometry: &ScreenGeometry) -> (r: bool)
    ensures
        r == command_fits(command@, *geometry),
{
    match command {
        ShortcutCommand::ClickAt { x, y, .. } => {
            let dx = *x as i64 - geometry.left as i64;
            let dy = *y as i64 - geometry.top as i64;
            -2_147_483_648 <= dx && dx <= 2_147_483_647 && -2_147_483_648 <= dy && dy
                <= 2_147_483_647
        },
        _ => true,
    }
}

/// The virtual keyboard's events for `command`; see [`spec_shortcut_events`].
pub fn build_shortcut_events(command: &ShortcutCommand, geometry: &ScreenGeometry) -> (r: Vec<
    InputEvent,
>)
    requires
        command_fits(command@, *geometry),
    ensures
        r@ == spec_shortcut_events(command@, *geometry),
{
    let mut events: Vec<InputEvent> = Vec::new();
    match command {
        ShortcutCommand::KeyDown(k) => {
            events.push(event(EV_KEY, linux_key(*k), 1));
            events.push(syn_event());
        },
        ShortcutCommand::KeyUp(k) => {
            events.push(event(EV_KEY, linux_key(*k), 0));
            events.push(syn_event());
        },
        ShortcutCommand::PressChord(keys) => {
            let mut i: usize = 0;
            while i < keys.len()
                invariant
                    i <= keys@.len(),
                    events@ == key_presses(keys@.take(i as int)),
                decreases keys@.len() - i,
            {
                events.push(event(EV_KEY, linux_key(keys[i]), 1));
                proof {
                    assert(keys@.take(i as int + 1) =~= keys@.take(i as int).push(keys@[i as int]));
                    assert(key_presses(keys@.take(i as int + 1)) =~= key_presses(
                        keys@.take(i as int),
                    ).push(spec_event(EV_KEY, spec_linux_key(keys@[i as int]), 1)));
                }
                i = i + 1;
            }
            assert(keys@.take(keys@.len() as int) =~= keys@);
            events.push(syn_event());
            let ghost pressed = events@;
            proof {
                lemma_releases_len(keys@);
            }
            let mut j: usize = keys.len();
            while j > 0
                invariant
                    j <= keys@.len(),
                    events@ == pressed + key_releases_reversed(keys@).take(
                        (keys@.len() - j) as int,
                    ),
                    key_releases_reversed(keys@).len() == keys@.len(),
                decreases j,
            {
                proof {
                    lemma_releases_index(keys@, (keys@.len() - j) as int);
                }
                j = j - 1;
                events.push(event(EV_KEY, linux_key(keys[j]), 0));
                proof {
                    let rel = key_releases_reversed(keys@);
                    assert(rel.take((keys@.len() - j) as int) =~= rel.take(
                        (keys@.len() - j - 1) as int,
                    ).push(rel[(keys@.len() - j - 1) as int]));
                }
            }
            assert(key_releases_reversed(keys@).take(keys@.len() as int) =~= key_releases_reversed(
                keys@,
            ));
            events.push(syn_event());
        },
        ShortcutCommand::MouseMoveRelative { dx, dy } => {
            events.push(event(EV_REL, REL_X, *dx));
            events.push(event(EV_REL, REL_Y, *dy));
            events.push(syn_event());
        },
        ShortcutCommand::MouseWheel { delta } => {
            let d: i64 = *delta as i64;
            let notches: i32 = if d >= 0 {
                (d / 120) as i32
            } else {
                -((-d) / 120) as i32
            };
            events.push(event(EV_REL, REL_WHEEL, notches));
            events.push(syn_event());
        },
        ShortcutCommand::MouseButtonDown(b) => {
            events.push(event(EV_KEY, button_key(*b), 1));
            events.push(syn_event());
        },
        ShortcutCommand::MouseButtonUp(b) => {
            events.push(event(EV_KEY, button_key(*b), 0));
            events.push(syn_event());
        },
        ShortcutCommand::ClickAt { button, x, y } => {
            events.push(event(EV_ABS, ABS_X, geometry.axis_x(*x)));
            events.push(event(EV_ABS, ABS_Y, geometry.axis_y(*y)));
            events.push(syn_event());
            let code = button_key(*button);
            events.push(event(EV_KEY, code, 1));
            events.push(syn_event());
            events.push(event(EV_KEY, code, 0));
            events.push(syn_event());
        },
    }
    proof {
        assert(events@ =~= spec_shortcut_events(command@, *geometry));
    }
    events
}

/// The release at position `i` is that of the key `i` places from the end.
proof fn lemma_releases_index(keys: Seq<KeyCode>, i: int)
    requires
        0 <= i < keys.len(),
    ensures
        key_releases_reversed(keys).len() == keys.len(),
        key_releases_reversed(keys)[i] == spec_event(EV_KEY, spec_linux_key(keys[keys.len() - 1 - i]), 0),
    decreases keys.len(),
{
    lemma_releases_len(keys);
    if i > 0 {
        lemma_releases_index(keys.drop_last(), i - 1);
    }
}

proof fn lemma_releases_len(keys: Seq<KeyCode>)
    ensures
        key_releases_reversed(keys).len() == keys.len(),
    decreases keys.len(),
{
    if keys.len() > 0 {
        lemma_releases_len(keys.drop_last());
    }
}


/// The keys the virtual keyboard declares: every key code, in order, then
/// the left and right mouse buttons.
pub open spec fn spec_key_capabilities() -> Seq<u16> {
    spec_all_key_codes().map_values(|k: KeyCode| spec_linux_key(k)) + seq![BTN_LEFT, BTN_RIGHT]
}

/// See [`spec_key_capabilities`].
pub fn key_capabilities() -> (r: Vec<u16>)
    ensures
        r@ == spec_key_capabilities(),
{
    let keys = all_key_codes();
    let mut codes: Vec<u16> = Vec::new();
    let mut i: usize = 0;
    while i < keys.len()
        invariant
            keys@ == spec_all_key_codes(),
            i <= keys@.len(),
            codes@ == keys@.take(i as int).map_values(|k: KeyCode| spec_linux_key(k)),
        decreases keys@.len() - i,
    {
        codes.push(linux_key(keys[i]));
        proof {
            assert(keys@.take(i as int + 1) =~= keys@.take(i as int).push(keys@[i as int]));
            assert(keys@.take(i as int + 1).map_values(|k: KeyCode| spec_linux_key(k))
                =~= keys@.take(i as int).map_values(|k: KeyCode| spec_linux_key(k)).push(
                spec_linux_key(keys@[i as int]),
            ));
        }
        i = i + 1;
    }
    assert(keys@.take(keys@.len() as int) =~= keys@);
    codes.push(BTN_LEFT);
    codes.push(BTN_RIGHT);
    assert(codes@ =~= spec_key_capabilities());
    codes
}

} // verus!
