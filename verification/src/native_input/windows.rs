use vstd::prelude::*;

use crate::input_pipeline::mapping::{PenInjectionCommand, PenInjectionCommandKind};
use crate::shortcut::domain::{MouseButton, ShortcutCommand, ShortcutCommandModel};
use crate::shortcut::keys::KeyCode;

verus! {

pub const POINTER_FLAG_NEW: u32 = 0x0000_0001;

pub const POINTER_FLAG_INRANGE: u32 = 0x0000_0002;

pub const POINTER_FLAG_INCONTACT: u32 = 0x0000_0004;

pub const POINTER_FLAG_FIRSTBUTTON: u32 = 0x0000_0010;

pub const POINTER_FLAG_PRIMARY: u32 = 0x0000_2000;

pub const POINTER_FLAG_CANCELED: u32 = 0x0000_8000;

pub const POINTER_FLAG_DOWN: u32 = 0x0001_0000;

pub const POINTER_FLAG_UPDATE: u32 = 0x0002_0000;

pub const POINTER_FLAG_UP: u32 = 0x0004_0000;

pub const KEYEVENTF_EXTENDEDKEY: u32 = 0x0001;

pub const KEYEVENTF_KEYUP: u32 = 0x0002;

pub const MOUSEEVENTF_MOVE: u32 = 0x0001;

pub const MOUSEEVENTF_LEFTDOWN: u32 = 0x0002;

pub const MOUSEEVENTF_LEFTUP: u32 = 0x0004;

pub const MOUSEEVENTF_RIGHTDOWN: u32 = 0x0008;

pub const MOUSEEVENTF_RIGHTUP: u32 = 0x0010;

pub const MOUSEEVENTF_WHEEL: u32 = 0x0800;

pub const MOUSEEVENTF_VIRTUALDESK: u32 = 0x4000;

pub const MOUSEEVENTF_ABSOLUTE: u32 = 0x8000;

/// The pointer flags of a synthetic pen sample.
#[derive(Debug, Clone, Copy, PartialEq, Eq, Structural)]
pub struct PointerFlags(pub u32);

/// The pointer flags of a pen command: primary always, in range and touching
/// as the pen is, and the transition its kind makes.
pub open spec fn spec_pointer_flags(command: PenInjectionCommand) -> u32 {
    let base = POINTER_FLAG_PRIMARY | (if command.in_range {
        POINTER_FLAG_INRANGE
    } else {
        0u32
    }) | (if command.is_contact {
        POINTER_FLAG_INCONTACT | POINTER_FLAG_FIRSTBUTTON
    } else {
        0u32
    });
    base | match command.kind {
        PenInjectionCommandKind::Down => POINTER_FLAG_NEW | POINTER_FLAG_DOWN,
        PenInjectionCommandKind::Update => POINTER_FLAG_UPDATE,
        PenInjectionCommandKind::Up => POINTER_FLAG_UP,
        PenInjectionCommandKind::Cancel => POINTER_FLAG_CANCELED | POINTER_FLAG_UP,
    }
}

pub fn build_pointer_flags(command: &PenInjectionCommand) -> (r: PointerFlags)
    ensures
        r.0 == spec_pointer_flags(*command),
{
    let range_bits: u32 = if command.in_range {
        POINTER_FLAG_INRANGE
    } else {
        0u32
    };
    let contact_bits: u32 = if command.is_contact {
        POINTER_FLAG_INCONTACT | POINTER_FLAG_FIRSTBUTTON
    } else {
        0u32
    };
    let kind_bits: u32 = match command.kind {
        PenInjectionCommandKind::Down => POINTER_FLAG_NEW | POINTER_FLAG_DOWN,
        PenInjectionCommandKind::Update => POINTER_FLAG_UPDATE,
        PenInjectionCommandKind::Up => POINTER_FLAG_UP,
        PenInjectionCommandKind::Cancel => POINTER_FLAG_CANCELED | POINTER_FLAG_UP,
    };
    PointerFlags(POINTER_FLAG_PRIMARY | range_bits | contact_bits | kind_bits)
}

/// A pixel position for the synthetic pointer API.
#[derive(Debug, Clone, Copy, PartialEq, Eq, Structural)]
pub struct PointerLocation {
    pub x: i32,
    pub y: i32,
}

/// The synthetic pointer API counts from the top-left of the virtual screen,
/// so a desktop position is taken relative to that corner.
pub fn synthetic_pointer_location(desktop_x: i32, desktop_y: i32, virtual_left: i32, virtual_top: i32) -> (r:
    PointerLocation)
    requires
        i32::MIN <= desktop_x - virtual_left <= i32::MAX,
        i32::MIN <= desktop_y - virtual_top <= i32::MAX,
    ensures
        r.x == desktop_x - virtual_left,
        r.y == desktop_y - virtual_top,
{
    PointerLocation { x: desktop_x - virtual_left, y: desktop_y - virtual_top }
}

/// A keyboard event for `SendInput`.
#[derive(Debug, Clone, Copy, PartialEq, Eq, Structural)]
pub struct KeyboardInput {
    pub virtual_key: u16,
    pub flags: u32,
}

/// A mouse event for `SendInput`.
#[derive(Debug, Clone, Copy, PartialEq, Eq, Structural)]
pub struct MouseInput {
    pub dx: i32,
    pub dy: i32,
    pub mouse_data: u32,
    pub flags: u32,
}

/// One event for `SendInput`.
#[derive(Debug, Clone, Copy, PartialEq, Eq, Structural)]
pub enum WindowsInput {
    Keyboard(KeyboardInput),
    Mouse(MouseInput),
}

pub open spec fn spec_keyboard_input(key: KeyCode, key_up: bool) -> WindowsInput {
    WindowsInput::Keyboard(
        KeyboardInput {
            virtual_key: key.spec_virtual_key(),
            flags: (if key.spec_is_extended() {
                KEYEVENTF_EXTENDEDKEY
            } else {
                0u32
            }) | (if key_up {
                KEYEVENTF_KEYUP
            } else {
                0u32
            }),
        },
    )
}

/// The press or release of a key, flagged as extended where Windows wants it.
pub fn keyboard_input(key: KeyCode, key_up: bool) -> (r: WindowsInput)
    ensures
        r == spec_keyboard_input(key, key_up),
{
    let extended_bits: u32 = if key.is_extended() {
        KEYEVENTF_EXTENDEDKEY
    } else {
        0u32
    };
    let up_bits: u32 = if key_up {
        KEYEVENTF_KEYUP
    } else {
        0u32
    };
    let flags = extended_bits | up_bits;
    WindowsInput::Keyboard(KeyboardInput { virtual_key: key.virtual_key(), flags })
}

pub open spec fn spec_mouse_input(dx: i32, dy: i32, mouse_data: i32, flags: u32) -> WindowsInput {
    WindowsInput::Mouse(MouseInput { dx, dy, mouse_data: mouse_data as u32, flags })
}

pub fn mouse_input(dx: i32, dy: i32, mouse_data: i32, flags: u32) -> (r: WindowsInput)
    ensures
        r == spec_mouse_input(dx, dy, mouse_data, flags),
{
    WindowsInput::Mouse(MouseInput { dx, dy, mouse_data: mouse_data as u32, flags })
}

pub fn mouse_move_relative_input(dx: i32, dy: i32) -> (r: WindowsInput)
    ensures
        r == spec_mouse_input(dx, dy, 0, MOUSEEVENTF_MOVE),
{
    mouse_input(dx, dy, 0, MOUSEEVENTF_MOVE)
}

pub fn mouse_wheel_input(delta: i32) -> (r: WindowsInput)
    ensures
        r == spec_mouse_input(0, 0, delta, MOUSEEVENTF_WHEEL),
{
    mouse_input(0, 0, delta, MOUSEEVENTF_WHEEL)
}

pub open spec fn spec_button_flags(button: MouseButton, down: bool) -> u32 {
    match (button, down) {
        (MouseButton::Left, true) => MOUSEEVENTF_LEFTDOWN,
        (MouseButton::Left, false) => MOUSEEVENTF_LEFTUP,
        (MouseButton::Right, true) => MOUSEEVENTF_RIGHTDOWN,
        (MouseButton::Right, false) => MOUSEEVENTF_RIGHTUP,
    }
}

pub fn mouse_button_input(button: MouseButton, down: bool) -> (r: WindowsInput)
    ensures
        r == spec_mouse_input(0, 0, 0, spec_button_flags(button, down)),
{
    let flags = match (button, down) {
        (MouseButton::Left, true) => MOUSEEVENTF_LEFTDOWN,
        (MouseButton::Left, false) => MOUSEEVENTF_LEFTUP,
        (MouseButton::Right, true) => MOUSEEVENTF_RIGHTDOWN,
        (MouseButton::Right, false) => MOUSEEVENTF_RIGHTUP,
    };
    mouse_input(0, 0, 0, flags)
}

/// The presses of a chord in order, then its releases in reverse order.
pub open spec fn spec_chord_inputs(keys: Seq<KeyCode>) -> Seq<WindowsInput> {
    Seq::new(keys.len(), |i: int| spec_keyboard_input(keys[i], false)) + Seq::new(
        keys.len(),
        |i: int| spec_keyboard_input(keys[keys.len() - 1 - i], true),
    )
}

pub fn build_chord_inputs(keys: &Vec<KeyCode>) -> (r: Vec<WindowsInput>)
    ensures
        r@ == spec_chord_inputs(keys@),
{
    let mut inputs: Vec<WindowsInput> = Vec::new();
    let mut i: usize = 0;
    while i < keys.len()
        invariant
            i <= keys@.len(),
            inputs@ == Seq::new(i as nat, |j: int| spec_keyboard_input(keys@[j], false)),
        decreases keys@.len() - i,
    {
        inputs.push(keyboard_input(keys[i], false));
        i = i + 1;
        assert(inputs@ =~= Seq::new(i as nat, |j: int| spec_keyboard_input(keys@[j], false)));
    }
    let n = keys.len();
    let mut k: usize = 0;
    while k < n
        invariant
            n == keys@.len(),
            k <= n,
            inputs@ == Seq::new(n as nat, |j: int| spec_keyboard_input(keys@[j], false)) + Seq::new(
                k as nat,
                |j: int| spec_keyboard_input(keys@[n - 1 - j], true),
            ),
        decreases n - k,
    {
        inputs.push(keyboard_input(keys[n - 1 - k], true));
        k = k + 1;
        assert(inputs@ =~= Seq::new(n as nat, |j: int| spec_keyboard_input(keys@[j], false))
            + Seq::new(k as nat, |j: int| spec_keyboard_input(keys@[n - 1 - j], true)));
    }
    inputs
}

/// The virtual screen: its top-left corner and its size in pixels.
#[derive(Debug, Clone, Copy, PartialEq, Eq, Structural)]
pub struct VirtualScreen {
    pub left: i32,
    pub top: i32,
    pub width: i32,
    pub height: i32,
}

/// `n / d` rounded toward zero, as Rust divides, for `d > 0`.
pub open spec fn div_toward_zero(n: int, d: int) -> int {
    if n >= 0 {
        n / d
    } else {
        -((-n) / d)
    }
}

/// A desktop coordinate scaled onto the 0..=65535 range of absolute mouse
/// input across an extent of `size` pixels starting at `origin`.
pub open spec fn spec_absolute_coord(v: i32, origin: i32, size: i32) -> i32 {
    let extent = if size > 1 {
        size
    } else {
        1
    };
    let denominator = if extent - 1 > 1 {
        extent - 1
    } else {
        1
    };
    div_toward_zero((v - origin) * 65_535, denominator) as i32
}

fn absolute_coord(v: i32, origin: i32, size: i32) -> (r: i32)
    requires
        i32::MIN <= v - origin <= i32::MAX,
    ensures
        r == spec_absolute_coord(v, origin, size),
{
    let extent: i32 = if size > 1 {
        size
    } else {
        1
    };
    let denominator: i64 = if (extent - 1) as i64 > 1 {
        (extent - 1) as i64
    } else {
        1
    };
    let numerator: i64 = ((v - origin) as i64) * 65_535;
    let quotient: i64 = if numerator >= 0 {
        numerator / denominator
    } else {
        -((-numerator) / denominator)
    };
    quotient as i32
}

/// A desktop position as absolute mouse coordinates on the virtual screen.
pub fn absolute_mouse_coords(x: i32, y: i32, screen: VirtualScreen) -> (r: (i32, i32))
    requires
        i32::MIN <= x - screen.left <= i32::MAX,
        i32::MIN <= y - screen.top <= i32::MAX,
    ensures
        r == (
            spec_absolute_coord(x, screen.left, screen.width),
            spec_absolute_coord(y, screen.top, screen.height),
        ),
{
    (absolute_coord(x, screen.left, screen.width), absolute_coord(y, screen.top, screen.height))
}

/// A click at a desktop position: move there, then press and release.
pub fn build_click_at_inputs(button: MouseButton, x: i32, y: i32, screen: VirtualScreen) -> (r: Vec<
    WindowsInput,
>)
    requires
        i32::MIN <= x - screen.left <= i32::MAX,
        i32::MIN <= y - screen.top <= i32::MAX,
    ensures
        r@ == seq![
            spec_mouse_input(
                spec_absolute_coord(x, screen.left, screen.width),
                spec_absolute_coord(y, screen.top, screen.height),
                0,
                MOUSEEVENTF_MOVE | MOUSEEVENTF_ABSOLUTE | MOUSEEVENTF_VIRTUALDESK,
            ),
            spec_mouse_input(0, 0, 0, spec_button_flags(button, true)),
            spec_mouse_input(0, 0, 0, spec_button_flags(button, false)),
        ],
{
    let (dx, dy) = absolute_mouse_coords(x, y, screen);
    let r = vec![
        mouse_input(dx, dy, 0, MOUSEEVENTF_MOVE | MOUSEEVENTF_ABSOLUTE | MOUSEEVENTF_VIRTUALDESK),
        mouse_button_input(button, true),
        mouse_button_input(button, false),
    ];
    assert(r@ =~= seq![
        spec_mouse_input(dx, dy, 0, MOUSEEVENTF_MOVE | MOUSEEVENTF_ABSOLUTE | MOUSEEVENTF_VIRTUALDESK),
        spec_mouse_input(0, 0, 0, spec_button_flags(button, true)),
        spec_mouse_input(0, 0, 0, spec_button_flags(button, false)),
    ]);
    r
}

/// A click position lies where the virtual screen's corner can be subtracted from it.
pub open spec fn click_fits(command: ShortcutCommandModel, screen: VirtualScreen) -> bool {
    command matches ShortcutCommandModel::ClickAt { x, y, .. } ==> (i32::MIN <= x - screen.left
        <= i32::MAX && i32::MIN <= y - screen.top <= i32::MAX)
}

/// The `SendInput` events that carry out a shortcut command.
pub open spec fn spec_inputs_for(command: ShortcutCommandModel, screen: VirtualScreen) -> Seq<WindowsInput> {
    match command {
        ShortcutCommandModel::KeyDown(key) => seq![spec_keyboard_input(key, false)],
        ShortcutCommandModel::KeyUp(key) => seq![spec_keyboard_input(key, true)],
        ShortcutCommandModel::PressChord(keys) => spec_chord_inputs(keys),
        ShortcutCommandModel::MouseMoveRelative { dx, dy } => seq![
            spec_mouse_input(dx, dy, 0, MOUSEEVENTF_MOVE),
        ],
        ShortcutCommandModel::MouseWheel { delta } => seq![
            spec_mouse_input(0, 0, delta, MOUSEEVENTF_WHEEL),
        ],
        ShortcutCommandModel::MouseButtonDown(button) => seq![
            spec_mouse_input(0, 0, 0, spec_button_flags(button, true)),
        ],
        ShortcutCommandModel::MouseButtonUp(button) => seq![
            spec_mouse_input(0, 0, 0, spec_button_flags(button, false)),
        ],
        ShortcutCommandModel::ClickAt { button, x, y } => seq![
            spec_mouse_input(
                spec_absolute_coord(x, screen.left, screen.width),
                spec_absolute_coord(y, screen.top, screen.height),
                0,
                MOUSEEVENTF_MOVE | MOUSEEVENTF_ABSOLUTE | MOUSEEVENTF_VIRTUALDESK,
            ),
            spec_mouse_input(0, 0, 0, spec_button_flags(button, true)),
            spec_mouse_input(0, 0, 0, spec_button_flags(button, false)),
        ],
    }
}

/// The `SendInput` events that carry out a shortcut command.
pub fn inputs_for_command(command: &ShortcutCommand, screen: VirtualScreen) -> (r: Vec<WindowsInput>)
    requires
        click_fits(command@, screen),
    ensures
        r@ == spec_inputs_for(command@, screen),
{
    let r = match command {
        ShortcutCommand::KeyDown(key) => vec![keyboard_input(*key, false)],
        ShortcutCommand::KeyUp(key) => vec![keyboard_input(*key, true)],
        ShortcutCommand::PressChord(keys) => {
            return build_chord_inputs(keys);
        },
        ShortcutCommand::MouseMoveRelative { dx, dy } => vec![mouse_move_relative_input(*dx, *dy)],
        ShortcutCommand::MouseWheel { delta } => vec![mouse_wheel_input(*delta)],
        ShortcutCommand::MouseButtonDown(button) => vec![mouse_button_input(*button, true)],
        ShortcutCommand::MouseButtonUp(button) => vec![mouse_button_input(*button, false)],
        ShortcutCommand::ClickAt { button, x, y } => {
            return build_click_at_inputs(*button, *x, *y, screen);
        },
    };
    assert(r@ =~= spec_inputs_for(command@, screen));
    r
}

} // verus!
