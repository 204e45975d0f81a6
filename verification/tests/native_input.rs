use airslate_pc_server::error::AppError;
use airslate_pc_server::input_pipeline::mapping::{PenInjectionCommand, PenInjectionCommandKind};
use airslate_pc_server::native_input::linux::{
    build_shortcut_events, key_capabilities, linux_key, push_pen_axes, shortcut_command_fits,
    InputEvent, ProximityState, ScreenGeometry, ABS_PRESSURE, ABS_TILT_X, ABS_TILT_Y, ABS_X,
    ABS_Y, BTN_LEFT, BTN_RIGHT, BTN_TOOL_PEN, BTN_TOUCH, EV_KEY, EV_SYN, REL_WHEEL, REL_X, REL_Y,
    TILT_MAX, TILT_MIN,
};
use airslate_pc_server::native_input::macos::{
    macos_key_code, mouse_button, mouse_event_type, wheel_line_delta, K_CG_EVENT_LEFT_MOUSE_DOWN,
    K_CG_EVENT_RIGHT_MOUSE_UP, K_CG_MOUSE_BUTTON_RIGHT,
};
use airslate_pc_server::native_input::windows::{
    build_chord_inputs, build_click_at_inputs, build_pointer_flags, inputs_for_command,
    keyboard_input, mouse_button_input, mouse_move_relative_input, mouse_wheel_input,
    synthetic_pointer_location, VirtualScreen, WindowsInput, KEYEVENTF_EXTENDEDKEY,
    KEYEVENTF_KEYUP, MOUSEEVENTF_LEFTDOWN, MOUSEEVENTF_LEFTUP, MOUSEEVENTF_MOVE,
    MOUSEEVENTF_RIGHTDOWN, MOUSEEVENTF_RIGHTUP, MOUSEEVENTF_WHEEL, POINTER_FLAG_CANCELED,
    POINTER_FLAG_DOWN, POINTER_FLAG_FIRSTBUTTON, POINTER_FLAG_INCONTACT, POINTER_FLAG_INRANGE,
    POINTER_FLAG_NEW, POINTER_FLAG_PRIMARY, POINTER_FLAG_UP, POINTER_FLAG_UPDATE,
};
use airslate_pc_server::shortcut::domain::{MouseButton, ShortcutCommand};
use airslate_pc_server::shortcut::keys::{all_key_codes, KeyCode};
use airslate_pc_server::workspace::{MonitorId, MonitorInfo};

fn monitor(width: u32, height: u32, left: i32, top: i32) -> MonitorInfo {
    MonitorInfo {
        id: MonitorId::new("default".to_string()),
        device_name: "DEFAULT".to_string(),
        is_primary: true,
        pixel_width: width,
        pixel_height: height,
        virtual_left: left,
        virtual_top: top,
        virtual_right: left + width as i32,
        virtual_bottom: top + height as i32,
    }
}

fn geometry() -> ScreenGeometry {
    ScreenGeometry::from_monitors(&vec![monitor(1920, 1080, 0, 0)]).expect("geometry")
}

fn command(kind: PenInjectionCommandKind, in_range: bool, is_contact: bool) -> PenInjectionCommand {
    PenInjectionCommand {
        x: 0,
        y: 0,
        tablet_x: 0,
        tablet_y: 0,
        kind,
        in_range,
        is_contact,
        pressure: 512,
        tilt_x: 15,
        tilt_y: -15,
    }
}

fn build(kind: PenInjectionCommandKind, in_range: bool, is_contact: bool) -> (Vec<InputEvent>, bool) {
    let mut proximity = ProximityState::default();
    let events = proximity.build_events(&command(kind, in_range, is_contact), &geometry());
    (events, proximity.in_proximity)
}

fn syn_count(events: &[InputEvent]) -> usize {
    events.iter().filter(|event| event.kind == EV_SYN).count()
}

fn has(events: &[InputEvent], code: u16, value: i32) -> bool {
    events
        .iter()
        .any(|event| event.code == code && event.value == value)
}

fn pen(kind: PenInjectionCommandKind, in_range: bool, is_contact: bool) -> PenInjectionCommand {
    PenInjectionCommand {
        x: 100,
        y: 200,
        tablet_x: 100,
        tablet_y: 200,
        kind,
        in_range,
        is_contact,
        pressure: if is_contact { 512 } else { 0 },
        tilt_x: 0,
        tilt_y: 0,
    }
}

fn mouse_flags(input: &WindowsInput) -> u32 {
    match input {
        WindowsInput::Mouse(mouse) => mouse.flags,
        WindowsInput::Keyboard(_) => panic!("expected a mouse input"),
    }
}

fn screen() -> VirtualScreen {
    VirtualScreen {
        left: 0,
        top: 0,
        width: 1920,
        height: 1080,
    }
}

// Linux.

#[test]
fn coordinates_map_into_the_axis_range() {
    let geometry = geometry();
    assert_eq!(geometry.axis_x(0), 0);
    assert_eq!(geometry.axis_x(1919), 32_767);
    assert_eq!(geometry.axis_x(1920), 32_767);
    assert_eq!(geometry.axis_x(-100), 0);
    assert_eq!(geometry.axis_y(960), 960 * 32_767 / 1_079);
}

#[test]
fn degenerate_extent_does_not_divide_by_zero() {
    let geometry = ScreenGeometry::from_monitors(&vec![monitor(1, 1, 0, 0)]).expect("geometry");
    assert_eq!(geometry.axis_x(0), 0);
    assert_eq!(geometry.axis_x(1), 32_767);
}

#[test]
fn geometry_covers_every_monitor() {
    let geometry = ScreenGeometry::from_monitors(&vec![
        monitor(1920, 1080, 0, 0),
        monitor(1280, 1024, -1280, -200),
    ])
    .expect("geometry");
    assert_eq!(
        geometry,
        ScreenGeometry {
            left: -1280,
            top: -200,
            width: 3200,
            height: 1280,
        }
    );
}

#[test]
fn geometry_without_monitors_is_an_error() {
    assert_eq!(
        ScreenGeometry::from_monitors(&Vec::new()),
        Err(AppError::Workspace(
            "workspace snapshot contains no monitors".to_string()
        ))
    );
}

#[test]
fn down_frame_reports_proximity_tip_and_axes() {
    let (events, in_proximity) = build(PenInjectionCommandKind::Down, true, true);
    assert!(in_proximity);
    assert_eq!(syn_count(&events), 1);
    assert!(has(&events, BTN_TOOL_PEN, 1));
    assert!(has(&events, BTN_TOUCH, 1));
    assert!(has(&events, ABS_PRESSURE, 512));
    assert!(has(&events, ABS_TILT_X, 15));
    assert!(has(&events, ABS_TILT_Y, -15));
}

#[test]
fn update_frame_clears_tip_when_hovering() {
    let (events, _) = build(PenInjectionCommandKind::Update, true, false);
    assert_eq!(syn_count(&events), 1);
    assert!(has(&events, BTN_TOUCH, 0));
}

#[test]
fn up_frame_keeps_tool_pen_while_in_range() {
    let (events, in_proximity) = build(PenInjectionCommandKind::Up, true, false);
    assert!(in_proximity);
    assert_eq!(syn_count(&events), 1);
    assert!(!has(&events, BTN_TOOL_PEN, 0));
}

#[test]
fn leaving_range_adds_a_tool_release_frame() {
    let mut proximity = ProximityState::default();
    let down = command(PenInjectionCommandKind::Down, true, true);
    proximity.build_events(&down, &geometry());
    let up = command(PenInjectionCommandKind::Up, false, false);
    let events = proximity.build_events(&up, &geometry());
    assert!(!proximity.in_proximity);
    assert_eq!(syn_count(&events), 2);
    assert!(has(&events, BTN_TOOL_PEN, 0));
}

#[test]
fn cancel_frame_releases_tip_tool_and_pressure() {
    let (events, in_proximity) = build(PenInjectionCommandKind::Cancel, false, false);
    assert!(!in_proximity);
    assert_eq!(syn_count(&events), 1);
    assert!(has(&events, BTN_TOUCH, 0));
    assert!(has(&events, BTN_TOOL_PEN, 0));
    assert!(has(&events, ABS_PRESSURE, 0));
}

#[test]
fn proximity_enters_only_once() {
    let mut proximity = ProximityState::default();
    let down = command(PenInjectionCommandKind::Down, true, true);
    let update = command(PenInjectionCommandKind::Update, true, true);
    let first = proximity.build_events(&down, &geometry());
    let second = proximity.build_events(&update, &geometry());
    assert_eq!(
        first.iter().filter(|event| event.code == BTN_TOOL_PEN).count(),
        1
    );
    assert_eq!(
        second
            .iter()
            .filter(|event| event.code == BTN_TOOL_PEN)
            .count(),
        0
    );
}

#[test]
fn tilt_clamps_to_the_wacom_range() {
    let geometry = geometry();
    let command = PenInjectionCommand {
        tilt_x: 90,
        tilt_y: -90,
        ..command(PenInjectionCommandKind::Down, true, true)
    };
    let mut events = Vec::new();
    push_pen_axes(&mut events, &command, &geometry);
    assert!(has(&events, ABS_TILT_X, TILT_MAX));
    assert!(has(&events, ABS_TILT_Y, TILT_MIN));
}

// Windows pen.

#[test]
fn down_command_sets_expected_pointer_flags() {
    let flags = build_pointer_flags(&pen(PenInjectionCommandKind::Down, true, true));

    assert_eq!(
        flags.0,
        POINTER_FLAG_PRIMARY
            | POINTER_FLAG_INRANGE
            | POINTER_FLAG_INCONTACT
            | POINTER_FLAG_FIRSTBUTTON
            | POINTER_FLAG_NEW
            | POINTER_FLAG_DOWN
    );
}

#[test]
fn synthetic_pointer_location_is_relative_to_negative_virtual_screen_origin() {
    let point = synthetic_pointer_location(0, 0, -2560, -360);
    assert_eq!((point.x, point.y), (2560, 360));
}

#[test]
fn cancel_command_sets_cancel_and_up_flags() {
    let flags = build_pointer_flags(&pen(PenInjectionCommandKind::Cancel, false, false));
    assert_eq!(
        flags.0,
        POINTER_FLAG_PRIMARY | POINTER_FLAG_CANCELED | POINTER_FLAG_UP
    );
}

#[test]
fn hover_update_sets_in_range_and_update_flags() {
    let flags = build_pointer_flags(&pen(PenInjectionCommandKind::Update, true, false));
    assert_eq!(
        flags.0,
        POINTER_FLAG_PRIMARY | POINTER_FLAG_INRANGE | POINTER_FLAG_UPDATE
    );
}

// Windows shortcuts.

#[test]
fn mouse_move_input_uses_move_flag() {
    match mouse_move_relative_input(12, -6) {
        WindowsInput::Mouse(mouse) => {
            assert_eq!(mouse.flags, MOUSEEVENTF_MOVE);
            assert_eq!(mouse.dx, 12);
            assert_eq!(mouse.dy, -6);
        }
        WindowsInput::Keyboard(_) => panic!("expected a mouse input"),
    }
}

#[test]
fn mouse_wheel_input_uses_wheel_flag() {
    match mouse_wheel_input(120) {
        WindowsInput::Mouse(mouse) => {
            assert_eq!(mouse.flags, MOUSEEVENTF_WHEEL);
            assert_eq!(mouse.mouse_data, 120);
        }
        WindowsInput::Keyboard(_) => panic!("expected a mouse input"),
    }
}

#[test]
fn mouse_button_inputs_use_right_button_flags() {
    let down = mouse_button_input(MouseButton::Right, true);
    let up = mouse_button_input(MouseButton::Right, false);
    assert_eq!(mouse_flags(&down), MOUSEEVENTF_RIGHTDOWN);
    assert_eq!(mouse_flags(&up), MOUSEEVENTF_RIGHTUP);
}

#[test]
fn mouse_button_inputs_use_left_button_flags() {
    let down = mouse_button_input(MouseButton::Left, true);
    let up = mouse_button_input(MouseButton::Left, false);
    assert_eq!(mouse_flags(&down), MOUSEEVENTF_LEFTDOWN);
    assert_eq!(mouse_flags(&up), MOUSEEVENTF_LEFTUP);
}

#[test]
fn right_click_at_builds_move_down_up_sequence() {
    let inputs = build_click_at_inputs(MouseButton::Right, 300, 400, screen());
    assert_eq!(inputs.len(), 3);
    assert_ne!(mouse_flags(&inputs[0]) & MOUSEEVENTF_MOVE, 0);
    assert_eq!(mouse_flags(&inputs[1]), MOUSEEVENTF_RIGHTDOWN);
    assert_eq!(mouse_flags(&inputs[2]), MOUSEEVENTF_RIGHTUP);
}

#[test]
fn windows_chord_presses_in_order_and_releases_reversed() {
    let inputs = build_chord_inputs(&vec![KeyCode::Control, KeyCode::Z]);
    assert_eq!(
        inputs,
        vec![
            keyboard_input(KeyCode::Control, false),
            keyboard_input(KeyCode::Z, false),
            keyboard_input(KeyCode::Z, true),
            keyboard_input(KeyCode::Control, true),
        ]
    );
}

#[test]
fn extended_keys_carry_the_extended_flag() {
    match keyboard_input(KeyCode::NumpadEnter, true) {
        WindowsInput::Keyboard(key) => {
            assert_eq!(key.virtual_key, KeyCode::Enter.virtual_key());
            assert_eq!(key.flags, KEYEVENTF_EXTENDEDKEY | KEYEVENTF_KEYUP);
        }
        WindowsInput::Mouse(_) => panic!("expected a keyboard input"),
    }
}

#[test]
fn shortcut_commands_become_windows_inputs() {
    assert_eq!(
        inputs_for_command(&ShortcutCommand::KeyDown(KeyCode::A), screen()),
        vec![keyboard_input(KeyCode::A, false)]
    );
    assert_eq!(
        inputs_for_command(&ShortcutCommand::MouseWheel { delta: -120 }, screen()),
        vec![mouse_wheel_input(-120)]
    );
    assert_eq!(
        inputs_for_command(
            &ShortcutCommand::ClickAt {
                button: MouseButton::Left,
                x: 10,
                y: 20,
            },
            screen()
        ),
        build_click_at_inputs(MouseButton::Left, 10, 20, screen())
    );
}

// macOS.

#[test]
fn macos_mouse_events_follow_the_button() {
    assert_eq!(mouse_event_type(MouseButton::Left, true), K_CG_EVENT_LEFT_MOUSE_DOWN);
    assert_eq!(mouse_event_type(MouseButton::Right, false), K_CG_EVENT_RIGHT_MOUSE_UP);
    assert_eq!(mouse_button(MouseButton::Right), K_CG_MOUSE_BUTTON_RIGHT);
}

#[test]
fn macos_key_codes_cover_letters_and_refuse_windows_only_keys() {
    assert_eq!(macos_key_code(KeyCode::A), Ok(0x00));
    assert!(macos_key_code(KeyCode::Z).is_ok());
    assert_eq!(wheel_line_delta(0), 0);
}

// Linux virtual keyboard.

fn build_shortcut(command: ShortcutCommand) -> Vec<InputEvent> {
    let geometry = geometry();
    assert!(shortcut_command_fits(&command, &geometry));
    build_shortcut_events(&command, &geometry)
}

const KEY_A: u16 = 30;
const KEY_LEFTCTRL: u16 = 29;
const KEY_LEFTSHIFT: u16 = 42;
const KEY_Z: u16 = 44;

#[test]
fn key_down_and_up_emit_single_frames() {
    let down = build_shortcut(ShortcutCommand::KeyDown(KeyCode::A));
    assert_eq!(syn_count(&down), 1);
    assert!(has(&down, KEY_A, 1));
    let up = build_shortcut(ShortcutCommand::KeyUp(KeyCode::A));
    assert_eq!(syn_count(&up), 1);
    assert!(has(&up, KEY_A, 0));
}

#[test]
fn chord_presses_in_order_and_releases_reversed() {
    let events = build_shortcut(ShortcutCommand::PressChord(vec![
        KeyCode::Control,
        KeyCode::Shift,
        KeyCode::Z,
    ]));
    assert_eq!(syn_count(&events), 2);
    let codes: Vec<u16> = events
        .iter()
        .filter(|event| event.kind == EV_KEY)
        .map(|event| event.code)
        .collect();
    assert_eq!(
        codes,
        vec![KEY_LEFTCTRL, KEY_LEFTSHIFT, KEY_Z, KEY_Z, KEY_LEFTSHIFT, KEY_LEFTCTRL]
    );
}

#[test]
fn wheel_converts_windows_notches() {
    let events = build_shortcut(ShortcutCommand::MouseWheel { delta: 240 });
    assert_eq!(syn_count(&events), 1);
    assert!(has(&events, REL_WHEEL, 2));
    let negative = build_shortcut(ShortcutCommand::MouseWheel { delta: -120 });
    assert!(has(&negative, REL_WHEEL, -1));
}

#[test]
fn wheel_rounds_partial_notches_toward_zero() {
    let events = build_shortcut(ShortcutCommand::MouseWheel { delta: -130 });
    assert!(has(&events, REL_WHEEL, -1));
    let small = build_shortcut(ShortcutCommand::MouseWheel { delta: 119 });
    assert!(has(&small, REL_WHEEL, 0));
}

#[test]
fn relative_move_emits_both_axes() {
    let events = build_shortcut(ShortcutCommand::MouseMoveRelative { dx: 12, dy: -6 });
    assert_eq!(syn_count(&events), 1);
    assert!(has(&events, REL_X, 12));
    assert!(has(&events, REL_Y, -6));
}

#[test]
fn click_at_moves_then_clicks_in_three_frames() {
    let events = build_shortcut(ShortcutCommand::ClickAt {
        button: MouseButton::Right,
        x: 960,
        y: 540,
    });
    assert_eq!(syn_count(&events), 3);
    assert!(has(&events, ABS_X, 960 * 32_767 / 1_919));
    assert!(has(&events, ABS_Y, 540 * 32_767 / 1_079));
    assert!(has(&events, BTN_RIGHT, 1));
    assert!(has(&events, BTN_RIGHT, 0));
}

#[test]
fn mouse_buttons_press_and_release_in_own_frames() {
    let down = build_shortcut(ShortcutCommand::MouseButtonDown(MouseButton::Left));
    assert_eq!(syn_count(&down), 1);
    assert!(has(&down, BTN_LEFT, 1));
    let up = build_shortcut(ShortcutCommand::MouseButtonUp(MouseButton::Left));
    assert!(has(&up, BTN_LEFT, 0));
}

#[test]
fn capability_list_covers_every_key_code() {
    let capabilities = key_capabilities();
    for key in all_key_codes() {
        assert!(capabilities.contains(&linux_key(key)));
    }
    assert!(capabilities.contains(&BTN_LEFT));
    assert!(capabilities.contains(&BTN_RIGHT));
}
