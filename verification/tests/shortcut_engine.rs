use airslate_pc_server::input_pipeline::shortcut_worker::ShortcutWorker;
use airslate_pc_server::protocol::model::{GestureFrame, GestureState, GestureType, StylusFlags};
use airslate_pc_server::shortcut::domain::{
    AdvancedAction, BindingId, GestureBinding, MouseButton, PointerAnchor, RadialInnerSlot,
    RadialMenuConfig, ScreenPoint, ShortcutAction, ShortcutCommand, StylusTrigger, SwipeAxis,
};
use airslate_pc_server::shortcut::engine::{
    apply_overlay_effects, monitor_center, monitor_center_fits, EngineOutput, GestureMotion, OverlayEffect,
    ShortcutEngine,
};
use airslate_pc_server::shortcut::keys::KeyCode;
use airslate_pc_server::shortcut::profile::ShortcutProfile;
use airslate_pc_server::shortcut::radial_menu::{
    null_radial_menu_overlay, RadialAnchor, RadialMenuOverlay, RadialMenuOverlayState,
    RadialSelection,
};
use airslate_pc_server::workspace::{MonitorId, MonitorInfo};

const MS: u64 = 1_000_000;
const START: u64 = 1_000 * MS;
const CENTER: ScreenPoint = ScreenPoint { x: 960, y: 540 };

fn gesture_frame(gesture_type: GestureType, state: GestureState, seq: u32, val1: f32) -> GestureFrame {
    gesture_frame_xy(gesture_type, state, seq, val1, 0.0)
}

fn gesture_frame_xy(
    gesture_type: GestureType,
    state: GestureState,
    seq: u32,
    val1: f32,
    val2: f32,
) -> GestureFrame {
    GestureFrame {
        gesture_type,
        state,
        seq,
        timestamp: 10,
        val1_bits: val1.to_bits(),
        val2_bits: val2.to_bits(),
        val3_bits: 0,
        val4_bits: 0,
    }
}

fn still() -> GestureMotion {
    GestureMotion {
        drag_dx: 0,
        drag_dy: 0,
        wheel_delta: 0,
        rotate_dx: 0,
        selection: RadialSelection::Center,
    }
}

fn pointing_at(selection: RadialSelection) -> GestureMotion {
    GestureMotion {
        selection,
        ..still()
    }
}

struct Harness {
    engine: ShortcutEngine,
    profile: ShortcutProfile,
}

impl Harness {
    fn new() -> Self {
        Self::with_profile(ShortcutProfile::default())
    }

    fn with_profile(profile: ShortcutProfile) -> Self {
        Harness {
            engine: ShortcutEngine::new(),
            profile,
        }
    }

    fn gesture(&mut self, frame: GestureFrame, now: u64, motion: GestureMotion) -> Vec<ShortcutCommand> {
        self.engine
            .process_gesture(&self.profile, &frame, now, Some(CENTER), &motion)
            .commands
    }

    fn flags(&mut self, seq: u32, flags: u8, now: u64) -> Vec<ShortcutCommand> {
        self.engine
            .process_stylus_flags(&self.profile, seq, StylusFlags(flags), now)
            .commands
    }

    fn hover(&mut self, x: i32, y: i32, is_contact: bool) {
        self.engine
            .update_pointer_context(ScreenPoint { x, y }, true, is_contact);
    }
}

fn commands(output: EngineOutput) -> Vec<ShortcutCommand> {
    output.commands
}

#[test]
fn hold_begin_update_end_emits_expected_commands() {
    let mut h = Harness::new();
    assert_eq!(
        h.gesture(
            gesture_frame(GestureType::OneLongPress, GestureState::Begin, 1, 0.0),
            START,
            still()
        ),
        vec![ShortcutCommand::KeyDown(KeyCode::Alt)]
    );
    assert!(h
        .gesture(
            gesture_frame(GestureType::OneLongPress, GestureState::Update, 2, 0.0),
            START + 200 * MS,
            still()
        )
        .is_empty());
    assert_eq!(
        h.gesture(
            gesture_frame(GestureType::OneLongPress, GestureState::End, 3, 0.0),
            START + 250 * MS,
            still()
        ),
        vec![ShortcutCommand::KeyUp(KeyCode::Alt)]
    );
}

#[test]
fn hold_combo_presses_and_releases_all_keys_in_order() {
    let mut profile = ShortcutProfile::default();
    profile.set_custom_binding(
        BindingId::Gesture(GestureBinding::LongPress { fingers: 1 }),
        ShortcutAction::HoldKeys(vec![KeyCode::Control, KeyCode::Shift, KeyCode::Z]),
    );
    let mut h = Harness::with_profile(profile);

    assert_eq!(
        h.gesture(
            gesture_frame(GestureType::OneLongPress, GestureState::Begin, 1, 0.0),
            START,
            still()
        ),
        vec![
            ShortcutCommand::KeyDown(KeyCode::Control),
            ShortcutCommand::KeyDown(KeyCode::Shift),
            ShortcutCommand::KeyDown(KeyCode::Z),
        ]
    );
    assert_eq!(
        h.gesture(
            gesture_frame(GestureType::OneLongPress, GestureState::End, 2, 0.0),
            START + 20 * MS,
            still()
        ),
        vec![
            ShortcutCommand::KeyUp(KeyCode::Z),
            ShortcutCommand::KeyUp(KeyCode::Shift),
            ShortcutCommand::KeyUp(KeyCode::Control),
        ]
    );
}

#[test]
fn hold_ttl_expiry_releases_non_long_press_binding() {
    let mut h = Harness::new();

    assert!(h
        .gesture(
            gesture_frame(GestureType::TwoPan, GestureState::Begin, 1, 0.0),
            START,
            still()
        )
        .is_empty());
    let expired = h.engine.expire_due(START + 150 * MS);
    assert!(expired.commands.is_empty());
    assert_eq!(expired.overlay, vec![OverlayEffect::Hide]);

    assert_eq!(
        h.gesture(
            gesture_frame(GestureType::TwoLongPress, GestureState::Begin, 2, 0.0),
            START,
            still()
        ),
        vec![ShortcutCommand::KeyDown(KeyCode::Space)]
    );
    assert_eq!(
        commands(h.engine.expire_due(START + 450 * MS)),
        vec![ShortcutCommand::KeyUp(KeyCode::Space)]
    );
}

#[test]
fn long_press_update_extends_ttl_for_200ms_cadence() {
    let mut h = Harness::new();
    h.gesture(
        gesture_frame(GestureType::ThreeLongPress, GestureState::Begin, 1, 0.0),
        START,
        still(),
    );
    h.gesture(
        gesture_frame(GestureType::ThreeLongPress, GestureState::Update, 2, 0.0),
        START + 200 * MS,
        still(),
    );

    assert!(commands(h.engine.expire_due(START + 450 * MS)).is_empty());
    assert_eq!(
        commands(h.engine.expire_due(START + 470 * MS)),
        vec![ShortcutCommand::KeyUp(KeyCode::Shift)]
    );
}

#[test]
fn trigger_deduplicates_duplicate_swipe_seq() {
    let mut h = Harness::new();
    assert_eq!(
        h.gesture(
            gesture_frame(GestureType::OneSwipe, GestureState::Begin, 7, 0.0),
            START,
            still()
        ),
        vec![ShortcutCommand::PressChord(vec![KeyCode::E])]
    );
    assert!(h
        .gesture(
            gesture_frame(GestureType::OneSwipe, GestureState::Begin, 7, 0.0),
            START + MS,
            still()
        )
        .is_empty());
}

#[test]
fn stylus_flag_pulses_fire_once_per_packet_seq() {
    let mut h = Harness::new();
    assert!(h.flags(1, 0, START).is_empty());
    assert_eq!(
        h.flags(2, 0b0001_0000, START + MS),
        vec![ShortcutCommand::PressChord(vec![KeyCode::Control, KeyCode::Z])]
    );
    assert_eq!(
        h.flags(3, 0b0001_0000, START + 2 * MS),
        vec![ShortcutCommand::PressChord(vec![KeyCode::Control, KeyCode::Z])]
    );
    assert!(h.flags(3, 0b0001_0000, START + 3 * MS).is_empty());
}

#[test]
fn squeeze_uses_same_secondary_click_anchor_resolution_as_double_tap() {
    let mut h = Harness::new();
    h.hover(640, 480, false);
    assert_eq!(
        h.flags(1, 0b0000_0100, START),
        vec![ShortcutCommand::ClickAt {
            button: MouseButton::Right,
            x: 640,
            y: 480
        }]
    );

    h.hover(700, 520, true);
    assert_eq!(
        h.flags(2, 0b0000_0100, START + MS),
        vec![ShortcutCommand::ClickAt {
            button: MouseButton::Right,
            x: 700,
            y: 520
        }]
    );
}

#[test]
fn stylus_trigger_executes_keyboard_and_pointer_click_components_together() {
    let mut profile = ShortcutProfile::default();
    profile.set_custom_binding(
        BindingId::StylusTrigger(StylusTrigger::Squeeze),
        ShortcutAction::Advanced(AdvancedAction::PointerClick {
            keys: vec![KeyCode::Control, KeyCode::K],
            button: MouseButton::Left,
            anchor: PointerAnchor::CurrentHoverOrLastInRange,
        }),
    );
    let mut h = Harness::with_profile(profile);
    h.hover(320, 240, false);

    assert_eq!(
        h.flags(1, 0b0000_0100, START),
        vec![
            ShortcutCommand::PressChord(vec![KeyCode::Control, KeyCode::K]),
            ShortcutCommand::ClickAt {
                button: MouseButton::Left,
                x: 320,
                y: 240,
            },
        ]
    );
}

#[test]
fn empty_keyboard_component_emits_no_keyboard_command() {
    let mut profile = ShortcutProfile::default();
    profile.set_custom_binding(
        BindingId::Gesture(GestureBinding::Swipe {
            fingers: 1,
            axis: SwipeAxis::Horizontal,
        }),
        ShortcutAction::TriggerChord(Vec::new()),
    );
    let mut h = Harness::with_profile(profile);

    assert!(h
        .gesture(
            gesture_frame(GestureType::OneSwipe, GestureState::Begin, 1, 0.0),
            START,
            still()
        )
        .is_empty());
}

#[test]
fn three_pan_begin_update_end_emits_mouse_drag_lifecycle() {
    let mut h = Harness::new();
    assert_eq!(
        h.gesture(
            gesture_frame_xy(GestureType::ThreePan, GestureState::Begin, 1, 0.0, 0.0),
            START,
            still()
        ),
        vec![
            ShortcutCommand::KeyDown(KeyCode::Alt),
            ShortcutCommand::MouseButtonDown(MouseButton::Right),
        ]
    );
    let update = gesture_frame_xy(GestureType::ThreePan, GestureState::Update, 2, 12.0, -8.0);
    let binding = BindingId::Gesture(GestureBinding::ThreePan);
    assert_eq!(
        h.engine.motion_reference(binding),
        Some((0.0_f32.to_bits(), 0.0_f32.to_bits()))
    );
    assert_eq!(
        h.gesture(
            update,
            START + 10 * MS,
            GestureMotion {
                drag_dx: 12,
                drag_dy: -8,
                ..still()
            }
        ),
        vec![ShortcutCommand::MouseMoveRelative { dx: 12, dy: -8 }]
    );
    assert_eq!(
        h.engine.motion_reference(binding),
        Some((12.0_f32.to_bits(), (-8.0_f32).to_bits()))
    );
    assert_eq!(
        h.gesture(
            gesture_frame_xy(GestureType::ThreePan, GestureState::End, 3, 0.0, 0.0),
            START + 20 * MS,
            still()
        ),
        vec![
            ShortcutCommand::MouseButtonUp(MouseButton::Right),
            ShortcutCommand::KeyUp(KeyCode::Alt),
        ]
    );
}

#[test]
fn two_pinch_update_emits_wheel_delta() {
    let mut h = Harness::new();
    assert_eq!(
        h.gesture(
            gesture_frame(GestureType::TwoPinch, GestureState::Begin, 1, 1.0),
            START,
            still()
        ),
        vec![ShortcutCommand::KeyDown(KeyCode::Alt)]
    );
    assert_eq!(
        h.engine
            .motion_reference(BindingId::Gesture(GestureBinding::TwoPinch)),
        Some((1.0_f32.to_bits(), 0))
    );
    assert_eq!(
        h.gesture(
            gesture_frame(GestureType::TwoPinch, GestureState::Update, 2, 1.1),
            START + 10 * MS,
            GestureMotion {
                wheel_delta: 120,
                ..still()
            }
        ),
        vec![ShortcutCommand::MouseWheel { delta: 120 }]
    );
    assert_eq!(
        h.gesture(
            gesture_frame(GestureType::TwoPinch, GestureState::End, 3, 1.1),
            START + 20 * MS,
            still()
        ),
        vec![ShortcutCommand::KeyUp(KeyCode::Alt)]
    );
}

#[test]
fn two_rotate_begin_triggers_single_r_press() {
    let mut h = Harness::new();
    assert_eq!(
        h.gesture(
            gesture_frame(GestureType::TwoRotate, GestureState::Begin, 1, 30.0),
            START,
            still()
        ),
        vec![ShortcutCommand::PressChord(vec![KeyCode::R])]
    );
    assert!(h
        .gesture(
            gesture_frame(GestureType::TwoRotate, GestureState::Update, 2, 33.0),
            START + 10 * MS,
            GestureMotion {
                rotate_dx: 12,
                ..still()
            }
        )
        .is_empty());
    assert!(h
        .gesture(
            gesture_frame(GestureType::TwoRotate, GestureState::End, 3, 33.0),
            START + 20 * MS,
            still()
        )
        .is_empty());
}

#[test]
fn rotation_bound_to_pointer_rotate_moves_sideways() {
    let mut profile = ShortcutProfile::default();
    profile.set_custom_binding(
        BindingId::Gesture(GestureBinding::TwoRotate),
        ShortcutAction::Advanced(AdvancedAction::PointerRotate {
            modifiers: vec![KeyCode::Shift],
        }),
    );
    let mut h = Harness::with_profile(profile);
    assert_eq!(
        h.gesture(
            gesture_frame(GestureType::TwoRotate, GestureState::Begin, 1, 30.0),
            START,
            still()
        ),
        vec![ShortcutCommand::KeyDown(KeyCode::Shift)]
    );
    assert_eq!(
        h.gesture(
            gesture_frame(GestureType::TwoRotate, GestureState::Update, 2, 33.0),
            START + 10 * MS,
            GestureMotion {
                rotate_dx: 12,
                ..still()
            }
        ),
        vec![ShortcutCommand::MouseMoveRelative { dx: 12, dy: 0 }]
    );
    assert_eq!(
        h.gesture(
            gesture_frame(GestureType::TwoRotate, GestureState::End, 3, 33.0),
            START + 20 * MS,
            still()
        ),
        vec![ShortcutCommand::KeyUp(KeyCode::Shift)]
    );
}

#[test]
fn double_tap_prefers_current_hover_then_last_in_range() {
    let mut h = Harness::new();
    h.hover(640, 480, false);
    assert_eq!(
        h.flags(1, 0b0000_1000, START),
        vec![ShortcutCommand::ClickAt {
            button: MouseButton::Right,
            x: 640,
            y: 480
        }]
    );

    h.hover(700, 520, true);
    assert_eq!(
        h.flags(2, 0b0000_1000, START + MS),
        vec![ShortcutCommand::ClickAt {
            button: MouseButton::Right,
            x: 700,
            y: 520
        }]
    );
}

#[test]
fn double_tap_without_pointer_context_emits_nothing() {
    let mut h = Harness::new();
    assert!(h.flags(1, 0b0000_1000, START).is_empty());
}

#[test]
fn two_pan_end_on_center_emits_nothing() {
    let mut h = Harness::new();
    h.hover(320, 240, false);
    assert!(h
        .gesture(
            gesture_frame_xy(GestureType::TwoPan, GestureState::Begin, 1, 0.0, 0.0),
            START,
            pointing_at(RadialSelection::Center)
        )
        .is_empty());
    assert!(h
        .gesture(
            gesture_frame_xy(GestureType::TwoPan, GestureState::End, 2, 0.0, 0.0),
            START + 10 * MS,
            pointing_at(RadialSelection::Center)
        )
        .is_empty());
}

#[test]
fn two_pan_inner_slot_toggles_key_state() {
    let mut h = Harness::new();
    let top = pointing_at(RadialSelection::Inner(RadialInnerSlot::Top));
    h.hover(320, 240, false);

    h.gesture(
        gesture_frame_xy(GestureType::TwoPan, GestureState::Begin, 1, 0.0, -56.0),
        START,
        top,
    );
    assert_eq!(
        h.gesture(
            gesture_frame_xy(GestureType::TwoPan, GestureState::End, 2, 0.0, -56.0),
            START + 10 * MS,
            top
        ),
        vec![ShortcutCommand::KeyDown(KeyCode::Shift)]
    );

    h.gesture(
        gesture_frame_xy(GestureType::TwoPan, GestureState::Begin, 3, 0.0, -56.0),
        START + 20 * MS,
        top,
    );
    assert_eq!(
        h.gesture(
            gesture_frame_xy(GestureType::TwoPan, GestureState::End, 4, 0.0, -56.0),
            START + 30 * MS,
            top
        ),
        vec![ShortcutCommand::KeyUp(KeyCode::Shift)]
    );
}

#[test]
fn radial_menu_overlay_follows_the_gesture() {
    let mut h = Harness::new();
    let top = pointing_at(RadialSelection::Inner(RadialInnerSlot::Top));
    h.hover(320, 240, false);

    let opened = h.engine.process_gesture(
        &h.profile,
        &gesture_frame_xy(GestureType::TwoPan, GestureState::Begin, 1, 0.0, 0.0),
        START,
        Some(CENTER),
        &pointing_at(RadialSelection::Center),
    );
    match &opened.overlay[..] {
        [OverlayEffect::Show(state)] => {
            assert_eq!(state.anchor, RadialAnchor { center: CENTER });
            assert_eq!(state.selection, RadialSelection::Center);
            assert!(state.active_inner_slots.is_empty());
            assert_eq!(state.config, RadialMenuConfig::default_config());
        }
        other => panic!("expected the overlay to open, got {other:?}"),
    }

    let moved = h.engine.process_gesture(
        &h.profile,
        &gesture_frame_xy(GestureType::TwoPan, GestureState::Update, 2, 0.0, -56.0),
        START + 5 * MS,
        Some(CENTER),
        &top,
    );
    assert!(matches!(
        &moved.overlay[..],
        [OverlayEffect::Update(state)] if state.selection == top.selection
    ));

    let closed = h.engine.process_gesture(
        &h.profile,
        &gesture_frame_xy(GestureType::TwoPan, GestureState::End, 3, 0.0, -56.0),
        START + 10 * MS,
        Some(CENTER),
        &top,
    );
    assert_eq!(closed.commands, vec![ShortcutCommand::KeyDown(KeyCode::Shift)]);
    assert_eq!(
        closed.overlay,
        vec![
            OverlayEffect::Hide,
            OverlayEffect::SyncHoldIndicator(Some(ScreenPoint { x: 320, y: 240 })),
        ]
    );
}

#[test]
fn radial_menu_needs_a_monitor_to_open() {
    let mut h = Harness::new();
    let opened = h.engine.process_gesture(
        &h.profile,
        &gesture_frame_xy(GestureType::TwoPan, GestureState::Begin, 1, 0.0, 0.0),
        START,
        None,
        &still(),
    );
    assert!(opened.commands.is_empty());
    assert!(opened.overlay.is_empty());
    assert_eq!(
        h.engine
            .motion_reference(BindingId::Gesture(GestureBinding::TwoPan)),
        None
    );
}

#[test]
fn two_pan_with_disabled_inner_ring_uses_outer_slot_command() {
    let mut profile = ShortcutProfile::default();
    let mut radial = RadialMenuConfig::default_config();
    radial.inner_enabled = false;
    profile.set_radial_menu(radial);
    let mut h = Harness::with_profile(profile);
    h.hover(320, 240, false);

    h.gesture(
        gesture_frame_xy(GestureType::TwoPan, GestureState::Begin, 1, 0.0, -56.0),
        START,
        pointing_at(RadialSelection::Outer(0)),
    );
    assert_eq!(
        h.gesture(
            gesture_frame_xy(GestureType::TwoPan, GestureState::End, 2, 0.0, -56.0),
            START + 10 * MS,
            pointing_at(RadialSelection::Outer(0))
        ),
        vec![ShortcutCommand::PressChord(vec![KeyCode::V])]
    );
}

#[test]
fn four_tap_releases_all_active_keydown_state_once_per_seq() {
    let mut h = Harness::new();
    let top = pointing_at(RadialSelection::Inner(RadialInnerSlot::Top));
    h.hover(320, 240, false);

    h.gesture(
        gesture_frame_xy(GestureType::TwoPan, GestureState::Begin, 1, 0.0, -56.0),
        START,
        top,
    );
    assert_eq!(
        h.gesture(
            gesture_frame_xy(GestureType::TwoPan, GestureState::End, 2, 0.0, -56.0),
            START + 10 * MS,
            top
        ),
        vec![ShortcutCommand::KeyDown(KeyCode::Shift)]
    );

    assert_eq!(
        h.flags(10, 0b0100_0000, START + 20 * MS),
        vec![ShortcutCommand::KeyUp(KeyCode::Shift)]
    );
    assert!(h.flags(10, 0b0100_0000, START + 21 * MS).is_empty());
}

#[test]
fn two_pan_outer_slot_emits_one_shot_chord() {
    let mut h = Harness::new();
    let right = pointing_at(RadialSelection::Outer(2));
    h.hover(320, 240, false);

    h.gesture(
        gesture_frame_xy(GestureType::TwoPan, GestureState::Begin, 1, 160.0, 0.0),
        START,
        right,
    );
    assert_eq!(
        h.gesture(
            gesture_frame_xy(GestureType::TwoPan, GestureState::End, 2, 160.0, 0.0),
            START + 10 * MS,
            right
        ),
        vec![ShortcutCommand::PressChord(vec![KeyCode::BracketRight])]
    );
}

#[test]
fn release_all_releases_active_holds_and_advanced_state() {
    let mut h = Harness::new();
    h.gesture(
        gesture_frame(GestureType::FourLongPress, GestureState::Begin, 1, 0.0),
        START,
        still(),
    );
    h.gesture(
        gesture_frame_xy(GestureType::ThreePan, GestureState::Begin, 2, 0.0, 0.0),
        START + MS,
        still(),
    );

    let released = h.engine.release_all();
    assert_eq!(
        released.commands,
        vec![
            ShortcutCommand::MouseButtonUp(MouseButton::Right),
            ShortcutCommand::KeyUp(KeyCode::Alt),
            ShortcutCommand::KeyUp(KeyCode::Control),
        ]
    );
    assert_eq!(
        released.overlay,
        vec![OverlayEffect::SyncHoldIndicator(None)]
    );
    assert!(h.engine.release_all().commands.is_empty());
}

#[test]
fn handle_session_end_releases_active_shortcuts_and_clears_pointer_context() {
    let mut h = Harness::new();
    h.hover(100, 200, false);
    h.gesture(
        gesture_frame_xy(GestureType::ThreePan, GestureState::Begin, 1, 0.0, 0.0),
        START,
        still(),
    );

    assert_eq!(
        h.engine.handle_session_end().commands,
        vec![
            ShortcutCommand::MouseButtonUp(MouseButton::Right),
            ShortcutCommand::KeyUp(KeyCode::Alt),
        ]
    );
    assert!(h.flags(2, 0b0000_1000, START + MS).is_empty());
}

#[test]
fn toggled_keys_are_released_with_everything_else() {
    let mut h = Harness::new();
    let top = pointing_at(RadialSelection::Inner(RadialInnerSlot::Top));
    let left = pointing_at(RadialSelection::Inner(RadialInnerSlot::Left));
    for (seq, motion) in [(1, top), (3, left)] {
        h.gesture(
            gesture_frame_xy(GestureType::TwoPan, GestureState::Begin, seq, 0.0, 0.0),
            START,
            motion,
        );
        h.gesture(
            gesture_frame_xy(GestureType::TwoPan, GestureState::End, seq + 1, 0.0, 0.0),
            START,
            motion,
        );
    }
    assert_eq!(
        h.engine.release_all().commands,
        vec![
            ShortcutCommand::KeyUp(KeyCode::Shift),
            ShortcutCommand::KeyUp(KeyCode::Space),
        ]
    );
}

#[test]
fn monitor_center_is_where_the_radial_menu_opens() {
    let monitor = MonitorInfo {
        id: MonitorId::new("m".to_string()),
        device_name: "M".to_string(),
        is_primary: true,
        pixel_width: 1920,
        pixel_height: 1080,
        virtual_left: -1920,
        virtual_top: 0,
        virtual_right: 0,
        virtual_bottom: 1080,
    };
    assert!(monitor_center_fits(&monitor));
    assert_eq!(monitor_center(&monitor), ScreenPoint { x: -960, y: 540 });
    let huge = MonitorInfo {
        pixel_width: u32::MAX,
        ..monitor
    };
    assert!(!monitor_center_fits(&huge));
}

#[test]
fn shortcut_worker_ignores_events_of_ended_sessions() {
    let profile = ShortcutProfile::default();
    let mut worker = ShortcutWorker::new();
    let begin = gesture_frame(GestureType::OneLongPress, GestureState::Begin, 1, 0.0);
    assert_eq!(
        worker
            .handle_gesture(&profile, "session-a", &begin, START, Some(CENTER), &still())
            .commands,
        vec![ShortcutCommand::KeyDown(KeyCode::Alt)]
    );
    assert_eq!(
        worker.handle_session_end("session-a").commands,
        vec![ShortcutCommand::KeyUp(KeyCode::Alt)]
    );
    assert!(worker.has_ended("session-a"));
    let again = gesture_frame(GestureType::OneLongPress, GestureState::Begin, 2, 0.0);
    assert!(worker
        .handle_gesture(&profile, "session-a", &again, START, Some(CENTER), &still())
        .commands
        .is_empty());
    assert!(worker
        .handle_stylus_flags(&profile, "session-a", 9, StylusFlags(0b0001_0000), START)
        .commands
        .is_empty());
    assert!(worker
        .handle_pointer_context("session-a", ScreenPoint { x: 1, y: 1 }, true, false)
        .is_empty());
    assert_eq!(
        worker
            .handle_stylus_flags(&profile, "session-b", 9, StylusFlags(0b0001_0000), START)
            .commands,
        vec![ShortcutCommand::PressChord(vec![KeyCode::Control, KeyCode::Z])]
    );
}

#[derive(Default)]
struct RecordingOverlay {
    calls: std::cell::RefCell<Vec<String>>,
}

impl RadialMenuOverlay for RecordingOverlay {
    fn show(&self, state: RadialMenuOverlayState) {
        self.calls.borrow_mut().push(format!("show {:?}", state.selection));
    }

    fn update(&self, state: RadialMenuOverlayState) {
        self.calls.borrow_mut().push(format!("update {:?}", state.selection));
    }

    fn hide_menu(&self) {
        self.calls.borrow_mut().push("hide".to_string());
    }

    fn sync_hold_indicator(&self, point: Option<ScreenPoint>) {
        self.calls.borrow_mut().push(format!("hold {:?}", point));
    }
}

#[test]
fn overlay_effects_reach_the_overlay_in_order() {
    let state = RadialMenuOverlayState {
        anchor: RadialAnchor::new(CENTER),
        selection: RadialSelection::Outer(2),
        active_inner_slots: Vec::new(),
        config: RadialMenuConfig::default_config(),
    };
    let overlay = RecordingOverlay::default();
    apply_overlay_effects(
        &overlay,
        vec![
            OverlayEffect::Show(state.clone()),
            OverlayEffect::Update(RadialMenuOverlayState {
                selection: RadialSelection::Center,
                ..state
            }),
            OverlayEffect::Hide,
            OverlayEffect::SyncHoldIndicator(Some(CENTER)),
        ],
    );
    assert_eq!(
        *overlay.calls.borrow(),
        vec![
            "show Outer(2)".to_string(),
            "update Center".to_string(),
            "hide".to_string(),
            format!("hold {:?}", Some(CENTER)),
        ]
    );
    apply_overlay_effects(&null_radial_menu_overlay(), vec![OverlayEffect::Hide]);
}
