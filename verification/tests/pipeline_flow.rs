use airslate_pc_server::ingest::IncomingEvent;
use airslate_pc_server::input_pipeline::mapping::{
    map_stylus_frame, stylus_frame_fits, PenInjectionCommand, PenInjectionCommandKind,
};
use airslate_pc_server::input_pipeline::queue::{
    push_shortcut_event, push_stylus_event, HoverMovePolicy, ShortcutWorkerEvent,
    StylusWorkerEvent,
};
use airslate_pc_server::input_pipeline::routing::route_incoming_event;
use airslate_pc_server::input_pipeline::shortcut_worker::ShortcutWorker;
use airslate_pc_server::input_pipeline::worker::StylusWorker;
use airslate_pc_server::protocol::model::{
    GestureFrame, GestureState, GestureType, StylusEventType, StylusFlags, StylusFrame,
};
use airslate_pc_server::session::Ipv4Address;
use airslate_pc_server::shortcut::domain::{MouseButton, ShortcutCommand};
use airslate_pc_server::shortcut::engine::{monitor_center, monitor_center_fits, GestureMotion};
use airslate_pc_server::shortcut::keys::KeyCode;
use airslate_pc_server::shortcut::profile::ShortcutProfile;
use airslate_pc_server::shortcut::radial_menu::RadialSelection;
use airslate_pc_server::workspace::{MonitorId, MonitorInfo};

const NOW_NS: u64 = 5_000_000_000;

fn test_monitor() -> MonitorInfo {
    MonitorInfo {
        id: MonitorId::new("monitor-1".to_string()),
        device_name: "DISPLAY1".to_string(),
        is_primary: true,
        pixel_width: 1920,
        pixel_height: 1080,
        virtual_left: 100,
        virtual_top: 200,
        virtual_right: 2020,
        virtual_bottom: 1280,
    }
}

fn localhost() -> Ipv4Address {
    Ipv4Address::new(127, 0, 0, 1)
}

fn stylus_frame(event_type: StylusEventType, flags: u8, x: u16, y: u16) -> StylusFrame {
    StylusFrame {
        seq: 1,
        timestamp: 10,
        x,
        y,
        pressure_bits: 0.5f32.to_bits(),
        tilt_x: 10,
        tilt_y: -15,
        event_type,
        flags: StylusFlags(flags),
        reserved_ext: 0,
    }
}

fn gesture_frame(gesture_type: GestureType, state: GestureState, seq: u32, val1: f32) -> GestureFrame {
    gesture_frame_xy(gesture_type, state, seq, val1, 0.0)
}

fn gesture_frame_xy(
    gesture_type: GestureType,
    state: GestureState,
    seq: u32,
    val1: f32,
    val2: f32,
) -> GestureFrame {
    GestureFrame {
        gesture_type,
        state,
        seq,
        timestamp: 10,
        val1_bits: val1.to_bits(),
        val2_bits: val2.to_bits(),
        val3_bits: 0,
        val4_bits: 0,
    }
}

fn linear_pressure(bits: u32) -> u16 {
    (f32::from_bits(bits).clamp(0.0, 1.0) * 1024.0).round() as u16
}

/// The drag offsets of a frame against the values the engine last saw.
fn motion_of(frame: &GestureFrame, reference: Option<(u32, u32)>) -> GestureMotion {
    let (drag_dx, drag_dy) = match reference {
        Some((x, y)) => (
            (f32::from_bits(frame.val1_bits) - f32::from_bits(x)).round() as i32,
            (f32::from_bits(frame.val2_bits) - f32::from_bits(y)).round() as i32,
        ),
        None => (0, 0),
    };
    GestureMotion {
        drag_dx,
        drag_dy,
        wheel_delta: 0,
        rotate_dx: 0,
        selection: RadialSelection::Center,
    }
}

/// Both workers of the pipeline, run one event at a time: every event is
/// routed, queued, and handled before the next one arrives.
struct Pipeline {
    monitor: MonitorInfo,
    profile: ShortcutProfile,
    stylus_queue: Vec<StylusWorkerEvent>,
    shortcut_queue: Vec<ShortcutWorkerEvent>,
    stylus: StylusWorker,
    shortcut: ShortcutWorker,
    injected: Vec<PenInjectionCommand>,
    executed: Vec<ShortcutCommand>,
}

impl Pipeline {
    fn new() -> Self {
        Pipeline {
            monitor: test_monitor(),
            profile: ShortcutProfile::default(),
            stylus_queue: Vec::new(),
            shortcut_queue: Vec::new(),
            stylus: StylusWorker::new(),
            shortcut: ShortcutWorker::new(),
            injected: Vec::new(),
            executed: Vec::new(),
        }
    }

    fn emit(&mut self, event: IncomingEvent) {
        let pressure = match &event {
            IncomingEvent::Stylus { frame, .. } => {
                assert!(stylus_frame_fits(&self.monitor, frame));
                linear_pressure(frame.pressure_bits)
            }
            _ => 0,
        };
        let routed = route_incoming_event(event, Some(&self.monitor), pressure, false, None, NOW_NS);
        for event in routed.shortcut {
            push_shortcut_event(&mut self.shortcut_queue, event);
        }
        if let Some(event) = routed.stylus {
            push_stylus_event(
                &mut self.stylus_queue,
                event,
                false,
                0,
                HoverMovePolicy::PreserveAll,
                false,
            );
        }
        self.drain();
    }

    fn drain(&mut self) {
        for event in std::mem::take(&mut self.stylus_queue) {
            match event {
                StylusWorkerEvent::Stylus { session_id, sample } => {
                    let fallback = Some(map_stylus_frame(
                        &self.monitor,
                        &sample.frame,
                        linear_pressure(sample.frame.pressure_bits),
                    ));
                    let sent = self.stylus.handle_stylus(&session_id, &sample, fallback, false);
                    self.injected.extend(sent);
                }
                StylusWorkerEvent::SessionEnded { session_id } => {
                    if let Some(command) = self.stylus.handle_session_end(&session_id) {
                        self.injected.push(command);
                    }
                }
                StylusWorkerEvent::Stop => {}
            }
        }
        assert!(monitor_center_fits(&self.monitor));
        let center = Some(monitor_center(&self.monitor));
        for event in std::mem::take(&mut self.shortcut_queue) {
            let output = match event {
                ShortcutWorkerEvent::PointerContextUpdated {
                    session_id,
                    point,
                    in_range,
                    is_contact,
                } => {
                    self.shortcut
                        .handle_pointer_context(&session_id, point, in_range, is_contact);
                    continue;
                }
                ShortcutWorkerEvent::StylusFlags {
                    session_id,
                    seq,
                    flags,
                } => self
                    .shortcut
                    .handle_stylus_flags(&self.profile, &session_id, seq, flags, NOW_NS),
                ShortcutWorkerEvent::Gesture { session_id, frame } => {
                    let motion = motion_of(&frame, self.shortcut.motion_reference(&frame));
                    self.shortcut.handle_gesture(
                        &self.profile,
                        &session_id,
                        &frame,
                        NOW_NS,
                        center,
                        &motion,
                    )
                }
                ShortcutWorkerEvent::SessionEnded { session_id } => {
                    self.shortcut.handle_session_end(&session_id)
                }
                ShortcutWorkerEvent::Stop => continue,
            };
            self.executed.extend(output.commands);
        }
    }

    fn stylus(&mut self, frame: StylusFrame) {
        self.emit(IncomingEvent::Stylus {
            session_id: "session-a".to_string(),
            source_ip: localhost(),
            frame,
        });
    }

    fn gesture(&mut self, frame: GestureFrame) {
        self.emit(IncomingEvent::Gesture {
            session_id: "session-a".to_string(),
            source_ip: localhost(),
            frame,
        });
    }

    fn end_session(&mut self) {
        self.emit(IncomingEvent::SessionEnded {
            session_id: "session-a".to_string(),
            source_ip: localhost(),
        });
    }
}

#[test]
fn gesture_events_dispatch_shortcut_commands_without_pen_injection() {
    let mut pipeline = Pipeline::new();
    pipeline.gesture(gesture_frame(GestureType::OneSwipe, GestureState::Begin, 1, 0.0));
    assert!(pipeline.injected.is_empty());
    assert_eq!(
        pipeline.executed,
        vec![ShortcutCommand::PressChord(vec![KeyCode::E])]
    );
}

#[test]
fn session_end_releases_active_shortcut_holds() {
    let mut pipeline = Pipeline::new();
    pipeline.gesture(gesture_frame(GestureType::OneLongPress, GestureState::Begin, 1, 0.0));
    pipeline.end_session();
    assert_eq!(
        pipeline.executed,
        vec![
            ShortcutCommand::KeyDown(KeyCode::Alt),
            ShortcutCommand::KeyUp(KeyCode::Alt),
        ]
    );
}

#[test]
fn double_tap_uses_hover_then_last_in_range_pointer_context() {
    let mut pipeline = Pipeline::new();
    let mut hover_frame = stylus_frame(StylusEventType::Move, 0b0000_0001, 2000, 4000);
    hover_frame.seq = 1;
    pipeline.stylus(hover_frame);
    let mut hover_double_tap = stylus_frame(StylusEventType::Move, 0b0000_1001, 2000, 4000);
    hover_double_tap.seq = 2;
    pipeline.stylus(hover_double_tap);
    let mut contact_frame = stylus_frame(StylusEventType::Move, 0b0000_0011, 3000, 5000);
    contact_frame.seq = 3;
    pipeline.stylus(contact_frame);
    let mut contact_double_tap = stylus_frame(StylusEventType::Move, 0b0000_1011, 3000, 5000);
    contact_double_tap.seq = 4;
    pipeline.stylus(contact_double_tap);
    assert_eq!(
        pipeline.executed,
        vec![
            ShortcutCommand::ClickAt {
                button: MouseButton::Right,
                x: 217,
                y: 332
            },
            ShortcutCommand::ClickAt {
                button: MouseButton::Right,
                x: 276,
                y: 365
            },
        ]
    );
}

#[test]
fn three_pan_emits_drag_commands_in_pipeline() {
    let mut pipeline = Pipeline::new();
    pipeline.gesture(gesture_frame_xy(GestureType::ThreePan, GestureState::Begin, 1, 0.0, 0.0));
    pipeline.gesture(gesture_frame_xy(GestureType::ThreePan, GestureState::Update, 2, 10.0, -6.0));
    pipeline.gesture(gesture_frame_xy(GestureType::ThreePan, GestureState::End, 3, 0.0, 0.0));
    assert_eq!(
        pipeline.executed,
        vec![
            ShortcutCommand::KeyDown(KeyCode::Alt),
            ShortcutCommand::MouseButtonDown(MouseButton::Right),
            ShortcutCommand::MouseMoveRelative { dx: 10, dy: -6 },
            ShortcutCommand::MouseButtonUp(MouseButton::Right),
            ShortcutCommand::KeyUp(KeyCode::Alt),
        ]
    );
}

#[test]
fn session_end_fans_out_to_pen_and_shortcut_workers() {
    let mut pipeline = Pipeline::new();
    pipeline.stylus(stylus_frame(StylusEventType::Down, 0b0000_0011, 100, 200));
    pipeline.gesture(gesture_frame(GestureType::OneLongPress, GestureState::Begin, 1, 0.0));
    pipeline.end_session();
    assert_eq!(pipeline.injected.len(), 2);
    assert_eq!(pipeline.injected[0].kind, PenInjectionCommandKind::Down);
    assert_eq!(pipeline.injected[1].kind, PenInjectionCommandKind::Cancel);
    assert_eq!(
        pipeline.executed,
        vec![
            ShortcutCommand::KeyDown(KeyCode::Alt),
            ShortcutCommand::KeyUp(KeyCode::Alt),
        ]
    );
}

#[test]
fn stale_events_after_session_end_do_not_reactivate_pen_or_shortcuts() {
    let mut pipeline = Pipeline::new();
    pipeline.stylus(stylus_frame(StylusEventType::Down, 0b0000_0011, 100, 200));
    pipeline.gesture(gesture_frame(GestureType::OneLongPress, GestureState::Begin, 1, 0.0));
    pipeline.end_session();
    pipeline.stylus(stylus_frame(StylusEventType::Down, 0b0000_0011, 150, 250));
    pipeline.gesture(gesture_frame(GestureType::OneLongPress, GestureState::Begin, 2, 0.0));
    assert_eq!(
        pipeline.injected,
        vec![
            PenInjectionCommand {
                x: 106,
                y: 207,
                tablet_x: 100,
                tablet_y: 200,
                kind: PenInjectionCommandKind::Down,
                in_range: true,
                is_contact: true,
                pressure: 512,
                tilt_x: 10,
                tilt_y: -15,
            },
            PenInjectionCommand {
                x: 106,
                y: 207,
                tablet_x: 100,
                tablet_y: 200,
                kind: PenInjectionCommandKind::Cancel,
                in_range: false,
                is_contact: false,
                pressure: 0,
                tilt_x: 0,
                tilt_y: 0,
            },
        ]
    );
    assert_eq!(
        pipeline.executed,
        vec![
            ShortcutCommand::KeyDown(KeyCode::Alt),
            ShortcutCommand::KeyUp(KeyCode::Alt),
        ]
    );
}
