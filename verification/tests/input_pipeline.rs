use airslate_pc_server::ingest::IncomingEvent;
use airslate_pc_server::input_pipeline::anchor::{
    hover_stability, HoverObservation, HoverStability, PenCoordinate, PreciseAnchorCorrector,
};
use airslate_pc_server::input_pipeline::mapping::{
    map_axis, map_pressure, map_stylus_frame, map_tilt, stylus_frame_fits, PenInjectionCommand,
    PenInjectionCommandKind,
};
use airslate_pc_server::input_pipeline::metrics::{
    average_micros, classify_sequence, InputPipelineMetrics, SequenceStep,
};
use airslate_pc_server::input_pipeline::queue::{
    can_coalesce_shortcut, compact_stylus_queue, push_shortcut_event, push_stylus_event,
    HoverMovePolicy, ShortcutWorkerEvent, StylusSample, StylusWorkerEvent,
};
use airslate_pc_server::input_pipeline::routing::route_incoming_event;
use airslate_pc_server::input_pipeline::worker::StylusWorker;
use airslate_pc_server::protocol::model::{
    GestureFrame, GestureState, GestureType, StylusEventType, StylusFlags, StylusFrame,
};
use airslate_pc_server::session::Ipv4Address;
use airslate_pc_server::shortcut::domain::ScreenPoint;
use airslate_pc_server::workspace::{MonitorId, MonitorInfo};

const NOW_NS: u64 = 5_000_000_000;

fn test_monitor() -> MonitorInfo {
    MonitorInfo {
        id: MonitorId::new("monitor-1".to_string()),
        device_name: "DISPLAY1".to_string(),
        is_primary: true,
        pixel_width: 1920,
        pixel_height: 1080,
        virtual_left: 100,
        virtual_top: 200,
        virtual_right: 2020,
        virtual_bottom: 1280,
    }
}

fn stylus_frame(event_type: StylusEventType, flags: u8, x: u16, y: u16) -> StylusFrame {
    StylusFrame {
        seq: 1,
        timestamp: 10,
        x,
        y,
        pressure_bits: 0.5_f32.to_bits(),
        tilt_x: 10,
        tilt_y: -15,
        event_type,
        flags: StylusFlags(flags),
        reserved_ext: 0,
    }
}

fn pen_command(
    kind: PenInjectionCommandKind,
    in_range: bool,
    is_contact: bool,
    x: i32,
    y: i32,
    tablet_x: u16,
    tablet_y: u16,
) -> PenInjectionCommand {
    PenInjectionCommand {
        x,
        y,
        tablet_x,
        tablet_y,
        kind,
        in_range,
        is_contact,
        pressure: if is_contact { 512 } else { 0 },
        tilt_x: 0,
        tilt_y: 0,
    }
}

fn hover_observations(samples: &[(u64, u16, u16)]) -> Vec<HoverObservation> {
    samples
        .iter()
        .map(|&(timestamp_ms, tablet_x, tablet_y)| HoverObservation {
            timestamp_ms,
            coordinate: PenCoordinate {
                x: i32::from(tablet_x),
                y: i32::from(tablet_y),
                tablet_x,
                tablet_y,
            },
        })
        .collect()
}

fn hover(corrector: &mut PreciseAnchorCorrector, timestamp: u64, x: u16, y: u16) {
    let mut frame = stylus_frame(StylusEventType::Move, 0b0000_0001, x, y);
    frame.timestamp = timestamp;
    corrector.process(
        &frame,
        pen_command(
            PenInjectionCommandKind::Update,
            true,
            false,
            i32::from(x),
            i32::from(y),
            x,
            y,
        ),
        true,
    );
}

fn stylus_worker_event(seq: u32, event_type: StylusEventType) -> StylusWorkerEvent {
    let mut frame = stylus_frame(event_type, 0b0000_0001, seq as u16, seq as u16);
    frame.seq = seq;
    StylusWorkerEvent::Stylus {
        session_id: "session-a".to_string(),
        sample: StylusSample {
            frame,
            mapped_command: None,
            queued_at_ns: None,
            accepted_at_ns: NOW_NS,
            preempt_previous: false,
        },
    }
}

fn contact_move(seq: u32, timestamp: u64, pressure: f32) -> StylusWorkerEvent {
    let mut event = stylus_worker_event(seq, StylusEventType::Move);
    if let StylusWorkerEvent::Stylus { sample, .. } = &mut event {
        sample.frame.timestamp = timestamp;
        sample.frame.flags = StylusFlags(0b0000_0011);
        sample.frame.pressure_bits = pressure.to_bits();
    }
    event
}

fn with_age(mut event: StylusWorkerEvent, age_ms: u64) -> StylusWorkerEvent {
    if let StylusWorkerEvent::Stylus { sample, .. } = &mut event {
        sample.accepted_at_ns = NOW_NS - age_ms * 1_000_000;
    }
    event
}

fn seq_of(event: &StylusWorkerEvent) -> Option<u32> {
    match event {
        StylusWorkerEvent::Stylus { sample, .. } => Some(sample.frame.seq),
        _ => None,
    }
}

fn sample(frame: StylusFrame, mapped: Option<PenInjectionCommand>) -> StylusSample {
    StylusSample {
        frame,
        mapped_command: mapped,
        queued_at_ns: None,
        accepted_at_ns: NOW_NS,
        preempt_previous: false,
    }
}

// Hover stability.

#[test]
fn hover_stability_requires_the_short_window_endpoint_constraint() {
    let observations = hover_observations(&[(1_000, 1_000, 2_000), (1_060, 1_060, 2_000)]);
    let previous = observations[0].coordinate;
    let current = observations[1].coordinate;

    assert_eq!(
        hover_stability(&observations, previous, current, 1_060),
        HoverStability::Tolerance
    );
}

#[test]
fn hover_stability_requires_the_trajectory_center_dispersion_constraint() {
    let observations = hover_observations(&[
        (1_000, 1_000, 2_000),
        (1_040, 1_100, 2_000),
        (1_060, 1_000, 2_000),
        (1_080, 900, 2_000),
        (1_120, 1_000, 2_000),
    ]);
    let previous = observations[3].coordinate;
    let current = observations[4].coordinate;

    assert_eq!(
        hover_stability(&observations, previous, current, 1_120),
        HoverStability::Tolerance
    );
}

#[test]
fn a_still_hover_is_core_stable() {
    let observations = hover_observations(&[(1_000, 1_000, 2_000), (1_060, 1_001, 2_000)]);
    assert_eq!(
        hover_stability(
            &observations,
            observations[0].coordinate,
            observations[1].coordinate,
            1_060
        ),
        HoverStability::Core
    );
}

// Precise anchor correction.

#[test]
fn precise_anchor_correction_translates_the_complete_contact_stroke() {
    let mut corrector = PreciseAnchorCorrector::new();
    for (timestamp, x, y) in [
        (1_000, 1_000, 2_000),
        (1_060, 1_006, 2_004),
        (1_120, 1_003, 2_008),
        (1_180, 1_008, 2_006),
    ] {
        let mut frame = stylus_frame(StylusEventType::Move, 0b0000_0001, x, y);
        frame.timestamp = timestamp;
        let command = pen_command(
            PenInjectionCommandKind::Update,
            true,
            false,
            i32::from(x) * 2,
            i32::from(y) * 2,
            x,
            y,
        );
        assert_eq!(corrector.process(&frame, command, true), command);
    }

    let mut down_frame = stylus_frame(StylusEventType::Down, 0b0000_0011, 1_608, 1_506);
    down_frame.timestamp = 1_220;
    let down = pen_command(
        PenInjectionCommandKind::Down,
        true,
        true,
        3_216,
        3_012,
        1_608,
        1_506,
    );
    let corrected_down = corrector.process(&down_frame, down, true);
    assert_eq!((corrected_down.x, corrected_down.y), (2_016, 4_012));
    assert_eq!(
        (corrected_down.tablet_x, corrected_down.tablet_y),
        (1_008, 2_006)
    );

    let move_frame = stylus_frame(StylusEventType::Move, 0b0000_0011, 1_658, 1_556);
    let movement = pen_command(
        PenInjectionCommandKind::Update,
        true,
        true,
        3_316,
        3_112,
        1_658,
        1_556,
    );
    let corrected_move = corrector.process(&move_frame, movement, true);
    assert_eq!((corrected_move.x, corrected_move.y), (2_116, 4_112));
    assert_eq!(
        (corrected_move.tablet_x, corrected_move.tablet_y),
        (1_058, 2_056)
    );

    let up_frame = stylus_frame(StylusEventType::Up, 0b0000_0001, 1_688, 1_586);
    let up = pen_command(
        PenInjectionCommandKind::Up,
        true,
        false,
        3_376,
        3_172,
        1_688,
        1_586,
    );
    let corrected_up = corrector.process(&up_frame, up, true);
    assert_eq!((corrected_up.x, corrected_up.y), (2_176, 4_172));
    assert_eq!(
        (corrected_up.tablet_x, corrected_up.tablet_y),
        (1_088, 2_086)
    );
}

#[test]
fn precise_anchor_correction_rejects_short_or_moving_hover() {
    let mut corrector = PreciseAnchorCorrector::new();
    for (timestamp, x) in [(1_000, 1_000), (1_100, 1_200), (1_180, 1_202)] {
        hover(&mut corrector, timestamp, x, 2_000);
    }

    let mut down_frame = stylus_frame(StylusEventType::Down, 0b0000_0011, 1_250, 2_000);
    down_frame.timestamp = 1_250;
    let down = pen_command(
        PenInjectionCommandKind::Down,
        true,
        true,
        1_250,
        2_000,
        1_250,
        2_000,
    );

    assert_eq!(corrector.process(&down_frame, down, true), down);
}

#[test]
fn precise_anchor_correction_counts_quiet_hover_until_down() {
    let mut corrector = PreciseAnchorCorrector::new();
    let mut hover_frame = stylus_frame(StylusEventType::Move, 0b0000_0001, 1_000, 2_000);
    hover_frame.timestamp = 1_000;
    let hover_command = pen_command(
        PenInjectionCommandKind::Update,
        true,
        false,
        2_000,
        4_000,
        1_000,
        2_000,
    );
    corrector.process(&hover_frame, hover_command, true);

    let mut down_frame = stylus_frame(StylusEventType::Down, 0b0000_0011, 1_200, 2_100);
    down_frame.timestamp = 1_220;
    let down = pen_command(
        PenInjectionCommandKind::Down,
        true,
        true,
        2_400,
        4_200,
        1_200,
        2_100,
    );

    let corrected = corrector.process(&down_frame, down, true);
    assert_eq!((corrected.x, corrected.y), (2_000, 4_000));
    assert_eq!((corrected.tablet_x, corrected.tablet_y), (1_000, 2_000));
}

#[test]
fn precise_anchor_correction_keeps_stability_across_a_brief_excursion() {
    let mut corrector = PreciseAnchorCorrector::new();
    for (timestamp, x) in [
        (1_000, 1_000),
        (1_100, 1_000),
        (1_200, 1_000),
        (1_210, 1_100),
        (1_220, 1_005),
    ] {
        hover(&mut corrector, timestamp, x, 2_000);
    }

    let mut down_frame = stylus_frame(StylusEventType::Down, 0b0000_0011, 1_205, 2_100);
    down_frame.timestamp = 1_240;
    let down = pen_command(
        PenInjectionCommandKind::Down,
        true,
        true,
        1_205,
        2_100,
        1_205,
        2_100,
    );

    let corrected = corrector.process(&down_frame, down, true);
    assert_eq!((corrected.tablet_x, corrected.tablet_y), (1_005, 2_000));
}

#[test]
fn precise_anchor_correction_resets_after_sustained_excursion() {
    let mut corrector = PreciseAnchorCorrector::new();
    for (timestamp, x) in [
        (1_000, 1_000),
        (1_100, 1_000),
        (1_200, 1_000),
        (1_210, 1_100),
        (1_240, 1_100),
    ] {
        hover(&mut corrector, timestamp, x, 2_000);
    }

    let mut down_frame = stylus_frame(StylusEventType::Down, 0b0000_0011, 1_250, 2_100);
    down_frame.timestamp = 1_300;
    let down = pen_command(
        PenInjectionCommandKind::Down,
        true,
        true,
        1_250,
        2_100,
        1_250,
        2_100,
    );

    assert_eq!(corrector.process(&down_frame, down, true), down);
}

#[test]
fn precise_anchor_correction_resets_large_motion_after_a_sampling_gap() {
    let mut corrector = PreciseAnchorCorrector::new();
    for (timestamp, x) in [(1_000, 1_000), (1_300, 2_000)] {
        hover(&mut corrector, timestamp, x, 2_000);
    }

    let mut down_frame = stylus_frame(StylusEventType::Down, 0b0000_0011, 2_100, 2_100);
    down_frame.timestamp = 1_400;
    let down = pen_command(
        PenInjectionCommandKind::Down,
        true,
        true,
        2_100,
        2_100,
        2_100,
        2_100,
    );

    assert_eq!(corrector.process(&down_frame, down, true), down);
}

#[test]
fn precise_anchor_correction_restarts_stability_at_a_quiet_tolerance_point() {
    let mut corrector = PreciseAnchorCorrector::new();
    for (timestamp, x) in [(1_000, 1_000), (1_100, 1_100)] {
        hover(&mut corrector, timestamp, x, 2_000);
    }

    let mut down_frame = stylus_frame(StylusEventType::Down, 0b0000_0011, 1_300, 2_100);
    down_frame.timestamp = 1_320;
    let corrected = corrector.process(
        &down_frame,
        pen_command(
            PenInjectionCommandKind::Down,
            true,
            true,
            1_300,
            2_100,
            1_300,
            2_100,
        ),
        true,
    );

    assert_eq!((corrected.tablet_x, corrected.tablet_y), (1_100, 2_000));
}

#[test]
fn precise_anchor_correction_uses_one_longer_threshold_during_writing() {
    let mut corrector = PreciseAnchorCorrector::new();
    for (start_ms, x) in [(1_000_u64, 1_000_u16), (1_100, 1_200)] {
        let mut down_frame = stylus_frame(StylusEventType::Down, 0b0000_0011, x, 2_000);
        down_frame.timestamp = start_ms;
        corrector.process(
            &down_frame,
            pen_command(
                PenInjectionCommandKind::Down,
                true,
                true,
                i32::from(x),
                2_000,
                x,
                2_000,
            ),
            true,
        );

        let moved_x = x + 100;
        let mut move_frame = stylus_frame(StylusEventType::Move, 0b0000_0011, moved_x, 2_000);
        move_frame.timestamp = start_ms + 20;
        corrector.process(
            &move_frame,
            pen_command(
                PenInjectionCommandKind::Update,
                true,
                true,
                i32::from(moved_x),
                2_000,
                moved_x,
                2_000,
            ),
            true,
        );

        let mut up_frame = stylus_frame(StylusEventType::Up, 0b0000_0001, moved_x, 2_000);
        up_frame.timestamp = start_ms + 40;
        corrector.process(
            &up_frame,
            pen_command(
                PenInjectionCommandKind::Up,
                true,
                false,
                i32::from(moved_x),
                2_000,
                moved_x,
                2_000,
            ),
            true,
        );
    }

    hover(&mut corrector, 1_200, 2_000, 2_000);

    let mut early_down_frame = stylus_frame(StylusEventType::Down, 0b0000_0011, 2_200, 2_100);
    early_down_frame.timestamp = 1_420;
    let early_down = pen_command(
        PenInjectionCommandKind::Down,
        true,
        true,
        2_200,
        2_100,
        2_200,
        2_100,
    );
    assert_eq!(
        corrector.process(&early_down_frame, early_down, true),
        early_down
    );

    let mut early_up_frame = stylus_frame(StylusEventType::Up, 0b0000_0001, 2_200, 2_100);
    early_up_frame.timestamp = 1_440;
    corrector.process(
        &early_up_frame,
        pen_command(
            PenInjectionCommandKind::Up,
            true,
            false,
            2_200,
            2_100,
            2_200,
            2_100,
        ),
        true,
    );

    hover(&mut corrector, 1_500, 2_000, 2_000);

    let mut down_frame = stylus_frame(StylusEventType::Down, 0b0000_0011, 2_200, 2_100);
    down_frame.timestamp = 1_780;
    let corrected = corrector.process(
        &down_frame,
        pen_command(
            PenInjectionCommandKind::Down,
            true,
            true,
            2_200,
            2_100,
            2_200,
            2_100,
        ),
        true,
    );
    assert_eq!((corrected.tablet_x, corrected.tablet_y), (2_000, 2_000));
}

#[test]
fn precise_anchor_correction_discards_anchor_after_leaving_hover_range() {
    let mut corrector = PreciseAnchorCorrector::new();
    for timestamp in [1_000, 1_140, 1_280, 1_400] {
        hover(&mut corrector, timestamp, 1_000, 2_000);
    }

    let out_of_range = stylus_frame(StylusEventType::Move, 0, 1_000, 2_000);
    corrector.process(
        &out_of_range,
        pen_command(
            PenInjectionCommandKind::Update,
            false,
            false,
            1_000,
            2_000,
            1_000,
            2_000,
        ),
        true,
    );

    let down_frame = stylus_frame(StylusEventType::Down, 0b0000_0011, 1_500, 2_500);
    let down = pen_command(
        PenInjectionCommandKind::Down,
        true,
        true,
        1_500,
        2_500,
        1_500,
        2_500,
    );

    assert_eq!(corrector.process(&down_frame, down, true), down);
}

#[test]
fn disabled_correction_passes_samples_through() {
    let mut corrector = PreciseAnchorCorrector::new();
    let mut frame = stylus_frame(StylusEventType::Move, 0b0000_0001, 1_000, 2_000);
    frame.timestamp = 1_000;
    let command = pen_command(PenInjectionCommandKind::Update, true, false, 1, 2, 1_000, 2_000);
    assert_eq!(corrector.process(&frame, command, false), command);
    let mut down_frame = stylus_frame(StylusEventType::Down, 0b0000_0011, 1_200, 2_100);
    down_frame.timestamp = 1_300;
    let down = pen_command(PenInjectionCommandKind::Down, true, true, 9, 9, 1_200, 2_100);
    assert_eq!(corrector.process(&down_frame, down, false), down);
}

// Stylus queue compaction.

#[test]
fn latest_priority_removes_only_moves_after_current_stroke_boundary() {
    let mut events = vec![
        stylus_worker_event(1, StylusEventType::Down),
        contact_move(2, 2, 0.5),
        stylus_worker_event(3, StylusEventType::Up),
        stylus_worker_event(4, StylusEventType::Down),
        with_age(contact_move(5, 5, 0.5), 20),
    ];
    let incoming = contact_move(6, 6, 0.5);
    compact_stylus_queue(
        &mut events,
        &incoming,
        true,
        10,
        HoverMovePolicy::PreserveAll,
        false,
    );

    assert_eq!(events.len(), 4);
    assert!(events.iter().any(|event| seq_of(event) == Some(2)));
    assert!(!events.iter().any(|event| seq_of(event) == Some(5)));
}

#[test]
fn latest_priority_keeps_moves_inside_tolerance_window() {
    let mut events = vec![
        stylus_worker_event(1, StylusEventType::Down),
        contact_move(2, 2, 0.5),
    ];
    let incoming = contact_move(3, 3, 0.5);
    compact_stylus_queue(
        &mut events,
        &incoming,
        true,
        100,
        HoverMovePolicy::PreserveAll,
        false,
    );

    assert_eq!(events.len(), 2);
    assert!(events.iter().any(|event| seq_of(event) == Some(2)));
}

#[test]
fn latest_priority_without_tolerance_drops_every_move_of_the_stroke() {
    let mut events = vec![
        stylus_worker_event(1, StylusEventType::Down),
        contact_move(2, 2, 0.5),
        contact_move(3, 3, 0.5),
    ];
    let incoming = contact_move(4, 4, 0.5);
    compact_stylus_queue(
        &mut events,
        &incoming,
        true,
        0,
        HoverMovePolicy::PreserveAll,
        false,
    );
    assert_eq!(events.len(), 1);
    assert_eq!(seq_of(&events[0]), Some(1));
}

#[test]
fn stroke_preemption_discards_only_queued_stylus_events_for_session() {
    let mut events = vec![
        contact_move(2, 2, 0.5),
        StylusWorkerEvent::SessionEnded {
            session_id: "other-session".to_string(),
        },
    ];
    let incoming = stylus_worker_event(3, StylusEventType::Down);
    compact_stylus_queue(
        &mut events,
        &incoming,
        false,
        0,
        HoverMovePolicy::PreserveAll,
        true,
    );

    assert_eq!(events.len(), 1);
    assert!(matches!(
        events.first(),
        Some(StylusWorkerEvent::SessionEnded { .. })
    ));
}

#[test]
fn realtime_queue_preserves_all_hover_moves_by_default() {
    let mut events = Vec::new();
    for event in [
        stylus_worker_event(1, StylusEventType::Move),
        stylus_worker_event(2, StylusEventType::Move),
    ] {
        push_stylus_event(&mut events, event, false, 0, HoverMovePolicy::PreserveAll, false);
    }
    let seqs: Vec<_> = events.iter().map(seq_of).collect();
    assert_eq!(seqs, vec![Some(1), Some(2)]);
}

#[test]
fn hover_reduction_policies_use_their_declared_intervals() {
    for (policy, age_ms, should_remove) in [
        (HoverMovePolicy::LightReduction, 3, true),
        (HoverMovePolicy::LightReduction, 5, false),
        (HoverMovePolicy::BalancedReduction, 5, true),
        (HoverMovePolicy::BalancedReduction, 9, false),
    ] {
        let queued = with_age(stylus_worker_event(1, StylusEventType::Move), age_ms);
        let incoming = stylus_worker_event(2, StylusEventType::Move);

        let mut events = vec![queued];
        compact_stylus_queue(&mut events, &incoming, false, 0, policy, false);

        assert_eq!(events.is_empty(), should_remove);
    }
}

#[test]
fn latest_hover_policy_removes_only_the_current_consecutive_hover_run() {
    let mut events = vec![
        stylus_worker_event(1, StylusEventType::Down),
        stylus_worker_event(2, StylusEventType::Move),
        stylus_worker_event(3, StylusEventType::Move),
        stylus_worker_event(4, StylusEventType::Up),
        stylus_worker_event(5, StylusEventType::Move),
    ];
    let incoming = stylus_worker_event(6, StylusEventType::Move);

    compact_stylus_queue(
        &mut events,
        &incoming,
        false,
        0,
        HoverMovePolicy::Latest,
        false,
    );

    assert_eq!(events.len(), 4);
    assert!(events.iter().any(|event| seq_of(event) == Some(2)));
    assert!(events.iter().any(|event| seq_of(event) == Some(3)));
    assert!(!events.iter().any(|event| seq_of(event) == Some(5)));
}

#[test]
fn realtime_queue_preserves_stylus_events_by_default() {
    let mut events = Vec::new();
    for (seq, event_type) in [
        (1, StylusEventType::Move),
        (2, StylusEventType::Up),
        (3, StylusEventType::Move),
        (4, StylusEventType::Move),
    ] {
        push_stylus_event(
            &mut events,
            stylus_worker_event(seq, event_type),
            false,
            0,
            HoverMovePolicy::PreserveAll,
            false,
        );
    }
    let seqs: Vec<_> = events.iter().map(seq_of).collect();
    assert_eq!(seqs, vec![Some(1), Some(2), Some(3), Some(4)]);
}

#[test]
fn realtime_queue_preserves_all_contact_moves_under_burst() {
    let mut events = Vec::new();
    for seq in 1..=9 {
        let depth = push_stylus_event(
            &mut events,
            contact_move(seq, u64::from(seq), seq as f32 / 9.0),
            false,
            0,
            HoverMovePolicy::PreserveAll,
            false,
        );
        assert_eq!(depth, seq as usize);
    }
    let seqs: Vec<_> = events.iter().map(seq_of).collect();
    assert_eq!(seqs, (1..=9).map(Some).collect::<Vec<_>>());
}

#[test]
fn realtime_queue_never_compacts_contact_moves_across_pen_up() {
    let mut events = Vec::new();
    for event in [
        contact_move(1, 100, 0.8),
        stylus_worker_event(2, StylusEventType::Up),
        contact_move(3, 120, 0.5),
    ] {
        push_stylus_event(&mut events, event, true, 0, HoverMovePolicy::PreserveAll, false);
    }
    let seqs: Vec<_> = events.iter().map(seq_of).collect();
    assert_eq!(seqs, vec![Some(1), Some(2), Some(3)]);
}

#[test]
fn hover_policy_levels_round_trip() {
    for policy in [
        HoverMovePolicy::PreserveAll,
        HoverMovePolicy::LightReduction,
        HoverMovePolicy::BalancedReduction,
        HoverMovePolicy::Latest,
    ] {
        assert_eq!(HoverMovePolicy::from_level(policy.level()), Some(policy));
    }
    assert_eq!(HoverMovePolicy::from_level(4), None);
    assert_eq!(HoverMovePolicy::LightReduction.interval_ms(), Some(4));
    assert_eq!(HoverMovePolicy::BalancedReduction.interval_ms(), Some(8));
    assert_eq!(HoverMovePolicy::Latest.interval_ms(), None);
}

#[test]
fn pointer_updates_of_one_session_coalesce() {
    let update = |session: &str, x: i32| ShortcutWorkerEvent::PointerContextUpdated {
        session_id: session.to_string(),
        point: ScreenPoint { x, y: 0 },
        in_range: true,
        is_contact: false,
    };
    assert!(can_coalesce_shortcut(&update("a", 1), &update("a", 2)));
    assert!(!can_coalesce_shortcut(&update("a", 1), &update("b", 2)));

    let mut queue = Vec::new();
    assert_eq!(push_shortcut_event(&mut queue, update("a", 1)), 1);
    assert_eq!(push_shortcut_event(&mut queue, update("a", 2)), 1);
    assert_eq!(queue[0], update("a", 2));
    assert_eq!(
        push_shortcut_event(
            &mut queue,
            ShortcutWorkerEvent::SessionEnded {
                session_id: "a".to_string()
            }
        ),
        2
    );
}

// Mapping.

#[test]
fn maps_stylus_coordinates_to_virtual_screen_space() {
    let monitor = test_monitor();

    let origin = map_stylus_frame(
        &monitor,
        &stylus_frame(StylusEventType::Move, 0b0000_0001, 0, 0),
        0,
    );
    let corner = map_stylus_frame(
        &monitor,
        &stylus_frame(StylusEventType::Move, 0b0000_0001, 32_767, 32_767),
        0,
    );
    let center = map_stylus_frame(
        &monitor,
        &stylus_frame(StylusEventType::Move, 0b0000_0001, 16_384, 16_384),
        0,
    );

    assert_eq!((origin.x, origin.y), (100, 200));
    assert_eq!((corner.x, corner.y), (2019, 1279));
    assert_eq!((center.x, center.y), (1060, 740));
    assert_eq!((origin.tablet_x, origin.tablet_y), (0, 0));
    assert_eq!((corner.tablet_x, corner.tablet_y), (32_767, 32_767));
    assert_eq!((center.tablet_x, center.tablet_y), (16_384, 16_384));
}

#[test]
fn maps_pressure_and_tilt_into_windows_ranges() {
    let monitor = test_monitor();
    let mut frame = stylus_frame(StylusEventType::Move, 0b0000_0011, 100, 200);
    frame.pressure_bits = 1.5_f32.to_bits();
    frame.tilt_x = 120;
    frame.tilt_y = -120;

    let command = map_stylus_frame(&monitor, &frame, 1024);

    assert_eq!(command.pressure, 1024);
    assert_eq!(command.tilt_x, 90);
    assert_eq!(command.tilt_y, -90);
}

#[test]
fn pressure_is_capped_and_never_zero_in_contact() {
    assert_eq!(map_pressure(2_000, true), 1024);
    assert_eq!(map_pressure(0, true), 1);
    assert_eq!(map_pressure(0, false), 0);
    assert_eq!(map_pressure(300, false), 300);
    assert_eq!(map_tilt(45), 45);
    assert_eq!(map_tilt(-91), -90);
}

#[test]
fn degenerate_monitor_maps_to_its_origin() {
    assert_eq!(map_axis(20_000, 1, -50), -50);
    assert_eq!(map_axis(20_000, 0, 7), 7);
    assert!(stylus_frame_fits(
        &test_monitor(),
        &stylus_frame(StylusEventType::Move, 1, 32_767, 32_767)
    ));
}

// The stylus worker.

#[test]
fn cancel_frame_clears_local_stream_state() {
    let monitor = test_monitor();
    let mut worker = StylusWorker::new();
    let down_frame = stylus_frame(StylusEventType::Down, 0b0000_0011, 100, 200);
    let down = map_stylus_frame(&monitor, &down_frame, 512);
    let sent = worker.handle_stylus("session-a", &sample(down_frame, Some(down)), None, false);
    assert_eq!(sent.len(), 1);
    assert_eq!(sent[0].kind, PenInjectionCommandKind::Down);

    let cancel_frame = stylus_frame(StylusEventType::Cancel, 0, 100, 200);
    let cancel = map_stylus_frame(&monitor, &cancel_frame, 512);
    let sent = worker.handle_stylus("session-a", &sample(cancel_frame, Some(cancel)), None, false);
    assert_eq!(sent.len(), 1);
    assert_eq!(sent[0].kind, PenInjectionCommandKind::Cancel);

    assert_eq!(worker.handle_session_end("session-a"), None);
}

#[test]
fn session_end_injects_cleanup_for_active_pen_stream() {
    let monitor = test_monitor();
    let mut worker = StylusWorker::new();
    let down_frame = stylus_frame(StylusEventType::Down, 0b0000_0011, 100, 200);
    let down = map_stylus_frame(&monitor, &down_frame, 512);
    let sent = worker.handle_stylus("session-a", &sample(down_frame, Some(down)), None, false);
    assert_eq!(sent.len(), 1);
    assert_eq!(sent[0].kind, PenInjectionCommandKind::Down);

    let cleanup = worker
        .handle_session_end("session-a")
        .expect("an active contact is cleaned up");
    assert_eq!(cleanup.kind, PenInjectionCommandKind::Cancel);
    assert!(!cleanup.is_contact);
    assert!(!cleanup.in_range);
}

#[test]
fn stale_events_after_session_end_do_not_reactivate_pen() {
    let monitor = test_monitor();
    let mut worker = StylusWorker::new();
    let down_frame = stylus_frame(StylusEventType::Down, 0b0000_0011, 100, 200);
    let down = map_stylus_frame(&monitor, &down_frame, 512);
    let sent = worker.handle_stylus("session-a", &sample(down_frame, Some(down)), None, false);
    assert_eq!(
        sent,
        vec![PenInjectionCommand {
            x: 106,
            y: 207,
            tablet_x: 100,
            tablet_y: 200,
            kind: PenInjectionCommandKind::Down,
            in_range: true,
            is_contact: true,
            pressure: 512,
            tilt_x: 10,
            tilt_y: -15,
        }]
    );
    assert_eq!(
        worker.handle_session_end("session-a"),
        Some(PenInjectionCommand {
            x: 106,
            y: 207,
            tablet_x: 100,
            tablet_y: 200,
            kind: PenInjectionCommandKind::Cancel,
            in_range: false,
            is_contact: false,
            pressure: 0,
            tilt_x: 0,
            tilt_y: 0,
        })
    );
    assert!(worker.has_ended("session-a"));

    let late_frame = stylus_frame(StylusEventType::Down, 0b0000_0011, 150, 250);
    let late = map_stylus_frame(&monitor, &late_frame, 512);
    assert!(worker
        .handle_stylus("session-a", &sample(late_frame, Some(late)), None, false)
        .is_empty());
}

#[test]
fn preempting_sample_cancels_the_previous_contact_first() {
    let monitor = test_monitor();
    let mut worker = StylusWorker::new();
    let down_frame = stylus_frame(StylusEventType::Down, 0b0000_0011, 100, 200);
    let down = map_stylus_frame(&monitor, &down_frame, 512);
    worker.handle_stylus("session-a", &sample(down_frame, Some(down)), None, false);

    let next_frame = stylus_frame(StylusEventType::Down, 0b0000_0011, 300, 300);
    let next = map_stylus_frame(&monitor, &next_frame, 512);
    let mut preempting = sample(next_frame, Some(next));
    preempting.preempt_previous = true;
    let sent = worker.handle_stylus("session-a", &preempting, None, false);
    assert_eq!(sent.len(), 2);
    assert_eq!(sent[0].kind, PenInjectionCommandKind::Cancel);
    assert_eq!((sent[0].x, sent[0].y), (down.x, down.y));
    assert_eq!(sent[1], next);
}

#[test]
fn unmapped_sample_uses_the_fallback_or_is_dropped() {
    let mut worker = StylusWorker::new();
    let frame = stylus_frame(StylusEventType::Move, 0b0000_0001, 100, 200);
    assert!(worker
        .handle_stylus("session-a", &sample(frame, None), None, false)
        .is_empty());
    let fallback = map_stylus_frame(&test_monitor(), &frame, 0);
    assert_eq!(
        worker.handle_stylus("session-a", &sample(frame, None), Some(fallback), false),
        vec![fallback]
    );
}

// Routing accepted events.

#[test]
fn hovering_stylus_frame_updates_the_pointer_and_queues_a_sample() {
    let monitor = test_monitor();
    let frame = stylus_frame(StylusEventType::Move, 0b0000_0001, 100, 200);
    let routed = route_incoming_event(
        IncomingEvent::Stylus {
            session_id: "s".to_string(),
            source_ip: Ipv4Address::new(127, 0, 0, 1),
            frame,
        },
        Some(&monitor),
        512,
        false,
        Some(7),
        NOW_NS,
    );
    let command = map_stylus_frame(&monitor, &frame, 512);
    assert_eq!(
        routed.shortcut,
        vec![ShortcutWorkerEvent::PointerContextUpdated {
            session_id: "s".to_string(),
            point: ScreenPoint { x: 106, y: 207 },
            in_range: true,
            is_contact: false,
        }]
    );
    assert_eq!(
        routed.stylus,
        Some(StylusWorkerEvent::Stylus {
            session_id: "s".to_string(),
            sample: StylusSample {
                frame,
                mapped_command: Some(command),
                queued_at_ns: Some(7),
                accepted_at_ns: NOW_NS,
                preempt_previous: false,
            },
        })
    );
    assert_eq!(routed.sequence, Some(1));
    assert!(routed.counts_as_accepted);
}

#[test]
fn touching_frame_with_a_pulse_reports_pointer_then_flags() {
    let monitor = test_monitor();
    let frame = stylus_frame(StylusEventType::Down, 0b0000_1011, 100, 200);
    let routed = route_incoming_event(
        IncomingEvent::Stylus {
            session_id: "s".to_string(),
            source_ip: Ipv4Address::new(127, 0, 0, 1),
            frame,
        },
        Some(&monitor),
        512,
        true,
        None,
        NOW_NS,
    );
    assert_eq!(routed.shortcut.len(), 2);
    assert!(matches!(
        routed.shortcut[0],
        ShortcutWorkerEvent::PointerContextUpdated { is_contact: true, .. }
    ));
    assert_eq!(
        routed.shortcut[1],
        ShortcutWorkerEvent::StylusFlags {
            session_id: "s".to_string(),
            seq: 1,
            flags: StylusFlags(0b0000_1011),
        }
    );
    assert!(matches!(
        routed.stylus,
        Some(StylusWorkerEvent::Stylus { sample, .. }) if sample.preempt_previous
    ));
}

#[test]
fn touching_frame_without_monitor_goes_only_to_the_stylus_worker() {
    let frame = stylus_frame(StylusEventType::Move, 0b0000_0011, 100, 200);
    let routed = route_incoming_event(
        IncomingEvent::Stylus {
            session_id: "s".to_string(),
            source_ip: Ipv4Address::new(127, 0, 0, 1),
            frame,
        },
        None,
        512,
        false,
        None,
        NOW_NS,
    );
    assert!(routed.shortcut.is_empty());
    assert!(matches!(
        routed.stylus,
        Some(StylusWorkerEvent::Stylus { sample, .. }) if sample.mapped_command.is_none()
    ));
}

#[test]
fn gesture_and_session_end_routing() {
    let gesture = GestureFrame {
        gesture_type: GestureType::OneLongPress,
        state: GestureState::Begin,
        seq: 4,
        timestamp: 10,
        val1_bits: 0,
        val2_bits: 0,
        val3_bits: 0,
        val4_bits: 0,
    };
    let routed = route_incoming_event(
        IncomingEvent::Gesture {
            session_id: "s".to_string(),
            source_ip: Ipv4Address::new(127, 0, 0, 1),
            frame: gesture,
        },
        None,
        0,
        false,
        None,
        NOW_NS,
    );
    assert_eq!(routed.stylus, None);
    assert_eq!(routed.sequence, Some(4));
    assert_eq!(
        routed.shortcut,
        vec![ShortcutWorkerEvent::Gesture {
            session_id: "s".to_string(),
            frame: gesture,
        }]
    );

    let ended = route_incoming_event(
        IncomingEvent::SessionEnded {
            session_id: "s".to_string(),
            source_ip: Ipv4Address::new(127, 0, 0, 1),
        },
        None,
        0,
        false,
        None,
        NOW_NS,
    );
    assert!(ended.resets_sequence);
    assert_eq!(
        ended.stylus,
        Some(StylusWorkerEvent::SessionEnded {
            session_id: "s".to_string()
        })
    );
    assert_eq!(
        ended.shortcut,
        vec![ShortcutWorkerEvent::SessionEnded {
            session_id: "s".to_string()
        }]
    );
}

#[test]
fn sequence_classification_counts_gaps_and_reorders() {
    assert_eq!(classify_sequence(None, 7), SequenceStep::First);
    assert_eq!(classify_sequence(Some(7), 8), SequenceStep::InOrder);
    assert_eq!(classify_sequence(Some(u32::MAX), 0), SequenceStep::InOrder);
    assert_eq!(classify_sequence(Some(7), 11), SequenceStep::Gap(3));
    assert_eq!(classify_sequence(Some(7), 7), SequenceStep::Reorder);
    assert_eq!(classify_sequence(Some(7), 6), SequenceStep::Reorder);
    assert_eq!(classify_sequence(Some(0), 0x8000_0000), SequenceStep::Reorder);
    assert_eq!(classify_sequence(Some(0), 0x7FFF_FFFF), SequenceStep::Gap(0x7FFF_FFFE));
}

#[test]
fn pipeline_metrics_track_sequences_only_when_enabled() {
    let mut disabled = InputPipelineMetrics::new(false);
    disabled.record_accepted();
    disabled.record_sequence(1);
    disabled.record_sequence(5);
    disabled.record_queue_depth(9);
    assert_eq!(disabled, InputPipelineMetrics::new(false));

    let mut metrics = InputPipelineMetrics::new(true);
    metrics.record_accepted();
    metrics.record_sequence(1);
    metrics.record_sequence(2);
    metrics.record_sequence(6);
    metrics.record_sequence(4);
    assert_eq!(metrics.accepted_samples, 1);
    assert_eq!(metrics.sequence_gaps, 3);
    assert_eq!(metrics.sequence_reorders, 1);
    assert_eq!(metrics.last_sequence, Some(4));

    metrics.reset_sequence();
    metrics.record_sequence(100);
    assert_eq!(metrics.sequence_gaps, 3);
    assert_eq!(metrics.sequence_reorders, 1);

    metrics.record_queue_depth(4);
    metrics.record_queue_depth(2);
    assert_eq!(metrics.max_queue_depth, 4);
}

#[test]
fn pipeline_metrics_average_measured_timings() {
    let mut metrics = InputPipelineMetrics::new(false);
    metrics.record_queue_wait(None);
    assert_eq!(metrics.queue_wait_samples, 0);
    metrics.record_queue_wait(Some(10));
    metrics.record_queue_wait(Some(25));
    assert_eq!(metrics.queue_wait_samples, 2);
    assert_eq!(metrics.queue_wait_max_us, 25);
    assert_eq!(metrics.queue_wait_avg_us(), 17);

    metrics.record_injection(Some(40), true);
    metrics.record_injection(Some(20), false);
    metrics.record_injection(None, false);
    assert_eq!(metrics.injection_attempts, 2);
    assert_eq!(metrics.injected_samples, 1);
    assert_eq!(metrics.injection_errors, 1);
    assert_eq!(metrics.injection_max_us, 40);
    assert_eq!(metrics.injection_avg_us(), 30);

    assert_eq!(average_micros(99, 0), 99);
    assert_eq!(average_micros(100, 3), 33);
}

fn pressure_of(event: &StylusWorkerEvent) -> Option<f32> {
    match event {
        StylusWorkerEvent::Stylus { sample, .. } => Some(f32::from_bits(sample.frame.pressure_bits)),
        _ => None,
    }
}

#[test]
fn realtime_queue_preserves_every_contact_move_pressure_sample() {
    let mut events = Vec::new();
    for seq in [1u32, 2] {
        push_stylus_event(
            &mut events,
            contact_move(seq, 10 + u64::from(seq), seq as f32 / 2.0),
            false,
            0,
            HoverMovePolicy::PreserveAll,
            false,
        );
    }
    let seqs: Vec<_> = events.iter().map(seq_of).collect();
    assert_eq!(seqs, vec![Some(1), Some(2)]);
    let pressures: Vec<_> = events.iter().map(pressure_of).collect();
    assert_eq!(pressures, vec![Some(0.5), Some(1.0)]);
}

#[test]
fn realtime_queue_preserves_contact_moves_regardless_of_age() {
    let mut events = Vec::new();
    for event in [contact_move(1, 100, 0.8), contact_move(2, 117, 0.5)] {
        push_stylus_event(
            &mut events,
            event,
            false,
            0,
            HoverMovePolicy::PreserveAll,
            false,
        );
    }
    let seqs: Vec<_> = events.iter().map(seq_of).collect();
    assert_eq!(seqs, vec![Some(1), Some(2)]);
    let pressures: Vec<_> = events.iter().map(pressure_of).collect();
    assert_eq!(pressures, vec![Some(0.8), Some(0.5)]);
}
