use vstd::prelude::*;

use crate::ingest::IncomingEvent;
use crate::input_pipeline::mapping::{
    frame_maps, has_shortcut_pulse, map_stylus_frame, spec_has_shortcut_pulse,
    spec_map_stylus_frame, PenInjectionCommand,
};
use crate::input_pipeline::queue::{ShortcutWorkerEvent, StylusSample, StylusWorkerEvent};
use crate::protocol::model::{GestureFrame, StylusEventType, StylusFlags, StylusFrame};
use crate::shortcut::domain::ScreenPoint;
use crate::workspace::MonitorInfo;

verus! {

/// Where one accepted event goes: at most one entry for the stylus worker,
/// the entries for the shortcut worker in the order they are queued, and what
/// the pipeline's counters learn from it.
#[derive(Debug, Clone, PartialEq, Eq)]
pub struct RoutedEvent {
    pub stylus: Option<StylusWorkerEvent>,
    pub shortcut: Vec<ShortcutWorkerEvent>,
    /// The sequence number to record, for frames that carry one.
    pub sequence: Option<u32>,
    /// The event is a stylus sample counted as accepted.
    pub counts_as_accepted: bool,
    /// The session ended, so the sequence tracking starts over.
    pub resets_sequence: bool,
}

/// `e` tells the shortcut worker where the pen of session `sid` is.
pub open spec fn is_pointer_update(e: ShortcutWorkerEvent, sid: Seq<char>, cmd: PenInjectionCommand) -> bool {
    &&& e matches ShortcutWorkerEvent::PointerContextUpdated { session_id, point, in_range, is_contact }
    &&& session_id@ == sid
    &&& point == (ScreenPoint { x: cmd.x, y: cmd.y })
    &&& in_range == cmd.in_range
    &&& is_contact == cmd.is_contact
}

/// `e` hands the flags of frame `seq` of session `sid` to the shortcut worker.
pub open spec fn is_flags_update(e: ShortcutWorkerEvent, sid: Seq<char>, seq: u32, flags: StylusFlags) -> bool {
    &&& e matches ShortcutWorkerEvent::StylusFlags { session_id, seq: s, flags: f }
    &&& session_id@ == sid
    &&& s == seq
    &&& f == flags
}

/// `e` hands a gesture of session `sid` to the shortcut worker.
pub open spec fn is_gesture_update(e: ShortcutWorkerEvent, sid: Seq<char>, frame: GestureFrame) -> bool {
    e matches ShortcutWorkerEvent::Gesture { session_id, frame: f } && session_id@ == sid && f == frame
}

/// The stylus sample that a frame of session `sid` becomes.
pub open spec fn is_stylus_sample(
    e: StylusWorkerEvent,
    sid: Seq<char>,
    sample: StylusSample,
) -> bool {
    e matches StylusWorkerEvent::Stylus { session_id, sample: s } && session_id@ == sid && s == sample
}

/// The command a frame maps to on the monitor, when the monitor is known.
pub open spec fn routed_command(
    monitor: Option<MonitorInfo>,
    frame: StylusFrame,
    pressure: u16,
) -> Option<PenInjectionCommand> {
    match monitor {
        Some(m) => Some(spec_map_stylus_frame(m, frame, pressure)),
        None => None,
    }
}

/// The shortcut worker hears of a pen position when the monitor is known and
/// the pen hovers, or a shortcut pulse rides on the frame.
pub open spec fn sends_pointer_update(
    monitor: Option<MonitorInfo>,
    frame: StylusFrame,
    pressure: u16,
) -> bool {
    match routed_command(monitor, frame, pressure) {
        Some(cmd) => !cmd.is_contact || spec_has_shortcut_pulse(frame.flags),
        None => false,
    }
}

/// A stylus frame can be mapped onto the monitor that is known.
pub open spec fn event_maps(event: IncomingEvent, monitor: Option<MonitorInfo>) -> bool {
    match (event, monitor) {
        (IncomingEvent::Stylus { frame, .. }, Some(m)) => frame_maps(m, frame),
        _ => true,
    }
}

/// Splits an accepted event between the stylus and the shortcut workers.
///
/// A stylus frame becomes a sample for the stylus worker, mapped onto
/// `monitor` with the curve-mapped `pressure` when the monitor is known, and
/// marked to preempt the previous stroke when preemption is on and the pen
/// goes down. The shortcut worker first hears of the pen's position when it
/// hovers or carries a shortcut pulse, then of the pulse itself. A gesture goes
/// to the shortcut worker alone; the end of a session goes to both.
pub fn route_incoming_event(
    event: IncomingEvent,
    monitor: Option<&MonitorInfo>,
    pressure: u16,
    preempt_previous_stroke: bool,
    queued_at_ns: Option<u64>,
    accepted_at_ns: u64,
) -> (r: RoutedEvent)
    requires
        event_maps(event, match monitor { Some(m) => Some(*m), None => None }),
    ensures
        ({
            let mon = match monitor { Some(m) => Some(*m), None => None };
            match event {
                IncomingEvent::Stylus { session_id, frame, .. } => {
                    let sample = StylusSample {
                        frame,
                        mapped_command: routed_command(mon, frame, pressure),
                        queued_at_ns,
                        accepted_at_ns,
                        preempt_previous: preempt_previous_stroke && frame.event_type
                            == StylusEventType::Down,
                    };
                    let pointer = sends_pointer_update(mon, frame, pressure);
                    let pulse = spec_has_shortcut_pulse(frame.flags);
                    &&& r.sequence == Some(frame.seq)
                    &&& r.counts_as_accepted
                    &&& !r.resets_sequence
                    &&& r.stylus matches Some(e) && is_stylus_sample(e, session_id@, sample)
                    &&& r.shortcut@.len() == (if pointer { 1int } else { 0int }) + (if pulse { 1int } else { 0int })
                    &&& pointer ==> is_pointer_update(
                        r.shortcut@[0],
                        session_id@,
                        routed_command(mon, frame, pressure).unwrap(),
                    )
                    &&& pulse ==> is_flags_update(r.shortcut@.last(), session_id@, frame.seq, frame.flags)
                },
                IncomingEvent::Gesture { session_id, frame, .. } => {
                    &&& r.sequence == Some(frame.seq)
                    &&& !r.counts_as_accepted
                    &&& !r.resets_sequence
                    &&& r.stylus is None
                    &&& r.shortcut@.len() == 1
                    &&& is_gesture_update(r.shortcut@[0], session_id@, frame)
                },
                IncomingEvent::SessionEnded { session_id, .. } => {
                    &&& r.sequence is None
                    &&& !r.counts_as_accepted
                    &&& r.resets_sequence
                    &&& r.stylus matches Some(StylusWorkerEvent::SessionEnded { session_id: s }) && s@
                        == session_id@
                    &&& r.shortcut@.len() == 1
                    &&& r.shortcut@[0] matches ShortcutWorkerEvent::SessionEnded { session_id: s } && s@
                        == session_id@
                },
            }
        }),
{
    match event {
        IncomingEvent::Stylus { session_id, frame, .. } => {
            let has_pulse = has_shortcut_pulse(frame.flags);
            let preempt_previous = preempt_previous_stroke && frame.event_type == StylusEventType::Down;
            let mut shortcut: Vec<ShortcutWorkerEvent> = Vec::new();
            let mapped_command = match monitor {
                Some(m) => {
                    let pointer = map_stylus_frame(m, &frame, pressure);
                    if !pointer.is_contact || has_pulse {
                        shortcut.push(
                            ShortcutWorkerEvent::PointerContextUpdated {
                                session_id: session_id.clone(),
                                point: ScreenPoint { x: pointer.x, y: pointer.y },
                                in_range: pointer.in_range,
                                is_contact: pointer.is_contact,
                            },
                        );
                    }
                    Some(pointer)
                },
                None => None,
            };
            if has_pulse {
                shortcut.push(
                    ShortcutWorkerEvent::StylusFlags {
                        session_id: session_id.clone(),
                        seq: frame.seq,
                        flags: frame.flags,
                    },
                );
            }
            let sample = StylusSample {
                frame,
                mapped_command,
                queued_at_ns,
                accepted_at_ns,
                preempt_previous,
            };
            RoutedEvent {
                stylus: Some(StylusWorkerEvent::Stylus { session_id, sample }),
                shortcut,
                sequence: Some(frame.seq),
                counts_as_accepted: true,
                resets_sequence: false,
            }
        },
        IncomingEvent::Gesture { session_id, frame, .. } => {
            let seq = frame.seq;
            let mut shortcut: Vec<ShortcutWorkerEvent> = Vec::new();
            shortcut.push(ShortcutWorkerEvent::Gesture { session_id, frame });
            RoutedEvent {
                stylus: None,
                shortcut,
                sequence: Some(seq),
                counts_as_accepted: false,
                resets_sequence: false,
            }
        },
        IncomingEvent::SessionEnded { session_id, .. } => {
            let mut shortcut: Vec<ShortcutWorkerEvent> = Vec::new();
            shortcut.push(ShortcutWorkerEvent::SessionEnded { session_id: session_id.clone() });
            RoutedEvent {
                stylus: Some(StylusWorkerEvent::SessionEnded { session_id }),
                shortcut,
                sequence: None,
                counts_as_accepted: false,
                resets_sequence: true,
            }
        },
    }
}

} // verus!
