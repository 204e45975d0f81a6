use vstd::prelude::*;

use crate::input_pipeline::anchor::{
    clamp_logical, spec_apply_offset, spec_offset_for_down, spec_process, spec_reset_corrector,
    CorrectorModel, PenCoordinate, StrokeCoordinateOffset,
};
use crate::input_pipeline::mapping::{spec_has_shortcut_pulse, PenInjectionCommand, LOGICAL_COORD_MAX};
use crate::protocol::model::StylusFlags;
use crate::shortcut::domain::StylusTrigger;
use crate::shortcut::engine::trigger_flag;
use crate::protocol::model::{StylusEventType, StylusFrame};

verus! {

/// Taking `a - b` and then subtracting that from `a` gives `b` back, in
/// wrapping `i32` arithmetic.
pub proof fn lemma_wrapping_sub_cancels(a: i32, b: i32)
    ensures
        a.wrapping_sub(a.wrapping_sub(b)) == b,
{
    let d = a.wrapping_sub(b);
    assert(d as int == a - b || d as int == a - b - 0x1_0000_0000 || d as int == a - b + 0x1_0000_0000);
}

/// With correction off, every sample passes unchanged and nothing is remembered.
pub proof fn law_disabled_correction_passes_samples_through(
    m: CorrectorModel,
    frame: StylusFrame,
    command: PenInjectionCommand,
)
    ensures
        spec_process(m, frame, command, false) == (spec_reset_corrector(), command),
{
}

/// Hover samples are never moved.
pub proof fn law_hover_samples_pass_unchanged(
    m: CorrectorModel,
    frame: StylusFrame,
    command: PenInjectionCommand,
    enabled: bool,
)
    requires
        frame.event_type == StylusEventType::Move,
        command.in_range,
        !command.is_contact,
    ensures
        spec_process(m, frame, command, enabled).1 == command,
{
}

/// A touch-down after a still hover lands exactly on the hover point, and the
/// shift is kept for the rest of the stroke.
pub proof fn law_anchored_down_lands_on_hover_point(
    m: CorrectorModel,
    frame: StylusFrame,
    command: PenInjectionCommand,
)
    requires
        frame.event_type == StylusEventType::Down,
        command.is_contact,
        spec_offset_for_down(m, frame.timestamp, command) is Some,
        m.hover_candidate is Some,
        m.hover_candidate->0.last.tablet_x <= LOGICAL_COORD_MAX,
        m.hover_candidate->0.last.tablet_y <= LOGICAL_COORD_MAX,
    ensures
        ({
            let (next, out) = spec_process(m, frame, command, true);
            let anchor = m.hover_candidate->0.last;
            &&& PenCoordinate::spec_of(out) == anchor
            &&& next.stroke_offset == spec_offset_for_down(m, frame.timestamp, command)
        }),
{
    let anchor = m.hover_candidate->0.last;
    lemma_wrapping_sub_cancels(command.x, anchor.x);
    lemma_wrapping_sub_cancels(command.y, anchor.y);
}

/// Every touching sample of an anchored stroke is moved by the same shift,
/// which stays in place for the samples that follow.
pub proof fn law_stroke_moves_by_one_offset(
    m: CorrectorModel,
    frame: StylusFrame,
    command: PenInjectionCommand,
    offset: StrokeCoordinateOffset,
)
    requires
        m.stroke_offset == Some(offset),
        frame.event_type == StylusEventType::Move,
        command.is_contact,
    ensures
        spec_process(m, frame, command, true).1 == spec_apply_offset(command, offset),
        spec_process(m, frame, command, true).0.stroke_offset == Some(offset),
{
}

/// A pen that leaves the tablet's range, or a cancelled stroke, clears all
/// that the corrector remembered.
pub proof fn law_leaving_range_forgets_everything(
    m: CorrectorModel,
    frame: StylusFrame,
    command: PenInjectionCommand,
)
    requires
        (!command.in_range && !command.is_contact) || frame.event_type == StylusEventType::Cancel,
    ensures
        spec_process(m, frame, command, true).0 == spec_reset_corrector(),
{
}

/// A stylus frame goes to the shortcut worker as a pulse exactly when the
/// flag of some pen trigger is set in it, so no trigger that can fire is held
/// back and nothing else is sent as one.
pub proof fn law_pulse_exactly_when_a_trigger_is_set(f: StylusFlags)
    ensures
        spec_has_shortcut_pulse(f) <==> exists|t: StylusTrigger| #[trigger] trigger_flag(f, t),
{
    if spec_has_shortcut_pulse(f) {
        if f.bit(2) {
            assert(trigger_flag(f, StylusTrigger::Squeeze));
        } else if f.bit(3) {
            assert(trigger_flag(f, StylusTrigger::DoubleTap));
        } else if f.bit(4) {
            assert(trigger_flag(f, StylusTrigger::TwoTap));
        } else if f.bit(5) {
            assert(trigger_flag(f, StylusTrigger::ThreeTap));
        } else {
            assert(trigger_flag(f, StylusTrigger::FourTap));
        }
    }
}

} // verus!
