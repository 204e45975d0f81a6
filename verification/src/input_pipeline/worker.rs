use vstd::prelude::*;

use crate::input_pipeline::anchor::{spec_process, spec_reset_corrector, CorrectorModel, PreciseAnchorCorrector};
use crate::input_pipeline::mapping::{PenInjectionCommand, PenInjectionCommandKind};
use crate::input_pipeline::queue::StylusSample;
use crate::text::{str_eq, string_of};

verus! {

/// Where the pen of a session last was, for cleaning up after it.
#[derive(Debug, Clone, PartialEq, Eq)]
pub struct ActivePenState {
    pub session_id: String,
    pub x: i32,
    pub y: i32,
    pub tablet_x: u16,
    pub tablet_y: u16,
    pub in_range: bool,
    pub is_contact: bool,
}

pub struct ActivePenModel {
    pub session_id: Seq<char>,
    pub x: i32,
    pub y: i32,
    pub tablet_x: u16,
    pub tablet_y: u16,
    pub in_range: bool,
    pub is_contact: bool,
}

impl View for ActivePenState {
    type V = ActivePenModel;

    open spec fn view(&self) -> ActivePenModel {
        ActivePenModel {
            session_id: self.session_id@,
            x: self.x,
            y: self.y,
            tablet_x: self.tablet_x,
            tablet_y: self.tablet_y,
            in_range: self.in_range,
            is_contact: self.is_contact,
        }
    }
}

/// The command that lifts the pen away at its last position.
pub open spec fn spec_cancel_at(p: ActivePenModel) -> PenInjectionCommand {
    PenInjectionCommand {
        x: p.x,
        y: p.y,
        tablet_x: p.tablet_x,
        tablet_y: p.tablet_y,
        kind: PenInjectionCommandKind::Cancel,
        in_range: false,
        is_contact: false,
        pressure: 0,
        tilt_x: 0,
        tilt_y: 0,
    }
}

/// The state the stylus worker keeps between samples.
#[derive(Debug)]
pub struct StylusWorker {
    pub state: Option<ActivePenState>,
    pub ended_sessions: Vec<String>,
    pub precise_anchor_corrector: PreciseAnchorCorrector,
}

pub struct StylusWorkerModel {
    pub state: Option<ActivePenModel>,
    pub ended_sessions: Set<Seq<char>>,
    pub corrector: CorrectorModel,
}

impl View for StylusWorker {
    type V = StylusWorkerModel;

    open spec fn view(&self) -> StylusWorkerModel {
        StylusWorkerModel {
            state: match self.state {
                Some(s) => Some(s@),
                None => None,
            },
            ended_sessions: self.ended_sessions@.map_values(|s: String| s@).to_set(),
            corrector: self.precise_anchor_corrector@,
        }
    }
}

/// The pen state a sent command leaves: none once the pen is cancelled or out
/// of range, else where the command put it.
pub open spec fn spec_record(session_id: Seq<char>, command: PenInjectionCommand) -> Option<ActivePenModel> {
    if command.kind == PenInjectionCommandKind::Cancel || (!command.in_range && !command.is_contact) {
        None
    } else {
        Some(
            ActivePenModel {
                session_id,
                x: command.x,
                y: command.y,
                tablet_x: command.tablet_x,
                tablet_y: command.tablet_y,
                in_range: command.in_range,
                is_contact: command.is_contact,
            },
        )
    }
}

/// A preempting touch-down cancels the contact in progress; any pen state is forgotten.
pub open spec fn spec_cancel_active_contact(m: StylusWorkerModel) -> (StylusWorkerModel, Seq<PenInjectionCommand>) {
    match m.state {
        None => (m, Seq::empty()),
        Some(p) => if !p.is_contact {
            (StylusWorkerModel { state: None, ..m }, Seq::empty())
        } else {
            (
                StylusWorkerModel {
                    state: None,
                    corrector: CorrectorModel { stroke_offset: None, contact_stroke: None, ..m.corrector },
                    ..m
                },
                seq![spec_cancel_at(p)],
            )
        },
    }
}

/// One stylus sample of `session_id` at the worker: samples of an ended
/// session are dropped; a preempting sample first cancels the contact in
/// progress; a sample that maps to a command goes through the corrector, which
/// starts over when the session changes, and is sent.
pub open spec fn spec_handle_stylus(
    m: StylusWorkerModel,
    session_id: Seq<char>,
    sample: StylusSample,
    fallback: Option<PenInjectionCommand>,
    correction_enabled: bool,
) -> (StylusWorkerModel, Seq<PenInjectionCommand>) {
    if m.ended_sessions.contains(session_id) {
        (m, Seq::empty())
    } else {
        let (m1, sent) = if sample.preempt_previous {
            spec_cancel_active_contact(m)
        } else {
            (m, Seq::empty())
        };
        let mapped = match sample.mapped_command {
            Some(c) => Some(c),
            None => fallback,
        };
        match mapped {
            None => (m1, sent),
            Some(command) => {
                let corrector = match m1.state {
                    Some(p) => if p.session_id != session_id {
                        spec_reset_corrector()
                    } else {
                        m1.corrector
                    },
                    None => m1.corrector,
                };
                let (corrector2, out) = spec_process(
                    corrector,
                    sample.frame,
                    command,
                    correction_enabled,
                );
                (
                    StylusWorkerModel {
                        state: spec_record(session_id, out),
                        corrector: corrector2,
                        ..m1
                    },
                    sent.push(out),
                )
            },
        }
    }
}

/// The end of session `session_id` at the worker: it is remembered as ended,
/// the corrector starts over, and a pen of that session still in range or
/// touching is cancelled at its last position.
pub open spec fn spec_handle_session_end(m: StylusWorkerModel, session_id: Seq<char>) -> (
    StylusWorkerModel,
    Option<PenInjectionCommand>,
) {
    let m1 = StylusWorkerModel {
        ended_sessions: m.ended_sessions.insert(session_id),
        corrector: spec_reset_corrector(),
        ..m
    };
    match m.state {
        None => (m1, None),
        Some(p) => if p.session_id != session_id {
            (m1, None)
        } else if !p.in_range && !p.is_contact {
            (StylusWorkerModel { state: None, ..m1 }, None)
        } else {
            (StylusWorkerModel { state: None, ..m1 }, Some(spec_cancel_at(p)))
        },
    }
}

fn cancel_at(p: &ActivePenState) -> (r: PenInjectionCommand)
    ensures
        r == spec_cancel_at(p@),
{
    PenInjectionCommand {
        x: p.x,
        y: p.y,
        tablet_x: p.tablet_x,
        tablet_y: p.tablet_y,
        kind: PenInjectionCommandKind::Cancel,
        in_range: false,
        is_contact: false,
        pressure: 0,
        tilt_x: 0,
        tilt_y: 0,
    }
}

impl StylusWorker {
    pub fn new() -> (r: Self)
        ensures
            r@.state is None,
            r@.ended_sessions == Set::<Seq<char>>::empty(),
            r@.corrector == spec_reset_corrector(),
    {
        let r = StylusWorker {
            state: None,
            ended_sessions: Vec::new(),
            precise_anchor_corrector: PreciseAnchorCorrector::new(),
        };
        assert(r@.ended_sessions =~= Set::<Seq<char>>::empty());
        r
    }

    /// The session has ended.
    pub fn has_ended(&self, session_id: &str) -> (r: bool)
        ensures
            r == self@.ended_sessions.contains(session_id@),
    {
        let mut i: usize = 0;
        while i < self.ended_sessions.len()
            invariant
                i <= self.ended_sessions@.len(),
                forall|j: int| 0 <= j < i ==> (#[trigger] self.ended_sessions@[j])@ != session_id@,
            decreases self.ended_sessions@.len() - i,
        {
            if str_eq(self.ended_sessions[i].as_str(), session_id) {
                proof {
                    let v = self.ended_sessions@.map_values(|s: String| s@);
                    assert(v[i as int] == session_id@);
                }
                return true;
            }
            i = i + 1;
        }
        proof {
            let v = self.ended_sessions@.map_values(|s: String| s@);
            assert forall|j: int| 0 <= j < v.len() implies v[j] != session_id@ by {
                assert(v[j] == self.ended_sessions@[j]@);
            }
        }
        false
    }

    fn remember_ended(&mut self, session_id: &str)
        ensures
            final(self)@ == (StylusWorkerModel {
                ended_sessions: old(self)@.ended_sessions.insert(session_id@),
                ..old(self)@
            }),
    {
        if !self.has_ended(session_id) {
            let ghost before = self.ended_sessions@;
            self.ended_sessions.push(string_of(session_id));
            proof {
                let v0 = before.map_values(|s: String| s@);
                let v1 = self.ended_sessions@.map_values(|s: String| s@);
                assert(v1 =~= v0.push(session_id@));
                assert forall|a: Seq<char>| v1.contains(a) <==> (v0.contains(a) || a == session_id@) by {
                    if v0.contains(a) {
                        let j = choose|j: int| 0 <= j < v0.len() && v0[j] == a;
                        assert(v1[j] == a);
                    }
                    if a == session_id@ {
                        assert(v1[v0.len() as int] == a);
                    }
                    if v1.contains(a) && a != session_id@ {
                        let j = choose|j: int| 0 <= j < v1.len() && v1[j] == a;
                        assert(v0[j] == a);
                    }
                }
                assert(v1.to_set() =~= v0.to_set().insert(session_id@));
            }
        } else {
            proof {
                assert(self@.ended_sessions.insert(session_id@) =~= self@.ended_sessions);
            }
        }
    }

    /// Cancels the contact in progress, if any; see [`spec_cancel_active_contact`].
    pub fn cancel_active_contact(&mut self) -> (r: Vec<PenInjectionCommand>)
        ensures
            (final(self)@, r@) == spec_cancel_active_contact(old(self)@),
    {
        let mut sent: Vec<PenInjectionCommand> = Vec::new();
        let active = match self.state.take() {
            None => {
                return sent;
            },
            Some(a) => a,
        };
        if !active.is_contact {
            return sent;
        }
        self.precise_anchor_corrector.clear_stroke();
        sent.push(cancel_at(&active));
        proof {
            assert(sent@ =~= seq![spec_cancel_at(active@)]);
        }
        sent
    }

    /// Remembers where a sent command left the pen.
    pub fn record_command_state(&mut self, session_id: &str, command: &PenInjectionCommand)
        ensures
            final(self)@ == (StylusWorkerModel { state: spec_record(session_id@, *command), ..old(self)@ }),
    {
        if command.kind == PenInjectionCommandKind::Cancel || (!command.in_range && !command.is_contact) {
            self.state = None;
            return;
        }
        self.state = Some(
            ActivePenState {
                session_id: string_of(session_id),
                x: command.x,
                y: command.y,
                tablet_x: command.tablet_x,
                tablet_y: command.tablet_y,
                in_range: command.in_range,
                is_contact: command.is_contact,
            },
        );
    }

    /// Handles one stylus sample; returns the commands to send, in order. See
    /// [`spec_handle_stylus`].
    pub fn handle_stylus(
        &mut self,
        session_id: &str,
        sample: &StylusSample,
        fallback: Option<PenInjectionCommand>,
        correction_enabled: bool,
    ) -> (r: Vec<PenInjectionCommand>)
        ensures
            (final(self)@, r@) == spec_handle_stylus(
                old(self)@,
                session_id@,
                *sample,
                fallback,
                correction_enabled,
            ),
    {
        if self.has_ended(session_id) {
            return Vec::new();
        }
        let mut sent = if sample.preempt_previous {
            self.cancel_active_contact()
        } else {
            Vec::new()
        };
        let command = match sample.mapped_command {
            Some(c) => c,
            None => match fallback {
                Some(c) => c,
                None => {
                    return sent;
                },
            },
        };
        let switched = match &self.state {
            Some(active) => !str_eq(active.session_id.as_str(), session_id),
            None => false,
        };
        if switched {
            self.precise_anchor_corrector.reset();
        }
        let out = self.precise_anchor_corrector.process(&sample.frame, command, correction_enabled);
        self.record_command_state(session_id, &out);
        sent.push(out);
        sent
    }

    /// Handles the end of a session; returns the clean-up command to send, if
    /// any. See [`spec_handle_session_end`].
    pub fn handle_session_end(&mut self, session_id: &str) -> (r: Option<PenInjectionCommand>)
        ensures
            (final(self)@, r) == spec_handle_session_end(old(self)@, session_id@),
    {
        self.remember_ended(session_id);
        self.precise_anchor_corrector.reset();
        let active = match self.state.take() {
            None => {
                return None;
            },
            Some(a) => a,
        };
        if !str_eq(active.session_id.as_str(), session_id) {
            self.state = Some(active);
            return None;
        }
        if !active.in_range && !active.is_contact {
            return None;
        }
        Some(cancel_at(&active))
    }
}

/// Samples of a session that has ended are never sent, and change nothing.
pub proof fn law_ended_sessions_are_silent(
    m: StylusWorkerModel,
    session_id: Seq<char>,
    sample: StylusSample,
    fallback: Option<PenInjectionCommand>,
    enabled: bool,
)
    requires
        m.ended_sessions.contains(session_id),
    ensures
        spec_handle_stylus(m, session_id, sample, fallback, enabled) == (m, Seq::<PenInjectionCommand>::empty()),
{
}

/// Once a session has ended, every later sample of it is dropped.
pub proof fn law_session_end_silences_the_session(
    m: StylusWorkerModel,
    session_id: Seq<char>,
    sample: StylusSample,
    fallback: Option<PenInjectionCommand>,
    enabled: bool,
)
    ensures
        ({
            let after = spec_handle_session_end(m, session_id).0;
            spec_handle_stylus(after, session_id, sample, fallback, enabled).1 == Seq::<
                PenInjectionCommand,
            >::empty()
        }),
{
}

/// Ending the session whose pen touches or hovers sends exactly one cancel at
/// the pen's last position and leaves no pen state behind.
pub proof fn law_session_end_cancels_the_pen(m: StylusWorkerModel, p: ActivePenModel)
    requires
        m.state == Some(p),
        p.in_range || p.is_contact,
    ensures
        spec_handle_session_end(m, p.session_id) == (
            StylusWorkerModel {
                state: None,
                ended_sessions: m.ended_sessions.insert(p.session_id),
                corrector: spec_reset_corrector(),
            },
            Some(spec_cancel_at(p)),
        ),
{
}

} // verus!
