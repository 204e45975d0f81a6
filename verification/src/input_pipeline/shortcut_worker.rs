use vstd::prelude::*;

use crate::protocol::model::{GestureFrame, StylusFlags};
use crate::shortcut::domain::{BindingId, GestureBinding, ScreenPoint};
use crate::shortcut::engine::{
    commands_of, effects_of, spec_motion_reference, spec_process_gesture, spec_process_stylus_flags,
    spec_session_end, spec_update_pointer, EngineModel, EngineOutput, GestureMotion, OverlayEffect,
    OverlayEffectModel, ShortcutEngine, spec_hold_point, spec_new_engine,
};
use crate::shortcut::profile::ShortcutProfile;
use crate::text::{str_eq, string_of};

verus! {

/// The shortcut worker: the shortcut engine, and the sessions that have
/// ended, whose late events are ignored.
#[derive(Debug)]
pub struct ShortcutWorker {
    engine: ShortcutEngine,
    ended_sessions: Vec<String>,
}

pub struct ShortcutWorkerModel {
    pub engine: EngineModel,
    pub ended_sessions: Set<Seq<char>>,
}

impl View for ShortcutWorker {
    type V = ShortcutWorkerModel;

    closed spec fn view(&self) -> ShortcutWorkerModel {
        ShortcutWorkerModel {
            engine: self.engine@,
            ended_sessions: self.ended_sessions@.map_values(|s: String| s@).to_set(),
        }
    }
}

/// No output.
pub open spec fn is_empty_output(r: EngineOutput) -> bool {
    r.commands@.len() == 0 && r.overlay@.len() == 0
}

impl ShortcutWorker {
    pub closed spec fn well_formed(&self) -> bool {
        self.engine.well_formed()
    }

    pub fn new() -> (r: Self)
        ensures
            r.well_formed(),
            r@.engine == spec_new_engine(),
            r@.ended_sessions == Set::<Seq<char>>::empty(),
    {
        let r = ShortcutWorker { engine: ShortcutEngine::new(), ended_sessions: Vec::new() };
        assert(r@.ended_sessions =~= Set::<Seq<char>>::empty());
        r
    }

    /// The session has ended.
    pub fn has_ended(&self, session_id: &str) -> (r: bool)
        ensures
            r == self@.ended_sessions.contains(session_id@),
    {
        let mut i: usize = 0;
        while i < self.ended_sessions.len()
            invariant
                i <= self.ended_sessions@.len(),
                forall|j: int| 0 <= j < i ==> (#[trigger] self.ended_sessions@[j])@ != session_id@,
            decreases self.ended_sessions@.len() - i,
        {
            if str_eq(self.ended_sessions[i].as_str(), session_id) {
                proof {
                    let v = self.ended_sessions@.map_values(|s: String| s@);
                    assert(v[i as int] == session_id@);
                }
                return true;
            }
            i = i + 1;
        }
        proof {
            let v = self.ended_sessions@.map_values(|s: String| s@);
            assert forall|j: int| 0 <= j < v.len() implies v[j] != session_id@ by {
                assert(v[j] == self.ended_sessions@[j]@);
            }
        }
        false
    }

    fn remember_ended(&mut self, session_id: &str)
        ensures
            final(self)@.ended_sessions == old(self)@.ended_sessions.insert(session_id@),
            final(self).engine == old(self).engine,
    {
        if !self.has_ended(session_id) {
            let ghost before = self.ended_sessions@;
            self.ended_sessions.push(string_of(session_id));
            proof {
                let v0 = before.map_values(|s: String| s@);
                let v1 = self.ended_sessions@.map_values(|s: String| s@);
                assert(v1 =~= v0.push(session_id@));
                assert forall|a: Seq<char>| v1.contains(a) <==> (v0.contains(a) || a == session_id@) by {
                    if v0.contains(a) {
                        let j = choose|j: int| 0 <= j < v0.len() && v0[j] == a;
                        assert(v1[j] == a);
                    }
                    if a == session_id@ {
                        assert(v1[v0.len() as int] == a);
                    }
                    if v1.contains(a) && a != session_id@ {
                        let j = choose|j: int| 0 <= j < v1.len() && v1[j] == a;
                        assert(v0[j] == a);
                    }
                }
                assert(v1.to_set() =~= v0.to_set().insert(session_id@));
            }
        } else {
            proof {
                assert(self@.ended_sessions.insert(session_id@) =~= self@.ended_sessions);
            }
        }
    }

    /// The values the drag, pinch or rotation of `frame`'s binding last saw;
    /// see [`spec_motion_reference`].
    pub fn motion_reference(&self, frame: &GestureFrame) -> (r: Option<(u32, u32)>)
        requires
            self.well_formed(),
        ensures
            r == spec_motion_reference(
                self@.engine,
                BindingId::Gesture(GestureBinding::spec_from_frame(*frame)),
            ),
    {
        match GestureBinding::from_frame(frame) {
            Some(g) => self.engine.motion_reference(BindingId::Gesture(g)),
            None => None,
        }
    }

    /// Where the pen of `session_id` is, unless the session has ended.
    pub fn handle_pointer_context(
        &mut self,
        session_id: &str,
        point: ScreenPoint,
        in_range: bool,
        is_contact: bool,
    ) -> (r: Vec<OverlayEffect>)
        requires
            old(self).well_formed(),
        ensures
            final(self).well_formed(),
            final(self)@.ended_sessions == old(self)@.ended_sessions,
            old(self)@.ended_sessions.contains(session_id@) ==> final(self)@.engine == old(self)@.engine
                && r@.len() == 0,
            !old(self)@.ended_sessions.contains(session_id@) ==> {
                let next = EngineModel {
                    pointer: spec_update_pointer(old(self)@.engine.pointer, point, in_range, is_contact),
                    ..old(self)@.engine
                };
                &&& final(self)@.engine == next
                &&& effects_of(r@) == seq![OverlayEffectModel::SyncHoldIndicator(spec_hold_point(next))]
            },
    {
        if self.has_ended(session_id) {
            return Vec::new();
        }
        self.engine.update_pointer_context(point, in_range, is_contact)
    }

    /// The pen triggers of packet `seq` of `session_id`, unless the session
    /// has ended; see [`spec_process_stylus_flags`].
    pub fn handle_stylus_flags(
        &mut self,
        profile: &ShortcutProfile,
        session_id: &str,
        seq: u32,
        flags: StylusFlags,
        now_ns: u64,
    ) -> (r: EngineOutput)
        requires
            old(self).well_formed(),
        ensures
            final(self).well_formed(),
            final(self)@.ended_sessions == old(self)@.ended_sessions,
            old(self)@.ended_sessions.contains(session_id@) ==> final(self)@.engine == old(self)@.engine
                && is_empty_output(r),
            !old(self)@.ended_sessions.contains(session_id@) ==> (final(self)@.engine, commands_of(
                r.commands@,
            ), effects_of(r.overlay@)) == spec_process_stylus_flags(
                old(self)@.engine,
                profile@,
                seq,
                flags,
                now_ns,
            ),
    {
        if self.has_ended(session_id) {
            return EngineOutput { commands: Vec::new(), overlay: Vec::new() };
        }
        self.engine.process_stylus_flags(profile, seq, flags, now_ns)
    }

    /// A gesture frame of `session_id`, unless the session has ended; see
    /// [`spec_process_gesture`].
    pub fn handle_gesture(
        &mut self,
        profile: &ShortcutProfile,
        session_id: &str,
        frame: &GestureFrame,
        now_ns: u64,
        center: Option<ScreenPoint>,
        motion: &GestureMotion,
    ) -> (r: EngineOutput)
        requires
            old(self).well_formed(),
        ensures
            final(self).well_formed(),
            final(self)@.ended_sessions == old(self)@.ended_sessions,
            old(self)@.ended_sessions.contains(session_id@) ==> final(self)@.engine == old(self)@.engine
                && is_empty_output(r),
            !old(self)@.ended_sessions.contains(session_id@) ==> (final(self)@.engine, commands_of(
                r.commands@,
            ), effects_of(r.overlay@)) == spec_process_gesture(
                old(self)@.engine,
                profile@,
                *frame,
                now_ns,
                center,
                *motion,
            ),
    {
        if self.has_ended(session_id) {
            return EngineOutput { commands: Vec::new(), overlay: Vec::new() };
        }
        self.engine.process_gesture(profile, frame, now_ns, center, motion)
    }

    /// Releases what has run out at `now_ns`.
    pub fn expire_due(&mut self, now_ns: u64) -> (r: EngineOutput)
        requires
            old(self).well_formed(),
        ensures
            final(self).well_formed(),
            final(self)@.ended_sessions == old(self)@.ended_sessions,
            (final(self)@.engine, commands_of(r.commands@), effects_of(r.overlay@))
                == crate::shortcut::engine::spec_expire_due(old(self)@.engine, now_ns),
    {
        self.engine.expire_due(now_ns)
    }

    /// The end of `session_id`: it is remembered as ended and everything the
    /// engine holds is released; see [`spec_session_end`].
    pub fn handle_session_end(&mut self, session_id: &str) -> (r: EngineOutput)
        requires
            old(self).well_formed(),
        ensures
            final(self).well_formed(),
            final(self)@.ended_sessions == old(self)@.ended_sessions.insert(session_id@),
            (final(self)@.engine, commands_of(r.commands@), effects_of(r.overlay@)) == spec_session_end(
                old(self)@.engine,
            ),
    {
        self.remember_ended(session_id);
        self.engine.handle_session_end()
    }
}

} // verus!
