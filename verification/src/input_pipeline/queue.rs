use vstd::prelude::*;

use crate::input_pipeline::mapping::PenInjectionCommand;
use crate::protocol::model::{GestureFrame, StylusEventType, StylusFlags, StylusFrame};
use crate::shortcut::domain::ScreenPoint;
use crate::text::str_eq;

verus! {

broadcast use vstd::seq_lib::group_filter_ensures;

/// How hover moves waiting in the stylus queue are thinned out.
#[derive(Debug, Clone, Copy, PartialEq, Eq, Hash, Structural)]
pub enum HoverMovePolicy {
    PreserveAll,
    LightReduction,
    BalancedReduction,
    Latest,
}

impl HoverMovePolicy {
    /// The level the desktop stores for this policy.
    pub open spec fn spec_level(self) -> u8 {
        match self {
            HoverMovePolicy::PreserveAll => 0,
            HoverMovePolicy::LightReduction => 1,
            HoverMovePolicy::BalancedReduction => 2,
            HoverMovePolicy::Latest => 3,
        }
    }

    pub fn level(self) -> (r: u8)
        ensures
            r == self.spec_level(),
    {
        match self {
            HoverMovePolicy::PreserveAll => 0,
            HoverMovePolicy::LightReduction => 1,
            HoverMovePolicy::BalancedReduction => 2,
            HoverMovePolicy::Latest => 3,
        }
    }

    /// The policy stored as `level`, if it is one.
    pub fn from_level(level: u8) -> (r: Option<HoverMovePolicy>)
        ensures
            match r {
                Some(p) => p.spec_level() == level,
                None => level > 3,
            },
    {
        match level {
            0 => Some(HoverMovePolicy::PreserveAll),
            1 => Some(HoverMovePolicy::LightReduction),
            2 => Some(HoverMovePolicy::BalancedReduction),
            3 => Some(HoverMovePolicy::Latest),
            _ => None,
        }
    }

    /// The age in milliseconds below which a queued hover move gives way to a
    /// newer one, for the policies that thin by age.
    pub open spec fn spec_interval_ms(self) -> Option<u64> {
        match self {
            HoverMovePolicy::LightReduction => Some(4),
            HoverMovePolicy::BalancedReduction => Some(8),
            _ => None,
        }
    }

    pub fn interval_ms(self) -> (r: Option<u64>)
        ensures
            r == self.spec_interval_ms(),
    {
        match self {
            HoverMovePolicy::LightReduction => Some(4),
            HoverMovePolicy::BalancedReduction => Some(8),
            _ => None,
        }
    }
}

/// A stylus frame waiting for the stylus worker, with the command it maps to
/// if the monitor was known, and when it was accepted, in nanoseconds on the
/// pipeline's monotonic clock.
#[derive(Debug, Clone, Copy, PartialEq, Eq, Structural)]
pub struct StylusSample {
    pub frame: StylusFrame,
    pub mapped_command: Option<PenInjectionCommand>,
    pub queued_at_ns: Option<u64>,
    pub accepted_at_ns: u64,
    pub preempt_previous: bool,
}

/// Work for the stylus worker.
#[derive(Debug, Clone, PartialEq, Eq)]
pub enum StylusWorkerEvent {
    Stylus { session_id: String, sample: StylusSample },
    SessionEnded { session_id: String },
    Stop,
}

/// The event is a stylus sample of session `sid`.
pub open spec fn is_session_stylus(e: StylusWorkerEvent, sid: Seq<char>) -> bool {
    e matches StylusWorkerEvent::Stylus { session_id, .. } && session_id@ == sid
}

/// The event is a stylus sample of session `sid` that starts or ends a contact.
pub open spec fn is_stroke_boundary(e: StylusWorkerEvent, sid: Seq<char>) -> bool {
    e matches StylusWorkerEvent::Stylus { session_id, sample } && session_id@ == sid && (
    sample.frame.event_type == StylusEventType::Down || sample.frame.event_type
        == StylusEventType::Up || sample.frame.event_type == StylusEventType::Cancel)
}

/// `later - earlier`, or zero if `later` is the earlier one.
pub open spec fn age_ns(later: u64, earlier: u64) -> int {
    if later >= earlier {
        later - earlier
    } else {
        0
    }
}

/// A touching move of session `sid` older than the tolerance allows at `now`.
pub open spec fn is_stale_contact_move(e: StylusWorkerEvent, sid: Seq<char>, now: u64, tolerance_ms: u64) -> bool {
    e matches StylusWorkerEvent::Stylus { session_id, sample } && session_id@ == sid
        && sample.frame.event_type == StylusEventType::Move && sample.frame.flags.bit(1) && (
    tolerance_ms == 0 || age_ns(now, sample.accepted_at_ns) > tolerance_ms * 1_000_000)
}

/// A hover move of session `sid`.
pub open spec fn is_hover_move(e: StylusWorkerEvent, sid: Seq<char>) -> bool {
    e matches StylusWorkerEvent::Stylus { session_id, sample } && session_id@ == sid
        && sample.frame.event_type == StylusEventType::Move && !sample.frame.flags.bit(1)
}

/// A queued hover move gives way under `policy` to one accepted at `now`.
pub open spec fn hover_gives_way(e: StylusWorkerEvent, policy: HoverMovePolicy, now: u64) -> bool {
    policy == HoverMovePolicy::Latest || (policy.spec_interval_ms() matches Some(interval) && (
    e matches StylusWorkerEvent::Stylus { sample, .. } && age_ns(now, sample.accepted_at_ns)
        < interval * 1_000_000))
}

/// The position after the last stroke boundary of session `sid`, or zero.
pub open spec fn stroke_start(s: Seq<StylusWorkerEvent>, sid: Seq<char>) -> int
    decreases s.len(),
{
    if s.len() == 0 {
        0
    } else if is_stroke_boundary(s.last(), sid) {
        s.len() as int
    } else {
        stroke_start(s.drop_last(), sid)
    }
}

/// Where the trailing run of hover moves of session `sid` begins.
pub open spec fn hover_run_start(s: Seq<StylusWorkerEvent>, sid: Seq<char>) -> int
    decreases s.len(),
{
    if s.len() > 0 && is_hover_move(s.last(), sid) {
        hover_run_start(s.drop_last(), sid)
    } else {
        s.len() as int
    }
}

/// The queue after making room for `incoming`: a preempting touch-down drops
/// every queued sample of its session; a touching move drops the stale
/// touching moves of the current stroke when only the latest one counts; and a
/// hover move thins the trailing run of hover moves of its session by the policy.
pub open spec fn spec_compact(
    events: Seq<StylusWorkerEvent>,
    incoming: StylusWorkerEvent,
    latest_only: bool,
    tolerance_ms: u64,
    policy: HoverMovePolicy,
    preempt: bool,
) -> Seq<StylusWorkerEvent> {
    match incoming {
        StylusWorkerEvent::Stylus { session_id, sample } => {
            let sid = session_id@;
            let e = sample.frame.event_type;
            let contact = sample.frame.flags.bit(1);
            let now = sample.accepted_at_ns;
            if preempt && e == StylusEventType::Down {
                events.filter(|q: StylusWorkerEvent| !is_session_stylus(q, sid))
            } else {
                let e1 = if latest_only && e == StylusEventType::Move && contact {
                    let st = stroke_start(events, sid);
                    events.take(st) + events.skip(st).filter(
                        |q: StylusWorkerEvent| !is_stale_contact_move(q, sid, now, tolerance_ms),
                    )
                } else {
                    events
                };
                if e == StylusEventType::Move && !contact && policy != HoverMovePolicy::PreserveAll {
                    let k = hover_run_start(e1, sid);
                    e1.take(k) + e1.skip(k).filter(
                        |q: StylusWorkerEvent| !hover_gives_way(q, policy, now),
                    )
                } else {
                    e1
                }
            }
        },
        _ => events,
    }
}

/// Which queued events a removal pass drops.
#[derive(Debug, Clone, Copy, PartialEq, Eq, Structural)]
pub enum DropRule {
    SessionSamples,
    StaleContactMoves,
    YieldingHoverMoves,
}

pub open spec fn rule_drops(
    rule: DropRule,
    e: StylusWorkerEvent,
    sid: Seq<char>,
    now: u64,
    tolerance_ms: u64,
    policy: HoverMovePolicy,
) -> bool {
    match rule {
        DropRule::SessionSamples => is_session_stylus(e, sid),
        DropRule::StaleContactMoves => is_stale_contact_move(e, sid, now, tolerance_ms),
        DropRule::YieldingHoverMoves => hover_gives_way(e, policy, now),
    }
}

fn same_session(e: &StylusWorkerEvent, sid: &str) -> (r: Option<StylusSample>)
    ensures
        match r {
            Some(sample) => e matches StylusWorkerEvent::Stylus { session_id, sample: s } && session_id@
                == sid@ && s == sample,
            None => !is_session_stylus(*e, sid@),
        },
{
    match e {
        StylusWorkerEvent::Stylus { session_id, sample } => {
            if str_eq(session_id.as_str(), sid) {
                Some(*sample)
            } else {
                None
            }
        },
        _ => None,
    }
}

fn age_at(now: u64, earlier: u64) -> (r: u64)
    ensures
        r == age_ns(now, earlier),
{
    if now >= earlier {
        now - earlier
    } else {
        0
    }
}

fn drops(
    rule: DropRule,
    e: &StylusWorkerEvent,
    sid: &str,
    now: u64,
    tolerance_ms: u64,
    policy: HoverMovePolicy,
) -> (r: bool)
    ensures
        r == rule_drops(rule, *e, sid@, now, tolerance_ms, policy),
{
    match rule {
        DropRule::SessionSamples => same_session(e, sid).is_some(),
        DropRule::StaleContactMoves => match same_session(e, sid) {
            Some(sample) => sample.frame.event_type == StylusEventType::Move
                && sample.frame.flags.is_contact() && (tolerance_ms == 0 || (age_at(
                now,
                sample.accepted_at_ns,
            ) as u128) > (tolerance_ms as u128) * 1_000_000),
            None => false,
        },
        DropRule::YieldingHoverMoves => {
            if policy == HoverMovePolicy::Latest {
                return true;
            }
            match policy.interval_ms() {
                None => false,
                Some(interval) => match e {
                    StylusWorkerEvent::Stylus { sample, .. } => (age_at(now, sample.accepted_at_ns)
                        as u128) < (interval as u128) * 1_000_000,
                    _ => false,
                },
            }
        },
    }
}

/// Drops, from position `lo` on, the events the rule drops.
fn remove_from(
    events: &mut Vec<StylusWorkerEvent>,
    lo: usize,
    rule: DropRule,
    sid: &str,
    now: u64,
    tolerance_ms: u64,
    policy: HoverMovePolicy,
)
    requires
        lo <= old(events)@.len(),
    ensures
        final(events)@ == old(events)@.take(lo as int) + old(events)@.skip(lo as int).filter(
            |q: StylusWorkerEvent| !rule_drops(rule, q, sid@, now, tolerance_ms, policy),
        ),
{
    let ghost s = events@;
    let ghost keep = |q: StylusWorkerEvent| !rule_drops(rule, q, sid@, now, tolerance_ms, policy);
    let mut i: usize = events.len();
    proof {
        reveal(Seq::filter);
        assert(s.skip(s.len() as int) =~= Seq::<StylusWorkerEvent>::empty());
        assert(s.take(s.len() as int) =~= s);
        assert(events@ =~= s.take(i as int) + s.skip(i as int).filter(keep));
    }
    while i > lo
        invariant
            lo <= i <= s.len(),
            events@ == s.take(i as int) + s.skip(i as int).filter(keep),
            keep == (|q: StylusWorkerEvent| !rule_drops(rule, q, sid@, now, tolerance_ms, policy)),
        decreases i,
    {
        let ghost x = s[i - 1];
        proof {
            assert(s.skip(i - 1) =~= seq![x] + s.skip(i as int));
            Seq::filter_distributes_over_add(seq![x], s.skip(i as int), keep);
            reveal(Seq::filter);
            assert(seq![x].drop_last() =~= Seq::<StylusWorkerEvent>::empty());
            assert(events@[i - 1] == x);
        }
        if drops(rule, &events[i - 1], sid, now, tolerance_ms, policy) {
            events.remove(i - 1);
            proof {
                reveal_with_fuel(Seq::filter, 2);
                assert(!keep(x));
                assert(seq![x].drop_last() =~= Seq::<StylusWorkerEvent>::empty());
                assert(seq![x].filter(keep) =~= Seq::<StylusWorkerEvent>::empty());
                assert(events@ =~= s.take(i - 1) + s.skip(i - 1).filter(keep));
            }
        } else {
            proof {
                reveal_with_fuel(Seq::filter, 2);
                assert(keep(x));
                assert(seq![x].drop_last() =~= Seq::<StylusWorkerEvent>::empty());
                assert(seq![x].filter(keep) =~= seq![x]);
                assert(events@ =~= s.take(i - 1) + s.skip(i - 1).filter(keep));
            }
        }
        i = i - 1;
    }
}

fn is_boundary(e: &StylusWorkerEvent, sid: &str) -> (r: bool)
    ensures
        r == is_stroke_boundary(*e, sid@),
{
    match same_session(e, sid) {
        Some(sample) => sample.frame.event_type == StylusEventType::Down || sample.frame.event_type
            == StylusEventType::Up || sample.frame.event_type == StylusEventType::Cancel,
        None => false,
    }
}

fn is_hover(e: &StylusWorkerEvent, sid: &str) -> (r: bool)
    ensures
        r == is_hover_move(*e, sid@),
{
    match same_session(e, sid) {
        Some(sample) => sample.frame.event_type == StylusEventType::Move
            && !sample.frame.flags.is_contact(),
        None => false,
    }
}

/// The position after the last stroke boundary of session `sid`.
fn find_stroke_start(events: &Vec<StylusWorkerEvent>, sid: &str) -> (r: usize)
    ensures
        r == stroke_start(events@, sid@),
        r <= events@.len(),
{
    let mut i: usize = events.len();
    proof {
        assert(events@.take(i as int) =~= events@);
    }
    while i > 0
        invariant
            i <= events@.len(),
            stroke_start(events@, sid@) == stroke_start(events@.take(i as int), sid@),
        decreases i,
    {
        proof {
            let t = events@.take(i as int);
            assert(t.drop_last() =~= events@.take(i - 1));
            assert(t.last() == events@[i - 1]);
        }
        if is_boundary(&events[i - 1], sid) {
            return i;
        }
        i = i - 1;
    }
    proof {
        assert(events@.take(0) =~= Seq::<StylusWorkerEvent>::empty());
    }
    0
}

/// Where the trailing run of hover moves of session `sid` begins.
fn find_hover_run_start(events: &Vec<StylusWorkerEvent>, sid: &str) -> (r: usize)
    ensures
        r == hover_run_start(events@, sid@),
        r <= events@.len(),
{
    let mut i: usize = events.len();
    proof {
        assert(events@.take(i as int) =~= events@);
    }
    while i > 0
        invariant
            i <= events@.len(),
            hover_run_start(events@, sid@) == hover_run_start(events@.take(i as int), sid@),
        decreases i,
    {
        proof {
            let t = events@.take(i as int);
            assert(t.drop_last() =~= events@.take(i - 1));
            assert(t.last() == events@[i - 1]);
        }
        if !is_hover(&events[i - 1], sid) {
            return i;
        }
        i = i - 1;
    }
    proof {
        assert(events@.take(0) =~= Seq::<StylusWorkerEvent>::empty());
    }
    0
}

/// Makes room in the stylus queue for `incoming`; see [`spec_compact`].
pub fn compact_stylus_queue(
    events: &mut Vec<StylusWorkerEvent>,
    incoming: &StylusWorkerEvent,
    latest_only: bool,
    tolerance_ms: u64,
    hover_policy: HoverMovePolicy,
    preempt: bool,
)
    ensures
        final(events)@ == spec_compact(
            old(events)@,
            *incoming,
            latest_only,
            tolerance_ms,
            hover_policy,
            preempt,
        ),
{
    let (session_id, sample) = match incoming {
        StylusWorkerEvent::Stylus { session_id, sample } => (session_id, sample),
        _ => {
            return;
        },
    };
    let sid = session_id.as_str();
    let e = sample.frame.event_type;
    let contact = sample.frame.flags.is_contact();
    let now = sample.accepted_at_ns;
    if preempt && e == StylusEventType::Down {
        remove_from(events, 0, DropRule::SessionSamples, sid, now, tolerance_ms, hover_policy);
        proof {
            assert((|q: StylusWorkerEvent|
                !rule_drops(DropRule::SessionSamples, q, sid@, now, tolerance_ms, hover_policy))
                =~= (|q: StylusWorkerEvent| !is_session_stylus(q, sid@)));
            assert(old(events)@.take(0) =~= Seq::<StylusWorkerEvent>::empty());
            assert(old(events)@.skip(0) =~= old(events)@);
            assert(events@ =~= spec_compact(
                old(events)@,
                *incoming,
                latest_only,
                tolerance_ms,
                hover_policy,
                preempt,
            ));
        }
        return;
    }
    if latest_only && e == StylusEventType::Move && contact {
        let start = find_stroke_start(events, sid);
        remove_from(events, start, DropRule::StaleContactMoves, sid, now, tolerance_ms, hover_policy);
        proof {
            assert((|q: StylusWorkerEvent|
                !rule_drops(DropRule::StaleContactMoves, q, sid@, now, tolerance_ms, hover_policy))
                =~= (|q: StylusWorkerEvent| !is_stale_contact_move(q, sid@, now, tolerance_ms)));
        }
    }
    let ghost e1 = events@;
    if e != StylusEventType::Move || contact || hover_policy == HoverMovePolicy::PreserveAll {
        return;
    }
    let k = find_hover_run_start(events, sid);
    remove_from(events, k, DropRule::YieldingHoverMoves, sid, now, tolerance_ms, hover_policy);
    proof {
        assert((|q: StylusWorkerEvent|
            !rule_drops(DropRule::YieldingHoverMoves, q, sid@, now, tolerance_ms, hover_policy))
            =~= (|q: StylusWorkerEvent| !hover_gives_way(q, hover_policy, now)));
    }
}

/// Work for the shortcut worker.
#[derive(Debug, Clone, PartialEq, Eq)]
pub enum ShortcutWorkerEvent {
    PointerContextUpdated { session_id: String, point: ScreenPoint, in_range: bool, is_contact: bool },
    StylusFlags { session_id: String, seq: u32, flags: StylusFlags },
    Gesture { session_id: String, frame: GestureFrame },
    SessionEnded { session_id: String },
    Stop,
}

/// A newer pointer update of the same session replaces a queued one.
pub open spec fn spec_can_coalesce(queued: ShortcutWorkerEvent, incoming: ShortcutWorkerEvent) -> bool {
    &&& queued matches ShortcutWorkerEvent::PointerContextUpdated { session_id: a, .. }
    &&& incoming matches ShortcutWorkerEvent::PointerContextUpdated { session_id: b, .. }
    &&& a@ == b@
}

pub fn can_coalesce_shortcut(queued: &ShortcutWorkerEvent, incoming: &ShortcutWorkerEvent) -> (r: bool)
    ensures
        r == spec_can_coalesce(*queued, *incoming),
{
    match (queued, incoming) {
        (
            ShortcutWorkerEvent::PointerContextUpdated { session_id: a, .. },
            ShortcutWorkerEvent::PointerContextUpdated { session_id: b, .. },
        ) => str_eq(a.as_str(), b.as_str()),
        _ => false,
    }
}

/// Queues a shortcut event, replacing the last queued one when the two
/// coalesce; returns the length of the queue.
pub fn push_shortcut_event(events: &mut Vec<ShortcutWorkerEvent>, event: ShortcutWorkerEvent) -> (r: usize)
    ensures
        old(events)@.len() > 0 && spec_can_coalesce(old(events)@.last(), event) ==> final(events)@
            == old(events)@.update(old(events)@.len() - 1, event),
        !(old(events)@.len() > 0 && spec_can_coalesce(old(events)@.last(), event))
            ==> final(events)@ == old(events)@.push(event),
        r == final(events)@.len(),
{
    let n = events.len();
    if n > 0 && can_coalesce_shortcut(&events[n - 1], &event) {
        events.set(n - 1, event);
    } else {
        events.push(event);
    }
    events.len()
}

/// Queues a stylus event after making room for it; returns the length of the queue.
pub fn push_stylus_event(
    events: &mut Vec<StylusWorkerEvent>,
    event: StylusWorkerEvent,
    latest_only: bool,
    tolerance_ms: u64,
    hover_policy: HoverMovePolicy,
    preempt: bool,
) -> (r: usize)
    ensures
        final(events)@ == spec_compact(
            old(events)@,
            event,
            latest_only,
            tolerance_ms,
            hover_policy,
            preempt,
        ).push(event),
        r == final(events)@.len(),
{
    compact_stylus_queue(events, &event, latest_only, tolerance_ms, hover_policy, preempt);
    events.push(event);
    events.len()
}

} // verus!
