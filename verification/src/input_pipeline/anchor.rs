use vstd::prelude::*;

use crate::input_pipeline::mapping::{PenInjectionCommand, LOGICAL_COORD_MAX};
use crate::protocol::model::{StylusEventType, StylusFrame};

verus! {

/// How far back hover samples are kept, in milliseconds.
pub const PRECISE_ANCHOR_HOVER_HISTORY_MS: u64 = 300;

/// The window over which the end point of a hover is measured.
pub const PRECISE_ANCHOR_ENDPOINT_WINDOW_MS: u64 = 60;

/// The window over which the spread of a hover is measured.
pub const PRECISE_ANCHOR_STABILITY_WINDOW_MS: u64 = 120;

/// How long a hover must be still before a touch-down is anchored to it.
pub const PRECISE_ANCHOR_STABLE_DURATION_MS: u64 = 220;

/// The same, while the user is writing.
pub const PRECISE_ANCHOR_WRITING_STABLE_DURATION_MS: u64 = 280;

/// How long a hover may wander within the exit radius before it starts over.
pub const PRECISE_ANCHOR_TOLERANCE_DURATION_MS: u64 = 30;

pub const PRECISE_ANCHOR_ENDPOINT_RADIUS: i32 = 48;

/// 96 logical units are about 0.29% of either normalized tablet axis.
pub const PRECISE_ANCHOR_DISPERSION_RADIUS: i32 = 96;

pub const PRECISE_ANCHOR_EXIT_RADIUS: i32 = 160;

/// How long writing strokes count towards the writing state.
pub const PRECISE_ANCHOR_WRITING_FLOW_MS: u64 = 700;

/// How far a stroke must travel to count as writing.
pub const PRECISE_ANCHOR_WRITING_STROKE_DISTANCE: i32 = 32;

/// How many recent writing strokes make the user count as writing.
pub const PRECISE_ANCHOR_WRITING_STROKE_COUNT: usize = 2;

/// Where the pen is, on the desktop and on the tablet.
#[derive(Debug, Clone, Copy, PartialEq, Eq, Structural)]
pub struct PenCoordinate {
    pub x: i32,
    pub y: i32,
    pub tablet_x: u16,
    pub tablet_y: u16,
}

impl PenCoordinate {
    pub open spec fn spec_of(command: PenInjectionCommand) -> PenCoordinate {
        PenCoordinate {
            x: command.x,
            y: command.y,
            tablet_x: command.tablet_x,
            tablet_y: command.tablet_y,
        }
    }

    pub fn of_command(command: &PenInjectionCommand) -> (r: PenCoordinate)
        ensures
            r == Self::spec_of(*command),
    {
        PenCoordinate {
            x: command.x,
            y: command.y,
            tablet_x: command.tablet_x,
            tablet_y: command.tablet_y,
        }
    }
}

/// A hover sample and when it was taken.
#[derive(Debug, Clone, Copy, PartialEq, Eq, Structural)]
pub struct HoverObservation {
    pub timestamp_ms: u64,
    pub coordinate: PenCoordinate,
}

/// How still a hover is: still enough to anchor to, wandering within the
/// exit radius, or gone.
#[derive(Debug, Clone, Copy, PartialEq, Eq, Structural)]
pub enum HoverStability {
    Core,
    Tolerance,
    Exit,
}

/// The squared distance of two points on the tablet.
pub open spec fn sq_dist(a: PenCoordinate, b: PenCoordinate) -> int {
    (a.tablet_x - b.tablet_x) * (a.tablet_x - b.tablet_x) + (a.tablet_y - b.tablet_y) * (a.tablet_y
        - b.tablet_y)
}

proof fn lemma_square_bound(d: int)
    requires
        -65_535 <= d <= 65_535,
    ensures
        0 <= d * d <= 65_535 * 65_535,
{
    assert(0 <= d * d <= 65_535 * 65_535) by (nonlinear_arith)
        requires
            -65_535 <= d <= 65_535,
    ;
}

pub fn squared_tablet_distance(left: PenCoordinate, right: PenCoordinate) -> (r: i64)
    ensures
        r == sq_dist(left, right),
        0 <= r <= 2 * 65_535 * 65_535,
{
    let delta_x = left.tablet_x as i64 - right.tablet_x as i64;
    let delta_y = left.tablet_y as i64 - right.tablet_y as i64;
    proof {
        lemma_square_bound(delta_x as int);
        lemma_square_bound(delta_y as int);
    }
    delta_x * delta_x + delta_y * delta_y
}

/// `j` is the last observation taken at or before `t`.
pub open spec fn is_last_at_or_before(obs: Seq<HoverObservation>, t: u64, j: int) -> bool {
    &&& 0 <= j < obs.len()
    &&& obs[j].timestamp_ms <= t
    &&& forall|k: int| j < k < obs.len() ==> (#[trigger] obs[k]).timestamp_ms > t
}

/// Where the end point of a hover is measured from: the last observation at or
/// before the start of the end-point window, else the oldest one, else the
/// current point.
pub open spec fn endpoint_origin(obs: Seq<HoverObservation>, t: u64, current: PenCoordinate) -> PenCoordinate {
    if exists|j: int| is_last_at_or_before(obs, t, j) {
        obs[choose|j: int| is_last_at_or_before(obs, t, j)].coordinate
    } else if obs.len() > 0 {
        obs[0].coordinate
    } else {
        current
    }
}

/// The number of observations taken at or after `start`.
pub open spec fn window_count(obs: Seq<HoverObservation>, start: u64) -> int
    decreases obs.len(),
{
    if obs.len() == 0 {
        0
    } else {
        window_count(obs.drop_last(), start) + if obs.last().timestamp_ms >= start {
            1int
        } else {
            0int
        }
    }
}

/// The sum of the tablet `x` of the observations taken at or after `start`.
pub open spec fn window_sum_x(obs: Seq<HoverObservation>, start: u64) -> int
    decreases obs.len(),
{
    if obs.len() == 0 {
        0
    } else {
        window_sum_x(obs.drop_last(), start) + if obs.last().timestamp_ms >= start {
            obs.last().coordinate.tablet_x as int
        } else {
            0int
        }
    }
}

/// The sum of the tablet `y` of the observations taken at or after `start`.
pub open spec fn window_sum_y(obs: Seq<HoverObservation>, start: u64) -> int
    decreases obs.len(),
{
    if obs.len() == 0 {
        0
    } else {
        window_sum_y(obs.drop_last(), start) + if obs.last().timestamp_ms >= start {
            obs.last().coordinate.tablet_y as int
        } else {
            0int
        }
    }
}

/// The squared distance of `o` on the tablet from the point `(cx, cy)`.
pub open spec fn sq_dist_from(o: HoverObservation, cx: int, cy: int) -> int {
    (o.coordinate.tablet_x - cx) * (o.coordinate.tablet_x - cx) + (o.coordinate.tablet_y - cy) * (
    o.coordinate.tablet_y - cy)
}

/// The largest squared distance from `(cx, cy)` of an observation taken at or
/// after `start`, or zero if there is none.
pub open spec fn window_max_dispersion(obs: Seq<HoverObservation>, start: u64, cx: int, cy: int) -> int
    decreases obs.len(),
{
    if obs.len() == 0 {
        0
    } else {
        let rest = window_max_dispersion(obs.drop_last(), start, cx, cy);
        let here = if obs.last().timestamp_ms >= start {
            sq_dist_from(obs.last(), cx, cy)
        } else {
            0
        };
        if here > rest {
            here
        } else {
            rest
        }
    }
}

/// How still a hover is at `t`: the end point over the last 60 ms and the
/// spread about the centre over the last 120 ms must stay within 48 and 96
/// logical units for it to be still, and a step, end point or spread beyond
/// 160 units ends it.
pub open spec fn spec_hover_stability(
    obs: Seq<HoverObservation>,
    previous: PenCoordinate,
    current: PenCoordinate,
    t: u64,
) -> HoverStability {
    let origin = endpoint_origin(obs, t.saturating_sub(PRECISE_ANCHOR_ENDPOINT_WINDOW_MS), current);
    let endpoint_displacement = sq_dist(origin, current);
    let start = t.saturating_sub(PRECISE_ANCHOR_STABILITY_WINDOW_MS);
    let count = window_count(obs, start);
    let cx = window_sum_x(obs, start) / count;
    let cy = window_sum_y(obs, start) / count;
    let dispersion = window_max_dispersion(obs, start, cx, cy);
    let exit = 160 * 160;
    if sq_dist(previous, current) > exit || endpoint_displacement > exit || dispersion > exit {
        HoverStability::Exit
    } else if endpoint_displacement <= 48 * 48 && dispersion <= 96 * 96 {
        HoverStability::Core
    } else {
        HoverStability::Tolerance
    }
}

proof fn lemma_window_bounds(obs: Seq<HoverObservation>, start: u64)
    ensures
        0 <= window_count(obs, start) <= obs.len(),
        0 <= window_sum_x(obs, start) <= 65_535 * window_count(obs, start),
        0 <= window_sum_y(obs, start) <= 65_535 * window_count(obs, start),
    decreases obs.len(),
{
    if obs.len() > 0 {
        lemma_window_bounds(obs.drop_last(), start);
    }
}

proof fn lemma_dispersion_nonneg(obs: Seq<HoverObservation>, start: u64, cx: int, cy: int)
    ensures
        window_max_dispersion(obs, start, cx, cy) >= 0,
    decreases obs.len(),
{
    if obs.len() > 0 {
        lemma_dispersion_nonneg(obs.drop_last(), start, cx, cy);
    }
}

/// The position of the last observation taken at or before `t`, if any.
fn last_at_or_before(observations: &Vec<HoverObservation>, t: u64) -> (r: Option<usize>)
    ensures
        match r {
            Some(j) => is_last_at_or_before(observations@, t, j as int),
            None => forall|k: int|
                0 <= k < observations@.len() ==> (#[trigger] observations@[k]).timestamp_ms > t,
        },
{
    let mut i: usize = observations.len();
    while i > 0
        invariant
            i <= observations@.len(),
            forall|k: int| i <= k < observations@.len() ==> (#[trigger] observations@[k]).timestamp_ms > t,
        decreases i,
    {
        if observations[i - 1].timestamp_ms <= t {
            return Some(i - 1);
        }
        i = i - 1;
    }
    None
}

proof fn lemma_last_unique(obs: Seq<HoverObservation>, t: u64, j: int)
    requires
        is_last_at_or_before(obs, t, j),
    ensures
        (choose|k: int| is_last_at_or_before(obs, t, k)) == j,
{
    let c = choose|k: int| is_last_at_or_before(obs, t, k);
    assert(is_last_at_or_before(obs, t, c));
    if c < j {
        assert(obs[j].timestamp_ms > t);
    } else if j < c {
        assert(obs[c].timestamp_ms > t);
    }
}

/// How still the hover ending at `current` is; see [`spec_hover_stability`].
/// Some observation must lie in the 120 ms window.
pub fn hover_stability(
    observations: &Vec<HoverObservation>,
    previous: PenCoordinate,
    current: PenCoordinate,
    timestamp_ms: u64,
) -> (r: HoverStability)
    requires
        window_count(observations@, timestamp_ms.saturating_sub(PRECISE_ANCHOR_STABILITY_WINDOW_MS)) > 0,
    ensures
        r == spec_hover_stability(observations@, previous, current, timestamp_ms),
{
    let obs = observations;
    let endpoint_start_ms = timestamp_ms.saturating_sub(PRECISE_ANCHOR_ENDPOINT_WINDOW_MS);
    let origin = match last_at_or_before(obs, endpoint_start_ms) {
        Some(j) => {
            proof {
                lemma_last_unique(obs@, endpoint_start_ms, j as int);
            }
            obs[j].coordinate
        },
        None => {
            if obs.len() > 0 {
                obs[0].coordinate
            } else {
                current
            }
        },
    };
    assert(origin == endpoint_origin(obs@, endpoint_start_ms, current));
    let endpoint_displacement = squared_tablet_distance(origin, current);

    let start = timestamp_ms.saturating_sub(PRECISE_ANCHOR_STABILITY_WINDOW_MS);
    let mut count: i128 = 0;
    let mut sum_x: i128 = 0;
    let mut sum_y: i128 = 0;
    let mut i: usize = 0;
    proof {
        assert(obs@.take(0) =~= Seq::<HoverObservation>::empty());
    }
    while i < obs.len()
        invariant
            i <= obs@.len(),
            count == window_count(obs@.take(i as int), start),
            sum_x == window_sum_x(obs@.take(i as int), start),
            sum_y == window_sum_y(obs@.take(i as int), start),
            0 <= count <= i,
            0 <= sum_x <= 65_535 * count,
            0 <= sum_y <= 65_535 * count,
        decreases obs@.len() - i,
    {
        proof {
            let t = obs@.take(i as int + 1);
            assert(t.drop_last() =~= obs@.take(i as int));
            assert(t.last() == obs@[i as int]);
        }
        if obs[i].timestamp_ms >= start {
            count = count + 1;
            sum_x = sum_x + obs[i].coordinate.tablet_x as i128;
            sum_y = sum_y + obs[i].coordinate.tablet_y as i128;
        }
        i = i + 1;
    }
    proof {
        assert(obs@.take(obs@.len() as int) =~= obs@);
    }
    let center_x = sum_x / count;
    let center_y = sum_y / count;
    assert(0 <= center_x <= 65_535) by (nonlinear_arith)
        requires
            0 <= sum_x <= 65_535 * count,
            count > 0,
            center_x == sum_x / count,
    ;
    assert(0 <= center_y <= 65_535) by (nonlinear_arith)
        requires
            0 <= sum_y <= 65_535 * count,
            count > 0,
            center_y == sum_y / count,
    ;
    let mut dispersion: i128 = 0;
    let mut i: usize = 0;
    while i < obs.len()
        invariant
            i <= obs@.len(),
            0 <= center_x <= 65_535,
            0 <= center_y <= 65_535,
            dispersion == window_max_dispersion(obs@.take(i as int), start, center_x as int, center_y as int),
            0 <= dispersion <= 2 * 65_535 * 65_535,
        decreases obs@.len() - i,
    {
        proof {
            let t = obs@.take(i as int + 1);
            assert(t.drop_last() =~= obs@.take(i as int));
            assert(t.last() == obs@[i as int]);
        }
        if obs[i].timestamp_ms >= start {
            let dx = obs[i].coordinate.tablet_x as i128 - center_x;
            let dy = obs[i].coordinate.tablet_y as i128 - center_y;
            proof {
                lemma_square_bound(dx as int);
                lemma_square_bound(dy as int);
            }
            let d = dx * dx + dy * dy;
            if d > dispersion {
                dispersion = d;
            }
        }
        i = i + 1;
    }
    proof {
        assert(obs@.take(obs@.len() as int) =~= obs@);
    }
    let exit_radius_squared: i128 = 160 * 160;
    let step = squared_tablet_distance(previous, current);
    if step as i128 > exit_radius_squared || endpoint_displacement as i128 > exit_radius_squared
        || dispersion > exit_radius_squared {
        return HoverStability::Exit;
    }
    if endpoint_displacement as i128 <= 48 * 48 && dispersion <= 96 * 96 {
        HoverStability::Core
    } else {
        HoverStability::Tolerance
    }
}

/// Drops the observations at the front taken before `start`.
pub open spec fn spec_prune(s: Seq<HoverObservation>, start: u64) -> Seq<HoverObservation>
    decreases s.len(),
{
    if s.len() > 0 && s[0].timestamp_ms < start {
        spec_prune(s.drop_first(), start)
    } else {
        s
    }
}

proof fn lemma_prune_keeps_last(s: Seq<HoverObservation>, start: u64)
    requires
        s.len() > 0,
        s.last().timestamp_ms >= start,
    ensures
        spec_prune(s, start).len() > 0,
        spec_prune(s, start).last() == s.last(),
    decreases s.len(),
{
    if s[0].timestamp_ms < start {
        assert(s.len() > 1);
        assert(s.drop_first().last() == s.last());
        lemma_prune_keeps_last(s.drop_first(), start);
    }
}

proof fn lemma_window_has_last(s: Seq<HoverObservation>, start: u64)
    requires
        s.len() > 0,
        s.last().timestamp_ms >= start,
    ensures
        window_count(s, start) > 0,
{
    lemma_window_bounds(s.drop_last(), start);
}

fn prune_observations(v: &mut Vec<HoverObservation>, start: u64)
    ensures
        final(v)@ == spec_prune(old(v)@, start),
{
    while v.len() > 0 && v[0].timestamp_ms < start
        invariant
            spec_prune(v@, start) == spec_prune(old(v)@, start),
        decreases v@.len(),
    {
        let ghost before = v@;
        v.remove(0);
        assert(v@ =~= before.drop_first());
    }
}

/// A hover position that a touch-down may be anchored to, with how long the
/// hover has been still around it.
#[derive(Debug, PartialEq, Eq)]
pub struct HoverAnchorCandidate {
    pub observations: Vec<HoverObservation>,
    pub last: PenCoordinate,
    pub last_timestamp_ms: u64,
    pub stable_duration_ms: u64,
    pub tolerance_since_ms: Option<u64>,
    pub is_core_stable: bool,
}

pub struct HoverAnchorCandidateModel {
    pub observations: Seq<HoverObservation>,
    pub last: PenCoordinate,
    pub last_timestamp_ms: u64,
    pub stable_duration_ms: u64,
    pub tolerance_since_ms: Option<u64>,
    pub is_core_stable: bool,
}

impl View for HoverAnchorCandidate {
    type V = HoverAnchorCandidateModel;

    open spec fn view(&self) -> HoverAnchorCandidateModel {
        HoverAnchorCandidateModel {
            observations: self.observations@,
            last: self.last,
            last_timestamp_ms: self.last_timestamp_ms,
            stable_duration_ms: self.stable_duration_ms,
            tolerance_since_ms: self.tolerance_since_ms,
            is_core_stable: self.is_core_stable,
        }
    }
}

/// A hover that starts at `coordinate`.
pub open spec fn spec_new_candidate(timestamp_ms: u64, coordinate: PenCoordinate) -> HoverAnchorCandidateModel {
    HoverAnchorCandidateModel {
        observations: seq![HoverObservation { timestamp_ms, coordinate }],
        last: coordinate,
        last_timestamp_ms: timestamp_ms,
        stable_duration_ms: 0,
        tolerance_since_ms: None,
        is_core_stable: true,
    }
}

/// How long the hover has been still at `t`, if `t` is not before its last sample.
pub open spec fn spec_stable_duration_at(c: HoverAnchorCandidateModel, t: u64) -> Option<u64> {
    if t < c.last_timestamp_ms {
        None
    } else {
        let quiet = (t - c.last_timestamp_ms) as u64;
        Some(
            if c.is_core_stable {
                c.stable_duration_ms.saturating_add(quiet)
            } else if quiet >= PRECISE_ANCHOR_TOLERANCE_DURATION_MS {
                quiet
            } else {
                c.stable_duration_ms
            },
        )
    }
}

/// The hover after a sample at `current` taken at `t`.
pub open spec fn spec_observe_hover(
    candidate: Option<HoverAnchorCandidateModel>,
    t: u64,
    current: PenCoordinate,
) -> HoverAnchorCandidateModel {
    match candidate {
        None => spec_new_candidate(t, current),
        Some(c) => if t < c.last_timestamp_ms {
            spec_new_candidate(t, current)
        } else {
            let elapsed = (t - c.last_timestamp_ms) as u64;
            let obs = spec_prune(
                c.observations.push(HoverObservation { timestamp_ms: t, coordinate: current }),
                t.saturating_sub(PRECISE_ANCHOR_HOVER_HISTORY_MS),
            );
            match spec_hover_stability(obs, c.last, current, t) {
                HoverStability::Core => HoverAnchorCandidateModel {
                    observations: obs,
                    last: current,
                    last_timestamp_ms: t,
                    stable_duration_ms: if c.is_core_stable {
                        c.stable_duration_ms.saturating_add(elapsed)
                    } else {
                        c.stable_duration_ms
                    },
                    tolerance_since_ms: None,
                    is_core_stable: true,
                },
                HoverStability::Tolerance => {
                    let since = match c.tolerance_since_ms {
                        Some(s) => s,
                        None => t,
                    };
                    if t.saturating_sub(since) >= PRECISE_ANCHOR_TOLERANCE_DURATION_MS {
                        spec_new_candidate(t, current)
                    } else {
                        HoverAnchorCandidateModel {
                            observations: obs,
                            last: current,
                            last_timestamp_ms: t,
                            stable_duration_ms: c.stable_duration_ms,
                            tolerance_since_ms: Some(since),
                            is_core_stable: false,
                        }
                    }
                },
                HoverStability::Exit => spec_new_candidate(t, current),
            }
        },
    }
}

impl HoverAnchorCandidate {
    pub fn new(timestamp_ms: u64, coordinate: PenCoordinate) -> (r: Self)
        ensures
            r@ == spec_new_candidate(timestamp_ms, coordinate),
    {
        let observations = vec![HoverObservation { timestamp_ms, coordinate }];
        assert(observations@ =~= seq![HoverObservation { timestamp_ms, coordinate }]);
        HoverAnchorCandidate {
            observations,
            last: coordinate,
            last_timestamp_ms: timestamp_ms,
            stable_duration_ms: 0,
            tolerance_since_ms: None,
            is_core_stable: true,
        }
    }

    /// How long the hover has been still at `timestamp_ms`; see [`spec_stable_duration_at`].
    pub fn stable_duration_at(&self, timestamp_ms: u64) -> (r: Option<u64>)
        ensures
            r == spec_stable_duration_at(self@, timestamp_ms),
    {
        if timestamp_ms < self.last_timestamp_ms {
            return None;
        }
        let quiet_duration_ms = timestamp_ms - self.last_timestamp_ms;
        Some(
            if self.is_core_stable {
                self.stable_duration_ms.saturating_add(quiet_duration_ms)
            } else if quiet_duration_ms >= PRECISE_ANCHOR_TOLERANCE_DURATION_MS {
                quiet_duration_ms
            } else {
                self.stable_duration_ms
            },
        )
    }
}

/// The hover after a sample at `current` taken at `timestamp_ms`; see [`spec_observe_hover`].
pub fn observe_hover_candidate(
    candidate: Option<HoverAnchorCandidate>,
    timestamp_ms: u64,
    current: PenCoordinate,
) -> (r: HoverAnchorCandidate)
    ensures
        r@ == spec_observe_hover(
            match candidate {
                Some(c) => Some(c@),
                None => None,
            },
            timestamp_ms,
            current,
        ),
{
    let mut c = match candidate {
        None => {
            return HoverAnchorCandidate::new(timestamp_ms, current);
        },
        Some(c) => c,
    };
    if timestamp_ms < c.last_timestamp_ms {
        return HoverAnchorCandidate::new(timestamp_ms, current);
    }
    let ghost old_c = c@;
    let elapsed_ms = timestamp_ms - c.last_timestamp_ms;
    c.observations.push(HoverObservation { timestamp_ms, coordinate: current });
    let ghost pushed = c.observations@;
    let history_start_ms = timestamp_ms.saturating_sub(PRECISE_ANCHOR_HOVER_HISTORY_MS);
    prune_observations(&mut c.observations, history_start_ms);
    proof {
        lemma_prune_keeps_last(pushed, history_start_ms);
        lemma_window_has_last(
            c.observations@,
            timestamp_ms.saturating_sub(PRECISE_ANCHOR_STABILITY_WINDOW_MS),
        );
    }
    match hover_stability(&c.observations, c.last, current, timestamp_ms) {
        HoverStability::Core => {
            if c.is_core_stable {
                c.stable_duration_ms = c.stable_duration_ms.saturating_add(elapsed_ms);
            }
            c.tolerance_since_ms = None;
            c.is_core_stable = true;
        },
        HoverStability::Tolerance => {
            let tolerance_since_ms = match c.tolerance_since_ms {
                Some(s) => s,
                None => timestamp_ms,
            };
            c.tolerance_since_ms = Some(tolerance_since_ms);
            c.is_core_stable = false;
            if timestamp_ms.saturating_sub(tolerance_since_ms) >= PRECISE_ANCHOR_TOLERANCE_DURATION_MS {
                return HoverAnchorCandidate::new(timestamp_ms, current);
            }
        },
        HoverStability::Exit => {
            return HoverAnchorCandidate::new(timestamp_ms, current);
        },
    }
    c.last = current;
    c.last_timestamp_ms = timestamp_ms;
    c
}

/// A touching stroke: where it went down and how far it has strayed.
#[derive(Debug, Clone, Copy, PartialEq, Eq, Structural)]
pub struct ContactStroke {
    pub origin: PenCoordinate,
    pub max_squared_displacement: i64,
}

impl ContactStroke {
    pub fn new(origin: PenCoordinate) -> (r: Self)
        ensures
            r == (ContactStroke { origin, max_squared_displacement: 0 }),
    {
        ContactStroke { origin, max_squared_displacement: 0 }
    }

    pub open spec fn spec_observe(self, coordinate: PenCoordinate) -> ContactStroke {
        ContactStroke {
            origin: self.origin,
            max_squared_displacement: if sq_dist(self.origin, coordinate)
                > self.max_squared_displacement {
                sq_dist(self.origin, coordinate) as i64
            } else {
                self.max_squared_displacement
            },
        }
    }

    pub fn observe(&mut self, coordinate: PenCoordinate)
        ensures
            *final(self) == old(self).spec_observe(coordinate),
    {
        let d = squared_tablet_distance(self.origin, coordinate);
        if d > self.max_squared_displacement {
            self.max_squared_displacement = d;
        }
    }

    /// The stroke strayed at least 32 logical units from where it went down.
    pub open spec fn spec_is_writing_stroke(self) -> bool {
        self.max_squared_displacement >= 32 * 32
    }

    pub fn is_writing_stroke(self) -> (r: bool)
        ensures
            r == self.spec_is_writing_stroke(),
    {
        self.max_squared_displacement >= (PRECISE_ANCHOR_WRITING_STROKE_DISTANCE as i64)
            * (PRECISE_ANCHOR_WRITING_STROKE_DISTANCE as i64)
    }
}

/// The shift applied to every sample of an anchored stroke.
#[derive(Debug, Clone, Copy, PartialEq, Eq, Structural)]
pub struct StrokeCoordinateOffset {
    pub x: i32,
    pub y: i32,
    pub tablet_x: i32,
    pub tablet_y: i32,
}

/// `v` clamped to the logical axis.
pub open spec fn clamp_logical(v: int) -> u16 {
    if v < 0 {
        0
    } else if v > LOGICAL_COORD_MAX {
        LOGICAL_COORD_MAX
    } else {
        v as u16
    }
}

/// The command moved back by `offset`; desktop pixels wrap as `i32`
/// arithmetic does, and tablet coordinates are clamped to the logical axis.
pub open spec fn spec_apply_offset(command: PenInjectionCommand, offset: StrokeCoordinateOffset) -> PenInjectionCommand {
    PenInjectionCommand {
        x: command.x.wrapping_sub(offset.x),
        y: command.y.wrapping_sub(offset.y),
        tablet_x: clamp_logical(command.tablet_x - offset.tablet_x),
        tablet_y: clamp_logical(command.tablet_y - offset.tablet_y),
        ..command
    }
}

pub fn apply_coordinate_offset(command: &mut PenInjectionCommand, offset: StrokeCoordinateOffset)
    ensures
        *final(command) == spec_apply_offset(*old(command), offset),
{
    command.x = command.x.wrapping_sub(offset.x);
    command.y = command.y.wrapping_sub(offset.y);
    let tx = command.tablet_x as i64 - offset.tablet_x as i64;
    let ty = command.tablet_y as i64 - offset.tablet_y as i64;
    command.tablet_x = if tx < 0 {
        0
    } else if tx > LOGICAL_COORD_MAX as i64 {
        LOGICAL_COORD_MAX
    } else {
        tx as u16
    };
    command.tablet_y = if ty < 0 {
        0
    } else if ty > LOGICAL_COORD_MAX as i64 {
        LOGICAL_COORD_MAX
    } else {
        ty as u16
    };
}

/// Drops the stroke end times at the front that came before `start`.
pub open spec fn spec_prune_times(s: Seq<u64>, start: u64) -> Seq<u64>
    decreases s.len(),
{
    if s.len() > 0 && s[0] < start {
        spec_prune_times(s.drop_first(), start)
    } else {
        s
    }
}

/// Corrects the drift between where the pen hovered still and where it
/// touched down: a touch-down after a still hover is moved onto the hover
/// point, and the rest of that stroke is moved with it.
#[derive(Debug, Default)]
pub struct PreciseAnchorCorrector {
    pub hover_candidate: Option<HoverAnchorCandidate>,
    pub stroke_offset: Option<StrokeCoordinateOffset>,
    pub contact_stroke: Option<ContactStroke>,
    pub writing_stroke_ends_ms: Vec<u64>,
}

pub struct CorrectorModel {
    pub hover_candidate: Option<HoverAnchorCandidateModel>,
    pub stroke_offset: Option<StrokeCoordinateOffset>,
    pub contact_stroke: Option<ContactStroke>,
    pub writing_stroke_ends_ms: Seq<u64>,
}

impl View for PreciseAnchorCorrector {
    type V = CorrectorModel;

    open spec fn view(&self) -> CorrectorModel {
        CorrectorModel {
            hover_candidate: match self.hover_candidate {
                Some(c) => Some(c@),
                None => None,
            },
            stroke_offset: self.stroke_offset,
            contact_stroke: self.contact_stroke,
            writing_stroke_ends_ms: self.writing_stroke_ends_ms@,
        }
    }
}

/// A corrector that remembers nothing.
pub open spec fn spec_reset_corrector() -> CorrectorModel {
    CorrectorModel {
        hover_candidate: None,
        stroke_offset: None,
        contact_stroke: None,
        writing_stroke_ends_ms: Seq::empty(),
    }
}

/// The writing strokes that ended within the last 700 ms before `t`.
pub open spec fn spec_prune_writing(m: CorrectorModel, t: u64) -> CorrectorModel {
    CorrectorModel {
        writing_stroke_ends_ms: spec_prune_times(
            m.writing_stroke_ends_ms,
            t.saturating_sub(PRECISE_ANCHOR_WRITING_FLOW_MS),
        ),
        ..m
    }
}

/// The shift of a touch-down at `t`: defined when the hover has been still
/// for 220 ms, or 280 ms while the user is writing, and then the distance
/// from the hover point to the touch-down.
pub open spec fn spec_offset_for_down(m: CorrectorModel, t: u64, down: PenInjectionCommand) -> Option<StrokeCoordinateOffset> {
    let writing = spec_prune_writing(m, t).writing_stroke_ends_ms.len()
        >= PRECISE_ANCHOR_WRITING_STROKE_COUNT;
    let required = if writing {
        PRECISE_ANCHOR_WRITING_STABLE_DURATION_MS
    } else {
        PRECISE_ANCHOR_STABLE_DURATION_MS
    };
    match m.hover_candidate {
        None => None,
        Some(c) => match spec_stable_duration_at(c, t) {
            None => None,
            Some(d) => if d < required {
                None
            } else {
                Some(
                    StrokeCoordinateOffset {
                        x: down.x.wrapping_sub(c.last.x),
                        y: down.y.wrapping_sub(c.last.y),
                        tablet_x: (down.tablet_x - c.last.tablet_x) as i32,
                        tablet_y: (down.tablet_y - c.last.tablet_y) as i32,
                    },
                )
            },
        },
    }
}

/// The corrector once a touching stroke ends at `t`: a stroke that counted
/// as writing is remembered.
pub open spec fn spec_finish_contact_stroke(m: CorrectorModel, t: u64) -> CorrectorModel {
    match m.contact_stroke {
        None => m,
        Some(stroke) => if stroke.spec_is_writing_stroke() {
            CorrectorModel {
                contact_stroke: None,
                writing_stroke_ends_ms: spec_prune_writing(m, t).writing_stroke_ends_ms.push(t),
                ..m
            }
        } else {
            CorrectorModel { contact_stroke: None, ..m }
        },
    }
}

/// The event changes the contact in a way that the stroke shift follows.
pub open spec fn is_boundary_event(e: StylusEventType) -> bool {
    e == StylusEventType::Down || e == StylusEventType::Up || e == StylusEventType::Cancel
}

/// One sample through the corrector: the corrector afterwards and the command
/// sent on.
pub open spec fn spec_process(
    m: CorrectorModel,
    frame: StylusFrame,
    command: PenInjectionCommand,
    enabled: bool,
) -> (CorrectorModel, PenInjectionCommand) {
    let t = frame.timestamp;
    let e = frame.event_type;
    if !enabled {
        (spec_reset_corrector(), command)
    } else if e == StylusEventType::Move && command.in_range && !command.is_contact {
        (
            CorrectorModel {
                stroke_offset: None,
                hover_candidate: Some(
                    spec_observe_hover(m.hover_candidate, t, PenCoordinate::spec_of(command)),
                ),
                ..m
            },
            command,
        )
    } else {
        let m1 = if e == StylusEventType::Down && command.is_contact {
            CorrectorModel {
                stroke_offset: spec_offset_for_down(m, t, command),
                hover_candidate: None,
                contact_stroke: Some(
                    ContactStroke { origin: PenCoordinate::spec_of(command), max_squared_displacement: 0 },
                ),
                ..spec_prune_writing(m, t)
            }
        } else if e == StylusEventType::Move && command.is_contact {
            CorrectorModel {
                contact_stroke: match m.contact_stroke {
                    Some(s) => Some(s.spec_observe(PenCoordinate::spec_of(command))),
                    None => None,
                },
                ..m
            }
        } else if e == StylusEventType::Up {
            spec_finish_contact_stroke(m, t)
        } else if e == StylusEventType::Cancel {
            CorrectorModel { contact_stroke: None, ..m }
        } else {
            m
        };
        let out = match m1.stroke_offset {
            Some(offset) => if command.is_contact || is_boundary_event(e) {
                spec_apply_offset(command, offset)
            } else {
                command
            },
            None => command,
        };
        let m2 = if e == StylusEventType::Cancel || (!command.in_range && !command.is_contact) {
            spec_reset_corrector()
        } else if e == StylusEventType::Up {
            CorrectorModel { stroke_offset: None, ..m1 }
        } else {
            m1
        };
        (m2, out)
    }
}

fn prune_times(v: &mut Vec<u64>, start: u64)
    ensures
        final(v)@ == spec_prune_times(old(v)@, start),
{
    while v.len() > 0 && v[0] < start
        invariant
            spec_prune_times(v@, start) == spec_prune_times(old(v)@, start),
        decreases v@.len(),
    {
        let ghost before = v@;
        v.remove(0);
        assert(v@ =~= before.drop_first());
    }
}

impl PreciseAnchorCorrector {
    pub fn new() -> (r: Self)
        ensures
            r@ == spec_reset_corrector(),
    {
        let r = PreciseAnchorCorrector {
            hover_candidate: None,
            stroke_offset: None,
            contact_stroke: None,
            writing_stroke_ends_ms: Vec::new(),
        };
        assert(r@.writing_stroke_ends_ms =~= Seq::<u64>::empty());
        r
    }

    /// Forgets the hover, the stroke and the writing state.
    pub fn reset(&mut self)
        ensures
            final(self)@ == spec_reset_corrector(),
    {
        self.hover_candidate = None;
        self.stroke_offset = None;
        self.contact_stroke = None;
        self.writing_stroke_ends_ms = Vec::new();
        assert(self@.writing_stroke_ends_ms =~= Seq::<u64>::empty());
    }

    /// Forgets the stroke in progress.
    pub fn clear_stroke(&mut self)
        ensures
            final(self)@ == (CorrectorModel { stroke_offset: None, contact_stroke: None, ..old(self)@ }),
    {
        self.stroke_offset = None;
        self.contact_stroke = None;
    }

    /// Forgets the writing strokes that ended more than 700 ms before `timestamp_ms`.
    pub fn prune_writing_strokes(&mut self, timestamp_ms: u64)
        ensures
            final(self)@ == spec_prune_writing(old(self)@, timestamp_ms),
    {
        let start = timestamp_ms.saturating_sub(PRECISE_ANCHOR_WRITING_FLOW_MS);
        prune_times(&mut self.writing_stroke_ends_ms, start);
    }

    /// Records the end of the touching stroke at `timestamp_ms`.
    pub fn finish_contact_stroke(&mut self, timestamp_ms: u64)
        ensures
            final(self)@ == spec_finish_contact_stroke(old(self)@, timestamp_ms),
    {
        let stroke = match self.contact_stroke.take() {
            None => {
                return;
            },
            Some(s) => s,
        };
        if stroke.is_writing_stroke() {
            self.prune_writing_strokes(timestamp_ms);
            self.writing_stroke_ends_ms.push(timestamp_ms);
        }
    }

    /// The shift of a touch-down at `timestamp_ms`; the writing strokes are
    /// pruned on the way.
    pub fn offset_for_down(&mut self, timestamp_ms: u64, down: &PenInjectionCommand) -> (r: Option<
        StrokeCoordinateOffset,
    >)
        ensures
            final(self)@ == spec_prune_writing(old(self)@, timestamp_ms),
            r == spec_offset_for_down(old(self)@, timestamp_ms, *down),
    {
        self.prune_writing_strokes(timestamp_ms);
        let candidate = match &self.hover_candidate {
            None => {
                return None;
            },
            Some(c) => c,
        };
        let required_duration_ms = if self.writing_stroke_ends_ms.len()
            >= PRECISE_ANCHOR_WRITING_STROKE_COUNT {
            PRECISE_ANCHOR_WRITING_STABLE_DURATION_MS
        } else {
            PRECISE_ANCHOR_STABLE_DURATION_MS
        };
        let stable = match candidate.stable_duration_at(timestamp_ms) {
            None => {
                return None;
            },
            Some(d) => d,
        };
        if stable < required_duration_ms {
            return None;
        }
        Some(
            StrokeCoordinateOffset {
                x: down.x.wrapping_sub(candidate.last.x),
                y: down.y.wrapping_sub(candidate.last.y),
                tablet_x: down.tablet_x as i32 - candidate.last.tablet_x as i32,
                tablet_y: down.tablet_y as i32 - candidate.last.tablet_y as i32,
            },
        )
    }

    /// Feeds one hover sample into the candidate.
    pub fn observe_hover(&mut self, timestamp_ms: u64, command: &PenInjectionCommand)
        ensures
            final(self)@ == (CorrectorModel {
                hover_candidate: Some(
                    spec_observe_hover(old(self)@.hover_candidate, timestamp_ms, PenCoordinate::spec_of(*command)),
                ),
                ..old(self)@
            }),
    {
        let current = PenCoordinate::of_command(command);
        let candidate = self.hover_candidate.take();
        self.hover_candidate = Some(observe_hover_candidate(candidate, timestamp_ms, current));
    }
}

impl PreciseAnchorCorrector {
    /// Passes one pen sample through the corrector; see [`spec_process`].
    pub fn process(&mut self, frame: &StylusFrame, command: PenInjectionCommand, enabled: bool) -> (r:
        PenInjectionCommand)
        ensures
            (final(self)@, r) == spec_process(old(self)@, *frame, command, enabled),
    {
        let mut command = command;
        if !enabled {
            self.reset();
            return command;
        }
        let t = frame.timestamp;
        let e = frame.event_type;
        if e == StylusEventType::Move && command.in_range && !command.is_contact {
            self.stroke_offset = None;
            self.observe_hover(t, &command);
            return command;
        }
        if e == StylusEventType::Down && command.is_contact {
            self.stroke_offset = self.offset_for_down(t, &command);
            self.hover_candidate = None;
            self.contact_stroke = Some(ContactStroke::new(PenCoordinate::of_command(&command)));
        } else if e == StylusEventType::Move && command.is_contact {
            match &mut self.contact_stroke {
                Some(stroke) => stroke.observe(PenCoordinate::of_command(&command)),
                None => {},
            }
        } else if e == StylusEventType::Up {
            self.finish_contact_stroke(t);
        } else if e == StylusEventType::Cancel {
            self.contact_stroke = None;
        }
        match self.stroke_offset {
            Some(offset) => {
                if command.is_contact || e == StylusEventType::Down || e == StylusEventType::Up || e
                    == StylusEventType::Cancel {
                    apply_coordinate_offset(&mut command, offset);
                }
            },
            None => {},
        }
        if e == StylusEventType::Cancel || (!command.in_range && !command.is_contact) {
            self.reset();
        } else if e == StylusEventType::Up {
            self.stroke_offset = None;
        }
        command
    }
}

} // verus!
