use vstd::prelude::*;

use crate::protocol::model::{GestureFrame, GestureState, GestureType, StylusFlags};
use crate::shortcut::domain::{
    AdvancedActionModel, BindingId, GestureBinding, MouseButton, RadialInnerSlot, RadialMenuModel, ScreenPoint,
    ShortcutAction, ShortcutActionModel, ShortcutCommand, ShortcutCommandModel, StylusTrigger,
    SwipeAxis, AdvancedAction, RadialInnerBindings, spec_swipe_axis,
};
use crate::shortcut::profile::{spec_action_for, ShortcutProfile, ShortcutProfileModel};
use crate::shortcut::editing::{sort_by_rank, sort_keys_by_rank};
use crate::shortcut::keys::KeyCode;
use crate::shortcut::domain::{copy_keys, RadialMenuConfig};
use crate::workspace::MonitorInfo;
use crate::shortcut::radial_menu::{
    RadialAnchor, RadialMenuOverlay, RadialMenuOverlayState, RadialSelection,
};

verus! {

/// How long a held key or an advanced action outlives its last gesture frame.
pub const DEFAULT_HOLD_TTL_NS: u64 = 100_000_000;

/// The same for long presses, whose frames come every 200 ms.
pub const LONG_PRESS_HOLD_TTL_NS: u64 = 260_000_000;

/// Where the pen was last seen: hovering now, and last within range.
#[derive(Debug, Clone, Copy, PartialEq, Eq, Structural)]
pub struct PointerContext {
    pub current_hover: Option<ScreenPoint>,
    pub last_in_range: Option<ScreenPoint>,
}

/// Keys held down for a gesture, and when they are released unless renewed.
#[derive(Debug)]
pub struct HoldEntry {
    pub binding: BindingId,
    pub keys: Vec<KeyCode>,
    pub expires_at_ns: u64,
}

pub struct HoldModel {
    pub binding: BindingId,
    pub keys: Seq<KeyCode>,
    pub expires_at_ns: u64,
}

impl View for HoldEntry {
    type V = HoldModel;

    open spec fn view(&self) -> HoldModel {
        HoldModel { binding: self.binding, keys: self.keys@, expires_at_ns: self.expires_at_ns }
    }
}

/// The state of an advanced action in progress. Gesture values are kept by
/// their IEEE-754 bit patterns.
#[derive(Debug)]
pub enum ActiveAdvancedState {
    PointerDrag { modifiers: Vec<KeyCode>, button: Option<MouseButton>, last_x_bits: u32, last_y_bits: u32 },
    PointerWheel { modifiers: Vec<KeyCode>, last_scale_bits: u32 },
    PointerRotate { modifiers: Vec<KeyCode>, last_angle_bits: u32 },
    RadialMenu { anchor: RadialAnchor, selection: RadialSelection },
}

pub enum AdvancedStateModel {
    PointerDrag { modifiers: Seq<KeyCode>, button: Option<MouseButton>, last_x_bits: u32, last_y_bits: u32 },
    PointerWheel { modifiers: Seq<KeyCode>, last_scale_bits: u32 },
    PointerRotate { modifiers: Seq<KeyCode>, last_angle_bits: u32 },
    RadialMenu { anchor: RadialAnchor, selection: RadialSelection },
}

impl View for ActiveAdvancedState {
    type V = AdvancedStateModel;

    open spec fn view(&self) -> AdvancedStateModel {
        match self {
            ActiveAdvancedState::PointerDrag { modifiers, button, last_x_bits, last_y_bits } =>
                AdvancedStateModel::PointerDrag {
                modifiers: modifiers@,
                button: *button,
                last_x_bits: *last_x_bits,
                last_y_bits: *last_y_bits,
            },
            ActiveAdvancedState::PointerWheel { modifiers, last_scale_bits } =>
                AdvancedStateModel::PointerWheel { modifiers: modifiers@, last_scale_bits: *last_scale_bits },
            ActiveAdvancedState::PointerRotate { modifiers, last_angle_bits } =>
                AdvancedStateModel::PointerRotate { modifiers: modifiers@, last_angle_bits: *last_angle_bits },
            ActiveAdvancedState::RadialMenu { anchor, selection } => AdvancedStateModel::RadialMenu {
                anchor: *anchor,
                selection: *selection,
            },
        }
    }
}

/// An advanced action in progress and when it ends unless renewed.
#[derive(Debug)]
pub struct AdvancedEntry {
    pub binding: BindingId,
    pub state: ActiveAdvancedState,
    pub expires_at_ns: u64,
}

pub struct AdvancedModel {
    pub binding: BindingId,
    pub state: AdvancedStateModel,
    pub expires_at_ns: u64,
}

impl View for AdvancedEntry {
    type V = AdvancedModel;

    open spec fn view(&self) -> AdvancedModel {
        AdvancedModel { binding: self.binding, state: self.state@, expires_at_ns: self.expires_at_ns }
    }
}

/// What the radial menu overlay is asked to do.
#[derive(Debug, Clone, PartialEq, Eq)]
pub enum OverlayEffect {
    Show(RadialMenuOverlayState),
    Update(RadialMenuOverlayState),
    Hide,
    SyncHoldIndicator(Option<ScreenPoint>),
}

pub struct OverlayStateModel {
    pub anchor: RadialAnchor,
    pub selection: RadialSelection,
    pub active_inner_slots: Seq<RadialInnerSlot>,
    pub config: RadialMenuModel,
}

pub enum OverlayEffectModel {
    Show(OverlayStateModel),
    Update(OverlayStateModel),
    Hide,
    SyncHoldIndicator(Option<ScreenPoint>),
}

impl View for OverlayEffect {
    type V = OverlayEffectModel;

    open spec fn view(&self) -> OverlayEffectModel {
        match self {
            OverlayEffect::Show(s) => OverlayEffectModel::Show(
                OverlayStateModel {
                    anchor: s.anchor,
                    selection: s.selection,
                    active_inner_slots: s.active_inner_slots@,
                    config: s.config@,
                },
            ),
            OverlayEffect::Update(s) => OverlayEffectModel::Update(
                OverlayStateModel {
                    anchor: s.anchor,
                    selection: s.selection,
                    active_inner_slots: s.active_inner_slots@,
                    config: s.config@,
                },
            ),
            OverlayEffect::Hide => OverlayEffectModel::Hide,
            OverlayEffect::SyncHoldIndicator(p) => OverlayEffectModel::SyncHoldIndicator(*p),
        }
    }
}

/// The commands to execute and the overlay requests, in order.
#[derive(Debug)]
pub struct EngineOutput {
    pub commands: Vec<ShortcutCommand>,
    pub overlay: Vec<OverlayEffect>,
}

/// The commands and overlay requests of an output as sequences of models.
pub open spec fn commands_of(v: Seq<ShortcutCommand>) -> Seq<ShortcutCommandModel> {
    v.map_values(|c: ShortcutCommand| c@)
}

pub open spec fn effects_of(v: Seq<OverlayEffect>) -> Seq<OverlayEffectModel> {
    v.map_values(|e: OverlayEffect| e@)
}

/// The bindings in the order in which held state is released.
pub open spec fn spec_release_order() -> Seq<BindingId> {
    seq![
        BindingId::StylusTrigger(StylusTrigger::Squeeze),
        BindingId::StylusTrigger(StylusTrigger::DoubleTap),
        BindingId::StylusTrigger(StylusTrigger::TwoTap),
        BindingId::StylusTrigger(StylusTrigger::ThreeTap),
        BindingId::StylusTrigger(StylusTrigger::FourTap),
        BindingId::Gesture(GestureBinding::TwoPan),
        BindingId::Gesture(GestureBinding::ThreePan),
        BindingId::Gesture(GestureBinding::TwoPinch),
        BindingId::Gesture(GestureBinding::TwoRotate),
        BindingId::Gesture(GestureBinding::LongPress { fingers: 1 }),
        BindingId::Gesture(GestureBinding::LongPress { fingers: 2 }),
        BindingId::Gesture(GestureBinding::LongPress { fingers: 3 }),
        BindingId::Gesture(GestureBinding::LongPress { fingers: 4 }),
        BindingId::Gesture(GestureBinding::Swipe { fingers: 1, axis: SwipeAxis::Horizontal }),
        BindingId::Gesture(GestureBinding::Swipe { fingers: 1, axis: SwipeAxis::Vertical }),
    ]
}

fn release_order() -> (r: [BindingId; 15])
    ensures
        r@ == spec_release_order(),
{
    let r = [
        BindingId::StylusTrigger(StylusTrigger::Squeeze),
        BindingId::StylusTrigger(StylusTrigger::DoubleTap),
        BindingId::StylusTrigger(StylusTrigger::TwoTap),
        BindingId::StylusTrigger(StylusTrigger::ThreeTap),
        BindingId::StylusTrigger(StylusTrigger::FourTap),
        BindingId::Gesture(GestureBinding::TwoPan),
        BindingId::Gesture(GestureBinding::ThreePan),
        BindingId::Gesture(GestureBinding::TwoPinch),
        BindingId::Gesture(GestureBinding::TwoRotate),
        BindingId::Gesture(GestureBinding::LongPress { fingers: 1 }),
        BindingId::Gesture(GestureBinding::LongPress { fingers: 2 }),
        BindingId::Gesture(GestureBinding::LongPress { fingers: 3 }),
        BindingId::Gesture(GestureBinding::LongPress { fingers: 4 }),
        BindingId::Gesture(GestureBinding::Swipe { fingers: 1, axis: SwipeAxis::Horizontal }),
        BindingId::Gesture(GestureBinding::Swipe { fingers: 1, axis: SwipeAxis::Vertical }),
    ];
    assert(r@ =~= spec_release_order());
    r
}

/// No binding occurs twice.
pub open spec fn no_dup(keys: Seq<BindingId>) -> bool {
    forall|i: int, j: int| 0 <= i < j < keys.len() ==> keys[i] != keys[j]
}

/// Where `b` occurs in `keys`, or -1.
pub open spec fn index_in(keys: Seq<BindingId>, b: BindingId) -> int {
    if exists|i: int| 0 <= i < keys.len() && keys[i] == b {
        choose|i: int| 0 <= i < keys.len() && keys[i] == b
    } else {
        -1
    }
}

pub proof fn lemma_index_in(keys: Seq<BindingId>, b: BindingId, i: int)
    requires
        no_dup(keys),
        0 <= i < keys.len(),
        keys[i] == b,
    ensures
        index_in(keys, b) == i,
{
    let c = index_in(keys, b);
    assert(0 <= c < keys.len() && keys[c] == b);
    if c < i {
        assert(keys[c] != keys[i]);
    } else if i < c {
        assert(keys[i] != keys[c]);
    }
}

pub open spec fn hold_keys(s: Seq<HoldModel>) -> Seq<BindingId> {
    s.map_values(|h: HoldModel| h.binding)
}

pub open spec fn advanced_keys(s: Seq<AdvancedModel>) -> Seq<BindingId> {
    s.map_values(|a: AdvancedModel| a.binding)
}

pub open spec fn trigger_keys(s: Seq<(BindingId, u32)>) -> Seq<BindingId> {
    s.map_values(|e: (BindingId, u32)| e.0)
}

/// The state of the shortcut engine: held keys and advanced actions by
/// binding, the last sequence number each trigger fired for, where the pen
/// is, and the keys toggled on from the radial menu, oldest first.
pub struct EngineModel {
    pub holds: Seq<HoldModel>,
    pub advanced: Seq<AdvancedModel>,
    pub last_trigger_seq: Seq<(BindingId, u32)>,
    pub pointer: PointerContext,
    pub toggled: Seq<KeyCode>,
}

/// The engine's state is consistent: every binding has at most one entry of
/// each kind, only bindings that can fire have held state, and no key is
/// toggled twice.
pub open spec fn engine_wf(m: EngineModel) -> bool {
    &&& no_dup(hold_keys(m.holds))
    &&& no_dup(advanced_keys(m.advanced))
    &&& no_dup(trigger_keys(m.last_trigger_seq))
    &&& forall|i: int| 0 <= i < m.holds.len() ==> spec_release_order().contains(#[trigger] m.holds[i].binding)
    &&& forall|i: int| 0 <= i < m.advanced.len() ==> spec_release_order().contains(#[trigger] m.advanced[i].binding)
    &&& forall|i: int, j: int| 0 <= i < j < m.toggled.len() ==> m.toggled[i] != m.toggled[j]
}

/// Turns gestures and pen triggers into shortcut commands.
#[derive(Debug)]
pub struct ShortcutEngine {
    holds: Vec<HoldEntry>,
    advanced: Vec<AdvancedEntry>,
    last_trigger_seq: Vec<(BindingId, u32)>,
    pointer: PointerContext,
    toggled_keys: Vec<KeyCode>,
}

impl View for ShortcutEngine {
    type V = EngineModel;

    closed spec fn view(&self) -> EngineModel {
        EngineModel {
            holds: self.holds@.map_values(|h: HoldEntry| h@),
            advanced: self.advanced@.map_values(|a: AdvancedEntry| a@),
            last_trigger_seq: self.last_trigger_seq@,
            pointer: self.pointer,
            toggled: self.toggled_keys@,
        }
    }
}

fn find_hold(holds: &Vec<HoldEntry>, b: BindingId) -> (r: Option<usize>)
    requires
        no_dup(hold_keys(holds@.map_values(|h: HoldEntry| h@))),
    ensures
        ({
            let k = hold_keys(holds@.map_values(|h: HoldEntry| h@));
            match r {
                Some(i) => i < holds@.len() && index_in(k, b) == i,
                None => index_in(k, b) == -1,
            }
        }),
{
    let ghost k = hold_keys(holds@.map_values(|h: HoldEntry| h@));
    let mut i: usize = 0;
    while i < holds.len()
        invariant
            i <= holds@.len(),
            k == hold_keys(holds@.map_values(|h: HoldEntry| h@)),
            no_dup(k),
            k.len() == holds@.len(),
            forall|j: int| 0 <= j < i ==> k[j] != b,
        decreases holds@.len() - i,
    {
        assert(k[i as int] == holds@[i as int].binding);
        if holds[i].binding == b {
            proof {
                lemma_index_in(k, b, i as int);
            }
            return Some(i);
        }
        i = i + 1;
    }
    None
}

fn find_advanced(advanced: &Vec<AdvancedEntry>, b: BindingId) -> (r: Option<usize>)
    requires
        no_dup(advanced_keys(advanced@.map_values(|a: AdvancedEntry| a@))),
    ensures
        ({
            let k = advanced_keys(advanced@.map_values(|a: AdvancedEntry| a@));
            match r {
                Some(i) => i < advanced@.len() && index_in(k, b) == i,
                None => index_in(k, b) == -1,
            }
        }),
{
    let ghost k = advanced_keys(advanced@.map_values(|a: AdvancedEntry| a@));
    let mut i: usize = 0;
    while i < advanced.len()
        invariant
            i <= advanced@.len(),
            k == advanced_keys(advanced@.map_values(|a: AdvancedEntry| a@)),
            no_dup(k),
            k.len() == advanced@.len(),
            forall|j: int| 0 <= j < i ==> k[j] != b,
        decreases advanced@.len() - i,
    {
        assert(k[i as int] == advanced@[i as int].binding);
        if advanced[i].binding == b {
            proof {
                lemma_index_in(k, b, i as int);
            }
            return Some(i);
        }
        i = i + 1;
    }
    None
}

fn find_trigger(seqs: &Vec<(BindingId, u32)>, b: BindingId) -> (r: Option<usize>)
    requires
        no_dup(trigger_keys(seqs@)),
    ensures
        match r {
            Some(i) => i < seqs@.len() && index_in(trigger_keys(seqs@), b) == i,
            None => index_in(trigger_keys(seqs@), b) == -1,
        },
{
    let ghost k = trigger_keys(seqs@);
    let mut i: usize = 0;
    while i < seqs.len()
        invariant
            i <= seqs@.len(),
            k == trigger_keys(seqs@),
            no_dup(k),
            k.len() == seqs@.len(),
            forall|j: int| 0 <= j < i ==> k[j] != b,
        decreases seqs@.len() - i,
    {
        assert(k[i as int] == seqs@[i as int].0);
        if seqs[i].0 == b {
            proof {
                lemma_index_in(k, b, i as int);
            }
            return Some(i);
        }
        i = i + 1;
    }
    None
}


pub proof fn lemma_no_dup_remove(k: Seq<BindingId>, i: int)
    requires
        no_dup(k),
        0 <= i < k.len(),
    ensures
        no_dup(k.remove(i)),
        forall|j: int| 0 <= j < k.remove(i).len() ==> #[trigger] k.remove(i)[j] != k[i],
{
    let t = k.remove(i);
    assert forall|p: int, q: int| 0 <= p < q < t.len() implies t[p] != t[q] by {
        let p1 = if p < i { p } else { p + 1 };
        let q1 = if q < i { q } else { q + 1 };
        assert(t[p] == k[p1]);
        assert(t[q] == k[q1]);
    }
    assert forall|j: int| 0 <= j < t.len() implies #[trigger] t[j] != k[i] by {
        let j1 = if j < i { j } else { j + 1 };
        assert(t[j] == k[j1]);
    }
}

pub proof fn lemma_no_dup_push(k: Seq<BindingId>, b: BindingId)
    requires
        no_dup(k),
        index_in(k, b) == -1,
    ensures
        no_dup(k.push(b)),
{
    let t = k.push(b);
    assert forall|p: int, q: int| 0 <= p < q < t.len() implies t[p] != t[q] by {
        if q == k.len() {
            assert(t[p] == k[p]);
            if k[p] == b {
                assert(exists|i: int| 0 <= i < k.len() && k[i] == b);
            }
        } else {
            assert(t[p] == k[p] && t[q] == k[q]);
        }
    }
}

/// Where the hold indicator goes: at the pen, hovering or last in range,
/// while some key is toggled on; nowhere otherwise.
pub open spec fn spec_hold_point(m: EngineModel) -> Option<ScreenPoint> {
    if m.toggled.len() > 0 {
        match m.pointer.current_hover {
            Some(p) => Some(p),
            None => m.pointer.last_in_range,
        }
    } else {
        None
    }
}

/// The pen position after a pointer update.
pub open spec fn spec_update_pointer(
    p: PointerContext,
    point: ScreenPoint,
    in_range: bool,
    is_contact: bool,
) -> PointerContext {
    if in_range {
        PointerContext {
            current_hover: if is_contact {
                None
            } else {
                Some(point)
            },
            last_in_range: Some(point),
        }
    } else {
        PointerContext { current_hover: None, ..p }
    }
}

/// Each key pressed, in order.
pub open spec fn key_downs(keys: Seq<KeyCode>) -> Seq<ShortcutCommandModel> {
    keys.map_values(|k: KeyCode| ShortcutCommandModel::KeyDown(k))
}

/// Each key released, last first.
pub open spec fn key_ups_reversed(keys: Seq<KeyCode>) -> Seq<ShortcutCommandModel> {
    Seq::new(keys.len(), |j: int| ShortcutCommandModel::KeyUp(keys[keys.len() - 1 - j]))
}

/// What ending an advanced action does: a drag lets go of its button and
/// then its modifiers, a wheel or a rotation lets go of its modifiers, and
/// the radial menu closes its overlay.
pub open spec fn spec_release_advanced(st: AdvancedStateModel) -> (Seq<ShortcutCommandModel>, Seq<OverlayEffectModel>) {
    match st {
        AdvancedStateModel::PointerDrag { modifiers, button, .. } => (
            match button {
                Some(b) => seq![ShortcutCommandModel::MouseButtonUp(b)],
                None => Seq::<ShortcutCommandModel>::empty(),
            } + key_ups_reversed(modifiers),
            Seq::<OverlayEffectModel>::empty(),
        ),
        AdvancedStateModel::PointerWheel { modifiers, .. } => (
            key_ups_reversed(modifiers),
            Seq::<OverlayEffectModel>::empty(),
        ),
        AdvancedStateModel::PointerRotate { modifiers, .. } => (
            key_ups_reversed(modifiers),
            Seq::<OverlayEffectModel>::empty(),
        ),
        AdvancedStateModel::RadialMenu { .. } => (
            Seq::<ShortcutCommandModel>::empty(),
            seq![OverlayEffectModel::Hide],
        ),
    }
}

/// Ends the hold and the advanced action of `b`, if any, after the
/// commands and overlay requests gathered so far.
pub open spec fn release_binding(
    r: (EngineModel, Seq<ShortcutCommandModel>, Seq<OverlayEffectModel>),
    b: BindingId,
) -> (EngineModel, Seq<ShortcutCommandModel>, Seq<OverlayEffectModel>) {
    let (m, c, e) = r;
    let hi = index_in(hold_keys(m.holds), b);
    let m1 = if hi >= 0 {
        EngineModel { holds: m.holds.remove(hi), ..m }
    } else {
        m
    };
    let c1 = if hi >= 0 {
        c + key_ups_reversed(m.holds[hi].keys)
    } else {
        c
    };
    let ai = index_in(advanced_keys(m1.advanced), b);
    if ai >= 0 {
        (
            EngineModel { advanced: m1.advanced.remove(ai), ..m1 },
            c1 + spec_release_advanced(m1.advanced[ai].state).0,
            e + spec_release_advanced(m1.advanced[ai].state).1,
        )
    } else {
        (m1, c1, e)
    }
}

/// The hold or the advanced action of `b` has run out at `now`.
pub open spec fn is_due(m: EngineModel, b: BindingId, now: u64) -> bool {
    let hi = index_in(hold_keys(m.holds), b);
    let ai = index_in(advanced_keys(m.advanced), b);
    (hi >= 0 && m.holds[hi].expires_at_ns <= now) || (ai >= 0 && m.advanced[ai].expires_at_ns
        <= now)
}

/// Goes through the first `k` bindings of `order`, releasing each that is
/// due at `now`, or each one when no time is given.
pub open spec fn release_walk(m: EngineModel, order: Seq<BindingId>, now: Option<u64>, k: nat) -> (
    EngineModel,
    Seq<ShortcutCommandModel>,
    Seq<OverlayEffectModel>,
)
    decreases k,
{
    if k == 0 {
        (m, Seq::empty(), Seq::empty())
    } else {
        let prev = release_walk(m, order, now, (k - 1) as nat);
        let b = order[k - 1];
        match now {
            Some(t) => if is_due(prev.0, b, t) {
                release_binding(prev, b)
            } else {
                prev
            },
            None => release_binding(prev, b),
        }
    }
}

/// Releases every hold and advanced action that has run out at `now`, in
/// release order.
pub open spec fn spec_expire_due(m: EngineModel, now: u64) -> (
    EngineModel,
    Seq<ShortcutCommandModel>,
    Seq<OverlayEffectModel>,
) {
    release_walk(m, spec_release_order(), Some(now), 15)
}

/// An engine with nothing held, toggled or fired, and no pen seen.
pub open spec fn spec_new_engine() -> EngineModel {
    EngineModel {
        holds: Seq::empty(),
        advanced: Seq::empty(),
        last_trigger_seq: Seq::empty(),
        pointer: PointerContext { current_hover: None, last_in_range: None },
        toggled: Seq::empty(),
    }
}

impl ShortcutEngine {
    pub closed spec fn well_formed(&self) -> bool {
        engine_wf(self@)
    }

    /// An engine with nothing held, toggled or fired, and no pen seen.
    pub fn new() -> (r: Self)
        ensures
            r.well_formed(),
            r@ == spec_new_engine(),
    {
        let r = ShortcutEngine {
            holds: Vec::new(),
            advanced: Vec::new(),
            last_trigger_seq: Vec::new(),
            pointer: PointerContext { current_hover: None, last_in_range: None },
            toggled_keys: Vec::new(),
        };
        assert(r@.holds =~= Seq::<HoldModel>::empty());
        assert(r@.advanced =~= Seq::<AdvancedModel>::empty());
        r
    }

    /// Where the hold indicator goes now; see [`spec_hold_point`].
    fn hold_indicator_point(&self) -> (r: Option<ScreenPoint>)
        ensures
            r == spec_hold_point(self@),
    {
        if self.toggled_keys.len() > 0 {
            match self.pointer.current_hover {
                Some(p) => Some(p),
                None => self.pointer.last_in_range,
            }
        } else {
            None
        }
    }

    /// Records where the pen is and moves the hold indicator with it.
    pub fn update_pointer_context(&mut self, point: ScreenPoint, in_range: bool, is_contact: bool) -> (r: Vec<
        OverlayEffect,
    >)
        requires
            old(self).well_formed(),
        ensures
            final(self).well_formed(),
            final(self)@ == (EngineModel {
                pointer: spec_update_pointer(old(self)@.pointer, point, in_range, is_contact),
                ..old(self)@
            }),
            effects_of(r@) == seq![OverlayEffectModel::SyncHoldIndicator(spec_hold_point(final(self)@))],
    {
        if in_range {
            self.pointer = PointerContext {
                current_hover: if is_contact {
                    None
                } else {
                    Some(point)
                },
                last_in_range: Some(point),
            };
        } else {
            self.pointer = PointerContext { current_hover: None, last_in_range: self.pointer.last_in_range };
        }
        let mut effects: Vec<OverlayEffect> = Vec::new();
        effects.push(OverlayEffect::SyncHoldIndicator(self.hold_indicator_point()));
        proof {
            assert(effects_of(effects@) =~= seq![OverlayEffectModel::SyncHoldIndicator(spec_hold_point(self@))]);
        }
        effects
    }
}

/// Each key released, last first, after the commands already gathered.
fn push_key_ups_reversed(commands: &mut Vec<ShortcutCommand>, keys: &Vec<KeyCode>)
    ensures
        commands_of(final(commands)@) == commands_of(old(commands)@) + key_ups_reversed(keys@),
{
    let ghost start = commands_of(commands@);
    let n = keys.len();
    let mut i: usize = 0;
    while i < n
        invariant
            n == keys@.len(),
            i <= n,
            commands_of(commands@) == start + Seq::new(
                i as nat,
                |j: int| ShortcutCommandModel::KeyUp(keys@[n - 1 - j]),
            ),
        decreases n - i,
    {
        let ghost before = commands@;
        commands.push(ShortcutCommand::KeyUp(keys[n - 1 - i]));
        proof {
            assert(commands_of(commands@) =~= commands_of(before).push(
                ShortcutCommandModel::KeyUp(keys@[n - 1 - i]),
            ));
            assert(start + Seq::new(
                (i + 1) as nat,
                |j: int| ShortcutCommandModel::KeyUp(keys@[n - 1 - j]),
            ) =~= (start + Seq::new(
                i as nat,
                |j: int| ShortcutCommandModel::KeyUp(keys@[n - 1 - j]),
            )).push(ShortcutCommandModel::KeyUp(keys@[n - 1 - i])));
        }
        i = i + 1;
    }
    proof {
        assert(Seq::new(n as nat, |j: int| ShortcutCommandModel::KeyUp(keys@[n - 1 - j]))
            =~= key_ups_reversed(keys@));
    }
}

/// Each key pressed, in order, after the commands already gathered.
fn push_key_downs(commands: &mut Vec<ShortcutCommand>, keys: &Vec<KeyCode>)
    ensures
        commands_of(final(commands)@) == commands_of(old(commands)@) + key_downs(keys@),
{
    let ghost start = commands_of(commands@);
    let mut i: usize = 0;
    while i < keys.len()
        invariant
            i <= keys@.len(),
            commands_of(commands@) == start + key_downs(keys@.take(i as int)),
        decreases keys@.len() - i,
    {
        let ghost before = commands@;
        commands.push(ShortcutCommand::KeyDown(keys[i]));
        proof {
            assert(commands_of(commands@) =~= commands_of(before).push(
                ShortcutCommandModel::KeyDown(keys@[i as int]),
            ));
            assert(key_downs(keys@.take(i as int + 1)) =~= key_downs(keys@.take(i as int)).push(
                ShortcutCommandModel::KeyDown(keys@[i as int]),
            ));
        }
        i = i + 1;
    }
    proof {
        assert(keys@.take(keys@.len() as int) =~= keys@);
    }
}

/// Releases every hold and advanced action, then every toggled key in order
/// of rank, and forgets which trigger fired last.
pub open spec fn spec_release_all(m: EngineModel) -> (
    EngineModel,
    Seq<ShortcutCommandModel>,
    Seq<OverlayEffectModel>,
) {
    let (m1, c, e) = release_walk(m, spec_release_order(), None, 15);
    (
        EngineModel { toggled: Seq::empty(), last_trigger_seq: Seq::empty(), ..m1 },
        c + sort_by_rank(m1.toggled).map_values(|k: KeyCode| ShortcutCommandModel::KeyUp(k)),
        e.push(OverlayEffectModel::SyncHoldIndicator(None)),
    )
}

/// Releases everything, forgets where the pen was, and hides the hold
/// indicator.
pub open spec fn spec_session_end(m: EngineModel) -> (
    EngineModel,
    Seq<ShortcutCommandModel>,
    Seq<OverlayEffectModel>,
) {
    let (m1, c, e) = spec_release_all(m);
    (
        EngineModel { pointer: PointerContext { current_hover: None, last_in_range: None }, ..m1 },
        c,
        e.push(OverlayEffectModel::SyncHoldIndicator(None)),
    )
}

fn release_advanced_state(
    state: ActiveAdvancedState,
    commands: &mut Vec<ShortcutCommand>,
    effects: &mut Vec<OverlayEffect>,
)
    ensures
        commands_of(final(commands)@) == commands_of(old(commands)@) + spec_release_advanced(state@).0,
        effects_of(final(effects)@) == effects_of(old(effects)@) + spec_release_advanced(state@).1,
{
    let ghost c0 = commands_of(commands@);
    let ghost e0 = effects_of(effects@);
    match state {
        ActiveAdvancedState::PointerDrag { modifiers, button, .. } => {
            match button {
                Some(b) => {
                    commands.push(ShortcutCommand::MouseButtonUp(b));
                    proof {
                        assert(commands_of(commands@) =~= c0 + seq![ShortcutCommandModel::MouseButtonUp(b)]);
                    }
                },
                None => {
                    assert(c0 + Seq::<ShortcutCommandModel>::empty() =~= c0);
                },
            }
            push_key_ups_reversed(commands, &modifiers);
            proof {
                let head = match button {
                    Some(b) => seq![ShortcutCommandModel::MouseButtonUp(b)],
                    None => Seq::<ShortcutCommandModel>::empty(),
                };
                assert(c0 + head + key_ups_reversed(modifiers@) =~= c0 + (head + key_ups_reversed(
                    modifiers@,
                )));
                assert(e0 + Seq::<OverlayEffectModel>::empty() =~= e0);
            }
        },
        ActiveAdvancedState::PointerWheel { modifiers, .. } => {
            push_key_ups_reversed(commands, &modifiers);
            assert(e0 + Seq::<OverlayEffectModel>::empty() =~= e0);
        },
        ActiveAdvancedState::PointerRotate { modifiers, .. } => {
            push_key_ups_reversed(commands, &modifiers);
            assert(e0 + Seq::<OverlayEffectModel>::empty() =~= e0);
        },
        ActiveAdvancedState::RadialMenu { .. } => {
            effects.push(OverlayEffect::Hide);
            proof {
                assert(effects_of(effects@) =~= e0 + seq![OverlayEffectModel::Hide]);
                assert(c0 + Seq::<ShortcutCommandModel>::empty() =~= c0);
            }
        },
    }
}

/// Releasing `b` takes `b` out of the held state and brings nothing back.
pub proof fn lemma_release_binding_avoids(
    r: (EngineModel, Seq<ShortcutCommandModel>, Seq<OverlayEffectModel>),
    b: BindingId,
    avoid: Seq<BindingId>,
)
    requires
        engine_wf(r.0),
        forall|i: int, j: int| 0 <= i < r.0.holds.len() && 0 <= j < avoid.len() ==> r.0.holds[i].binding != avoid[j],
        forall|i: int, j: int| 0 <= i < r.0.advanced.len() && 0 <= j < avoid.len() ==> r.0.advanced[i].binding != avoid[j],
    ensures
        ({
            let out = release_binding(r, b).0;
            let a2 = avoid.push(b);
            &&& forall|i: int, j: int| 0 <= i < out.holds.len() && 0 <= j < a2.len() ==> out.holds[i].binding != a2[j]
            &&& forall|i: int, j: int| 0 <= i < out.advanced.len() && 0 <= j < a2.len() ==> out.advanced[i].binding != a2[j]
        }),
{
    let m = r.0;
    let a2 = avoid.push(b);
    let hk = hold_keys(m.holds);
    let hi = index_in(hk, b);
    let m1 = if hi >= 0 {
        EngineModel { holds: m.holds.remove(hi), ..m }
    } else {
        m
    };
    if hi >= 0 {
        lemma_no_dup_remove(hk, hi);
        assert(hold_keys(m1.holds) =~= hk.remove(hi));
    }
    assert forall|i: int, j: int| 0 <= i < m1.holds.len() && 0 <= j < a2.len() implies m1.holds[i].binding
        != a2[j] by {
        let i1 = if hi >= 0 && i >= hi { i + 1 } else { i };
        assert(m1.holds[i] == m.holds[i1]);
        if j == avoid.len() {
            if hi >= 0 {
                assert(hk[hi] == b);
                assert(hold_keys(m1.holds)[i] == m1.holds[i].binding);
            } else {
                assert(hk[i1] == m.holds[i1].binding);
                if m.holds[i1].binding == b {
                    assert(exists|x: int| 0 <= x < hk.len() && hk[x] == b);
                }
            }
        } else {
            assert(a2[j] == avoid[j]);
        }
    }
    let ak = advanced_keys(m1.advanced);
    let ai = index_in(ak, b);
    let out = release_binding(r, b).0;
    if ai >= 0 {
        lemma_no_dup_remove(ak, ai);
        assert(advanced_keys(out.advanced) =~= ak.remove(ai));
    }
    assert(out.holds == m1.holds);
    assert forall|i: int, j: int| 0 <= i < out.advanced.len() && 0 <= j < a2.len() implies out.advanced[i].binding
        != a2[j] by {
        let i1 = if ai >= 0 && i >= ai { i + 1 } else { i };
        assert(out.advanced[i] == m1.advanced[i1]);
        if j == avoid.len() {
            if ai >= 0 {
                assert(ak[ai] == b);
                assert(advanced_keys(out.advanced)[i] == out.advanced[i].binding);
            } else {
                assert(ak[i1] == m1.advanced[i1].binding);
                if m1.advanced[i1].binding == b {
                    assert(exists|x: int| 0 <= x < ak.len() && ak[x] == b);
                }
            }
        } else {
            assert(a2[j] == avoid[j]);
        }
    }
}

impl ShortcutEngine {
    proof fn lemma_holds_remove(&self, old_holds: Seq<HoldEntry>, i: int)
        requires
            0 <= i < old_holds.len(),
            self.holds@ == old_holds.remove(i),
        ensures
            self.holds@.map_values(|h: HoldEntry| h@) == old_holds.map_values(|h: HoldEntry| h@).remove(i),
    {
        assert(self.holds@.map_values(|h: HoldEntry| h@) =~= old_holds.map_values(|h: HoldEntry| h@).remove(i));
    }

    /// Ends the hold and the advanced action of `b`; see [`release_binding`].
    fn release_binding_into(
        &mut self,
        b: BindingId,
        commands: &mut Vec<ShortcutCommand>,
        effects: &mut Vec<OverlayEffect>,
    )
        requires
            old(self).well_formed(),
        ensures
            final(self).well_formed(),
            (final(self)@, commands_of(final(commands)@), effects_of(final(effects)@)) == release_binding(
                (old(self)@, commands_of(old(commands)@), effects_of(old(effects)@)),
                b,
            ),
    {
        let ghost m0 = self@;
        match find_hold(&self.holds, b) {
            Some(i) => {
                let ghost before = self.holds@;
                let h = self.holds.remove(i);
                proof {
                    self.lemma_holds_remove(before, i as int);
                    lemma_no_dup_remove(hold_keys(m0.holds), i as int);
                    assert(hold_keys(self@.holds) =~= hold_keys(m0.holds).remove(i as int));
                    assert forall|j: int| 0 <= j < self@.holds.len() implies spec_release_order().contains(
                        #[trigger] self@.holds[j].binding,
                    ) by {
                        let j1 = if j < i { j } else { j + 1 };
                        assert(self@.holds[j] == m0.holds[j1]);
                    }
                }
                push_key_ups_reversed(commands, &h.keys);
            },
            None => {},
        }
        let ghost m1 = self@;
        match find_advanced(&self.advanced, b) {
            Some(i) => {
                let ghost before = self.advanced@;
                let a = self.advanced.remove(i);
                proof {
                    assert(self.advanced@.map_values(|a: AdvancedEntry| a@) =~= before.map_values(
                        |a: AdvancedEntry| a@,
                    ).remove(i as int));
                    lemma_no_dup_remove(advanced_keys(m1.advanced), i as int);
                    assert(advanced_keys(self@.advanced) =~= advanced_keys(m1.advanced).remove(i as int));
                    assert forall|j: int| 0 <= j < self@.advanced.len() implies spec_release_order().contains(
                        #[trigger] self@.advanced[j].binding,
                    ) by {
                        let j1 = if j < i { j } else { j + 1 };
                        assert(self@.advanced[j] == m1.advanced[j1]);
                    }
                }
                release_advanced_state(a.state, commands, effects);
            },
            None => {},
        }
        assert(self@.toggled == m0.toggled);
    }

    /// Whether the hold or advanced action of `b` has run out at `now`.
    fn is_due_at(&self, b: BindingId, now: u64) -> (r: bool)
        requires
            self.well_formed(),
        ensures
            r == is_due(self@, b, now),
    {
        let held = match find_hold(&self.holds, b) {
            Some(i) => self.holds[i].expires_at_ns <= now,
            None => false,
        };
        let advanced = match find_advanced(&self.advanced, b) {
            Some(i) => self.advanced[i].expires_at_ns <= now,
            None => false,
        };
        held || advanced
    }

    /// Walks the release order; see [`release_walk`].
    fn release_in_order(&mut self, now: Option<u64>) -> (r: EngineOutput)
        requires
            old(self).well_formed(),
        ensures
            final(self).well_formed(),
            (final(self)@, commands_of(r.commands@), effects_of(r.overlay@)) == release_walk(
                old(self)@,
                spec_release_order(),
                now,
                15,
            ),
            now is None ==> final(self)@.holds.len() == 0 && final(self)@.advanced.len() == 0,
    {
        let ghost m0 = self@;
        let order = release_order();
        let mut commands: Vec<ShortcutCommand> = Vec::new();
        let mut effects: Vec<OverlayEffect> = Vec::new();
        proof {
            assert(commands_of(commands@) =~= Seq::<ShortcutCommandModel>::empty());
            assert(effects_of(effects@) =~= Seq::<OverlayEffectModel>::empty());
        }
        let mut k: usize = 0;
        while k < 15
            invariant
                k <= 15,
                order@ == spec_release_order(),
                self.well_formed(),
                (self@, commands_of(commands@), effects_of(effects@)) == release_walk(
                    m0,
                    spec_release_order(),
                    now,
                    k as nat,
                ),
                now is None ==> forall|i: int, j: int|
                    0 <= i < self@.holds.len() && 0 <= j < k ==> self@.holds[i].binding != spec_release_order()[j],
                now is None ==> forall|i: int, j: int|
                    0 <= i < self@.advanced.len() && 0 <= j < k ==> self@.advanced[i].binding != spec_release_order()[j],
            decreases 15 - k,
        {
            let b = order[k];
            let due = match now {
                Some(t) => self.is_due_at(b, t),
                None => true,
            };
            let ghost prev = (self@, commands_of(commands@), effects_of(effects@));
            if due {
                self.release_binding_into(b, &mut commands, &mut effects);
            }
            proof {
                if now is None {
                    let avoid = spec_release_order().take(k as int);
                    assert forall|i: int, j: int| 0 <= i < prev.0.holds.len() && 0 <= j < avoid.len() implies
                        prev.0.holds[i].binding != avoid[j] by {
                        assert(avoid[j] == spec_release_order()[j]);
                    }
                    assert forall|i: int, j: int| 0 <= i < prev.0.advanced.len() && 0 <= j < avoid.len() implies
                        prev.0.advanced[i].binding != avoid[j] by {
                        assert(avoid[j] == spec_release_order()[j]);
                    }
                    lemma_release_binding_avoids(prev, b, avoid);
                    assert(avoid.push(b) =~= spec_release_order().take(k as int + 1));
                    assert forall|i: int, j: int| 0 <= i < self@.holds.len() && 0 <= j < k + 1 implies
                        self@.holds[i].binding != spec_release_order()[j] by {
                        assert(avoid.push(b)[j] == spec_release_order()[j]);
                    }
                    assert forall|i: int, j: int| 0 <= i < self@.advanced.len() && 0 <= j < k + 1 implies
                        self@.advanced[i].binding != spec_release_order()[j] by {
                        assert(avoid.push(b)[j] == spec_release_order()[j]);
                    }
                }
            }
            k = k + 1;
        }
        proof {
            if now is None {
                let o = spec_release_order();
                if self@.holds.len() > 0 {
                    let x = self@.holds[0].binding;
                    assert(o.contains(x));
                    let j = choose|j: int| 0 <= j < o.len() && o[j] == x;
                    assert(self@.holds[0].binding != o[j]);
                }
                if self@.advanced.len() > 0 {
                    let x = self@.advanced[0].binding;
                    assert(o.contains(x));
                    let j = choose|j: int| 0 <= j < o.len() && o[j] == x;
                    assert(self@.advanced[0].binding != o[j]);
                }
            }
        }
        EngineOutput { commands, overlay: effects }
    }

    /// Releases every hold and advanced action that has run out at `now_ns`;
    /// see [`spec_expire_due`].
    pub fn expire_due(&mut self, now_ns: u64) -> (r: EngineOutput)
        requires
            old(self).well_formed(),
        ensures
            final(self).well_formed(),
            (final(self)@, commands_of(r.commands@), effects_of(r.overlay@)) == spec_expire_due(old(self)@, now_ns),
    {
        self.release_in_order(Some(now_ns))
    }

    /// Releases everything the engine holds; see [`spec_release_all`].
    pub fn release_all(&mut self) -> (r: EngineOutput)
        requires
            old(self).well_formed(),
        ensures
            final(self).well_formed(),
            (final(self)@, commands_of(r.commands@), effects_of(r.overlay@)) == spec_release_all(old(self)@),
            final(self)@.holds.len() == 0,
            final(self)@.advanced.len() == 0,
            final(self)@.toggled.len() == 0,
            final(self)@.last_trigger_seq.len() == 0,
    {
        let mut out = self.release_in_order(None);
        let ghost c1 = commands_of(out.commands@);
        let ghost e1 = effects_of(out.overlay@);
        let sorted = sort_keys_by_rank(&self.toggled_keys);
        let mut i: usize = 0;
        while i < sorted.len()
            invariant
                i <= sorted@.len(),
                effects_of(out.overlay@) == e1,
                commands_of(out.commands@) == c1 + sorted@.take(i as int).map_values(
                    |k: KeyCode| ShortcutCommandModel::KeyUp(k),
                ),
            decreases sorted@.len() - i,
        {
            let ghost before = out.commands@;
            out.commands.push(ShortcutCommand::KeyUp(sorted[i]));
            proof {
                assert(commands_of(out.commands@) =~= commands_of(before).push(
                    ShortcutCommandModel::KeyUp(sorted@[i as int]),
                ));
                assert(sorted@.take(i as int + 1).map_values(|k: KeyCode| ShortcutCommandModel::KeyUp(k))
                    =~= sorted@.take(i as int).map_values(|k: KeyCode| ShortcutCommandModel::KeyUp(k)).push(
                    ShortcutCommandModel::KeyUp(sorted@[i as int]),
                ));
            }
            i = i + 1;
        }
        proof {
            assert(sorted@.take(sorted@.len() as int) =~= sorted@);
        }
        self.toggled_keys = Vec::new();
        self.last_trigger_seq = Vec::new();
        out.overlay.push(OverlayEffect::SyncHoldIndicator(None));
        proof {
            assert(effects_of(out.overlay@) =~= e1.push(OverlayEffectModel::SyncHoldIndicator(None)));
            assert(self@.toggled =~= Seq::<KeyCode>::empty());
            assert(self@.last_trigger_seq =~= Seq::<(BindingId, u32)>::empty());
            assert(trigger_keys(self@.last_trigger_seq) =~= Seq::<BindingId>::empty());
        }
        out
    }

    /// Ends the session: releases everything and forgets the pen; see
    /// [`spec_session_end`].
    pub fn handle_session_end(&mut self) -> (r: EngineOutput)
        requires
            old(self).well_formed(),
        ensures
            final(self).well_formed(),
            (final(self)@, commands_of(r.commands@), effects_of(r.overlay@)) == spec_session_end(old(self)@),
            final(self)@.holds.len() == 0,
            final(self)@.advanced.len() == 0,
            final(self)@.toggled.len() == 0,
            final(self)@.last_trigger_seq.len() == 0,
            final(self)@.pointer == (PointerContext { current_hover: None, last_in_range: None }),
    {
        let mut out = self.release_all();
        self.pointer = PointerContext { current_hover: None, last_in_range: None };
        let ghost e1 = effects_of(out.overlay@);
        out.overlay.push(OverlayEffect::SyncHoldIndicator(None));
        proof {
            assert(effects_of(out.overlay@) =~= e1.push(OverlayEffectModel::SyncHoldIndicator(None)));
        }
        out
    }
}

/// `now + ttl`, or the end of time if that overflows.
pub open spec fn later(now: u64, ttl: u64) -> u64 {
    if now + ttl <= u64::MAX {
        (now + ttl) as u64
    } else {
        u64::MAX
    }
}

/// How long a hold of `b` outlives its last frame.
pub open spec fn spec_hold_ttl(b: BindingId) -> u64 {
    match b {
        BindingId::Gesture(GestureBinding::LongPress { .. }) => LONG_PRESS_HOLD_TTL_NS,
        _ => DEFAULT_HOLD_TTL_NS,
    }
}

fn hold_ttl(b: BindingId) -> (r: u64)
    ensures
        r == spec_hold_ttl(b),
{
    match b {
        BindingId::Gesture(GestureBinding::LongPress { .. }) => LONG_PRESS_HOLD_TTL_NS,
        _ => DEFAULT_HOLD_TTL_NS,
    }
}

/// A hold key gesture: the first frame presses the keys, later frames keep
/// them held, and the last frame releases them, last first.
pub open spec fn spec_handle_hold(
    m: EngineModel,
    b: BindingId,
    keys: Seq<KeyCode>,
    state: GestureState,
    now: u64,
) -> (EngineModel, Seq<ShortcutCommandModel>) {
    let hi = index_in(hold_keys(m.holds), b);
    let renewed = if hi >= 0 {
        EngineModel {
            holds: m.holds.update(
                hi,
                HoldModel { expires_at_ns: later(now, spec_hold_ttl(b)), ..m.holds[hi] },
            ),
            ..m
        }
    } else {
        m
    };
    match state {
        GestureState::Begin => if hi >= 0 {
            (renewed, Seq::empty())
        } else {
            (
                EngineModel {
                    holds: m.holds.push(
                        HoldModel { binding: b, keys, expires_at_ns: later(now, spec_hold_ttl(b)) },
                    ),
                    ..m
                },
                key_downs(keys),
            )
        },
        GestureState::Update => (renewed, Seq::empty()),
        GestureState::End => if hi >= 0 {
            (EngineModel { holds: m.holds.remove(hi), ..m }, key_ups_reversed(m.holds[hi].keys))
        } else {
            (m, Seq::empty())
        },
    }
}

/// The sequence number `b` last fired for, if it fired since the last release.
pub open spec fn spec_last_seq(m: EngineModel, b: BindingId) -> Option<u32> {
    let i = index_in(trigger_keys(m.last_trigger_seq), b);
    if i >= 0 {
        Some(m.last_trigger_seq[i].1)
    } else {
        None
    }
}

/// Remembers that `b` fired for `seq`.
pub open spec fn spec_record_seq(m: EngineModel, b: BindingId, seq: u32) -> EngineModel {
    let i = index_in(trigger_keys(m.last_trigger_seq), b);
    if i >= 0 {
        EngineModel { last_trigger_seq: m.last_trigger_seq.update(i, (b, seq)), ..m }
    } else {
        EngineModel { last_trigger_seq: m.last_trigger_seq.push((b, seq)), ..m }
    }
}

/// The point a pointer click lands on: the hover position, else the last
/// position within range.
pub open spec fn spec_resolve_anchor(p: PointerContext) -> Option<ScreenPoint> {
    match p.current_hover {
        Some(q) => Some(q),
        None => p.last_in_range,
    }
}

/// The pen triggers in the order a packet's flags are read.
pub open spec fn spec_trigger_order() -> Seq<StylusTrigger> {
    seq![
        StylusTrigger::Squeeze,
        StylusTrigger::DoubleTap,
        StylusTrigger::TwoTap,
        StylusTrigger::ThreeTap,
        StylusTrigger::FourTap,
    ]
}

/// The flag of trigger `t` is set.
pub open spec fn trigger_flag(flags: StylusFlags, t: StylusTrigger) -> bool {
    match t {
        StylusTrigger::Squeeze => flags.bit(2),
        StylusTrigger::DoubleTap => flags.bit(3),
        StylusTrigger::TwoTap => flags.bit(4),
        StylusTrigger::ThreeTap => flags.bit(5),
        StylusTrigger::FourTap => flags.bit(6),
    }
}

/// What one fired pen trigger does, as the new state and the commands and
/// overlay requests it adds: a chord is pressed, a pointer click presses its
/// keys and clicks at the pen, and the release trigger releases everything;
/// each at most once per packet sequence number.
pub open spec fn spec_trigger_effect(
    m: EngineModel,
    profile: ShortcutProfileModel,
    seq: u32,
    t: StylusTrigger,
) -> (EngineModel, Seq<ShortcutCommandModel>, Seq<OverlayEffectModel>) {
    let b = BindingId::StylusTrigger(t);
    let fresh = spec_last_seq(m, b) != Some(seq);
    let unchanged = (m, Seq::<ShortcutCommandModel>::empty(), Seq::<OverlayEffectModel>::empty());
    match spec_action_for(profile, b) {
        ShortcutActionModel::TriggerChord(keys) => if keys.len() > 0 && fresh {
            (
                spec_record_seq(m, b, seq),
                seq![ShortcutCommandModel::PressChord(keys)],
                Seq::<OverlayEffectModel>::empty(),
            )
        } else {
            unchanged
        },
        ShortcutActionModel::Advanced(AdvancedActionModel::PointerClick { keys, button, anchor }) =>
            if fresh {
            let chord = if keys.len() > 0 {
                seq![ShortcutCommandModel::PressChord(keys)]
            } else {
                Seq::<ShortcutCommandModel>::empty()
            };
            let click = match spec_resolve_anchor(m.pointer) {
                Some(p) => seq![ShortcutCommandModel::ClickAt { button, x: p.x, y: p.y }],
                None => Seq::<ShortcutCommandModel>::empty(),
            };
            (spec_record_seq(m, b, seq), chord + click, Seq::<OverlayEffectModel>::empty())
        } else {
            unchanged
        },
        ShortcutActionModel::Advanced(AdvancedActionModel::ReleaseActiveKeys) => if fresh {
            let (m1, c1, e1) = spec_release_all(m);
            (spec_record_seq(m1, b, seq), c1, e1)
        } else {
            unchanged
        },
        _ => unchanged,
    }
}

/// One pen trigger of a packet, after what the packet has done so far.
pub open spec fn spec_trigger_step(
    r: (EngineModel, Seq<ShortcutCommandModel>, Seq<OverlayEffectModel>),
    profile: ShortcutProfileModel,
    flags: StylusFlags,
    seq: u32,
    t: StylusTrigger,
) -> (EngineModel, Seq<ShortcutCommandModel>, Seq<OverlayEffectModel>) {
    if !trigger_flag(flags, t) {
        r
    } else {
        let x = spec_trigger_effect(r.0, profile, seq, t);
        (x.0, r.1 + x.1, r.2 + x.2)
    }
}

/// The first `k` pen triggers of a packet, in order.
pub open spec fn spec_trigger_walk(
    m: EngineModel,
    profile: ShortcutProfileModel,
    flags: StylusFlags,
    seq: u32,
    k: nat,
) -> (EngineModel, Seq<ShortcutCommandModel>, Seq<OverlayEffectModel>)
    decreases k,
{
    if k == 0 {
        (m, Seq::empty(), Seq::empty())
    } else {
        spec_trigger_step(
            spec_trigger_walk(m, profile, flags, seq, (k - 1) as nat),
            profile,
            flags,
            seq,
            spec_trigger_order()[k - 1],
        )
    }
}

/// A packet's pen triggers: what has run out is released first, then each
/// set trigger fires in order.
pub open spec fn spec_process_stylus_flags(
    m: EngineModel,
    profile: ShortcutProfileModel,
    seq: u32,
    flags: StylusFlags,
    now: u64,
) -> (EngineModel, Seq<ShortcutCommandModel>, Seq<OverlayEffectModel>) {
    let (m1, c1, e1) = spec_expire_due(m, now);
    let (m2, c2, e2) = spec_trigger_walk(m1, profile, flags, seq, 5);
    (m2, c1 + c2, e1 + e2)
}

/// Appends one output to another.
fn append_output(out: &mut EngineOutput, more: EngineOutput)
    ensures
        commands_of(final(out).commands@) == commands_of(old(out).commands@) + commands_of(more.commands@),
        effects_of(final(out).overlay@) == effects_of(old(out).overlay@) + effects_of(more.overlay@),
{
    let ghost c0 = out.commands@;
    let ghost e0 = out.overlay@;
    let mut more = more;
    let ghost mc = more.commands@;
    let ghost me = more.overlay@;
    out.commands.append(&mut more.commands);
    out.overlay.append(&mut more.overlay);
    proof {
        assert(commands_of(c0 + mc) =~= commands_of(c0) + commands_of(mc));
        assert(effects_of(e0 + me) =~= effects_of(e0) + effects_of(me));
    }
}

impl ShortcutEngine {
    /// Handles a frame of a hold key gesture; see [`spec_handle_hold`].
    fn handle_hold(
        &mut self,
        b: BindingId,
        keys: Vec<KeyCode>,
        state: GestureState,
        now: u64,
        commands: &mut Vec<ShortcutCommand>,
    )
        requires
            old(self).well_formed(),
            spec_release_order().contains(b),
        ensures
            final(self).well_formed(),
            final(self)@ == spec_handle_hold(old(self)@, b, keys@, state, now).0,
            commands_of(final(commands)@) == commands_of(old(commands)@) + spec_handle_hold(
                old(self)@,
                b,
                keys@,
                state,
                now,
            ).1,
    {
        let ghost m0 = self@;
        let ghost c0 = commands_of(commands@);
        let expires = now.saturating_add(hold_ttl(b));
        let found = find_hold(&self.holds, b);
        match state {
            GestureState::Begin => match found {
                Some(i) => {
                    let ghost before = self.holds@;
                    self.holds[i].expires_at_ns = expires;
                    proof {
                        assert(self@.holds =~= m0.holds.update(
                            i as int,
                            HoldModel { expires_at_ns: later(now, spec_hold_ttl(b)), ..m0.holds[i as int] },
                        ));
                        assert(hold_keys(self@.holds) =~= hold_keys(m0.holds));
                        assert(c0 + Seq::<ShortcutCommandModel>::empty() =~= c0);
                        assert forall|j: int| 0 <= j < self@.holds.len() implies spec_release_order().contains(
                            #[trigger] self@.holds[j].binding,
                        ) by {
                            assert(self@.holds[j].binding == m0.holds[j].binding);
                        }
                    }
                },
                None => {
                    push_key_downs(commands, &keys);
                    let ghost before = self.holds@;
                    self.holds.push(HoldEntry { binding: b, keys, expires_at_ns: expires });
                    proof {
                        assert(self@.holds =~= m0.holds.push(
                            HoldModel { binding: b, keys: keys@, expires_at_ns: later(now, spec_hold_ttl(b)) },
                        ));
                        assert(hold_keys(self@.holds) =~= hold_keys(m0.holds).push(b));
                        lemma_no_dup_push(hold_keys(m0.holds), b);
                        assert forall|j: int| 0 <= j < self@.holds.len() implies spec_release_order().contains(
                            #[trigger] self@.holds[j].binding,
                        ) by {
                            if j < m0.holds.len() {
                                assert(self@.holds[j] == m0.holds[j]);
                            }
                        }
                    }
                },
            },
            GestureState::Update => match found {
                Some(i) => {
                    self.holds[i].expires_at_ns = expires;
                    proof {
                        assert(self@.holds =~= m0.holds.update(
                            i as int,
                            HoldModel { expires_at_ns: later(now, spec_hold_ttl(b)), ..m0.holds[i as int] },
                        ));
                        assert(hold_keys(self@.holds) =~= hold_keys(m0.holds));
                        assert(c0 + Seq::<ShortcutCommandModel>::empty() =~= c0);
                        assert forall|j: int| 0 <= j < self@.holds.len() implies spec_release_order().contains(
                            #[trigger] self@.holds[j].binding,
                        ) by {
                            assert(self@.holds[j].binding == m0.holds[j].binding);
                        }
                    }
                },
                None => {
                    assert(c0 + Seq::<ShortcutCommandModel>::empty() =~= c0);
                },
            },
            GestureState::End => match found {
                Some(i) => {
                    let ghost before = self.holds@;
                    let h = self.holds.remove(i);
                    proof {
                        self.lemma_holds_remove(before, i as int);
                        lemma_no_dup_remove(hold_keys(m0.holds), i as int);
                        assert(hold_keys(self@.holds) =~= hold_keys(m0.holds).remove(i as int));
                        assert forall|j: int| 0 <= j < self@.holds.len() implies spec_release_order().contains(
                            #[trigger] self@.holds[j].binding,
                        ) by {
                            let j1 = if j < i { j } else { j + 1 };
                            assert(self@.holds[j] == m0.holds[j1]);
                        }
                    }
                    push_key_ups_reversed(commands, &h.keys);
                },
                None => {
                    assert(c0 + Seq::<ShortcutCommandModel>::empty() =~= c0);
                },
            },
        }
        assert(self@.toggled == m0.toggled);
    }

    /// The sequence number `b` last fired for; see [`spec_last_seq`].
    fn last_seq(&self, b: BindingId) -> (r: Option<u32>)
        requires
            self.well_formed(),
        ensures
            r == spec_last_seq(self@, b),
    {
        match find_trigger(&self.last_trigger_seq, b) {
            Some(i) => Some(self.last_trigger_seq[i].1),
            None => None,
        }
    }

    /// Remembers that `b` fired for `seq`; see [`spec_record_seq`].
    fn record_seq(&mut self, b: BindingId, seq: u32)
        requires
            old(self).well_formed(),
        ensures
            final(self).well_formed(),
            final(self)@ == spec_record_seq(old(self)@, b, seq),
    {
        let ghost m0 = self@;
        match find_trigger(&self.last_trigger_seq, b) {
            Some(i) => {
                self.last_trigger_seq.set(i, (b, seq));
                proof {
                    assert(trigger_keys(self@.last_trigger_seq) =~= trigger_keys(m0.last_trigger_seq));
                    assert(self@.last_trigger_seq =~= m0.last_trigger_seq.update(i as int, (b, seq)));
                }
            },
            None => {
                self.last_trigger_seq.push((b, seq));
                proof {
                    assert(trigger_keys(self@.last_trigger_seq) =~= trigger_keys(m0.last_trigger_seq).push(b));
                    lemma_no_dup_push(trigger_keys(m0.last_trigger_seq), b);
                }
            },
        }
        assert(self@.holds == m0.holds);
        assert(self@.toggled == m0.toggled);
    }

    /// Where a pointer click lands; see [`spec_resolve_anchor`].
    fn resolve_anchor(&self) -> (r: Option<ScreenPoint>)
        ensures
            r == spec_resolve_anchor(self@.pointer),
    {
        match self.pointer.current_hover {
            Some(p) => Some(p),
            None => self.pointer.last_in_range,
        }
    }

    /// Fires pen trigger `t` for packet `seq`; see [`spec_trigger_effect`].
    fn fire_trigger(&mut self, profile: &ShortcutProfile, t: StylusTrigger, seq: u32, out: &mut EngineOutput)
        requires
            old(self).well_formed(),
        ensures
            final(self).well_formed(),
            final(self)@ == spec_trigger_effect(old(self)@, profile@, seq, t).0,
            commands_of(final(out).commands@) == commands_of(old(out).commands@) + spec_trigger_effect(
                old(self)@,
                profile@,
                seq,
                t,
            ).1,
            effects_of(final(out).overlay@) == effects_of(old(out).overlay@) + spec_trigger_effect(
                old(self)@,
                profile@,
                seq,
                t,
            ).2,
    {
        let ghost m0 = self@;
        let ghost c0 = commands_of(out.commands@);
        let ghost e0 = effects_of(out.overlay@);
        let b = BindingId::StylusTrigger(t);
        let fresh = match self.last_seq(b) {
            Some(s) => s != seq,
            None => true,
        };
        proof {
            assert(c0 + Seq::<ShortcutCommandModel>::empty() =~= c0);
            assert(e0 + Seq::<OverlayEffectModel>::empty() =~= e0);
        }
        match profile.action_for(b) {
            ShortcutAction::TriggerChord(keys) => {
                if keys.len() > 0 && fresh {
                    let ghost kv = keys@;
                    out.commands.push(ShortcutCommand::PressChord(keys));
                    self.record_seq(b, seq);
                    proof {
                        assert(commands_of(out.commands@) =~= c0 + seq![ShortcutCommandModel::PressChord(kv)]);
                    }
                }
            },
            ShortcutAction::Advanced(AdvancedAction::PointerClick { keys, button, .. }) => {
                if fresh {
                    let ghost kv = keys@;
                    let chord_len = keys.len();
                    if chord_len > 0 {
                        out.commands.push(ShortcutCommand::PressChord(keys));
                    }
                    let ghost c1 = commands_of(out.commands@);
                    proof {
                        let chord = if kv.len() > 0 {
                            seq![ShortcutCommandModel::PressChord(kv)]
                        } else {
                            Seq::<ShortcutCommandModel>::empty()
                        };
                        assert(c1 =~= c0 + chord);
                    }
                    match self.resolve_anchor() {
                        Some(p) => {
                            out.commands.push(ShortcutCommand::ClickAt { button, x: p.x, y: p.y });
                        },
                        None => {},
                    }
                    proof {
                        let chord = if kv.len() > 0 {
                            seq![ShortcutCommandModel::PressChord(kv)]
                        } else {
                            Seq::<ShortcutCommandModel>::empty()
                        };
                        let click = match spec_resolve_anchor(m0.pointer) {
                            Some(p) => seq![ShortcutCommandModel::ClickAt { button, x: p.x, y: p.y }],
                            None => Seq::<ShortcutCommandModel>::empty(),
                        };
                        assert(commands_of(out.commands@) =~= c1 + click);
                        assert(c0 + chord + click =~= c0 + (chord + click));
                    }
                    self.record_seq(b, seq);
                }
            },
            ShortcutAction::Advanced(AdvancedAction::ReleaseActiveKeys) => {
                if fresh {
                    let released = self.release_all();
                    append_output(out, released);
                    self.record_seq(b, seq);
                }
            },
            _ => {},
        }
    }

    /// Handles the pen triggers of one packet; see [`spec_process_stylus_flags`].
    pub fn process_stylus_flags(
        &mut self,
        profile: &ShortcutProfile,
        seq: u32,
        flags: StylusFlags,
        now_ns: u64,
    ) -> (r: EngineOutput)
        requires
            old(self).well_formed(),
        ensures
            final(self).well_formed(),
            (final(self)@, commands_of(r.commands@), effects_of(r.overlay@))
                == spec_process_stylus_flags(old(self)@, profile@, seq, flags, now_ns),
    {
        let mut out = self.expire_due(now_ns);
        let ghost m1 = self@;
        let ghost c1 = commands_of(out.commands@);
        let ghost e1 = effects_of(out.overlay@);
        let triggers = [
            StylusTrigger::Squeeze,
            StylusTrigger::DoubleTap,
            StylusTrigger::TwoTap,
            StylusTrigger::ThreeTap,
            StylusTrigger::FourTap,
        ];
        assert(triggers@ =~= spec_trigger_order());
        proof {
            assert(c1 + Seq::<ShortcutCommandModel>::empty() =~= c1);
            assert(e1 + Seq::<OverlayEffectModel>::empty() =~= e1);
        }
        let mut k: usize = 0;
        while k < 5
            invariant
                k <= 5,
                triggers@ == spec_trigger_order(),
                self.well_formed(),
                ({
                    let w = spec_trigger_walk(m1, profile@, flags, seq, k as nat);
                    &&& self@ == w.0
                    &&& commands_of(out.commands@) == c1 + w.1
                    &&& effects_of(out.overlay@) == e1 + w.2
                }),
            decreases 5 - k,
        {
            let t = triggers[k];
            let active = match t {
                StylusTrigger::Squeeze => flags.squeeze(),
                StylusTrigger::DoubleTap => flags.double_tap(),
                StylusTrigger::TwoTap => flags.two_tap(),
                StylusTrigger::ThreeTap => flags.three_tap(),
                StylusTrigger::FourTap => flags.four_tap(),
            };
            let ghost prev = spec_trigger_walk(m1, profile@, flags, seq, k as nat);
            let ghost cb = commands_of(out.commands@);
            let ghost eb = effects_of(out.overlay@);
            if active {
                self.fire_trigger(profile, t, seq, &mut out);
                proof {
                    let x = spec_trigger_effect(prev.0, profile@, seq, t);
                    assert(c1 + prev.1 + x.1 =~= c1 + (prev.1 + x.1));
                    assert(e1 + prev.2 + x.2 =~= e1 + (prev.2 + x.2));
                }
            }
            proof {
                let w = spec_trigger_walk(m1, profile@, flags, seq, (k + 1) as nat);
                assert(spec_trigger_order()[k as int] == t);
                assert(w == spec_trigger_step(prev, profile@, flags, seq, t));
            }
            k = k + 1;
        }
        out
    }
}

/// What the floating-point arithmetic of a gesture frame gives: the pointer
/// step of a drag, the wheel step of a pinch, the pointer step of a
/// rotation, and the radial menu sector the offset points at. Each is
/// computed from the frame's values and the reference values that
/// [`ShortcutEngine::motion_reference`] reports for the frame's binding.
#[derive(Debug, Clone, Copy, PartialEq, Eq, Structural)]
pub struct GestureMotion {
    pub drag_dx: i32,
    pub drag_dy: i32,
    pub wheel_delta: i32,
    pub rotate_dx: i32,
    pub selection: RadialSelection,
}

/// The values a drag, pinch or rotation of `b` last saw, by their bit
/// patterns: both offsets of a drag, the scale of a pinch, the angle of a
/// rotation (with zero beside the last two).
pub open spec fn spec_motion_reference(m: EngineModel, b: BindingId) -> Option<(u32, u32)> {
    let ai = index_in(advanced_keys(m.advanced), b);
    if ai < 0 {
        None
    } else {
        match m.advanced[ai].state {
            AdvancedStateModel::PointerDrag { last_x_bits, last_y_bits, .. } => Some((last_x_bits, last_y_bits)),
            AdvancedStateModel::PointerWheel { last_scale_bits, .. } => Some((last_scale_bits, 0u32)),
            AdvancedStateModel::PointerRotate { last_angle_bits, .. } => Some((last_angle_bits, 0u32)),
            AdvancedStateModel::RadialMenu { .. } => None,
        }
    }
}

/// Where `k` occurs in `s`, or -1.
pub open spec fn key_index(s: Seq<KeyCode>, k: KeyCode) -> int {
    if exists|i: int| 0 <= i < s.len() && s[i] == k {
        choose|i: int| 0 <= i < s.len() && s[i] == k
    } else {
        -1
    }
}

/// `slot` alone when `on`, else nothing.
pub open spec fn slot_if(on: bool, slot: RadialInnerSlot) -> Seq<RadialInnerSlot> {
    if on {
        seq![slot]
    } else {
        Seq::empty()
    }
}

/// The inner slots whose key is toggled on, clockwise from the top.
pub open spec fn spec_active_inner_slots(inner: RadialInnerBindings, toggled: Seq<KeyCode>) -> Seq<RadialInnerSlot> {
    slot_if(toggled.contains(inner.top), RadialInnerSlot::Top) + slot_if(
        toggled.contains(inner.right),
        RadialInnerSlot::Right,
    ) + slot_if(toggled.contains(inner.bottom), RadialInnerSlot::Bottom) + slot_if(
        toggled.contains(inner.left),
        RadialInnerSlot::Left,
    )
}

/// What the overlay shows for a radial menu at `anchor` pointing at `selection`.
pub open spec fn spec_overlay_state(
    m: EngineModel,
    config: RadialMenuModel,
    anchor: RadialAnchor,
    selection: RadialSelection,
) -> OverlayStateModel {
    OverlayStateModel {
        anchor,
        selection,
        active_inner_slots: spec_active_inner_slots(config.inner, m.toggled),
        config,
    }
}

/// The advanced action at `ai` renewed until `now` plus the default time to live.
pub open spec fn spec_renew(m: EngineModel, ai: int, now: u64) -> EngineModel {
    EngineModel {
        advanced: m.advanced.update(
            ai,
            AdvancedModel { expires_at_ns: later(now, DEFAULT_HOLD_TTL_NS), ..m.advanced[ai] },
        ),
        ..m
    }
}

/// The advanced action at `ai` with a new state, renewed.
pub open spec fn spec_restate(m: EngineModel, ai: int, st: AdvancedStateModel, now: u64) -> EngineModel {
    EngineModel {
        advanced: m.advanced.update(
            ai,
            AdvancedModel { binding: m.advanced[ai].binding, state: st, expires_at_ns: later(now, DEFAULT_HOLD_TTL_NS) },
        ),
        ..m
    }
}

/// A new advanced action of `b`.
pub open spec fn spec_start(m: EngineModel, b: BindingId, st: AdvancedStateModel, now: u64) -> EngineModel {
    EngineModel {
        advanced: m.advanced.push(
            AdvancedModel { binding: b, state: st, expires_at_ns: later(now, DEFAULT_HOLD_TTL_NS) },
        ),
        ..m
    }
}

/// The end of the advanced action of `b`: it is removed and released.
pub open spec fn spec_end_advanced(m: EngineModel, b: BindingId) -> (
    EngineModel,
    Seq<ShortcutCommandModel>,
    Seq<OverlayEffectModel>,
) {
    let ai = index_in(advanced_keys(m.advanced), b);
    if ai >= 0 {
        let r = spec_release_advanced(m.advanced[ai].state);
        (EngineModel { advanced: m.advanced.remove(ai), ..m }, r.0, r.1)
    } else {
        (m, Seq::empty(), Seq::empty())
    }
}

/// A drag gesture: the first frame presses the modifiers and the button, each
/// later frame moves the pointer by the step it reports, and the last frame
/// lets go.
pub open spec fn spec_handle_drag(
    m: EngineModel,
    b: BindingId,
    modifiers: Seq<KeyCode>,
    button: Option<MouseButton>,
    frame: GestureFrame,
    now: u64,
    motion: GestureMotion,
) -> (EngineModel, Seq<ShortcutCommandModel>, Seq<OverlayEffectModel>) {
    let ai = index_in(advanced_keys(m.advanced), b);
    let none = Seq::<OverlayEffectModel>::empty();
    match frame.state {
        GestureState::Begin => if ai >= 0 {
            (spec_renew(m, ai, now), Seq::empty(), none)
        } else {
            (
                spec_start(
                    m,
                    b,
                    AdvancedStateModel::PointerDrag {
                        modifiers,
                        button,
                        last_x_bits: frame.val1_bits,
                        last_y_bits: frame.val2_bits,
                    },
                    now,
                ),
                key_downs(modifiers) + match button {
                    Some(x) => seq![ShortcutCommandModel::MouseButtonDown(x)],
                    None => Seq::<ShortcutCommandModel>::empty(),
                },
                none,
            )
        },
        GestureState::Update => if ai < 0 {
            (m, Seq::empty(), none)
        } else {
            match m.advanced[ai].state {
                AdvancedStateModel::PointerDrag { modifiers: held, button: pressed, .. } => (
                    spec_restate(
                        m,
                        ai,
                        AdvancedStateModel::PointerDrag {
                            modifiers: held,
                            button: pressed,
                            last_x_bits: frame.val1_bits,
                            last_y_bits: frame.val2_bits,
                        },
                        now,
                    ),
                    if motion.drag_dx == 0 && motion.drag_dy == 0 {
                        Seq::empty()
                    } else {
                        seq![ShortcutCommandModel::MouseMoveRelative { dx: motion.drag_dx, dy: motion.drag_dy }]
                    },
                    none,
                ),
                _ => (spec_renew(m, ai, now), Seq::empty(), none),
            }
        },
        GestureState::End => spec_end_advanced(m, b),
    }
}

/// A pinch gesture: the first frame presses the modifiers, each later frame
/// turns the wheel by the step it reports, and the last frame lets go.
pub open spec fn spec_handle_wheel(
    m: EngineModel,
    b: BindingId,
    modifiers: Seq<KeyCode>,
    frame: GestureFrame,
    now: u64,
    motion: GestureMotion,
) -> (EngineModel, Seq<ShortcutCommandModel>, Seq<OverlayEffectModel>) {
    let ai = index_in(advanced_keys(m.advanced), b);
    let none = Seq::<OverlayEffectModel>::empty();
    match frame.state {
        GestureState::Begin => if ai >= 0 {
            match m.advanced[ai].state {
                AdvancedStateModel::PointerWheel { modifiers: held, .. } => (
                    spec_restate(
                        m,
                        ai,
                        AdvancedStateModel::PointerWheel { modifiers: held, last_scale_bits: frame.val1_bits },
                        now,
                    ),
                    Seq::empty(),
                    none,
                ),
                _ => (spec_renew(m, ai, now), Seq::empty(), none),
            }
        } else {
            (
                spec_start(
                    m,
                    b,
                    AdvancedStateModel::PointerWheel { modifiers, last_scale_bits: frame.val1_bits },
                    now,
                ),
                key_downs(modifiers),
                none,
            )
        },
        GestureState::Update => if ai < 0 {
            (m, Seq::empty(), none)
        } else {
            match m.advanced[ai].state {
                AdvancedStateModel::PointerWheel { modifiers: held, .. } => (
                    spec_restate(
                        m,
                        ai,
                        AdvancedStateModel::PointerWheel { modifiers: held, last_scale_bits: frame.val1_bits },
                        now,
                    ),
                    if motion.wheel_delta != 0 {
                        seq![ShortcutCommandModel::MouseWheel { delta: motion.wheel_delta }]
                    } else {
                        Seq::empty()
                    },
                    none,
                ),
                _ => (spec_renew(m, ai, now), Seq::empty(), none),
            }
        },
        GestureState::End => spec_end_advanced(m, b),
    }
}

/// A rotation gesture: as a pinch, but each later frame moves the pointer
/// sideways by the step it reports.
pub open spec fn spec_handle_rotate(
    m: EngineModel,
    b: BindingId,
    modifiers: Seq<KeyCode>,
    frame: GestureFrame,
    now: u64,
    motion: GestureMotion,
) -> (EngineModel, Seq<ShortcutCommandModel>, Seq<OverlayEffectModel>) {
    let ai = index_in(advanced_keys(m.advanced), b);
    let none = Seq::<OverlayEffectModel>::empty();
    match frame.state {
        GestureState::Begin => if ai >= 0 {
            match m.advanced[ai].state {
                AdvancedStateModel::PointerRotate { modifiers: held, .. } => (
                    spec_restate(
                        m,
                        ai,
                        AdvancedStateModel::PointerRotate { modifiers: held, last_angle_bits: frame.val1_bits },
                        now,
                    ),
                    Seq::empty(),
                    none,
                ),
                _ => (spec_renew(m, ai, now), Seq::empty(), none),
            }
        } else {
            (
                spec_start(
                    m,
                    b,
                    AdvancedStateModel::PointerRotate { modifiers, last_angle_bits: frame.val1_bits },
                    now,
                ),
                key_downs(modifiers),
                none,
            )
        },
        GestureState::Update => if ai < 0 {
            (m, Seq::empty(), none)
        } else {
            match m.advanced[ai].state {
                AdvancedStateModel::PointerRotate { modifiers: held, .. } => (
                    spec_restate(
                        m,
                        ai,
                        AdvancedStateModel::PointerRotate { modifiers: held, last_angle_bits: frame.val1_bits },
                        now,
                    ),
                    if motion.rotate_dx != 0 {
                        seq![ShortcutCommandModel::MouseMoveRelative { dx: motion.rotate_dx, dy: 0 }]
                    } else {
                        Seq::empty()
                    },
                    none,
                ),
                _ => (spec_renew(m, ai, now), Seq::empty(), none),
            }
        },
        GestureState::End => spec_end_advanced(m, b),
    }
}

/// What letting go of the radial menu on `selection` does: an inner slot
/// toggles its key (when the inner ring is on) and moves the hold indicator,
/// an outer slot presses its chord, and the centre does nothing.
pub open spec fn spec_commit_selection(
    m: EngineModel,
    config: RadialMenuModel,
    selection: RadialSelection,
) -> (EngineModel, Seq<ShortcutCommandModel>, Seq<OverlayEffectModel>) {
    match selection {
        RadialSelection::Center => (m, Seq::empty(), Seq::empty()),
        RadialSelection::Inner(slot) => if !config.inner_enabled {
            (m, Seq::empty(), Seq::empty())
        } else {
            let key = config.inner.spec_key_for_slot(slot);
            let ti = key_index(m.toggled, key);
            let m1 = if ti >= 0 {
                EngineModel { toggled: m.toggled.remove(ti), ..m }
            } else {
                EngineModel { toggled: m.toggled.push(key), ..m }
            };
            (
                m1,
                if ti >= 0 {
                    seq![ShortcutCommandModel::KeyUp(key)]
                } else {
                    seq![ShortcutCommandModel::KeyDown(key)]
                },
                seq![OverlayEffectModel::SyncHoldIndicator(spec_hold_point(m1))],
            )
        },
        RadialSelection::Outer(index) => if index < config.outer.len() {
            (m, seq![ShortcutCommandModel::PressChord(config.outer[index as int])], Seq::empty())
        } else {
            (m, Seq::empty(), Seq::empty())
        },
    }
}

/// The radial menu gesture: the first frame opens the overlay at `center`
/// (when the monitor is known) on the sector the frame points at, later
/// frames follow the sector, and the last frame closes the overlay and
/// commits the sector.
pub open spec fn spec_handle_radial(
    m: EngineModel,
    config: RadialMenuModel,
    b: BindingId,
    frame: GestureFrame,
    now: u64,
    center: Option<ScreenPoint>,
    motion: GestureMotion,
) -> (EngineModel, Seq<ShortcutCommandModel>, Seq<OverlayEffectModel>) {
    let ai = index_in(advanced_keys(m.advanced), b);
    let none = Seq::<OverlayEffectModel>::empty();
    match frame.state {
        GestureState::Begin => match center {
            None => (m, Seq::empty(), none),
            Some(c) => {
                let anchor = RadialAnchor { center: c };
                let st = AdvancedStateModel::RadialMenu { anchor, selection: motion.selection };
                let m1 = if ai >= 0 {
                    spec_restate(m, ai, st, now)
                } else {
                    spec_start(m, b, st, now)
                };
                (
                    m1,
                    Seq::empty(),
                    seq![OverlayEffectModel::Show(spec_overlay_state(m1, config, anchor, motion.selection))],
                )
            },
        },
        GestureState::Update => if ai < 0 {
            (m, Seq::empty(), none)
        } else {
            match m.advanced[ai].state {
                AdvancedStateModel::RadialMenu { anchor, selection } => if selection != motion.selection {
                    let m1 = spec_restate(
                        m,
                        ai,
                        AdvancedStateModel::RadialMenu { anchor, selection: motion.selection },
                        now,
                    );
                    (
                        m1,
                        Seq::empty(),
                        seq![OverlayEffectModel::Update(spec_overlay_state(m1, config, anchor, motion.selection))],
                    )
                } else {
                    (spec_renew(m, ai, now), Seq::empty(), none)
                },
                _ => (spec_renew(m, ai, now), Seq::empty(), none),
            }
        },
        GestureState::End => if ai < 0 {
            (m, Seq::empty(), none)
        } else {
            let m1 = EngineModel { advanced: m.advanced.remove(ai), ..m };
            match m.advanced[ai].state {
                AdvancedStateModel::RadialMenu { selection, .. } => {
                    let (m2, c, e) = spec_commit_selection(m1, config, selection);
                    (m2, c, seq![OverlayEffectModel::Hide] + e)
                },
                _ => (m1, Seq::empty(), none),
            }
        },
    }
}

/// What a gesture frame of binding `b` does under `profile`.
pub open spec fn spec_gesture_effect(
    m: EngineModel,
    profile: ShortcutProfileModel,
    b: BindingId,
    frame: GestureFrame,
    now: u64,
    center: Option<ScreenPoint>,
    motion: GestureMotion,
) -> (EngineModel, Seq<ShortcutCommandModel>, Seq<OverlayEffectModel>) {
    let unchanged = (m, Seq::<ShortcutCommandModel>::empty(), Seq::<OverlayEffectModel>::empty());
    match spec_action_for(profile, b) {
        ShortcutActionModel::HoldKeys(keys) => if keys.len() > 0 {
            let h = spec_handle_hold(m, b, keys, frame.state, now);
            (h.0, h.1, Seq::empty())
        } else {
            unchanged
        },
        ShortcutActionModel::TriggerChord(keys) => if keys.len() > 0 && frame.state == GestureState::Begin
            && spec_last_seq(m, b) != Some(frame.seq) {
            (spec_record_seq(m, b, frame.seq), seq![ShortcutCommandModel::PressChord(keys)], Seq::empty())
        } else {
            unchanged
        },
        ShortcutActionModel::Advanced(a) => match a {
            AdvancedActionModel::PointerDrag { modifiers, button } => spec_handle_drag(
                m,
                b,
                modifiers,
                button,
                frame,
                now,
                motion,
            ),
            AdvancedActionModel::PointerWheel { modifiers } => spec_handle_wheel(m, b, modifiers, frame, now, motion),
            AdvancedActionModel::PointerRotate { modifiers } => spec_handle_rotate(
                m,
                b,
                modifiers,
                frame,
                now,
                motion,
            ),
            AdvancedActionModel::ReservedRadialMenu => spec_handle_radial(
                m,
                profile.radial_menu,
                b,
                frame,
                now,
                center,
                motion,
            ),
            _ => unchanged,
        },
        ShortcutActionModel::Disabled => unchanged,
    }
}

/// A gesture frame: what has run out is released first, then the frame's
/// binding acts on it.
pub open spec fn spec_process_gesture(
    m: EngineModel,
    profile: ShortcutProfileModel,
    frame: GestureFrame,
    now: u64,
    center: Option<ScreenPoint>,
    motion: GestureMotion,
) -> (EngineModel, Seq<ShortcutCommandModel>, Seq<OverlayEffectModel>) {
    let (m1, c1, e1) = spec_expire_due(m, now);
    let b = BindingId::Gesture(GestureBinding::spec_from_frame(frame));
    let (m2, c2, e2) = spec_gesture_effect(m1, profile, b, frame, now, center, motion);
    (m2, c1 + c2, e1 + e2)
}

/// Every gesture a frame can carry is a binding that can hold state.
pub proof fn lemma_gesture_binding_released(frame: GestureFrame)
    ensures
        spec_release_order().contains(BindingId::Gesture(GestureBinding::spec_from_frame(frame))),
{
    let b = BindingId::Gesture(GestureBinding::spec_from_frame(frame));
    let o = spec_release_order();
    match frame.gesture_type {
        GestureType::TwoPan => assert(o[5] == b),
        GestureType::ThreePan => assert(o[6] == b),
        GestureType::TwoPinch => assert(o[7] == b),
        GestureType::TwoRotate => assert(o[8] == b),
        GestureType::OneLongPress => assert(o[9] == b),
        GestureType::TwoLongPress => assert(o[10] == b),
        GestureType::ThreeLongPress => assert(o[11] == b),
        GestureType::FourLongPress => assert(o[12] == b),
        GestureType::OneSwipe => {
            if spec_swipe_axis(frame.val1_bits) == SwipeAxis::Horizontal {
                assert(o[13] == b);
            } else {
                assert(o[14] == b);
            }
        },
    }
}

pub proof fn lemma_key_index(s: Seq<KeyCode>, k: KeyCode, i: int)
    requires
        forall|p: int, q: int| 0 <= p < q < s.len() ==> s[p] != s[q],
        0 <= i < s.len(),
        s[i] == k,
    ensures
        key_index(s, k) == i,
{
    let c = key_index(s, k);
    assert(0 <= c < s.len() && s[c] == k);
    if c < i {
        assert(s[c] != s[i]);
    } else if i < c {
        assert(s[i] != s[c]);
    }
}

fn find_key(keys: &Vec<KeyCode>, k: KeyCode) -> (r: Option<usize>)
    requires
        forall|p: int, q: int| 0 <= p < q < keys@.len() ==> keys@[p] != keys@[q],
    ensures
        match r {
            Some(i) => i < keys@.len() && key_index(keys@, k) == i,
            None => key_index(keys@, k) == -1 && !keys@.contains(k),
        },
{
    let mut i: usize = 0;
    while i < keys.len()
        invariant
            i <= keys@.len(),
            forall|p: int, q: int| 0 <= p < q < keys@.len() ==> keys@[p] != keys@[q],
            forall|j: int| 0 <= j < i ==> keys@[j] != k,
        decreases keys@.len() - i,
    {
        if keys[i] == k {
            proof {
                lemma_key_index(keys@, k, i as int);
            }
            return Some(i);
        }
        i = i + 1;
    }
    None
}

fn push_slot_if(slots: &mut Vec<RadialInnerSlot>, on: bool, slot: RadialInnerSlot)
    ensures
        final(slots)@ == old(slots)@ + slot_if(on, slot),
{
    if on {
        slots.push(slot);
        assert(final(slots)@ =~= old(slots)@ + slot_if(on, slot));
    } else {
        assert(old(slots)@ + slot_if(on, slot) =~= old(slots)@);
    }
}

impl ShortcutEngine {
    /// The values a drag, pinch or rotation of `binding` last saw; see
    /// [`spec_motion_reference`].
    pub fn motion_reference(&self, binding: BindingId) -> (r: Option<(u32, u32)>)
        requires
            self.well_formed(),
        ensures
            r == spec_motion_reference(self@, binding),
    {
        match find_advanced(&self.advanced, binding) {
            None => None,
            Some(i) => match &self.advanced[i].state {
                ActiveAdvancedState::PointerDrag { last_x_bits, last_y_bits, .. } => Some((*last_x_bits, *last_y_bits)),
                ActiveAdvancedState::PointerWheel { last_scale_bits, .. } => Some((*last_scale_bits, 0u32)),
                ActiveAdvancedState::PointerRotate { last_angle_bits, .. } => Some((*last_angle_bits, 0u32)),
                ActiveAdvancedState::RadialMenu { .. } => None,
            },
        }
    }

    fn renew(&mut self, i: usize, now: u64)
        requires
            old(self).well_formed(),
            i < old(self)@.advanced.len(),
        ensures
            final(self).well_formed(),
            final(self)@ == spec_renew(old(self)@, i as int, now),
    {
        let ghost m0 = self@;
        self.advanced[i].expires_at_ns = now.saturating_add(DEFAULT_HOLD_TTL_NS);
        proof {
            assert(self@.advanced =~= spec_renew(m0, i as int, now).advanced);
            assert(advanced_keys(self@.advanced) =~= advanced_keys(m0.advanced));
            assert forall|j: int| 0 <= j < self@.advanced.len() implies spec_release_order().contains(
                #[trigger] self@.advanced[j].binding,
            ) by {
                assert(self@.advanced[j].binding == m0.advanced[j].binding);
            }
        }
    }

    fn restate(&mut self, i: usize, st: ActiveAdvancedState, now: u64)
        requires
            old(self).well_formed(),
            i < old(self)@.advanced.len(),
        ensures
            final(self).well_formed(),
            final(self)@ == spec_restate(old(self)@, i as int, st@, now),
    {
        let ghost m0 = self@;
        let b = self.advanced[i].binding;
        self.advanced.set(i, AdvancedEntry { binding: b, state: st, expires_at_ns: now.saturating_add(DEFAULT_HOLD_TTL_NS) });
        proof {
            assert(self@.advanced =~= spec_restate(m0, i as int, st@, now).advanced);
            assert(advanced_keys(self@.advanced) =~= advanced_keys(m0.advanced));
            assert forall|j: int| 0 <= j < self@.advanced.len() implies spec_release_order().contains(
                #[trigger] self@.advanced[j].binding,
            ) by {
                assert(self@.advanced[j].binding == m0.advanced[j].binding);
            }
        }
    }

    fn start(&mut self, b: BindingId, st: ActiveAdvancedState, now: u64)
        requires
            old(self).well_formed(),
            index_in(advanced_keys(old(self)@.advanced), b) == -1,
            spec_release_order().contains(b),
        ensures
            final(self).well_formed(),
            final(self)@ == spec_start(old(self)@, b, st@, now),
    {
        let ghost m0 = self@;
        self.advanced.push(AdvancedEntry { binding: b, state: st, expires_at_ns: now.saturating_add(DEFAULT_HOLD_TTL_NS) });
        proof {
            assert(self@.advanced =~= spec_start(m0, b, st@, now).advanced);
            assert(advanced_keys(self@.advanced) =~= advanced_keys(m0.advanced).push(b));
            lemma_no_dup_push(advanced_keys(m0.advanced), b);
            assert forall|j: int| 0 <= j < self@.advanced.len() implies spec_release_order().contains(
                #[trigger] self@.advanced[j].binding,
            ) by {
                if j < m0.advanced.len() {
                    assert(self@.advanced[j] == m0.advanced[j]);
                }
            }
        }
    }

    fn end_advanced(&mut self, b: BindingId, out: &mut EngineOutput)
        requires
            old(self).well_formed(),
        ensures
            final(self).well_formed(),
            final(self)@ == spec_end_advanced(old(self)@, b).0,
            commands_of(final(out).commands@) == commands_of(old(out).commands@) + spec_end_advanced(old(self)@, b).1,
            effects_of(final(out).overlay@) == effects_of(old(out).overlay@) + spec_end_advanced(old(self)@, b).2,
    {
        let ghost m0 = self@;
        let ghost c0 = commands_of(out.commands@);
        let ghost e0 = effects_of(out.overlay@);
        match find_advanced(&self.advanced, b) {
            Some(i) => {
                let ghost before = self.advanced@;
                let a = self.advanced.remove(i);
                proof {
                    assert(self.advanced@.map_values(|a: AdvancedEntry| a@) =~= before.map_values(
                        |a: AdvancedEntry| a@,
                    ).remove(i as int));
                    lemma_no_dup_remove(advanced_keys(m0.advanced), i as int);
                    assert(advanced_keys(self@.advanced) =~= advanced_keys(m0.advanced).remove(i as int));
                    assert forall|j: int| 0 <= j < self@.advanced.len() implies spec_release_order().contains(
                        #[trigger] self@.advanced[j].binding,
                    ) by {
                        let j1 = if j < i { j } else { j + 1 };
                        assert(self@.advanced[j] == m0.advanced[j1]);
                    }
                }
                release_advanced_state(a.state, &mut out.commands, &mut out.overlay);
            },
            None => {
                assert(c0 + Seq::<ShortcutCommandModel>::empty() =~= c0);
                assert(e0 + Seq::<OverlayEffectModel>::empty() =~= e0);
            },
        }
        assert(self@.toggled == m0.toggled);
    }

    /// Whether `k` is toggled on.
    fn is_toggled(&self, k: KeyCode) -> (r: bool)
        requires
            self.well_formed(),
        ensures
            r == self@.toggled.contains(k),
    {
        proof {
            assert(self@.toggled == self.toggled_keys@);
            assert forall|p: int, q: int| 0 <= p < q < self.toggled_keys@.len() implies self.toggled_keys@[p]
                != self.toggled_keys@[q] by {
                assert(self@.toggled[p] != self@.toggled[q]);
            }
        }
        match find_key(&self.toggled_keys, k) {
            Some(i) => {
                proof {
                    let t = self@.toggled;
                    let j = key_index(t, k);
                    assert(t[j] == k);
                }
                true
            },
            None => false,
        }
    }

    /// The overlay state for a radial menu at `anchor` on `selection`; see
    /// [`spec_overlay_state`].
    fn overlay_state(&self, config: &RadialMenuConfig, anchor: RadialAnchor, selection: RadialSelection) -> (r:
        RadialMenuOverlayState)
        requires
            self.well_formed(),
        ensures
            (OverlayStateModel {
                anchor: r.anchor,
                selection: r.selection,
                active_inner_slots: r.active_inner_slots@,
                config: r.config@,
            }) == spec_overlay_state(self@, config@, anchor, selection),
    {
        let t = Ghost(self@.toggled);
        let mut slots: Vec<RadialInnerSlot> = Vec::new();
        push_slot_if(&mut slots, self.is_toggled(config.inner.top), RadialInnerSlot::Top);
        push_slot_if(&mut slots, self.is_toggled(config.inner.right), RadialInnerSlot::Right);
        push_slot_if(&mut slots, self.is_toggled(config.inner.bottom), RadialInnerSlot::Bottom);
        push_slot_if(&mut slots, self.is_toggled(config.inner.left), RadialInnerSlot::Left);
        proof {
            let a = slot_if(t@.contains(config.inner.top), RadialInnerSlot::Top);
            assert(Seq::<RadialInnerSlot>::empty() + a =~= a);
        }
        RadialMenuOverlayState { anchor, selection, active_inner_slots: slots, config: config.duplicate() }
    }

    /// Commits the radial menu's selection; see [`spec_commit_selection`].
    fn commit_selection(&mut self, config: &RadialMenuConfig, selection: RadialSelection, out: &mut EngineOutput)
        requires
            old(self).well_formed(),
        ensures
            final(self).well_formed(),
            final(self)@ == spec_commit_selection(old(self)@, config@, selection).0,
            commands_of(final(out).commands@) == commands_of(old(out).commands@) + spec_commit_selection(
                old(self)@,
                config@,
                selection,
            ).1,
            effects_of(final(out).overlay@) == effects_of(old(out).overlay@) + spec_commit_selection(
                old(self)@,
                config@,
                selection,
            ).2,
    {
        let ghost m0 = self@;
        let ghost c0 = commands_of(out.commands@);
        let ghost e0 = effects_of(out.overlay@);
        proof {
            assert(c0 + Seq::<ShortcutCommandModel>::empty() =~= c0);
            assert(e0 + Seq::<OverlayEffectModel>::empty() =~= e0);
        }
        match selection {
            RadialSelection::Center => {},
            RadialSelection::Inner(slot) => {
                if config.inner_enabled {
                    let key = config.inner.key_for_slot(slot);
                    match find_key(&self.toggled_keys, key) {
                        Some(ti) => {
                            self.toggled_keys.remove(ti);
                            out.commands.push(ShortcutCommand::KeyUp(key));
                            proof {
                                let t = m0.toggled.remove(ti as int);
                                assert forall|p: int, q: int| 0 <= p < q < t.len() implies t[p] != t[q] by {
                                    let p1 = if p < ti { p } else { p + 1 };
                                    let q1 = if q < ti { q } else { q + 1 };
                                    assert(t[p] == m0.toggled[p1]);
                                    assert(t[q] == m0.toggled[q1]);
                                }
                            }
                        },
                        None => {
                            self.toggled_keys.push(key);
                            out.commands.push(ShortcutCommand::KeyDown(key));
                            proof {
                                let t = m0.toggled.push(key);
                                assert forall|p: int, q: int| 0 <= p < q < t.len() implies t[p] != t[q] by {
                                    if q == m0.toggled.len() {
                                        assert(t[p] == m0.toggled[p]);
                                        assert(m0.toggled.contains(m0.toggled[p]));
                                    }
                                }
                            }
                        },
                    }
                    assert(self@.holds == m0.holds);
                    let point = self.hold_indicator_point();
                    out.overlay.push(OverlayEffect::SyncHoldIndicator(point));
                    proof {
                        let r = spec_commit_selection(m0, config@, selection);
                        assert(commands_of(out.commands@) =~= c0 + r.1);
                        assert(effects_of(out.overlay@) =~= e0 + r.2);
                    }
                }
            },
            RadialSelection::Outer(index) => {
                if index < 8 {
                    let keys = copy_keys(&config.outer[index].keys);
                    out.commands.push(ShortcutCommand::PressChord(keys));
                    proof {
                        assert(config@.outer[index as int] == config.outer@[index as int].keys@);
                        let r = spec_commit_selection(m0, config@, selection);
                        assert(commands_of(out.commands@) =~= c0 + r.1);
                    }
                }
            },
        }
    }
}

/// The centre of a monitor fits the pixel coordinates.
pub open spec fn center_fits(m: MonitorInfo) -> bool {
    &&& m.pixel_width <= i32::MAX
    &&& m.pixel_height <= i32::MAX
    &&& i32::MIN <= m.virtual_left + m.pixel_width / 2 <= i32::MAX
    &&& i32::MIN <= m.virtual_top + m.pixel_height / 2 <= i32::MAX
}

/// The centre of a monitor, where the radial menu opens.
pub open spec fn spec_monitor_center(m: MonitorInfo) -> ScreenPoint {
    ScreenPoint {
        x: (m.virtual_left + m.pixel_width / 2) as i32,
        y: (m.virtual_top + m.pixel_height / 2) as i32,
    }
}

/// Whether [`monitor_center`] is defined for `monitor`.
pub fn monitor_center_fits(monitor: &MonitorInfo) -> (r: bool)
    ensures
        r == center_fits(*monitor),
{
    if monitor.pixel_width > 2_147_483_647 || monitor.pixel_height > 2_147_483_647 {
        return false;
    }
    let x = monitor.virtual_left as i64 + (monitor.pixel_width / 2) as i64;
    let y = monitor.virtual_top as i64 + (monitor.pixel_height / 2) as i64;
    -2_147_483_648 <= x && x <= 2_147_483_647 && -2_147_483_648 <= y && y <= 2_147_483_647
}

/// The centre of `monitor`.
pub fn monitor_center(monitor: &MonitorInfo) -> (r: ScreenPoint)
    requires
        center_fits(*monitor),
    ensures
        r == spec_monitor_center(*monitor),
{
    ScreenPoint {
        x: monitor.virtual_left + (monitor.pixel_width as i32) / 2,
        y: monitor.virtual_top + (monitor.pixel_height as i32) / 2,
    }
}

impl ShortcutEngine {
    fn take_advanced(&mut self, i: usize) -> (r: AdvancedEntry)
        requires
            old(self).well_formed(),
            i < old(self)@.advanced.len(),
        ensures
            final(self).well_formed(),
            final(self)@ == (EngineModel { advanced: old(self)@.advanced.remove(i as int), ..old(self)@ }),
            r@ == old(self)@.advanced[i as int],
    {
        let ghost m0 = self@;
        let ghost before = self.advanced@;
        let a = self.advanced.remove(i);
        proof {
            assert(self.advanced@.map_values(|a: AdvancedEntry| a@) =~= before.map_values(|a: AdvancedEntry| a@).remove(
                i as int,
            ));
            lemma_no_dup_remove(advanced_keys(m0.advanced), i as int);
            assert(advanced_keys(self@.advanced) =~= advanced_keys(m0.advanced).remove(i as int));
            assert forall|j: int| 0 <= j < self@.advanced.len() implies spec_release_order().contains(
                #[trigger] self@.advanced[j].binding,
            ) by {
                let j1 = if j < i { j } else { j + 1 };
                assert(self@.advanced[j] == m0.advanced[j1]);
            }
            assert(self@.toggled == m0.toggled);
        }
        a
    }

    /// A frame of a drag gesture; see [`spec_handle_drag`].
    fn handle_drag(
        &mut self,
        b: BindingId,
        modifiers: Vec<KeyCode>,
        button: Option<MouseButton>,
        frame: &GestureFrame,
        now: u64,
        motion: &GestureMotion,
        out: &mut EngineOutput,
    )
        requires
            old(self).well_formed(),
            spec_release_order().contains(b),
        ensures
            final(self).well_formed(),
            final(self)@ == spec_handle_drag(old(self)@, b, modifiers@, button, *frame, now, *motion).0,
            commands_of(final(out).commands@) == commands_of(old(out).commands@) + spec_handle_drag(
                old(self)@,
                b,
                modifiers@,
                button,
                *frame,
                now,
                *motion,
            ).1,
            effects_of(final(out).overlay@) == effects_of(old(out).overlay@) + spec_handle_drag(
                old(self)@,
                b,
                modifiers@,
                button,
                *frame,
                now,
                *motion,
            ).2,
    {
        let ghost m0 = self@;
        let ghost c0 = commands_of(out.commands@);
        let ghost e0 = effects_of(out.overlay@);
        let ghost mv = modifiers@;
        proof {
            assert(c0 + Seq::<ShortcutCommandModel>::empty() =~= c0);
            assert(e0 + Seq::<OverlayEffectModel>::empty() =~= e0);
        }
        let found = find_advanced(&self.advanced, b);
        match frame.state {
            GestureState::Begin => match found {
                Some(i) => {
                    self.renew(i, now);
                },
                None => {
                    push_key_downs(&mut out.commands, &modifiers);
                    match button {
                        Some(x) => {
                            out.commands.push(ShortcutCommand::MouseButtonDown(x));
                        },
                        None => {},
                    }
                    proof {
                        let tail = match button {
                            Some(x) => seq![ShortcutCommandModel::MouseButtonDown(x)],
                            None => Seq::<ShortcutCommandModel>::empty(),
                        };
                        assert(commands_of(out.commands@) =~= c0 + key_downs(mv) + tail);
                        assert(c0 + key_downs(mv) + tail =~= c0 + (key_downs(mv) + tail));
                    }
                    self.start(
                        b,
                        ActiveAdvancedState::PointerDrag {
                            modifiers,
                            button,
                            last_x_bits: frame.val1_bits,
                            last_y_bits: frame.val2_bits,
                        },
                        now,
                    );
                },
            },
            GestureState::Update => match found {
                None => {},
                Some(i) => {
                    let current = match &self.advanced[i].state {
                        ActiveAdvancedState::PointerDrag { modifiers: held, button: pressed, .. } => Some(
                            (copy_keys(held), *pressed),
                        ),
                        _ => None,
                    };
                    match current {
                        Some((held, pressed)) => {
                            self.restate(
                                i,
                                ActiveAdvancedState::PointerDrag {
                                    modifiers: held,
                                    button: pressed,
                                    last_x_bits: frame.val1_bits,
                                    last_y_bits: frame.val2_bits,
                                },
                                now,
                            );
                            if !(motion.drag_dx == 0 && motion.drag_dy == 0) {
                                out.commands.push(
                                    ShortcutCommand::MouseMoveRelative { dx: motion.drag_dx, dy: motion.drag_dy },
                                );
                                proof {
                                    assert(commands_of(out.commands@) =~= c0 + seq![
                                        ShortcutCommandModel::MouseMoveRelative { dx: motion.drag_dx, dy: motion.drag_dy },
                                    ]);
                                }
                            }
                        },
                        None => {
                            self.renew(i, now);
                        },
                    }
                },
            },
            GestureState::End => {
                self.end_advanced(b, out);
            },
        }
    }

    /// A frame of a pinch gesture; see [`spec_handle_wheel`].
    fn handle_wheel(
        &mut self,
        b: BindingId,
        modifiers: Vec<KeyCode>,
        frame: &GestureFrame,
        now: u64,
        motion: &GestureMotion,
        out: &mut EngineOutput,
    )
        requires
            old(self).well_formed(),
            spec_release_order().contains(b),
        ensures
            final(self).well_formed(),
            final(self)@ == spec_handle_wheel(old(self)@, b, modifiers@, *frame, now, *motion).0,
            commands_of(final(out).commands@) == commands_of(old(out).commands@) + spec_handle_wheel(
                old(self)@,
                b,
                modifiers@,
                *frame,
                now,
                *motion,
            ).1,
            effects_of(final(out).overlay@) == effects_of(old(out).overlay@) + spec_handle_wheel(
                old(self)@,
                b,
                modifiers@,
                *frame,
                now,
                *motion,
            ).2,
    {
        let ghost m0 = self@;
        let ghost c0 = commands_of(out.commands@);
        let ghost e0 = effects_of(out.overlay@);
        proof {
            assert(c0 + Seq::<ShortcutCommandModel>::empty() =~= c0);
            assert(e0 + Seq::<OverlayEffectModel>::empty() =~= e0);
        }
        let found = find_advanced(&self.advanced, b);
        match frame.state {
            GestureState::Begin => match found {
                Some(i) => {
                    let current = match &self.advanced[i].state {
                        ActiveAdvancedState::PointerWheel { modifiers: held, .. } => Some(copy_keys(held)),
                        _ => None,
                    };
                    match current {
                        Some(held) => {
                            self.restate(
                                i,
                                ActiveAdvancedState::PointerWheel { modifiers: held, last_scale_bits: frame.val1_bits },
                                now,
                            );
                        },
                        None => {
                            self.renew(i, now);
                        },
                    }
                },
                None => {
                    push_key_downs(&mut out.commands, &modifiers);
                    self.start(
                        b,
                        ActiveAdvancedState::PointerWheel { modifiers, last_scale_bits: frame.val1_bits },
                        now,
                    );
                },
            },
            GestureState::Update => match found {
                None => {},
                Some(i) => {
                    let current = match &self.advanced[i].state {
                        ActiveAdvancedState::PointerWheel { modifiers: held, .. } => Some(copy_keys(held)),
                        _ => None,
                    };
                    match current {
                        Some(held) => {
                            self.restate(
                                i,
                                ActiveAdvancedState::PointerWheel { modifiers: held, last_scale_bits: frame.val1_bits },
                                now,
                            );
                            if motion.wheel_delta != 0 {
                                out.commands.push(ShortcutCommand::MouseWheel { delta: motion.wheel_delta });
                                proof {
                                    assert(commands_of(out.commands@) =~= c0 + seq![
                                        ShortcutCommandModel::MouseWheel { delta: motion.wheel_delta },
                                    ]);
                                }
                            }
                        },
                        None => {
                            self.renew(i, now);
                        },
                    }
                },
            },
            GestureState::End => {
                self.end_advanced(b, out);
            },
        }
    }

    /// A frame of a rotation gesture; see [`spec_handle_rotate`].
    fn handle_rotate(
        &mut self,
        b: BindingId,
        modifiers: Vec<KeyCode>,
        frame: &GestureFrame,
        now: u64,
        motion: &GestureMotion,
        out: &mut EngineOutput,
    )
        requires
            old(self).well_formed(),
            spec_release_order().contains(b),
        ensures
            final(self).well_formed(),
            final(self)@ == spec_handle_rotate(old(self)@, b, modifiers@, *frame, now, *motion).0,
            commands_of(final(out).commands@) == commands_of(old(out).commands@) + spec_handle_rotate(
                old(self)@,
                b,
                modifiers@,
                *frame,
                now,
                *motion,
            ).1,
            effects_of(final(out).overlay@) == effects_of(old(out).overlay@) + spec_handle_rotate(
                old(self)@,
                b,
                modifiers@,
                *frame,
                now,
                *motion,
            ).2,
    {
        let ghost m0 = self@;
        let ghost c0 = commands_of(out.commands@);
        let ghost e0 = effects_of(out.overlay@);
        proof {
            assert(c0 + Seq::<ShortcutCommandModel>::empty() =~= c0);
            assert(e0 + Seq::<OverlayEffectModel>::empty() =~= e0);
        }
        let found = find_advanced(&self.advanced, b);
        match frame.state {
            GestureState::Begin => match found {
                Some(i) => {
                    let current = match &self.advanced[i].state {
                        ActiveAdvancedState::PointerRotate { modifiers: held, .. } => Some(copy_keys(held)),
                        _ => None,
                    };
                    match current {
                        Some(held) => {
                            self.restate(
                                i,
                                ActiveAdvancedState::PointerRotate { modifiers: held, last_angle_bits: frame.val1_bits },
                                now,
                            );
                        },
                        None => {
                            self.renew(i, now);
                        },
                    }
                },
                None => {
                    push_key_downs(&mut out.commands, &modifiers);
                    self.start(
                        b,
                        ActiveAdvancedState::PointerRotate { modifiers, last_angle_bits: frame.val1_bits },
                        now,
                    );
                },
            },
            GestureState::Update => match found {
                None => {},
                Some(i) => {
                    let current = match &self.advanced[i].state {
                        ActiveAdvancedState::PointerRotate { modifiers: held, .. } => Some(copy_keys(held)),
                        _ => None,
                    };
                    match current {
                        Some(held) => {
                            self.restate(
                                i,
                                ActiveAdvancedState::PointerRotate { modifiers: held, last_angle_bits: frame.val1_bits },
                                now,
                            );
                            if motion.rotate_dx != 0 {
                                out.commands.push(ShortcutCommand::MouseMoveRelative { dx: motion.rotate_dx, dy: 0 });
                                proof {
                                    assert(commands_of(out.commands@) =~= c0 + seq![
                                        ShortcutCommandModel::MouseMoveRelative { dx: motion.rotate_dx, dy: 0 },
                                    ]);
                                }
                            }
                        },
                        None => {
                            self.renew(i, now);
                        },
                    }
                },
            },
            GestureState::End => {
                self.end_advanced(b, out);
            },
        }
    }

    /// A frame of the radial menu gesture; see [`spec_handle_radial`].
    fn handle_radial(
        &mut self,
        config: &RadialMenuConfig,
        b: BindingId,
        frame: &GestureFrame,
        now: u64,
        center: Option<ScreenPoint>,
        motion: &GestureMotion,
        out: &mut EngineOutput,
    )
        requires
            old(self).well_formed(),
            spec_release_order().contains(b),
        ensures
            final(self).well_formed(),
            final(self)@ == spec_handle_radial(old(self)@, config@, b, *frame, now, center, *motion).0,
            commands_of(final(out).commands@) == commands_of(old(out).commands@) + spec_handle_radial(
                old(self)@,
                config@,
                b,
                *frame,
                now,
                center,
                *motion,
            ).1,
            effects_of(final(out).overlay@) == effects_of(old(out).overlay@) + spec_handle_radial(
                old(self)@,
                config@,
                b,
                *frame,
                now,
                center,
                *motion,
            ).2,
    {
        let ghost m0 = self@;
        let ghost c0 = commands_of(out.commands@);
        let ghost e0 = effects_of(out.overlay@);
        proof {
            assert(c0 + Seq::<ShortcutCommandModel>::empty() =~= c0);
            assert(e0 + Seq::<OverlayEffectModel>::empty() =~= e0);
        }
        let found = find_advanced(&self.advanced, b);
        match frame.state {
            GestureState::Begin => match center {
                None => {},
                Some(c) => {
                    let anchor = RadialAnchor { center: c };
                    let st = ActiveAdvancedState::RadialMenu { anchor, selection: motion.selection };
                    match found {
                        Some(i) => {
                            self.restate(i, st, now);
                        },
                        None => {
                            self.start(b, st, now);
                        },
                    }
                    let state = self.overlay_state(config, anchor, motion.selection);
                    out.overlay.push(OverlayEffect::Show(state));
                    proof {
                        let r = spec_handle_radial(m0, config@, b, *frame, now, center, *motion);
                        assert(effects_of(out.overlay@) =~= e0 + r.2);
                    }
                },
            },
            GestureState::Update => match found {
                None => {},
                Some(i) => {
                    let current = match &self.advanced[i].state {
                        ActiveAdvancedState::RadialMenu { anchor, selection } => Some((*anchor, *selection)),
                        _ => None,
                    };
                    match current {
                        Some((anchor, selection)) => {
                            if selection != motion.selection {
                                self.restate(
                                    i,
                                    ActiveAdvancedState::RadialMenu { anchor, selection: motion.selection },
                                    now,
                                );
                                let state = self.overlay_state(config, anchor, motion.selection);
                                out.overlay.push(OverlayEffect::Update(state));
                                proof {
                                    let r = spec_handle_radial(m0, config@, b, *frame, now, center, *motion);
                                    assert(effects_of(out.overlay@) =~= e0 + r.2);
                                }
                            } else {
                                self.renew(i, now);
                            }
                        },
                        None => {
                            self.renew(i, now);
                        },
                    }
                },
            },
            GestureState::End => match found {
                None => {},
                Some(i) => {
                    let entry = self.take_advanced(i);
                    match entry.state {
                        ActiveAdvancedState::RadialMenu { selection, .. } => {
                            out.overlay.push(OverlayEffect::Hide);
                            let ghost e1 = effects_of(out.overlay@);
                            proof {
                                assert(e1 =~= e0 + seq![OverlayEffectModel::Hide]);
                            }
                            self.commit_selection(config, selection, out);
                            proof {
                                let m1 = EngineModel { advanced: m0.advanced.remove(i as int), ..m0 };
                                let x = spec_commit_selection(m1, config@, selection);
                                assert(e0 + seq![OverlayEffectModel::Hide] + x.2 =~= e0 + (seq![
                                    OverlayEffectModel::Hide,
                                ] + x.2));
                            }
                        },
                        _ => {},
                    }
                },
            },
        }
    }
}

impl ShortcutEngine {
    /// What a gesture frame of `b` does; see [`spec_gesture_effect`].
    fn gesture_effect(
        &mut self,
        profile: &ShortcutProfile,
        b: BindingId,
        frame: &GestureFrame,
        now: u64,
        center: Option<ScreenPoint>,
        motion: &GestureMotion,
        out: &mut EngineOutput,
    )
        requires
            old(self).well_formed(),
            spec_release_order().contains(b),
        ensures
            final(self).well_formed(),
            final(self)@ == spec_gesture_effect(old(self)@, profile@, b, *frame, now, center, *motion).0,
            commands_of(final(out).commands@) == commands_of(old(out).commands@) + spec_gesture_effect(
                old(self)@,
                profile@,
                b,
                *frame,
                now,
                center,
                *motion,
            ).1,
            effects_of(final(out).overlay@) == effects_of(old(out).overlay@) + spec_gesture_effect(
                old(self)@,
                profile@,
                b,
                *frame,
                now,
                center,
                *motion,
            ).2,
    {
        let ghost m0 = self@;
        let ghost c0 = commands_of(out.commands@);
        let ghost e0 = effects_of(out.overlay@);
        proof {
            assert(c0 + Seq::<ShortcutCommandModel>::empty() =~= c0);
            assert(e0 + Seq::<OverlayEffectModel>::empty() =~= e0);
        }
        match profile.action_for(b) {
            ShortcutAction::HoldKeys(keys) => {
                if keys.len() > 0 {
                    self.handle_hold(b, keys, frame.state, now, &mut out.commands);
                }
            },
            ShortcutAction::TriggerChord(keys) => {
                if keys.len() > 0 && frame.state == GestureState::Begin {
                    let fresh = match self.last_seq(b) {
                        Some(s) => s != frame.seq,
                        None => true,
                    };
                    if fresh {
                        let ghost kv = keys@;
                        out.commands.push(ShortcutCommand::PressChord(keys));
                        self.record_seq(b, frame.seq);
                        proof {
                            assert(commands_of(out.commands@) =~= c0 + seq![ShortcutCommandModel::PressChord(kv)]);
                        }
                    }
                }
            },
            ShortcutAction::Advanced(action) => match action {
                AdvancedAction::PointerDrag { modifiers, button } => {
                    self.handle_drag(b, modifiers, button, frame, now, motion, out);
                },
                AdvancedAction::PointerWheel { modifiers } => {
                    self.handle_wheel(b, modifiers, frame, now, motion, out);
                },
                AdvancedAction::PointerRotate { modifiers } => {
                    self.handle_rotate(b, modifiers, frame, now, motion, out);
                },
                AdvancedAction::ReservedRadialMenu => {
                    self.handle_radial(profile.radial_menu(), b, frame, now, center, motion, out);
                },
                _ => {},
            },
            ShortcutAction::Disabled => {},
        }
    }

    /// Handles a gesture frame received at `now_ns`; see [`spec_process_gesture`].
    /// `center` is the centre of the monitor in use, where the radial menu
    /// opens, and `motion` what the frame's values give against
    /// [`ShortcutEngine::motion_reference`].
    pub fn process_gesture(
        &mut self,
        profile: &ShortcutProfile,
        frame: &GestureFrame,
        now_ns: u64,
        center: Option<ScreenPoint>,
        motion: &GestureMotion,
    ) -> (r: EngineOutput)
        requires
            old(self).well_formed(),
        ensures
            final(self).well_formed(),
            (final(self)@, commands_of(r.commands@), effects_of(r.overlay@)) == spec_process_gesture(
                old(self)@,
                profile@,
                *frame,
                now_ns,
                center,
                *motion,
            ),
    {
        let mut out = self.expire_due(now_ns);
        let binding = match GestureBinding::from_frame(frame) {
            Some(g) => BindingId::Gesture(g),
            None => {
                return out;
            },
        };
        proof {
            lemma_gesture_binding_released(*frame);
        }
        self.gesture_effect(profile, binding, frame, now_ns, center, motion, &mut out);
        out
    }
}

/// Hands each overlay request of an engine output to `overlay`, in order.
pub fn apply_overlay_effects<O: RadialMenuOverlay>(overlay: &O, effects: Vec<OverlayEffect>) {
    let mut rest = effects;
    while rest.len() > 0
        decreases rest.len(),
    {
        match rest.remove(0) {
            OverlayEffect::Show(state) => overlay.show(state),
            OverlayEffect::Update(state) => overlay.update(state),
            OverlayEffect::Hide => overlay.hide_menu(),
            OverlayEffect::SyncHoldIndicator(point) => overlay.sync_hold_indicator(point),
        }
    }
}

} // verus!
