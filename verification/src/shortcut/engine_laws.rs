use vstd::prelude::*;

use crate::protocol::model::{GestureFrame, GestureState, StylusFlags};
use crate::shortcut::domain::{AdvancedActionModel, ShortcutActionModel, BindingId, RadialMenuModel, RadialInnerSlot, ShortcutCommandModel, StylusTrigger};
use crate::shortcut::engine::{
    engine_wf, hold_keys, index_in, key_downs, key_index, key_ups_reversed, lemma_index_in,
    lemma_key_index, lemma_no_dup_push, no_dup, spec_commit_selection, spec_handle_hold,
    spec_last_seq, spec_record_seq, spec_release_all, spec_trigger_effect, trigger_keys, EngineModel,
    advanced_keys, spec_handle_drag, trigger_flag, GestureMotion,
};
use crate::shortcut::domain::MouseButton;
use crate::shortcut::keys::KeyCode;
use crate::shortcut::profile::{spec_action_for, ShortcutProfileModel};
use crate::shortcut::radial_menu::RadialSelection;

verus! {

/// After a trigger is recorded as fired for `seq`, it reads as fired for `seq`.
pub proof fn lemma_record_then_last(m: EngineModel, b: BindingId, seq: u32)
    requires
        no_dup(trigger_keys(m.last_trigger_seq)),
    ensures
        spec_last_seq(spec_record_seq(m, b, seq), b) == Some(seq),
        no_dup(trigger_keys(spec_record_seq(m, b, seq).last_trigger_seq)),
{
    let tk = trigger_keys(m.last_trigger_seq);
    let i = index_in(tk, b);
    let m1 = spec_record_seq(m, b, seq);
    if i >= 0 {
        assert(tk[i] == b);
        assert(trigger_keys(m1.last_trigger_seq) =~= tk);
        lemma_index_in(tk, b, i);
    } else {
        assert(trigger_keys(m1.last_trigger_seq) =~= tk.push(b));
        lemma_no_dup_push(tk, b);
        lemma_index_in(tk.push(b), b, tk.len() as int);
    }
}

/// A pen trigger fires at most once per packet: handling the same trigger of
/// the same packet again changes nothing and sends nothing.
pub proof fn law_trigger_fires_once_per_seq(
    m: EngineModel,
    profile: ShortcutProfileModel,
    seq: u32,
    t: StylusTrigger,
)
    requires
        engine_wf(m),
    ensures
        ({
            let first = spec_trigger_effect(m, profile, seq, t);
            let again = spec_trigger_effect(first.0, profile, seq, t);
            &&& again.0 == first.0
            &&& again.1.len() == 0
            &&& again.2.len() == 0
        }),
{
    let b = BindingId::StylusTrigger(t);
    let fresh = spec_last_seq(m, b) != Some(seq);
    match spec_action_for(profile, b) {
        ShortcutActionModel::TriggerChord(keys) => {
            if keys.len() > 0 && fresh {
                lemma_record_then_last(m, b, seq);
            }
        },
        ShortcutActionModel::Advanced(AdvancedActionModel::PointerClick { .. }) => {
            if fresh {
                lemma_record_then_last(m, b, seq);
            }
        },
        ShortcutActionModel::Advanced(AdvancedActionModel::ReleaseActiveKeys) => {
            if fresh {
                let m1 = spec_release_all(m).0;
                assert(trigger_keys(m1.last_trigger_seq) =~= Seq::<BindingId>::empty());
                lemma_record_then_last(m1, b, seq);
            }
        },
        _ => {},
    }
}

/// Pressing and lifting a hold key gesture presses its keys in order and then
/// releases them last first, and leaves no hold behind.
pub proof fn law_hold_begin_then_end(
    m: EngineModel,
    b: BindingId,
    keys: Seq<KeyCode>,
    end_keys: Seq<KeyCode>,
    begin_at: u64,
    end_at: u64,
)
    requires
        engine_wf(m),
        index_in(hold_keys(m.holds), b) == -1,
    ensures
        ({
            let begin = spec_handle_hold(m, b, keys, GestureState::Begin, begin_at);
            let end = spec_handle_hold(begin.0, b, end_keys, GestureState::End, end_at);
            &&& begin.1 == key_downs(keys)
            &&& end.1 == key_ups_reversed(keys)
            &&& end.0 == m
        }),
{
    let hk = hold_keys(m.holds);
    let begin = spec_handle_hold(m, b, keys, GestureState::Begin, begin_at);
    assert(hold_keys(begin.0.holds) =~= hk.push(b));
    lemma_no_dup_push(hk, b);
    lemma_index_in(hk.push(b), b, hk.len() as int);
    let end = spec_handle_hold(begin.0, b, end_keys, GestureState::End, end_at);
    assert(end.0.holds =~= m.holds);
}

/// Committing the same inner slot twice toggles its key on and off again, or
/// off and on again: the key is held exactly as before, and a key that was
/// not held leaves the state as it was.
pub proof fn law_inner_slot_toggles_back(m: EngineModel, config: RadialMenuModel, slot: RadialInnerSlot)
    requires
        engine_wf(m),
        config.inner_enabled,
    ensures
        ({
            let key = config.inner.spec_key_for_slot(slot);
            let first = spec_commit_selection(m, config, RadialSelection::Inner(slot));
            let second = spec_commit_selection(first.0, config, RadialSelection::Inner(slot));
            &&& second.0.toggled.contains(key) == m.toggled.contains(key)
            &&& !m.toggled.contains(key) ==> first.1 == seq![ShortcutCommandModel::KeyDown(key)]
                && second.1 == seq![ShortcutCommandModel::KeyUp(key)] && second.0 == m
            &&& m.toggled.contains(key) ==> first.1 == seq![ShortcutCommandModel::KeyUp(key)]
                && second.1 == seq![ShortcutCommandModel::KeyDown(key)]
        }),
{
    let key = config.inner.spec_key_for_slot(slot);
    let t = m.toggled;
    let first = spec_commit_selection(m, config, RadialSelection::Inner(slot));
    if t.contains(key) {
        let ti = key_index(t, key);
        assert(0 <= ti < t.len() && t[ti] == key);
        let t1 = t.remove(ti);
        assert(first.0.toggled == t1);
        assert forall|j: int| 0 <= j < t1.len() implies t1[j] != key by {
            let j1 = if j < ti { j } else { j + 1 };
            assert(t1[j] == t[j1]);
        }
        assert(!(exists|j: int| 0 <= j < t1.len() && t1[j] == key));
        assert(key_index(t1, key) == -1);
        let second = spec_commit_selection(first.0, config, RadialSelection::Inner(slot));
        assert(second.0.toggled == t1.push(key));
        assert(second.0.toggled[t1.len() as int] == key);
    } else {
        assert(!(exists|j: int| 0 <= j < t.len() && t[j] == key));
        assert(key_index(t, key) == -1);
        let t1 = t.push(key);
        assert(first.0.toggled == t1);
        assert forall|p: int, q: int| 0 <= p < q < t1.len() implies t1[p] != t1[q] by {
            if q == t.len() {
                assert(t1[p] == t[p]);
            } else {
                assert(t1[p] == t[p] && t1[q] == t[q]);
            }
        }
        lemma_key_index(t1, key, t.len() as int);
        let second = spec_commit_selection(first.0, config, RadialSelection::Inner(slot));
        assert(second.0.toggled =~= t);
        if second.0.toggled.contains(key) {
            let j = choose|j: int| 0 <= j < second.0.toggled.len() && second.0.toggled[j] == key;
            assert(t[j] == key);
        }
    }
}

/// Once a drag has begun, every update moves the pointer by exactly the
/// motion it carries, on both axes, and an update without motion sends
/// nothing.
pub proof fn law_drag_update_moves_by_its_motion(
    m: EngineModel,
    b: BindingId,
    modifiers: Seq<KeyCode>,
    button: Option<MouseButton>,
    begin: GestureFrame,
    update: GestureFrame,
    begin_at: u64,
    update_at: u64,
    begin_motion: GestureMotion,
    motion: GestureMotion,
)
    requires
        engine_wf(m),
        index_in(advanced_keys(m.advanced), b) == -1,
        begin.state == GestureState::Begin,
        update.state == GestureState::Update,
    ensures
        ({
            let started = spec_handle_drag(m, b, modifiers, button, begin, begin_at, begin_motion);
            let moved = spec_handle_drag(started.0, b, modifiers, button, update, update_at, motion);
            &&& (motion.drag_dx != 0 || motion.drag_dy != 0) ==> moved.1 == seq![
                ShortcutCommandModel::MouseMoveRelative { dx: motion.drag_dx, dy: motion.drag_dy },
            ]
            &&& (motion.drag_dx == 0 && motion.drag_dy == 0) ==> moved.1.len() == 0
            &&& index_in(advanced_keys(moved.0.advanced), b) >= 0
        }),
{
    let ak = advanced_keys(m.advanced);
    let started = spec_handle_drag(m, b, modifiers, button, begin, begin_at, begin_motion);
    assert(advanced_keys(started.0.advanced) =~= ak.push(b));
    lemma_no_dup_push(ak, b);
    lemma_index_in(ak.push(b), b, ak.len() as int);
    let moved = spec_handle_drag(started.0, b, modifiers, button, update, update_at, motion);
    let n = ak.len() as int;
    assert(advanced_keys(moved.0.advanced)[n] == b);
}

/// Each pen trigger can be fired alone by a flag byte that a valid frame can
/// carry: one that sets no reserved bit, only that trigger's flag, and no
/// other trigger's.
pub proof fn law_each_trigger_fires_alone(t: StylusTrigger)
    ensures
        exists|f: StylusFlags|
            !f.bit(7) && #[trigger] trigger_flag(f, t) && forall|u: StylusTrigger|
                u != t ==> !trigger_flag(f, u),
{
    lemma_single_flag_bits();
    let f = match t {
        StylusTrigger::Squeeze => StylusFlags(0b0000_0100),
        StylusTrigger::DoubleTap => StylusFlags(0b0000_1000),
        StylusTrigger::TwoTap => StylusFlags(0b0001_0000),
        StylusTrigger::ThreeTap => StylusFlags(0b0010_0000),
        StylusTrigger::FourTap => StylusFlags(0b0100_0000),
    };
    assert(!f.bit(7) && trigger_flag(f, t));
}

/// The pen triggers read the flag bits the protocol gives them: squeeze bit
/// 2, double tap 3, two taps 4, three taps 5, four taps 6.
pub proof fn law_triggers_read_their_protocol_bits(f: StylusFlags)
    ensures
        trigger_flag(f, StylusTrigger::Squeeze) == f.bit(2),
        trigger_flag(f, StylusTrigger::DoubleTap) == f.bit(3),
        trigger_flag(f, StylusTrigger::TwoTap) == f.bit(4),
        trigger_flag(f, StylusTrigger::ThreeTap) == f.bit(5),
        trigger_flag(f, StylusTrigger::FourTap) == f.bit(6),
{
}

proof fn lemma_single_flag_bits()
    ensures
        StylusFlags(0b0000_0100).bit(2) && !StylusFlags(0b0000_0100).bit(3) && !StylusFlags(0b0000_0100).bit(4)
            && !StylusFlags(0b0000_0100).bit(5) && !StylusFlags(0b0000_0100).bit(6) && !StylusFlags(0b0000_0100).bit(7),
        !StylusFlags(0b0000_1000).bit(2) && StylusFlags(0b0000_1000).bit(3) && !StylusFlags(0b0000_1000).bit(4)
            && !StylusFlags(0b0000_1000).bit(5) && !StylusFlags(0b0000_1000).bit(6) && !StylusFlags(0b0000_1000).bit(7),
        !StylusFlags(0b0001_0000).bit(2) && !StylusFlags(0b0001_0000).bit(3) && StylusFlags(0b0001_0000).bit(4)
            && !StylusFlags(0b0001_0000).bit(5) && !StylusFlags(0b0001_0000).bit(6) && !StylusFlags(0b0001_0000).bit(7),
        !StylusFlags(0b0010_0000).bit(2) && !StylusFlags(0b0010_0000).bit(3) && !StylusFlags(0b0010_0000).bit(4)
            && StylusFlags(0b0010_0000).bit(5) && !StylusFlags(0b0010_0000).bit(6) && !StylusFlags(0b0010_0000).bit(7),
        !StylusFlags(0b0100_0000).bit(2) && !StylusFlags(0b0100_0000).bit(3) && !StylusFlags(0b0100_0000).bit(4)
            && !StylusFlags(0b0100_0000).bit(5) && StylusFlags(0b0100_0000).bit(6) && !StylusFlags(0b0100_0000).bit(7),
{
    assert(((4u8 >> 2u8) & 1u8) == 1u8 && ((4u8 >> 3u8) & 1u8) != 1u8 && ((4u8 >> 4u8) & 1u8) != 1u8
        && ((4u8 >> 5u8) & 1u8) != 1u8 && ((4u8 >> 6u8) & 1u8) != 1u8 && ((4u8 >> 7u8) & 1u8) != 1u8)
        by (bit_vector);
    assert(((8u8 >> 2u8) & 1u8) != 1u8 && ((8u8 >> 3u8) & 1u8) == 1u8 && ((8u8 >> 4u8) & 1u8) != 1u8
        && ((8u8 >> 5u8) & 1u8) != 1u8 && ((8u8 >> 6u8) & 1u8) != 1u8 && ((8u8 >> 7u8) & 1u8) != 1u8)
        by (bit_vector);
    assert(((16u8 >> 2u8) & 1u8) != 1u8 && ((16u8 >> 3u8) & 1u8) != 1u8 && ((16u8 >> 4u8) & 1u8) == 1u8
        && ((16u8 >> 5u8) & 1u8) != 1u8 && ((16u8 >> 6u8) & 1u8) != 1u8 && ((16u8 >> 7u8) & 1u8) != 1u8)
        by (bit_vector);
    assert(((32u8 >> 2u8) & 1u8) != 1u8 && ((32u8 >> 3u8) & 1u8) != 1u8 && ((32u8 >> 4u8) & 1u8) != 1u8
        && ((32u8 >> 5u8) & 1u8) == 1u8 && ((32u8 >> 6u8) & 1u8) != 1u8 && ((32u8 >> 7u8) & 1u8) != 1u8)
        by (bit_vector);
    assert(((64u8 >> 2u8) & 1u8) != 1u8 && ((64u8 >> 3u8) & 1u8) != 1u8 && ((64u8 >> 4u8) & 1u8) != 1u8
        && ((64u8 >> 5u8) & 1u8) != 1u8 && ((64u8 >> 6u8) & 1u8) == 1u8 && ((64u8 >> 7u8) & 1u8) != 1u8)
        by (bit_vector);
}

} // verus!
