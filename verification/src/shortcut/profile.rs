use vstd::prelude::*;

use crate::shortcut::domain::{
    spec_default_radial_menu, BindingId, GestureBinding, RadialMenuConfig, RadialMenuModel,
    ShortcutAction, ShortcutActionModel, StylusTrigger, SwipeAxis,
};
use crate::shortcut::preset::{spec_default_action, DefaultPreset};
use crate::text::{str_eq, string_of};

verus! {

/// The bindings the desktop offers, in the order they are listed.
pub open spec fn spec_all_bindings() -> Seq<BindingId> {
    seq![
        BindingId::Gesture(GestureBinding::TwoPan),
        BindingId::StylusTrigger(StylusTrigger::Squeeze),
        BindingId::StylusTrigger(StylusTrigger::DoubleTap),
        BindingId::StylusTrigger(StylusTrigger::TwoTap),
        BindingId::StylusTrigger(StylusTrigger::ThreeTap),
        BindingId::StylusTrigger(StylusTrigger::FourTap),
        BindingId::Gesture(GestureBinding::ThreePan),
        BindingId::Gesture(GestureBinding::TwoPinch),
        BindingId::Gesture(GestureBinding::TwoRotate),
        BindingId::Gesture(GestureBinding::LongPress { fingers: 1 }),
        BindingId::Gesture(GestureBinding::LongPress { fingers: 2 }),
        BindingId::Gesture(GestureBinding::LongPress { fingers: 3 }),
        BindingId::Gesture(GestureBinding::LongPress { fingers: 4 }),
        BindingId::Gesture(GestureBinding::Swipe { fingers: 1, axis: SwipeAxis::Horizontal }),
        BindingId::Gesture(GestureBinding::Swipe { fingers: 1, axis: SwipeAxis::Vertical }),
    ]
}

pub fn all_bindings() -> (r: Vec<BindingId>)
    ensures
        r@ == spec_all_bindings(),
{
    let r = vec![
        BindingId::Gesture(GestureBinding::TwoPan),
        BindingId::StylusTrigger(StylusTrigger::Squeeze),
        BindingId::StylusTrigger(StylusTrigger::DoubleTap),
        BindingId::StylusTrigger(StylusTrigger::TwoTap),
        BindingId::StylusTrigger(StylusTrigger::ThreeTap),
        BindingId::StylusTrigger(StylusTrigger::FourTap),
        BindingId::Gesture(GestureBinding::ThreePan),
        BindingId::Gesture(GestureBinding::TwoPinch),
        BindingId::Gesture(GestureBinding::TwoRotate),
        BindingId::Gesture(GestureBinding::LongPress { fingers: 1 }),
        BindingId::Gesture(GestureBinding::LongPress { fingers: 2 }),
        BindingId::Gesture(GestureBinding::LongPress { fingers: 3 }),
        BindingId::Gesture(GestureBinding::LongPress { fingers: 4 }),
        BindingId::Gesture(GestureBinding::Swipe { fingers: 1, axis: SwipeAxis::Horizontal }),
        BindingId::Gesture(GestureBinding::Swipe { fingers: 1, axis: SwipeAxis::Vertical }),
    ];
    assert(r@ =~= spec_all_bindings());
    r
}

/// No binding occurs twice among the entries.
pub open spec fn unique_bindings(s: Seq<(BindingId, ShortcutAction)>) -> bool {
    forall|i: int, j: int| 0 <= i < j < s.len() ==> (#[trigger] s[i]).0 != (#[trigger] s[j]).0
}

/// The binding-to-action map that a list of entries stands for.
pub open spec fn entries_map(s: Seq<(BindingId, ShortcutAction)>) -> Map<
    BindingId,
    ShortcutActionModel,
> {
    Map::new(
        |k: BindingId| exists|i: int| 0 <= i < s.len() && (#[trigger] s[i]).0 == k,
        |k: BindingId| s[choose|i: int| 0 <= i < s.len() && (#[trigger] s[i]).0 == k].1@,
    )
}

pub proof fn lemma_entries_at(s: Seq<(BindingId, ShortcutAction)>, i: int)
    requires
        unique_bindings(s),
        0 <= i < s.len(),
    ensures
        entries_map(s).contains_key(s[i].0),
        entries_map(s)[s[i].0] == s[i].1@,
{
    let k = s[i].0;
    assert(exists|j: int| 0 <= j < s.len() && (#[trigger] s[j]).0 == k);
    let c = choose|j: int| 0 <= j < s.len() && (#[trigger] s[j]).0 == k;
    if c != i {
        if c < i {
            assert(s[c].0 != s[i].0);
        } else {
            assert(s[i].0 != s[c].0);
        }
    }
}

pub proof fn lemma_entries_absent(s: Seq<(BindingId, ShortcutAction)>, k: BindingId)
    requires
        forall|i: int| 0 <= i < s.len() ==> (#[trigger] s[i]).0 != k,
    ensures
        !entries_map(s).contains_key(k),
{
}

/// Replacing the entry at `i` by one with the same binding updates the map there.
pub proof fn lemma_entries_update(
    s: Seq<(BindingId, ShortcutAction)>,
    i: int,
    a: ShortcutAction,
)
    requires
        unique_bindings(s),
        0 <= i < s.len(),
    ensures
        unique_bindings(s.update(i, (s[i].0, a))),
        entries_map(s.update(i, (s[i].0, a))) =~= entries_map(s).insert(s[i].0, a@),
{
    let t = s.update(i, (s[i].0, a));
    assert(unique_bindings(t)) by {
        assert forall|p: int, q: int| 0 <= p < q < t.len() implies (#[trigger] t[p]).0 != (
        #[trigger] t[q]).0 by {
            assert(s[p].0 != s[q].0);
        }
    }
    let m = entries_map(s).insert(s[i].0, a@);
    assert forall|k: BindingId| #[trigger] entries_map(t).contains_key(k) <==> m.contains_key(k) by {
        if entries_map(t).contains_key(k) {
            let j = choose|j: int| 0 <= j < t.len() && (#[trigger] t[j]).0 == k;
            if j != i {
                lemma_entries_at(s, j);
            }
        }
        if m.contains_key(k) && k != s[i].0 {
            let j = choose|j: int| 0 <= j < s.len() && (#[trigger] s[j]).0 == k;
            assert(t[j].0 == k);
        }
        if k == s[i].0 {
            assert(t[i].0 == k);
        }
    }
    assert forall|k: BindingId| #[trigger] entries_map(t).contains_key(k) implies entries_map(
        t,
    )[k] == m[k] by {
        let j = choose|j: int| 0 <= j < t.len() && (#[trigger] t[j]).0 == k;
        lemma_entries_at(t, j);
        if j != i {
            lemma_entries_at(s, j);
        }
    }
}

/// Appending an entry for a new binding adds it to the map.
pub proof fn lemma_entries_push(s: Seq<(BindingId, ShortcutAction)>, e: (BindingId, ShortcutAction))
    requires
        unique_bindings(s),
        forall|i: int| 0 <= i < s.len() ==> (#[trigger] s[i]).0 != e.0,
    ensures
        unique_bindings(s.push(e)),
        entries_map(s.push(e)) =~= entries_map(s).insert(e.0, e.1@),
{
    let t = s.push(e);
    assert(unique_bindings(t)) by {
        assert forall|p: int, q: int| 0 <= p < q < t.len() implies (#[trigger] t[p]).0 != (
        #[trigger] t[q]).0 by {
            if q == s.len() {
                assert(t[p] == s[p]);
            } else {
                assert(s[p].0 != s[q].0);
            }
        }
    }
    let m = entries_map(s).insert(e.0, e.1@);
    assert forall|k: BindingId| #[trigger] entries_map(t).contains_key(k) <==> m.contains_key(k) by {
        if entries_map(t).contains_key(k) {
            let j = choose|j: int| 0 <= j < t.len() && (#[trigger] t[j]).0 == k;
            if j < s.len() {
                assert(s[j] == t[j]);
            }
        }
        if m.contains_key(k) && k != e.0 {
            let j = choose|j: int| 0 <= j < s.len() && (#[trigger] s[j]).0 == k;
            assert(t[j].0 == k);
        }
        if k == e.0 {
            assert(t[s.len() as int].0 == k);
        }
    }
    assert forall|k: BindingId| #[trigger] entries_map(t).contains_key(k) implies entries_map(
        t,
    )[k] == m[k] by {
        let j = choose|j: int| 0 <= j < t.len() && (#[trigger] t[j]).0 == k;
        lemma_entries_at(t, j);
        if j < s.len() {
            assert(s[j] == t[j]);
            lemma_entries_at(s, j);
        }
    }
}

/// Removing the entry at `i` drops its binding from the map.
pub proof fn lemma_entries_remove(s: Seq<(BindingId, ShortcutAction)>, i: int)
    requires
        unique_bindings(s),
        0 <= i < s.len(),
    ensures
        unique_bindings(s.remove(i)),
        entries_map(s.remove(i)) =~= entries_map(s).remove(s[i].0),
{
    let t = s.remove(i);
    assert forall|j: int| 0 <= j < t.len() implies #[trigger] t[j] == s[if j < i {
        j
    } else {
        j + 1
    }] by {}
    assert(unique_bindings(t)) by {
        assert forall|p: int, q: int| 0 <= p < q < t.len() implies (#[trigger] t[p]).0 != (
        #[trigger] t[q]).0 by {
            let p1 = if p < i {
                p
            } else {
                p + 1
            };
            let q1 = if q < i {
                q
            } else {
                q + 1
            };
            assert(t[p] == s[p1]);
            assert(t[q] == s[q1]);
            assert(s[p1].0 != s[q1].0);
        }
    }
    let m = entries_map(s).remove(s[i].0);
    assert forall|k: BindingId| #[trigger] entries_map(t).contains_key(k) <==> m.contains_key(k) by {
        if entries_map(t).contains_key(k) {
            let j = choose|j: int| 0 <= j < t.len() && (#[trigger] t[j]).0 == k;
            let j1 = if j < i {
                j
            } else {
                j + 1
            };
            assert(t[j] == s[j1]);
            assert(s[j1].0 != s[i].0);
        }
        if m.contains_key(k) {
            let j = choose|j: int| 0 <= j < s.len() && (#[trigger] s[j]).0 == k;
            assert(j != i);
            let j1 = if j < i {
                j
            } else {
                j - 1
            };
            assert(t[j1] == s[j]);
        }
    }
    assert forall|k: BindingId| #[trigger] entries_map(t).contains_key(k) implies entries_map(
        t,
    )[k] == m[k] by {
        let j = choose|j: int| 0 <= j < t.len() && (#[trigger] t[j]).0 == k;
        let j1 = if j < i {
            j
        } else {
            j + 1
        };
        assert(t[j] == s[j1]);
        lemma_entries_at(t, j);
        lemma_entries_at(s, j1);
    }
}

/// The shortcut settings of one preset: custom actions that override the
/// factory mapping, and the radial menu.
#[derive(Debug, PartialEq, Eq)]
pub struct ShortcutProfile {
    custom_bindings: Vec<(BindingId, ShortcutAction)>,
    radial_menu: RadialMenuConfig,
}

pub struct ShortcutProfileModel {
    pub custom_bindings: Map<BindingId, ShortcutActionModel>,
    pub radial_menu: RadialMenuModel,
}

impl View for ShortcutProfile {
    type V = ShortcutProfileModel;

    closed spec fn view(&self) -> ShortcutProfileModel {
        ShortcutProfileModel {
            custom_bindings: entries_map(self.custom_bindings@),
            radial_menu: self.radial_menu@,
        }
    }
}

/// The action `binding` fires under `profile`: its override if it has one,
/// else the factory action.
pub open spec fn spec_action_for(profile: ShortcutProfileModel, binding: BindingId) -> ShortcutActionModel {
    if profile.custom_bindings.contains_key(binding) {
        profile.custom_bindings[binding]
    } else {
        spec_default_action(binding)
    }
}

/// The profile a fresh preset starts from: no overrides and the factory radial menu.
pub open spec fn spec_default_profile() -> ShortcutProfileModel {
    ShortcutProfileModel {
        custom_bindings: Map::empty(),
        radial_menu: spec_default_radial_menu(),
    }
}

impl ShortcutProfile {
    #[verifier::type_invariant]
    closed spec fn bindings_unique(self) -> bool {
        unique_bindings(self.custom_bindings@)
    }

    pub fn new_default() -> (r: Self)
        ensures
            r@ == spec_default_profile(),
    {
        let r = ShortcutProfile { custom_bindings: Vec::new(), radial_menu: RadialMenuConfig::default_config() };
        assert(r@.custom_bindings =~= Map::<BindingId, ShortcutActionModel>::empty());
        r
    }

    pub fn duplicate(&self) -> (r: Self)
        ensures
            r@ == self@,
    {
        proof {
            use_type_invariant(self);
        }
        let mut entries: Vec<(BindingId, ShortcutAction)> = Vec::new();
        let mut i: usize = 0;
        while i < self.custom_bindings.len()
            invariant
                unique_bindings(self.custom_bindings@),
                i <= self.custom_bindings@.len(),
                entries@.len() == i,
                forall|j: int|
                    0 <= j < i ==> (#[trigger] entries@[j]).0 == self.custom_bindings@[j].0
                        && entries@[j].1@ == self.custom_bindings@[j].1@,
            decreases self.custom_bindings@.len() - i,
        {
            let entry = &self.custom_bindings[i];
            entries.push((entry.0, entry.1.duplicate()));
            i = i + 1;
        }
        proof {
            let s = self.custom_bindings@;
            let t = entries@;
            assert(unique_bindings(t)) by {
                assert forall|p: int, q: int| 0 <= p < q < t.len() implies (#[trigger] t[p]).0 != (
                #[trigger] t[q]).0 by {
                    assert(s[p].0 != s[q].0);
                }
            }
            assert forall|k: BindingId| #[trigger] entries_map(t).contains_key(k) <==> entries_map(
                s,
            ).contains_key(k) by {
                if entries_map(t).contains_key(k) {
                    let j = choose|j: int| 0 <= j < t.len() && (#[trigger] t[j]).0 == k;
                    assert(s[j].0 == k);
                }
                if entries_map(s).contains_key(k) {
                    let j = choose|j: int| 0 <= j < s.len() && (#[trigger] s[j]).0 == k;
                    assert(t[j].0 == k);
                }
            }
            assert forall|k: BindingId| #[trigger] entries_map(t).contains_key(k) implies entries_map(
                t,
            )[k] == entries_map(s)[k] by {
                let j = choose|j: int| 0 <= j < t.len() && (#[trigger] t[j]).0 == k;
                lemma_entries_at(t, j);
                lemma_entries_at(s, j);
            }
            assert(entries_map(t) =~= entries_map(s));
        }
        ShortcutProfile { custom_bindings: entries, radial_menu: self.radial_menu.duplicate() }
    }

    /// The factory action for `binding`, whatever this profile overrides.
    pub fn preset_action_for(&self, binding: BindingId) -> (r: ShortcutAction)
        ensures
            r@ == spec_default_action(binding),
    {
        DefaultPreset.action_for(binding)
    }

    /// The action `binding` fires: its override if it has one, else the factory action.
    pub fn action_for(&self, binding: BindingId) -> (r: ShortcutAction)
        ensures
            r@ == spec_action_for(self@, binding),
    {
        proof {
            use_type_invariant(self);
        }
        let mut i: usize = 0;
        while i < self.custom_bindings.len()
            invariant
                unique_bindings(self.custom_bindings@),
                i <= self.custom_bindings@.len(),
                forall|j: int| 0 <= j < i ==> (#[trigger] self.custom_bindings@[j]).0 != binding,
            decreases self.custom_bindings@.len() - i,
        {
            if self.custom_bindings[i].0 == binding {
                proof {
                    lemma_entries_at(self.custom_bindings@, i as int);
                }
                return self.custom_bindings[i].1.duplicate();
            }
            i = i + 1;
        }
        proof {
            lemma_entries_absent(self.custom_bindings@, binding);
        }
        self.preset_action_for(binding)
    }

    /// Drops every override and restores the factory radial menu.
    pub fn reset_to_default(&mut self)
        ensures
            final(self)@ == spec_default_profile(),
    {
        *self = Self::new_default();
    }

    /// Makes `action` the override of `binding`, replacing any earlier one.
    pub fn set_custom_binding(&mut self, binding: BindingId, action: ShortcutAction)
        ensures
            final(self)@.custom_bindings == old(self)@.custom_bindings.insert(binding, action@),
            final(self)@.radial_menu == old(self)@.radial_menu,
    {
        proof {
            use_type_invariant(&*self);
        }
        let mut entries: Vec<(BindingId, ShortcutAction)> = Vec::new();
        std::mem::swap(&mut entries, &mut self.custom_bindings);
        let mut i: usize = 0;
        while i < entries.len()
            invariant
                entries@ == old(self).custom_bindings@,
                self.radial_menu == old(self).radial_menu,
                unique_bindings(entries@),
                i <= entries@.len(),
                forall|j: int| 0 <= j < i ==> (#[trigger] entries@[j]).0 != binding,
            decreases entries@.len() - i,
        {
            if entries[i].0 == binding {
                proof {
                    lemma_entries_update(entries@, i as int, action);
                }
                entries.set(i, (binding, action));
                self.custom_bindings = entries;
                return;
            }
            i = i + 1;
        }
        proof {
            lemma_entries_push(entries@, (binding, action));
        }
        entries.push((binding, action));
        self.custom_bindings = entries;
    }
}

/// The overrides of `m` that do not disable their binding.
pub open spec fn spec_without_disabled(m: Map<BindingId, ShortcutActionModel>) -> Map<
    BindingId,
    ShortcutActionModel,
> {
    Map::new(|k: BindingId| m.contains_key(k) && !(m[k] is Disabled), |k: BindingId| m[k])
}

/// The map built by inserting the entries of `s` in order into `m`: a later
/// entry for a binding replaces an earlier one.
pub open spec fn insert_all(
    m: Map<BindingId, ShortcutActionModel>,
    s: Seq<(BindingId, ShortcutAction)>,
) -> Map<BindingId, ShortcutActionModel>
    decreases s.len(),
{
    if s.len() == 0 {
        m
    } else {
        insert_all(m, s.drop_last()).insert(s.last().0, s.last().1@)
    }
}

proof fn lemma_unique_take(s: Seq<(BindingId, ShortcutAction)>, n: int)
    requires
        unique_bindings(s),
        0 <= n <= s.len(),
    ensures
        unique_bindings(s.take(n)),
{
    let t = s.take(n);
    assert forall|p: int, q: int| 0 <= p < q < t.len() implies (#[trigger] t[p]).0 != (
    #[trigger] t[q]).0 by {
        assert(t[p] == s[p]);
        assert(t[q] == s[q]);
    }
}

impl ShortcutProfile {
    /// Drops the overrides that disable their binding, so the factory action applies again.
    pub fn remove_disabled_overrides(&mut self)
        ensures
            final(self)@.custom_bindings == spec_without_disabled(old(self)@.custom_bindings),
            final(self)@.radial_menu == old(self)@.radial_menu,
    {
        proof {
            use_type_invariant(&*self);
        }
        let mut entries: Vec<(BindingId, ShortcutAction)> = Vec::new();
        std::mem::swap(&mut entries, &mut self.custom_bindings);
        let mut kept: Vec<(BindingId, ShortcutAction)> = Vec::new();
        let mut i: usize = 0;
        proof {
            assert(entries_map(entries@.take(0)) =~= Map::<BindingId, ShortcutActionModel>::empty());
            assert(entries_map(kept@) =~= Map::<BindingId, ShortcutActionModel>::empty());
            assert(spec_without_disabled(entries_map(entries@.take(0))) =~= Map::<
                BindingId,
                ShortcutActionModel,
            >::empty());
        }
        while i < entries.len()
            invariant
                entries@ == old(self).custom_bindings@,
                self.radial_menu == old(self).radial_menu,
                unique_bindings(entries@),
                i <= entries@.len(),
                unique_bindings(kept@),
                entries_map(kept@) == spec_without_disabled(entries_map(entries@.take(i as int))),
                forall|m: int|
                    0 <= m < kept@.len() ==> entries_map(entries@.take(i as int)).contains_key(
                        (#[trigger] kept@[m]).0,
                    ),
            decreases entries@.len() - i,
        {
            let ghost before = entries@.take(i as int);
            let ghost e = entries@[i as int];
            proof {
                lemma_unique_take(entries@, i as int);
                lemma_unique_take(entries@, i as int + 1);
                assert(entries@.take(i as int + 1) =~= before.push(e));
                assert forall|j: int| 0 <= j < before.len() implies (#[trigger] before[j]).0 != e.0 by {
                    assert(before[j] == entries@[j]);
                }
                lemma_entries_push(before, e);
            }
            let entry = &entries[i];
            if !entry.1.is_disabled() {
                let copy = (entry.0, entry.1.duplicate());
                proof {
                    assert forall|m: int| 0 <= m < kept@.len() implies (#[trigger] kept@[m]).0
                        != e.0 by {
                        if kept@[m].0 == e.0 {
                            let j = choose|j: int|
                                0 <= j < before.len() && (#[trigger] before[j]).0 == e.0;
                            assert(before[j] == entries@[j]);
                        }
                    }
                    lemma_entries_push(kept@, copy);
                    assert(spec_without_disabled(entries_map(entries@.take(i as int + 1)))
                        =~= spec_without_disabled(entries_map(before)).insert(e.0, e.1@));
                }
                kept.push(copy);
            } else {
                proof {
                    assert(spec_without_disabled(entries_map(entries@.take(i as int + 1)))
                        =~= spec_without_disabled(entries_map(before)));
                }
            }
            i = i + 1;
        }
        proof {
            assert(entries@.take(entries@.len() as int) =~= entries@);
        }
        self.custom_bindings = kept;
    }

    /// Drops any override of the four-tap trigger, whose action is fixed.
    pub fn remove_fixed_binding_overrides(&mut self)
        ensures
            final(self)@.custom_bindings == old(self)@.custom_bindings.remove(
                BindingId::StylusTrigger(StylusTrigger::FourTap),
            ),
            final(self)@.radial_menu == old(self)@.radial_menu,
    {
        proof {
            use_type_invariant(&*self);
        }
        let fixed = BindingId::StylusTrigger(StylusTrigger::FourTap);
        let mut entries: Vec<(BindingId, ShortcutAction)> = Vec::new();
        std::mem::swap(&mut entries, &mut self.custom_bindings);
        let mut i: usize = 0;
        while i < entries.len()
            invariant
                entries@ == old(self).custom_bindings@,
                self.radial_menu == old(self).radial_menu,
                unique_bindings(entries@),
                i <= entries@.len(),
                fixed == BindingId::StylusTrigger(StylusTrigger::FourTap),
                forall|j: int| 0 <= j < i ==> (#[trigger] entries@[j]).0 != fixed,
            decreases entries@.len() - i,
        {
            if entries[i].0 == fixed {
                proof {
                    lemma_entries_remove(entries@, i as int);
                }
                let ghost before = entries@;
                entries.remove(i);
                self.custom_bindings = entries;
                return;
            }
            i = i + 1;
        }
        proof {
            lemma_entries_absent(entries@, fixed);
            assert(entries_map(entries@).remove(fixed) =~= entries_map(entries@));
        }
        self.custom_bindings = entries;
    }

    pub fn radial_menu(&self) -> (r: &RadialMenuConfig)
        ensures
            r@ == self@.radial_menu,
    {
        &self.radial_menu
    }

    /// Replaces the radial menu, keeping the overrides.
    pub fn set_radial_menu(&mut self, radial_menu: RadialMenuConfig)
        ensures
            final(self)@.radial_menu == radial_menu@,
            final(self)@.custom_bindings == old(self)@.custom_bindings,
    {
        proof {
            use_type_invariant(&*self);
        }
        self.radial_menu = radial_menu;
    }

    /// The overrides as a list, one entry per binding.
    pub fn binding_entries(&self) -> (r: Vec<(BindingId, ShortcutAction)>)
        ensures
            unique_bindings(r@),
            entries_map(r@) == self@.custom_bindings,
    {
        proof {
            use_type_invariant(self);
        }
        let copy = self.duplicate();
        proof {
            use_type_invariant(&copy);
        }
        copy.custom_bindings
    }

    /// A profile with the given overrides, a later entry for a binding
    /// replacing an earlier one, and the given radial menu.
    pub fn from_parts(entries: Vec<(BindingId, ShortcutAction)>, radial_menu: RadialMenuConfig) -> (r: Self)
        ensures
            r@.custom_bindings == insert_all(Map::empty(), entries@),
            r@.radial_menu == radial_menu@,
    {
        let mut r = ShortcutProfile { custom_bindings: Vec::new(), radial_menu };
        proof {
            assert(r@.custom_bindings =~= insert_all(Map::empty(), entries@.take(0)));
        }
        let mut i: usize = 0;
        while i < entries.len()
            invariant
                i <= entries@.len(),
                r@.custom_bindings == insert_all(Map::empty(), entries@.take(i as int)),
                r@.radial_menu == radial_menu@,
            decreases entries@.len() - i,
        {
            let entry = &entries[i];
            r.set_custom_binding(entry.0, entry.1.duplicate());
            proof {
                assert(entries@.take(i as int + 1).drop_last() =~= entries@.take(i as int));
            }
            i = i + 1;
        }
        proof {
            assert(entries@.take(entries@.len() as int) =~= entries@);
        }
        r
    }
}

impl Default for ShortcutProfile {
    fn default() -> (r: Self)
        ensures
            r@ == spec_default_profile(),
    {
        ShortcutProfile::new_default()
    }
}

impl Clone for ShortcutProfile {
    fn clone(&self) -> (r: Self)
        ensures
            r@ == self@,
    {
        self.duplicate()
    }
}

/// A lower-case hexadecimal digit.
pub open spec fn is_lower_hex(c: char) -> bool {
    ('0' <= c && c <= '9') || ('a' <= c && c <= 'f')
}

/// The hyphenated lower-case text form of a UUID, `8-4-4-4-12` hex digits.
pub open spec fn is_hyphenated_uuid_text(s: Seq<char>) -> bool {
    &&& s.len() == 36
    &&& forall|i: int|
        0 <= i < 36 ==> if i == 8 || i == 13 || i == 18 || i == 23 {
            #[trigger] s[i] == '-'
        } else {
            is_lower_hex(s[i])
        }
}

/// `uuid::Uuid::new_v4` formatted by `to_string`: a fresh random identifier in
/// the hyphenated lower-case form. Which identifier comes back is left open.
#[verifier::external_body]
fn random_uuid_text() -> (r: String)
    ensures
        is_hyphenated_uuid_text(r@),
{
    uuid::Uuid::new_v4().to_string()
}

/// The identifier of the preset that cannot be removed.
pub open spec fn default_preset_id() -> Seq<char> {
    "default"@
}

/// The display name of the factory preset.
pub open spec fn default_preset_name() -> Seq<char> {
    "默认预设"@
}

/// A named shortcut profile that the user can select.
#[derive(Debug)]
pub struct ShortcutPreset {
    pub id: String,
    pub name: String,
    pub profile: ShortcutProfile,
}

pub struct ShortcutPresetModel {
    pub id: Seq<char>,
    pub name: Seq<char>,
    pub profile: ShortcutProfileModel,
}

impl View for ShortcutPreset {
    type V = ShortcutPresetModel;

    open spec fn view(&self) -> ShortcutPresetModel {
        ShortcutPresetModel { id: self.id@, name: self.name@, profile: self.profile@ }
    }
}

impl ShortcutPreset {
    pub fn default_preset() -> (r: Self)
        ensures
            r@ == (ShortcutPresetModel {
                id: default_preset_id(),
                name: default_preset_name(),
                profile: spec_default_profile(),
            }),
    {
        ShortcutPreset {
            id: string_of("default"),
            name: string_of("默认预设"),
            profile: ShortcutProfile::new_default(),
        }
    }

    /// A preset with the factory profile under a fresh random identifier.
    pub fn new(name: String) -> (r: Self)
        ensures
            is_hyphenated_uuid_text(r@.id),
            r@.name == name@,
            r@.profile == spec_default_profile(),
    {
        ShortcutPreset { id: random_uuid_text(), name, profile: ShortcutProfile::new_default() }
    }

    pub fn duplicate(&self) -> (r: Self)
        ensures
            r@ == self@,
    {
        ShortcutPreset { id: self.id.clone(), name: self.name.clone(), profile: self.profile.duplicate() }
    }
}

impl Default for ShortcutPreset {
    fn default() -> (r: Self)
        ensures
            r@ == (ShortcutPresetModel {
                id: default_preset_id(),
                name: default_preset_name(),
                profile: spec_default_profile(),
            }),
    {
        ShortcutPreset::default_preset()
    }
}

impl Clone for ShortcutPreset {
    fn clone(&self) -> (r: Self)
        ensures
            r@ == self@,
    {
        self.duplicate()
    }
}

/// `i` is the first position of a preset with identifier `id`.
pub open spec fn is_first_with_id(presets: Seq<ShortcutPresetModel>, id: Seq<char>, i: int) -> bool {
    &&& 0 <= i < presets.len()
    &&& presets[i].id == id
    &&& forall|j: int| 0 <= j < i ==> (#[trigger] presets[j]).id != id
}

/// The first position of a preset with identifier `id`, if there is one.
pub open spec fn first_with_id(presets: Seq<ShortcutPresetModel>, id: Seq<char>) -> Option<int> {
    if exists|i: int| is_first_with_id(presets, id, i) {
        Some(choose|i: int| is_first_with_id(presets, id, i))
    } else {
        None
    }
}

/// Some preset has identifier `id`.
pub open spec fn has_preset(presets: Seq<ShortcutPresetModel>, id: Seq<char>) -> bool {
    exists|i: int| 0 <= i < presets.len() && (#[trigger] presets[i]).id == id
}

pub proof fn lemma_first_with_id(presets: Seq<ShortcutPresetModel>, id: Seq<char>, i: int)
    requires
        0 <= i < presets.len(),
        presets[i].id == id,
    ensures
        first_with_id(presets, id) is Some,
        is_first_with_id(presets, id, first_with_id(presets, id)->0),
        first_with_id(presets, id)->0 <= i,
    decreases i,
{
    if exists|j: int| 0 <= j < i && (#[trigger] presets[j]).id == id {
        let j = choose|j: int| 0 <= j < i && (#[trigger] presets[j]).id == id;
        lemma_first_with_id(presets, id, j);
    } else {
        assert(is_first_with_id(presets, id, i));
    }
}

pub proof fn lemma_first_is_unique(presets: Seq<ShortcutPresetModel>, id: Seq<char>, i: int)
    requires
        is_first_with_id(presets, id, i),
    ensures
        first_with_id(presets, id) == Some(i),
{
    let c = choose|k: int| is_first_with_id(presets, id, k);
    assert(is_first_with_id(presets, id, c));
    if c < i {
        assert(presets[c].id != id);
    } else if i < c {
        assert(presets[i].id != id);
    }
}

pub proof fn lemma_first_none(presets: Seq<ShortcutPresetModel>, id: Seq<char>)
    ensures
        first_with_id(presets, id) is None <==> !has_preset(presets, id),
{
    if has_preset(presets, id) {
        let i = choose|i: int| 0 <= i < presets.len() && (#[trigger] presets[i]).id == id;
        lemma_first_with_id(presets, id, i);
    }
}

/// The presets of the user and which of them is in use.
#[derive(Debug)]
pub struct ShortcutPresetLibrary {
    pub active_preset_id: String,
    pub presets: Vec<ShortcutPreset>,
}

pub struct PresetLibraryModel {
    pub active_preset_id: Seq<char>,
    pub presets: Seq<ShortcutPresetModel>,
}

impl View for ShortcutPresetLibrary {
    type V = PresetLibraryModel;

    open spec fn view(&self) -> PresetLibraryModel {
        PresetLibraryModel {
            active_preset_id: self.active_preset_id@,
            presets: self.presets@.map_values(|p: ShortcutPreset| p@),
        }
    }
}

/// The library a new installation starts with: the factory preset, selected.
pub open spec fn spec_default_library() -> PresetLibraryModel {
    PresetLibraryModel {
        active_preset_id: default_preset_id(),
        presets: seq![
            ShortcutPresetModel {
                id: default_preset_id(),
                name: default_preset_name(),
                profile: spec_default_profile(),
            },
        ],
    }
}

/// The preset in use: the first one whose identifier is the active one.
pub open spec fn spec_active(lib: PresetLibraryModel) -> Option<ShortcutPresetModel> {
    match first_with_id(lib.presets, lib.active_preset_id) {
        Some(i) => Some(lib.presets[i]),
        None => None,
    }
}

/// Selecting `id`: it becomes the active identifier if a preset has it.
pub open spec fn spec_select(lib: PresetLibraryModel, id: Seq<char>) -> (PresetLibraryModel, bool) {
    if has_preset(lib.presets, id) {
        (PresetLibraryModel { active_preset_id: id, ..lib }, true)
    } else {
        (lib, false)
    }
}

/// Creating a preset named `name` under the identifier `new_id`: it is
/// appended and becomes the active one.
pub open spec fn spec_create(lib: PresetLibraryModel, name: Seq<char>, new_id: Seq<char>) -> PresetLibraryModel {
    PresetLibraryModel {
        active_preset_id: new_id,
        presets: lib.presets.push(
            ShortcutPresetModel { id: new_id, name, profile: spec_default_profile() },
        ),
    }
}

/// Renaming the first preset with identifier `id`, if there is one.
pub open spec fn spec_rename(lib: PresetLibraryModel, id: Seq<char>, name: Seq<char>) -> (
    PresetLibraryModel,
    bool,
) {
    match first_with_id(lib.presets, id) {
        Some(i) => (
            PresetLibraryModel {
                presets: lib.presets.update(i, ShortcutPresetModel { name, ..lib.presets[i] }),
                ..lib
            },
            true,
        ),
        None => (lib, false),
    }
}

/// Restoring the factory profile of the first preset with identifier `id`, if there is one.
pub open spec fn spec_reset(lib: PresetLibraryModel, id: Seq<char>) -> (PresetLibraryModel, bool) {
    match first_with_id(lib.presets, id) {
        Some(i) => (
            PresetLibraryModel {
                presets: lib.presets.update(
                    i,
                    ShortcutPresetModel { profile: spec_default_profile(), ..lib.presets[i] },
                ),
                ..lib
            },
            true,
        ),
        None => (lib, false),
    }
}

/// Removing the first preset with identifier `id`; the default preset is
/// never removed, and removing the active preset selects the default one.
pub open spec fn spec_remove(lib: PresetLibraryModel, id: Seq<char>) -> (PresetLibraryModel, bool) {
    if id == default_preset_id() {
        (lib, false)
    } else {
        match first_with_id(lib.presets, id) {
            Some(i) => (
                PresetLibraryModel {
                    active_preset_id: if lib.active_preset_id == id {
                        default_preset_id()
                    } else {
                        lib.active_preset_id
                    },
                    presets: lib.presets.remove(i),
                },
                true,
            ),
            None => (lib, false),
        }
    }
}

/// Repairing a loaded library: an empty one gets a default preset holding
/// `legacy`, and a missing or unknown active identifier selects the first preset.
pub open spec fn spec_normalize(lib: PresetLibraryModel, legacy: ShortcutProfileModel) -> PresetLibraryModel {
    let presets = if lib.presets.len() == 0 {
        seq![
            ShortcutPresetModel {
                id: default_preset_id(),
                name: default_preset_name(),
                profile: legacy,
            },
        ]
    } else {
        lib.presets
    };
    PresetLibraryModel {
        active_preset_id: if lib.active_preset_id.len() == 0 || !has_preset(
            presets,
            lib.active_preset_id,
        ) {
            presets[0].id
        } else {
            lib.active_preset_id
        },
        presets,
    }
}

impl ShortcutPresetLibrary {
    pub fn new_default() -> (r: Self)
        ensures
            r@ == spec_default_library(),
    {
        let preset = ShortcutPreset::default_preset();
        let id = preset.id.clone();
        let r = ShortcutPresetLibrary { active_preset_id: id, presets: vec![preset] };
        assert(r@.presets =~= spec_default_library().presets);
        r
    }

    /// The first position of a preset with identifier `id`.
    pub fn position_of(&self, id: &str) -> (r: Option<usize>)
        ensures
            match r {
                Some(i) => first_with_id(self@.presets, id@) == Some(i as int),
                None => first_with_id(self@.presets, id@) is None,
            },
    {
        let mut i: usize = 0;
        while i < self.presets.len()
            invariant
                i <= self.presets@.len(),
                forall|j: int| 0 <= j < i ==> (#[trigger] self@.presets[j]).id != id@,
            decreases self.presets@.len() - i,
        {
            if str_eq(self.presets[i].id.as_str(), id) {
                proof {
                    lemma_first_is_unique(self@.presets, id@, i as int);
                }
                return Some(i);
            }
            i = i + 1;
        }
        proof {
            lemma_first_none(self@.presets, id@);
        }
        None
    }

    pub fn active(&self) -> (r: Option<&ShortcutPreset>)
        ensures
            match r {
                Some(p) => spec_active(self@) == Some(p@),
                None => spec_active(self@) is None,
            },
    {
        match self.position_of(self.active_preset_id.as_str()) {
            Some(i) => Some(&self.presets[i]),
            None => None,
        }
    }

    pub fn active_mut(&mut self) -> (r: Option<&mut ShortcutPreset>)
        ensures
            match first_with_id(old(self)@.presets, old(self)@.active_preset_id) {
                Some(i) => r matches Some(p) && p@ == old(self)@.presets[i]
                    && final(self).presets@ == old(self).presets@.update(i, *final(p))
                    && final(self).active_preset_id == old(self).active_preset_id,
                None => r is None && *final(self) == *old(self),
            },
    {
        match self.position_of(self.active_preset_id.as_str()) {
            Some(i) => Some(&mut self.presets[i]),
            None => None,
        }
    }
}

impl ShortcutPresetLibrary {
    /// Selects the preset `preset_id` if the library has one; reports whether it did.
    pub fn select(&mut self, preset_id: &str) -> (r: bool)
        ensures
            (final(self)@, r) == spec_select(old(self)@, preset_id@),
    {
        proof {
            lemma_first_none(self@.presets, preset_id@);
        }
        match self.position_of(preset_id) {
            Some(_) => {
                self.active_preset_id = string_of(preset_id);
                true
            },
            None => false,
        }
    }

    /// Appends a preset named `name` with the factory profile under a fresh
    /// random identifier, selects it, and returns the preset now in use.
    pub fn create(&mut self, name: String) -> (r: &ShortcutPreset)
        ensures
            is_hyphenated_uuid_text(final(self)@.active_preset_id),
            final(self)@ == spec_create(old(self)@, name@, final(self)@.active_preset_id),
            spec_active(final(self)@) == Some(r@),
    {
        let preset = ShortcutPreset::new(name);
        let preset_id = preset.id.clone();
        self.presets.push(preset);
        self.active_preset_id = preset_id;
        proof {
            assert(self@.presets =~= old(self)@.presets.push(preset@));
            lemma_first_with_id(self@.presets, self@.active_preset_id, self@.presets.len() - 1);
        }
        match self.position_of(self.active_preset_id.as_str()) {
            Some(i) => &self.presets[i],
            None => {
                proof {
                    assert(false);
                }
                &self.presets[0]
            },
        }
    }

    /// Renames the first preset `preset_id`; reports whether there was one.
    pub fn rename(&mut self, preset_id: &str, name: String) -> (r: bool)
        ensures
            (final(self)@, r) == spec_rename(old(self)@, preset_id@, name@),
    {
        match self.position_of(preset_id) {
            Some(i) => {
                self.presets[i].name = name;
                proof {
                    assert(self@.presets =~= spec_rename(old(self)@, preset_id@, name@).0.presets);
                }
                true
            },
            None => false,
        }
    }

    /// Restores the factory profile of the first preset `preset_id`; reports whether there was one.
    pub fn reset(&mut self, preset_id: &str) -> (r: bool)
        ensures
            (final(self)@, r) == spec_reset(old(self)@, preset_id@),
    {
        match self.position_of(preset_id) {
            Some(i) => {
                self.presets[i].profile.reset_to_default();
                proof {
                    assert(self@.presets =~= spec_reset(old(self)@, preset_id@).0.presets);
                }
                true
            },
            None => false,
        }
    }

    /// Removes the first preset `preset_id` unless it is the default one;
    /// removing the active preset selects the default identifier.
    pub fn remove(&mut self, preset_id: &str) -> (r: bool)
        ensures
            (final(self)@, r) == spec_remove(old(self)@, preset_id@),
    {
        proof {
            reveal_strlit("default");
        }
        if str_eq(preset_id, "default") {
            return false;
        }
        match self.position_of(preset_id) {
            Some(index) => {
                self.presets.remove(index);
                if str_eq(self.active_preset_id.as_str(), preset_id) {
                    self.active_preset_id = string_of("default");
                }
                proof {
                    assert(self@.presets =~= old(self)@.presets.remove(index as int));
                }
                true
            },
            None => false,
        }
    }

    /// Repairs a loaded library; see [`spec_normalize`].
    pub fn normalize_with_legacy(&mut self, legacy_profile: &ShortcutProfile)
        ensures
            final(self)@ == spec_normalize(old(self)@, legacy_profile@),
    {
        if self.presets.len() == 0 {
            self.presets.push(
                ShortcutPreset {
                    id: string_of("default"),
                    name: string_of("默认预设"),
                    profile: legacy_profile.duplicate(),
                },
            );
            proof {
                assert(self@.presets =~= spec_normalize(old(self)@, legacy_profile@).presets);
            }
        }
        proof {
            lemma_first_none(self@.presets, self@.active_preset_id);
        }
        if self.active_preset_id.as_str().is_empty() || self.position_of(self.active_preset_id.as_str()).is_none() {
            self.active_preset_id = self.presets[0].id.clone();
        }
    }
}

impl Clone for ShortcutPresetLibrary {
    fn clone(&self) -> (r: Self)
        ensures
            r@ == self@,
    {
        let mut presets: Vec<ShortcutPreset> = Vec::new();
        let mut i: usize = 0;
        while i < self.presets.len()
            invariant
                i <= self.presets@.len(),
                presets@.len() == i,
                forall|j: int| 0 <= j < i ==> (#[trigger] presets@[j])@ == self.presets@[j]@,
            decreases self.presets@.len() - i,
        {
            presets.push(self.presets[i].duplicate());
            i = i + 1;
        }
        let r = ShortcutPresetLibrary { active_preset_id: self.active_preset_id.clone(), presets };
        assert(r@.presets =~= self@.presets);
        r
    }
}

impl Default for ShortcutPresetLibrary {
    fn default() -> (r: Self)
        ensures
            r@ == spec_default_library(),
    {
        ShortcutPresetLibrary::new_default()
    }
}

impl ShortcutProfile {
    /// The profile overrides `binding`.
    pub fn has_custom_binding(&self, binding: BindingId) -> (r: bool)
        ensures
            r == self@.custom_bindings.contains_key(binding),
    {
        proof {
            use_type_invariant(self);
        }
        let mut i: usize = 0;
        while i < self.custom_bindings.len()
            invariant
                unique_bindings(self.custom_bindings@),
                i <= self.custom_bindings@.len(),
                forall|j: int| 0 <= j < i ==> (#[trigger] self.custom_bindings@[j]).0 != binding,
            decreases self.custom_bindings@.len() - i,
        {
            if self.custom_bindings[i].0 == binding {
                proof {
                    lemma_entries_at(self.custom_bindings@, i as int);
                }
                return true;
            }
            i = i + 1;
        }
        proof {
            lemma_entries_absent(self.custom_bindings@, binding);
        }
        false
    }
}

} // verus!
