use vstd::prelude::*;

use crate::shortcut::domain::{
    AdvancedActionModel, BindingId, ShortcutActionModel, StylusTrigger,
};
use crate::shortcut::editing::{
    spec_clean_preset, spec_clean_profile, spec_current_keys, spec_normalize_shortcuts,
    spec_normalized_keys, spec_set_binding_keys, spec_set_binding_special_action,
    with_active_profile, with_binding,
};
use crate::shortcut::domain::SpecialAction;
use crate::shortcut::domain::{lemma_persisted_keys_distinct, spec_binding_for_key};
use crate::shortcut::keys::{lemma_labels_distinct, spec_key_for_label};
use crate::shortcut::keys::KeyCode;
use crate::shortcut::preset::spec_default_action;
use crate::shortcut::profile::{
    default_preset_id, first_with_id, has_preset, is_first_with_id, is_hyphenated_uuid_text,
    lemma_first_is_unique, lemma_first_none, lemma_first_with_id, spec_action_for, spec_active,
    spec_all_bindings,
    spec_create, spec_default_profile, spec_normalize, spec_remove, spec_reset, spec_select,
    spec_without_disabled, PresetLibraryModel, ShortcutPresetModel, ShortcutProfileModel,
};

verus! {

/// After a binding is given an action, that binding fires exactly that
/// action, and every other binding fires what it fired before.
pub proof fn law_set_binding_then_action(
    profile: ShortcutProfileModel,
    binding: BindingId,
    action: ShortcutActionModel,
    other: BindingId,
)
    ensures
        spec_action_for(
            ShortcutProfileModel {
                custom_bindings: profile.custom_bindings.insert(binding, action),
                ..profile
            },
            binding,
        ) == action,
        other != binding ==> spec_action_for(
            ShortcutProfileModel {
                custom_bindings: profile.custom_bindings.insert(binding, action),
                ..profile
            },
            other,
        ) == spec_action_for(profile, other),
{
}

/// A profile without overrides fires the factory action for every binding.
pub proof fn law_default_profile_fires_factory_actions(binding: BindingId)
    ensures
        spec_action_for(spec_default_profile(), binding) == spec_default_action(binding),
{
}

/// Once disabled overrides are dropped, no binding is disabled by an
/// override: one that was fires its factory action again, and the others are unchanged.
pub proof fn law_dropping_disabled_overrides(profile: ShortcutProfileModel, binding: BindingId)
    ensures
        ({
            let cleaned = ShortcutProfileModel {
                custom_bindings: spec_without_disabled(profile.custom_bindings),
                ..profile
            };
            &&& cleaned.custom_bindings.contains_key(binding) ==> !(
            cleaned.custom_bindings[binding] is Disabled)
            &&& spec_action_for(profile, binding) is Disabled ==> spec_action_for(cleaned, binding)
                == spec_default_action(binding)
            &&& !(spec_action_for(profile, binding) is Disabled) ==> spec_action_for(
                cleaned,
                binding,
            ) == spec_action_for(profile, binding)
        }),
{
}

/// Once the fixed-binding overrides are dropped, the four-tap trigger
/// releases the held keys, whatever the profile held for it.
pub proof fn law_four_tap_is_fixed(profile: ShortcutProfileModel)
    ensures
        ({
            let four_tap = BindingId::StylusTrigger(StylusTrigger::FourTap);
            spec_action_for(
                ShortcutProfileModel {
                    custom_bindings: profile.custom_bindings.remove(four_tap),
                    ..profile
                },
                four_tap,
            ) == ShortcutActionModel::Advanced(AdvancedActionModel::ReleaseActiveKeys)
        }),
{
}

/// A random preset identifier is never the identifier of the default preset.
pub proof fn law_random_id_is_not_default(id: Seq<char>)
    requires
        is_hyphenated_uuid_text(id),
    ensures
        id != default_preset_id(),
{
    reveal_strlit("default");
}

/// The default preset cannot be removed: asking to leaves the library as it was.
pub proof fn law_default_preset_cannot_be_removed(lib: PresetLibraryModel)
    ensures
        spec_remove(lib, default_preset_id()) == (lib, false),
{
}

/// No operation of the library loses the default preset.
pub proof fn law_default_preset_is_kept(
    lib: PresetLibraryModel,
    id: Seq<char>,
    name: Seq<char>,
    new_id: Seq<char>,
    legacy: ShortcutProfileModel,
)
    requires
        has_preset(lib.presets, default_preset_id()),
    ensures
        has_preset(spec_select(lib, id).0.presets, default_preset_id()),
        has_preset(spec_create(lib, name, new_id).presets, default_preset_id()),
        has_preset(spec_reset(lib, id).0.presets, default_preset_id()),
        has_preset(spec_remove(lib, id).0.presets, default_preset_id()),
        has_preset(spec_normalize(lib, legacy).presets, default_preset_id()),
{
    let d = default_preset_id();
    let k = choose|k: int| 0 <= k < lib.presets.len() && (#[trigger] lib.presets[k]).id == d;
    let created = spec_create(lib, name, new_id).presets;
    assert(created[k] == lib.presets[k]);
    match first_with_id(lib.presets, id) {
        Some(i) => {
            lemma_first_with_id(lib.presets, id, i);
            let reset = spec_reset(lib, id).0.presets;
            assert(reset[k].id == d);
            if id != d {
                let removed = spec_remove(lib, id).0.presets;
                assert(k != i);
                if k < i {
                    assert(removed[k] == lib.presets[k]);
                } else {
                    assert(removed[k - 1] == lib.presets[k]);
                }
            }
        },
        None => {},
    }
}

/// Selecting a preset that exists makes it the one in use.
pub proof fn law_select_then_active(lib: PresetLibraryModel, id: Seq<char>)
    requires
        has_preset(lib.presets, id),
    ensures
        spec_select(lib, id).1,
        spec_active(spec_select(lib, id).0) matches Some(p) && p.id == id,
{
    lemma_first_none(lib.presets, id);
    let i = first_with_id(lib.presets, id)->0;
    lemma_first_is_unique(lib.presets, id, i);
}

/// A created preset under a new identifier is the one in use, with the
/// given name and the factory profile.
pub proof fn law_created_preset_is_active(lib: PresetLibraryModel, name: Seq<char>, new_id: Seq<char>)
    requires
        !has_preset(lib.presets, new_id),
    ensures
        spec_active(spec_create(lib, name, new_id)) == Some(
            ShortcutPresetModel { id: new_id, name, profile: spec_default_profile() },
        ),
{
    let presets = spec_create(lib, name, new_id).presets;
    let n = lib.presets.len() as int;
    assert forall|j: int| 0 <= j < n implies (#[trigger] presets[j]).id != new_id by {
        assert(presets[j] == lib.presets[j]);
    }
    assert(is_first_with_id(presets, new_id, n));
    lemma_first_is_unique(presets, new_id, n);
}

/// Removing a preset just created under a new identifier gives the presets
/// back as they were, with the default preset selected.
pub proof fn law_remove_undoes_create(lib: PresetLibraryModel, name: Seq<char>, new_id: Seq<char>)
    requires
        !has_preset(lib.presets, new_id),
        new_id != default_preset_id(),
    ensures
        spec_remove(spec_create(lib, name, new_id), new_id) == (
            PresetLibraryModel { active_preset_id: default_preset_id(), presets: lib.presets },
            true,
        ),
{
    let presets = spec_create(lib, name, new_id).presets;
    let n = lib.presets.len() as int;
    assert forall|j: int| 0 <= j < n implies (#[trigger] presets[j]).id != new_id by {
        assert(presets[j] == lib.presets[j]);
    }
    assert(is_first_with_id(presets, new_id, n));
    lemma_first_is_unique(presets, new_id, n);
    assert(presets.remove(n) =~= lib.presets);
}

/// A repaired library always has a preset in use.
pub proof fn law_normalized_library_has_active(lib: PresetLibraryModel, legacy: ShortcutProfileModel)
    ensures
        spec_normalize(lib, legacy).presets.len() > 0,
        spec_active(spec_normalize(lib, legacy)) is Some,
{
    let n = spec_normalize(lib, legacy);
    lemma_first_none(n.presets, n.active_preset_id);
    if !has_preset(n.presets, n.active_preset_id) {
        assert(n.presets[0].id == n.active_preset_id);
    }
}

/// Replacing the profile of the active preset keeps it the active one.
pub proof fn lemma_active_after_profile_change(lib: PresetLibraryModel, profile: ShortcutProfileModel)
    requires
        spec_active(lib) is Some,
    ensures
        spec_active(with_active_profile(lib, profile)) == Some(
            ShortcutPresetModel { profile, ..spec_active(lib)->0 },
        ),
{
    let i = first_with_id(lib.presets, lib.active_preset_id)->0;
    lemma_first_none(lib.presets, lib.active_preset_id);
    let lib2 = with_active_profile(lib, profile);
    assert forall|j: int| 0 <= j < i implies (#[trigger] lib2.presets[j]).id != lib.active_preset_id by {
        assert(lib2.presets[j] == lib.presets[j]);
    }
    assert(is_first_with_id(lib2.presets, lib.active_preset_id, i));
    lemma_first_is_unique(lib2.presets, lib.active_preset_id, i);
}

/// After the keys of a binding are set, the active preset presses or holds
/// exactly those keys, in stored form, for it.
pub proof fn law_set_keys_then_active_keys(lib: PresetLibraryModel, binding: BindingId, keys: Seq<KeyCode>)
    requires
        spec_set_binding_keys(lib, binding, keys) is Ok,
    ensures
        spec_active(spec_set_binding_keys(lib, binding, keys)->Ok_0) matches Some(p)
            && spec_current_keys(spec_action_for(p.profile, binding)) == spec_normalized_keys(keys),
{
    let p = spec_active(lib)->0;
    let a = crate::shortcut::editing::spec_keyboard_action_from_keys(
        spec_action_for(p.profile, binding),
        binding,
        spec_normalized_keys(keys),
    )->Ok_0;
    lemma_active_after_profile_change(lib, with_binding(p.profile, binding, a));
}

/// Choosing no special behaviour keeps the keys a binding had and makes it a plain key action.
pub proof fn law_clearing_special_action_keeps_keys(lib: PresetLibraryModel, binding: BindingId)
    requires
        spec_set_binding_special_action(lib, binding, SpecialAction::NoAction) is Ok,
    ensures
        spec_active(spec_set_binding_special_action(lib, binding, SpecialAction::NoAction)->Ok_0) matches Some(p)
            && spec_current_keys(spec_action_for(p.profile, binding)) == spec_current_keys(
            spec_action_for(spec_active(lib)->0.profile, binding),
        ) && !(spec_action_for(p.profile, binding) is Advanced),
{
    let p = spec_active(lib)->0;
    let a = crate::shortcut::editing::spec_special_action_for_binding(
        spec_action_for(p.profile, binding),
        binding,
        SpecialAction::NoAction,
    )->Ok_0;
    lemma_active_after_profile_change(lib, with_binding(p.profile, binding, a));
}

/// After the shortcut settings are put in order, no profile holds an override
/// of the four-tap trigger or one that disables its binding, and a preset is in use.
pub proof fn law_normalized_shortcuts_are_clean(
    profile: ShortcutProfileModel,
    lib: PresetLibraryModel,
    binding: BindingId,
    i: int,
)
    ensures
        ({
            let (p2, lib2) = spec_normalize_shortcuts(profile, lib);
            &&& !p2.custom_bindings.contains_key(BindingId::StylusTrigger(StylusTrigger::FourTap))
            &&& p2.custom_bindings.contains_key(binding) ==> !(p2.custom_bindings[binding] is Disabled)
            &&& 0 <= i < lib2.presets.len() ==> !lib2.presets[i].profile.custom_bindings.contains_key(
                BindingId::StylusTrigger(StylusTrigger::FourTap),
            )
            &&& 0 <= i < lib2.presets.len() && lib2.presets[i].profile.custom_bindings.contains_key(
                binding,
            ) ==> !(lib2.presets[i].profile.custom_bindings[binding] is Disabled)
            &&& spec_active(lib2) is Some
        }),
{
    let cleaned = spec_clean_profile(profile);
    let repaired = spec_normalize(lib, cleaned);
    law_normalized_library_has_active(lib, cleaned);
    let lib2 = spec_normalize_shortcuts(profile, lib).1;
    assert(lib2.presets.len() == repaired.presets.len());
    lemma_first_none(repaired.presets, repaired.active_preset_id);
    let k = first_with_id(repaired.presets, repaired.active_preset_id)->0;
    assert forall|j: int| 0 <= j < k implies (#[trigger] lib2.presets[j]).id != lib2.active_preset_id by {
        assert(lib2.presets[j] == spec_clean_preset(repaired.presets[j]));
    }
    assert(lib2.presets[k] == spec_clean_preset(repaired.presets[k]));
    assert(is_first_with_id(lib2.presets, lib2.active_preset_id, k));
    lemma_first_is_unique(lib2.presets, lib2.active_preset_id, k);
    if 0 <= i < lib2.presets.len() {
        assert(lib2.presets[i] == spec_clean_preset(repaired.presets[i]));
    }
}

/// Every key's label names that key and no other, so reading a label back
/// gives the key it was written for.
pub proof fn law_key_label_round_trip(k: KeyCode)
    ensures
        spec_key_for_label(k.spec_label()@) == Some(k),
{
    let other = choose|o: KeyCode| o.spec_label()@ == k.spec_label()@;
    lemma_labels_distinct(k, other);
}

/// The stored key of every listed binding names that binding and no other,
/// so reading a stored key back gives the binding it was written for.
pub proof fn law_persisted_key_round_trip(b: BindingId)
    requires
        spec_all_bindings().contains(b),
    ensures
        spec_binding_for_key(b.spec_persisted_key()) == Some(b),
{
    let other = choose|o: BindingId|
        spec_all_bindings().contains(o) && o.spec_persisted_key() == b.spec_persisted_key();
    lemma_persisted_keys_distinct(b, other);
}

/// Removing a preset other than the one in use keeps the one in use: the
/// active identifier and the active preset stay as they were.
pub proof fn law_removing_another_preset_keeps_the_active_one(lib: PresetLibraryModel, id: Seq<char>)
    requires
        id != lib.active_preset_id,
    ensures
        spec_remove(lib, id).0.active_preset_id == lib.active_preset_id,
        spec_active(spec_remove(lib, id).0) == spec_active(lib),
{
    let a = lib.active_preset_id;
    let p = lib.presets;
    if id != default_preset_id() {
        match first_with_id(p, id) {
            Some(i) => {
                assert(is_first_with_id(p, id, i));
                let q = p.remove(i);
                match first_with_id(p, a) {
                    Some(j) => {
                        assert(is_first_with_id(p, a, j));
                        assert(j != i);
                        if j < i {
                            assert(q[j] == p[j]);
                            assert forall|k: int| 0 <= k < j implies (#[trigger] q[k]).id != a by {
                                assert(q[k] == p[k]);
                            }
                            assert(is_first_with_id(q, a, j));
                            lemma_first_is_unique(q, a, j);
                        } else {
                            assert(q[j - 1] == p[j]);
                            assert forall|k: int| 0 <= k < j - 1 implies (#[trigger] q[k]).id != a by {
                                if k < i {
                                    assert(q[k] == p[k]);
                                } else {
                                    assert(q[k] == p[k + 1]);
                                }
                            }
                            assert(is_first_with_id(q, a, j - 1));
                            lemma_first_is_unique(q, a, j - 1);
                        }
                    },
                    None => {
                        lemma_first_none(p, a);
                        if has_preset(q, a) {
                            let k = choose|k: int| 0 <= k < q.len() && (#[trigger] q[k]).id == a;
                            if k < i {
                                assert(q[k] == p[k]);
                            } else {
                                assert(q[k] == p[k + 1]);
                            }
                            assert(has_preset(p, a));
                        }
                        lemma_first_none(q, a);
                    },
                }
            },
            None => {},
        }
    }
}

/// Removing the preset in use selects the default preset.
pub proof fn law_removing_the_active_preset_selects_the_default(lib: PresetLibraryModel)
    requires
        spec_remove(lib, lib.active_preset_id).1,
    ensures
        spec_remove(lib, lib.active_preset_id).0.active_preset_id == default_preset_id(),
{
}

} // verus!
