use vstd::prelude::*;

use crate::error::{AppError, AppErrorModel};
use crate::shortcut::domain::{
    AdvancedAction, AdvancedActionModel, BindingId, GestureBinding, MouseButton, PointerAnchor,
    RadialInnerBindings, ShortcutAction, ShortcutActionModel, SpecialAction, StylusTrigger,
};
use crate::shortcut::domain::{
    push_binding_text, special_action_name, spec_binding_text, spec_special_action_name,
    RadialMenuModel, RadialOuterBinding,
};
use crate::shortcut::profile::{
    default_preset_id, first_with_id, has_preset, is_hyphenated_uuid_text, spec_action_for,
    spec_active, spec_create, spec_default_profile, spec_normalize, spec_remove, spec_rename,
    spec_reset, spec_select, spec_without_disabled, PresetLibraryModel, ShortcutPreset,
    ShortcutPresetLibrary, ShortcutPresetModel, ShortcutProfile, ShortcutProfileModel,
};
use crate::shortcut::keys::KeyCode;
use crate::text::{push_decimal_u64, push_str, spec_decimal, spec_trim, string_of, trim_text};

verus! {

/// Inserts `k` into `s` after every key whose rank is at most its own, so
/// keys of equal rank keep the order in which they came.
pub open spec fn insert_by_rank(k: KeyCode, s: Seq<KeyCode>) -> Seq<KeyCode>
    decreases s.len(),
{
    if s.len() == 0 {
        seq![k]
    } else if s.last().spec_sort_rank() <= k.spec_sort_rank() {
        s.push(k)
    } else {
        insert_by_rank(k, s.drop_last()).push(s.last())
    }
}

/// The keys in stable order of rank.
pub open spec fn sort_by_rank(s: Seq<KeyCode>) -> Seq<KeyCode>
    decreases s.len(),
{
    if s.len() == 0 {
        s
    } else {
        insert_by_rank(s.last(), sort_by_rank(s.drop_last()))
    }
}

/// The keys with every key equal to the one before it dropped.
pub open spec fn dedup_adjacent(s: Seq<KeyCode>) -> Seq<KeyCode>
    decreases s.len(),
{
    if s.len() <= 1 {
        s
    } else if s.last() == s[s.len() - 2] {
        dedup_adjacent(s.drop_last())
    } else {
        dedup_adjacent(s.drop_last()).push(s.last())
    }
}

/// A chord as it is stored: in order of rank, neighbours never equal.
pub open spec fn spec_normalized_keys(s: Seq<KeyCode>) -> Seq<KeyCode> {
    dedup_adjacent(sort_by_rank(s))
}

fn insert_key(s: &mut Vec<KeyCode>, k: KeyCode)
    ensures
        final(s)@ == insert_by_rank(k, old(s)@),
    decreases old(s)@.len(),
{
    if s.len() == 0 {
        s.push(k);
        return;
    }
    let last = s[s.len() - 1];
    if last.sort_rank() <= k.sort_rank() {
        s.push(k);
    } else {
        s.pop();
        proof {
            assert(s@ =~= old(s)@.drop_last());
        }
        insert_key(s, k);
        s.push(last);
    }
}

/// The keys in stable order of rank.
pub fn sort_keys_by_rank(keys: &Vec<KeyCode>) -> (r: Vec<KeyCode>)
    ensures
        r@ == sort_by_rank(keys@),
{
    let mut out: Vec<KeyCode> = Vec::new();
    let mut i: usize = 0;
    proof {
        assert(keys@.take(0) =~= Seq::<KeyCode>::empty());
    }
    while i < keys.len()
        invariant
            i <= keys@.len(),
            out@ == sort_by_rank(keys@.take(i as int)),
        decreases keys@.len() - i,
    {
        insert_key(&mut out, keys[i]);
        proof {
            let t = keys@.take(i as int + 1);
            assert(t.drop_last() =~= keys@.take(i as int));
            assert(t.last() == keys@[i as int]);
        }
        i = i + 1;
    }
    proof {
        assert(keys@.take(keys@.len() as int) =~= keys@);
    }
    out
}

/// The keys with every key equal to the one before it dropped.
pub fn dedup_keys(keys: &Vec<KeyCode>) -> (r: Vec<KeyCode>)
    ensures
        r@ == dedup_adjacent(keys@),
{
    let mut out: Vec<KeyCode> = Vec::new();
    let mut i: usize = 0;
    proof {
        assert(keys@.take(0) =~= Seq::<KeyCode>::empty());
    }
    while i < keys.len()
        invariant
            i <= keys@.len(),
            out@ == dedup_adjacent(keys@.take(i as int)),
        decreases keys@.len() - i,
    {
        proof {
            let t = keys@.take(i as int + 1);
            assert(t.drop_last() =~= keys@.take(i as int));
            assert(t.last() == keys@[i as int]);
            if i > 0 {
                assert(t[t.len() - 2] == keys@[i - 1]);
            }
        }
        if i == 0 || keys[i] != keys[i - 1] {
            out.push(keys[i]);
        }
        i = i + 1;
    }
    proof {
        assert(keys@.take(keys@.len() as int) =~= keys@);
    }
    out
}

/// Puts a chord in stored form, whatever keys it holds.
pub fn normalize_binding_keys(keys: Vec<KeyCode>) -> (r: Vec<KeyCode>)
    ensures
        r@ == spec_normalized_keys(keys@),
{
    let sorted = sort_keys_by_rank(&keys);
    dedup_keys(&sorted)
}

/// Puts a chord in stored form; a chord must hold at least one key.
pub fn normalize_keys(keys: Vec<KeyCode>) -> (r: Result<Vec<KeyCode>, AppError>)
    ensures
        match r {
            Ok(v) => keys@.len() > 0 && v@ == spec_normalized_keys(keys@),
            Err(e) => keys@.len() == 0 && e@ == AppErrorModel::DesktopShell(
                "shortcut keys cannot be empty"@,
            ),
        },
{
    if keys.len() == 0 {
        return Err(AppError::DesktopShell(string_of("shortcut keys cannot be empty")));
    }
    Ok(normalize_binding_keys(keys))
}

/// The four inner keys of the radial menu, clockwise from the top.
pub open spec fn inner_keys(inner: RadialInnerBindings) -> Seq<KeyCode> {
    seq![inner.top, inner.right, inner.bottom, inner.left]
}

/// Accepts inner bindings whose four keys stay four once in stored form.
pub fn validate_radial_inner_bindings(inner: &RadialInnerBindings) -> (r: Result<(), AppError>)
    ensures
        match r {
            Ok(()) => spec_normalized_keys(inner_keys(*inner)).len() == 4,
            Err(e) => spec_normalized_keys(inner_keys(*inner)).len() != 4 && e@
                == AppErrorModel::DesktopShell(
                "radial inner bindings must contain four distinct keys"@,
            ),
        },
{
    let keys = vec![inner.top, inner.right, inner.bottom, inner.left];
    proof {
        assert(keys@ =~= inner_keys(*inner));
    }
    let keys = normalize_binding_keys(keys);
    if keys.len() != 4 {
        return Err(
            AppError::DesktopShell(string_of("radial inner bindings must contain four distinct keys")),
        );
    }
    Ok(())
}

/// The keys an action presses or holds, if it has any.
pub open spec fn spec_current_keys(action: ShortcutActionModel) -> Seq<KeyCode> {
    match action {
        ShortcutActionModel::HoldKeys(keys) => keys,
        ShortcutActionModel::TriggerChord(keys) => keys,
        ShortcutActionModel::Advanced(AdvancedActionModel::PointerClick { keys, .. }) => keys,
        ShortcutActionModel::Advanced(AdvancedActionModel::PointerDrag { modifiers, .. }) => modifiers,
        ShortcutActionModel::Advanced(AdvancedActionModel::PointerWheel { modifiers }) => modifiers,
        ShortcutActionModel::Advanced(AdvancedActionModel::PointerRotate { modifiers }) => modifiers,
        _ => Seq::empty(),
    }
}

/// The error of a binding whose action cannot be edited.
pub open spec fn fixed_action_error() -> AppErrorModel {
    AppErrorModel::DesktopShell("this binding has a fixed system action"@)
}

/// The plain key action a binding gets for `keys`: continuous gestures hold
/// the keys, pen triggers and swipes tap them, and the four-tap trigger is fixed.
pub open spec fn spec_keyboard_action_without_special(binding: BindingId, keys: Seq<KeyCode>) -> Result<
    ShortcutActionModel,
    AppErrorModel,
> {
    match binding {
        BindingId::StylusTrigger(StylusTrigger::FourTap) => Err(fixed_action_error()),
        BindingId::Gesture(GestureBinding::LongPress { .. }) => Ok(ShortcutActionModel::HoldKeys(keys)),
        BindingId::Gesture(GestureBinding::TwoPan) => Ok(ShortcutActionModel::HoldKeys(keys)),
        BindingId::Gesture(GestureBinding::ThreePan) => Ok(ShortcutActionModel::HoldKeys(keys)),
        BindingId::Gesture(GestureBinding::TwoPinch) => Ok(ShortcutActionModel::HoldKeys(keys)),
        BindingId::Gesture(GestureBinding::TwoRotate) => Ok(ShortcutActionModel::HoldKeys(keys)),
        BindingId::StylusTrigger(_) => Ok(ShortcutActionModel::TriggerChord(keys)),
        BindingId::Gesture(GestureBinding::Swipe { .. }) => Ok(ShortcutActionModel::TriggerChord(keys)),
    }
}

/// The action a binding gets when its keys become `keys`: a pointer action
/// keeps its kind and takes the keys as its modifiers; anything else becomes
/// a plain key action.
pub open spec fn spec_keyboard_action_from_keys(
    current: ShortcutActionModel,
    binding: BindingId,
    keys: Seq<KeyCode>,
) -> Result<ShortcutActionModel, AppErrorModel> {
    match current {
        ShortcutActionModel::Advanced(AdvancedActionModel::PointerClick { button, anchor, .. }) => Ok(
            ShortcutActionModel::Advanced(AdvancedActionModel::PointerClick { keys, button, anchor }),
        ),
        ShortcutActionModel::Advanced(AdvancedActionModel::PointerDrag { button, .. }) => Ok(
            ShortcutActionModel::Advanced(AdvancedActionModel::PointerDrag { modifiers: keys, button }),
        ),
        ShortcutActionModel::Advanced(AdvancedActionModel::PointerWheel { .. }) => Ok(
            ShortcutActionModel::Advanced(AdvancedActionModel::PointerWheel { modifiers: keys }),
        ),
        ShortcutActionModel::Advanced(AdvancedActionModel::PointerRotate { .. }) => Ok(
            ShortcutActionModel::Advanced(AdvancedActionModel::PointerRotate { modifiers: keys }),
        ),
        _ => spec_keyboard_action_without_special(binding, keys),
    }
}

/// A tap trigger of the pen other than the fixed four-tap one.
pub open spec fn is_tap_trigger(binding: BindingId) -> bool {
    match binding {
        BindingId::StylusTrigger(StylusTrigger::Squeeze) => true,
        BindingId::StylusTrigger(StylusTrigger::DoubleTap) => true,
        BindingId::StylusTrigger(StylusTrigger::TwoTap) => true,
        BindingId::StylusTrigger(StylusTrigger::ThreeTap) => true,
        _ => false,
    }
}

/// A two- or three-finger pan.
pub open spec fn is_pan(binding: BindingId) -> bool {
    binding == BindingId::Gesture(GestureBinding::TwoPan) || binding == BindingId::Gesture(
        GestureBinding::ThreePan,
    )
}

/// Why a binding refuses a special behaviour, naming both, such as
/// `special action PointerWheel is not supported by Gesture(TwoRotate)`.
pub open spec fn unsupported_special_action_message(special: SpecialAction, binding: BindingId) -> Seq<char> {
    "special action "@ + spec_special_action_name(special) + " is not supported by "@
        + spec_binding_text(binding)
}

fn unsupported_special_action(special: SpecialAction, binding: BindingId) -> (r: AppError)
    ensures
        r@ == AppErrorModel::DesktopShell(unsupported_special_action_message(special, binding)),
{
    let mut message = string_of("special action ");
    push_str(&mut message, special_action_name(special));
    push_str(&mut message, " is not supported by ");
    push_binding_text(&mut message, binding);
    assert(message@ =~= unsupported_special_action_message(special, binding));
    AppError::DesktopShell(message)
}

/// Why a radial outer slot cannot be set: there are eight, counted from zero.
pub open spec fn radial_slot_out_of_range_message(index: usize) -> Seq<char> {
    "radial outer slot index out of range: "@ + spec_decimal(index as nat)
}

fn radial_slot_out_of_range(index: usize) -> (r: AppError)
    ensures
        r@ == AppErrorModel::DesktopShell(radial_slot_out_of_range_message(index)),
{
    let mut message = string_of("radial outer slot index out of range: ");
    push_decimal_u64(&mut message, index as u64);
    AppError::DesktopShell(message)
}

/// The action a binding gets when its special behaviour becomes `special`,
/// keeping the keys it had; `NoAction` returns to a plain key action, and a
/// behaviour the binding cannot have is refused.
pub open spec fn spec_special_action_for_binding(
    current: ShortcutActionModel,
    binding: BindingId,
    special: SpecialAction,
) -> Result<ShortcutActionModel, AppErrorModel> {
    let keys = spec_current_keys(current);
    let unsupported = Err(
        AppErrorModel::DesktopShell(unsupported_special_action_message(special, binding)),
    );
    match special {
        SpecialAction::NoAction => spec_keyboard_action_without_special(binding, keys),
        SpecialAction::PointerClickLeft => if is_tap_trigger(binding) {
            Ok(
                ShortcutActionModel::Advanced(
                    AdvancedActionModel::PointerClick {
                        keys,
                        button: MouseButton::Left,
                        anchor: PointerAnchor::CurrentHoverOrLastInRange,
                    },
                ),
            )
        } else {
            unsupported
        },
        SpecialAction::PointerClickRight => if is_tap_trigger(binding) {
            Ok(
                ShortcutActionModel::Advanced(
                    AdvancedActionModel::PointerClick {
                        keys,
                        button: MouseButton::Right,
                        anchor: PointerAnchor::CurrentHoverOrLastInRange,
                    },
                ),
            )
        } else {
            unsupported
        },
        SpecialAction::RadialMenu => if is_pan(binding) {
            Ok(ShortcutActionModel::Advanced(AdvancedActionModel::ReservedRadialMenu))
        } else {
            unsupported
        },
        SpecialAction::PointerMove => if is_pan(binding) {
            Ok(
                ShortcutActionModel::Advanced(
                    AdvancedActionModel::PointerDrag { modifiers: keys, button: None },
                ),
            )
        } else {
            unsupported
        },
        SpecialAction::PointerDragLeft => if is_pan(binding) {
            Ok(
                ShortcutActionModel::Advanced(
                    AdvancedActionModel::PointerDrag { modifiers: keys, button: Some(MouseButton::Left) },
                ),
            )
        } else {
            unsupported
        },
        SpecialAction::PointerDragRight => if is_pan(binding) {
            Ok(
                ShortcutActionModel::Advanced(
                    AdvancedActionModel::PointerDrag {
                        modifiers: keys,
                        button: Some(MouseButton::Right),
                    },
                ),
            )
        } else {
            unsupported
        },
        SpecialAction::PointerWheel => if binding == BindingId::Gesture(GestureBinding::TwoPinch) {
            Ok(ShortcutActionModel::Advanced(AdvancedActionModel::PointerWheel { modifiers: keys }))
        } else {
            unsupported
        },
        SpecialAction::PointerRotate => if binding == BindingId::Gesture(GestureBinding::TwoRotate) {
            Ok(ShortcutActionModel::Advanced(AdvancedActionModel::PointerRotate { modifiers: keys }))
        } else {
            unsupported
        },
    }
}

/// `r` holds `spec` with each side taken by its view.
pub open spec fn result_matches(
    r: Result<ShortcutAction, AppError>,
    spec: Result<ShortcutActionModel, AppErrorModel>,
) -> bool {
    match r {
        Ok(a) => spec == Ok::<ShortcutActionModel, AppErrorModel>(a@),
        Err(e) => spec == Err::<ShortcutActionModel, AppErrorModel>(e@),
    }
}

fn fixed_action() -> (e: AppError)
    ensures
        e@ == fixed_action_error(),
{
    AppError::DesktopShell(string_of("this binding has a fixed system action"))
}

/// The keys `binding` presses or holds under `profile`.
pub fn current_keys(profile: &ShortcutProfile, binding: BindingId) -> (r: Vec<KeyCode>)
    ensures
        r@ == spec_current_keys(spec_action_for(profile@, binding)),
{
    match profile.action_for(binding) {
        ShortcutAction::HoldKeys(keys) => keys,
        ShortcutAction::TriggerChord(keys) => keys,
        ShortcutAction::Advanced(AdvancedAction::PointerClick { keys, .. }) => keys,
        ShortcutAction::Advanced(AdvancedAction::PointerDrag { modifiers, .. }) => modifiers,
        ShortcutAction::Advanced(AdvancedAction::PointerWheel { modifiers }) => modifiers,
        ShortcutAction::Advanced(AdvancedAction::PointerRotate { modifiers }) => modifiers,
        _ => Vec::new(),
    }
}

pub fn keyboard_action_without_special(binding: BindingId, keys: Vec<KeyCode>) -> (r: Result<
    ShortcutAction,
    AppError,
>)
    ensures
        result_matches(r, spec_keyboard_action_without_special(binding, keys@)),
{
    match binding {
        BindingId::StylusTrigger(StylusTrigger::FourTap) => Err(fixed_action()),
        BindingId::Gesture(GestureBinding::LongPress { .. }) => Ok(ShortcutAction::HoldKeys(keys)),
        BindingId::Gesture(GestureBinding::TwoPan) => Ok(ShortcutAction::HoldKeys(keys)),
        BindingId::Gesture(GestureBinding::ThreePan) => Ok(ShortcutAction::HoldKeys(keys)),
        BindingId::Gesture(GestureBinding::TwoPinch) => Ok(ShortcutAction::HoldKeys(keys)),
        BindingId::Gesture(GestureBinding::TwoRotate) => Ok(ShortcutAction::HoldKeys(keys)),
        BindingId::StylusTrigger(_) => Ok(ShortcutAction::TriggerChord(keys)),
        BindingId::Gesture(GestureBinding::Swipe { .. }) => Ok(ShortcutAction::TriggerChord(keys)),
    }
}

/// The action `binding` gets under `profile` when its keys become `keys`.
pub fn keyboard_action_from_keys(profile: &ShortcutProfile, binding: BindingId, keys: Vec<KeyCode>) -> (r: Result<
    ShortcutAction,
    AppError,
>)
    ensures
        result_matches(
            r,
            spec_keyboard_action_from_keys(spec_action_for(profile@, binding), binding, keys@),
        ),
{
    match profile.action_for(binding) {
        ShortcutAction::Advanced(AdvancedAction::PointerClick { button, anchor, .. }) => Ok(
            ShortcutAction::Advanced(AdvancedAction::PointerClick { keys, button, anchor }),
        ),
        ShortcutAction::Advanced(AdvancedAction::PointerDrag { button, .. }) => Ok(
            ShortcutAction::Advanced(AdvancedAction::PointerDrag { modifiers: keys, button }),
        ),
        ShortcutAction::Advanced(AdvancedAction::PointerWheel { .. }) => Ok(
            ShortcutAction::Advanced(AdvancedAction::PointerWheel { modifiers: keys }),
        ),
        ShortcutAction::Advanced(AdvancedAction::PointerRotate { .. }) => Ok(
            ShortcutAction::Advanced(AdvancedAction::PointerRotate { modifiers: keys }),
        ),
        _ => keyboard_action_without_special(binding, keys),
    }
}

fn tap_trigger(binding: BindingId) -> (r: bool)
    ensures
        r == is_tap_trigger(binding),
{
    match binding {
        BindingId::StylusTrigger(StylusTrigger::Squeeze) => true,
        BindingId::StylusTrigger(StylusTrigger::DoubleTap) => true,
        BindingId::StylusTrigger(StylusTrigger::TwoTap) => true,
        BindingId::StylusTrigger(StylusTrigger::ThreeTap) => true,
        _ => false,
    }
}

fn pan(binding: BindingId) -> (r: bool)
    ensures
        r == is_pan(binding),
{
    binding == BindingId::Gesture(GestureBinding::TwoPan) || binding == BindingId::Gesture(
        GestureBinding::ThreePan,
    )
}

/// The action `binding` gets under `profile` when its special behaviour becomes `special_action`.
pub fn special_action_for_binding(
    profile: &ShortcutProfile,
    binding: BindingId,
    special_action: SpecialAction,
) -> (r: Result<ShortcutAction, AppError>)
    ensures
        result_matches(
            r,
            spec_special_action_for_binding(spec_action_for(profile@, binding), binding, special_action),
        ),
{
    let keys = current_keys(profile, binding);
    let unsupported = unsupported_special_action(special_action, binding);
    let action = match special_action {
        SpecialAction::NoAction => {
            return keyboard_action_without_special(binding, keys);
        },
        SpecialAction::PointerClickLeft => {
            if !tap_trigger(binding) {
                return Err(unsupported);
            }
            AdvancedAction::PointerClick {
                keys,
                button: MouseButton::Left,
                anchor: PointerAnchor::CurrentHoverOrLastInRange,
            }
        },
        SpecialAction::PointerClickRight => {
            if !tap_trigger(binding) {
                return Err(unsupported);
            }
            AdvancedAction::PointerClick {
                keys,
                button: MouseButton::Right,
                anchor: PointerAnchor::CurrentHoverOrLastInRange,
            }
        },
        SpecialAction::RadialMenu => {
            if !pan(binding) {
                return Err(unsupported);
            }
            AdvancedAction::ReservedRadialMenu
        },
        SpecialAction::PointerMove => {
            if !pan(binding) {
                return Err(unsupported);
            }
            AdvancedAction::PointerDrag { modifiers: keys, button: None }
        },
        SpecialAction::PointerDragLeft => {
            if !pan(binding) {
                return Err(unsupported);
            }
            AdvancedAction::PointerDrag { modifiers: keys, button: Some(MouseButton::Left) }
        },
        SpecialAction::PointerDragRight => {
            if !pan(binding) {
                return Err(unsupported);
            }
            AdvancedAction::PointerDrag { modifiers: keys, button: Some(MouseButton::Right) }
        },
        SpecialAction::PointerWheel => {
            if binding != BindingId::Gesture(GestureBinding::TwoPinch) {
                return Err(unsupported);
            }
            AdvancedAction::PointerWheel { modifiers: keys }
        },
        SpecialAction::PointerRotate => {
            if binding != BindingId::Gesture(GestureBinding::TwoRotate) {
                return Err(unsupported);
            }
            AdvancedAction::PointerRotate { modifiers: keys }
        },
    };
    Ok(ShortcutAction::Advanced(action))
}

/// The error of a library whose active identifier names no preset.
pub open spec fn active_missing_error() -> AppErrorModel {
    AppErrorModel::ShortcutPreset("active preset is missing from preset library"@)
}

/// The library with the profile of the active preset replaced by `profile`.
pub open spec fn with_active_profile(lib: PresetLibraryModel, profile: ShortcutProfileModel) -> PresetLibraryModel {
    let i = first_with_id(lib.presets, lib.active_preset_id)->0;
    PresetLibraryModel {
        presets: lib.presets.update(i, ShortcutPresetModel { profile, ..lib.presets[i] }),
        ..lib
    }
}

/// The active profile with `binding` overridden by `action`.
pub open spec fn with_binding(profile: ShortcutProfileModel, binding: BindingId, action: ShortcutActionModel) -> ShortcutProfileModel {
    ShortcutProfileModel {
        custom_bindings: profile.custom_bindings.insert(binding, action),
        ..profile
    }
}

/// The active profile with its radial menu replaced.
pub open spec fn with_radial_menu(profile: ShortcutProfileModel, menu: RadialMenuModel) -> ShortcutProfileModel {
    ShortcutProfileModel { radial_menu: menu, ..profile }
}

/// Setting the keys of `binding` in the active preset.
pub open spec fn spec_set_binding_keys(lib: PresetLibraryModel, binding: BindingId, keys: Seq<KeyCode>) -> Result<
    PresetLibraryModel,
    AppErrorModel,
> {
    match spec_active(lib) {
        None => Err(active_missing_error()),
        Some(p) => match spec_keyboard_action_from_keys(
            spec_action_for(p.profile, binding),
            binding,
            spec_normalized_keys(keys),
        ) {
            Ok(a) => Ok(with_active_profile(lib, with_binding(p.profile, binding, a))),
            Err(e) => Err(e),
        },
    }
}

/// Setting the special behaviour of `binding` in the active preset.
pub open spec fn spec_set_binding_special_action(
    lib: PresetLibraryModel,
    binding: BindingId,
    special: SpecialAction,
) -> Result<PresetLibraryModel, AppErrorModel> {
    match spec_active(lib) {
        None => Err(active_missing_error()),
        Some(p) => match spec_special_action_for_binding(
            spec_action_for(p.profile, binding),
            binding,
            special,
        ) {
            Ok(a) => Ok(with_active_profile(lib, with_binding(p.profile, binding, a))),
            Err(e) => Err(e),
        },
    }
}

/// Setting the chord of outer slot `index` of the radial menu of the active preset.
pub open spec fn spec_set_radial_outer_binding(lib: PresetLibraryModel, index: usize, keys: Seq<KeyCode>) -> Result<
    PresetLibraryModel,
    AppErrorModel,
> {
    if keys.len() == 0 {
        Err(AppErrorModel::DesktopShell("shortcut keys cannot be empty"@))
    } else {
        match spec_active(lib) {
            None => Err(active_missing_error()),
            Some(p) => if index < 8 {
                let menu = p.profile.radial_menu;
                Ok(
                    with_active_profile(
                        lib,
                        with_radial_menu(
                            p.profile,
                            RadialMenuModel {
                                outer: menu.outer.update(index as int, spec_normalized_keys(keys)),
                                ..menu
                            },
                        ),
                    ),
                )
            } else {
                Err(AppErrorModel::DesktopShell(radial_slot_out_of_range_message(index)))
            },
        }
    }
}

/// Setting the inner keys of the radial menu of the active preset.
pub open spec fn spec_set_radial_inner_bindings(lib: PresetLibraryModel, inner: RadialInnerBindings) -> Result<
    PresetLibraryModel,
    AppErrorModel,
> {
    if spec_normalized_keys(inner_keys(inner)).len() != 4 {
        Err(AppErrorModel::DesktopShell("radial inner bindings must contain four distinct keys"@))
    } else {
        match spec_active(lib) {
            None => Err(active_missing_error()),
            Some(p) => Ok(
                with_active_profile(
                    lib,
                    with_radial_menu(p.profile, RadialMenuModel { inner, ..p.profile.radial_menu }),
                ),
            ),
        }
    }
}

/// Turning the inner ring of the radial menu of the active preset on or off.
pub open spec fn spec_set_radial_inner_enabled(lib: PresetLibraryModel, enabled: bool) -> Result<
    PresetLibraryModel,
    AppErrorModel,
> {
    match spec_active(lib) {
        None => Err(active_missing_error()),
        Some(p) => Ok(
            with_active_profile(
                lib,
                with_radial_menu(
                    p.profile,
                    RadialMenuModel { inner_enabled: enabled, ..p.profile.radial_menu },
                ),
            ),
        ),
    }
}

/// The library after an edit: the new one on success, the old one on an error.
pub open spec fn edit_outcome(
    r: Result<(), AppError>,
    old_lib: PresetLibraryModel,
    new_lib: PresetLibraryModel,
    spec: Result<PresetLibraryModel, AppErrorModel>,
) -> bool {
    match r {
        Ok(()) => spec == Ok::<PresetLibraryModel, AppErrorModel>(new_lib),
        Err(e) => spec == Err::<PresetLibraryModel, AppErrorModel>(e@) && new_lib == old_lib,
    }
}

fn active_missing() -> (e: AppError)
    ensures
        e@ == active_missing_error(),
{
    AppError::ShortcutPreset(string_of("active preset is missing from preset library"))
}

/// Sets the keys of `binding` in the active preset; see [`spec_set_binding_keys`].
pub fn set_binding_keys(presets: &mut ShortcutPresetLibrary, binding: BindingId, keys: Vec<KeyCode>) -> (r: Result<
    (),
    AppError,
>)
    ensures
        edit_outcome(r, old(presets)@, final(presets)@, spec_set_binding_keys(old(presets)@, binding, keys@)),
{
    let keys = normalize_binding_keys(keys);
    let action = match presets.active() {
        None => {
            return Err(active_missing());
        },
        Some(preset) => keyboard_action_from_keys(&preset.profile, binding, keys),
    };
    match action {
        Err(e) => Err(e),
        Ok(action) => {
            apply_to_active(presets, binding, action);
            Ok(())
        },
    }
}

/// Overrides `binding` by `action` in the active preset, which must exist.
fn apply_to_active(presets: &mut ShortcutPresetLibrary, binding: BindingId, action: ShortcutAction)
    requires
        spec_active(old(presets)@) is Some,
    ensures
        final(presets)@ == with_active_profile(
            old(presets)@,
            with_binding(spec_active(old(presets)@)->0.profile, binding, action@),
        ),
{
    let ghost lib = presets@;
    match presets.active_mut() {
        None => {},
        Some(preset) => {
            preset.profile.set_custom_binding(binding, action);
            proof {
                assert(presets@.presets =~= with_active_profile(
                    lib,
                    with_binding(spec_active(lib)->0.profile, binding, action@),
                ).presets);
            }
        },
    }
}

/// Replaces the radial menu of the active preset, which must exist.
fn apply_menu_to_active(presets: &mut ShortcutPresetLibrary, menu: crate::shortcut::domain::RadialMenuConfig)
    requires
        spec_active(old(presets)@) is Some,
    ensures
        final(presets)@ == with_active_profile(
            old(presets)@,
            with_radial_menu(spec_active(old(presets)@)->0.profile, menu@),
        ),
{
    let ghost lib = presets@;
    match presets.active_mut() {
        None => {},
        Some(preset) => {
            preset.profile.set_radial_menu(menu);
            proof {
                assert(presets@.presets =~= with_active_profile(
                    lib,
                    with_radial_menu(spec_active(lib)->0.profile, menu@),
                ).presets);
            }
        },
    }
}

/// Sets the special behaviour of `binding` in the active preset; see
/// [`spec_set_binding_special_action`].
pub fn set_binding_special_action(
    presets: &mut ShortcutPresetLibrary,
    binding: BindingId,
    special_action: SpecialAction,
) -> (r: Result<(), AppError>)
    ensures
        edit_outcome(
            r,
            old(presets)@,
            final(presets)@,
            spec_set_binding_special_action(old(presets)@, binding, special_action),
        ),
{
    let action = match presets.active() {
        None => {
            return Err(active_missing());
        },
        Some(preset) => special_action_for_binding(&preset.profile, binding, special_action),
    };
    match action {
        Err(e) => Err(e),
        Ok(action) => {
            apply_to_active(presets, binding, action);
            Ok(())
        },
    }
}

/// Sets the chord of an outer slot of the radial menu of the active preset;
/// see [`spec_set_radial_outer_binding`].
pub fn set_radial_outer_binding(presets: &mut ShortcutPresetLibrary, index: usize, keys: Vec<KeyCode>) -> (r: Result<
    (),
    AppError,
>)
    ensures
        edit_outcome(
            r,
            old(presets)@,
            final(presets)@,
            spec_set_radial_outer_binding(old(presets)@, index, keys@),
        ),
{
    let keys = match normalize_keys(keys) {
        Ok(k) => k,
        Err(e) => {
            return Err(e);
        },
    };
    let mut menu = match presets.active() {
        None => {
            return Err(active_missing());
        },
        Some(preset) => preset.profile.radial_menu().duplicate(),
    };
    if index >= 8 {
        return Err(radial_slot_out_of_range(index));
    }
    let ghost before = menu@;
    menu.outer[index] = RadialOuterBinding::new(keys);
    proof {
        assert(menu@.outer =~= before.outer.update(index as int, menu.outer@[index as int].keys@));
    }
    apply_menu_to_active(presets, menu);
    Ok(())
}

/// Sets the inner keys of the radial menu of the active preset; see
/// [`spec_set_radial_inner_bindings`].
pub fn set_radial_inner_bindings(presets: &mut ShortcutPresetLibrary, inner: RadialInnerBindings) -> (r: Result<
    (),
    AppError,
>)
    ensures
        edit_outcome(
            r,
            old(presets)@,
            final(presets)@,
            spec_set_radial_inner_bindings(old(presets)@, inner),
        ),
{
    match validate_radial_inner_bindings(&inner) {
        Ok(()) => {},
        Err(e) => {
            return Err(e);
        },
    }
    let mut menu = match presets.active() {
        None => {
            return Err(active_missing());
        },
        Some(preset) => preset.profile.radial_menu().duplicate(),
    };
    menu.inner = inner;
    apply_menu_to_active(presets, menu);
    Ok(())
}

/// Turns the inner ring of the radial menu of the active preset on or off.
pub fn set_radial_inner_enabled(presets: &mut ShortcutPresetLibrary, enabled: bool) -> (r: Result<
    (),
    AppError,
>)
    ensures
        edit_outcome(
            r,
            old(presets)@,
            final(presets)@,
            spec_set_radial_inner_enabled(old(presets)@, enabled),
        ),
{
    let mut menu = match presets.active() {
        None => {
            return Err(active_missing());
        },
        Some(preset) => preset.profile.radial_menu().duplicate(),
    };
    menu.inner_enabled = enabled;
    apply_menu_to_active(presets, menu);
    Ok(())
}

/// The error for a preset identifier the library does not hold.
pub open spec fn unknown_preset_error(id: Seq<char>) -> AppErrorModel {
    AppErrorModel::ShortcutPreset("unknown preset id: "@ + id)
}

/// The error for a preset name that is blank.
pub open spec fn empty_name_error() -> AppErrorModel {
    AppErrorModel::ShortcutPreset("preset name cannot be empty"@)
}

fn unknown_preset(id: &str) -> (e: AppError)
    ensures
        e@ == unknown_preset_error(id@),
{
    let mut message = string_of("unknown preset id: ");
    push_str(&mut message, id);
    AppError::ShortcutPreset(message)
}

fn empty_name() -> (e: AppError)
    ensures
        e@ == empty_name_error(),
{
    AppError::ShortcutPreset(string_of("preset name cannot be empty"))
}

/// Selects the preset `preset_id`; an unknown identifier is an error.
pub fn select_shortcut_preset(presets: &mut ShortcutPresetLibrary, preset_id: &str) -> (r: Result<
    (),
    AppError,
>)
    ensures
        final(presets)@ == spec_select(old(presets)@, preset_id@).0,
        r is Ok <==> spec_select(old(presets)@, preset_id@).1,
        r matches Err(e) ==> e@ == unknown_preset_error(preset_id@),
{
    if presets.select(preset_id) {
        Ok(())
    } else {
        Err(unknown_preset(preset_id))
    }
}

/// Creates and selects a preset named `name` with its surrounding whitespace
/// removed; a blank name is an error and leaves the library as it was.
pub fn create_shortcut_preset(presets: &mut ShortcutPresetLibrary, name: String) -> (r: Result<
    ShortcutPreset,
    AppError,
>)
    ensures
        spec_trim(name@).len() == 0 ==> (r matches Err(e) && e@ == empty_name_error()
            && final(presets)@ == old(presets)@),
        spec_trim(name@).len() > 0 ==> (r matches Ok(p) && is_hyphenated_uuid_text(p@.id)
            && final(presets)@ == spec_create(old(presets)@, spec_trim(name@), p@.id)
            && spec_active(final(presets)@) == Some(p@)),
{
    let trimmed = trim_text(name.as_str());
    if trimmed.is_empty() {
        return Err(empty_name());
    }
    let created = presets.create(string_of(trimmed));
    Ok(created.duplicate())
}

/// Renames the preset `preset_id` to `name` with its surrounding whitespace
/// removed; a blank name or an unknown identifier is an error.
pub fn rename_shortcut_preset(presets: &mut ShortcutPresetLibrary, preset_id: &str, name: String) -> (r: Result<
    (),
    AppError,
>)
    ensures
        spec_trim(name@).len() == 0 ==> (r matches Err(e) && e@ == empty_name_error()
            && final(presets)@ == old(presets)@),
        spec_trim(name@).len() > 0 ==> {
            &&& final(presets)@ == spec_rename(old(presets)@, preset_id@, spec_trim(name@)).0
            &&& r is Ok <==> spec_rename(old(presets)@, preset_id@, spec_trim(name@)).1
            &&& r matches Err(e) ==> e@ == unknown_preset_error(preset_id@)
        },
{
    let trimmed = trim_text(name.as_str());
    if trimmed.is_empty() {
        return Err(empty_name());
    }
    if presets.rename(preset_id, string_of(trimmed)) {
        Ok(())
    } else {
        Err(unknown_preset(preset_id))
    }
}

/// Deletes the preset `preset_id`; the default preset and unknown
/// identifiers are errors.
pub fn delete_shortcut_preset(presets: &mut ShortcutPresetLibrary, preset_id: &str) -> (r: Result<
    (),
    AppError,
>)
    ensures
        preset_id@ == default_preset_id() ==> (r matches Err(e) && e@
            == AppErrorModel::ShortcutPreset("default preset cannot be deleted"@) && final(presets)@
            == old(presets)@),
        preset_id@ != default_preset_id() ==> {
            &&& final(presets)@ == spec_remove(old(presets)@, preset_id@).0
            &&& r is Ok <==> spec_remove(old(presets)@, preset_id@).1
            &&& r matches Err(e) ==> e@ == unknown_preset_error(preset_id@)
        },
{
    proof {
        reveal_strlit("default");
    }
    if crate::text::str_eq(preset_id, "default") {
        return Err(AppError::ShortcutPreset(string_of("default preset cannot be deleted")));
    }
    if presets.remove(preset_id) {
        Ok(())
    } else {
        Err(unknown_preset(preset_id))
    }
}

/// Restores the factory profile of the preset `preset_id`; an unknown
/// identifier is an error.
pub fn reset_shortcut_preset(presets: &mut ShortcutPresetLibrary, preset_id: &str) -> (r: Result<
    (),
    AppError,
>)
    ensures
        final(presets)@ == spec_reset(old(presets)@, preset_id@).0,
        r is Ok <==> spec_reset(old(presets)@, preset_id@).1,
        r matches Err(e) ==> e@ == unknown_preset_error(preset_id@),
{
    if presets.reset(preset_id) {
        Ok(())
    } else {
        Err(unknown_preset(preset_id))
    }
}

/// A profile without overrides that disable a binding or touch the fixed four-tap trigger.
pub open spec fn spec_clean_profile(p: ShortcutProfileModel) -> ShortcutProfileModel {
    ShortcutProfileModel {
        custom_bindings: spec_without_disabled(p.custom_bindings).remove(
            BindingId::StylusTrigger(StylusTrigger::FourTap),
        ),
        ..p
    }
}

/// The preset with its profile cleaned.
pub open spec fn spec_clean_preset(p: ShortcutPresetModel) -> ShortcutPresetModel {
    ShortcutPresetModel { profile: spec_clean_profile(p.profile), ..p }
}

/// The shortcut part of a loaded configuration put in order: the current
/// profile and every preset are cleaned, the library is repaired with the
/// cleaned profile as its legacy profile, and the current profile becomes
/// that of the active preset if there is one.
pub open spec fn spec_normalize_shortcuts(profile: ShortcutProfileModel, lib: PresetLibraryModel) -> (
    ShortcutProfileModel,
    PresetLibraryModel,
) {
    let cleaned = spec_clean_profile(profile);
    let repaired = spec_normalize(lib, cleaned);
    let lib2 = PresetLibraryModel {
        presets: repaired.presets.map_values(|p: ShortcutPresetModel| spec_clean_preset(p)),
        ..repaired
    };
    (
        match spec_active(lib2) {
            Some(p) => p.profile,
            None => cleaned,
        },
        lib2,
    )
}

fn clean_profile(profile: &mut ShortcutProfile)
    ensures
        final(profile)@ == spec_clean_profile(old(profile)@),
{
    profile.remove_disabled_overrides();
    profile.remove_fixed_binding_overrides();
}

/// Puts the shortcut part of a loaded configuration in order; see [`spec_normalize_shortcuts`].
pub fn normalize_shortcuts(profile: &mut ShortcutProfile, presets: &mut ShortcutPresetLibrary)
    ensures
        (final(profile)@, final(presets)@) == spec_normalize_shortcuts(old(profile)@, old(presets)@),
{
    clean_profile(profile);
    presets.normalize_with_legacy(profile);
    let ghost repaired = presets@;
    let mut i: usize = 0;
    proof {
        assert forall|j: int| 0 <= j < presets.presets@.len() implies (#[trigger] presets.presets@[j])@
            == repaired.presets[j] by {}
    }
    while i < presets.presets.len()
        invariant
            i <= presets.presets@.len(),
            presets.presets@.len() == repaired.presets.len(),
            presets@.active_preset_id == repaired.active_preset_id,
            forall|j: int|
                0 <= j < i ==> (#[trigger] presets.presets@[j])@ == spec_clean_preset(
                    repaired.presets[j],
                ),
            forall|j: int|
                i <= j < presets.presets@.len() ==> (#[trigger] presets.presets@[j])@
                    == repaired.presets[j],
        decreases presets.presets@.len() - i,
    {
        let ghost before = presets.presets@;
        clean_profile(&mut presets.presets[i].profile);
        proof {
            assert forall|j: int| 0 <= j < before.len() && j != i implies presets.presets@[j]
                == before[j] by {}
            assert(presets.presets@[i as int].id == before[i as int].id);
            assert(presets.presets@[i as int].name == before[i as int].name);
            assert(before[i as int]@ == repaired.presets[i as int]);
        }
        i = i + 1;
    }
    proof {
        assert(presets@.presets =~= repaired.presets.map_values(
            |p: ShortcutPresetModel| spec_clean_preset(p),
        ));
    }
    match presets.active() {
        Some(active) => {
            *profile = active.profile.duplicate();
        },
        None => {},
    }
}

} // verus!
