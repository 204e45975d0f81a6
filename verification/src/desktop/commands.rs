use vstd::prelude::*;

use crate::shortcut::domain::{RadialInnerBindings, SpecialAction};
use crate::shortcut::keys::KeyCode;
use crate::text::{push_str, string_of};

verus! {

/// The desktop shell's request to give a binding a new set of keys.
#[derive(Debug, Clone, PartialEq, Eq)]
pub struct BindingKeysPayload {
    pub binding_id: String,
    pub keys: Vec<String>,
}

/// The desktop shell's request to give a binding a special action.
#[derive(Debug, Clone, PartialEq, Eq)]
pub struct BindingSpecialActionPayload {
    pub binding_id: String,
    pub special_action: String,
}

/// The desktop shell's request to bind an outer slot of the radial menu.
#[derive(Debug, Clone, PartialEq, Eq)]
pub struct RadialOuterSlotPayload {
    pub index: usize,
    pub keys: Vec<String>,
}

/// The desktop shell's request to bind the inner ring of the radial menu.
#[derive(Debug, Clone, PartialEq, Eq)]
pub struct RadialInnerBindingsPayload {
    pub top: String,
    pub right: String,
    pub bottom: String,
    pub left: String,
}

/// The desktop shell's request to switch the inner ring on or off.
#[derive(Debug, Clone, Copy, PartialEq, Eq)]
pub struct RadialInnerEnabledPayload {
    pub enabled: bool,
}

/// The desktop shell names a preset.
#[derive(Debug, Clone, PartialEq, Eq)]
pub struct PresetSelectionPayload {
    pub preset_id: String,
}

/// The desktop shell renames a preset.
#[derive(Debug, Clone, PartialEq, Eq)]
pub struct PresetNamePayload {
    pub preset_id: String,
    pub name: String,
}

/// The desktop shell creates a preset.
#[derive(Debug, Clone, PartialEq, Eq)]
pub struct CreatePresetPayload {
    pub name: String,
}

/// Some key is shown under this label.
pub open spec fn is_key_label(value: Seq<char>) -> bool {
    exists|k: KeyCode| (#[trigger] k.spec_label())@ == value
}

/// The message for a label that names no key.
pub open spec fn unknown_key_message(value: Seq<char>) -> Seq<char> {
    "unknown key code: "@ + value
}

/// The key shown under `value`, or the message the shell reports.
pub fn parse_key_code(value: &str) -> (r: Result<KeyCode, String>)
    ensures
        r matches Ok(k) ==> k.spec_label()@ == value@,
        r matches Err(m) ==> m@ == unknown_key_message(value@) && !is_key_label(value@),
        r is Ok <==> is_key_label(value@),
{
    match KeyCode::parse(value) {
        Some(key) => Ok(key),
        None => {
            let mut message = string_of("unknown key code: ");
            push_str(&mut message, value);
            Err(message)
        },
    }
}

/// The keys shown under `values`, in order, or the message for the first
/// label that names no key.
pub fn parse_key_codes(values: &Vec<String>) -> (r: Result<Vec<KeyCode>, String>)
    ensures
        r matches Ok(keys) ==> keys@.len() == values@.len() && forall|i: int|
            0 <= i < values@.len() ==> (#[trigger] keys@[i]).spec_label()@ == values@[i]@,
        r matches Err(m) ==> exists|i: int|
            0 <= i < values@.len() && !is_key_label(#[trigger] values@[i]@) && m@
                == unknown_key_message(values@[i]@) && forall|j: int|
                0 <= j < i ==> is_key_label(values@[j]@),
        r is Ok <==> forall|i: int| 0 <= i < values@.len() ==> is_key_label(#[trigger] values@[i]@),
{
    let mut keys: Vec<KeyCode> = Vec::new();
    let mut i: usize = 0;
    while i < values.len()
        invariant
            i <= values@.len(),
            keys@.len() == i,
            forall|j: int| 0 <= j < i ==> (#[trigger] keys@[j]).spec_label()@ == values@[j]@,
            forall|j: int| 0 <= j < i ==> is_key_label(#[trigger] values@[j]@),
        decreases values@.len() - i,
    {
        match parse_key_code(values[i].as_str()) {
            Ok(key) => {
                keys.push(key);
            },
            Err(message) => {
                assert(!is_key_label(values@[i as int]@));
                return Err(message);
            },
        }
        i = i + 1;
    }
    Ok(keys)
}

/// The inner-ring bindings the payload names, or the message for the first
/// label, in the order top, right, bottom, left, that names no key.
pub fn parse_radial_inner_bindings(payload: &RadialInnerBindingsPayload) -> (r: Result<RadialInnerBindings, String>)
    ensures
        r matches Ok(b) ==> b.top.spec_label()@ == payload.top@ && b.right.spec_label()@
            == payload.right@ && b.bottom.spec_label()@ == payload.bottom@
            && b.left.spec_label()@ == payload.left@,
        r matches Err(m) ==> {
            if !is_key_label(payload.top@) {
                m@ == unknown_key_message(payload.top@)
            } else if !is_key_label(payload.right@) {
                m@ == unknown_key_message(payload.right@)
            } else if !is_key_label(payload.bottom@) {
                m@ == unknown_key_message(payload.bottom@)
            } else {
                m@ == unknown_key_message(payload.left@) && !is_key_label(payload.left@)
            }
        },
        r is Ok <==> is_key_label(payload.top@) && is_key_label(payload.right@) && is_key_label(
            payload.bottom@,
        ) && is_key_label(payload.left@),
{
    let top = match parse_key_code(payload.top.as_str()) {
        Ok(k) => k,
        Err(m) => return Err(m),
    };
    let right = match parse_key_code(payload.right.as_str()) {
        Ok(k) => k,
        Err(m) => return Err(m),
    };
    let bottom = match parse_key_code(payload.bottom.as_str()) {
        Ok(k) => k,
        Err(m) => return Err(m),
    };
    let left = match parse_key_code(payload.left.as_str()) {
        Ok(k) => k,
        Err(m) => return Err(m),
    };
    Ok(RadialInnerBindings { top, bottom, left, right })
}

/// The message for a token that names no special action.
pub open spec fn unknown_special_action_message(value: Seq<char>) -> Seq<char> {
    "unknown special action: "@ + value
}

/// The special action the payload names, or the message the shell reports.
pub fn parse_special_action_payload(payload: &BindingSpecialActionPayload) -> (r: Result<SpecialAction, String>)
    ensures
        r matches Ok(a) ==> a.spec_token() == payload.special_action@,
        r matches Err(m) ==> m@ == unknown_special_action_message(payload.special_action@)
            && forall|a: SpecialAction| #[trigger] a.spec_token() != payload.special_action@,
{
    match SpecialAction::parse(payload.special_action.as_str()) {
        Some(action) => Ok(action),
        None => {
            let mut message = string_of("unknown special action: ");
            push_str(&mut message, payload.special_action.as_str());
            Err(message)
        },
    }
}

} // verus!
