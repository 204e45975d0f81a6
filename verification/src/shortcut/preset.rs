use vstd::prelude::*;

use crate::shortcut::domain::{
    AdvancedAction, AdvancedActionModel, BindingId, GestureBinding, MouseButton, PointerAnchor,
    ShortcutAction, ShortcutActionModel, StylusTrigger, SwipeAxis,
};
use crate::shortcut::keys::KeyCode;

verus! {

/// The factory mapping from bindings to actions.
#[derive(Debug, Default, Clone, Copy)]
pub struct DefaultPreset;

/// The key held by a long press with a finger count the factory mapping does not list.
pub open spec fn spec_long_press_key(fingers: u8) -> KeyCode {
    if fingers == 1 {
        KeyCode::Alt
    } else if fingers == 2 {
        KeyCode::Space
    } else if fingers == 3 {
        KeyCode::Shift
    } else {
        KeyCode::Control
    }
}

/// The key a swipe along `axis` taps.
pub open spec fn spec_swipe_key(axis: SwipeAxis) -> KeyCode {
    match axis {
        SwipeAxis::Horizontal => KeyCode::E,
        SwipeAxis::Vertical => KeyCode::B,
    }
}

/// A right click at the pen with no keys held.
pub open spec fn spec_secondary_click() -> ShortcutActionModel {
    ShortcutActionModel::Advanced(
        AdvancedActionModel::PointerClick {
            keys: Seq::empty(),
            button: MouseButton::Right,
            anchor: PointerAnchor::CurrentHoverOrLastInRange,
        },
    )
}

/// What the factory mapping does for each binding.
pub open spec fn spec_default_action(binding: BindingId) -> ShortcutActionModel {
    match binding {
        BindingId::StylusTrigger(StylusTrigger::Squeeze) => spec_secondary_click(),
        BindingId::StylusTrigger(StylusTrigger::DoubleTap) => spec_secondary_click(),
        BindingId::StylusTrigger(StylusTrigger::TwoTap) => ShortcutActionModel::TriggerChord(
            seq![KeyCode::Control, KeyCode::Z],
        ),
        BindingId::StylusTrigger(StylusTrigger::ThreeTap) => ShortcutActionModel::TriggerChord(
            seq![KeyCode::Control, KeyCode::Shift, KeyCode::Z],
        ),
        BindingId::StylusTrigger(StylusTrigger::FourTap) => ShortcutActionModel::Advanced(
            AdvancedActionModel::ReleaseActiveKeys,
        ),
        BindingId::Gesture(GestureBinding::TwoPan) => ShortcutActionModel::Advanced(
            AdvancedActionModel::ReservedRadialMenu,
        ),
        BindingId::Gesture(GestureBinding::ThreePan) => ShortcutActionModel::Advanced(
            AdvancedActionModel::PointerDrag {
                modifiers: seq![KeyCode::Alt],
                button: Some(MouseButton::Right),
            },
        ),
        BindingId::Gesture(GestureBinding::TwoPinch) => ShortcutActionModel::Advanced(
            AdvancedActionModel::PointerWheel { modifiers: seq![KeyCode::Alt] },
        ),
        BindingId::Gesture(GestureBinding::TwoRotate) => ShortcutActionModel::TriggerChord(
            seq![KeyCode::R],
        ),
        BindingId::Gesture(GestureBinding::LongPress { fingers }) => ShortcutActionModel::HoldKeys(
            seq![spec_long_press_key(fingers)],
        ),
        BindingId::Gesture(GestureBinding::Swipe { axis, .. }) => ShortcutActionModel::TriggerChord(
            seq![spec_swipe_key(axis)],
        ),
    }
}

fn long_press_fallback_key(fingers: u8) -> (r: KeyCode)
    ensures
        r == spec_long_press_key(fingers),
{
    match fingers {
        1 => KeyCode::Alt,
        2 => KeyCode::Space,
        3 => KeyCode::Shift,
        _ => KeyCode::Control,
    }
}

fn swipe_fallback_key(axis: SwipeAxis) -> (r: KeyCode)
    ensures
        r == spec_swipe_key(axis),
{
    match axis {
        SwipeAxis::Horizontal => KeyCode::E,
        SwipeAxis::Vertical => KeyCode::B,
    }
}

fn secondary_click() -> (r: ShortcutAction)
    ensures
        r@ == spec_secondary_click(),
{
    let keys: Vec<KeyCode> = Vec::new();
    let r = ShortcutAction::Advanced(
        AdvancedAction::PointerClick {
            keys,
            button: MouseButton::Right,
            anchor: PointerAnchor::CurrentHoverOrLastInRange,
        },
    );
    assert(r@ == spec_secondary_click()) by {
        assert(keys@ =~= Seq::<KeyCode>::empty());
    }
    r
}

fn one_key(k: KeyCode) -> (r: Vec<KeyCode>)
    ensures
        r@ == seq![k],
{
    let r = vec![k];
    assert(r@ =~= seq![k]);
    r
}

impl DefaultPreset {
    pub fn action_for(&self, binding: BindingId) -> (r: ShortcutAction)
        ensures
            r@ == spec_default_action(binding),
    {
        match binding {
            BindingId::StylusTrigger(StylusTrigger::Squeeze) => secondary_click(),
            BindingId::StylusTrigger(StylusTrigger::DoubleTap) => secondary_click(),
            BindingId::StylusTrigger(StylusTrigger::TwoTap) => {
                let keys = vec![KeyCode::Control, KeyCode::Z];
                assert(keys@ =~= seq![KeyCode::Control, KeyCode::Z]);
                ShortcutAction::TriggerChord(keys)
            },
            BindingId::StylusTrigger(StylusTrigger::ThreeTap) => {
                let keys = vec![KeyCode::Control, KeyCode::Shift, KeyCode::Z];
                assert(keys@ =~= seq![KeyCode::Control, KeyCode::Shift, KeyCode::Z]);
                ShortcutAction::TriggerChord(keys)
            },
            BindingId::StylusTrigger(StylusTrigger::FourTap) => ShortcutAction::Advanced(
                AdvancedAction::ReleaseActiveKeys,
            ),
            BindingId::Gesture(GestureBinding::TwoPan) => ShortcutAction::Advanced(
                AdvancedAction::ReservedRadialMenu,
            ),
            BindingId::Gesture(GestureBinding::ThreePan) => ShortcutAction::Advanced(
                AdvancedAction::PointerDrag {
                    modifiers: one_key(KeyCode::Alt),
                    button: Some(MouseButton::Right),
                },
            ),
            BindingId::Gesture(GestureBinding::TwoPinch) => ShortcutAction::Advanced(
                AdvancedAction::PointerWheel { modifiers: one_key(KeyCode::Alt) },
            ),
            BindingId::Gesture(GestureBinding::TwoRotate) => ShortcutAction::TriggerChord(
                one_key(KeyCode::R),
            ),
            BindingId::Gesture(GestureBinding::LongPress { fingers }) => ShortcutAction::HoldKeys(
                one_key(long_press_fallback_key(fingers)),
            ),
            BindingId::Gesture(GestureBinding::Swipe { axis, .. }) => ShortcutAction::TriggerChord(
                one_key(swipe_fallback_key(axis)),
            ),
        }
    }
}

} // verus!
