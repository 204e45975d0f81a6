use vstd::prelude::*;

use crate::protocol::bytes::{f32_bits_at_least_half, f32_bits_half_or_more};
use crate::protocol::model::{GestureFrame, GestureType};
use crate::shortcut::keys::KeyCode;
use crate::shortcut::profile::{all_bindings, spec_all_bindings};
use crate::text::{push_decimal, push_str, spec_decimal, str_eq, string_of};

verus! {

#[derive(Debug, Clone, Copy, PartialEq, Eq, Hash, Structural)]
pub enum MouseButton {
    Left,
    Right,
}

#[derive(Debug, Clone, Copy, PartialEq, Eq, Hash, Structural)]
pub enum SwipeAxis {
    Horizontal,
    Vertical,
}

/// A pen-side trigger reported in the stylus flag byte.
#[derive(Debug, Clone, Copy, PartialEq, Eq, Hash, Structural)]
pub enum StylusTrigger {
    Squeeze,
    DoubleTap,
    TwoTap,
    ThreeTap,
    FourTap,
}

#[derive(Debug, Clone, Copy, PartialEq, Eq, Hash, Structural)]
pub enum GestureBinding {
    TwoPan,
    ThreePan,
    TwoPinch,
    TwoRotate,
    LongPress { fingers: u8 },
    Swipe { fingers: u8, axis: SwipeAxis },
}

/// The axis a swipe direction value selects: `>= 0.5` is vertical.
pub open spec fn spec_swipe_axis(value_bits: u32) -> SwipeAxis {
    if f32_bits_at_least_half(value_bits) {
        SwipeAxis::Vertical
    } else {
        SwipeAxis::Horizontal
    }
}

fn swipe_axis(value_bits: u32) -> (r: SwipeAxis)
    ensures
        r == spec_swipe_axis(value_bits),
{
    if f32_bits_half_or_more(value_bits) {
        SwipeAxis::Vertical
    } else {
        SwipeAxis::Horizontal
    }
}

impl GestureBinding {
    pub open spec fn spec_from_frame(frame: GestureFrame) -> GestureBinding {
        match frame.gesture_type {
            GestureType::TwoPan => GestureBinding::TwoPan,
            GestureType::ThreePan => GestureBinding::ThreePan,
            GestureType::TwoPinch => GestureBinding::TwoPinch,
            GestureType::TwoRotate => GestureBinding::TwoRotate,
            GestureType::OneLongPress => GestureBinding::LongPress { fingers: 1 },
            GestureType::TwoLongPress => GestureBinding::LongPress { fingers: 2 },
            GestureType::ThreeLongPress => GestureBinding::LongPress { fingers: 3 },
            GestureType::FourLongPress => GestureBinding::LongPress { fingers: 4 },
            GestureType::OneSwipe => GestureBinding::Swipe {
                fingers: 1,
                axis: spec_swipe_axis(frame.val1_bits),
            },
        }
    }

    /// The binding a gesture frame drives; every gesture type has one.
    pub fn from_frame(frame: &GestureFrame) -> (r: Option<GestureBinding>)
        ensures
            r == Some(Self::spec_from_frame(*frame)),
    {
        match frame.gesture_type {
            GestureType::TwoPan => Some(GestureBinding::TwoPan),
            GestureType::ThreePan => Some(GestureBinding::ThreePan),
            GestureType::TwoPinch => Some(GestureBinding::TwoPinch),
            GestureType::TwoRotate => Some(GestureBinding::TwoRotate),
            GestureType::OneLongPress => Some(GestureBinding::LongPress { fingers: 1 }),
            GestureType::TwoLongPress => Some(GestureBinding::LongPress { fingers: 2 }),
            GestureType::ThreeLongPress => Some(GestureBinding::LongPress { fingers: 3 }),
            GestureType::FourLongPress => Some(GestureBinding::LongPress { fingers: 4 }),
            GestureType::OneSwipe => Some(
                GestureBinding::Swipe { fingers: 1, axis: swipe_axis(frame.val1_bits) },
            ),
        }
    }
}

/// What a shortcut is bound to: a pen trigger or a touch gesture.
#[derive(Debug, Clone, Copy, PartialEq, Eq, Hash, Structural)]
pub enum BindingId {
    StylusTrigger(StylusTrigger),
    Gesture(GestureBinding),
}

impl BindingId {
    /// The key under which a custom binding is stored in the config file.
    pub open spec fn spec_persisted_key(self) -> Seq<char> {
        match self {
            BindingId::StylusTrigger(StylusTrigger::Squeeze) => "stylus:squeeze"@,
            BindingId::StylusTrigger(StylusTrigger::DoubleTap) => "stylus:double_tap"@,
            BindingId::StylusTrigger(StylusTrigger::TwoTap) => "stylus:two_tap"@,
            BindingId::StylusTrigger(StylusTrigger::ThreeTap) => "stylus:three_tap"@,
            BindingId::StylusTrigger(StylusTrigger::FourTap) => "stylus:four_tap"@,
            BindingId::Gesture(GestureBinding::TwoPan) => "gesture:two_pan"@,
            BindingId::Gesture(GestureBinding::ThreePan) => "gesture:three_pan"@,
            BindingId::Gesture(GestureBinding::TwoPinch) => "gesture:two_pinch"@,
            BindingId::Gesture(GestureBinding::TwoRotate) => "gesture:two_rotate"@,
            BindingId::Gesture(GestureBinding::LongPress { fingers }) => "gesture:long_press:"@
                + spec_decimal(fingers as nat),
            BindingId::Gesture(GestureBinding::Swipe { fingers, axis }) => "gesture:swipe:"@
                + spec_decimal(fingers as nat) + match axis {
                SwipeAxis::Horizontal => ":horizontal"@,
                SwipeAxis::Vertical => ":vertical"@,
            },
        }
    }

    pub fn persisted_key(self) -> (r: String)
        ensures
            r@ == self.spec_persisted_key(),
    {
        match self {
            BindingId::StylusTrigger(trigger) => match trigger {
                StylusTrigger::Squeeze => string_of("stylus:squeeze"),
                StylusTrigger::DoubleTap => string_of("stylus:double_tap"),
                StylusTrigger::TwoTap => string_of("stylus:two_tap"),
                StylusTrigger::ThreeTap => string_of("stylus:three_tap"),
                StylusTrigger::FourTap => string_of("stylus:four_tap"),
            },
            BindingId::Gesture(gesture) => match gesture {
                GestureBinding::TwoPan => string_of("gesture:two_pan"),
                GestureBinding::ThreePan => string_of("gesture:three_pan"),
                GestureBinding::TwoPinch => string_of("gesture:two_pinch"),
                GestureBinding::TwoRotate => string_of("gesture:two_rotate"),
                GestureBinding::LongPress { fingers } => {
                    let mut s = string_of("gesture:long_press:");
                    push_decimal(&mut s, fingers);
                    s
                },
                GestureBinding::Swipe { fingers, axis } => {
                    let mut s = string_of("gesture:swipe:");
                    push_decimal(&mut s, fingers);
                    match axis {
                        SwipeAxis::Horizontal => push_str(&mut s, ":horizontal"),
                        SwipeAxis::Vertical => push_str(&mut s, ":vertical"),
                    }
                    s
                },
            },
        }
    }

    /// The listed binding whose stored key is `value`, if any.
    pub fn parse_persisted_key(value: &str) -> (r: Option<BindingId>)
        ensures
            r matches Some(b) ==> spec_all_bindings().contains(b) && b.spec_persisted_key()
                == value@,
            r is None ==> forall|i: int|
                0 <= i < spec_all_bindings().len() ==> (#[trigger] spec_all_bindings()[i]).spec_persisted_key()
                    != value@,
            r == spec_binding_for_key(value@),
    {
        let bindings = all_bindings();
        let mut i: usize = 0;
        while i < bindings.len()
            invariant
                bindings@ == spec_all_bindings(),
                i <= bindings@.len(),
                forall|j: int|
                    0 <= j < i ==> (#[trigger] spec_all_bindings()[j]).spec_persisted_key()
                        != value@,
            decreases bindings@.len() - i,
        {
            let binding = bindings[i];
            let key = binding.persisted_key();
            if str_eq(key.as_str(), value) {
                assert(spec_all_bindings()[i as int] == binding);
                proof {
                    let other = choose|b: BindingId|
                        spec_all_bindings().contains(b) && b.spec_persisted_key() == value@;
                    lemma_persisted_keys_distinct(binding, other);
                }
                return Some(binding);
            }
            i = i + 1;
        }
        None
    }
}

/// A pointer position in desktop pixels.
#[derive(Debug, Clone, Copy, PartialEq, Eq, Structural)]
pub struct ScreenPoint {
    pub x: i32,
    pub y: i32,
}

#[derive(Debug, Clone, Copy, PartialEq, Eq, Structural)]
pub enum PointerAnchor {
    CurrentHoverOrLastInRange,
}

#[derive(Debug, Clone, Copy, PartialEq, Eq, Hash, Structural)]
pub enum RadialInnerSlot {
    Top,
    Bottom,
    Left,
    Right,
}

/// The keys toggled by the four inner slots of the radial menu.
#[derive(Debug, Clone, Copy, PartialEq, Eq, Structural)]
pub struct RadialInnerBindings {
    pub top: KeyCode,
    pub bottom: KeyCode,
    pub left: KeyCode,
    pub right: KeyCode,
}

impl RadialInnerBindings {
    pub fn default_bindings() -> (r: Self)
        ensures
            r == (RadialInnerBindings {
                top: KeyCode::Shift,
                bottom: KeyCode::Control,
                left: KeyCode::Space,
                right: KeyCode::Alt,
            }),
    {
        RadialInnerBindings {
            top: KeyCode::Shift,
            bottom: KeyCode::Control,
            left: KeyCode::Space,
            right: KeyCode::Alt,
        }
    }

    pub open spec fn spec_key_for_slot(self, slot: RadialInnerSlot) -> KeyCode {
        match slot {
            RadialInnerSlot::Top => self.top,
            RadialInnerSlot::Bottom => self.bottom,
            RadialInnerSlot::Left => self.left,
            RadialInnerSlot::Right => self.right,
        }
    }

    pub fn key_for_slot(&self, slot: RadialInnerSlot) -> (r: KeyCode)
        ensures
            r == self.spec_key_for_slot(slot),
    {
        match slot {
            RadialInnerSlot::Top => self.top,
            RadialInnerSlot::Bottom => self.bottom,
            RadialInnerSlot::Left => self.left,
            RadialInnerSlot::Right => self.right,
        }
    }

    /// The slots clockwise from the top, each with its key.
    pub fn slot_entries(&self) -> (r: [(RadialInnerSlot, KeyCode); 4])
        ensures
            r@ == seq![
                (RadialInnerSlot::Top, self.top),
                (RadialInnerSlot::Right, self.right),
                (RadialInnerSlot::Bottom, self.bottom),
                (RadialInnerSlot::Left, self.left),
            ],
    {
        let r = [
            (RadialInnerSlot::Top, self.top),
            (RadialInnerSlot::Right, self.right),
            (RadialInnerSlot::Bottom, self.bottom),
            (RadialInnerSlot::Left, self.left),
        ];
        assert(r@ =~= seq![
            (RadialInnerSlot::Top, self.top),
            (RadialInnerSlot::Right, self.right),
            (RadialInnerSlot::Bottom, self.bottom),
            (RadialInnerSlot::Left, self.left),
        ]);
        r
    }
}

/// A copy of a key list.
pub fn copy_keys(keys: &Vec<KeyCode>) -> (r: Vec<KeyCode>)
    ensures
        r@ == keys@,
{
    let mut r: Vec<KeyCode> = Vec::new();
    let mut i: usize = 0;
    while i < keys.len()
        invariant
            i <= keys@.len(),
            r@ == keys@.take(i as int),
        decreases keys@.len() - i,
    {
        r.push(keys[i]);
        i = i + 1;
        assert(r@ =~= keys@.take(i as int));
    }
    assert(r@ =~= keys@);
    r
}

/// The chord sent by one outer slot of the radial menu.
#[derive(Debug, Clone, PartialEq, Eq)]
pub struct RadialOuterBinding {
    pub keys: Vec<KeyCode>,
}

impl RadialOuterBinding {
    pub fn new(keys: Vec<KeyCode>) -> (r: Self)
        ensures
            r.keys@ == keys@,
    {
        RadialOuterBinding { keys }
    }

    pub fn duplicate(&self) -> (r: Self)
        ensures
            r.keys@ == self.keys@,
    {
        RadialOuterBinding { keys: copy_keys(&self.keys) }
    }
}

/// The radial menu: a toggle ring of four keys and eight chord slots.
#[derive(Debug, Clone, PartialEq, Eq)]
pub struct RadialMenuConfig {
    pub inner_enabled: bool,
    pub inner: RadialInnerBindings,
    pub outer: [RadialOuterBinding; 8],
}

pub struct RadialMenuModel {
    pub inner_enabled: bool,
    pub inner: RadialInnerBindings,
    pub outer: Seq<Seq<KeyCode>>,
}

impl View for RadialMenuConfig {
    type V = RadialMenuModel;

    open spec fn view(&self) -> RadialMenuModel {
        RadialMenuModel {
            inner_enabled: self.inner_enabled,
            inner: self.inner,
            outer: self.outer@.map_values(|b: RadialOuterBinding| b.keys@),
        }
    }
}

/// The factory radial menu: Shift/Ctrl/Space/Alt inside, and clockwise from
/// the top V, M, ], P, L, Ctrl+Shift+N, [, Ctrl+T outside.
pub open spec fn spec_default_radial_menu() -> RadialMenuModel {
    RadialMenuModel {
        inner_enabled: true,
        inner: RadialInnerBindings {
            top: KeyCode::Shift,
            bottom: KeyCode::Control,
            left: KeyCode::Space,
            right: KeyCode::Alt,
        },
        outer: seq![
            seq![KeyCode::V],
            seq![KeyCode::M],
            seq![KeyCode::BracketRight],
            seq![KeyCode::P],
            seq![KeyCode::L],
            seq![KeyCode::Control, KeyCode::Shift, KeyCode::N],
            seq![KeyCode::BracketLeft],
            seq![KeyCode::Control, KeyCode::T],
        ],
    }
}

impl RadialMenuConfig {
    pub fn default_config() -> (r: Self)
        ensures
            r@ == spec_default_radial_menu(),
    {
        let o0 = RadialOuterBinding::new(vec![KeyCode::V]);
        let o1 = RadialOuterBinding::new(vec![KeyCode::M]);
        let o2 = RadialOuterBinding::new(vec![KeyCode::BracketRight]);
        let o3 = RadialOuterBinding::new(vec![KeyCode::P]);
        let o4 = RadialOuterBinding::new(vec![KeyCode::L]);
        let o5 = RadialOuterBinding::new(vec![KeyCode::Control, KeyCode::Shift, KeyCode::N]);
        let o6 = RadialOuterBinding::new(vec![KeyCode::BracketLeft]);
        let o7 = RadialOuterBinding::new(vec![KeyCode::Control, KeyCode::T]);
        assert(o0.keys@ =~= seq![KeyCode::V]);
        assert(o1.keys@ =~= seq![KeyCode::M]);
        assert(o2.keys@ =~= seq![KeyCode::BracketRight]);
        assert(o3.keys@ =~= seq![KeyCode::P]);
        assert(o4.keys@ =~= seq![KeyCode::L]);
        assert(o5.keys@ =~= seq![KeyCode::Control, KeyCode::Shift, KeyCode::N]);
        assert(o6.keys@ =~= seq![KeyCode::BracketLeft]);
        assert(o7.keys@ =~= seq![KeyCode::Control, KeyCode::T]);
        let ghost keys = seq![o0.keys@, o1.keys@, o2.keys@, o3.keys@, o4.keys@, o5.keys@, o6.keys@, o7.keys@];
        assert(keys =~= spec_default_radial_menu().outer);
        let r = RadialMenuConfig {
            inner_enabled: true,
            inner: RadialInnerBindings::default_bindings(),
            outer: [o0, o1, o2, o3, o4, o5, o6, o7],
        };
        assert(r@.outer =~= keys);
        r
    }

    pub fn duplicate(&self) -> (r: Self)
        ensures
            r@ == self@,
    {
        let r = RadialMenuConfig {
            inner_enabled: self.inner_enabled,
            inner: self.inner,
            outer: [
                self.outer[0].duplicate(),
                self.outer[1].duplicate(),
                self.outer[2].duplicate(),
                self.outer[3].duplicate(),
                self.outer[4].duplicate(),
                self.outer[5].duplicate(),
                self.outer[6].duplicate(),
                self.outer[7].duplicate(),
            ],
        };
        assert(r@.outer =~= self@.outer);
        r
    }
}

/// An action that drives the pointer or the key state rather than a plain chord.
#[allow(inconsistent_fields)]
#[derive(Debug, Clone, PartialEq, Eq)]
pub enum AdvancedAction {
    PointerDrag { modifiers: Vec<KeyCode>, button: Option<MouseButton> },
    PointerWheel { modifiers: Vec<KeyCode> },
    PointerRotate { modifiers: Vec<KeyCode> },
    PointerClick { keys: Vec<KeyCode>, button: MouseButton, anchor: PointerAnchor },
    ReleaseActiveKeys,
    ReservedRadialMenu,
}

/// An advanced action with its key lists as sequences.
#[allow(inconsistent_fields)]
pub enum AdvancedActionModel {
    PointerDrag { modifiers: Seq<KeyCode>, button: Option<MouseButton> },
    PointerWheel { modifiers: Seq<KeyCode> },
    PointerRotate { modifiers: Seq<KeyCode> },
    PointerClick { keys: Seq<KeyCode>, button: MouseButton, anchor: PointerAnchor },
    ReleaseActiveKeys,
    ReservedRadialMenu,
}

impl View for AdvancedAction {
    type V = AdvancedActionModel;

    open spec fn view(&self) -> AdvancedActionModel {
        match self {
            AdvancedAction::PointerDrag { modifiers, button } => AdvancedActionModel::PointerDrag {
                modifiers: modifiers@,
                button: *button,
            },
            AdvancedAction::PointerWheel { modifiers } => AdvancedActionModel::PointerWheel {
                modifiers: modifiers@,
            },
            AdvancedAction::PointerRotate { modifiers } => AdvancedActionModel::PointerRotate {
                modifiers: modifiers@,
            },
            AdvancedAction::PointerClick { keys, button, anchor } => AdvancedActionModel::PointerClick {
                keys: keys@,
                button: *button,
                anchor: *anchor,
            },
            AdvancedAction::ReleaseActiveKeys => AdvancedActionModel::ReleaseActiveKeys,
            AdvancedAction::ReservedRadialMenu => AdvancedActionModel::ReservedRadialMenu,
        }
    }
}

impl AdvancedAction {
    pub fn duplicate(&self) -> (r: Self)
        ensures
            r@ == self@,
    {
        match self {
            AdvancedAction::PointerDrag { modifiers, button } => AdvancedAction::PointerDrag {
                modifiers: copy_keys(modifiers),
                button: *button,
            },
            AdvancedAction::PointerWheel { modifiers } => AdvancedAction::PointerWheel {
                modifiers: copy_keys(modifiers),
            },
            AdvancedAction::PointerRotate { modifiers } => AdvancedAction::PointerRotate {
                modifiers: copy_keys(modifiers),
            },
            AdvancedAction::PointerClick { keys, button, anchor } => AdvancedAction::PointerClick {
                keys: copy_keys(keys),
                button: *button,
                anchor: *anchor,
            },
            AdvancedAction::ReleaseActiveKeys => AdvancedAction::ReleaseActiveKeys,
            AdvancedAction::ReservedRadialMenu => AdvancedAction::ReservedRadialMenu,
        }
    }
}

/// What a binding does when it fires.
#[derive(Debug, Clone, PartialEq, Eq)]
pub enum ShortcutAction {
    HoldKeys(Vec<KeyCode>),
    TriggerChord(Vec<KeyCode>),
    Advanced(AdvancedAction),
    Disabled,
}

/// A shortcut action with its key lists as sequences.
pub enum ShortcutActionModel {
    HoldKeys(Seq<KeyCode>),
    TriggerChord(Seq<KeyCode>),
    Advanced(AdvancedActionModel),
    Disabled,
}

impl View for ShortcutAction {
    type V = ShortcutActionModel;

    open spec fn view(&self) -> ShortcutActionModel {
        match self {
            ShortcutAction::HoldKeys(keys) => ShortcutActionModel::HoldKeys(keys@),
            ShortcutAction::TriggerChord(keys) => ShortcutActionModel::TriggerChord(keys@),
            ShortcutAction::Advanced(action) => ShortcutActionModel::Advanced(action@),
            ShortcutAction::Disabled => ShortcutActionModel::Disabled,
        }
    }
}

impl ShortcutAction {
    pub fn duplicate(&self) -> (r: Self)
        ensures
            r@ == self@,
    {
        match self {
            ShortcutAction::HoldKeys(keys) => ShortcutAction::HoldKeys(copy_keys(keys)),
            ShortcutAction::TriggerChord(keys) => ShortcutAction::TriggerChord(copy_keys(keys)),
            ShortcutAction::Advanced(action) => ShortcutAction::Advanced(action.duplicate()),
            ShortcutAction::Disabled => ShortcutAction::Disabled,
        }
    }

    pub fn is_disabled(&self) -> (r: bool)
        ensures
            r == (self@ is Disabled),
    {
        match self {
            ShortcutAction::Disabled => true,
            _ => false,
        }
    }
}

/// The behaviours the desktop offers besides plain keys.
#[derive(Debug, Clone, Copy, PartialEq, Eq, Structural)]
pub enum SpecialAction {
    NoAction,
    RadialMenu,
    PointerClickLeft,
    PointerClickRight,
    PointerMove,
    PointerDragLeft,
    PointerDragRight,
    PointerWheel,
    PointerRotate,
}

impl SpecialAction {
    /// The identifier the desktop uses for this behaviour.
    pub open spec fn spec_token(self) -> Seq<char> {
        match self {
            SpecialAction::NoAction => "none"@,
            SpecialAction::RadialMenu => "radialMenu"@,
            SpecialAction::PointerClickLeft => "pointerClickLeft"@,
            SpecialAction::PointerClickRight => "pointerClickRight"@,
            SpecialAction::PointerMove => "pointerMove"@,
            SpecialAction::PointerDragLeft => "pointerDragLeft"@,
            SpecialAction::PointerDragRight => "pointerDragRight"@,
            SpecialAction::PointerWheel => "pointerWheel"@,
            SpecialAction::PointerRotate => "pointerRotate"@,
        }
    }

    pub fn token(self) -> (r: &'static str)
        ensures
            r@ == self.spec_token(),
    {
        match self {
            SpecialAction::NoAction => "none",
            SpecialAction::RadialMenu => "radialMenu",
            SpecialAction::PointerClickLeft => "pointerClickLeft",
            SpecialAction::PointerClickRight => "pointerClickRight",
            SpecialAction::PointerMove => "pointerMove",
            SpecialAction::PointerDragLeft => "pointerDragLeft",
            SpecialAction::PointerDragRight => "pointerDragRight",
            SpecialAction::PointerWheel => "pointerWheel",
            SpecialAction::PointerRotate => "pointerRotate",
        }
    }

    /// The behaviour whose identifier is `value`, if any.
    pub fn parse(value: &str) -> (r: Option<SpecialAction>)
        ensures
            r matches Some(a) ==> a.spec_token() == value@,
            r is None ==> forall|a: SpecialAction| #[trigger] a.spec_token() != value@,
    {
        let all = [
            SpecialAction::NoAction,
            SpecialAction::RadialMenu,
            SpecialAction::PointerClickLeft,
            SpecialAction::PointerClickRight,
            SpecialAction::PointerMove,
            SpecialAction::PointerDragLeft,
            SpecialAction::PointerDragRight,
            SpecialAction::PointerWheel,
            SpecialAction::PointerRotate,
        ];
        let mut i: usize = 0;
        while i < 9
            invariant
                i <= 9,
                all@ == seq![
                    SpecialAction::NoAction,
                    SpecialAction::RadialMenu,
                    SpecialAction::PointerClickLeft,
                    SpecialAction::PointerClickRight,
                    SpecialAction::PointerMove,
                    SpecialAction::PointerDragLeft,
                    SpecialAction::PointerDragRight,
                    SpecialAction::PointerWheel,
                    SpecialAction::PointerRotate,
                ],
                forall|j: int| 0 <= j < i ==> (#[trigger] all@[j]).spec_token() != value@,
            decreases 9 - i,
        {
            let a = all[i];
            if str_eq(a.token(), value) {
                return Some(a);
            }
            i = i + 1;
        }
        assert forall|a: SpecialAction| #[trigger] a.spec_token() != value@ by {
            match a {
                SpecialAction::NoAction => assert(all@[0] == a),
                SpecialAction::RadialMenu => assert(all@[1] == a),
                SpecialAction::PointerClickLeft => assert(all@[2] == a),
                SpecialAction::PointerClickRight => assert(all@[3] == a),
                SpecialAction::PointerMove => assert(all@[4] == a),
                SpecialAction::PointerDragLeft => assert(all@[5] == a),
                SpecialAction::PointerDragRight => assert(all@[6] == a),
                SpecialAction::PointerWheel => assert(all@[7] == a),
                SpecialAction::PointerRotate => assert(all@[8] == a),
            }
        }
        None
    }
}

/// One step a shortcut executor performs on the desktop.
#[derive(Debug, Clone, PartialEq, Eq)]
pub enum ShortcutCommand {
    KeyDown(KeyCode),
    KeyUp(KeyCode),
    PressChord(Vec<KeyCode>),
    MouseMoveRelative { dx: i32, dy: i32 },
    MouseWheel { delta: i32 },
    MouseButtonDown(MouseButton),
    MouseButtonUp(MouseButton),
    ClickAt { button: MouseButton, x: i32, y: i32 },
}

/// A shortcut command with its chord as a sequence.
pub enum ShortcutCommandModel {
    KeyDown(KeyCode),
    KeyUp(KeyCode),
    PressChord(Seq<KeyCode>),
    MouseMoveRelative { dx: i32, dy: i32 },
    MouseWheel { delta: i32 },
    MouseButtonDown(MouseButton),
    MouseButtonUp(MouseButton),
    ClickAt { button: MouseButton, x: i32, y: i32 },
}

impl View for ShortcutCommand {
    type V = ShortcutCommandModel;

    open spec fn view(&self) -> ShortcutCommandModel {
        match self {
            ShortcutCommand::KeyDown(k) => ShortcutCommandModel::KeyDown(*k),
            ShortcutCommand::KeyUp(k) => ShortcutCommandModel::KeyUp(*k),
            ShortcutCommand::PressChord(keys) => ShortcutCommandModel::PressChord(keys@),
            ShortcutCommand::MouseMoveRelative { dx, dy } => ShortcutCommandModel::MouseMoveRelative {
                dx: *dx,
                dy: *dy,
            },
            ShortcutCommand::MouseWheel { delta } => ShortcutCommandModel::MouseWheel { delta: *delta },
            ShortcutCommand::MouseButtonDown(b) => ShortcutCommandModel::MouseButtonDown(*b),
            ShortcutCommand::MouseButtonUp(b) => ShortcutCommandModel::MouseButtonUp(*b),
            ShortcutCommand::ClickAt { button, x, y } => ShortcutCommandModel::ClickAt {
                button: *button,
                x: *x,
                y: *y,
            },
        }
    }
}


/// How a special behaviour is spelled in diagnostic text. The behaviour of
/// a plain key action is spelled `None`.
pub open spec fn spec_special_action_name(special: SpecialAction) -> Seq<char> {
    match special {
        SpecialAction::NoAction => "None"@,
        SpecialAction::RadialMenu => "RadialMenu"@,
        SpecialAction::PointerClickLeft => "PointerClickLeft"@,
        SpecialAction::PointerClickRight => "PointerClickRight"@,
        SpecialAction::PointerMove => "PointerMove"@,
        SpecialAction::PointerDragLeft => "PointerDragLeft"@,
        SpecialAction::PointerDragRight => "PointerDragRight"@,
        SpecialAction::PointerWheel => "PointerWheel"@,
        SpecialAction::PointerRotate => "PointerRotate"@,
    }
}

/// See [`spec_special_action_name`].
pub fn special_action_name(special: SpecialAction) -> (r: &'static str)
    ensures
        r@ == spec_special_action_name(special),
{
    match special {
        SpecialAction::NoAction => "None",
        SpecialAction::RadialMenu => "RadialMenu",
        SpecialAction::PointerClickLeft => "PointerClickLeft",
        SpecialAction::PointerClickRight => "PointerClickRight",
        SpecialAction::PointerMove => "PointerMove",
        SpecialAction::PointerDragLeft => "PointerDragLeft",
        SpecialAction::PointerDragRight => "PointerDragRight",
        SpecialAction::PointerWheel => "PointerWheel",
        SpecialAction::PointerRotate => "PointerRotate",
    }
}

pub open spec fn spec_stylus_trigger_name(trigger: StylusTrigger) -> Seq<char> {
    match trigger {
        StylusTrigger::Squeeze => "Squeeze"@,
        StylusTrigger::DoubleTap => "DoubleTap"@,
        StylusTrigger::TwoTap => "TwoTap"@,
        StylusTrigger::ThreeTap => "ThreeTap"@,
        StylusTrigger::FourTap => "FourTap"@,
    }
}

fn stylus_trigger_name(trigger: StylusTrigger) -> (r: &'static str)
    ensures
        r@ == spec_stylus_trigger_name(trigger),
{
    match trigger {
        StylusTrigger::Squeeze => "Squeeze",
        StylusTrigger::DoubleTap => "DoubleTap",
        StylusTrigger::TwoTap => "TwoTap",
        StylusTrigger::ThreeTap => "ThreeTap",
        StylusTrigger::FourTap => "FourTap",
    }
}

pub open spec fn spec_swipe_axis_name(axis: SwipeAxis) -> Seq<char> {
    match axis {
        SwipeAxis::Horizontal => "Horizontal"@,
        SwipeAxis::Vertical => "Vertical"@,
    }
}

/// How a gesture binding is spelled in diagnostic text.
pub open spec fn spec_gesture_binding_text(gesture: GestureBinding) -> Seq<char> {
    match gesture {
        GestureBinding::TwoPan => "TwoPan"@,
        GestureBinding::ThreePan => "ThreePan"@,
        GestureBinding::TwoPinch => "TwoPinch"@,
        GestureBinding::TwoRotate => "TwoRotate"@,
        GestureBinding::LongPress { fingers } => "LongPress { fingers: "@ + spec_decimal(
            fingers as nat,
        ) + " }"@,
        GestureBinding::Swipe { fingers, axis } => "Swipe { fingers: "@ + spec_decimal(
            fingers as nat,
        ) + ", axis: "@ + spec_swipe_axis_name(axis) + " }"@,
    }
}

/// How a binding is spelled in diagnostic text, such as
/// `Gesture(LongPress { fingers: 1 })`.
pub open spec fn spec_binding_text(binding: BindingId) -> Seq<char> {
    match binding {
        BindingId::StylusTrigger(t) => "StylusTrigger("@ + spec_stylus_trigger_name(t) + ")"@,
        BindingId::Gesture(g) => "Gesture("@ + spec_gesture_binding_text(g) + ")"@,
    }
}

/// Appends the diagnostic spelling of `binding`; see [`spec_binding_text`].
pub fn push_binding_text(s: &mut String, binding: BindingId)
    ensures
        final(s)@ == old(s)@ + spec_binding_text(binding),
{
    let ghost start = s@;
    match binding {
        BindingId::StylusTrigger(t) => {
            push_str(s, "StylusTrigger(");
            push_str(s, stylus_trigger_name(t));
            push_str(s, ")");
            assert(s@ =~= start + spec_binding_text(binding));
        },
        BindingId::Gesture(g) => {
            push_str(s, "Gesture(");
            match g {
                GestureBinding::TwoPan => push_str(s, "TwoPan"),
                GestureBinding::ThreePan => push_str(s, "ThreePan"),
                GestureBinding::TwoPinch => push_str(s, "TwoPinch"),
                GestureBinding::TwoRotate => push_str(s, "TwoRotate"),
                GestureBinding::LongPress { fingers } => {
                    push_str(s, "LongPress { fingers: ");
                    push_decimal(s, fingers);
                    push_str(s, " }");
                },
                GestureBinding::Swipe { fingers, axis } => {
                    push_str(s, "Swipe { fingers: ");
                    push_decimal(s, fingers);
                    push_str(s, ", axis: ");
                    match axis {
                        SwipeAxis::Horizontal => push_str(s, "Horizontal"),
                        SwipeAxis::Vertical => push_str(s, "Vertical"),
                    }
                    push_str(s, " }");
                },
            }
            push_str(s, ")");
            assert(s@ =~= start + spec_binding_text(binding));
        },
    }
}


/// The length and last character of a stored binding key, which tell the
/// listed bindings' keys apart.
pub open spec fn persisted_key_fingerprint(s: Seq<char>) -> (int, char) {
    (s.len() as int, s[s.len() - 1])
}

/// The listed binding whose stored key has fingerprint `fp`.
pub open spec fn binding_for_fingerprint(fp: (int, char)) -> Option<BindingId> {
    if fp == (15int, 'n') {
        Some(BindingId::Gesture(GestureBinding::TwoPan))
    } else
    if fp == (14int, 'e') {
        Some(BindingId::StylusTrigger(StylusTrigger::Squeeze))
    } else
    if fp == (17int, 'p') {
        Some(BindingId::StylusTrigger(StylusTrigger::DoubleTap))
    } else
    if fp == (14int, 'p') {
        Some(BindingId::StylusTrigger(StylusTrigger::TwoTap))
    } else
    if fp == (16int, 'p') {
        Some(BindingId::StylusTrigger(StylusTrigger::ThreeTap))
    } else
    if fp == (15int, 'p') {
        Some(BindingId::StylusTrigger(StylusTrigger::FourTap))
    } else
    if fp == (17int, 'n') {
        Some(BindingId::Gesture(GestureBinding::ThreePan))
    } else
    if fp == (17int, 'h') {
        Some(BindingId::Gesture(GestureBinding::TwoPinch))
    } else
    if fp == (18int, 'e') {
        Some(BindingId::Gesture(GestureBinding::TwoRotate))
    } else
    if fp == (20int, '1') {
        Some(BindingId::Gesture(GestureBinding::LongPress { fingers: 1 }))
    } else
    if fp == (20int, '2') {
        Some(BindingId::Gesture(GestureBinding::LongPress { fingers: 2 }))
    } else
    if fp == (20int, '3') {
        Some(BindingId::Gesture(GestureBinding::LongPress { fingers: 3 }))
    } else
    if fp == (20int, '4') {
        Some(BindingId::Gesture(GestureBinding::LongPress { fingers: 4 }))
    } else
    if fp == (26int, 'l') {
        Some(BindingId::Gesture(GestureBinding::Swipe { fingers: 1, axis: SwipeAxis::Horizontal }))
    } else
    if fp == (24int, 'l') {
        Some(BindingId::Gesture(GestureBinding::Swipe { fingers: 1, axis: SwipeAxis::Vertical }))
    } else {
        None
    }
}

/// The stored key of the listed binding at `i` has a fingerprint that names
/// the binding again.
proof fn lemma_persisted_key_fingerprint(i: int)
    requires
        0 <= i < spec_all_bindings().len(),
    ensures
        binding_for_fingerprint(persisted_key_fingerprint(spec_all_bindings()[i].spec_persisted_key()))
            == Some(spec_all_bindings()[i]),
{
    if i == 0 {
            reveal_strlit("gesture:two_pan");
} else if i == 1 {
            reveal_strlit("stylus:squeeze");
} else if i == 2 {
            reveal_strlit("stylus:double_tap");
} else if i == 3 {
            reveal_strlit("stylus:two_tap");
} else if i == 4 {
            reveal_strlit("stylus:three_tap");
} else if i == 5 {
            reveal_strlit("stylus:four_tap");
} else if i == 6 {
            reveal_strlit("gesture:three_pan");
} else if i == 7 {
            reveal_strlit("gesture:two_pinch");
} else if i == 8 {
            reveal_strlit("gesture:two_rotate");
} else if i == 9 {
            reveal_strlit("gesture:long_press:");
} else if i == 10 {
            reveal_strlit("gesture:long_press:");
} else if i == 11 {
            reveal_strlit("gesture:long_press:");
} else if i == 12 {
            reveal_strlit("gesture:long_press:");
} else if i == 13 {
            reveal_strlit("gesture:swipe:");
            reveal_strlit(":horizontal");
            reveal_strlit(":vertical");
} else if i == 14 {
            reveal_strlit("gesture:swipe:");
            reveal_strlit(":horizontal");
            reveal_strlit(":vertical");
    }
}

/// No two listed bindings share a stored key.
pub proof fn lemma_persisted_keys_distinct(a: BindingId, b: BindingId)
    requires
        spec_all_bindings().contains(a),
        spec_all_bindings().contains(b),
        a.spec_persisted_key() == b.spec_persisted_key(),
    ensures
        a == b,
{
    let i = choose|i: int| 0 <= i < spec_all_bindings().len() && spec_all_bindings()[i] == a;
    let j = choose|j: int| 0 <= j < spec_all_bindings().len() && spec_all_bindings()[j] == b;
    lemma_persisted_key_fingerprint(i);
    lemma_persisted_key_fingerprint(j);
}

/// The listed binding stored under `key`, if there is one; the stored keys
/// are distinct, so there is at most one.
pub open spec fn spec_binding_for_key(key: Seq<char>) -> Option<BindingId> {
    if exists|b: BindingId| spec_all_bindings().contains(b) && b.spec_persisted_key() == key {
        Some(choose|b: BindingId| spec_all_bindings().contains(b) && b.spec_persisted_key() == key)
    } else {
        None
    }
}

} // verus!
