use vstd::prelude::*;

use crate::error::{AppError, AppErrorModel};
use crate::shortcut::domain::{
    AdvancedAction, AdvancedActionModel, BindingId, GestureBinding, MouseButton, PointerAnchor,
    RadialInnerSlot, RadialMenuConfig, RadialMenuModel, ShortcutAction, ShortcutActionModel,
    StylusTrigger, SwipeAxis,
};
use crate::shortcut::domain::spec_binding_for_key;
use crate::shortcut::keys::KeyCode;
use crate::shortcut::profile::{
    all_bindings, spec_action_for, spec_all_bindings, ShortcutPresetLibrary, ShortcutProfile,
    ShortcutProfileModel,
};
use crate::shortcut::preset::spec_default_action;
use crate::workspace::{MonitorInfo, WorkspaceSnapshot};
use crate::text::{decimal_string, join_strings, push_decimal, push_str, spec_decimal, spec_join, str_eq, string_of};

verus! {

/* Labels */

/// The name of a binding shown on the desktop.
pub open spec fn spec_binding_label(binding: BindingId) -> Seq<char> {
    match binding {
        BindingId::StylusTrigger(StylusTrigger::Squeeze) => "笔侧键挤压"@,
        BindingId::StylusTrigger(StylusTrigger::DoubleTap) => "笔双击"@,
        BindingId::StylusTrigger(StylusTrigger::TwoTap) => "笔轻点 ×2"@,
        BindingId::StylusTrigger(StylusTrigger::ThreeTap) => "笔轻点 ×3"@,
        BindingId::StylusTrigger(StylusTrigger::FourTap) => "笔轻点 ×4"@,
        BindingId::Gesture(GestureBinding::TwoPan) => "双指平移"@,
        BindingId::Gesture(GestureBinding::ThreePan) => "三指平移"@,
        BindingId::Gesture(GestureBinding::TwoPinch) => "双指捏合"@,
        BindingId::Gesture(GestureBinding::TwoRotate) => "双指旋转"@,
        BindingId::Gesture(GestureBinding::LongPress { fingers }) => spec_decimal(fingers as nat)
            + " 指长按"@,
        BindingId::Gesture(GestureBinding::Swipe { fingers, axis }) => spec_decimal(fingers as nat)
            + " 指滑动 · "@ + match axis {
            SwipeAxis::Horizontal => "横向"@,
            SwipeAxis::Vertical => "纵向"@,
        },
    }
}

pub fn binding_label(binding: BindingId) -> (r: String)
    ensures
        r@ == spec_binding_label(binding),
{
    match binding {
        BindingId::StylusTrigger(trigger) => match trigger {
            StylusTrigger::Squeeze => string_of("笔侧键挤压"),
            StylusTrigger::DoubleTap => string_of("笔双击"),
            StylusTrigger::TwoTap => string_of("笔轻点 ×2"),
            StylusTrigger::ThreeTap => string_of("笔轻点 ×3"),
            StylusTrigger::FourTap => string_of("笔轻点 ×4"),
        },
        BindingId::Gesture(gesture) => match gesture {
            GestureBinding::TwoPan => string_of("双指平移"),
            GestureBinding::ThreePan => string_of("三指平移"),
            GestureBinding::TwoPinch => string_of("双指捏合"),
            GestureBinding::TwoRotate => string_of("双指旋转"),
            GestureBinding::LongPress { fingers } => {
                let mut s = String::new();
                push_decimal(&mut s, fingers);
                push_str(&mut s, " 指长按");
                assert(s@ =~= spec_binding_label(binding));
                s
            },
            GestureBinding::Swipe { fingers, axis } => {
                let mut s = String::new();
                push_decimal(&mut s, fingers);
                push_str(&mut s, " 指滑动 · ");
                match axis {
                    SwipeAxis::Horizontal => push_str(&mut s, "横向"),
                    SwipeAxis::Vertical => push_str(&mut s, "纵向"),
                }
                assert(s@ =~= spec_binding_label(binding));
                s
            },
        },
    }
}

/// The group a binding is listed under.
pub open spec fn spec_category_label(binding: BindingId) -> Seq<char> {
    match binding {
        BindingId::Gesture(GestureBinding::TwoPan) => "Pan"@,
        BindingId::Gesture(GestureBinding::ThreePan) => "Pan"@,
        BindingId::StylusTrigger(_) => "笔触发"@,
        BindingId::Gesture(GestureBinding::TwoPinch) => "Pinch / Rotate"@,
        BindingId::Gesture(GestureBinding::TwoRotate) => "Pinch / Rotate"@,
        BindingId::Gesture(GestureBinding::LongPress { .. }) => "Long Press"@,
        BindingId::Gesture(GestureBinding::Swipe { .. }) => "Swipe"@,
    }
}

pub fn category_label(binding: BindingId) -> (r: &'static str)
    ensures
        r@ == spec_category_label(binding),
{
    match binding {
        BindingId::Gesture(GestureBinding::TwoPan) => "Pan",
        BindingId::Gesture(GestureBinding::ThreePan) => "Pan",
        BindingId::StylusTrigger(_) => "笔触发",
        BindingId::Gesture(GestureBinding::TwoPinch) => "Pinch / Rotate",
        BindingId::Gesture(GestureBinding::TwoRotate) => "Pinch / Rotate",
        BindingId::Gesture(GestureBinding::LongPress { .. }) => "Long Press",
        BindingId::Gesture(GestureBinding::Swipe { .. }) => "Swipe",
    }
}

pub open spec fn spec_mouse_button_label(button: MouseButton) -> Seq<char> {
    match button {
        MouseButton::Left => "左键"@,
        MouseButton::Right => "右键"@,
    }
}

pub fn mouse_button_label(button: MouseButton) -> (r: &'static str)
    ensures
        r@ == spec_mouse_button_label(button),
{
    match button {
        MouseButton::Left => "左键",
        MouseButton::Right => "右键",
    }
}

pub open spec fn spec_pointer_anchor_label(anchor: PointerAnchor) -> Seq<char> {
    match anchor {
        PointerAnchor::CurrentHoverOrLastInRange => "当前 hover 或最后有效坐标"@,
    }
}

pub fn pointer_anchor_label(anchor: PointerAnchor) -> (r: &'static str)
    ensures
        r@ == spec_pointer_anchor_label(anchor),
{
    match anchor {
        PointerAnchor::CurrentHoverOrLastInRange => "当前 hover 或最后有效坐标",
    }
}

pub open spec fn spec_radial_slot_angle_label(index: usize) -> Seq<char> {
    if index == 0 {
        "上"@
    } else if index == 1 {
        "右上"@
    } else if index == 2 {
        "右"@
    } else if index == 3 {
        "右下"@
    } else if index == 4 {
        "下"@
    } else if index == 5 {
        "左下"@
    } else if index == 6 {
        "左"@
    } else {
        "左上"@
    }
}

/// The direction of an outer slot, clockwise from the top.
pub fn radial_slot_angle_label(index: usize) -> (r: &'static str)
    ensures
        r@ == spec_radial_slot_angle_label(index),
{
    match index {
        0 => "上",
        1 => "右上",
        2 => "右",
        3 => "右下",
        4 => "下",
        5 => "左下",
        6 => "左",
        _ => "左上",
    }
}

pub open spec fn spec_radial_inner_slot_id(slot: RadialInnerSlot) -> Seq<char> {
    match slot {
        RadialInnerSlot::Top => "top"@,
        RadialInnerSlot::Right => "right"@,
        RadialInnerSlot::Bottom => "bottom"@,
        RadialInnerSlot::Left => "left"@,
    }
}

pub fn radial_inner_slot_id(slot: RadialInnerSlot) -> (r: &'static str)
    ensures
        r@ == spec_radial_inner_slot_id(slot),
{
    match slot {
        RadialInnerSlot::Top => "top",
        RadialInnerSlot::Right => "right",
        RadialInnerSlot::Bottom => "bottom",
        RadialInnerSlot::Left => "left",
    }
}

pub open spec fn spec_radial_inner_slot_label(slot: RadialInnerSlot) -> Seq<char> {
    match slot {
        RadialInnerSlot::Top => "上"@,
        RadialInnerSlot::Right => "右"@,
        RadialInnerSlot::Bottom => "下"@,
        RadialInnerSlot::Left => "左"@,
    }
}

pub fn radial_inner_slot_label(slot: RadialInnerSlot) -> (r: &'static str)
    ensures
        r@ == spec_radial_inner_slot_label(slot),
{
    match slot {
        RadialInnerSlot::Top => "上",
        RadialInnerSlot::Right => "右",
        RadialInnerSlot::Bottom => "下",
        RadialInnerSlot::Left => "左",
    }
}

/// The labels of the keys, in order.
pub open spec fn spec_key_labels(keys: Seq<KeyCode>) -> Seq<Seq<char>> {
    keys.map_values(|k: KeyCode| k.spec_label()@)
}

pub fn key_labels(keys: &Vec<KeyCode>) -> (r: Vec<String>)
    ensures
        r@.map_values(|s: String| s@) == spec_key_labels(keys@),
{
    let mut out: Vec<String> = Vec::new();
    let mut i: usize = 0;
    while i < keys.len()
        invariant
            i <= keys@.len(),
            out@.len() == i,
            forall|j: int| 0 <= j < i ==> (#[trigger] out@[j])@ == keys@[j].spec_label()@,
        decreases keys@.len() - i,
    {
        out.push(string_of(keys[i].label()));
        i = i + 1;
    }
    assert(out@.map_values(|s: String| s@) =~= spec_key_labels(keys@));
    out
}

/// The key labels joined by `sep`.
pub fn join_key_labels(keys: &Vec<KeyCode>, sep: &str) -> (r: String)
    ensures
        r@ == spec_join(spec_key_labels(keys@), sep@),
{
    let labels = key_labels(keys);
    join_strings(&labels, sep)
}

/* Actions */

pub open spec fn spec_advanced_label(action: AdvancedActionModel) -> Seq<char> {
    match action {
        AdvancedActionModel::PointerDrag { button: None, .. } => "按手势坐标移动"@,
        AdvancedActionModel::PointerDrag { button: Some(_), .. } => "指针拖拽"@,
        AdvancedActionModel::PointerWheel { .. } => "滚轮缩放"@,
        AdvancedActionModel::PointerRotate { .. } => "旋转控制"@,
        AdvancedActionModel::PointerClick { button, .. } => match button {
            MouseButton::Left => "左键单击"@,
            MouseButton::Right => "右键单击"@,
        },
        AdvancedActionModel::ReleaseActiveKeys => "释放KeyDown状态键"@,
        AdvancedActionModel::ReservedRadialMenu => "径向菜单"@,
    }
}

pub fn advanced_label(action: &AdvancedAction) -> (r: &'static str)
    ensures
        r@ == spec_advanced_label(action@),
{
    match action {
        AdvancedAction::PointerDrag { button: None, .. } => "按手势坐标移动",
        AdvancedAction::PointerDrag { button: Some(_), .. } => "指针拖拽",
        AdvancedAction::PointerWheel { .. } => "滚轮缩放",
        AdvancedAction::PointerRotate { .. } => "旋转控制",
        AdvancedAction::PointerClick { button, .. } => match button {
            MouseButton::Left => "左键单击",
            MouseButton::Right => "右键单击",
        },
        AdvancedAction::ReleaseActiveKeys => "释放KeyDown状态键",
        AdvancedAction::ReservedRadialMenu => "径向菜单",
    }
}

/// The outer slots of the radial menu, each as its keys joined by `+`.
pub open spec fn spec_outer_slot_texts(menu: RadialMenuModel) -> Seq<Seq<char>> {
    menu.outer.map_values(|keys: Seq<KeyCode>| spec_join(spec_key_labels(keys), "+"@))
}

/// The detail line of an advanced action.
pub open spec fn spec_advanced_detail(action: AdvancedActionModel, menu: RadialMenuModel) -> Seq<char> {
    match action {
        AdvancedActionModel::PointerDrag { modifiers, button } => match button {
            Some(b) => spec_join(spec_key_labels(modifiers), " + "@) + " + "@
                + spec_mouse_button_label(b),
            None => spec_join(spec_key_labels(modifiers), " + "@) + " + 按手势坐标移动"@,
        },
        AdvancedActionModel::PointerWheel { modifiers } => spec_join(
            spec_key_labels(modifiers),
            " + "@,
        ) + " + 鼠标滚轮"@,
        AdvancedActionModel::PointerRotate { modifiers } => spec_join(
            spec_key_labels(modifiers),
            " + "@,
        ) + " + 鼠标旋转"@,
        AdvancedActionModel::PointerClick { keys, button, anchor } => spec_join(
            spec_key_labels(keys),
            " + "@,
        ) + " + "@ + spec_mouse_button_label(button) + "；锚点："@ + spec_pointer_anchor_label(
            anchor,
        ),
        AdvancedActionModel::ReleaseActiveKeys => "释放所有当前按下或切换保持的按键状态"@,
        AdvancedActionModel::ReservedRadialMenu => "内环已"@ + (if menu.inner_enabled {
            "启用"@
        } else {
            "关闭"@
        }) + "（上 "@ + menu.inner.top.spec_label()@ + " / 右 "@ + menu.inner.right.spec_label()@
            + " / 下 "@ + menu.inner.bottom.spec_label()@ + " / 左 "@
            + menu.inner.left.spec_label()@ + "），外环 8 槽可编辑："@ + spec_join(
            spec_outer_slot_texts(menu),
            " | "@,
        ),
    }
}

fn outer_slot_texts(menu: &RadialMenuConfig) -> (r: Vec<String>)
    ensures
        r@.map_values(|s: String| s@) == spec_outer_slot_texts(menu@),
{
    let mut out: Vec<String> = Vec::new();
    let mut i: usize = 0;
    while i < 8
        invariant
            i <= 8,
            out@.len() == i,
            forall|j: int|
                0 <= j < i ==> (#[trigger] out@[j])@ == spec_join(
                    spec_key_labels(menu.outer@[j].keys@),
                    "+"@,
                ),
        decreases 8 - i,
    {
        out.push(join_key_labels(&menu.outer[i].keys, "+"));
        i = i + 1;
    }
    assert(out@.map_values(|s: String| s@) =~= spec_outer_slot_texts(menu@));
    out
}

pub fn advanced_detail(action: &AdvancedAction, profile: &ShortcutProfile) -> (r: String)
    ensures
        r@ == spec_advanced_detail(action@, profile@.radial_menu),
{
    match action {
        AdvancedAction::PointerDrag { modifiers, button } => {
            let mut s = join_key_labels(modifiers, " + ");
            match button {
                Some(b) => {
                    push_str(&mut s, " + ");
                    push_str(&mut s, mouse_button_label(*b));
                },
                None => push_str(&mut s, " + 按手势坐标移动"),
            }
            assert(s@ =~= spec_advanced_detail(action@, profile@.radial_menu));
            s
        },
        AdvancedAction::PointerWheel { modifiers } => {
            let mut s = join_key_labels(modifiers, " + ");
            push_str(&mut s, " + 鼠标滚轮");
            s
        },
        AdvancedAction::PointerRotate { modifiers } => {
            let mut s = join_key_labels(modifiers, " + ");
            push_str(&mut s, " + 鼠标旋转");
            s
        },
        AdvancedAction::PointerClick { keys, button, anchor } => {
            let mut s = join_key_labels(keys, " + ");
            push_str(&mut s, " + ");
            push_str(&mut s, mouse_button_label(*button));
            push_str(&mut s, "；锚点：");
            push_str(&mut s, pointer_anchor_label(*anchor));
            assert(s@ =~= spec_advanced_detail(action@, profile@.radial_menu));
            s
        },
        AdvancedAction::ReleaseActiveKeys => string_of("释放所有当前按下或切换保持的按键状态"),
        AdvancedAction::ReservedRadialMenu => {
            let menu = profile.radial_menu();
            let mut s = string_of("内环已");
            if menu.inner_enabled {
                push_str(&mut s, "启用");
            } else {
                push_str(&mut s, "关闭");
            }
            push_str(&mut s, "（上 ");
            push_str(&mut s, menu.inner.top.label());
            push_str(&mut s, " / 右 ");
            push_str(&mut s, menu.inner.right.label());
            push_str(&mut s, " / 下 ");
            push_str(&mut s, menu.inner.bottom.label());
            push_str(&mut s, " / 左 ");
            push_str(&mut s, menu.inner.left.label());
            push_str(&mut s, "），外环 8 槽可编辑：");
            let slots = outer_slot_texts(menu);
            let joined = join_strings(&slots, " | ");
            push_str(&mut s, joined.as_str());
            assert(s@ =~= spec_advanced_detail(action@, profile@.radial_menu));
            s
        },
    }
}

/* Transfer objects */

/// One inner slot of the radial menu, as the desktop shows it.
#[derive(Debug, Clone, PartialEq, Eq)]
pub struct RadialInnerSlotDto {
    pub slot: String,
    pub label: String,
    pub key: String,
}

pub struct RadialInnerSlotDtoModel {
    pub slot: Seq<char>,
    pub label: Seq<char>,
    pub key: Seq<char>,
}

impl View for RadialInnerSlotDto {
    type V = RadialInnerSlotDtoModel;

    open spec fn view(&self) -> RadialInnerSlotDtoModel {
        RadialInnerSlotDtoModel { slot: self.slot@, label: self.label@, key: self.key@ }
    }
}

/// One outer slot of the radial menu, as the desktop shows it.
#[derive(Debug, Clone, PartialEq, Eq)]
pub struct RadialOuterSlotDto {
    pub index: usize,
    pub label: String,
    pub angle_label: String,
    pub keys: Vec<String>,
}

pub struct RadialOuterSlotDtoModel {
    pub index: usize,
    pub label: Seq<char>,
    pub angle_label: Seq<char>,
    pub keys: Seq<Seq<char>>,
}

impl View for RadialOuterSlotDto {
    type V = RadialOuterSlotDtoModel;

    open spec fn view(&self) -> RadialOuterSlotDtoModel {
        RadialOuterSlotDtoModel {
            index: self.index,
            label: self.label@,
            angle_label: self.angle_label@,
            keys: self.keys@.map_values(|k: String| k@),
        }
    }
}

/// An action as the desktop shows it.
#[derive(Debug, Clone, PartialEq, Eq)]
pub enum ActionDto {
    Disabled,
    HoldKey { keys: Vec<String> },
    TriggerChord { keys: Vec<String> },
    Advanced {
        label: String,
        detail: String,
        radial_inner_enabled: bool,
        radial_inner_slots: Vec<RadialInnerSlotDto>,
        radial_outer_slots: Vec<RadialOuterSlotDto>,
    },
}

pub enum ActionDtoModel {
    Disabled,
    HoldKey { keys: Seq<Seq<char>> },
    TriggerChord { keys: Seq<Seq<char>> },
    Advanced {
        label: Seq<char>,
        detail: Seq<char>,
        radial_inner_enabled: bool,
        radial_inner_slots: Seq<RadialInnerSlotDtoModel>,
        radial_outer_slots: Seq<RadialOuterSlotDtoModel>,
    },
}

impl View for ActionDto {
    type V = ActionDtoModel;

    open spec fn view(&self) -> ActionDtoModel {
        match self {
            ActionDto::Disabled => ActionDtoModel::Disabled,
            ActionDto::HoldKey { keys } => ActionDtoModel::HoldKey {
                keys: keys@.map_values(|k: String| k@),
            },
            ActionDto::TriggerChord { keys } => ActionDtoModel::TriggerChord {
                keys: keys@.map_values(|k: String| k@),
            },
            ActionDto::Advanced {
                label,
                detail,
                radial_inner_enabled,
                radial_inner_slots,
                radial_outer_slots,
            } => ActionDtoModel::Advanced {
                label: label@,
                detail: detail@,
                radial_inner_enabled: *radial_inner_enabled,
                radial_inner_slots: radial_inner_slots@.map_values(|d: RadialInnerSlotDto| d@),
                radial_outer_slots: radial_outer_slots@.map_values(|d: RadialOuterSlotDto| d@),
            },
        }
    }
}

/// The inner slots the desktop shows for an action: those of the radial
/// menu, clockwise from the top, for the radial menu action, else none.
pub open spec fn spec_inner_slot_dtos(action: AdvancedActionModel, menu: RadialMenuModel) -> Seq<
    RadialInnerSlotDtoModel,
> {
    if action is ReservedRadialMenu {
        let entries = seq![
            (RadialInnerSlot::Top, menu.inner.top),
            (RadialInnerSlot::Right, menu.inner.right),
            (RadialInnerSlot::Bottom, menu.inner.bottom),
            (RadialInnerSlot::Left, menu.inner.left),
        ];
        entries.map_values(
            |e: (RadialInnerSlot, KeyCode)|
                RadialInnerSlotDtoModel {
                    slot: spec_radial_inner_slot_id(e.0),
                    label: spec_radial_inner_slot_label(e.0),
                    key: e.1.spec_label()@,
                },
        )
    } else {
        Seq::empty()
    }
}

/// The outer slots the desktop shows for an action: the eight of the radial
/// menu for the radial menu action, else none.
pub open spec fn spec_outer_slot_dtos(action: AdvancedActionModel, menu: RadialMenuModel) -> Seq<
    RadialOuterSlotDtoModel,
> {
    if action is ReservedRadialMenu {
        Seq::new(
            8,
            |i: int|
                RadialOuterSlotDtoModel {
                    index: i as usize,
                    label: "外环 "@ + spec_decimal((i + 1) as nat),
                    angle_label: spec_radial_slot_angle_label(i as usize),
                    keys: spec_key_labels(menu.outer[i]),
                },
        )
    } else {
        Seq::empty()
    }
}

pub fn radial_inner_enabled(action: &AdvancedAction, profile: &ShortcutProfile) -> (r: bool)
    ensures
        r == (action@ is ReservedRadialMenu && profile@.radial_menu.inner_enabled),
{
    match action {
        AdvancedAction::ReservedRadialMenu => profile.radial_menu().inner_enabled,
        _ => false,
    }
}

fn inner_slot_dto(slot: RadialInnerSlot, key: KeyCode) -> (r: RadialInnerSlotDto)
    ensures
        r@ == (RadialInnerSlotDtoModel {
            slot: spec_radial_inner_slot_id(slot),
            label: spec_radial_inner_slot_label(slot),
            key: key.spec_label()@,
        }),
{
    RadialInnerSlotDto {
        slot: string_of(radial_inner_slot_id(slot)),
        label: string_of(radial_inner_slot_label(slot)),
        key: string_of(key.label()),
    }
}

pub fn radial_inner_slots(action: &AdvancedAction, profile: &ShortcutProfile) -> (r: Vec<RadialInnerSlotDto>)
    ensures
        r@.map_values(|d: RadialInnerSlotDto| d@) == spec_inner_slot_dtos(action@, profile@.radial_menu),
{
    match action {
        AdvancedAction::ReservedRadialMenu => {
            let inner = profile.radial_menu().inner;
            let r = vec![
                inner_slot_dto(RadialInnerSlot::Top, inner.top),
                inner_slot_dto(RadialInnerSlot::Right, inner.right),
                inner_slot_dto(RadialInnerSlot::Bottom, inner.bottom),
                inner_slot_dto(RadialInnerSlot::Left, inner.left),
            ];
            assert(r@.map_values(|d: RadialInnerSlotDto| d@) =~= spec_inner_slot_dtos(
                action@,
                profile@.radial_menu,
            ));
            r
        },
        _ => {
            let r: Vec<RadialInnerSlotDto> = Vec::new();
            assert(r@.map_values(|d: RadialInnerSlotDto| d@) =~= Seq::<RadialInnerSlotDtoModel>::empty());
            r
        },
    }
}

pub fn radial_outer_slots(action: &AdvancedAction, profile: &ShortcutProfile) -> (r: Vec<RadialOuterSlotDto>)
    ensures
        r@.map_values(|d: RadialOuterSlotDto| d@) == spec_outer_slot_dtos(action@, profile@.radial_menu),
{
    let mut out: Vec<RadialOuterSlotDto> = Vec::new();
    match action {
        AdvancedAction::ReservedRadialMenu => {},
        _ => {
            assert(out@.map_values(|d: RadialOuterSlotDto| d@) =~= Seq::<RadialOuterSlotDtoModel>::empty());
            return out;
        },
    }
    let menu = profile.radial_menu();
    let ghost want = spec_outer_slot_dtos(action@, profile@.radial_menu);
    let mut i: usize = 0;
    while i < 8
        invariant
            i <= 8,
            menu@ == profile@.radial_menu,
            want == spec_outer_slot_dtos(AdvancedActionModel::ReservedRadialMenu, menu@),
            out@.len() == i,
            forall|j: int| 0 <= j < i ==> (#[trigger] out@[j])@ == want[j],
        decreases 8 - i,
    {
        let labels = key_labels(&menu.outer[i].keys);
        let mut label = string_of("外环 ");
        push_str(&mut label, decimal_string((i + 1) as u64).as_str());
        out.push(
            RadialOuterSlotDto {
                index: i,
                label,
                angle_label: string_of(radial_slot_angle_label(i)),
                keys: labels,
            },
        );
        i = i + 1;
    }
    assert(out@.map_values(|d: RadialOuterSlotDto| d@) =~= want);
    out
}

/// An action as the desktop shows it.
pub open spec fn spec_action_dto(action: ShortcutActionModel, menu: RadialMenuModel) -> ActionDtoModel {
    match action {
        ShortcutActionModel::Disabled => ActionDtoModel::Disabled,
        ShortcutActionModel::HoldKeys(keys) => ActionDtoModel::HoldKey { keys: spec_key_labels(keys) },
        ShortcutActionModel::TriggerChord(keys) => ActionDtoModel::TriggerChord {
            keys: spec_key_labels(keys),
        },
        ShortcutActionModel::Advanced(a) => ActionDtoModel::Advanced {
            label: spec_advanced_label(a),
            detail: spec_advanced_detail(a, menu),
            radial_inner_enabled: a is ReservedRadialMenu && menu.inner_enabled,
            radial_inner_slots: spec_inner_slot_dtos(a, menu),
            radial_outer_slots: spec_outer_slot_dtos(a, menu),
        },
    }
}

pub fn action_dto(action: &ShortcutAction, profile: &ShortcutProfile) -> (r: ActionDto)
    ensures
        r@ == spec_action_dto(action@, profile@.radial_menu),
{
    match action {
        ShortcutAction::Disabled => ActionDto::Disabled,
        ShortcutAction::HoldKeys(keys) => ActionDto::HoldKey { keys: key_labels(keys) },
        ShortcutAction::TriggerChord(keys) => ActionDto::TriggerChord { keys: key_labels(keys) },
        ShortcutAction::Advanced(a) => ActionDto::Advanced {
            label: string_of(advanced_label(a)),
            detail: advanced_detail(a, profile),
            radial_inner_enabled: radial_inner_enabled(a, profile),
            radial_inner_slots: radial_inner_slots(a, profile),
            radial_outer_slots: radial_outer_slots(a, profile),
        },
    }
}

/// The keys the desktop lets the user edit for an action, if any.
pub open spec fn spec_editable_keys(action: ShortcutActionModel) -> Option<Seq<Seq<char>>> {
    match action {
        ShortcutActionModel::HoldKeys(keys) => Some(spec_key_labels(keys)),
        ShortcutActionModel::TriggerChord(keys) => Some(spec_key_labels(keys)),
        ShortcutActionModel::Advanced(AdvancedActionModel::PointerDrag { modifiers, .. }) => Some(
            spec_key_labels(modifiers),
        ),
        ShortcutActionModel::Advanced(AdvancedActionModel::PointerWheel { modifiers }) => Some(
            spec_key_labels(modifiers),
        ),
        ShortcutActionModel::Advanced(AdvancedActionModel::PointerRotate { modifiers }) => Some(
            spec_key_labels(modifiers),
        ),
        ShortcutActionModel::Advanced(AdvancedActionModel::PointerClick { keys, .. }) => Some(
            spec_key_labels(keys),
        ),
        _ => None,
    }
}

pub fn editable_keys(action: &ShortcutAction) -> (r: Option<Vec<String>>)
    ensures
        match r {
            Some(v) => spec_editable_keys(action@) == Some(v@.map_values(|s: String| s@)),
            None => spec_editable_keys(action@) is None,
        },
{
    match action {
        ShortcutAction::HoldKeys(keys) => Some(key_labels(keys)),
        ShortcutAction::TriggerChord(keys) => Some(key_labels(keys)),
        ShortcutAction::Advanced(AdvancedAction::PointerDrag { modifiers, .. }) => Some(
            key_labels(modifiers),
        ),
        ShortcutAction::Advanced(AdvancedAction::PointerWheel { modifiers }) => Some(
            key_labels(modifiers),
        ),
        ShortcutAction::Advanced(AdvancedAction::PointerRotate { modifiers }) => Some(
            key_labels(modifiers),
        ),
        ShortcutAction::Advanced(AdvancedAction::PointerClick { keys, .. }) => Some(key_labels(keys)),
        _ => None,
    }
}

/// The identifier of the special behaviour an action has.
pub open spec fn spec_active_special_action(action: ShortcutActionModel) -> Seq<char> {
    match action {
        ShortcutActionModel::Advanced(
            AdvancedActionModel::PointerClick { button: MouseButton::Left, .. },
        ) => "pointerClickLeft"@,
        ShortcutActionModel::Advanced(
            AdvancedActionModel::PointerClick { button: MouseButton::Right, .. },
        ) => "pointerClickRight"@,
        ShortcutActionModel::Advanced(AdvancedActionModel::PointerDrag { button: None, .. }) => "pointerMove"@,
        ShortcutActionModel::Advanced(
            AdvancedActionModel::PointerDrag { button: Some(MouseButton::Left), .. },
        ) => "pointerDragLeft"@,
        ShortcutActionModel::Advanced(
            AdvancedActionModel::PointerDrag { button: Some(MouseButton::Right), .. },
        ) => "pointerDragRight"@,
        ShortcutActionModel::Advanced(AdvancedActionModel::PointerWheel { .. }) => "pointerWheel"@,
        ShortcutActionModel::Advanced(AdvancedActionModel::PointerRotate { .. }) => "pointerRotate"@,
        ShortcutActionModel::Advanced(AdvancedActionModel::ReservedRadialMenu) => "radialMenu"@,
        _ => "none"@,
    }
}

pub fn active_special_action(action: &ShortcutAction) -> (r: &'static str)
    ensures
        r@ == spec_active_special_action(action@),
{
    match action {
        ShortcutAction::Advanced(AdvancedAction::PointerClick { button: MouseButton::Left, .. }) => "pointerClickLeft",
        ShortcutAction::Advanced(AdvancedAction::PointerClick { button: MouseButton::Right, .. }) => "pointerClickRight",
        ShortcutAction::Advanced(AdvancedAction::PointerDrag { button: None, .. }) => "pointerMove",
        ShortcutAction::Advanced(
            AdvancedAction::PointerDrag { button: Some(MouseButton::Left), .. },
        ) => "pointerDragLeft",
        ShortcutAction::Advanced(
            AdvancedAction::PointerDrag { button: Some(MouseButton::Right), .. },
        ) => "pointerDragRight",
        ShortcutAction::Advanced(AdvancedAction::PointerWheel { .. }) => "pointerWheel",
        ShortcutAction::Advanced(AdvancedAction::PointerRotate { .. }) => "pointerRotate",
        ShortcutAction::Advanced(AdvancedAction::ReservedRadialMenu) => "radialMenu",
        _ => "none",
    }
}

/// A special behaviour offered for a binding.
#[derive(Debug, Clone, PartialEq, Eq)]
pub struct SpecialActionOptionDto {
    pub id: String,
    pub label: String,
}

impl View for SpecialActionOptionDto {
    type V = (Seq<char>, Seq<char>);

    open spec fn view(&self) -> (Seq<char>, Seq<char>) {
        (self.id@, self.label@)
    }
}

/// The special behaviours the desktop offers for a binding, with their names.
pub open spec fn spec_special_action_options(binding: BindingId) -> Seq<(Seq<char>, Seq<char>)> {
    match binding {
        BindingId::StylusTrigger(StylusTrigger::FourTap) => Seq::empty(),
        BindingId::StylusTrigger(_) => seq![
            ("none"@, "无特殊动作"@),
            ("pointerClickLeft"@, "鼠标左键"@),
            ("pointerClickRight"@, "鼠标右键"@),
        ],
        BindingId::Gesture(GestureBinding::TwoPan) | BindingId::Gesture(GestureBinding::ThreePan) => seq![
            ("none"@, "无特殊动作"@),
            ("radialMenu"@, "径向菜单"@),
            ("pointerMove"@, "按手势坐标移动"@),
            ("pointerDragLeft"@, "按住左键移动"@),
            ("pointerDragRight"@, "按住右键移动"@),
        ],
        BindingId::Gesture(GestureBinding::TwoPinch) => seq![
            ("none"@, "无特殊动作"@),
            ("pointerWheel"@, "鼠标滚轮"@),
        ],
        BindingId::Gesture(GestureBinding::TwoRotate) => seq![
            ("none"@, "无特殊动作"@),
            ("pointerRotate"@, "按旋转角度移动"@),
        ],
        _ => Seq::empty(),
    }
}

fn option(id: &str, label: &str) -> (r: SpecialActionOptionDto)
    ensures
        r@ == (id@, label@),
{
    SpecialActionOptionDto { id: string_of(id), label: string_of(label) }
}

pub fn special_action_options(binding: BindingId) -> (r: Vec<SpecialActionOptionDto>)
    ensures
        r@.map_values(|o: SpecialActionOptionDto| o@) == spec_special_action_options(binding),
{
    let r = match binding {
        BindingId::StylusTrigger(StylusTrigger::FourTap) => Vec::new(),
        BindingId::StylusTrigger(_) => vec![
            option("none", "无特殊动作"),
            option("pointerClickLeft", "鼠标左键"),
            option("pointerClickRight", "鼠标右键"),
        ],
        BindingId::Gesture(GestureBinding::TwoPan) | BindingId::Gesture(GestureBinding::ThreePan) => vec![
            option("none", "无特殊动作"),
            option("radialMenu", "径向菜单"),
            option("pointerMove", "按手势坐标移动"),
            option("pointerDragLeft", "按住左键移动"),
            option("pointerDragRight", "按住右键移动"),
        ],
        BindingId::Gesture(GestureBinding::TwoPinch) => vec![
            option("none", "无特殊动作"),
            option("pointerWheel", "鼠标滚轮"),
        ],
        BindingId::Gesture(GestureBinding::TwoRotate) => vec![
            option("none", "无特殊动作"),
            option("pointerRotate", "按旋转角度移动"),
        ],
        _ => Vec::new(),
    };
    assert(r@.map_values(|o: SpecialActionOptionDto| o@) =~= spec_special_action_options(binding));
    r
}

/// One binding as the desktop lists it.
#[derive(Debug, Clone, PartialEq, Eq)]
pub struct BindingDto {
    pub id: String,
    pub label: String,
    pub category: String,
    pub preset_action: ActionDto,
    pub current_action: ActionDto,
    pub uses_preset: bool,
    pub editable_keys: Option<Vec<String>>,
    pub special_actions: Vec<SpecialActionOptionDto>,
    pub active_special_action: String,
}

pub struct BindingDtoModel {
    pub id: Seq<char>,
    pub label: Seq<char>,
    pub category: Seq<char>,
    pub preset_action: ActionDtoModel,
    pub current_action: ActionDtoModel,
    pub uses_preset: bool,
    pub editable_keys: Option<Seq<Seq<char>>>,
    pub special_actions: Seq<(Seq<char>, Seq<char>)>,
    pub active_special_action: Seq<char>,
}

impl View for BindingDto {
    type V = BindingDtoModel;

    open spec fn view(&self) -> BindingDtoModel {
        BindingDtoModel {
            id: self.id@,
            label: self.label@,
            category: self.category@,
            preset_action: self.preset_action@,
            current_action: self.current_action@,
            uses_preset: self.uses_preset,
            editable_keys: match self.editable_keys {
                Some(v) => Some(v@.map_values(|s: String| s@)),
                None => None,
            },
            special_actions: self.special_actions@.map_values(|o: SpecialActionOptionDto| o@),
            active_special_action: self.active_special_action@,
        }
    }
}

/// How the desktop lists `binding` under `profile`; with `preset_only` the
/// factory action is shown as the current one.
pub open spec fn spec_binding_dto(profile: ShortcutProfileModel, binding: BindingId, preset_only: bool) -> BindingDtoModel {
    let preset = spec_default_action(binding);
    let current = if preset_only {
        preset
    } else {
        spec_action_for(profile, binding)
    };
    BindingDtoModel {
        id: binding.spec_persisted_key(),
        label: spec_binding_label(binding),
        category: spec_category_label(binding),
        preset_action: spec_action_dto(preset, profile.radial_menu),
        current_action: spec_action_dto(current, profile.radial_menu),
        uses_preset: preset_only || !profile.custom_bindings.contains_key(binding),
        editable_keys: spec_editable_keys(current),
        special_actions: spec_special_action_options(binding),
        active_special_action: spec_active_special_action(current),
    }
}

/// The identifier the desktop uses for a binding.
pub fn binding_id(binding: BindingId) -> (r: String)
    ensures
        r@ == binding.spec_persisted_key(),
{
    binding.persisted_key()
}

/// The binding the desktop names `value`; an unknown name is an error.
pub fn parse_binding_id(value: &str) -> (r: Result<BindingId, AppError>)
    ensures
        r matches Ok(b) ==> spec_all_bindings().contains(b) && b.spec_persisted_key() == value@,
        r matches Err(e) ==> e@ == AppErrorModel::DesktopShell("unknown binding id: "@ + value@)
            && forall|i: int|
            0 <= i < spec_all_bindings().len() ==> (#[trigger] spec_all_bindings()[i]).spec_persisted_key()
                != value@,
        match r {
            Ok(b) => spec_binding_for_key(value@) == Some(b),
            Err(_) => spec_binding_for_key(value@) is None,
        },
{
    match BindingId::parse_persisted_key(value) {
        Some(b) => Ok(b),
        None => {
            let mut message = string_of("unknown binding id: ");
            push_str(&mut message, value);
            Err(AppError::DesktopShell(message))
        },
    }
}

fn binding_dto(profile: &ShortcutProfile, binding: BindingId, preset_only: bool) -> (r: BindingDto)
    ensures
        r@ == spec_binding_dto(profile@, binding, preset_only),
{
    let preset_action = profile.preset_action_for(binding);
    let current_action = if preset_only {
        preset_action.duplicate()
    } else {
        profile.action_for(binding)
    };
    let uses_preset = preset_only || !profile.has_custom_binding(binding);
    BindingDto {
        id: binding_id(binding),
        label: binding_label(binding),
        category: string_of(category_label(binding)),
        preset_action: action_dto(&preset_action, profile),
        current_action: action_dto(&current_action, profile),
        uses_preset,
        editable_keys: editable_keys(&current_action),
        special_actions: special_action_options(binding),
        active_special_action: string_of(active_special_action(&current_action)),
    }
}

/// Every listed binding as the desktop shows it, in listing order.
pub fn binding_dtos(profile: &ShortcutProfile, preset_only: bool) -> (r: Vec<BindingDto>)
    ensures
        r@.map_values(|d: BindingDto| d@) == spec_all_bindings().map_values(
            |b: BindingId| spec_binding_dto(profile@, b, preset_only),
        ),
{
    let bindings = all_bindings();
    let mut out: Vec<BindingDto> = Vec::new();
    let mut i: usize = 0;
    while i < bindings.len()
        invariant
            bindings@ == spec_all_bindings(),
            i <= bindings@.len(),
            out@.len() == i,
            forall|j: int| 0 <= j < i ==> (#[trigger] out@[j])@ == spec_binding_dto(profile@, bindings@[j], preset_only),
        decreases bindings@.len() - i,
    {
        out.push(binding_dto(profile, bindings[i], preset_only));
        i = i + 1;
    }
    assert(out@.map_values(|d: BindingDto| d@) =~= spec_all_bindings().map_values(
        |b: BindingId| spec_binding_dto(profile@, b, preset_only),
    ));
    out
}

/// A preset as the desktop lists it.
#[derive(Debug, Clone, PartialEq, Eq)]
pub struct ShortcutPresetDto {
    pub id: String,
    pub name: String,
    pub active: bool,
}

impl View for ShortcutPresetDto {
    type V = (Seq<char>, Seq<char>, bool);

    open spec fn view(&self) -> (Seq<char>, Seq<char>, bool) {
        (self.id@, self.name@, self.active)
    }
}

/// Every preset as the desktop lists it, the active identifier marked.
pub fn preset_dtos(presets: &ShortcutPresetLibrary) -> (r: Vec<ShortcutPresetDto>)
    ensures
        r@.len() == presets@.presets.len(),
        forall|i: int|
            0 <= i < r@.len() ==> (#[trigger] r@[i])@ == (
                presets@.presets[i].id,
                presets@.presets[i].name,
                presets@.presets[i].id == presets@.active_preset_id,
            ),
{
    let mut out: Vec<ShortcutPresetDto> = Vec::new();
    let mut i: usize = 0;
    while i < presets.presets.len()
        invariant
            i <= presets@.presets.len(),
            out@.len() == i,
            forall|j: int|
                0 <= j < i ==> (#[trigger] out@[j])@ == (
                    presets@.presets[j].id,
                    presets@.presets[j].name,
                    presets@.presets[j].id == presets@.active_preset_id,
                ),
        decreases presets@.presets.len() - i,
    {
        let preset = &presets.presets[i];
        out.push(
            ShortcutPresetDto {
                id: preset.id.clone(),
                name: preset.name.clone(),
                active: str_eq(preset.id.as_str(), presets.active_preset_id.as_str()),
            },
        );
        i = i + 1;
    }
    out
}

/// A monitor as the desktop lists it.
#[derive(Debug, Clone, PartialEq, Eq)]
pub struct MonitorDto {
    pub id: String,
    pub device_name: String,
    pub label: String,
    pub is_primary: bool,
    pub pixel_width: u32,
    pub pixel_height: u32,
    pub selected: bool,
}

/// The monitor in use, as the desktop shows it.
#[derive(Debug, Clone, PartialEq, Eq)]
pub struct ActiveMonitorDto {
    pub id: String,
    pub device_name: String,
    pub pixel_width: u32,
    pub pixel_height: u32,
}

/// The monitors as the desktop shows them.
#[derive(Debug, Clone, PartialEq, Eq)]
pub struct WorkspaceSnapshotDto {
    pub monitors: Vec<MonitorDto>,
    pub active_monitor: Option<ActiveMonitorDto>,
}

/// The label of a monitor: its device name, its size, and whether it is the primary one.
pub open spec fn spec_monitor_label(m: MonitorInfo) -> Seq<char> {
    m.device_name@ + " ("@ + spec_decimal(m.pixel_width as nat) + "×"@ + spec_decimal(
        m.pixel_height as nat,
    ) + ")"@ + if m.is_primary {
        " · 主显示器"@
    } else {
        ""@
    }
}

fn monitor_label(m: &MonitorInfo) -> (r: String)
    ensures
        r@ == spec_monitor_label(*m),
{
    let mut s = m.device_name.clone();
    push_str(&mut s, " (");
    push_str(&mut s, decimal_string(m.pixel_width as u64).as_str());
    push_str(&mut s, "×");
    push_str(&mut s, decimal_string(m.pixel_height as u64).as_str());
    push_str(&mut s, ")");
    if m.is_primary {
        push_str(&mut s, " · 主显示器");
    } else {
        push_str(&mut s, "");
    }
    assert(s@ =~= spec_monitor_label(*m));
    s
}

/// The monitors and the monitor in use as the desktop shows them; a monitor
/// is selected when its identifier is the active one.
pub fn workspace_snapshot(snapshot: &WorkspaceSnapshot) -> (r: WorkspaceSnapshotDto)
    ensures
        r.monitors@.len() == snapshot.monitors@.len(),
        forall|i: int|
            0 <= i < r.monitors@.len() ==> {
                let d = #[trigger] r.monitors@[i];
                let m = snapshot.monitors@[i];
                &&& d.id@ == m.id@
                &&& d.device_name@ == m.device_name@
                &&& d.label@ == spec_monitor_label(m)
                &&& d.is_primary == m.is_primary
                &&& d.pixel_width == m.pixel_width
                &&& d.pixel_height == m.pixel_height
                &&& d.selected == (snapshot.active_monitor_id matches Some(a) && a@ == m.id@)
            },
        match snapshot.active_workspace {
            Some(w) => r.active_monitor matches Some(a) && a.id@ == w.monitor.id@ && a.device_name@
                == w.monitor.device_name@ && a.pixel_width == w.monitor.pixel_width && a.pixel_height
                == w.monitor.pixel_height,
            None => r.active_monitor is None,
        },
{
    let active_monitor = match &snapshot.active_workspace {
        Some(w) => Some(
            ActiveMonitorDto {
                id: string_of(w.monitor.id.as_str()),
                device_name: w.monitor.device_name.clone(),
                pixel_width: w.monitor.pixel_width,
                pixel_height: w.monitor.pixel_height,
            },
        ),
        None => None,
    };
    let mut monitors: Vec<MonitorDto> = Vec::new();
    let mut i: usize = 0;
    while i < snapshot.monitors.len()
        invariant
            i <= snapshot.monitors@.len(),
            monitors@.len() == i,
            forall|j: int|
                0 <= j < i ==> {
                    let d = #[trigger] monitors@[j];
                    let m = snapshot.monitors@[j];
                    &&& d.id@ == m.id@
                    &&& d.device_name@ == m.device_name@
                    &&& d.label@ == spec_monitor_label(m)
                    &&& d.is_primary == m.is_primary
                    &&& d.pixel_width == m.pixel_width
                    &&& d.pixel_height == m.pixel_height
                    &&& d.selected == (snapshot.active_monitor_id matches Some(a) && a@ == m.id@)
                },
        decreases snapshot.monitors@.len() - i,
    {
        let m = &snapshot.monitors[i];
        let selected = match &snapshot.active_monitor_id {
            Some(a) => str_eq(a.as_str(), m.id.as_str()),
            None => false,
        };
        monitors.push(
            MonitorDto {
                label: monitor_label(m),
                id: string_of(m.id.as_str()),
                device_name: m.device_name.clone(),
                is_primary: m.is_primary,
                pixel_width: m.pixel_width,
                pixel_height: m.pixel_height,
                selected,
            },
        );
        i = i + 1;
    }
    WorkspaceSnapshotDto { monitors, active_monitor }
}

/// Whether a session is in progress.
#[derive(Debug, Clone, Copy, PartialEq, Eq, Structural)]
pub struct SessionStatusDto {
    pub has_active_session: bool,
}

/// How the desktop application was packaged.
#[derive(Debug, Clone, Copy, PartialEq, Eq, Structural)]
pub enum AppDistributionDto {
    Installed,
    Portable,
}

} // verus!
