use vstd::prelude::*;

use crate::shortcut::domain::{RadialInnerSlot, RadialMenuConfig, ScreenPoint};

verus! {

/// The part of the radial menu the pen points at: the dead centre, a slot
/// of the inner toggle ring, or one of the eight outer chord slots.
#[derive(Debug, Clone, Copy, PartialEq, Eq, Structural)]
pub enum RadialSelection {
    Center,
    Inner(RadialInnerSlot),
    Outer(usize),
}

/// Where on the desktop the radial menu is centred.
#[derive(Debug, Clone, Copy, PartialEq, Eq, Structural)]
pub struct RadialAnchor {
    pub center: ScreenPoint,
}

impl RadialAnchor {
    pub fn new(center: ScreenPoint) -> (r: Self)
        ensures
            r.center == center,
    {
        RadialAnchor { center }
    }
}

/// The radial menu anchored at `point`.
pub fn anchor_from_point(point: ScreenPoint) -> (r: RadialAnchor)
    ensures
        r.center == point,
{
    RadialAnchor::new(point)
}

/// What the radial menu overlay draws: where it sits, what is selected,
/// which inner keys are held down, and the menu's bindings.
#[derive(Debug, Clone, PartialEq, Eq)]
pub struct RadialMenuOverlayState {
    pub anchor: RadialAnchor,
    pub selection: RadialSelection,
    pub active_inner_slots: Vec<RadialInnerSlot>,
    pub config: RadialMenuConfig,
}


/// The window that draws the radial menu and the hold indicator. Each
/// desktop platform supplies its own.
pub trait RadialMenuOverlay {
    fn show(&self, state: RadialMenuOverlayState);

    fn update(&self, state: RadialMenuOverlayState);

    fn hide_menu(&self);

    fn sync_hold_indicator(&self, point: Option<ScreenPoint>) {
    }

    fn shutdown(&self) {
    }
}

/// An overlay that draws nothing.
#[derive(Debug, Clone, Copy, PartialEq, Eq)]
pub struct NullRadialMenuOverlay;

impl RadialMenuOverlay for NullRadialMenuOverlay {
    fn show(&self, state: RadialMenuOverlayState) {
    }

    fn update(&self, state: RadialMenuOverlayState) {
    }

    fn hide_menu(&self) {
    }
}

/// An overlay that draws nothing.
pub fn null_radial_menu_overlay() -> (r: NullRadialMenuOverlay)
    ensures
        r == NullRadialMenuOverlay,
{
    NullRadialMenuOverlay
}

} // verus!
