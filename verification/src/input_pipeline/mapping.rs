use vstd::prelude::*;

use crate::protocol::model::{StylusEventType, StylusFlags, StylusFrame};
use crate::workspace::MonitorInfo;

verus! {

/// The largest coordinate of the tablet's logical axes.
pub const LOGICAL_COORD_MAX: u16 = 32_767;

/// The largest pen pressure the injectors accept.
pub const WINDOWS_PRESSURE_MAX: u32 = 1_024;

pub const WINDOWS_TILT_MIN: i32 = -90;

pub const WINDOWS_TILT_MAX: i32 = 90;

/// What an injected pen sample does to the pen's contact.
#[derive(Debug, Clone, Copy, PartialEq, Eq, Structural)]
pub enum PenInjectionCommandKind {
    Down,
    Update,
    Up,
    Cancel,
}

/// A pen sample in desktop pixels, ready for the platform's pen injector.
#[derive(Debug, Clone, Copy, PartialEq, Eq, Structural)]
pub struct PenInjectionCommand {
    pub x: i32,
    pub y: i32,
    pub tablet_x: u16,
    pub tablet_y: u16,
    pub kind: PenInjectionCommandKind,
    pub in_range: bool,
    pub is_contact: bool,
    pub pressure: u32,
    pub tilt_x: i32,
    pub tilt_y: i32,
}

/// A logical tablet coordinate scaled onto `pixel_extent` pixels, rounded to nearest.
pub open spec fn spec_scaled_axis(value: u16, pixel_extent: u32) -> int {
    (value * (pixel_extent - 1) + LOGICAL_COORD_MAX / 2) / (LOGICAL_COORD_MAX as int)
}

/// The desktop pixel a logical coordinate falls on.
pub open spec fn spec_map_axis(value: u16, pixel_extent: u32, virtual_origin: i32) -> int {
    if pixel_extent <= 1 {
        virtual_origin as int
    } else {
        virtual_origin + spec_scaled_axis(value, pixel_extent)
    }
}

/// The mapped pixel fits an `i32`, so the mapping is defined.
pub open spec fn axis_maps(value: u16, pixel_extent: u32, virtual_origin: i32) -> bool {
    pixel_extent <= 1 || (spec_scaled_axis(value, pixel_extent) <= i32::MAX
        && i32::MIN <= spec_map_axis(value, pixel_extent, virtual_origin) <= i32::MAX)
}

proof fn lemma_scaled_bounds(value: u16, span: u32)
    ensures
        0 <= value * span + 16_383 <= 65_535 * 4_294_967_295 + 16_383,
        (value * span + 16_383) / 32_767 <= 65_535 * 4_294_967_295 / 32_767 + 1,
{
    assert(0 <= value * span <= 65_535 * 4_294_967_295) by (nonlinear_arith)
        requires
            value <= 65_535,
            span <= 4_294_967_295,
    ;
}

/// Whether [`map_axis`] is defined for these values.
pub fn axis_fits(value: u16, pixel_extent: u32, virtual_origin: i32) -> (r: bool)
    ensures
        r == axis_maps(value, pixel_extent, virtual_origin),
{
    if pixel_extent <= 1 {
        return true;
    }
    proof {
        lemma_scaled_bounds(value, (pixel_extent - 1) as u32);
    }
    let span = pixel_extent - 1;
    let scaled = ((value as u64) * (span as u64) + ((LOGICAL_COORD_MAX / 2) as u64)) / (LOGICAL_COORD_MAX as u64);
    if scaled > i32::MAX as u64 {
        return false;
    }
    let total = virtual_origin as i64 + scaled as i64;
    i32::MIN as i64 <= total && total <= i32::MAX as i64
}

/// The desktop pixel a logical tablet coordinate falls on, along an axis of
/// `pixel_extent` pixels starting at `virtual_origin`.
pub fn map_axis(value: u16, pixel_extent: u32, virtual_origin: i32) -> (r: i32)
    requires
        axis_maps(value, pixel_extent, virtual_origin),
    ensures
        r == spec_map_axis(value, pixel_extent, virtual_origin),
{
    if pixel_extent <= 1 {
        return virtual_origin;
    }
    proof {
        lemma_scaled_bounds(value, (pixel_extent - 1) as u32);
    }
    let span = pixel_extent - 1;
    let scaled = ((value as u64) * (span as u64) + ((LOGICAL_COORD_MAX / 2) as u64)) / (LOGICAL_COORD_MAX as u64);
    virtual_origin + (scaled as i32)
}

/// The pressure sent to the injector: capped at the injector's maximum, and
/// never zero while the pen touches.
pub open spec fn spec_map_pressure(value: u16, is_contact: bool) -> u32 {
    let mapped = if value > WINDOWS_PRESSURE_MAX { WINDOWS_PRESSURE_MAX } else { value as u32 };
    if is_contact && mapped < 1 {
        1
    } else {
        mapped
    }
}

pub fn map_pressure(value: u16, is_contact: bool) -> (r: u32)
    ensures
        r == spec_map_pressure(value, is_contact),
{
    let mapped = if (value as u32) > WINDOWS_PRESSURE_MAX {
        WINDOWS_PRESSURE_MAX
    } else {
        value as u32
    };
    if is_contact && mapped < 1 {
        1
    } else {
        mapped
    }
}

/// A tilt angle clamped to the injector's range of degrees.
pub open spec fn spec_map_tilt(value: i8) -> i32 {
    if value < WINDOWS_TILT_MIN {
        WINDOWS_TILT_MIN
    } else if value > WINDOWS_TILT_MAX {
        WINDOWS_TILT_MAX
    } else {
        value as i32
    }
}

pub fn map_tilt(value: i8) -> (r: i32)
    ensures
        r == spec_map_tilt(value),
{
    let v = value as i32;
    if v < WINDOWS_TILT_MIN {
        WINDOWS_TILT_MIN
    } else if v > WINDOWS_TILT_MAX {
        WINDOWS_TILT_MAX
    } else {
        v
    }
}

pub open spec fn spec_map_command_kind(event_type: StylusEventType) -> PenInjectionCommandKind {
    match event_type {
        StylusEventType::Down => PenInjectionCommandKind::Down,
        StylusEventType::Move => PenInjectionCommandKind::Update,
        StylusEventType::Up => PenInjectionCommandKind::Up,
        StylusEventType::Cancel => PenInjectionCommandKind::Cancel,
    }
}

pub fn map_command_kind(event_type: StylusEventType) -> (r: PenInjectionCommandKind)
    ensures
        r == spec_map_command_kind(event_type),
{
    match event_type {
        StylusEventType::Down => PenInjectionCommandKind::Down,
        StylusEventType::Move => PenInjectionCommandKind::Update,
        StylusEventType::Up => PenInjectionCommandKind::Up,
        StylusEventType::Cancel => PenInjectionCommandKind::Cancel,
    }
}

/// Some pen trigger fired in this sample.
pub open spec fn spec_has_shortcut_pulse(flags: StylusFlags) -> bool {
    flags.bit(2) || flags.bit(3) || flags.bit(4) || flags.bit(5) || flags.bit(6)
}

pub fn has_shortcut_pulse(flags: StylusFlags) -> (r: bool)
    ensures
        r == spec_has_shortcut_pulse(flags),
{
    flags.squeeze() || flags.double_tap() || flags.two_tap() || flags.three_tap() || flags.four_tap()
}

/// Both axes of the frame map onto the monitor.
pub open spec fn frame_maps(monitor: MonitorInfo, frame: StylusFrame) -> bool {
    axis_maps(frame.x, monitor.pixel_width, monitor.virtual_left) && axis_maps(
        frame.y,
        monitor.pixel_height,
        monitor.virtual_top,
    )
}

/// The injector command for a stylus frame on `monitor`, with the pressure
/// already mapped through the pressure curve.
pub open spec fn spec_map_stylus_frame(monitor: MonitorInfo, frame: StylusFrame, pressure: u16) -> PenInjectionCommand {
    PenInjectionCommand {
        x: spec_map_axis(frame.x, monitor.pixel_width, monitor.virtual_left) as i32,
        y: spec_map_axis(frame.y, monitor.pixel_height, monitor.virtual_top) as i32,
        tablet_x: frame.x,
        tablet_y: frame.y,
        kind: spec_map_command_kind(frame.event_type),
        in_range: frame.flags.bit(0),
        is_contact: frame.flags.bit(1),
        pressure: spec_map_pressure(pressure, frame.flags.bit(1)),
        tilt_x: spec_map_tilt(frame.tilt_x),
        tilt_y: spec_map_tilt(frame.tilt_y),
    }
}

/// Whether [`map_stylus_frame`] is defined for this monitor and frame.
pub fn stylus_frame_fits(monitor: &MonitorInfo, frame: &StylusFrame) -> (r: bool)
    ensures
        r == frame_maps(*monitor, *frame),
{
    axis_fits(frame.x, monitor.pixel_width, monitor.virtual_left) && axis_fits(
        frame.y,
        monitor.pixel_height,
        monitor.virtual_top,
    )
}

pub fn map_stylus_frame(monitor: &MonitorInfo, frame: &StylusFrame, pressure: u16) -> (r: PenInjectionCommand)
    requires
        frame_maps(*monitor, *frame),
    ensures
        r == spec_map_stylus_frame(*monitor, *frame, pressure),
{
    let in_range = frame.flags.in_range();
    let is_contact = frame.flags.is_contact();
    PenInjectionCommand {
        x: map_axis(frame.x, monitor.pixel_width, monitor.virtual_left),
        y: map_axis(frame.y, monitor.pixel_height, monitor.virtual_top),
        tablet_x: frame.x,
        tablet_y: frame.y,
        kind: map_command_kind(frame.event_type),
        in_range,
        is_contact,
        pressure: map_pressure(pressure, is_contact),
        tilt_x: map_tilt(frame.tilt_x),
        tilt_y: map_tilt(frame.tilt_y),
    }
}

} // verus!
