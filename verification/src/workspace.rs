use vstd::prelude::*;

verus! {

/// The stable identifier of a monitor.
#[derive(Debug, Clone, PartialEq, Eq)]
pub struct MonitorId(String);

impl View for MonitorId {
    type V = Seq<char>;

    closed spec fn view(&self) -> Seq<char> {
        self.0@
    }
}

impl MonitorId {
    pub fn new(value: String) -> (r: Self)
        ensures
            r@ == value@,
    {
        MonitorId(value)
    }

    pub fn as_str(&self) -> (r: &str)
        ensures
            r@ == self@,
    {
        self.0.as_str()
    }

    pub fn duplicate(&self) -> (r: Self)
        ensures
            r@ == self@,
    {
        MonitorId(self.0.clone())
    }
}

/// A monitor of the desktop: its size in pixels and its rectangle in the
/// virtual screen.
#[derive(Debug, Clone, PartialEq, Eq)]
pub struct MonitorInfo {
    pub id: MonitorId,
    pub device_name: String,
    pub is_primary: bool,
    pub pixel_width: u32,
    pub pixel_height: u32,
    pub virtual_left: i32,
    pub virtual_top: i32,
    pub virtual_right: i32,
    pub virtual_bottom: i32,
}

impl MonitorInfo {
    pub fn duplicate(&self) -> (r: Self)
        ensures
            r.id@ == self.id@,
            r.device_name@ == self.device_name@,
            r.is_primary == self.is_primary,
            r.pixel_width == self.pixel_width,
            r.pixel_height == self.pixel_height,
            r.virtual_left == self.virtual_left,
            r.virtual_top == self.virtual_top,
            r.virtual_right == self.virtual_right,
            r.virtual_bottom == self.virtual_bottom,
    {
        MonitorInfo {
            id: self.id.duplicate(),
            device_name: self.device_name.clone(),
            is_primary: self.is_primary,
            pixel_width: self.pixel_width,
            pixel_height: self.pixel_height,
            virtual_left: self.virtual_left,
            virtual_top: self.virtual_top,
            virtual_right: self.virtual_right,
            virtual_bottom: self.virtual_bottom,
        }
    }
}

/// The monitor the tablet draws on.
#[derive(Debug, Clone, PartialEq, Eq)]
pub struct ActiveWorkspace {
    pub monitor: MonitorInfo,
}

/// The monitors of the desktop and which one is in use.
#[derive(Debug, Clone, PartialEq, Eq)]
pub struct WorkspaceSnapshot {
    pub monitors: Vec<MonitorInfo>,
    pub active_monitor_id: Option<MonitorId>,
    pub active_workspace: Option<ActiveWorkspace>,
}

} // verus!
