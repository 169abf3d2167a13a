//! Events of the touch screen and of the buttons of the device.
use vstd::prelude::*;
use crate::geom::Point;

verus! {

/// Phase of a finger's contact with the touch screen.
#[derive(Clone, Copy, Debug, PartialEq, Eq, Structural)]
pub enum FingerStatus {
    Down,
    Motion,
    Up,
}

/// Hardware buttons of the device.
#[derive(Clone, Copy, Debug, PartialEq, Eq, Structural)]
pub enum ButtonCode {
    Power,
    Home,
    Light,
    Backward,
    Forward,
    Erase,
    Highlight,
    Raw(u16),
}

#[derive(Clone, Copy, Debug, PartialEq, Eq, Structural)]
pub enum ButtonStatus {
    Released,
    Pressed,
    Repeated,
}

/// A raw event of the device. Time stamps are left out.
#[allow(inconsistent_fields)]
#[derive(Clone, Copy, Debug, PartialEq, Eq, Structural)]
pub enum DeviceEvent {
    Finger { id: i32, status: FingerStatus, position: Point },
    Button { code: ButtonCode, status: ButtonStatus },
    Plug,
    Unplug,
    CoverOn,
    CoverOff,
}

} // verus!
