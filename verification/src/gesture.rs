//! Gestures recognised from the finger events.
use vstd::prelude::*;
use crate::geom::{Dir, Point};

verus! {

#[derive(Clone, Copy, Debug, PartialEq, Eq, Structural)]
pub enum GestureEvent {
    Tap(Point),
    HoldFinger(Point),
    Swipe { dir: Dir, start: Point, end: Point },
    Cross(Point),
}

} // verus!
