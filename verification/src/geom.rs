//! Points, rectangles and directions on the screen, in device pixels.
use vstd::prelude::*;

verus! {

/// True when `v` is representable as an `i32`.
pub open spec fn i32_fits(v: int) -> bool {
    i32::MIN <= v <= i32::MAX
}

/// Division by a positive divisor that rounds toward zero, as Rust's `/` does on signed integers.
pub open spec fn div_toward_zero(v: int, d: int) -> int {
    if v >= 0 {
        v / d
    } else {
        -((-v) / d)
    }
}

pub open spec fn min_int(a: int, b: int) -> int {
    if a <= b {
        a
    } else {
        b
    }
}

pub open spec fn max_int(a: int, b: int) -> int {
    if a >= b {
        a
    } else {
        b
    }
}

/// A point of the screen.
#[derive(Clone, Copy, Debug, PartialEq, Eq, Structural)]
pub struct Point {
    pub x: i32,
    pub y: i32,
}

impl Point {
    pub fn new(x: i32, y: i32) -> (p: Point)
        ensures
            p.x == x,
            p.y == y,
    {
        Point { x, y }
    }
}

/// A rectangle given by its top-left corner `min` (inclusive) and its
/// bottom-right corner `max` (exclusive).
#[derive(Clone, Copy, Debug, PartialEq, Eq, Structural)]
pub struct Rectangle {
    pub min: Point,
    pub max: Point,
}

/// The four directions of a swipe.
#[derive(Clone, Copy, Debug, PartialEq, Eq, Structural)]
pub enum Dir {
    North,
    East,
    South,
    West,
}

/// Builds the rectangle with corners `(x0, y0)` and `(x1, y1)`.
pub open spec fn rect_of(x0: int, y0: int, x1: int, y1: int) -> Rectangle {
    Rectangle {
        min: Point { x: x0 as i32, y: y0 as i32 },
        max: Point { x: x1 as i32, y: y1 as i32 },
    }
}

/// The corner coordinates of `r` equal the four given numbers.
pub open spec fn rect_is(r: Rectangle, x0: int, y0: int, x1: int, y1: int) -> bool {
    &&& r.min.x == x0
    &&& r.min.y == y0
    &&& r.max.x == x1
    &&& r.max.y == y1
}

impl Rectangle {
    pub fn new(min: Point, max: Point) -> (r: Rectangle)
        ensures
            r.min == min,
            r.max == max,
    {
        Rectangle { min, max }
    }

    /// Shorthand that builds a rectangle from its four coordinates.
    pub fn from_coords(x0: i32, y0: i32, x1: i32, y1: i32) -> (r: Rectangle)
        ensures
            rect_is(r, x0 as int, y0 as int, x1 as int, y1 as int),
    {
        Rectangle { min: Point { x: x0, y: y0 }, max: Point { x: x1, y: y1 } }
    }

    /// The width, computed as the difference of the abscissae
    /// reinterpreted as an unsigned number.
    pub open spec fn spec_width(self) -> u32 {
        (self.max.x - self.min.x) as u32
    }

    pub open spec fn spec_height(self) -> u32 {
        (self.max.y - self.min.y) as u32
    }

    /// The differences of the coordinates that `width` and `height` compute fit in an `i32`.
    pub open spec fn sides_fit(self) -> bool {
        &&& i32_fits(self.max.x - self.min.x)
        &&& i32_fits(self.max.y - self.min.y)
    }

    pub fn width(&self) -> (w: u32)
        requires
            i32_fits(self.max.x - self.min.x),
        ensures
            w == self.spec_width(),
    {
        (self.max.x - self.min.x) as u32
    }

    pub fn height(&self) -> (h: u32)
        requires
            i32_fits(self.max.y - self.min.y),
        ensures
            h == self.spec_height(),
    {
        (self.max.y - self.min.y) as u32
    }

    /// `pt` lies inside the rectangle: the lower bounds are inclusive, the upper ones exclusive.
    pub open spec fn spec_includes(self, pt: Point) -> bool {
        &&& self.min.x <= pt.x < self.max.x
        &&& self.min.y <= pt.y < self.max.y
    }

    pub fn includes(&self, pt: Point) -> (b: bool)
        ensures
            b == self.spec_includes(pt),
    {
        self.min.x <= pt.x && pt.x < self.max.x && self.min.y <= pt.y && pt.y < self.max.y
    }

    /// `rect` lies within `self`, borders included.
    pub open spec fn spec_contains(self, rect: Rectangle) -> bool {
        &&& rect.min.x >= self.min.x
        &&& rect.max.x <= self.max.x
        &&& rect.min.y >= self.min.y
        &&& rect.max.y <= self.max.y
    }

    pub fn contains(&self, rect: &Rectangle) -> (b: bool)
        ensures
            b == self.spec_contains(*rect),
    {
        rect.min.x >= self.min.x && rect.max.x <= self.max.x && rect.min.y >= self.min.y
            && rect.max.y <= self.max.y
    }

    /// The smallest of the four sides of `self` and `rect`, as an `i32`, divided by three.
    pub open spec fn spec_extension_gap(self, rect: Rectangle) -> int {
        let m = min_int(
            min_int(self.spec_width() as int, self.spec_height() as int),
            min_int(rect.spec_width() as int, rect.spec_height() as int),
        );
        div_toward_zero((m as u32) as i32 as int, 3)
    }

    /// `rect` is above `self` and overlaps it horizontally.
    pub open spec fn on_top(self, rect: Rectangle) -> bool {
        self.min.y >= rect.max.y && self.min.x < rect.max.x && rect.min.x < self.max.x
    }

    /// `rect` is at the right of `self` and overlaps it vertically.
    pub open spec fn at_right(self, rect: Rectangle) -> bool {
        rect.min.x >= self.max.x && self.min.y < rect.max.y && rect.min.y < self.max.y
    }

    /// `rect` is below `self` and overlaps it horizontally.
    pub open spec fn below(self, rect: Rectangle) -> bool {
        rect.min.y >= self.max.y && self.min.x < rect.max.x && rect.min.x < self.max.x
    }

    /// `rect` is at the left of `self` and overlaps it vertically.
    pub open spec fn at_left(self, rect: Rectangle) -> bool {
        self.min.x >= rect.max.x && self.min.y < rect.max.y && rect.min.y < self.max.y
    }

    /// `rect` lies next to `self`, on one side, at a distance of at most a third
    /// of the smallest side of the two.
    pub open spec fn spec_extends(self, rect: Rectangle) -> bool {
        let d = self.spec_extension_gap(rect);
        if self.on_top(rect) {
            self.min.y - rect.max.y <= d
        } else if self.at_right(rect) {
            rect.min.x - self.max.x <= d
        } else if self.below(rect) {
            rect.min.y - self.max.y <= d
        } else if self.at_left(rect) {
            self.min.x - rect.max.x <= d
        } else {
            false
        }
    }

    /// None of the subtractions that `extends` makes leaves the range of an `i32`.
    pub open spec fn extends_defined(self, rect: Rectangle) -> bool {
        &&& self.sides_fit()
        &&& rect.sides_fit()
        &&& if self.on_top(rect) {
            i32_fits(self.min.y - rect.max.y)
        } else if self.at_right(rect) {
            i32_fits(rect.min.x - self.max.x)
        } else if self.below(rect) {
            i32_fits(rect.min.y - self.max.y)
        } else if self.at_left(rect) {
            i32_fits(self.min.x - rect.max.x)
        } else {
            true
        }
    }

    pub fn extends(&self, rect: &Rectangle) -> (b: bool)
        requires
            self.extends_defined(*rect),
        ensures
            b == self.spec_extends(*rect),
    {
        let mut m = self.width();
        let h = self.height();
        if h < m {
            m = h;
        }
        let rw = rect.width();
        let rh = rect.height();
        let mut rm = rw;
        if rh < rm {
            rm = rh;
        }
        if rm < m {
            m = rm;
        }
        let dmin: i32 = (m as i32) / 3;
        if self.min.y >= rect.max.y && self.min.x < rect.max.x && rect.min.x < self.max.x {
            (self.min.y - rect.max.y) <= dmin
        } else if rect.min.x >= self.max.x && self.min.y < rect.max.y && rect.min.y < self.max.y {
            (rect.min.x - self.max.x) <= dmin
        } else if rect.min.y >= self.max.y && self.min.x < rect.max.x && rect.min.x < self.max.x {
            (rect.min.y - self.max.y) <= dmin
        } else if self.min.x >= rect.max.x && self.min.y < rect.max.y && rect.min.y < self.max.y {
            (self.min.x - rect.max.x) <= dmin
        } else {
            false
        }
    }

    /// The smallest rectangle that holds both `self` and `rect`.
    pub open spec fn spec_absorb(self, rect: Rectangle) -> Rectangle {
        Rectangle {
            min: Point {
                x: min_int(self.min.x as int, rect.min.x as int) as i32,
                y: min_int(self.min.y as int, rect.min.y as int) as i32,
            },
            max: Point {
                x: max_int(self.max.x as int, rect.max.x as int) as i32,
                y: max_int(self.max.y as int, rect.max.y as int) as i32,
            },
        }
    }

    pub fn absorb(&mut self, rect: &Rectangle)
        ensures
            *final(self) == old(self).spec_absorb(*rect),
    {
        if self.min.x > rect.min.x {
            self.min.x = rect.min.x;
        }
        if self.min.y > rect.min.y {
            self.min.y = rect.min.y;
        }
        if self.max.x < rect.max.x {
            self.max.x = rect.max.x;
        }
        if self.max.y < rect.max.y {
            self.max.y = rect.max.y;
        }
    }
}

/// Every rectangle contains itself.
pub proof fn lemma_contains_reflexive(r: Rectangle)
    ensures
        r.spec_contains(r),
{
}

/// Containment is transitive.
pub proof fn lemma_contains_transitive(a: Rectangle, b: Rectangle, c: Rectangle)
    requires
        a.spec_contains(b),
        b.spec_contains(c),
    ensures
        a.spec_contains(c),
{
}

/// The rectangle that `absorb` leaves holds both rectangles it was made of.
pub proof fn lemma_absorb_contains_both(a: Rectangle, b: Rectangle)
    ensures
        a.spec_absorb(b).spec_contains(a),
        a.spec_absorb(b).spec_contains(b),
{
}

/// Splits `n` into two halves whose sum is `n`, the first one rounded toward zero.
pub fn halves(n: i32) -> (r: (i32, i32))
    ensures
        r.0 == div_toward_zero(n as int, 2),
        r.1 == n - r.0,
        r.0 + r.1 == n,
{
    let small_half = n / 2;
    let big_half = n - small_half;
    (small_half, big_half)
}

} // verus!
