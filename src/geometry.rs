use vstd::prelude::*;

verus! {

/// Largest magnitude of a coordinate or length, in milli-points: the range in
/// which a double-precision screen value converts to an integer exactly.
pub const COORD_LIMIT: i64 = 9007199254740992;

/// A point in global screen coordinates (origin bottom-left, y grows upward).
#[derive(Clone, Copy, Debug, PartialEq, Eq, Structural)]
pub struct Point {
    pub x: i64,
    pub y: i64,
}

/// An axis-aligned rectangle: origin at its bottom-left corner.
#[derive(Clone, Copy, Debug, PartialEq, Eq, Structural)]
pub struct Rect {
    pub x: i64,
    pub y: i64,
    pub width: i64,
    pub height: i64,
}

impl Rect {
    /// Origin and size lie within `COORD_LIMIT`, sizes are not negative.
    pub open spec fn valid(self) -> bool {
        &&& -COORD_LIMIT <= self.x <= COORD_LIMIT
        &&& -COORD_LIMIT <= self.y <= COORD_LIMIT
        &&& 0 <= self.width <= COORD_LIMIT
        &&& 0 <= self.height <= COORD_LIMIT
    }

    /// The closed rectangle holds `p`: edges count as inside.
    pub open spec fn holds(self, p: Point) -> bool {
        &&& self.x <= p.x <= self.x + self.width
        &&& self.y <= p.y <= self.y + self.height
    }

    /// Whether `p` lies in the rectangle, edges included.
    pub fn contains(&self, p: Point) -> (r: bool)
        ensures
            r == self.holds(p),
    {
        let right = self.x as i128 + self.width as i128;
        let top = self.y as i128 + self.height as i128;
        self.x <= p.x && (p.x as i128) <= right && self.y <= p.y && (p.y as i128) <= top
    }
}

/// `d / 2` rounded down, for `d` within twice `COORD_LIMIT`.
pub fn half_down(d: i64) -> (r: i64)
    requires
        -2 * COORD_LIMIT <= d <= 2 * COORD_LIMIT,
    ensures
        r == d / 2,
{
    let r = if d >= 0 {
        d / 2
    } else {
        -((1 - d) / 2)
    };
    assert(r == d / 2) by (nonlinear_arith)
        requires
            d >= 0 ==> r == d / 2,
            d < 0 ==> r == -((1 - d) / 2),
    ;
    r
}

/// A width and a height, in milli-points.
#[derive(Clone, Copy, Debug, PartialEq, Eq, Structural)]
pub struct Size {
    pub width: i64,
    pub height: i64,
}

} // verus!
