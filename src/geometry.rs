use vstd::prelude::*;

verus! {

/// An axis-aligned rectangle in screen pixels: top-left corner `(x, y)`,
/// width `w` and height `h`, with `y` growing downwards.
#[derive(Clone, Copy, Debug, PartialEq, Eq)]
pub struct Bounds {
    pub x: i32,
    pub y: i32,
    pub w: i32,
    pub h: i32,
}

/// Largest magnitude of a coordinate or length handled by the overlap
/// tests: room for any `i32` value shifted by another.
pub const COORD_LIMIT: i64 = 0x1_0000_0000;

/// Two intervals `[a0, a0 + alen)` and `[b0, b0 + blen)`, both non-empty,
/// share at least one point.
pub open spec fn spans_overlap(a0: int, alen: int, b0: int, blen: int) -> bool {
    &&& alen > 0
    &&& blen > 0
    &&& a0 < b0 + blen
    &&& b0 < a0 + alen
}

/// Whether the interval `[a0, a0 + alen)` meets `[b0, b0 + blen)`, both
/// counted empty when their length is not positive.
fn spans_meet(a0: i64, alen: i64, b0: i64, blen: i64) -> (r: bool)
    requires
        -COORD_LIMIT <= a0 <= COORD_LIMIT,
        -COORD_LIMIT <= alen <= COORD_LIMIT,
        -COORD_LIMIT <= b0 <= COORD_LIMIT,
        -COORD_LIMIT <= blen <= COORD_LIMIT,
    ensures
        r == spans_overlap(a0 as int, alen as int, b0 as int, blen as int),
{
    alen > 0 && blen > 0 && a0 < b0 + blen && b0 < a0 + alen
}

/// The rectangle at `(x, y)` of size `w` by `h` and the rectangle `b` have
/// a common point (a rectangle without area meets nothing).
pub open spec fn meets(x: int, y: int, w: int, h: int, b: Bounds) -> bool {
    spans_overlap(x, w, b.x as int, b.w as int) && spans_overlap(y, h, b.y as int, b.h as int)
}

/// Whether the rectangle at `(x, y)` of size `w` by `h` meets `b`.
pub fn meets_at(x: i64, y: i64, w: i64, h: i64, b: &Bounds) -> (r: bool)
    requires
        -COORD_LIMIT <= x <= COORD_LIMIT,
        -COORD_LIMIT <= y <= COORD_LIMIT,
        -COORD_LIMIT <= w <= COORD_LIMIT,
        -COORD_LIMIT <= h <= COORD_LIMIT,
    ensures
        r == meets(x as int, y as int, w as int, h as int, *b),
{
    spans_meet(x, w, b.x as i64, b.w as i64) && spans_meet(y, h, b.y as i64, b.h as i64)
}

impl Bounds {
    /// Whether this rectangle and `other` have a common point.
    pub fn intersects(&self, other: &Bounds) -> (r: bool)
        ensures
            r == meets(self.x as int, self.y as int, self.w as int, self.h as int, *other),
    {
        meets_at(self.x as i64, self.y as i64, self.w as i64, self.h as i64, other)
    }
}

} // verus!
