//! Axis-aligned rectangles in whole surface pixels, and the sub-pixel travel
//! that moving entities accumulate between frames.

use vstd::prelude::*;

verus! {

/// An axis-aligned rectangle: `(x, y)` is its top-left corner and `w`, `h`
/// its size. Sizes are unsigned, so they are never negative.
#[derive(Clone, Copy, Debug, PartialEq, Eq, Structural)]
pub struct Rectangle {
    pub x: i32,
    pub y: i32,
    pub w: u32,
    pub h: u32,
}

/// `inner` lies entirely within `outer` (edges may touch).
pub open spec fn contains_spec(outer: Rectangle, inner: Rectangle) -> bool {
    &&& outer.x <= inner.x
    &&& inner.x + inner.w <= outer.x + outer.w
    &&& outer.y <= inner.y
    &&& inner.y + inner.h <= outer.y + outer.h
}

/// The two rectangles share some area.
pub open spec fn overlaps_spec(a: Rectangle, b: Rectangle) -> bool {
    &&& a.x < b.x + b.w
    &&& b.x < a.x + a.w
    &&& a.y < b.y + b.h
    &&& b.y < a.y + a.h
}

/// One coordinate pushed into `[lo, lo + span - len]`: when it sticks out on
/// the low side it goes to `lo`, on the high side to the far end.
pub open spec fn clamp_coord(pos: int, len: int, lo: int, span: int) -> int {
    if pos < lo {
        lo
    } else if pos + len >= lo + span {
        lo + span - len
    } else {
        pos
    }
}

/// `r` can be moved inside `bound` exactly when neither side is longer.
pub open spec fn fits_spec(r: Rectangle, bound: Rectangle) -> bool {
    r.w <= bound.w && r.h <= bound.h
}

/// What `move_inside` gives for a rectangle that fits.
pub open spec fn moved_inside(r: Rectangle, bound: Rectangle) -> Rectangle {
    Rectangle {
        x: clamp_coord(r.x as int, r.w as int, bound.x as int, bound.w as int) as i32,
        y: clamp_coord(r.y as int, r.h as int, bound.y as int, bound.h as int) as i32,
        w: r.w,
        h: r.h,
    }
}

/// A rectangle that fits in `bound`, moved inside it, lies within `bound`
/// and keeps its size.
pub proof fn lemma_moved_inside_contained(r: Rectangle, bound: Rectangle)
    requires
        fits_spec(r, bound),
    ensures
        contains_spec(bound, moved_inside(r, bound)),
        moved_inside(r, bound).w == r.w,
        moved_inside(r, bound).h == r.h,
{
}

fn clamp_axis(pos: i32, len: u32, lo: i32, span: u32) -> (r: i32)
    requires
        len <= span,
    ensures
        r as int == clamp_coord(pos as int, len as int, lo as int, span as int),
        lo <= r,
        r + len <= lo + span,
{
    if pos < lo {
        lo
    } else if pos as i64 + len as i64 >= lo as i64 + span as i64 {
        (lo as i64 + (span - len) as i64) as i32
    } else {
        pos
    }
}

impl Rectangle {
    /// Whether `other` lies entirely within this rectangle.
    pub fn contains(&self, other: &Rectangle) -> (r: bool)
        ensures
            r == contains_spec(*self, *other),
    {
        self.x <= other.x && other.x as i64 + other.w as i64 <= self.x as i64 + self.w as i64
            && self.y <= other.y && other.y as i64 + other.h as i64 <= self.y as i64
            + self.h as i64
    }

    /// Whether the two rectangles share some area.
    pub fn overlaps(&self, other: &Rectangle) -> (r: bool)
        ensures
            r == overlaps_spec(*self, *other),
    {
        (self.x as i64) < other.x as i64 + other.w as i64 && (other.x as i64) < self.x as i64
            + self.w as i64 && (self.y as i64) < other.y as i64 + other.h as i64
            && (other.y as i64) < self.y as i64 + self.h as i64
    }

    /// Moves the rectangle by as little as needed to lie within `bound`,
    /// keeping its size. Fails when it is wider or taller than `bound`.
    pub fn move_inside(self, bound: Rectangle) -> (r: Option<Rectangle>)
        ensures
            r is None <==> !fits_spec(self, bound),
            r matches Some(m) ==> m == moved_inside(self, bound) && contains_spec(bound, m),
    {
        if self.w > bound.w || self.h > bound.h {
            return None;
        }
        Some(
            Rectangle {
                x: clamp_axis(self.x, self.w, bound.x, bound.w),
                y: clamp_axis(self.y, self.h, bound.y, bound.h),
                w: self.w,
                h: self.h,
            },
        )
    }
}

/// Thousandths of a pixel in one pixel.
pub const MILLI: u64 = 1000;

/// Whole pixels and the remainder reached by travelling at `speed` pixels
/// per second for `dt_ms` milliseconds, on top of a remainder `carry`
/// (thousandths of a pixel) left by earlier frames.
pub open spec fn travel_spec(carry: u32, speed: u32, dt_ms: u32) -> (int, int) {
    let total = carry + speed * dt_ms;
    (total / 1000, total % 1000)
}

/// Advances a travel by one frame: returns the whole pixels covered and the
/// new remainder, so that no fraction of the distance is ever lost.
pub fn travel(carry: u32, speed: u32, dt_ms: u32) -> (r: (u64, u32))
    ensures
        (r.0 as int, r.1 as int) == travel_spec(carry, speed, dt_ms),
        r.1 < 1000,
        r.0 < 0x0080_0000_0000_0000,
        r.0 * 1000 + r.1 == carry + speed * dt_ms,
{
    assert(speed * dt_ms <= 0xffff_ffff * 0xffff_ffff) by (nonlinear_arith)
        requires
            speed <= 0xffff_ffff,
            dt_ms <= 0xffff_ffff,
    ;
    let prod: u64 = speed as u64 * dt_ms as u64;
    let total: u64 = carry as u64 + prod;
    assert(total / 1000 < 0x0080_0000_0000_0000) by (nonlinear_arith)
        requires
            total <= 0xffff_ffff_ffff_ffff,
    ;
    (total / MILLI, (total % MILLI) as u32)
}

} // verus!
