use vstd::prelude::*;

verus! {

/// A point of the plane, in micro-pixels.
#[derive(Clone, Copy, Debug, PartialEq, Eq, Structural)]
pub struct Point {
    pub x: i64,
    pub y: i64,
}

/// A velocity, in pixels per second (that is, micro-pixels per microsecond).
#[derive(Clone, Copy, Debug, PartialEq, Eq, Structural)]
pub struct Velocity {
    pub x: i64,
    pub y: i64,
}

/// The extent of an axis-aligned box, in micro-pixels.
#[derive(Clone, Copy, Debug, PartialEq, Eq, Structural)]
pub struct Size {
    pub width: i64,
    pub height: i64,
}

pub open spec fn abs(v: int) -> int {
    if v < 0 {
        -v
    } else {
        v
    }
}

/// Two boxes given by centre and size overlap when, on both axes, the distance
/// between the centres is strictly less than half the sum of the extents.
/// Doubling both sides keeps the comparison exact over the integers.
pub open spec fn overlaps(pos_a: Point, size_a: Size, pos_b: Point, size_b: Size) -> bool {
    &&& 2 * abs(pos_a.x - pos_b.x) < size_a.width + size_b.width
    &&& 2 * abs(pos_a.y - pos_b.y) < size_a.height + size_b.height
}

/// Whether `|a - b|` doubled is below `extent_a + extent_b`.
fn axis_overlaps(a: i64, extent_a: i64, b: i64, extent_b: i64) -> (r: bool)
    ensures
        r == (2 * abs(a - b) < extent_a + extent_b),
{
    let d: i128 = a as i128 - b as i128;
    let dist: i128 = if d < 0 {
        -d
    } else {
        d
    };
    2 * dist < extent_a as i128 + extent_b as i128
}

/// Axis-aligned bounding-box test between two boxes given by their centres and
/// sizes. Boxes whose edges only touch do not collide.
pub fn collide(pos_a: Point, size_a: Size, pos_b: Point, size_b: Size) -> (r: bool)
    ensures
        r == overlaps(pos_a, size_a, pos_b, size_b),
{
    axis_overlaps(pos_a.x, size_a.width, pos_b.x, size_b.width) && axis_overlaps(
        pos_a.y,
        size_a.height,
        pos_b.y,
        size_b.height,
    )
}

/// Overlap does not depend on which box is named first.
pub proof fn lemma_overlap_symmetric(pos_a: Point, size_a: Size, pos_b: Point, size_b: Size)
    ensures
        overlaps(pos_a, size_a, pos_b, size_b) == overlaps(pos_b, size_b, pos_a, size_a),
{
}

/// Boxes whose edges just touch along one axis, with no gap and no overlap
/// there, do not collide.
pub proof fn lemma_touching_boxes_do_not_overlap(
    pos_a: Point,
    size_a: Size,
    pos_b: Point,
    size_b: Size,
)
    requires
        2 * abs(pos_a.x - pos_b.x) == size_a.width + size_b.width || 2 * abs(pos_a.y - pos_b.y)
            == size_a.height + size_b.height,
    ensures
        !overlaps(pos_a, size_a, pos_b, size_b),
{
}

/// Two boxes that overlap vertically and touch horizontally, `b` on the right
/// of `a`, collide once `b` moves left by any positive amount `eps` that
/// does not carry it right through `a` (less than the sum of the widths).
pub proof fn lemma_closing_gap_overlaps(
    pos_a: Point,
    size_a: Size,
    pos_b: Point,
    size_b: Size,
    eps: int,
)
    requires
        2 * (pos_b.x - pos_a.x) == size_a.width + size_b.width,
        2 * abs(pos_a.y - pos_b.y) < size_a.height + size_b.height,
        0 < eps < size_a.width + size_b.width,
        i64::MIN <= pos_b.x - eps,
    ensures
        overlaps(pos_a, size_a, Point { x: (pos_b.x - eps) as i64, y: pos_b.y }, size_b),
{
}

} // verus!
