//! A small number of utility functions, mostly for manipulating numbers.

use vstd::prelude::*;
use crate::collisions::{
    on_segment_wide,
    orientation,
    orientation_wide,
    segment_intersects_rect,
    segments_intersect,
    segments_intersect_wide,
    within_extent,
    RectView,
    WidePoint,
};
use crate::vector::{Coords, StorageTy};

pub use crate::collisions::TripletOrientation;

verus! {

/// What an input axis reads: nothing while it rests in its deadzone, which
/// counts as zero.
pub open spec fn axis_value(axis: Option<StorageTy>) -> int {
    match axis {
        Some(v) => v as int,
        None => 0,
    }
}

/// Reads an input axis, taking an axis in its deadzone for zero.
pub fn read_axis(axis: Option<StorageTy>) -> (v: StorageTy)
    ensures
        v == axis_value(axis),
{
    match axis {
        Some(v) => v,
        None => 0,
    }
}

/// `val` brought into the interval from `min` to `max`: `val` itself where it
/// lies strictly between the two, `min` where it is at most `min`, and `max`
/// otherwise. Where `min` exceeds `max` this is `min` or `max`, never `val`.
pub open spec fn clamped(val: int, min: int, max: int) -> int {
    if val > min {
        if val < max {
            val
        } else {
            max
        }
    } else {
        min
    }
}

/// Calls `nalgebra::clamp` on 64-bit integers. The contract restates the
/// two comparisons of that function, which neither panics nor asks that
/// `min` be at most `max`.
#[verifier::external_body]
pub(crate) fn clamp(val: i64, min: i64, max: i64) -> (r: i64)
    ensures
        r == clamped(val as int, min as int, max as int),
{
    nalgebra::clamp(val, min, max)
}

/// The point that a pair of coordinates stands for.
pub open spec fn point_of(p: (StorageTy, StorageTy)) -> Coords {
    Coords { x: p.0 as int, y: p.1 as int }
}

/// The rectangle that stands behind a 4-tuple: the coordinates of its
/// anchor corner, then its width and its height.
pub open spec fn rect_of(r: (StorageTy, StorageTy, StorageTy, StorageTy)) -> RectView {
    RectView { x: r.0 as int, y: r.1 as int, width: r.2 as int, height: r.3 as int }
}

fn widen(p: (StorageTy, StorageTy)) -> (w: WidePoint)
    ensures
        w@ == point_of(p),
        w.reachable(),
{
    WidePoint { x: p.0 as i64, y: p.1 as i64 }
}

/// Determines if the line segment from `l1` to `l2` intersects an edge of
/// the rectangle `r`, given as a 4-tuple of the coordinates of its anchor
/// corner, its width and its height.
pub fn line_intersects_rect(
    l1: (StorageTy, StorageTy),
    l2: (StorageTy, StorageTy),
    r: (StorageTy, StorageTy, StorageTy, StorageTy),
) -> (hit: bool)
    ensures
        hit == segment_intersects_rect(point_of(l1), point_of(l2), rect_of(r)),
{
    // The four corner points of the rectangle, in order around it.
    let r1 = WidePoint { x: r.0 as i64, y: r.1 as i64 };
    let r2 = WidePoint { x: r.0 as i64 + r.2 as i64, y: r.1 as i64 };
    let r3 = WidePoint { x: r.0 as i64 + r.2 as i64, y: r.1 as i64 + r.3 as i64 };
    let r4 = WidePoint { x: r.0 as i64, y: r.1 as i64 + r.3 as i64 };
    let p1 = widen(l1);
    let p2 = widen(l2);

    segments_intersect_wide(p1, p2, r1, r2)
        || segments_intersect_wide(p1, p2, r2, r3)
        || segments_intersect_wide(p1, p2, r3, r4)
        || segments_intersect_wide(p1, p2, r4, r1)
}

/// Determines if the line segment from `a` to `b` intersects the line
/// segment from `c` to `d`.
pub fn line_intersects_line(
    a: (StorageTy, StorageTy),
    b: (StorageTy, StorageTy),
    c: (StorageTy, StorageTy),
    d: (StorageTy, StorageTy),
) -> (hit: bool)
    ensures
        hit == segments_intersect(point_of(a), point_of(b), point_of(c), point_of(d)),
{
    segments_intersect_wide(widen(a), widen(b), widen(c), widen(d))
}

/// Whether the second point of the triplet lies within the bounding box of
/// the first and the third.
pub fn on_segment(
    triplet: ((StorageTy, StorageTy), (StorageTy, StorageTy), (StorageTy, StorageTy)),
) -> (inside: bool)
    ensures
        inside == within_extent(point_of(triplet.0), point_of(triplet.1), point_of(triplet.2)),
{
    on_segment_wide(widen(triplet.0), widen(triplet.1), widen(triplet.2))
}

/// Calculates the orientation of the path through the three points of the
/// triplet, in their order.
pub fn triplet_orientation(
    triplet: ((StorageTy, StorageTy), (StorageTy, StorageTy), (StorageTy, StorageTy)),
) -> (o: TripletOrientation)
    ensures
        o == orientation(point_of(triplet.0), point_of(triplet.1), point_of(triplet.2)),
{
    orientation_wide(widen(triplet.0), widen(triplet.1), widen(triplet.2))
}

} // verus!
