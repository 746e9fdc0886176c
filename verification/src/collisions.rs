//! Collision detection and the geometry that supports it: orientation of
//! point triplets, segment against segment, segment against rectangle.
//!
//! Every predicate is decided exactly: cross products are taken in integers
//! wide enough to hold them, so no rounding ever changes a verdict. What
//! holds of the predicates for all points is proved in `laws`.

use vstd::prelude::*;
use crate::vector::{Coords, Point2, Vec2};

pub mod box_collision;
pub mod laws;

verus! {

/// The three cases of possible orientations for triplets of points.
#[derive(Clone, Copy, Debug, PartialEq, Eq, Structural)]
pub enum TripletOrientation {
    Colinear,
    Clockwise,
    Counterclockwise,
}

/// The signed area form of the path from `p` to `q` to `r`: zero when the
/// three points lie on one line, and of opposite signs for the two turning
/// directions.
pub open spec fn cross(p: Coords, q: Coords, r: Coords) -> int {
    (q.y - p.y) * (r.x - q.x) - (q.x - p.x) * (r.y - q.y)
}

/// The orientation of the path from `p` to `q` to `r`, by the sign of `cross`.
pub open spec fn orientation(p: Coords, q: Coords, r: Coords) -> TripletOrientation {
    let v = cross(p, q, r);
    if v == 0 {
        TripletOrientation::Colinear
    } else if v > 0 {
        TripletOrientation::Clockwise
    } else {
        TripletOrientation::Counterclockwise
    }
}

/// `q` lies within the axis-aligned bounding box of `p` and `r`.
pub open spec fn within_extent(p: Coords, q: Coords, r: Coords) -> bool {
    &&& q.x <= vstd::math::max(p.x, r.x)
    &&& q.x >= vstd::math::min(p.x, r.x)
    &&& q.y <= vstd::math::max(p.y, r.y)
    &&& q.y >= vstd::math::min(p.y, r.y)
}

/// The segment from `a` to `b` meets the segment from `c` to `d`: either the
/// endpoints of each lie on different sides of the other, or an endpoint of
/// the first lies on the second. The colinear cases are looked at from the
/// second segment only.
pub open spec fn segments_intersect(a: Coords, b: Coords, c: Coords, d: Coords) -> bool {
    let o1 = orientation(a, b, c);
    let o2 = orientation(a, b, d);
    let o3 = orientation(c, d, a);
    let o4 = orientation(c, d, b);
    ||| (o1 != o2 && o3 != o4)
    ||| (o3 == TripletOrientation::Colinear && within_extent(c, a, d))
    ||| (o4 == TripletOrientation::Colinear && within_extent(c, b, d))
}

/// What a rectangle is in contracts: an anchor corner, and a width and a
/// height that lead from it to the other corners.
pub struct RectView {
    pub x: int,
    pub y: int,
    pub width: int,
    pub height: int,
}

impl RectView {
    /// The anchor corner.
    pub open spec fn corner1(self) -> Coords {
        Coords { x: self.x, y: self.y }
    }

    /// The corner one width away from the anchor.
    pub open spec fn corner2(self) -> Coords {
        Coords { x: self.x + self.width, y: self.y }
    }

    /// The corner opposite the anchor.
    pub open spec fn corner3(self) -> Coords {
        Coords { x: self.x + self.width, y: self.y + self.height }
    }

    /// The corner one height away from the anchor.
    pub open spec fn corner4(self) -> Coords {
        Coords { x: self.x, y: self.y + self.height }
    }

    /// The least `x` of the four corners.
    pub open spec fn min_x(self) -> int {
        vstd::math::min(self.x, self.x + self.width)
    }

    /// The greatest `x` of the four corners.
    pub open spec fn max_x(self) -> int {
        vstd::math::max(self.x, self.x + self.width)
    }

    /// The least `y` of the four corners.
    pub open spec fn min_y(self) -> int {
        vstd::math::min(self.y, self.y + self.height)
    }

    /// The greatest `y` of the four corners.
    pub open spec fn max_y(self) -> int {
        vstd::math::max(self.y, self.y + self.height)
    }
}

/// The rectangle centred on `center` that reaches `half_extent` to each side.
pub open spec fn rect_around(center: Coords, half_extent: Coords) -> RectView {
    RectView {
        x: center.x - half_extent.x,
        y: center.y - half_extent.y,
        width: 2 * half_extent.x,
        height: 2 * half_extent.y,
    }
}

/// The segment from `p1` to `p2` meets one of the four edges of `r`, taken
/// in order around the rectangle. A segment that stays inside the rectangle
/// meets no edge.
pub open spec fn segment_intersects_rect(p1: Coords, p2: Coords, r: RectView) -> bool {
    ||| segments_intersect(p1, p2, r.corner1(), r.corner2())
    ||| segments_intersect(p1, p2, r.corner2(), r.corner3())
    ||| segments_intersect(p1, p2, r.corner3(), r.corner4())
    ||| segments_intersect(p1, p2, r.corner4(), r.corner1())
}

/// A bounding box is the vector from the centre of an object to one of its
/// corners: its half-extent. It is attached to an object once and then kept.
#[derive(Clone, Copy, Debug, PartialEq, Eq, Structural)]
pub struct BoundingBox(pub Vec2);

impl BoundingBox {
    /// A bounding box reaches a non-negative distance along both axes.
    pub open spec fn wf(self) -> bool {
        self.0.x >= 0 && self.0.y >= 0
    }
}

impl From<Vec2> for BoundingBox {
    fn from(vec2: Vec2) -> (bb: Self) {
        BoundingBox(vec2)
    }
}

impl vstd::std_specs::convert::FromSpecImpl<Vec2> for BoundingBox {
    open spec fn obeys_from_spec() -> bool {
        true
    }

    open spec fn from_spec(vec2: Vec2) -> Self {
        BoundingBox(vec2)
    }
}

/// A point with room to spare: corners of rectangles and ends of segments
/// that are derived from stored points may leave the storage range, and are
/// held in this wider form.
#[derive(Clone, Copy, Debug, PartialEq, Eq, Structural)]
pub(crate) struct WidePoint {
    pub x: i64,
    pub y: i64,
}

/// The largest coordinate, in absolute value, that the exact predicates take.
pub(crate) const REACH: i64 = 0x4_0000_0000;

impl WidePoint {
    pub(crate) open spec fn view(self) -> Coords {
        Coords { x: self.x as int, y: self.y as int }
    }

    pub(crate) open spec fn reachable(self) -> bool {
        &&& -REACH <= self.x <= REACH
        &&& -REACH <= self.y <= REACH
    }

    pub(crate) fn of(p: Point2) -> (w: Self)
        ensures
            w@ == p@,
            w.reachable(),
    {
        WidePoint { x: p.x as i64, y: p.y as i64 }
    }
}

pub(crate) fn orientation_wide(p: WidePoint, q: WidePoint, r: WidePoint) -> (o: TripletOrientation)
    requires
        p.reachable(),
        q.reachable(),
        r.reachable(),
    ensures
        o == orientation(p@, q@, r@),
{
    let rise: i128 = (q.y - p.y) as i128;
    let run: i128 = (q.x - p.x) as i128;
    let ahead_x: i128 = (r.x - q.x) as i128;
    let ahead_y: i128 = (r.y - q.y) as i128;
    assert(-0x100_0000_0000_0000_0000 <= rise * ahead_x <= 0x100_0000_0000_0000_0000)
        by (nonlinear_arith)
        requires
            -0x10_0000_0000 <= rise <= 0x10_0000_0000,
            -0x10_0000_0000 <= ahead_x <= 0x10_0000_0000,
    ;
    assert(-0x100_0000_0000_0000_0000 <= run * ahead_y <= 0x100_0000_0000_0000_0000)
        by (nonlinear_arith)
        requires
            -0x10_0000_0000 <= run <= 0x10_0000_0000,
            -0x10_0000_0000 <= ahead_y <= 0x10_0000_0000,
    ;
    let v: i128 = rise * ahead_x - run * ahead_y;
    if v == 0 {
        TripletOrientation::Colinear
    } else if v > 0 {
        TripletOrientation::Clockwise
    } else {
        TripletOrientation::Counterclockwise
    }
}

pub(crate) fn on_segment_wide(p: WidePoint, q: WidePoint, r: WidePoint) -> (inside: bool)
    ensures
        inside == within_extent(p@, q@, r@),
{
    let max_x: i64 = if p.x >= r.x { p.x } else { r.x };
    let min_x: i64 = if p.x <= r.x { p.x } else { r.x };
    let max_y: i64 = if p.y >= r.y { p.y } else { r.y };
    let min_y: i64 = if p.y <= r.y { p.y } else { r.y };
    q.x <= max_x && q.x >= min_x && q.y <= max_y && q.y >= min_y
}

pub(crate) fn segments_intersect_wide(a: WidePoint, b: WidePoint, c: WidePoint, d: WidePoint) -> (hit: bool)
    requires
        a.reachable(),
        b.reachable(),
        c.reachable(),
        d.reachable(),
    ensures
        hit == segments_intersect(a@, b@, c@, d@),
{
    let o1 = orientation_wide(a, b, c);
    let o2 = orientation_wide(a, b, d);
    let o3 = orientation_wide(c, d, a);
    let o4 = orientation_wide(c, d, b);
    o1 != o2 && o3 != o4
        || o3 == TripletOrientation::Colinear && on_segment_wide(c, a, d)
        || o4 == TripletOrientation::Colinear && on_segment_wide(c, b, d)
}

/// An axis-aligned rectangle: an anchor corner, a width and a height. It is
/// built around a centre, so that the centre is the anchor plus half the
/// width and half the height.
#[derive(Clone, Copy, Debug, PartialEq, Eq, Structural)]
pub struct Rect {
    pos: WidePoint,
    width: i64,
    height: i64,
}

impl View for Rect {
    type V = RectView;

    closed spec fn view(&self) -> RectView {
        RectView {
            x: self.pos.x as int,
            y: self.pos.y as int,
            width: self.width as int,
            height: self.height as int,
        }
    }
}

impl Rect {
    /// The corners of a rectangle built around a stored point stay within
    /// reach of the exact predicates.
    #[verifier::type_invariant]
    spec fn within_reach(self) -> bool {
        &&& -0x1_0000_0000 <= self.pos.x <= 0x1_0000_0000
        &&& -0x1_0000_0000 <= self.pos.y <= 0x1_0000_0000
        &&& -0x1_0000_0000 <= self.width <= 0x1_0000_0000
        &&& -0x1_0000_0000 <= self.height <= 0x1_0000_0000
    }

    /// The rectangle centred on `center` that reaches `bb` to each side.
    pub fn from_bounding_box(center: Point2, bb: BoundingBox) -> (r: Self)
        ensures
            r@ == rect_around(center@, bb.0@),
            bb.wf() ==> r@.width >= 0 && r@.height >= 0,
    {
        let half_x: i64 = bb.0.x as i64;
        let half_y: i64 = bb.0.y as i64;
        Rect {
            pos: WidePoint { x: center.x as i64 - half_x, y: center.y as i64 - half_y },
            width: 2 * half_x,
            height: 2 * half_y,
        }
    }
}

pub(crate) fn segment_intersects_rect_wide(p1: WidePoint, p2: WidePoint, r: Rect) -> (hit: bool)
    requires
        p1.reachable(),
        p2.reachable(),
    ensures
        hit == segment_intersects_rect(p1@, p2@, r@),
{
    proof {
        use_type_invariant(&r);
    }
    // The corners are taken in order around the rectangle: along the width,
    // then along the height, then back.
    let r1 = r.pos;
    let r2 = WidePoint { x: r.pos.x + r.width, y: r.pos.y };
    let r3 = WidePoint { x: r.pos.x + r.width, y: r.pos.y + r.height };
    let r4 = WidePoint { x: r.pos.x, y: r.pos.y + r.height };

    segments_intersect_wide(p1, p2, r1, r2)
        || segments_intersect_wide(p1, p2, r2, r3)
        || segments_intersect_wide(p1, p2, r3, r4)
        || segments_intersect_wide(p1, p2, r4, r1)
}

/// Determines if the line segment from `p1` to `p2` intersects an edge of
/// the rectangle `r`.
pub fn line_intersects_rect(p1: Point2, p2: Point2, r: Rect) -> (hit: bool)
    ensures
        hit == segment_intersects_rect(p1@, p2@, r@),
{
    segment_intersects_rect_wide(WidePoint::of(p1), WidePoint::of(p2), r)
}

/// Calculates the orientation of the path from `p` to `q` to `r`.
pub fn triplet_orientation(p: Point2, q: Point2, r: Point2) -> (o: TripletOrientation)
    ensures
        o == orientation(p@, q@, r@),
{
    orientation_wide(WidePoint::of(p), WidePoint::of(q), WidePoint::of(r))
}

/// Whether `q` lies within the bounding box of `p` and `r`. For three
/// colinear points this says that `q` is on the segment from `p` to `r`.
pub fn on_segment(p: Point2, q: Point2, r: Point2) -> (inside: bool)
    ensures
        inside == within_extent(p@, q@, r@),
{
    on_segment_wide(WidePoint::of(p), WidePoint::of(q), WidePoint::of(r))
}

/// Determines if the line segment from `a` to `b` intersects the line
/// segment from `c` to `d`.
pub fn line_intersects_line(a: Point2, b: Point2, c: Point2, d: Point2) -> (hit: bool)
    ensures
        hit == segments_intersect(a@, b@, c@, d@),
{
    segments_intersect_wide(WidePoint::of(a), WidePoint::of(b), WidePoint::of(c), WidePoint::of(d))
}

} // verus!
