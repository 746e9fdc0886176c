//! What holds of the geometric predicates for all points: how the
//! orientation answers to a swap of the ends, when the order of two
//! segments does not matter, and which segments cannot intersect.

use vstd::prelude::*;
use crate::collisions::{
    cross,
    orientation,
    rect_around,
    segment_intersects_rect,
    segments_intersect,
    within_extent,
    RectView,
    TripletOrientation,
};
use crate::vector::Coords;

verus! {

/// The orientation of a path walked backwards.
pub open spec fn reversed(o: TripletOrientation) -> TripletOrientation {
    match o {
        TripletOrientation::Colinear => TripletOrientation::Colinear,
        TripletOrientation::Clockwise => TripletOrientation::Counterclockwise,
        TripletOrientation::Counterclockwise => TripletOrientation::Clockwise,
    }
}

/// Swapping the ends of a path keeps three colinear points colinear and
/// turns a clockwise path into a counterclockwise one, and back.
pub proof fn lemma_orientation_antisymmetric(p: Coords, q: Coords, r: Coords)
    ensures
        orientation(r, q, p) == reversed(orientation(p, q, r)),
        orientation(p, q, r) == TripletOrientation::Colinear <==> orientation(r, q, p)
            == TripletOrientation::Colinear,
{
    assert((q.y - r.y) * (p.x - q.x) - (q.x - r.x) * (p.y - q.y) == -((q.y - p.y) * (r.x - q.x) - (
    q.x - p.x) * (r.y - q.y))) by (nonlinear_arith);
}

/// The arithmetic heart of separation: `s`, `t` stand for the cross products
/// of the first segment with the ends of the second, `u`, `w` for those of the
/// second with the ends of the first, and `la`..`ld` for the heights of the
/// four points above some line. When that line parts the two segments and
/// the ends of the second do not lie on one side of the first, the ends of
/// the first lie strictly on one side of the second.
proof fn lemma_crossing_is_not_parted(
    s: int,
    t: int,
    u: int,
    w: int,
    la: int,
    lb: int,
    lc: int,
    ld: int,
    m: int,
)
    requires
        s - t + u - w == 0,
        s * ld - t * lc + u * lb - w * la == 0,
        la < m,
        lb < m,
        lc >= m,
        ld >= m,
        (s >= 0 && t <= 0) || (s <= 0 && t >= 0),
        s != t,
    ensures
        (u > 0 && w > 0) || (u < 0 && w < 0),
{
    if (u > 0 && w > 0) || (u < 0 && w < 0) {
    } else if s > t {
        assert(s * ld >= s * m) by (nonlinear_arith)
            requires
                s >= 0,
                ld >= m,
        ;
        assert(t * lc <= t * m) by (nonlinear_arith)
            requires
                t <= 0,
                lc >= m,
        ;
        assert(w * la <= w * m && (w > 0 ==> w * la < w * m)) by (nonlinear_arith)
            requires
                w >= 0,
                la < m,
        ;
        assert(u * lb >= u * m && (u < 0 ==> u * lb > u * m)) by (nonlinear_arith)
            requires
                u <= 0,
                lb < m,
        ;
        assert((s - t) * m == s * m - t * m) by (nonlinear_arith);
        assert((w - u) * m == w * m - u * m) by (nonlinear_arith);
    } else {
        assert(t * lc >= t * m) by (nonlinear_arith)
            requires
                t >= 0,
                lc >= m,
        ;
        assert(s * ld <= s * m) by (nonlinear_arith)
            requires
                s <= 0,
                ld >= m,
        ;
        assert(u * lb <= u * m && (u > 0 ==> u * lb < u * m)) by (nonlinear_arith)
            requires
                u >= 0,
                lb < m,
        ;
        assert(w * la >= w * m && (w < 0 ==> w * la > w * m)) by (nonlinear_arith)
            requires
                w <= 0,
                la < m,
        ;
        assert((t - s) * m == t * m - s * m) by (nonlinear_arith);
        assert((u - w) * m == u * m - w * m) by (nonlinear_arith);
    }
}

/// A sum of triple products of the coordinates of three displacements that
/// always cancels.
proof fn lemma_triple_products_cancel(bx: int, by: int, cx: int, cy: int, dx: int, dy: int)
    ensures
        (by * cx - bx * cy) - (by * dx - bx * dy) + (cy * dx - cx * dy) - ((dy - cy) * bx - (dx
            - cx) * by + (cy * dx - cx * dy)) == 0,
        (by * cx - bx * cy) * dx - (by * dx - bx * dy) * cx + (cy * dx - cx * dy) * bx == 0,
        (by * cx - bx * cy) * dy - (by * dx - bx * dy) * cy + (cy * dx - cx * dy) * by == 0,
{
    assert((by * cx - bx * cy) - (by * dx - bx * dy) + (cy * dx - cx * dy) - ((dy - cy) * bx - (dx
        - cx) * by + (cy * dx - cx * dy)) == 0) by (nonlinear_arith);
    assert((by * cx - bx * cy) * dx == by * cx * dx - bx * cy * dx) by (nonlinear_arith);
    assert((by * dx - bx * dy) * cx == by * cx * dx - bx * dy * cx) by (nonlinear_arith);
    assert((cy * dx - cx * dy) * bx == bx * cy * dx - bx * dy * cx) by (nonlinear_arith);
    assert((by * cx - bx * cy) * dy == by * cx * dy - bx * cy * dy) by (nonlinear_arith);
    assert((by * dx - bx * dy) * cy == by * dx * cy - bx * cy * dy) by (nonlinear_arith);
    assert((cy * dx - cx * dy) * by == by * dx * cy - by * cx * dy) by (nonlinear_arith);
}

/// The four cross products of two segments are bound to each other and to
/// the coordinates of the four points.
proof fn lemma_cross_identities(a: Coords, b: Coords, c: Coords, d: Coords)
    ensures
        cross(a, b, c) - cross(a, b, d) + cross(c, d, a) - cross(c, d, b) == 0,
        cross(a, b, c) * d.x - cross(a, b, d) * c.x + cross(c, d, a) * b.x - cross(c, d, b) * a.x
            == 0,
        cross(a, b, c) * d.y - cross(a, b, d) * c.y + cross(c, d, a) * b.y - cross(c, d, b) * a.y
            == 0,
{
    // Coordinates relative to `a`.
    let bx = b.x - a.x;
    let by = b.y - a.y;
    let cx = c.x - a.x;
    let cy = c.y - a.y;
    let dx = d.x - a.x;
    let dy = d.y - a.y;
    let s = cross(a, b, c);
    let t = cross(a, b, d);
    let u = cross(c, d, a);
    let w = cross(c, d, b);
    assert(s == by * cx - bx * cy) by (nonlinear_arith)
        requires
            s == by * (cx - bx) - bx * (cy - by),
    ;
    assert(t == by * dx - bx * dy) by (nonlinear_arith)
        requires
            t == by * (dx - bx) - bx * (dy - by),
    ;
    assert(u == cy * dx - cx * dy) by (nonlinear_arith)
        requires
            u == (dy - cy) * (0 - dx) - (dx - cx) * (0 - dy),
    ;
    assert(w == (dy - cy) * bx - (dx - cx) * by + (cy * dx - cx * dy)) by (nonlinear_arith)
        requires
            w == (dy - cy) * (bx - dx) - (dx - cx) * (by - dy),
    ;
    lemma_triple_products_cancel(bx, by, cx, cy, dx, dy);
    assert(s - t + u - w == 0);
    assert(s * d.x - t * c.x + u * b.x - w * a.x == s * dx - t * cx + u * bx + (s - t + u - w)
        * a.x) by (nonlinear_arith)
        requires
            dx == d.x - a.x,
            cx == c.x - a.x,
            bx == b.x - a.x,
    ;
    assert(s * d.y - t * c.y + u * b.y - w * a.y == s * dy - t * cy + u * by + (s - t + u - w)
        * a.y) by (nonlinear_arith)
        requires
            dy == d.y - a.y,
            cy == c.y - a.y,
            by == b.y - a.y,
    ;
    assert((s - t + u - w) * a.x == 0 && (s - t + u - w) * a.y == 0) by (nonlinear_arith)
        requires
            s - t + u - w == 0,
    ;
}

/// The height of `p` over the line through the origin whose normal is
/// `(alpha, beta)`, in units of the length of that normal. The points of one
/// height make up a line, and every line is one of these.
pub open spec fn along(alpha: int, beta: int, p: Coords) -> int {
    alpha * p.x + beta * p.y
}

/// Where `lf` is to `le` as `fx` is to `ex`, and `fx` lies between zero and
/// `ex`, `lf` lies between zero and `le`.
proof fn lemma_share_is_between(ex: int, fx: int, le: int, lf: int)
    requires
        ex != 0,
        ex * lf == fx * le,
        (0 <= fx <= ex) || (ex <= fx <= 0),
    ensures
        (0 <= lf <= le) || (le <= lf <= 0),
{
    if ex > 0 {
        if le >= 0 {
            assert(0 <= lf <= le) by (nonlinear_arith)
                requires
                    ex > 0,
                    le >= 0,
                    0 <= fx <= ex,
                    ex * lf == fx * le,
            ;
        } else {
            assert(le <= lf <= 0) by (nonlinear_arith)
                requires
                    ex > 0,
                    le < 0,
                    0 <= fx <= ex,
                    ex * lf == fx * le,
            ;
        }
    } else {
        if le >= 0 {
            assert(0 <= lf <= le) by (nonlinear_arith)
                requires
                    ex < 0,
                    le >= 0,
                    ex <= fx <= 0,
                    ex * lf == fx * le,
            ;
        } else {
            assert(le <= lf <= 0) by (nonlinear_arith)
                requires
                    ex < 0,
                    le < 0,
                    ex <= fx <= 0,
                    ex * lf == fx * le,
            ;
        }
    }
}

/// A point on the line through `c` and `d`, and within their bounding box,
/// is no higher than the higher and no lower than the lower of the two,
/// over whatever line heights are taken.
pub proof fn lemma_point_on_segment_is_between(
    c: Coords,
    a: Coords,
    d: Coords,
    alpha: int,
    beta: int,
)
    requires
        cross(c, d, a) == 0,
        within_extent(c, a, d),
    ensures
        vstd::math::min(along(alpha, beta, c), along(alpha, beta, d)) <= along(alpha, beta, a),
        along(alpha, beta, a) <= vstd::math::max(along(alpha, beta, c), along(alpha, beta, d)),
{
    // The way from `c` to `d`, and the way from `c` to `a`.
    let ex = d.x - c.x;
    let ey = d.y - c.y;
    let fx = a.x - c.x;
    let fy = a.y - c.y;
    let le = alpha * ex + beta * ey;
    let lf = alpha * fx + beta * fy;
    assert(along(alpha, beta, d) - along(alpha, beta, c) == le) by (nonlinear_arith)
        requires
            along(alpha, beta, d) == alpha * d.x + beta * d.y,
            along(alpha, beta, c) == alpha * c.x + beta * c.y,
            le == alpha * (d.x - c.x) + beta * (d.y - c.y),
    ;
    assert(along(alpha, beta, a) - along(alpha, beta, c) == lf) by (nonlinear_arith)
        requires
            along(alpha, beta, a) == alpha * a.x + beta * a.y,
            along(alpha, beta, c) == alpha * c.x + beta * c.y,
            lf == alpha * (a.x - c.x) + beta * (a.y - c.y),
    ;
    // The two ways are parallel.
    assert(ey * fx == ex * fy) by (nonlinear_arith)
        requires
            ey * (fx - ex) - ex * (fy - ey) == 0,
    ;
    if ex != 0 {
        assert(ex * lf == fx * le) by (nonlinear_arith)
            requires
                ey * fx == ex * fy,
                le == alpha * ex + beta * ey,
                lf == alpha * fx + beta * fy,
        ;
        lemma_share_is_between(ex, fx, le, lf);
    } else if ey != 0 {
        assert(ey * lf == fy * le) by (nonlinear_arith)
            requires
                ey * fx == ex * fy,
                le == alpha * ex + beta * ey,
                lf == alpha * fx + beta * fy,
        ;
        lemma_share_is_between(ey, fy, le, lf);
    } else {
        assert(le == 0 && lf == 0) by (nonlinear_arith)
            requires
                ex == 0,
                ey == 0,
                fx == 0,
                fy == 0,
                le == alpha * ex + beta * ey,
                lf == alpha * fx + beta * fy,
        ;
    }
}

/// Two segments that a line keeps apart do not intersect: the first lies
/// strictly on one side of the line, the second on the line or beyond.
pub proof fn lemma_parted_segments_miss(
    a: Coords,
    b: Coords,
    c: Coords,
    d: Coords,
    alpha: int,
    beta: int,
    m: int,
)
    requires
        along(alpha, beta, a) < m,
        along(alpha, beta, b) < m,
        along(alpha, beta, c) >= m,
        along(alpha, beta, d) >= m,
    ensures
        !segments_intersect(a, b, c, d),
{
    let s = cross(a, b, c);
    let t = cross(a, b, d);
    let u = cross(c, d, a);
    let w = cross(c, d, b);
    let la = along(alpha, beta, a);
    let lb = along(alpha, beta, b);
    let lc = along(alpha, beta, c);
    let ld = along(alpha, beta, d);
    if orientation(a, b, c) != orientation(a, b, d) && orientation(c, d, a) != orientation(
        c,
        d,
        b,
    ) {
        lemma_cross_identities(a, b, c, d);
        let by_x = s * d.x - t * c.x + u * b.x - w * a.x;
        let by_y = s * d.y - t * c.y + u * b.y - w * a.y;
        assert(s * ld == alpha * (s * d.x) + beta * (s * d.y)) by (nonlinear_arith)
            requires
                ld == alpha * d.x + beta * d.y,
        ;
        assert(t * lc == alpha * (t * c.x) + beta * (t * c.y)) by (nonlinear_arith)
            requires
                lc == alpha * c.x + beta * c.y,
        ;
        assert(u * lb == alpha * (u * b.x) + beta * (u * b.y)) by (nonlinear_arith)
            requires
                lb == alpha * b.x + beta * b.y,
        ;
        assert(w * la == alpha * (w * a.x) + beta * (w * a.y)) by (nonlinear_arith)
            requires
                la == alpha * a.x + beta * a.y,
        ;
        assert(s * ld - t * lc + u * lb - w * la == alpha * by_x + beta * by_y)
            by (nonlinear_arith)
            requires
                s * ld == alpha * (s * d.x) + beta * (s * d.y),
                t * lc == alpha * (t * c.x) + beta * (t * c.y),
                u * lb == alpha * (u * b.x) + beta * (u * b.y),
                w * la == alpha * (w * a.x) + beta * (w * a.y),
                by_x == s * d.x - t * c.x + u * b.x - w * a.x,
                by_y == s * d.y - t * c.y + u * b.y - w * a.y,
        ;
        assert(alpha * by_x + beta * by_y == 0) by (nonlinear_arith)
            requires
                by_x == 0,
                by_y == 0,
        ;
        lemma_crossing_is_not_parted(s, t, u, w, la, lb, lc, ld, m);
    }
    if orientation(c, d, a) == TripletOrientation::Colinear && within_extent(c, a, d) {
        lemma_point_on_segment_is_between(c, a, d, alpha, beta);
    }
    if orientation(c, d, b) == TripletOrientation::Colinear && within_extent(c, b, d) {
        lemma_point_on_segment_is_between(c, b, d, alpha, beta);
    }
}

/// The four points lie on one line, or so the four orientations say: this
/// is also the case where one of the segments is a single point that lies
/// on the line of the other.
pub open spec fn all_colinear(a: Coords, b: Coords, c: Coords, d: Coords) -> bool {
    &&& orientation(a, b, c) == TripletOrientation::Colinear
    &&& orientation(a, b, d) == TripletOrientation::Colinear
    &&& orientation(c, d, a) == TripletOrientation::Colinear
    &&& orientation(c, d, b) == TripletOrientation::Colinear
}

/// Swapping the first two points of a path changes the sign of its cross
/// product.
proof fn lemma_cross_swap(p: Coords, q: Coords, r: Coords)
    ensures
        cross(q, p, r) == -cross(p, q, r),
{
    assert((p.y - q.y) * (r.x - p.x) - (p.x - q.x) * (r.y - p.y) == -((q.y - p.y) * (r.x - q.x) - (
    q.x - p.x) * (r.y - q.y))) by (nonlinear_arith);
}

/// Where `a` lies on the segment from `c` to `d`, and the four points are
/// not all colinear, the segment from `a` to `b` is seen to meet the other
/// from either side: the ends of each lie on different sides of the other.
proof fn lemma_touch_is_a_crossing(a: Coords, b: Coords, c: Coords, d: Coords)
    requires
        cross(c, d, a) == 0,
        within_extent(c, a, d),
        cross(a, b, c) != 0 || cross(a, b, d) != 0 || cross(c, d, b) != 0,
    ensures
        orientation(a, b, c) != orientation(a, b, d),
        orientation(c, d, a) != orientation(c, d, b),
{
    let s = cross(a, b, c);
    let t = cross(a, b, d);
    let w = cross(c, d, b);
    lemma_cross_identities(a, b, c, d);
    // Heights over the line from `a` to `b`, up to a shift.
    let alpha = b.y - a.y;
    let beta = -(b.x - a.x);
    lemma_point_on_segment_is_between(c, a, d, alpha, beta);
    let la = along(alpha, beta, a);
    let lb = along(alpha, beta, b);
    let lc = along(alpha, beta, c);
    let ld = along(alpha, beta, d);
    assert(la == lb) by (nonlinear_arith)
        requires
            la == (b.y - a.y) * a.x + (-(b.x - a.x)) * a.y,
            lb == (b.y - a.y) * b.x + (-(b.x - a.x)) * b.y,
    ;
    assert(s == lc - lb) by (nonlinear_arith)
        requires
            s == (b.y - a.y) * (c.x - b.x) - (b.x - a.x) * (c.y - b.y),
            lc == (b.y - a.y) * c.x + (-(b.x - a.x)) * c.y,
            lb == (b.y - a.y) * b.x + (-(b.x - a.x)) * b.y,
    ;
    assert(t == ld - lb) by (nonlinear_arith)
        requires
            t == (b.y - a.y) * (d.x - b.x) - (b.x - a.x) * (d.y - b.y),
            ld == (b.y - a.y) * d.x + (-(b.x - a.x)) * d.y,
            lb == (b.y - a.y) * b.x + (-(b.x - a.x)) * b.y,
    ;
    // So zero lies between `s` and `t`.
    if w == 0 {
        // Then `s == t`, and neither is zero: `c` and `d` are one point.
        assert(d.x == c.x && d.y == c.y) by (nonlinear_arith)
            requires
                s == t,
                s != 0,
                s * d.x - t * c.x == 0,
                s * d.y - t * c.y == 0,
        ;
        assert(a == c);
        assert(s == 0) by (nonlinear_arith)
            requires
                s == (b.y - a.y) * (a.x - b.x) - (b.x - a.x) * (a.y - b.y),
        ;
    }
}

/// Unless the four points are all colinear, it does not matter which of the
/// two segments is named first. Among colinear points the order can
/// matter: only the ends of the first segment are looked for on the second,
/// so a segment that lies within another intersects it, and is not
/// intersected by it.
pub proof fn lemma_segments_intersect_symmetric(a: Coords, b: Coords, c: Coords, d: Coords)
    requires
        !all_colinear(a, b, c, d),
    ensures
        segments_intersect(a, b, c, d) == segments_intersect(c, d, a, b),
{
    let colinear = TripletOrientation::Colinear;
    lemma_cross_swap(a, b, c);
    lemma_cross_swap(a, b, d);
    lemma_cross_swap(c, d, a);
    lemma_cross_swap(c, d, b);
    if orientation(c, d, a) == colinear && within_extent(c, a, d) {
        lemma_touch_is_a_crossing(a, b, c, d);
    }
    if orientation(c, d, b) == colinear && within_extent(c, b, d) {
        lemma_touch_is_a_crossing(b, a, c, d);
    }
    if orientation(a, b, c) == colinear && within_extent(a, c, b) {
        lemma_touch_is_a_crossing(c, d, a, b);
    }
    if orientation(a, b, d) == colinear && within_extent(a, d, b) {
        lemma_touch_is_a_crossing(d, c, a, b);
    }
}

/// Both ends of the segment lie strictly beyond the same side of the
/// rectangle's bounding extent.
pub open spec fn outside_extent(p1: Coords, p2: Coords, r: RectView) -> bool {
    ||| (p1.x < r.min_x() && p2.x < r.min_x())
    ||| (p1.x > r.max_x() && p2.x > r.max_x())
    ||| (p1.y < r.min_y() && p2.y < r.min_y())
    ||| (p1.y > r.max_y() && p2.y > r.max_y())
}

/// A segment that lies fully outside the bounding extent of a rectangle
/// intersects none of its edges.
pub proof fn lemma_segment_outside_misses_rect(p1: Coords, p2: Coords, r: RectView)
    requires
        outside_extent(p1, p2, r),
    ensures
        !segment_intersects_rect(p1, p2, r),
{
    let (alpha, beta, m): (int, int, int) = if p1.x < r.min_x() && p2.x < r.min_x() {
        (1, 0, r.min_x())
    } else if p1.x > r.max_x() && p2.x > r.max_x() {
        (-1, 0, -r.max_x())
    } else if p1.y < r.min_y() && p2.y < r.min_y() {
        (0, 1, r.min_y())
    } else {
        (0, -1, -r.max_y())
    };
    lemma_parted_segments_miss(p1, p2, r.corner1(), r.corner2(), alpha, beta, m);
    lemma_parted_segments_miss(p1, p2, r.corner2(), r.corner3(), alpha, beta, m);
    lemma_parted_segments_miss(p1, p2, r.corner3(), r.corner4(), alpha, beta, m);
    lemma_parted_segments_miss(p1, p2, r.corner4(), r.corner1(), alpha, beta, m);
}

/// `p` lies in the open interior of the rectangle.
pub open spec fn strictly_inside(p: Coords, r: RectView) -> bool {
    &&& r.min_x() < p.x < r.max_x()
    &&& r.min_y() < p.y < r.max_y()
}

/// Both ends of a segment lie strictly on the same side of the line through
/// an axis-parallel edge, so the segment does not meet that edge.
proof fn lemma_same_side_of_edge_misses(p1: Coords, p2: Coords, c: Coords, d: Coords)
    requires
        (c.y == d.y && ((p1.y < c.y && p2.y < c.y) || (p1.y > c.y && p2.y > c.y))) || (c.x == d.x
            && ((p1.x < c.x && p2.x < c.x) || (p1.x > c.x && p2.x > c.x))),
    ensures
        !segments_intersect(p1, p2, c, d),
{
    let run = d.x - c.x;
    let rise = d.y - c.y;
    let v1 = cross(c, d, p1);
    let v2 = cross(c, d, p2);
    if c.y == d.y && ((p1.y < c.y && p2.y < c.y) || (p1.y > c.y && p2.y > c.y)) {
        let h1 = p1.y - d.y;
        let h2 = p2.y - d.y;
        assert((v1 > 0 <==> v2 > 0) && (v1 < 0 <==> v2 < 0)) by (nonlinear_arith)
            requires
                v1 == rise * (p1.x - d.x) - run * h1,
                v2 == rise * (p2.x - d.x) - run * h2,
                rise == 0,
                (h1 < 0 && h2 < 0) || (h1 > 0 && h2 > 0),
        ;
    } else {
        let h1 = p1.x - d.x;
        let h2 = p2.x - d.x;
        assert((v1 > 0 <==> v2 > 0) && (v1 < 0 <==> v2 < 0)) by (nonlinear_arith)
            requires
                v1 == rise * h1 - run * (p1.y - d.y),
                v2 == rise * h2 - run * (p2.y - d.y),
                run == 0,
                (h1 < 0 && h2 < 0) || (h1 > 0 && h2 > 0),
        ;
    }
}

/// A segment that lies in the open interior of a rectangle intersects none
/// of its edges: the test is for crossing an edge, not for being contained.
pub proof fn lemma_segment_inside_misses_rect(p1: Coords, p2: Coords, r: RectView)
    requires
        strictly_inside(p1, r),
        strictly_inside(p2, r),
    ensures
        !segment_intersects_rect(p1, p2, r),
{
    lemma_same_side_of_edge_misses(p1, p2, r.corner1(), r.corner2());
    lemma_same_side_of_edge_misses(p1, p2, r.corner2(), r.corner3());
    lemma_same_side_of_edge_misses(p1, p2, r.corner3(), r.corner4());
    lemma_same_side_of_edge_misses(p1, p2, r.corner4(), r.corner1());
}

/// A rectangle built around a centre has that centre in its middle: at the
/// anchor plus half the width and half the height. Where the half-extent is
/// not negative, neither are the width and the height, and the anchor is the
/// corner with the least coordinates.
pub proof fn lemma_rect_around_is_centred(center: Coords, half_extent: Coords)
    ensures
        rect_around(center, half_extent).x + rect_around(center, half_extent).width / 2
            == center.x,
        rect_around(center, half_extent).y + rect_around(center, half_extent).height / 2
            == center.y,
        half_extent.x >= 0 && half_extent.y >= 0 ==> {
            let r = rect_around(center, half_extent);
            &&& r.width >= 0
            &&& r.height >= 0
            &&& r.min_x() == r.x
            &&& r.min_y() == r.y
            &&& r.max_x() == center.x + half_extent.x
            &&& r.max_y() == center.y + half_extent.y
        },
{
}

} // verus!
