//! What holds of the verdicts on lasers for all positions: a laser reaches
//! no farther than half its length from its middle, and the circle that
//! lasers are first held against hides no collision.

use vstd::prelude::*;
use crate::collisions::laws::{along, lemma_parted_segments_miss};
use crate::collisions::rect_around;
use crate::fixed::lemma_trunc_div_error;
use crate::systems::laser_collision::{half_laser, is_near, laser_hits};
use crate::vector::{lemma_length_bounds, Coords};

verus! {

/// From its middle, a laser reaches no farther than half its length.
pub proof fn lemma_half_laser_is_short(len: int, velocity: Coords)
    requires
        velocity.x != 0 || velocity.y != 0,
    ensures
        4 * half_laser(len, velocity).norm_squared() <= len * len,
{
    let speed = velocity.length();
    let h = half_laser(len, velocity);
    let d = 2 * speed;
    lemma_length_bounds(velocity);
    lemma_trunc_div_error(len * velocity.x, d);
    lemma_trunc_div_error(len * velocity.y, d);
    assert((h.x * d) * (h.x * d) <= (len * velocity.x) * (len * velocity.x)) by (nonlinear_arith)
        requires
            (len * velocity.x >= 0 && 0 <= h.x * d <= len * velocity.x) || (len * velocity.x <= 0
                && len * velocity.x <= h.x * d <= 0),
    ;
    assert((h.y * d) * (h.y * d) <= (len * velocity.y) * (len * velocity.y)) by (nonlinear_arith)
        requires
            (len * velocity.y >= 0 && 0 <= h.y * d <= len * velocity.y) || (len * velocity.y <= 0
                && len * velocity.y <= h.y * d <= 0),
    ;
    let hh = h.x * h.x + h.y * h.y;
    let ss = speed * speed;
    let vv = velocity.x * velocity.x + velocity.y * velocity.y;
    assert((4 * hh) * ss == (h.x * d) * (h.x * d) + (h.y * d) * (h.y * d)) by (nonlinear_arith)
        requires
            hh == h.x * h.x + h.y * h.y,
            ss == speed * speed,
            d == 2 * speed,
    ;
    assert((len * velocity.x) * (len * velocity.x) + (len * velocity.y) * (len * velocity.y) == (
    len * len) * vv) by (nonlinear_arith)
        requires
            vv == velocity.x * velocity.x + velocity.y * velocity.y,
    ;
    assert(ss > 0 && len * len >= 0) by (nonlinear_arith)
        requires
            speed > 0,
            ss == speed * speed,
    ;
    assert(4 * hh <= len * len) by (nonlinear_arith)
        requires
            (4 * hh) * ss <= (len * len) * vv,
            vv <= ss,
            ss > 0,
            len * len >= 0,
    ;
}

/// The product of two displacements is bounded by the product of their
/// lengths.
proof fn lemma_dot_is_bounded(ax: int, ay: int, bx: int, by: int)
    ensures
        (ax * bx + ay * by) * (ax * bx + ay * by) <= (ax * ax + ay * ay) * (bx * bx + by * by),
{
    // The difference of the two sides is the square of `ax * by - ay * bx`.
    let xx = ax * bx;
    let yy = ay * by;
    let xy = ax * by;
    let yx = ay * bx;
    let a2 = ax * ax;
    let b2 = ay * ay;
    let c2 = bx * bx;
    let d2 = by * by;
    assert(xx * yy == xy * yx) by (nonlinear_arith)
        requires
            xx == ax * bx,
            yy == ay * by,
            xy == ax * by,
            yx == ay * bx,
    ;
    assert(a2 * c2 == xx * xx) by (nonlinear_arith)
        requires
            a2 == ax * ax,
            c2 == bx * bx,
            xx == ax * bx,
    ;
    assert(a2 * d2 == xy * xy) by (nonlinear_arith)
        requires
            a2 == ax * ax,
            d2 == by * by,
            xy == ax * by,
    ;
    assert(b2 * c2 == yx * yx) by (nonlinear_arith)
        requires
            b2 == ay * ay,
            c2 == bx * bx,
            yx == ay * bx,
    ;
    assert(b2 * d2 == yy * yy) by (nonlinear_arith)
        requires
            b2 == ay * ay,
            d2 == by * by,
            yy == ay * by,
    ;
    assert((a2 + b2) * (c2 + d2) == a2 * c2 + a2 * d2 + b2 * c2 + b2 * d2) by (nonlinear_arith);
    assert((xx + yy) * (xx + yy) == xx * xx + 2 * (xx * yy) + yy * yy) by (nonlinear_arith);
    assert((xy - yx) * (xy - yx) == xy * xy - 2 * (xy * yx) + yx * yx && (xy - yx) * (xy - yx)
        >= 0) by (nonlinear_arith);
}

/// The way between the ends of two displacements is no longer than the two
/// together: one no longer than `r`, the other no longer than half of `len`.
proof fn lemma_gap_is_short(gx: int, gy: int, kx: int, ky: int, r: int, len: int)
    requires
        r >= 0,
        len >= 0,
        gx * gx + gy * gy <= r * r,
        4 * (kx * kx + ky * ky) <= len * len,
    ensures
        4 * ((gx - kx) * (gx - kx) + (gy - ky) * (gy - ky)) <= (2 * r + len) * (2 * r + len),
{
    let dot = gx * kx + gy * ky;
    let gg = gx * gx + gy * gy;
    let kk = kx * kx + ky * ky;
    let bound = r * len;
    lemma_dot_is_bounded(gx, gy, kx, ky);
    assert(gg >= 0 && kk >= 0 && bound >= 0) by (nonlinear_arith)
        requires
            gg == gx * gx + gy * gy,
            kk == kx * kx + ky * ky,
            bound == r * len,
            r >= 0,
            len >= 0,
    ;
    assert(gg * (4 * kk) <= (r * r) * (len * len)) by (nonlinear_arith)
        requires
            0 <= gg <= r * r,
            0 <= 4 * kk <= len * len,
    ;
    assert((r * r) * (len * len) == bound * bound) by (nonlinear_arith)
        requires
            bound == r * len,
    ;
    assert((2 * dot) * (2 * dot) == 4 * (dot * dot) && gg * (4 * kk) == 4 * (gg * kk))
        by (nonlinear_arith);
    assert(-bound <= 2 * dot) by (nonlinear_arith)
        requires
            (2 * dot) * (2 * dot) <= bound * bound,
            bound >= 0,
    ;
    assert(4 * ((gx - kx) * (gx - kx) + (gy - ky) * (gy - ky)) == 4 * gg - 8 * dot + 4 * kk)
        by (nonlinear_arith)
        requires
            dot == gx * kx + gy * ky,
            gg == gx * gx + gy * gy,
            kk == kx * kx + ky * ky,
    ;
    assert((2 * r + len) * (2 * r + len) == 4 * (r * r) + 4 * bound + len * len)
        by (nonlinear_arith)
        requires
            bound == r * len,
    ;
}

/// Along a displacement, a shorter displacement reaches less far than the
/// displacement itself.
proof fn lemma_shorter_reaches_less(ux: int, uy: int, wx: int, wy: int)
    requires
        wx * wx + wy * wy < ux * ux + uy * uy,
    ensures
        ux * wx + uy * wy < ux * ux + uy * uy,
{
    let dot = ux * wx + uy * wy;
    let uu = ux * ux + uy * uy;
    let ww = wx * wx + wy * wy;
    lemma_dot_is_bounded(ux, uy, wx, wy);
    assert(ww >= 0) by (nonlinear_arith)
        requires
            ww == wx * wx + wy * wy,
    ;
    if dot >= uu {
        assert(dot * dot >= uu * uu && uu * uu > uu * ww) by (nonlinear_arith)
            requires
                dot >= uu,
                uu > ww,
                ww >= 0,
        ;
    }
}

/// Seen from the player against the way to a far laser, each end of the
/// laser lies lower than each corner of the player: `(px, py)` is where the
/// player is, `(ux, uy)` leads to the laser, `(gx, gy)` from the player to
/// the corner, and `(kx, ky)` from the middle of the laser to its end.
proof fn lemma_end_is_below_corner(
    px: int,
    py: int,
    ux: int,
    uy: int,
    gx: int,
    gy: int,
    kx: int,
    ky: int,
    r: int,
    len: int,
)
    requires
        r >= 0,
        len > 0,
        gx * gx + gy * gy <= r * r,
        4 * (kx * kx + ky * ky) <= len * len,
        ux * ux + uy * uy >= (len + r) * (len + r),
    ensures
        along(-ux, -uy, Coords { x: px + ux + kx, y: py + uy + ky }) < along(
            -ux,
            -uy,
            Coords { x: px + gx, y: py + gy },
        ),
{
    let wx = gx - kx;
    let wy = gy - ky;
    let uu = ux * ux + uy * uy;
    let ww = wx * wx + wy * wy;
    lemma_gap_is_short(gx, gy, kx, ky, r, len);
    assert((2 * r + len) * (2 * r + len) < 4 * ((len + r) * (len + r))) by (nonlinear_arith)
        requires
            r >= 0,
            len > 0,
    ;
    assert(ww < uu);
    lemma_shorter_reaches_less(ux, uy, wx, wy);
    let end = along(-ux, -uy, Coords { x: px + ux + kx, y: py + uy + ky });
    let corner = along(-ux, -uy, Coords { x: px + gx, y: py + gy });
    assert(end - corner == (ux * wx + uy * wy) - uu) by (nonlinear_arith)
        requires
            end == (-ux) * (px + ux + kx) + (-uy) * (py + uy + ky),
            corner == (-ux) * (px + gx) + (-uy) * (py + gy),
            wx == gx - kx,
            wy == gy - ky,
            uu == ux * ux + uy * uy,
    ;
}

/// A laser that is not near the player does not hit it: to hold a laser
/// against the circle around the player first spares work, and changes no
/// verdict on a collision.
pub proof fn lemma_far_laser_misses(
    player_pos: Coords,
    half_extent: Coords,
    laser_pos: Coords,
    len: int,
    velocity: Coords,
)
    requires
        len > 0,
        !is_near(player_pos, half_extent, laser_pos, len),
    ensures
        !laser_hits(player_pos, half_extent, laser_pos, len, velocity),
{
    if velocity.x != 0 || velocity.y != 0 {
        let h = half_laser(len, velocity);
        let r = half_extent.length();
        let px = player_pos.x;
        let py = player_pos.y;
        let ux = laser_pos.x - px;
        let uy = laser_pos.y - py;
        let hx = half_extent.x;
        let hy = half_extent.y;
        lemma_half_laser_is_short(len, velocity);
        lemma_length_bounds(half_extent);
        assert(ux * ux + uy * uy == player_pos.minus(laser_pos).norm_squared())
            by (nonlinear_arith)
            requires
                ux == laser_pos.x - player_pos.x,
                uy == laser_pos.y - player_pos.y,
                player_pos.minus(laser_pos).norm_squared() == (player_pos.x - laser_pos.x) * (
                player_pos.x - laser_pos.x) + (player_pos.y - laser_pos.y) * (player_pos.y
                    - laser_pos.y),
        ;
        assert((-hx) * (-hx) == hx * hx && (-hy) * (-hy) == hy * hy && (-h.x) * (-h.x) == h.x * h.x
            && (-h.y) * (-h.y) == h.y * h.y) by (nonlinear_arith);
        let rect = rect_around(player_pos, half_extent);
        let top = laser_pos.plus(h);
        let bot = laser_pos.minus(h);
        let alpha = -ux;
        let beta = -uy;
        // Each end of the laser against each corner of the player.
        lemma_end_is_below_corner(px, py, ux, uy, -hx, -hy, h.x, h.y, r, len);
        lemma_end_is_below_corner(px, py, ux, uy, hx, -hy, h.x, h.y, r, len);
        lemma_end_is_below_corner(px, py, ux, uy, hx, hy, h.x, h.y, r, len);
        lemma_end_is_below_corner(px, py, ux, uy, -hx, hy, h.x, h.y, r, len);
        lemma_end_is_below_corner(px, py, ux, uy, -hx, -hy, -h.x, -h.y, r, len);
        lemma_end_is_below_corner(px, py, ux, uy, hx, -hy, -h.x, -h.y, r, len);
        lemma_end_is_below_corner(px, py, ux, uy, hx, hy, -h.x, -h.y, r, len);
        lemma_end_is_below_corner(px, py, ux, uy, -hx, hy, -h.x, -h.y, r, len);
        assert(top == Coords { x: px + ux + h.x, y: py + uy + h.y });
        assert(bot == Coords { x: px + ux + (-h.x), y: py + uy + (-h.y) });
        assert(rect.corner1() == Coords { x: px + (-hx), y: py + (-hy) });
        assert(rect.corner2() == Coords { x: px + hx, y: py + (-hy) });
        assert(rect.corner3() == Coords { x: px + hx, y: py + hy });
        assert(rect.corner4() == Coords { x: px + (-hx), y: py + hy });
        let l1 = along(alpha, beta, rect.corner1());
        let l2 = along(alpha, beta, rect.corner2());
        let l3 = along(alpha, beta, rect.corner3());
        let l4 = along(alpha, beta, rect.corner4());
        lemma_parted_segments_miss(
            top,
            bot,
            rect.corner1(),
            rect.corner2(),
            alpha,
            beta,
            vstd::math::min(l1, l2),
        );
        lemma_parted_segments_miss(
            top,
            bot,
            rect.corner2(),
            rect.corner3(),
            alpha,
            beta,
            vstd::math::min(l2, l3),
        );
        lemma_parted_segments_miss(
            top,
            bot,
            rect.corner3(),
            rect.corner4(),
            alpha,
            beta,
            vstd::math::min(l3, l4),
        );
        lemma_parted_segments_miss(
            top,
            bot,
            rect.corner4(),
            rect.corner1(),
            alpha,
            beta,
            vstd::math::min(l4, l1),
        );
    }
}

} // verus!
