//! Scalars, points and displacement vectors of the simulation.
//!
//! Every quantity is a signed 16.16 fixed-point number held in a machine
//! integer, so that each operation has an exact mathematical meaning.

use vstd::prelude::*;
use crate::fixed::{
    ceil_sqrt,
    div_toward_zero,
    isqrt_up,
    lemma_ceil_sqrt,
    lemma_trunc_div_error,
    lemma_trunc_div_magnitude,
    trunc_div,
};

verus! {

/// The storage type of every coordinate, speed, duration and factor: a raw
/// count of 1/65536ths.
pub type StorageTy = i32;

/// The raw value that stands for the number one.
pub const ONE: StorageTy = 65536;

/// `v` is a value that the storage type holds.
pub open spec fn in_storage(v: int) -> bool {
    StorageTy::MIN <= v <= StorageTy::MAX
}

/// A pair of mathematical integers: what a point or a displacement is in
/// contracts, free of any machine limit.
pub struct Coords {
    pub x: int,
    pub y: int,
}

impl Coords {
    /// The point reached from `self` by the displacement `d`.
    pub open spec fn plus(self, d: Coords) -> Coords {
        Coords { x: self.x + d.x, y: self.y + d.y }
    }

    /// The point from which the displacement `d` leads to `self`.
    pub open spec fn minus(self, d: Coords) -> Coords {
        Coords { x: self.x - d.x, y: self.y - d.y }
    }

    /// The squared Euclidean length of `self` read as a displacement.
    pub open spec fn norm_squared(self) -> int {
        self.x * self.x + self.y * self.y
    }

    /// The Euclidean length of `self`, rounded up to a whole raw unit.
    pub open spec fn length(self) -> int {
        ceil_sqrt(self.norm_squared())
    }

    /// `self` brought to length one: each coordinate over the length,
    /// rounded toward zero. Only a displacement that is not null has one.
    pub open spec fn unit(self) -> Coords {
        Coords {
            x: trunc_div(self.x * ONE, self.length()),
            y: trunc_div(self.y * ONE, self.length()),
        }
    }
}

/// The length of a displacement bounds both of its coordinates, and is
/// positive unless the displacement is null.
pub proof fn lemma_length_bounds(v: Coords)
    ensures
        0 <= v.length(),
        -v.length() <= v.x <= v.length(),
        -v.length() <= v.y <= v.length(),
        v.norm_squared() <= v.length() * v.length(),
        v.x != 0 || v.y != 0 ==> v.length() > 0,
{
    let n = v.norm_squared();
    let len = v.length();
    assert(n >= 0 && n >= v.x * v.x && n >= v.y * v.y && (v.x != 0 || v.y != 0 ==> n > 0))
        by (nonlinear_arith)
        requires
            n == v.x * v.x + v.y * v.y,
    ;
    lemma_ceil_sqrt(n);
    assert(-len <= v.x <= len) by (nonlinear_arith)
        requires
            0 <= len,
            v.x * v.x <= len * len,
    ;
    assert(-len <= v.y <= len) by (nonlinear_arith)
        requires
            0 <= len,
            v.y * v.y <= len * len,
    ;
}

/// A displacement brought to length one is never longer than one.
pub proof fn lemma_unit_is_short(v: Coords)
    requires
        v.x != 0 || v.y != 0,
    ensures
        -ONE <= v.unit().x <= ONE,
        -ONE <= v.unit().y <= ONE,
        v.unit().norm_squared() <= ONE * ONE,
{
    let len = v.length();
    let u = v.unit();
    let one = ONE as int;
    lemma_length_bounds(v);
    assert(-(one * len) <= v.x * one <= one * len && -(one * len) <= v.y * one <= one * len)
        by (nonlinear_arith)
        requires
            -len <= v.x <= len,
            -len <= v.y <= len,
            one > 0,
    ;
    lemma_trunc_div_magnitude(v.x * one, len, one);
    lemma_trunc_div_magnitude(v.y * one, len, one);
    lemma_trunc_div_error(v.x * one, len);
    lemma_trunc_div_error(v.y * one, len);
    // Rounding toward zero never overshoots: |u| * len <= |v| * one.
    assert((u.x * len) * (u.x * len) <= (v.x * one) * (v.x * one)) by (nonlinear_arith)
        requires
            (v.x * one >= 0 && 0 <= u.x * len <= v.x * one) || (v.x * one <= 0 && v.x * one <= u.x
                * len <= 0),
    ;
    assert((u.y * len) * (u.y * len) <= (v.y * one) * (v.y * one)) by (nonlinear_arith)
        requires
            (v.y * one >= 0 && 0 <= u.y * len <= v.y * one) || (v.y * one <= 0 && v.y * one <= u.y
                * len <= 0),
    ;
    let uu = u.x * u.x + u.y * u.y;
    let ll = len * len;
    assert(uu * ll == (u.x * len) * (u.x * len) + (u.y * len) * (u.y * len)) by (nonlinear_arith)
        requires
            uu == u.x * u.x + u.y * u.y,
            ll == len * len,
    ;
    assert((v.x * one) * (v.x * one) + (v.y * one) * (v.y * one) == (v.x * v.x + v.y * v.y) * (one
        * one)) by (nonlinear_arith);
    assert(ll > 0 && uu >= 0) by (nonlinear_arith)
        requires
            len > 0,
            ll == len * len,
            uu == u.x * u.x + u.y * u.y,
    ;
    assert(uu <= one * one) by (nonlinear_arith)
        requires
            uu * ll <= (v.x * v.x + v.y * v.y) * (one * one),
            v.x * v.x + v.y * v.y <= ll,
            ll > 0,
            one * one > 0,
            uu >= 0,
    ;
}

/// A position in the plane.
#[derive(Clone, Copy, Debug, PartialEq, Eq, Structural)]
pub struct Point2 {
    pub x: StorageTy,
    pub y: StorageTy,
}

impl View for Point2 {
    type V = Coords;

    open spec fn view(&self) -> Coords {
        Coords { x: self.x as int, y: self.y as int }
    }
}

impl Point2 {
    pub fn new(x: StorageTy, y: StorageTy) -> (p: Self)
        ensures
            p.x == x,
            p.y == y,
    {
        Point2 { x, y }
    }
}

/// A displacement in the plane. A point plus a vector is a point.
#[derive(Clone, Copy, Debug, PartialEq, Eq, Structural)]
pub struct Vec2 {
    pub x: StorageTy,
    pub y: StorageTy,
}

impl View for Vec2 {
    type V = Coords;

    open spec fn view(&self) -> Coords {
        Coords { x: self.x as int, y: self.y as int }
    }
}

impl Vec2 {
    pub fn new(x: StorageTy, y: StorageTy) -> (v: Self)
        ensures
            v.x == x,
            v.y == y,
    {
        Vec2 { x, y }
    }

    /// The null displacement.
    pub fn zeros() -> (v: Self)
        ensures
            v.x == 0,
            v.y == 0,
    {
        Vec2 { x: 0, y: 0 }
    }
}

/// The length of the displacement `(x, y)`, rounded up.
pub(crate) fn length_wide(x: i64, y: i64) -> (len: u128)
    ensures
        len == (Coords { x: x as int, y: y as int }).length(),
        len <= 0x1_0000_0000_0000_0000,
        -len <= x <= len,
        -len <= y <= len,
        x != 0 || y != 0 ==> len > 0,
{
    assert(0 <= x * x <= 0x4000_0000_0000_0000_0000_0000_0000_0000) by (nonlinear_arith)
        requires
            -0x8000_0000_0000_0000 <= x <= 0x8000_0000_0000_0000,
    ;
    assert(0 <= y * y <= 0x4000_0000_0000_0000_0000_0000_0000_0000) by (nonlinear_arith)
        requires
            -0x8000_0000_0000_0000 <= y <= 0x8000_0000_0000_0000,
    ;
    proof {
        lemma_length_bounds(Coords { x: x as int, y: y as int });
    }
    let wide_x: i128 = x as i128;
    let wide_y: i128 = y as i128;
    let square: u128 = (wide_x * wide_x) as u128 + (wide_y * wide_y) as u128;
    isqrt_up(square)
}

/// The displacement `(x, y)`, which is not null, brought to length one.
pub(crate) fn normalize_wide(x: i64, y: i64) -> (unit: (StorageTy, StorageTy))
    requires
        x != 0 || y != 0,
    ensures
        unit.0 == (Coords { x: x as int, y: y as int }).unit().x,
        unit.1 == (Coords { x: x as int, y: y as int }).unit().y,
        -ONE <= unit.0 <= ONE,
        -ONE <= unit.1 <= ONE,
{
    let len: u128 = length_wide(x, y);
    proof {
        lemma_unit_is_short(Coords { x: x as int, y: y as int });
    }
    let unit_x: i128 = div_toward_zero((x as i128) * (ONE as i128), len as i128);
    let unit_y: i128 = div_toward_zero((y as i128) * (ONE as i128), len as i128);
    (unit_x as StorageTy, unit_y as StorageTy)
}

/// A displacement in space.
#[derive(Clone, Copy, Debug, PartialEq, Eq, Structural)]
pub struct Vec3 {
    pub x: StorageTy,
    pub y: StorageTy,
    pub z: StorageTy,
}

/// Lifts a planar vector into space. Everything lives in the xy plane, so
/// the new coordinate is zero.
pub fn add_dim(vec2: Vec2) -> (vec3: Vec3)
    ensures
        vec3.x == vec2.x,
        vec3.y == vec2.y,
        vec3.z == 0,
{
    Vec3 { x: vec2.x, y: vec2.y, z: 0 }
}

} // verus!
