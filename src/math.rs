//! Axial coordinates on a hexagonal grid, and the floor division that splits
//! a global coordinate into a chunk coordinate and an offset inside it.
use vstd::prelude::*;

verus! {

/// Floor division: rounds toward negative infinity for a positive divisor.
pub open spec fn floor_div(a: int, s: int) -> int {
    a / s
}

/// Floor modulo: the remainder that goes with `floor_div`, in `[0, s)` for a
/// positive divisor.
pub open spec fn floor_mod(a: int, s: int) -> int {
    a % s
}

/// A two-component `(q, r)` coordinate on a hexagonal tiling.
#[derive(Clone, Copy, Debug, PartialEq, Eq, Hash, Structural)]
pub struct AxialPoint {
    pub q: i32,
    pub r: i32,
}

impl AxialPoint {
    pub fn new(q: i32, r: i32) -> (p: AxialPoint)
        ensures
            p.q == q,
            p.r == r,
    {
        AxialPoint { q, r }
    }

    /// Component-wise sum; each sum must fit in an `i32`.
    pub fn add(self, other: AxialPoint) -> (p: AxialPoint)
        requires
            i32::MIN <= self.q + other.q <= i32::MAX,
            i32::MIN <= self.r + other.r <= i32::MAX,
        ensures
            p.q == self.q + other.q,
            p.r == self.r + other.r,
    {
        AxialPoint { q: self.q + other.q, r: self.r + other.r }
    }

    /// Component-wise floor division by a positive scalar.
    pub fn div_floor(self, s: i32) -> (p: AxialPoint)
        requires
            s > 0,
        ensures
            p.q == floor_div(self.q as int, s as int),
            p.r == floor_div(self.r as int, s as int),
    {
        AxialPoint { q: div_floor_i32(self.q, s), r: div_floor_i32(self.r, s) }
    }

    /// Component-wise floor modulo by a positive scalar: each component of
    /// the result lies in `[0, s)`.
    pub fn mod_floor(self, s: i32) -> (p: AxialPoint)
        requires
            s > 0,
        ensures
            p.q == floor_mod(self.q as int, s as int),
            p.r == floor_mod(self.r as int, s as int),
            0 <= p.q < s,
            0 <= p.r < s,
    {
        AxialPoint { q: mod_floor_i32(self.q, s), r: mod_floor_i32(self.r, s) }
    }
}

/// `a / s` rounded toward negative infinity.
fn div_floor_i32(a: i32, s: i32) -> (d: i32)
    requires
        s > 0,
    ensures
        d == floor_div(a as int, s as int),
{
    proof {
        lemma_floor_div_fits(a as int, s as int);
    }
    a.checked_div_euclid(s).unwrap()
}

/// The remainder of `a` by `s` that lies in `[0, s)`.
fn mod_floor_i32(a: i32, s: i32) -> (m: i32)
    requires
        s > 0,
    ensures
        m == floor_mod(a as int, s as int),
{
    proof {
        lemma_floor_split(a as int, s as int);
    }
    a.checked_rem_euclid(s).unwrap()
}

/// Dividing by a positive divisor moves a value toward zero or keeps it.
proof fn lemma_floor_div_fits(a: int, s: int)
    requires
        s > 0,
    ensures
        a >= 0 ==> 0 <= floor_div(a, s) <= a,
        a < 0 ==> a <= floor_div(a, s) < 0,
{
    assert(a >= 0 ==> 0 <= a / s <= a) by (nonlinear_arith)
        requires
            s > 0,
    ;
    assert(a < 0 ==> a <= a / s < 0) by (nonlinear_arith)
        requires
            s > 0,
    ;
}

/// One component of a split is exact and its remainder is in range.
proof fn lemma_floor_split(a: int, s: int)
    requires
        s > 0,
    ensures
        floor_div(a, s) * s + floor_mod(a, s) == a,
        0 <= floor_mod(a, s) < s,
{
    assert(floor_div(a, s) * s + floor_mod(a, s) == a) by (nonlinear_arith)
        requires
            s > 0,
    ;
}

/// Splitting a coordinate `(q, r)` by a positive size `s` round-trips:
/// `floor_div(x, s) * s + floor_mod(x, s) == x` for each component, and each
/// remainder lies in `[0, s)`, also when the component is negative.
pub proof fn lemma_split_round_trip(q: int, r: int, s: int)
    requires
        s > 0,
    ensures
        floor_div(q, s) * s + floor_mod(q, s) == q,
        floor_div(r, s) * s + floor_mod(r, s) == r,
        0 <= floor_mod(q, s) < s,
        0 <= floor_mod(r, s) < s,
{
    lemma_floor_split(q, s);
    lemma_floor_split(r, s);
}

} // verus!
