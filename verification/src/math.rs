//! Fixed-point plane vectors: exact integer arithmetic over coordinates
//! carried with sixteen fractional bits, including an exact integer
//! square root for magnitudes and unit vectors.

use vstd::prelude::*;

use vstd::arithmetic::div_mod::lemma_fundamental_div_mod;

verus! {

/// One whole unit of a fixed-point coordinate: sixteen fractional bits.
pub const VEC_ONE: i64 = 65536;

/// The largest coordinate magnitude the vector operations accept; it
/// keeps every intermediate product inside the machine range.
pub const VEC_MAX: i64 = 0x7fff_ffff;

/// The integer square root: the largest number whose square does not
/// exceed `n`.
pub open spec fn spec_isqrt(n: nat) -> nat
    decreases n,
{
    if n == 0 {
        0
    } else {
        let r = 2 * spec_isqrt(n / 4);
        if (r + 1) * (r + 1) <= n {
            (r + 1) as nat
        } else {
            r
        }
    }
}

/// The defining bracket of the integer square root.
pub proof fn lemma_isqrt_bounds(n: nat)
    ensures
        spec_isqrt(n) * spec_isqrt(n) <= n,
        n < (spec_isqrt(n) + 1) * (spec_isqrt(n) + 1),
    decreases n,
{
    if n != 0 {
        let q = n / 4;
        let r0 = spec_isqrt(q);
        lemma_isqrt_bounds(q);
        lemma_fundamental_div_mod(n as int, 4);
        assert(4 * (q as int) <= n < 4 * (q as int) + 4);
        let r = 2 * r0;
        assert(r * r <= 4 * (q as int)) by (nonlinear_arith)
            requires
                r == 2 * r0,
                r0 * r0 <= q,
        ;
        assert(4 * (q as int) + 4 <= (r + 2) * (r + 2)) by (nonlinear_arith)
            requires
                r == 2 * r0,
                q < (r0 + 1) * (r0 + 1),
        ;
        assert(r * r <= n);
        assert(n < (r + 2) * (r + 2));
        if (r + 1) * (r + 1) <= n {
            assert(spec_isqrt(n) == r + 1);
            assert(spec_isqrt(n) * spec_isqrt(n) <= n);
            assert(n < (spec_isqrt(n) + 1) * (spec_isqrt(n) + 1));
        } else {
            assert(spec_isqrt(n) == r);
            assert(spec_isqrt(n) * spec_isqrt(n) <= n);
            assert(n < (spec_isqrt(n) + 1) * (spec_isqrt(n) + 1));
        }
    } else {
        assert(spec_isqrt(n) == 0);
        assert((spec_isqrt(n) + 1) * (spec_isqrt(n) + 1) == 1) by (nonlinear_arith)
            requires
                spec_isqrt(n) == 0,
        ;
    }
}

/// The bracket pins the integer square root down: any number whose
/// square is at most `n`, while the next square is above `n`, is the
/// integer square root of `n`.
pub proof fn lemma_isqrt_unique(n: nat, r: nat)
    requires
        r * r <= n,
        n < (r + 1) * (r + 1),
    ensures
        r == spec_isqrt(n),
{
    lemma_isqrt_bounds(n);
    let s = spec_isqrt(n);
    assert(r == s) by (nonlinear_arith)
        requires
            r * r <= n,
            n < (r + 1) * (r + 1),
            s * s <= n,
            n < (s + 1) * (s + 1),
    ;
}

/// Computes the integer square root by bisection.
pub fn isqrt(n: u64) -> (r: u64)
    ensures
        r == spec_isqrt(n as nat),
{
    let mut lo: u64 = 0;
    let mut hi: u64 = 0x1_0000_0000;
    proof {
        assert((hi as int) * (hi as int) > n as int) by (nonlinear_arith)
            requires
                hi == 0x1_0000_0000u64,
                n <= u64::MAX,
        ;
    }
    while hi - lo > 1
        invariant
            lo < hi,
            hi <= 0x1_0000_0000,
            (lo as int) * (lo as int) <= n as int,
            (n as int) < (hi as int) * (hi as int),
        decreases hi - lo,
    {
        let mid = lo + (hi - lo) / 2;
        proof {
            assert((mid as int) * (mid as int) <= 0x1_0000_0000 * 0x1_0000_0000)
                by (nonlinear_arith)
                requires
                    0 <= mid <= 0x1_0000_0000,
            ;
        }
        let sq = (mid as u128) * (mid as u128);
        if sq <= n as u128 {
            lo = mid;
        } else {
            hi = mid;
        }
    }
    proof {
        lemma_isqrt_unique(n as nat, lo as nat);
    }
    lo
}

/// The coordinate of a unit vector: the coordinate scaled to one whole
/// unit and divided by the magnitude, rounded towards zero.
pub open spec fn spec_unit_coord(x: int, m: int) -> int {
    if x >= 0 {
        (x * VEC_ONE) / m
    } else {
        -((-x * VEC_ONE) / m)
    }
}

/// Euclidian vector of two fixed-point coordinates, each carried with
/// sixteen fractional bits.
#[derive(Debug, Clone, Copy, PartialEq, Eq)]
pub struct Vec2d {
    /// The first coordinate, in units of [`VEC_ONE`].
    pub x: i64,
    /// The second coordinate, in units of [`VEC_ONE`].
    pub y: i64,
}

/// Both coordinates lie in the range the vector operations accept.
pub open spec fn spec_vec2_in_range(v: Vec2d) -> bool {
    &&& -VEC_MAX <= v.x <= VEC_MAX
    &&& -VEC_MAX <= v.y <= VEC_MAX
}

proof fn lemma_square_bound(x: int, b: int)
    requires
        -b <= x <= b,
        0 <= b,
    ensures
        0 <= x * x <= b * b,
{
    assert(0 <= x * x <= b * b) by (nonlinear_arith)
        requires
            -b <= x <= b,
            0 <= b,
    ;
}

impl Vec2d {
    /// Creates a vector from its fixed-point coordinates.
    pub fn new(x: i64, y: i64) -> (r: Self)
        ensures
            r.x == x,
            r.y == y,
    {
        Vec2d { x, y }
    }

    /// The dot product of the two vectors, in units of [`VEC_ONE`]
    /// squared.
    pub fn dot(self, rhs: Self) -> (r: i64)
        requires
            spec_vec2_in_range(self),
            spec_vec2_in_range(rhs),
        ensures
            r == self.x * rhs.x + self.y * rhs.y,
    {
        proof {
            assert(-(VEC_MAX as int) * (VEC_MAX as int) <= (self.x as int) * (rhs.x as int) <= (
            VEC_MAX as int) * (VEC_MAX as int)) by (nonlinear_arith)
                requires
                    -VEC_MAX <= self.x <= VEC_MAX,
                    -VEC_MAX <= rhs.x <= VEC_MAX,
            ;
            assert(-(VEC_MAX as int) * (VEC_MAX as int) <= (self.y as int) * (rhs.y as int) <= (
            VEC_MAX as int) * (VEC_MAX as int)) by (nonlinear_arith)
                requires
                    -VEC_MAX <= self.y <= VEC_MAX,
                    -VEC_MAX <= rhs.y <= VEC_MAX,
            ;
        }
        self.x * rhs.x + self.y * rhs.y
    }

    /// The squared magnitude of the vector.
    pub fn sq_magn(self) -> (r: u64)
        requires
            spec_vec2_in_range(self),
        ensures
            r == self.x * self.x + self.y * self.y,
    {
        proof {
            lemma_square_bound(self.x as int, VEC_MAX as int);
            lemma_square_bound(self.y as int, VEC_MAX as int);
        }
        let xx = self.x * self.x;
        let yy = self.y * self.y;
        (xx + yy) as u64
    }

    /// The magnitude of the vector: the integer square root of the
    /// squared magnitude.
    pub fn magn(self) -> (r: u64)
        requires
            spec_vec2_in_range(self),
        ensures
            r == spec_isqrt((self.x * self.x + self.y * self.y) as nat),
    {
        isqrt(self.sq_magn())
    }

    /// The unit vector: each coordinate scaled to one whole unit and
    /// divided by the magnitude, rounded towards zero.  The zero vector
    /// has no direction and is ruled out.
    pub fn unit(self) -> (r: Self)
        requires
            spec_vec2_in_range(self),
            !(self.x == 0 && self.y == 0),
        ensures
            r.x == spec_unit_coord(self.x as int, spec_isqrt(
                (self.x * self.x + self.y * self.y) as nat,
            ) as int),
            r.y == spec_unit_coord(self.y as int, spec_isqrt(
                (self.x * self.x + self.y * self.y) as nat,
            ) as int),
    {
        proof {
            lemma_square_bound(self.x as int, VEC_MAX as int);
            lemma_square_bound(self.y as int, VEC_MAX as int);
            assert(self.x != 0 ==> self.x * self.x >= 1) by (nonlinear_arith);
            assert(self.y != 0 ==> self.y * self.y >= 1) by (nonlinear_arith);
        }
        let m = self.magn();
        proof {
            let s = (self.x * self.x + self.y * self.y) as nat;
            assert(s >= 1);
            lemma_isqrt_bounds(s);
            assert(m == spec_isqrt(s));
            if spec_isqrt(s) == 0 {
                assert(s < (spec_isqrt(s) + 1) * (spec_isqrt(s) + 1));
                assert((spec_isqrt(s) + 1) * (spec_isqrt(s) + 1) == 1) by (nonlinear_arith)
                    requires
                        spec_isqrt(s) == 0,
                ;
            }
            assert(m >= 1);
        }
        Vec2d { x: unit_coord(self.x, m), y: unit_coord(self.y, m) }
    }
}

/// One coordinate of a unit vector, computed on magnitudes so that the
/// division rounds towards zero.
fn unit_coord(x: i64, m: u64) -> (r: i64)
    requires
        -VEC_MAX <= x <= VEC_MAX,
        m >= 1,
    ensures
        r == spec_unit_coord(x as int, m as int),
{
    if x >= 0 {
        let scaled = (x as u64) * 65536;
        let q = scaled / m;
        proof {
            vstd::arithmetic::div_mod::lemma_div_nonincreasing(scaled as int, m as int);
        }
        q as i64
    } else {
        let ax = (-x) as u64;
        let scaled = ax * 65536;
        let q = scaled / m;
        proof {
            vstd::arithmetic::div_mod::lemma_div_nonincreasing(scaled as int, m as int);
        }
        -(q as i64)
    }
}

} // verus!
