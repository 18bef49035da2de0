//! Fixed-point vector arithmetic.
//!
//! A coordinate is an `i64` in which `SCALE` stands for one world unit, so a
//! unit vector has components in `[-SCALE, SCALE]`. Intermediate results are
//! carried in `i128`, and every division truncates toward zero.
use vstd::arithmetic::div_mod::*;
use vstd::arithmetic::mul::*;
use vstd::prelude::*;

verus! {

/// The fixed-point value of `1.0`.
pub const SCALE: i64 = 1_000_000;

/// The largest magnitude of a coordinate that a camera accepts.
pub const COORD_LIMIT: i64 = 1_000_000_000_000;

/// A three-component vector in fixed-point units.
#[derive(Clone, Copy, Debug, PartialEq, Eq, Structural)]
pub struct Vec3 {
    pub x: i64,
    pub y: i64,
    pub z: i64,
}

/// A vector over unbounded integers: the model of [`Vec3`].
pub type V3 = (int, int, int);

/// A vector with wide components, for intermediate results.
pub type Wide3 = (i128, i128, i128);

pub open spec fn wide(v: Wide3) -> V3 {
    (v.0 as int, v.1 as int, v.2 as int)
}

pub open spec fn add3(a: V3, b: V3) -> V3 {
    (a.0 + b.0, a.1 + b.1, a.2 + b.2)
}

pub open spec fn sub3(a: V3, b: V3) -> V3 {
    (a.0 - b.0, a.1 - b.1, a.2 - b.2)
}

pub open spec fn neg3(a: V3) -> V3 {
    (-a.0, -a.1, -a.2)
}

pub open spec fn dot3(a: V3, b: V3) -> int {
    a.0 * b.0 + a.1 * b.1 + a.2 * b.2
}

pub open spec fn cross3(a: V3, b: V3) -> V3 {
    (a.1 * b.2 - a.2 * b.1, a.2 * b.0 - a.0 * b.2, a.0 * b.1 - a.1 * b.0)
}

pub open spec fn norm2(a: V3) -> int {
    dot3(a, a)
}

pub open spec fn zero3() -> V3 {
    (0, 0, 0)
}

/// Division that truncates toward zero, as integer division does in Rust.
pub open spec fn tdiv(a: int, b: int) -> int {
    if a >= 0 {
        a / b
    } else {
        -((-a) / b)
    }
}

/// Each component multiplied by `k`, then divided by `d`, truncating.
pub open spec fn scale3(a: V3, k: int, d: int) -> V3 {
    (tdiv(a.0 * k, d), tdiv(a.1 * k, d), tdiv(a.2 * k, d))
}

/// The fixed-point product of two vectors: their cross product divided by `SCALE`.
pub open spec fn fcross(a: V3, b: V3) -> V3 {
    scale3(cross3(a, b), 1, SCALE as int)
}

pub open spec fn abs(a: int) -> int {
    if a >= 0 {
        a
    } else {
        -a
    }
}

pub open spec fn in_range(a: V3) -> bool {
    abs(a.0) <= COORD_LIMIT && abs(a.1) <= COORD_LIMIT && abs(a.2) <= COORD_LIMIT
}

/// Whether every component lies within `COORD_LIMIT`.
pub fn in_range_wide(v: Wide3) -> (r: bool)
    ensures
        r == in_range(wide(v)),
{
    let limit = COORD_LIMIT as i128;
    -limit <= v.0 && v.0 <= limit && -limit <= v.1 && v.1 <= limit && -limit <= v.2 && v.2 <= limit
}

pub open spec fn is_floor_sqrt(n: int, r: int) -> bool {
    0 <= r && r * r <= n && n < (r + 1) * (r + 1)
}

/// The integer square root of `n`, rounded down.
pub open spec fn sqrt_floor(n: int) -> int {
    choose|r: int| is_floor_sqrt(n, r)
}

/// The length of a vector, rounded down.
pub open spec fn length(a: V3) -> int {
    sqrt_floor(norm2(a))
}

/// The distance between two points, rounded down.
pub open spec fn distance(a: V3, b: V3) -> int {
    length(sub3(a, b))
}

/// The direction of `a` as a fixed-point unit vector, each component truncated.
pub open spec fn normalize(a: V3) -> V3 {
    scale3(a, SCALE as int, length(a))
}

impl Vec3 {
    pub open spec fn view(&self) -> V3 {
        (self.x as int, self.y as int, self.z as int)
    }

    pub fn new(x: i64, y: i64, z: i64) -> (r: Vec3)
        ensures
            r@ == (x as int, y as int, z as int),
    {
        Vec3 { x, y, z }
    }

    pub fn zero() -> (r: Vec3)
        ensures
            r@ == zero3(),
    {
        Vec3 { x: 0, y: 0, z: 0 }
    }

    /// The distance to `other`, rounded down.
    pub fn distance(&self, other: &Vec3) -> (r: i64)
        requires
            in_range(self@),
            in_range(other@),
        ensures
            r as int == distance(self@, other@),
    {
        let d = sub_wide(self.widen(), other.widen());
        proof {
            lemma_length_bound(wide(d), 2 * COORD_LIMIT);
        }
        length_wide(d) as i64
    }

    /// The components widened for intermediate arithmetic.
    pub fn widen(&self) -> (r: Wide3)
        ensures
            wide(r) == self@,
    {
        (self.x as i128, self.y as i128, self.z as i128)
    }
}

proof fn lemma_square_monotone(a: int, b: int)
    requires
        0 <= a <= b,
    ensures
        a * a <= b * b,
{
    lemma_mul_inequality(a, b, a);
    lemma_mul_inequality(a, b, b);
}

/// The rounded-down square root is unique.
pub proof fn lemma_floor_sqrt_unique(n: int, r: int)
    requires
        is_floor_sqrt(n, r),
    ensures
        sqrt_floor(n) == r,
{
    let s = sqrt_floor(n);
    assert(is_floor_sqrt(n, s));
    if s < r {
        lemma_square_monotone(s + 1, r);
    } else if r < s {
        lemma_square_monotone(r + 1, s);
    }
}

/// The bound below which `isqrt` accepts its argument: `2^126`.
pub const SQRT_INPUT_LIMIT: u128 = 0x4000_0000_0000_0000_0000_0000_0000_0000;

/// The integer square root, rounded down, by bisection.
pub fn isqrt(n: u128) -> (r: u128)
    requires
        n < SQRT_INPUT_LIMIT,
    ensures
        r as int == sqrt_floor(n as int),
        r < 0x8000_0000_0000_0000,
{
    let mut lo: u128 = 0;
    let mut hi: u128 = 0x8000_0000_0000_0000;
    assert(0x8000_0000_0000_0000u128 * 0x8000_0000_0000_0000u128 == SQRT_INPUT_LIMIT);
    while hi - lo > 1
        invariant
            lo < hi <= 0x8000_0000_0000_0000,
            lo * lo <= n,
            n < hi * hi,
        decreases hi - lo,
    {
        let mid = lo + (hi - lo) / 2;
        proof {
            lemma_square_monotone(mid as int, 0x8000_0000_0000_0000);
        }
        if mid * mid <= n {
            lo = mid;
        } else {
            hi = mid;
        }
    }
    proof {
        lemma_floor_sqrt_unique(n as int, lo as int);
    }
    lo
}

pub open spec fn bounded(a: V3, k: int) -> bool {
    abs(a.0) <= k && abs(a.1) <= k && abs(a.2) <= k
}

/// The bound on a component that `length_of` and `normalize_wide` accept: `2^62`.
pub const WIDE_LIMIT: i128 = 0x4000_0000_0000_0000;

pub fn tdiv_wide(a: i128, b: i128) -> (r: i128)
    requires
        b > 0,
        a > i128::MIN,
    ensures
        r as int == tdiv(a as int, b as int),
{
    if a >= 0 {
        a / b
    } else {
        -((-a) / b)
    }
}

pub proof fn lemma_tdiv_bound(a: int, b: int, k: int)
    requires
        b > 0,
        abs(a) <= k,
    ensures
        abs(tdiv(a, b)) <= k,
        abs(tdiv(a, b)) <= abs(a),
{
    lemma_div_is_ordered(abs(a), k, b);
    lemma_div_decreases_or_eq(abs(a), b);
    lemma_div_pos_is_pos(abs(a), b);
}

proof fn lemma_tdiv_quotient_bound(a: int, b: int, k: int)
    requires
        b > 0,
        abs(a) <= k,
    ensures
        abs(tdiv(a, b)) <= k / b,
{
    lemma_div_is_ordered(abs(a), k, b);
}

proof fn lemma_div_decreases_or_eq(a: int, b: int)
    requires
        a >= 0,
        b > 0,
    ensures
        a / b <= a,
{
    if b == 1 {
        lemma_div_by_multiple(a, 1);
        assert(a / 1 == a);
    } else if a > 0 {
        lemma_div_decreases(a, b);
    } else {
        assert(0int / b == 0);
    }
}

/// The bound on a component that `add_wide` and `sub_wide` accept: `2^125`.
pub const SUM_LIMIT: i128 = 0x2000_0000_0000_0000_0000_0000_0000_0000;

pub fn sub_wide(a: Wide3, b: Wide3) -> (r: Wide3)
    requires
        bounded(wide(a), SUM_LIMIT as int),
        bounded(wide(b), SUM_LIMIT as int),
    ensures
        wide(r) == sub3(wide(a), wide(b)),
{
    (a.0 - b.0, a.1 - b.1, a.2 - b.2)
}

pub fn add_wide(a: Wide3, b: Wide3) -> (r: Wide3)
    requires
        bounded(wide(a), SUM_LIMIT as int),
        bounded(wide(b), SUM_LIMIT as int),
    ensures
        wide(r) == add3(wide(a), wide(b)),
{
    (a.0 + b.0, a.1 + b.1, a.2 + b.2)
}

pub proof fn lemma_product_bound(a: int, b: int, ka: int, kb: int)
    requires
        abs(a) <= ka,
        abs(b) <= kb,
    ensures
        abs(a * b) <= ka * kb,
{
    lemma_mul_inequality(abs(a), ka, abs(b));
    lemma_mul_inequality(abs(b), kb, ka);
    assert(abs(a * b) == abs(a) * abs(b)) by (nonlinear_arith);
    assert(abs(b) * ka == ka * abs(b)) by (nonlinear_arith);
}

/// The cross product of two vectors whose components stay within `2^61`.
pub fn cross_wide(a: Wide3, b: Wide3) -> (r: Wide3)
    requires
        bounded(wide(a), 0x2000_0000_0000_0000),
        bounded(wide(b), 0x2000_0000_0000_0000),
    ensures
        wide(r) == cross3(wide(a), wide(b)),
{
    proof {
        let k = 0x2000_0000_0000_0000int;
        lemma_product_bound(a.1 as int, b.2 as int, k, k);
        lemma_product_bound(a.2 as int, b.1 as int, k, k);
        lemma_product_bound(a.2 as int, b.0 as int, k, k);
        lemma_product_bound(a.0 as int, b.2 as int, k, k);
        lemma_product_bound(a.0 as int, b.1 as int, k, k);
        lemma_product_bound(a.1 as int, b.0 as int, k, k);
    }
    (a.1 * b.2 - a.2 * b.1, a.2 * b.0 - a.0 * b.2, a.0 * b.1 - a.1 * b.0)
}

/// The dot product of two vectors whose components stay within `2^61`.
pub fn dot_wide(a: Wide3, b: Wide3) -> (r: i128)
    requires
        bounded(wide(a), 0x2000_0000_0000_0000),
        bounded(wide(b), 0x2000_0000_0000_0000),
    ensures
        r as int == dot3(wide(a), wide(b)),
{
    proof {
        let k = 0x2000_0000_0000_0000int;
        lemma_product_bound(a.0 as int, b.0 as int, k, k);
        lemma_product_bound(a.1 as int, b.1 as int, k, k);
        lemma_product_bound(a.2 as int, b.2 as int, k, k);
    }
    a.0 * b.0 + a.1 * b.1 + a.2 * b.2
}

/// Each component times `k`, divided by `d` with truncation; `|a_i * k|` stays within `2^125`.
pub(crate) fn scale_wide(a: Wide3, k: i128, d: i128, ka: Ghost<int>, kk: Ghost<int>) -> (r: Wide3)
    requires
        d > 0,
        bounded(wide(a), ka@),
        abs(k as int) <= kk@,
        ka@ * kk@ <= 0x2000_0000_0000_0000_0000_0000_0000_0000,
    ensures
        wide(r) == scale3(wide(a), k as int, d as int),
        bounded(wide(r), ka@ * kk@),
        bounded(wide(r), (ka@ * kk@) / (d as int)),
{
    proof {
        lemma_product_bound(a.0 as int, k as int, ka@, kk@);
        lemma_product_bound(a.1 as int, k as int, ka@, kk@);
        lemma_product_bound(a.2 as int, k as int, ka@, kk@);
        lemma_tdiv_bound(a.0 * k, d as int, ka@ * kk@);
        lemma_tdiv_bound(a.1 * k, d as int, ka@ * kk@);
        lemma_tdiv_bound(a.2 * k, d as int, ka@ * kk@);
        lemma_tdiv_quotient_bound(a.0 * k, d as int, ka@ * kk@);
        lemma_tdiv_quotient_bound(a.1 * k, d as int, ka@ * kk@);
        lemma_tdiv_quotient_bound(a.2 * k, d as int, ka@ * kk@);
    }
    (tdiv_wide(a.0 * k, d), tdiv_wide(a.1 * k, d), tdiv_wide(a.2 * k, d))
}

proof fn lemma_component_below_length(a: V3, c: int)
    requires
        c == a.0 || c == a.1 || c == a.2,
    ensures
        abs(c) <= length(a),
{
    let n = norm2(a);
    assert(a.0 * a.0 >= 0 && a.1 * a.1 >= 0 && a.2 * a.2 >= 0) by (nonlinear_arith);
    assert(c * c <= n);
    lemma_floor_sqrt_exists(n);
    let l = length(a);
    assert(is_floor_sqrt(n, l));
    if abs(c) > l {
        lemma_square_monotone(l + 1, abs(c));
        assert(abs(c) * abs(c) == c * c) by (nonlinear_arith);
    }
}

/// Every non-negative integer has a rounded-down square root.
pub proof fn lemma_floor_sqrt_exists(n: int)
    requires
        n >= 0,
    ensures
        is_floor_sqrt(n, sqrt_floor(n)),
    decreases n,
{
    if n == 0 {
        assert(is_floor_sqrt(0, 0));
    } else {
        lemma_floor_sqrt_exists(n - 1);
        let r = sqrt_floor(n - 1);
        if n < (r + 1) * (r + 1) {
            assert(is_floor_sqrt(n, r));
        } else {
            assert((r + 1) * (r + 1) == n);
            assert(n < (r + 2) * (r + 2)) by (nonlinear_arith)
                requires
                    (r + 1) * (r + 1) == n,
                    r >= 0,
            ;
            assert(is_floor_sqrt(n, r + 1));
        }
    }
}

proof fn lemma_norm2_zero(a: V3)
    ensures
        norm2(a) >= 0,
        norm2(a) == 0 <==> a == zero3(),
{
    assert(a.0 * a.0 >= 0 && a.1 * a.1 >= 0 && a.2 * a.2 >= 0) by (nonlinear_arith);
    if norm2(a) == 0 {
        assert(a.0 * a.0 == 0 && a.1 * a.1 == 0 && a.2 * a.2 == 0);
        assert(a.0 == 0) by (nonlinear_arith)
            requires
                a.0 * a.0 == 0,
        ;
        assert(a.1 == 0) by (nonlinear_arith)
            requires
                a.1 * a.1 == 0,
        ;
        assert(a.2 == 0) by (nonlinear_arith)
            requires
                a.2 * a.2 == 0,
        ;
    }
}

/// The length of a vector is zero exactly for the zero vector.
pub proof fn lemma_length_zero(a: V3)
    ensures
        length(a) >= 0,
        length(a) == 0 <==> a == zero3(),
{
    lemma_norm2_zero(a);
    lemma_floor_sqrt_exists(norm2(a));
    let l = length(a);
    assert(is_floor_sqrt(norm2(a), l));
    if l >= 1 {
        lemma_square_monotone(1, l);
    } else {
        assert(l == 0);
        assert((l + 1) * (l + 1) == 1) by (nonlinear_arith)
            requires
                l == 0,
        ;
    }
}

/// The length of a vector whose components stay within `2^62`.
pub fn length_wide(v: Wide3) -> (r: i128)
    requires
        bounded(wide(v), WIDE_LIMIT as int),
    ensures
        r as int == length(wide(v)),
        0 <= r < 0x8000_0000_0000_0000,
{
    proof {
        let k = WIDE_LIMIT as int;
        lemma_product_bound(v.0 as int, v.0 as int, k, k);
        lemma_product_bound(v.1 as int, v.1 as int, k, k);
        lemma_product_bound(v.2 as int, v.2 as int, k, k);
        assert(v.0 * v.0 >= 0 && v.1 * v.1 >= 0 && v.2 * v.2 >= 0) by (nonlinear_arith);
    }
    let n = v.0 * v.0 + v.1 * v.1 + v.2 * v.2;
    isqrt(n as u128) as i128
}

proof fn lemma_unit_component(c: int, l: int)
    requires
        l > 0,
        abs(c) <= l,
    ensures
        abs(tdiv(c * SCALE, l)) <= SCALE,
        abs(c * SCALE) <= l * SCALE,
{
    lemma_product_bound(c, SCALE as int, l, SCALE as int);
    lemma_div_is_ordered(abs(c * SCALE), l * SCALE, l);
    lemma_div_multiples_vanish(SCALE as int, l);
    assert(l * SCALE == SCALE * l) by (nonlinear_arith);
}

/// The direction of `v` as a fixed-point unit vector, or `None` for the zero vector.
pub fn normalize_wide(v: Wide3) -> (r: Option<Vec3>)
    requires
        bounded(wide(v), WIDE_LIMIT as int),
    ensures
        r is None <==> wide(v) == zero3(),
        r matches Some(u) ==> u@ == normalize(wide(v)) && bounded(u@, SCALE as int),
{
    let l = length_wide(v);
    proof {
        lemma_length_zero(wide(v));
    }
    if l == 0 {
        return None;
    }
    proof {
        lemma_component_below_length(wide(v), v.0 as int);
        lemma_component_below_length(wide(v), v.1 as int);
        lemma_component_below_length(wide(v), v.2 as int);
        lemma_unit_component(v.0 as int, l as int);
        lemma_unit_component(v.1 as int, l as int);
        lemma_unit_component(v.2 as int, l as int);
        assert(l * SCALE <= 0x8000_0000_0000_0000 * SCALE);
    }
    let s = SCALE as i128;
    let x = tdiv_wide(v.0 * s, l);
    let y = tdiv_wide(v.1 * s, l);
    let z = tdiv_wide(v.2 * s, l);
    Some(Vec3 { x: x as i64, y: y as i64, z: z as i64 })
}

pub proof fn lemma_cross_bound(a: V3, b: V3, ka: int, kb: int)
    requires
        bounded(a, ka),
        bounded(b, kb),
    ensures
        bounded(cross3(a, b), 2 * ka * kb),
{
    lemma_product_bound(a.1, b.2, ka, kb);
    lemma_product_bound(a.2, b.1, ka, kb);
    lemma_product_bound(a.2, b.0, ka, kb);
    lemma_product_bound(a.0, b.2, ka, kb);
    lemma_product_bound(a.0, b.1, ka, kb);
    lemma_product_bound(a.1, b.0, ka, kb);
    assert(2 * ka * kb == 2 * (ka * kb)) by (nonlinear_arith);
}

pub proof fn lemma_dot_bound(a: V3, b: V3, ka: int, kb: int)
    requires
        bounded(a, ka),
        bounded(b, kb),
    ensures
        abs(dot3(a, b)) <= 3 * ka * kb,
{
    lemma_product_bound(a.0, b.0, ka, kb);
    lemma_product_bound(a.1, b.1, ka, kb);
    lemma_product_bound(a.2, b.2, ka, kb);
    assert(3 * ka * kb == 3 * (ka * kb)) by (nonlinear_arith);
}

/// A length is at most the sum of the component magnitudes.
pub proof fn lemma_length_bound(a: V3, k: int)
    requires
        bounded(a, k),
    ensures
        0 <= length(a) <= 3 * k,
{
    lemma_norm2_zero(a);
    lemma_floor_sqrt_exists(norm2(a));
    let l = length(a);
    lemma_product_bound(a.0, a.0, k, k);
    lemma_product_bound(a.1, a.1, k, k);
    lemma_product_bound(a.2, a.2, k, k);
    assert(abs(a.0) * abs(a.0) == a.0 * a.0) by (nonlinear_arith);
    assert(abs(a.1) * abs(a.1) == a.1 * a.1) by (nonlinear_arith);
    assert(abs(a.2) * abs(a.2) == a.2 * a.2) by (nonlinear_arith);
    assert(k >= 0);
    if l > 3 * k {
        lemma_square_monotone(3 * k + 1, l);
        assert((3 * k + 1) * (3 * k + 1) > 3 * (k * k)) by (nonlinear_arith)
            requires
                k >= 0,
        ;
        assert(l * l <= norm2(a));
    }
}

pub proof fn lemma_cross_zero(a: V3, b: V3)
    requires
        a == zero3(),
    ensures
        cross3(a, b) == zero3(),
{
    assert(a.0 == 0 && a.1 == 0 && a.2 == 0);
    assert(0 * b.0 == 0 && 0 * b.1 == 0 && 0 * b.2 == 0);
}

/// The vector whose model is `v`, for `v` within the range of `i64`.
pub open spec fn to_vec3(v: V3) -> Vec3 {
    Vec3 { x: v.0 as i64, y: v.1 as i64, z: v.2 as i64 }
}

pub proof fn lemma_to_vec3(v: Vec3)
    ensures
        to_vec3(v@) == v,
{
}

} // verus!
