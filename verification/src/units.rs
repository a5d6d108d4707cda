//! Fixed-point arithmetic.
//!
//! Lengths, positions, speeds, the score and probabilities are integers that
//! count thousandths: the value `1500` stands for one and a half.

use vstd::prelude::*;

verus! {

/// The fixed-point value of one whole unit.
pub const UNIT: i64 = 1000;

/// The largest coordinate, in either direction, for which the geometry is
/// computed without overflow.
pub const MAX_COORD: i64 = 1_000_000_000_000_000;

/// The largest width or height of anything on the field.
pub const MAX_EXTENT: i64 = 1_000_000_000_000;

/// The largest speed per tick, in either direction.
pub const MAX_SPEED: i64 = 1_000_000_000_000;

/// The absolute value of an integer.
pub open spec fn abs(v: int) -> int {
    if v >= 0 {
        v
    } else {
        -v
    }
}

/// The quotient of `a` by a positive `b`, rounded toward zero.
pub open spec fn quotient(a: int, b: int) -> int {
    if a >= 0 {
        a / b
    } else {
        -((-a) / b)
    }
}

/// Whether `root` is the square root of `n`, rounded down.
pub open spec fn is_sqrt(n: nat, root: nat) -> bool {
    root * root <= n < (root + 1) * (root + 1)
}

/// The square root of `n`, rounded down.
pub open spec fn sqrt(n: nat) -> nat {
    choose|root: nat| is_sqrt(n, root)
}

/// Squaring keeps the order of natural numbers.
pub proof fn lemma_square_monotonic(a: nat, b: nat)
    requires
        a <= b,
    ensures
        a * a <= b * b,
{
    assert(a * a <= b * b) by (nonlinear_arith)
        requires
            a <= b,
    ;
}

/// A number has one rounded-down square root only.
pub proof fn lemma_sqrt_unique(n: nat, root: nat)
    requires
        is_sqrt(n, root),
    ensures
        sqrt(n) == root,
{
    let other = sqrt(n);
    if other < root {
        lemma_square_monotonic(other + 1, root);
    } else if root < other {
        lemma_square_monotonic(root + 1, other);
    }
}

/// The absolute value of `v`.
pub fn magnitude(v: i64) -> (m: u64)
    ensures
        m == abs(v as int),
{
    if v >= 0 {
        v as u64
    } else {
        (-(v as i128)) as u64
    }
}

/// The distance between `a` and `b`.
pub fn distance(a: i64, b: i64) -> (d: u64)
    ensures
        d == abs(a - b),
{
    if a >= b {
        (a as i128 - b as i128) as u64
    } else {
        (b as i128 - a as i128) as u64
    }
}

/// The square root of `n`, rounded down.
pub fn int_sqrt(n: u128) -> (root: u64)
    ensures
        is_sqrt(n as nat, root as nat),
        root == sqrt(n as nat),
{
    let mut low: u128 = 0;
    let mut high: u128 = 0x1_0000_0000_0000_0000;
    while high - low > 1
        invariant
            low < high <= 0x1_0000_0000_0000_0000,
            low * low <= n,
            n < high * high,
        decreases high - low,
    {
        let mid: u128 = low + (high - low) / 2;
        assert(mid * mid <= 0xffff_ffff_ffff_ffff * 0xffff_ffff_ffff_ffff) by (nonlinear_arith)
            requires
                0 <= mid <= 0xffff_ffff_ffff_ffff,
        ;
        if mid * mid <= n {
            low = mid;
        } else {
            high = mid;
        }
    }
    proof {
        lemma_sqrt_unique(n as nat, low as nat);
    }
    low as u64
}

/// The least number of whole units that is not below `value`, for a `value`
/// that is not negative.
pub open spec fn whole_units_above(value: int) -> int {
    (value + (UNIT - 1)) / (UNIT as int) * UNIT
}

/// Rounds a non-negative `value` up to whole units.
pub fn round_up(value: i64) -> (whole: i64)
    requires
        0 <= value <= MAX_EXTENT,
    ensures
        whole == whole_units_above(value as int),
        value <= whole < value + UNIT,
        whole % UNIT == 0,
{
    let units = (value + (UNIT - 1)) / UNIT;
    units * UNIT
}

/// The length of the vector `(dx, dy)`, rounded down.
pub open spec fn length(dx: int, dy: int) -> nat {
    sqrt((dx * dx + dy * dy) as nat)
}

/// The part of `factor` that falls to `value` when a vector of the given
/// length is brought to length one: `value * factor / length`, rounded
/// toward zero. A vector of length zero has no direction, and its share is
/// zero.
pub open spec fn share(value: int, factor: int, length: int) -> int {
    if length > 0 {
        quotient(value * factor, length)
    } else {
        0
    }
}

/// The share of a value that is no longer than the length is no larger than
/// the factor.
pub proof fn lemma_share_bounded(value: int, factor: int, length: int)
    requires
        0 <= factor,
        abs(value) <= length,
    ensures
        abs(share(value, factor, length)) <= factor,
{
    if length > 0 {
        let size = abs(value);
        assert(size * factor <= length * factor) by (nonlinear_arith)
            requires
                0 <= size <= length,
                0 <= factor,
        ;
        assert((size * factor) / length <= factor) by (nonlinear_arith)
            requires
                0 <= size * factor <= length * factor,
                0 < length,
                0 <= factor,
        ;
        assert(value < 0 ==> -(value * factor) == size * factor && value * factor <= 0)
            by (nonlinear_arith)
            requires
                value < 0 ==> size == -value,
                0 <= factor,
        ;
    }
}

/// No component of a vector is longer than the vector.
pub proof fn lemma_length_covers(dx: int, dy: int)
    ensures
        abs(dx) <= length(dx, dy),
        abs(dy) <= length(dx, dy),
{
    let n = (dx * dx + dy * dy) as nat;
    lemma_sqrt_exists(n);
    let root = sqrt(n);
    assert(abs(dx) * abs(dx) == dx * dx) by (nonlinear_arith);
    assert(abs(dy) * abs(dy) == dy * dy) by (nonlinear_arith);
    if root < abs(dx) {
        lemma_square_monotonic(root + 1, abs(dx) as nat);
    }
    if root < abs(dy) {
        lemma_square_monotonic(root + 1, abs(dy) as nat);
    }
}

/// Every natural number has a rounded-down square root.
pub proof fn lemma_sqrt_exists(n: nat)
    ensures
        is_sqrt(n, sqrt(n)),
    decreases n,
{
    if n == 0 {
        assert(is_sqrt(0, 0)) by (nonlinear_arith);
    } else {
        lemma_sqrt_exists((n - 1) as nat);
        let before = sqrt((n - 1) as nat);
        if (before + 1) * (before + 1) <= n {
            assert((before + 2) * (before + 2) > n) by (nonlinear_arith)
                requires
                    (before + 1) * (before + 1) == n,
            ;
            assert(is_sqrt(n, before + 1));
        } else {
            assert(is_sqrt(n, before));
        }
    }
}

/// The length of the vector `(dx, dy)`, rounded down.
pub fn vector_length(dx: i64, dy: i64) -> (len: u64)
    ensures
        len == length(dx as int, dy as int),
        abs(dx as int) <= len,
        abs(dy as int) <= len,
{
    let across: u128 = magnitude(dx) as u128;
    let along: u128 = magnitude(dy) as u128;
    assert(across * across <= 0x8000_0000_0000_0000 * 0x8000_0000_0000_0000) by (nonlinear_arith)
        requires
            0 <= across <= 0x8000_0000_0000_0000,
    ;
    assert(along * along <= 0x8000_0000_0000_0000 * 0x8000_0000_0000_0000) by (nonlinear_arith)
        requires
            0 <= along <= 0x8000_0000_0000_0000,
    ;
    assert(across * across == dx * dx) by (nonlinear_arith)
        requires
            across == abs(dx as int),
    ;
    assert(along * along == dy * dy) by (nonlinear_arith)
        requires
            along == abs(dy as int),
    ;
    proof {
        lemma_length_covers(dx as int, dy as int);
    }
    int_sqrt(across * across + along * along)
}

/// The part of `factor` that falls to `value` when a vector of length
/// `divisor` is brought to length one.
pub fn scaled(value: i64, factor: i64, divisor: u64) -> (result: i64)
    requires
        0 <= factor <= MAX_EXTENT,
        abs(value as int) <= divisor,
    ensures
        result == share(value as int, factor as int, divisor as int),
        abs(result as int) <= factor,
{
    if divisor == 0 {
        return 0;
    }
    let size: u128 = magnitude(value) as u128;
    assert(size * factor <= divisor * factor) by (nonlinear_arith)
        requires
            size <= divisor,
            0 <= factor,
    ;
    assert(divisor * factor <= 0xffff_ffff_ffff_ffff * MAX_EXTENT) by (nonlinear_arith)
        requires
            0 <= factor <= MAX_EXTENT,
            0 < divisor <= 0xffff_ffff_ffff_ffff,
    ;
    let product: u128 = size * (factor as u128);
    let part: u128 = product / (divisor as u128);
    assert(part <= factor) by (nonlinear_arith)
        requires
            part == product / (divisor as u128),
            product <= divisor * factor,
            0 < divisor,
            0 <= factor,
    ;
    assert(value < 0 ==> -(value * factor) == product && value * factor <= 0) by (nonlinear_arith)
        requires
            value < 0 ==> size == -value,
            product == size * factor,
            factor >= 0,
    ;
    if value >= 0 {
        part as i64
    } else {
        -(part as i64)
    }
}

} // verus!
