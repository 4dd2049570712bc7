use vstd::prelude::*;
use vstd::arithmetic::div_mod::{
    lemma_div_is_ordered, lemma_div_nonincreasing, lemma_div_pos_is_pos,
    lemma_fundamental_div_mod,
};
use vstd::arithmetic::mul::lemma_mul_inequality;

verus! {

/// `r` brackets the real square root of `n` from below: r^2 <= n < (r+1)^2.
/// For every n >= 0 exactly one such r exists.
pub open spec fn is_int_sqrt(n: int, r: int) -> bool {
    0 <= r && r * r <= n && n < (r + 1) * (r + 1)
}

/// The integer square root (floor of the real square root) of `n`.
pub open spec fn int_sqrt(n: int) -> int {
    choose|r: int| is_int_sqrt(n, r)
}

/// Two brackets of the same `n` coincide, so `int_sqrt` picks the unique one.
pub proof fn lemma_int_sqrt_unique(n: int, r: int)
    requires
        is_int_sqrt(n, r),
    ensures
        int_sqrt(n) == r,
{
    assert(exists|s: int| is_int_sqrt(n, s)) by {
        assert(is_int_sqrt(n, r));
    }
    let s = int_sqrt(n);
    assert(is_int_sqrt(n, s));
    assert(s == r) by (nonlinear_arith)
        requires
            is_int_sqrt(n, s),
            is_int_sqrt(n, r),
    ;
}

/// Every nonnegative integer has an integer square root bracket, so
/// `int_sqrt` is well defined on it.
pub proof fn lemma_int_sqrt_exists(n: int)
    requires
        0 <= n,
    ensures
        is_int_sqrt(n, int_sqrt(n)),
    decreases n,
{
    if n == 0 {
        assert(is_int_sqrt(0, 0));
    } else {
        lemma_int_sqrt_exists(n - 1);
        let r = int_sqrt(n - 1);
        assert(is_int_sqrt(n - 1, r));
        if (r + 1) * (r + 1) <= n {
            assert(is_int_sqrt(n, r + 1)) by (nonlinear_arith)
                requires
                    is_int_sqrt(n - 1, r),
                    (r + 1) * (r + 1) <= n,
            ;
        } else {
            assert(is_int_sqrt(n, r));
        }
    }
    assert(exists|s: int| is_int_sqrt(n, s));
}

/// Neither coordinate of a vector can exceed the integer square root of the
/// squared magnitude: dx^2 <= dx^2 + dy^2 < (m+1)^2 forces |dx| <= m.
pub proof fn lemma_component_bounded_by_sqrt(dx: int, dy: int, m: int)
    requires
        is_int_sqrt(dx * dx + dy * dy, m),
    ensures
        -m <= dx <= m,
        -m <= dy <= m,
{
    assert(-m <= dx <= m && -m <= dy <= m) by (nonlinear_arith)
        requires
            is_int_sqrt(dx * dx + dy * dy, m),
    ;
}

/// Integer square root, by binary search on the bracket.
pub fn isqrt_u128(n: u128) -> (r: u128)
    ensures
        is_int_sqrt(n as int, r as int),
{
    if n == 0 {
        return 0;
    }
    let mut lo: u128 = 0;
    let mut hi: u128 = 0x1_0000_0000_0000_0000;
    proof {
        assert((hi as int) * (hi as int) > n as int) by (nonlinear_arith)
            requires
                n <= u128::MAX,
                hi == 0x1_0000_0000_0000_0000u128,
        ;
    }
    while hi - lo > 1
        invariant
            0 <= lo < hi <= 0x1_0000_0000_0000_0000,
            (lo as int) * (lo as int) <= n as int,
            (hi as int) * (hi as int) > n as int,
        decreases hi - lo,
    {
        let mid = lo + (hi - lo) / 2;
        proof {
            assert((mid as int) * (mid as int) <= u128::MAX) by (nonlinear_arith)
                requires
                    0 <= mid < 0x1_0000_0000_0000_0000,
            ;
        }
        if mid * mid <= n {
            lo = mid;
        } else {
            hi = mid;
        }
    }
    lo
}

/// For a positive divisor the quotient brackets the dividend:
/// b*(a/b) <= a < b*(a/b) + b.
pub proof fn lemma_floor_div_bounds(a: int, b: int)
    requires
        1 <= b,
    ensures
        b * (a / b) <= a < b * (a / b) + b,
{
    lemma_fundamental_div_mod(a, b);
    vstd::arithmetic::div_mod::lemma_mod_division_less_than_divisor(a, b);
}

/// Floor division respects multiples of the divisor: the quotient of `a`
/// by `b` sits on the same side of `k` as `a` does of `k*b`.  With `k == 0`
/// this says the quotient keeps the dividend's sign.
pub proof fn lemma_floor_div_ordering(a: int, b: int, k: int)
    requires
        1 <= b,
    ensures
        k * b <= a ==> k <= a / b,
        a < k * b ==> a / b < k,
{
    lemma_floor_div_bounds(a, b);
    assert((k * b <= a ==> k <= a / b) && (a < k * b ==> a / b < k)) by (nonlinear_arith)
        requires
            1 <= b,
            b * (a / b) <= a < b * (a / b) + b,
    ;
}

/// Euclidean (floor-style, for positive divisors) integer division on `i32`.
pub fn floor_div(a: i32, b: i32) -> (q: i32)
    requires
        1 <= b,
    ensures
        q as int == a as int / b as int,
{
    proof {
        let ai = a as int;
        let bi = b as int;
        if ai >= 0 {
            lemma_div_pos_is_pos(ai, bi);
            lemma_div_nonincreasing(ai, bi);
        } else {
            lemma_div_is_ordered(ai, 0, bi);
            // a negative dividend divided by b >= 1 moves toward zero
            lemma_fundamental_div_mod(ai, bi);
            assert(ai / bi >= ai) by (nonlinear_arith)
                requires
                    ai < 0,
                    bi >= 1,
                    bi * (ai / bi) + ai % bi == ai,
                    0 <= ai % bi < bi,
            ;
        }
    }
    a.checked_div_euclid(b).unwrap()
}

/// One coordinate of a displacement of (approximate) length `step` along the
/// direction `(dx, dy)`, where `m` is the integer square root of
/// dx^2 + dy^2.  The magnitude is scaled coordinate-wise and rounded toward
/// zero, the fixed-point convention used for all steering in this crate.
pub open spec fn scaled_component(delta: int, step: int, m: int) -> int
    recommends
        m >= 1,
        step >= 0,
{
    if delta >= 0 {
        (delta * step) / m
    } else {
        -(((-delta) * step) / m)
    }
}

/// The scaled coordinate never exceeds `step` in absolute value whenever
/// `|delta| <= m`, which `lemma_component_bounded_by_sqrt` grants.
pub proof fn lemma_scaled_component_bounded(delta: int, step: int, m: int)
    requires
        m >= 1,
        step >= 0,
        -m <= delta <= m,
    ensures
        -step <= scaled_component(delta, step, m) <= step,
        delta >= 0 ==> scaled_component(delta, step, m) >= 0,
        delta <= 0 ==> scaled_component(delta, step, m) <= 0,
        step <= m && delta >= 0 ==> scaled_component(delta, step, m) <= delta,
        step <= m && delta <= 0 ==> scaled_component(delta, step, m) >= delta,
{
    if step <= m {
        let mag = if delta >= 0 { delta } else { -delta };
        lemma_mul_inequality(step, m, mag);
        assert((mag * step) / m <= (mag * m) / m) by {
            vstd::arithmetic::mul::lemma_mul_is_commutative(mag, step);
            vstd::arithmetic::mul::lemma_mul_is_commutative(mag, m);
            lemma_div_is_ordered(mag * step, mag * m, m);
        }
        assert((mag * m) / m == mag) by {
            vstd::arithmetic::div_mod::lemma_div_multiples_vanish(mag, m);
            vstd::arithmetic::mul::lemma_mul_is_commutative(mag, m);
        }
    }
    let mag = if delta >= 0 { delta } else { -delta };
    lemma_mul_inequality(mag, m, step);
    assert((mag * step) / m <= (m * step) / m) by {
        lemma_div_is_ordered(mag * step, m * step, m);
    }
    assert((m * step) / m == step) by {
        vstd::arithmetic::div_mod::lemma_div_multiples_vanish(step, m);
        vstd::arithmetic::mul::lemma_mul_is_commutative(m, step);
    }
    assert((mag * step) / m >= 0) by {
        vstd::arithmetic::mul::lemma_mul_nonnegative(mag, step);
        lemma_div_pos_is_pos(mag * step, m);
    }
    if delta == 0 {
        assert(0 * step == 0);
        assert(0int / m == 0) by {
            vstd::arithmetic::div_mod::lemma_div_of0(m);
        }
    }
    if delta >= 0 {
        assert(scaled_component(delta, step, m) == (mag * step) / m);
    } else {
        assert(scaled_component(delta, step, m) == -((mag * step) / m));
    }
}

/// Rounding costs the scaled pair less than one unit per coordinate: the
/// two scaled magnitudes, each bumped by one, overshoot the step length.
/// Together with the upper bound this pins the displacement length to
/// `step` up to the rounding of the two coordinates.
pub proof fn lemma_scaled_pair_reaches_step(dx: int, dy: int, step: int, m: int)
    requires
        is_int_sqrt(dx * dx + dy * dy, m),
        m >= 1,
        step >= 0,
    ensures
        ({
            let ax = if dx >= 0 {
                scaled_component(dx, step, m)
            } else {
                -scaled_component(dx, step, m)
            };
            let ay = if dy >= 0 {
                scaled_component(dy, step, m)
            } else {
                -scaled_component(dy, step, m)
            };
            (ax + 1) * (ax + 1) + (ay + 1) * (ay + 1) > step * step
        }),
{
    let mx = if dx >= 0 { dx } else { -dx };
    let my = if dy >= 0 { dy } else { -dy };
    let ax = (mx * step) / m;
    let ay = (my * step) / m;
    let tx = mx * step;
    let ty = my * step;
    lemma_floor_div_bounds(tx, m);
    lemma_floor_div_bounds(ty, m);
    assert(mx * mx + my * my >= m * m) by (nonlinear_arith)
        requires
            is_int_sqrt(dx * dx + dy * dy, m),
            mx == (if dx >= 0 { dx } else { -dx }),
            my == (if dy >= 0 { dy } else { -dy }),
    ;
    assert(tx >= 0 && ty >= 0 && m * (ax + 1) > tx && m * (ay + 1) > ty) by (nonlinear_arith)
        requires
            mx >= 0,
            my >= 0,
            step >= 0,
            tx == mx * step,
            ty == my * step,
            m * ax <= tx < m * ax + m,
            m * ay <= ty < m * ay + m,
    ;
    assert((m * (ax + 1)) * (m * (ax + 1)) > tx * tx) by (nonlinear_arith)
        requires
            m * (ax + 1) > tx,
            tx >= 0,
    ;
    assert((m * (ay + 1)) * (m * (ay + 1)) > ty * ty) by (nonlinear_arith)
        requires
            m * (ay + 1) > ty,
            ty >= 0,
    ;
    assert((m * (ax + 1)) * (m * (ax + 1)) == (m * m) * ((ax + 1) * (ax + 1)) && (m * (ay + 1))
        * (m * (ay + 1)) == (m * m) * ((ay + 1) * (ay + 1))) by (nonlinear_arith);
    assert(tx * tx + ty * ty == (step * step) * (mx * mx + my * my)) by (nonlinear_arith)
        requires
            tx == mx * step,
            ty == my * step,
    ;
    assert((step * step) * (mx * mx + my * my) >= (step * step) * (m * m)) by (nonlinear_arith)
        requires
            mx * mx + my * my >= m * m,
    ;
    assert((m * m) * ((ax + 1) * (ax + 1)) + (m * m) * ((ay + 1) * (ay + 1)) == (m * m) * ((ax
        + 1) * (ax + 1) + (ay + 1) * (ay + 1))) by (nonlinear_arith);
    assert((step * step) * (m * m) == (m * m) * (step * step)) by (nonlinear_arith);
    assert((ax + 1) * (ax + 1) + (ay + 1) * (ay + 1) > step * step) by (nonlinear_arith)
        requires
            m >= 1,
            (m * m) * ((ax + 1) * (ax + 1) + (ay + 1) * (ay + 1)) > (m * m) * (step * step),
    ;
    if dx >= 0 {
        assert(scaled_component(dx, step, m) == ax);
    } else {
        assert(-scaled_component(dx, step, m) == ax);
    }
}

/// Executable form of `scaled_component` over machine integers.
pub fn scaled_component_exec(delta: i64, step: i64, m: u64) -> (r: i64)
    requires
        m >= 1,
        0 <= step <= 0x4000_0000_0000_0000,
        -0x4000_0000_0000_0000 <= delta <= 0x4000_0000_0000_0000,
        -(m as int) <= delta as int <= m as int,
    ensures
        r as int == scaled_component(delta as int, step as int, m as int),
        -(step as int) <= r as int <= step as int,
{
    proof {
        lemma_scaled_component_bounded(delta as int, step as int, m as int);
    }
    if delta >= 0 {
        proof {
            vstd::arithmetic::mul::lemma_mul_upper_bound(
                delta as int,
                0x4000_0000_0000_0000,
                step as int,
                0x4000_0000_0000_0000,
            );
            vstd::arithmetic::mul::lemma_mul_nonnegative(delta as int, step as int);
        }
        let num: u128 = (delta as u128) * (step as u128);
        let q: u128 = num / (m as u128);
        q as i64
    } else {
        let nd: i64 = -delta;
        proof {
            vstd::arithmetic::mul::lemma_mul_upper_bound(
                nd as int,
                0x4000_0000_0000_0000,
                step as int,
                0x4000_0000_0000_0000,
            );
            vstd::arithmetic::mul::lemma_mul_nonnegative(nd as int, step as int);
        }
        let num: u128 = (nd as u128) * (step as u128);
        let q: u128 = num / (m as u128);
        -(q as i64)
    }
}

} // verus!
