//! Whole numbers and quotients as binary floating point of 53 significant
//! bits holds them, worked out on whole numbers alone.
//!
//! A count is read as such a number, divided as such numbers are divided,
//! and the quotient written out in decimal. Each of the three steps rounds
//! to the nearest value that can be held, and a value halfway between two
//! goes to the even one.

use vstd::prelude::*;
use vstd::arithmetic::power2::{lemma2_to64, lemma_pow2_pos, lemma_pow2_unfold, pow2};
use vstd::arithmetic::div_mod::{
    lemma_div_is_ordered, lemma_fundamental_div_mod, lemma_fundamental_div_mod_converse,
};

verus! {

/// Two to the power 52: the least significand of 53 bits.
pub const TWO_52: u64 = 4_503_599_627_370_496;

/// Two to the power 53: the bound of all significands of 53 bits.
pub const TWO_53: u64 = 9_007_199_254_740_992;

/// `n / d` rounded to the nearest whole number; a value halfway between two
/// whole numbers goes to the even one.
pub open spec fn rounded_div(n: nat, d: nat) -> nat {
    let q = n / d;
    let r = n % d;
    if 2 * r > d || (2 * r == d && q % 2 == 1) {
        q + 1
    } else {
        q
    }
}

/// The power of two in whose multiples a whole number is held: one for a
/// number below two to the 53, and twice as much each time the number
/// doubles from there.
pub open spec fn grain(n: nat) -> nat
    decreases n,
{
    if n < TWO_53 {
        1
    } else {
        2 * grain(n / 2)
    }
}

/// The whole number that is held for `n`: the multiple of its grain that is
/// nearest to it.
pub open spec fn binary_whole(n: nat) -> nat {
    rounded_div(n, grain(n)) * grain(n)
}

/// How far `p` is below `q` times two to the 52.
pub open spec fn room(p: nat, q: nat) -> nat {
    if p < q * TWO_52 {
        (q * TWO_52 - p) as nat
    } else {
        0
    }
}

/// The power of two by which `p / q` must be multiplied for it to be at
/// least two to the 52: one where it is that already, or where `p` is zero.
pub open spec fn scale(p: nat, q: nat) -> nat
    decreases room(p, q),
{
    if p == 0 || p >= q * TWO_52 {
        1
    } else {
        2 * scale(2 * p, q)
    }
}

/// The quotient `p / q`, which is below two to the 53, as it is held: a
/// significand and the power of two that divides it. The significand is
/// the quotient, multiplied by that power, rounded to the nearest whole
/// number.
pub open spec fn binary_quotient(p: nat, q: nat) -> (nat, nat) {
    (rounded_div(p * scale(p, q), q), scale(p, q))
}

/// The quotient `p / q` as it is held, in units of one `c`-th, rounded to
/// the nearest whole number of them: `c` is 10 for tenths, 100 for
/// hundredths.
pub open spec fn binary_scaled(p: nat, q: nat, c: nat) -> nat {
    let (m, d) = binary_quotient(p, q);
    rounded_div(m * c, d)
}

/// Rounded division keeps the order of the numbers divided.
pub proof fn lemma_rounded_div_monotonic(a: nat, b: nat, d: nat)
    requires
        a <= b,
        d > 0,
    ensures
        rounded_div(a, d) <= rounded_div(b, d),
{
    lemma_div_is_ordered(a as int, b as int, d as int);
    lemma_fundamental_div_mod(a as int, d as int);
    lemma_fundamental_div_mod(b as int, d as int);
    if a / d == b / d {
        assert(a % d <= b % d);
    }
}

/// A multiple divides without rounding.
pub proof fn lemma_rounded_div_exact(c: nat, d: nat)
    requires
        d > 0,
    ensures
        rounded_div(c * d, d) == c,
{
    lemma_fundamental_div_mod_converse((c * d) as int, d as int, c as int, 0);
}

/// Rounded division does not change where both numbers are multiplied by
/// the same.
pub proof fn lemma_rounded_div_scale(a: nat, b: nat, k: nat)
    requires
        b > 0,
        k > 0,
    ensures
        rounded_div(k * a, k * b) == rounded_div(a, b),
{
    let q = a / b;
    let r = a % b;
    lemma_fundamental_div_mod(a as int, b as int);
    assert(k * a == q * (k * b) + k * r && 0 <= k * r < k * b && k * b > 0) by (nonlinear_arith)
        requires
            a == b * q + r,
            0 <= r < b,
            k > 0,
    ;
    lemma_fundamental_div_mod_converse((k * a) as int, (k * b) as int, q as int, (k * r) as int);
    assert((2 * (k * r) > k * b) == (2 * r > b) && (2 * (k * r) == k * b) == (2 * r == b))
        by (nonlinear_arith)
        requires
            k > 0,
    ;
}

/// Rounded division keeps the order of fractions.
pub proof fn lemma_rounded_div_cross(a: nat, b: nat, c: nat, d: nat)
    requires
        b > 0,
        d > 0,
        a * d <= c * b,
    ensures
        rounded_div(a, b) <= rounded_div(c, d),
{
    lemma_rounded_div_scale(a, b, d);
    lemma_rounded_div_scale(c, d, b);
    assert(d * b == b * d && d * a == a * d && b * c == c * b && d * b > 0) by (nonlinear_arith)
        requires
            b > 0,
            d > 0,
    ;
    lemma_rounded_div_monotonic(d * a, b * c, d * b);
}

/// A number lies below two to the 53 grains, and, where the grain is not
/// one, at two to the 52 grains or above.
pub proof fn lemma_grain(n: nat)
    ensures
        grain(n) >= 1,
        n < TWO_53 * grain(n),
        grain(n) == 1 || TWO_52 * grain(n) <= n,
    decreases n,
{
    if n >= TWO_53 {
        lemma_grain(n / 2);
    }
}

/// The grain of a number is the one power of two of which the number is
/// below two to the 53 times and, unless it is one, at least two to the 52
/// times.
pub proof fn lemma_grain_is(n: nat, e: nat)
    requires
        n < TWO_53 * pow2(e),
        e == 0 || TWO_52 * pow2(e) <= n,
    ensures
        grain(n) == pow2(e),
    decreases e,
{
    lemma2_to64();
    if e > 0 {
        lemma_pow2_unfold(e);
        let h = pow2((e - 1) as nat);
        lemma_pow2_pos((e - 1) as nat);
        assert(TWO_52 * (2 * h) == 2 * (TWO_52 * h) && TWO_53 * (2 * h) == 2 * (TWO_53 * h)
            && TWO_52 * h >= TWO_52) by (nonlinear_arith)
            requires
                h >= 1,
        ;
        assert(n >= TWO_53);
        lemma_grain_is(n / 2, (e - 1) as nat);
    } else {
        assert(TWO_53 * 1 == TWO_53);
    }
}

/// Of two numbers the greater has the same grain as the smaller, or at
/// least twice its grain.
pub proof fn lemma_grain_grows(a: nat, b: nat)
    requires
        a <= b,
    ensures
        grain(a) == grain(b) || 2 * grain(a) <= grain(b),
    decreases b,
{
    lemma_grain(b / 2);
    if b >= TWO_53 && a >= TWO_53 {
        lemma_grain_grows(a / 2, b / 2);
    }
}

/// What is held for a number is at least two to the 52 grains where the
/// grain is not one, and at most two to the 53 grains.
pub proof fn lemma_binary_whole_bounds(n: nat)
    ensures
        binary_whole(n) <= TWO_53 * grain(n),
        grain(n) == 1 ==> binary_whole(n) == n,
        grain(n) > 1 ==> binary_whole(n) >= TWO_52 * grain(n),
{
    let k = grain(n);
    lemma_grain(n);
    lemma_rounded_div_monotonic(n, (TWO_53 as nat) * k, k);
    lemma_rounded_div_exact(TWO_53 as nat, k);
    if k > 1 {
        lemma_rounded_div_monotonic((TWO_52 as nat) * k, n, k);
        lemma_rounded_div_exact(TWO_52 as nat, k);
    }
    let r = rounded_div(n, k);
    assert(r * k <= TWO_53 * k && (k > 1 ==> r * k >= TWO_52 * k)) by (nonlinear_arith)
        requires
            r <= TWO_53,
            k > 1 ==> r >= TWO_52,
            k >= 1,
    ;
}

/// What is held for whole numbers keeps their order.
pub proof fn lemma_binary_whole_monotonic(a: nat, b: nat)
    requires
        a <= b,
    ensures
        binary_whole(a) <= binary_whole(b),
{
    let j = grain(a);
    let k = grain(b);
    lemma_grain(a);
    lemma_grain(b);
    lemma_grain_grows(a, b);
    lemma_binary_whole_bounds(a);
    lemma_binary_whole_bounds(b);
    if j == k {
        lemma_rounded_div_monotonic(a, b, k);
        let x = rounded_div(a, k);
        let y = rounded_div(b, k);
        assert(x * k <= y * k) by (nonlinear_arith)
            requires
                x <= y,
        ;
    } else {
        assert(TWO_53 * j <= TWO_52 * k) by (nonlinear_arith)
            requires
                2 * j <= k,
        ;
    }
}

/// A quotient multiplied by its scale is at least two to the 52, and below
/// two to the 53 where the scale is not one.
pub proof fn lemma_scale(p: nat, q: nat)
    requires
        p > 0,
    ensures
        scale(p, q) >= 1,
        q * TWO_52 <= p * scale(p, q),
        scale(p, q) == 1 || p * scale(p, q) < q * TWO_53,
    decreases room(p, q),
{
    if p < q * TWO_52 {
        lemma_scale(2 * p, q);
        let d = scale(2 * p, q);
        assert(p * (2 * d) == (2 * p) * d) by (nonlinear_arith);
        assert(q * TWO_53 == 2 * (q * TWO_52)) by (nonlinear_arith);
        if d == 1 {
            assert((2 * p) * d == 2 * p);
        }
    }
}

/// The scale of a quotient is the one power of two that brings it to two
/// to the 52 or above and, unless it is one, keeps it below two to the 53.
pub proof fn lemma_scale_is(p: nat, q: nat, e: nat)
    requires
        p > 0,
        q * TWO_52 <= p * pow2(e),
        e == 0 || p * pow2(e) < q * TWO_53,
    ensures
        scale(p, q) == pow2(e),
    decreases e,
{
    lemma2_to64();
    if e > 0 {
        lemma_pow2_unfold(e);
        let h = pow2((e - 1) as nat);
        lemma_pow2_pos((e - 1) as nat);
        assert(p * (2 * h) == (2 * p) * h) by (nonlinear_arith);
        assert(q * TWO_53 == 2 * (q * TWO_52)) by (nonlinear_arith);
        assert(2 * p <= (2 * p) * h) by (nonlinear_arith)
            requires
                h >= 1,
        ;
        assert(p < q * TWO_52);
        lemma_scale_is(2 * p, q, (e - 1) as nat);
        assert(scale(p, q) == 2 * scale(2 * p, q));
    } else {
        assert(p * 1 == p);
        assert(scale(p, q) == 1);
    }
}

/// Of two quotients by the same number the smaller has the same scale as
/// the greater, or at least twice its scale.
pub proof fn lemma_scale_shrinks(a: nat, b: nat, q: nat)
    requires
        0 < a <= b,
    ensures
        scale(a, q) == scale(b, q) || scale(a, q) >= 2 * scale(b, q),
    decreases room(a, q),
{
    lemma_scale(a, q);
    if b < q * TWO_52 {
        lemma_scale_shrinks(2 * a, 2 * b, q);
    }
}

/// The significand of a quotient that is not zero is at least two to the
/// 52, and at most two to the 53 where the scale is not one.
pub proof fn lemma_significand(p: nat, q: nat)
    requires
        p > 0,
        q > 0,
    ensures
        binary_quotient(p, q).0 >= TWO_52,
        scale(p, q) > 1 ==> binary_quotient(p, q).0 <= TWO_53,
{
    let d = scale(p, q);
    lemma_scale(p, q);
    lemma_rounded_div_monotonic(q * (TWO_52 as nat), p * d, q);
    assert(q * TWO_52 == TWO_52 * q && q * TWO_53 == TWO_53 * q) by (nonlinear_arith);
    lemma_rounded_div_exact(TWO_52 as nat, q);
    if d > 1 {
        lemma_rounded_div_monotonic(p * d, q * (TWO_53 as nat), q);
        lemma_rounded_div_exact(TWO_53 as nat, q);
    }
}

/// Quotients by the same number, as they are held, keep the order of the
/// numbers divided.
pub proof fn lemma_binary_quotient_monotonic(a: nat, b: nat, q: nat)
    requires
        0 < a <= b,
        q > 0,
    ensures
        binary_quotient(a, q).0 * binary_quotient(b, q).1 <= binary_quotient(b, q).0
            * binary_quotient(a, q).1,
{
    let (m, d) = binary_quotient(a, q);
    let (n, e) = binary_quotient(b, q);
    lemma_scale(a, q);
    lemma_scale(b, q);
    lemma_scale_shrinks(a, b, q);
    lemma_significand(a, q);
    lemma_significand(b, q);
    if d == e {
        assert(a * d <= b * d) by (nonlinear_arith)
            requires
                a <= b,
        ;
        lemma_rounded_div_monotonic(a * d, b * d, q);
        assert(m * e <= n * d) by (nonlinear_arith)
            requires
                m <= n,
                d == e,
        ;
    } else {
        assert(m * e <= n * d) by (nonlinear_arith)
            requires
                m <= TWO_53,
                n >= TWO_52,
                d >= 2 * e,
                e >= 1,
        ;
    }
}

/// Quotients by the same number, as they are held and written out in
/// decimal, keep the order of the numbers divided.
pub proof fn lemma_binary_scaled_monotonic(a: nat, b: nat, q: nat, c: nat)
    requires
        a <= b,
        q > 0,
    ensures
        binary_scaled(a, q, c) <= binary_scaled(b, q, c),
{
    let (m, d) = binary_quotient(a, q);
    let (n, e) = binary_quotient(b, q);
    if a == 0 {
        assert(0 * scale(0, q) == 0);
        lemma_rounded_div_exact(0, q);
        assert(0 * q == 0);
        assert(m == 0);
        assert(m * c == 0) by (nonlinear_arith)
            requires
                m == 0,
        ;
    } else {
        lemma_scale(a, q);
        lemma_scale(b, q);
        lemma_binary_quotient_monotonic(a, b, q);
        assert((m * c) * e <= (n * c) * d) by (nonlinear_arith)
            requires
                m * e <= n * d,
        ;
        lemma_rounded_div_cross(m * c, d, n * c, e);
    }
}

/// A quotient of at least the whole number `w` is written out as at least
/// `w`, and one of at most `w` as at most `w`: rounding does not cross a
/// whole number.
pub proof fn lemma_binary_scaled_bounds(p: nat, q: nat, c: nat, w: nat)
    requires
        p > 0,
        q > 0,
    ensures
        p >= w * q ==> binary_scaled(p, q, c) >= w * c,
        p <= w * q ==> binary_scaled(p, q, c) <= w * c,
{
    let (m, d) = binary_quotient(p, q);
    lemma_scale(p, q);
    lemma_rounded_div_exact(w * d, q);
    lemma_rounded_div_exact(w * c, d);
    assert((w * d) * q == (w * q) * d && (w * c) * d == (w * d) * c) by (nonlinear_arith);
    if p >= w * q {
        assert(p * d >= (w * q) * d) by (nonlinear_arith)
            requires
                p >= w * q,
        ;
        lemma_rounded_div_monotonic((w * d) * q, p * d, q);
        assert(m * c >= (w * d) * c) by (nonlinear_arith)
            requires
                m >= w * d,
        ;
        lemma_rounded_div_monotonic((w * c) * d, m * c, d);
    }
    if p <= w * q {
        assert(p * d <= (w * q) * d) by (nonlinear_arith)
            requires
                p <= w * q,
        ;
        lemma_rounded_div_monotonic(p * d, (w * d) * q, q);
        assert(m * c <= (w * d) * c) by (nonlinear_arith)
            requires
                m <= w * d,
        ;
        lemma_rounded_div_monotonic(m * c, (w * c) * d, d);
    }
}

/// What is held for a number of 64 bits is below two to the 66.
pub proof fn lemma_binary_whole_fits(n: nat)
    requires
        n <= u64::MAX,
    ensures
        binary_whole(n) <= 0x2_0000_0000_0000_0000,
{
    let k = grain(n);
    lemma_grain(n);
    lemma_binary_whole_bounds(n);
    if k > 1 {
        assert(TWO_53 * k <= 0x2_0000_0000_0000_0000) by (nonlinear_arith)
            requires
                TWO_52 * k <= n,
                n <= u64::MAX,
        ;
    }
}

/// Divides and rounds to the nearest whole number, halves to the even one.
pub fn round_div(n: u128, d: u128) -> (q: u128)
    requires
        d > 0,
    ensures
        q == rounded_div(n as nat, d as nat),
{
    let q: u128 = n / d;
    let r: u128 = n % d;
    if r > d - r || (r == d - r && q % 2 == 1) {
        assert(q < u128::MAX) by (nonlinear_arith)
            requires
                q == n / d,
                r == n % d,
                r > 0,
                d > r,
                n <= u128::MAX,
        ;
        q + 1
    } else {
        q
    }
}

/// Gives the whole number that is held for `n`.
pub fn hold_whole(n: u64) -> (w: u128)
    ensures
        w == binary_whole(n as nat),
{
    let mut h: u64 = n;
    let mut k: u128 = 1;
    while h >= TWO_53
        invariant
            k >= 1,
            k * h <= n,
            grain(n as nat) == k * grain(h as nat),
        decreases h,
    {
        proof {
            let g = grain((h / 2) as nat);
            assert(k * (2 * g) == (k * 2) * g) by (nonlinear_arith);
            assert((k * 2) * (h / 2) <= k * h) by (nonlinear_arith)
                requires
                    k >= 1,
                    h >= 0,
            ;
            assert(k <= k * h) by (nonlinear_arith)
                requires
                    k >= 1,
                    h >= 1,
            ;
        }
        h = h / 2;
        k = k * 2;
    }
    proof {
        assert(k * 1 == k);
        lemma_binary_whole_bounds(n as nat);
        lemma_grain(n as nat);
        lemma_binary_whole_fits(n as nat);
    }
    round_div(n as u128, k) * k
}

/// Gives the quotient `p / q`, which is below two to the 53, as it is held,
/// in units of one `c`-th.
pub fn hold_scaled(p: u128, q: u64, c: u8) -> (t: u128)
    requires
        q > 0,
        p < q * TWO_53,
    ensures
        t == binary_scaled(p as nat, q as nat, c as nat),
{
    assert(q * TWO_52 <= 0x20_0000_0000_0000_0000_0000_0000_0000) by (nonlinear_arith)
        requires
            q <= u64::MAX,
            TWO_52 == 0x10_0000_0000_0000,
    ;
    let bound: u128 = q as u128 * TWO_52 as u128;
    let mut x: u128 = p;
    let mut d: u128 = 1;
    if p > 0 {
        while x < bound
            invariant
                bound == q * TWO_52,
                q > 0,
                x > 0,
                d >= 1,
                x == p * d,
                scale(p as nat, q as nat) == d * scale(x as nat, q as nat),
                x < 2 * bound,
            decreases (if x < bound { bound - x } else { 0 }),
        {
            proof {
                let g = scale((2 * x) as nat, q as nat);
                assert(d * (2 * g) == (d * 2) * g) by (nonlinear_arith);
                assert(p * (d * 2) == (p * d) * 2) by (nonlinear_arith);
                assert(d <= p * d) by (nonlinear_arith)
                    requires
                        p >= 1,
                        d >= 1,
                ;
            }
            x = x * 2;
            d = d * 2;
        }
    }
    proof {
        assert(d * 1 == d);
        assert(p == 0 ==> x == p * d);
    }
    let m = round_div(x, q as u128);
    proof {
        assert(x / (q as u128) <= x) by (nonlinear_arith)
            requires
                q > 0,
                x >= 0,
        ;
        assert(m <= x / (q as u128) + 1);
        assert(2 * bound <= 0x40_0000_0000_0000_0000_0000_0000_0000) by (nonlinear_arith)
            requires
                bound == q * TWO_52,
                q <= u64::MAX,
        ;
        assert(m * c <= 0x4000_0000_0000_0000_0000_0000_0000_0000) by (nonlinear_arith)
            requires
                m <= x + 1,
                x <= 0x40_0000_0000_0000_0000_0000_0000_0000,
                c <= 255,
        ;
    }
    round_div(m * c as u128, d)
}

} // verus!
