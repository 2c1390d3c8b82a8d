//! The double-precision steps of autoscaling, carried out exactly on
//! integers. A positive double below a power of two is held as a 53-bit
//! significand `m` and an exponent `k`, meaning `m / 2^k`; each operation
//! rounds its exact result to the nearest such value, ties to an even
//! significand, as IEEE 754 arithmetic does.

use vstd::prelude::*;
use vstd::arithmetic::power2::{
    pow2, lemma2_to64, lemma2_to64_rest, lemma_pow2_adds, lemma_pow2_pos, lemma_pow2_strictly_increases,
    lemma_pow2_unfold,
};
use vstd::arithmetic::div_mod::{lemma_div_denominator, lemma_fundamental_div_mod, lemma_mod_pos_bound};
use vstd::bits::lemma_u128_shr_is_div;
use crate::limits::{is_isqrt, isqrt, isqrt_u128, lemma_isqrt_exists};

verus! {

/// 2^52, the smallest 53-bit significand.
pub open spec fn two52() -> int {
    0x10_0000_0000_0000
}

/// 2^53, one past the largest 53-bit significand.
pub open spec fn two53() -> int {
    0x20_0000_0000_0000
}

/// `a / b` rounded to the nearest integer, ties to the even one.
pub open spec fn div_half_even(a: int, b: int) -> int {
    let f = a / b;
    let r = a % b;
    if 2 * r > b || (2 * r == b && f % 2 == 1) {
        f + 1
    } else {
        f
    }
}

proof fn lemma_div_bounds(a: int, b: int)
    requires
        a >= 0,
        b > 0,
    ensures
        b * (a / b) <= a < b * (a / b) + b,
        0 <= a % b < b,
        a == b * (a / b) + a % b,
        a / b >= 0,
{
    lemma_fundamental_div_mod(a, b);
    lemma_mod_pos_bound(a, b);
    assert(a / b >= 0) by (nonlinear_arith)
        requires
            a == b * (a / b) + a % b,
            0 <= a % b < b,
            a >= 0,
            b > 0,
    ;
}

fn div_half_even_exec(a: u128, b: u128) -> (r: u128)
    requires
        b > 0,
    ensures
        r == div_half_even(a as int, b as int),
{
    let f = a / b;
    let rem = a % b;
    proof {
        lemma_div_bounds(a as int, b as int);
    }
    if rem > b - rem || (rem == b - rem && f % 2 == 1) {
        assert(f + 1 <= u128::MAX) by (nonlinear_arith)
            requires
                b * f <= a,
                a <= u128::MAX,
                b >= 2,
                f >= 0,
        ;
        f + 1
    } else {
        f
    }
}

/// How many times `p` must be doubled to reach at least `q`.
pub open spec fn doublings(p: int, q: int) -> nat
    decreases (if 0 < p < q { q - p } else { 0 }),
{
    if p <= 0 || p >= q {
        0
    } else {
        1 + doublings(2 * p, q)
    }
}

/// The double nearest to `p / q` for `0 < p < q`, as (significand, exponent).
pub open spec fn ratio_f64(p: int, q: int) -> (int, int) {
    let l = doublings(p, q);
    let m = div_half_even(p * pow2(l) * two52(), q);
    if m == two53() {
        (two52(), 52 + l - 1)
    } else {
        (m, 52 + l as int)
    }
}

/// A double in (0, 1]: one (`2^52 / 2^52`) or a normalised significand with
/// an exponent of at least 53.
pub open spec fn unit_f64(s: (int, int)) -> bool {
    ||| s == (two52(), 52int)
    ||| (two52() <= s.0 < two53() && 53 <= s.1 <= 127)
}

proof fn lemma_pow2_lt_exp(a: nat, b: nat)
    requires
        pow2(a) < pow2(b),
    ensures
        a < b,
{
    if a > b {
        lemma_pow2_strictly_increases(b, a);
    }
}

proof fn lemma_pow2_facts()
    ensures
        pow2(52) == two52(),
        pow2(53) == two53(),
        pow2(64) == 0x1_0000_0000_0000_0000,
        pow2(66) == 0x4_0000_0000_0000_0000,
{
    lemma2_to64();
    lemma2_to64_rest();
    lemma_pow2_adds(64, 2);
}

/// The double nearest to `p / q` for `0 < p < q <= 2^66`.
pub fn ratio_f64_exec(p: u128, q: u128) -> (r: (u128, u32))
    requires
        0 < p < q,
        q <= 0x4_0000_0000_0000_0000,
    ensures
        r.0 as int == ratio_f64(p as int, q as int).0,
        r.1 as int == ratio_f64(p as int, q as int).1,
        unit_f64((r.0 as int, r.1 as int)),
        r.1 <= 119,
{
    proof {
        lemma_pow2_facts();
        lemma2_to64();
    }
    let mut c = p;
    let mut l: u32 = 0;
    while c < q
        invariant
            0 < p < q <= 0x4_0000_0000_0000_0000,
            0 < c < 2 * q,
            c == p * pow2(l as nat),
            pow2(l as nat) <= c,
            doublings(p as int, q as int) == l + doublings(c as int, q as int),
            l <= 66,
            pow2(66) == 0x4_0000_0000_0000_0000,
        decreases 2 * q - c,
    {
        proof {
            lemma_pow2_lt_exp(l as nat, 66);
            lemma_pow2_unfold((l + 1) as nat);
        }
        c = 2 * c;
        l = l + 1;
        assert(c == p * pow2(l as nat)) by (nonlinear_arith)
            requires
                c == 2 * (p * pow2((l - 1) as nat)),
                pow2(l as nat) == 2 * pow2((l - 1) as nat),
        ;
    }
    assert(doublings(c as int, q as int) == 0);
    let n = c * 0x10_0000_0000_0000;
    let m = div_half_even_exec(n, q);
    proof {
        lemma_div_bounds(n as int, q as int);
        let f = n as int / q as int;
        assert(two52() <= f < two53()) by (nonlinear_arith)
            requires
                q * f <= n < q * f + q,
                n == c * two52(),
                q <= c < 2 * q,
                q > 0,
                two52() == 0x10_0000_0000_0000,
                two53() == 0x20_0000_0000_0000,
        ;
        assert(n as int == p as int * pow2(l as nat) * two52());
    }
    if m == 0x20_0000_0000_0000 {
        (0x10_0000_0000_0000, 52 + l - 1)
    } else {
        (m, 52 + l)
    }
}

/// How many low bits of `n` a 53-bit significand cannot hold.
pub open spec fn excess_bits(n: int) -> nat
    decreases n,
{
    if n < two53() {
        0
    } else {
        1 + excess_bits(n / 2)
    }
}

/// The double nearest to the natural number `n`.
pub open spec fn int_f64(n: int) -> int {
    let s = excess_bits(n);
    div_half_even(n, pow2(s) as int) * pow2(s)
}

proof fn lemma_excess(n: int)
    requires
        n >= 0,
    ensures
        n / (pow2(excess_bits(n)) as int) < two53(),
        excess_bits(n) > 0 ==> n / (pow2(excess_bits(n)) as int) >= two52(),
    decreases n,
{
    let s = excess_bits(n);
    lemma_pow2_pos(s);
    if n >= two53() {
        lemma_excess(n / 2);
        let s1 = excess_bits(n / 2);
        lemma_pow2_pos(s1);
        lemma_pow2_unfold(s);
        lemma_div_denominator(n, 2, pow2(s1) as int);
        assert(pow2(s) == 2 * pow2(s1));
        if s1 == 0 {
            lemma2_to64();
            assert(n / 2 >= two52());
        }
    }
}

/// The double nearest to `n`, with its rounding error: at most `n / 2^52`.
pub fn int_f64_exec(n: u128) -> (r: u128)
    requires
        n < 0x1_0000_0000_0000_0000_0000_0000,
    ensures
        r as int == int_f64(n as int),
        r as int * two52() <= n as int * (two52() + 1),
        n as int * (two52() - 1) <= r as int * two52(),
{
    proof {
        lemma_pow2_facts();
        lemma2_to64();
    }
    let mut c = n;
    let mut pw: u128 = 1;
    let mut s: u32 = 0;
    while c >= 0x20_0000_0000_0000
        invariant
            n < 0x1_0000_0000_0000_0000_0000_0000,
            pw as int == pow2(s as nat),
            pw >= 1,
            c as int == n as int / pw as int,
            excess_bits(n as int) == s + excess_bits(c as int),
            pw as int * c as int <= n,
            s > 0 ==> c >= two52(),
            s <= 100,
        decreases c,
    {
        proof {
            lemma_div_bounds(n as int, pw as int);
            lemma_div_denominator(n as int, pw as int, 2);
            lemma_pow2_unfold((s + 1) as nat);
            assert(pw * 2 <= n) by (nonlinear_arith)
                requires
                    pw * c <= n,
                    c >= 2,
                    pw >= 1,
            ;
            lemma2_to64();
            lemma_pow2_adds(64, 32);
            assert(pow2(96) == 0x1_0000_0000_0000_0000_0000_0000);
            assert(pw <= pw * c) by (nonlinear_arith)
                requires
                    c >= 1,
                    pw >= 1,
            ;
            assert(pow2(s as nat) < pow2(96));
            lemma_pow2_lt_exp(s as nat, 96);
        }
        c = c / 2;
        pw = pw * 2;
        s = s + 1;
        proof {
            lemma_div_bounds(n as int, pw as int);
        }
    }
    proof {
        lemma_excess(n as int);
        lemma_div_bounds(n as int, pw as int);
    }
    let m = div_half_even_exec(n, pw);
    assert(m <= c + 1);
    assert(m as int * pw as int <= 2 * n + 1) by (nonlinear_arith)
        requires
            m <= c + 1,
            pw * c <= n,
            s > 0 ==> c >= two52(),
            s == 0 ==> pw == 1,
            two52() > 1,
            pw >= 1,
    ;
    let r = m * pw;
    proof {
        // Rounding moved the value by at most one unit of 2^s, which is at
        // most n / 2^52 when rounding happened at all.
        assert(r as int * two52() <= n as int * (two52() + 1)
            && n as int * (two52() - 1) <= r as int * two52()) by (nonlinear_arith)
            requires
                r == m * pw,
                c <= m <= c + 1,
                pw * c <= n < pw * c + pw,
                s > 0 ==> c >= two52(),
                s == 0 ==> pw == 1 && m == c && c == n,
                pw >= 1,
                two52() == 0x10_0000_0000_0000,
        ;
    }
    r
}

/// The double nearest to the square root of `mq / 2^kq`, a double below one.
/// The significand is the root of `mq * 2^t` (with `t + kq` even) rounded to
/// the nearest integer; an exact half cannot occur, as `4 * x` is even and
/// `(2r + 1)^2` odd.
pub open spec fn sqrt_shift(kq: int) -> nat {
    if kq % 2 == 0 {
        52
    } else {
        53
    }
}

/// The integer nearest to the square root of `x`.
pub open spec fn nearest_root(x: int) -> int {
    if 4 * x > (2 * isqrt(x) + 1) * (2 * isqrt(x) + 1) {
        isqrt(x) + 1
    } else {
        isqrt(x)
    }
}

pub open spec fn sqrt_f64(mq: int, kq: int) -> (int, int) {
    let m = nearest_root(mq * pow2(sqrt_shift(kq)));
    let k = (sqrt_shift(kq) + kq) / 2;
    if m == two53() {
        (two52(), k - 1)
    } else {
        (m, k)
    }
}

pub fn sqrt_f64_exec(mq: u128, kq: u32) -> (r: (u128, u32))
    requires
        two52() <= mq < two53(),
        53 <= kq <= 127,
    ensures
        r.0 as int == sqrt_f64(mq as int, kq as int).0,
        r.1 as int == sqrt_f64(mq as int, kq as int).1,
        unit_f64((r.0 as int, r.1 as int)),
{
    proof {
        lemma_pow2_facts();
    }
    let t: u32 = if kq % 2 == 0 { 52 } else { 53 };
    let pw: u128 = if kq % 2 == 0 { 0x10_0000_0000_0000 } else { 0x20_0000_0000_0000 };
    assert(pw as int == pow2(t as nat));
    assert(mq * pw <= 0x20_0000_0000_0000 * 0x20_0000_0000_0000) by (nonlinear_arith)
        requires
            mq < 0x20_0000_0000_0000,
            pw <= 0x20_0000_0000_0000,
    ;
    let x = mq * pw;
    assert(0x100_0000_0000_0000_0000_0000_0000 <= x) by (nonlinear_arith)
        requires
            x == mq * pw,
            mq >= 0x10_0000_0000_0000,
            pw >= 0x10_0000_0000_0000,
    ;
    let r = isqrt_u128(x) as u128;
    assert(two52() <= r < two53()) by (nonlinear_arith)
        requires
            is_isqrt(x as int, r as int),
            0x100_0000_0000_0000_0000_0000_0000 <= x <= 0x20_0000_0000_0000 * 0x20_0000_0000_0000 - 1,
            two52() == 0x10_0000_0000_0000,
            two53() == 0x20_0000_0000_0000,
    ;
    assert((2 * r + 1) * (2 * r + 1) <= 0x40_0000_0000_0000 * 0x40_0000_0000_0000) by (nonlinear_arith)
        requires
            r < 0x20_0000_0000_0000,
    ;
    let m = if 4 * x > (2 * r + 1) * (2 * r + 1) { r + 1 } else { r };
    let k = (t + kq) / 2;
    if m == 0x20_0000_0000_0000 {
        (0x10_0000_0000_0000, k - 1)
    } else {
        (m, k)
    }
}

/// The double 1.0.
pub open spec fn f64_one() -> (int, int) {
    (two52(), 52int)
}

/// The smaller of two doubles held with normalised significands: the one
/// with the larger exponent, or with equal exponents the smaller significand.
pub open spec fn min_f64(a: (int, int), b: (int, int)) -> (int, int) {
    if a.1 > b.1 || (a.1 == b.1 && a.0 <= b.0) {
        a
    } else {
        b
    }
}

fn min_f64_exec(a: (u128, u32), b: (u128, u32)) -> (r: (u128, u32))
    ensures
        (r.0 as int, r.1 as int) == min_f64((a.0 as int, a.1 as int), (b.0 as int, b.1 as int)),
        r == a || r == b,
{
    if a.1 > b.1 || (a.1 == b.1 && a.0 <= b.0) {
        a
    } else {
        b
    }
}

/// The scale factor of autoscaling as the double-precision code computes
/// it: 1.0, lowered to `side_limit / width`, to `side_limit / height`, and to
/// `sqrt(pixels_allowed / pixels)`, with the pixel counts converted to
/// doubles and each quotient and the root rounded. A term of one or more
/// cannot lower the factor and is passed over.
pub open spec fn autoscale_factor(sw: int, sh: int, d: int, budget: int) -> (int, int) {
    let s1 = if d < sw { min_f64(f64_one(), ratio_f64(d, sw)) } else { f64_one() };
    let s2 = if d < sh { min_f64(s1, ratio_f64(d, sh)) } else { s1 };
    let p = int_f64(budget);
    let t = int_f64(sw * sh);
    if p < t && ratio_f64(p, t).1 >= 53 {
        min_f64(s2, sqrt_f64(ratio_f64(p, t).0, ratio_f64(p, t).1))
    } else {
        s2
    }
}

pub fn autoscale_factor_exec(sw: u32, sh: u32, d: u32, budget: u64) -> (r: (u128, u32))
    requires
        sw >= 1,
        sh >= 1,
        d >= 1,
        budget >= 1,
    ensures
        (r.0 as int, r.1 as int) == autoscale_factor(sw as int, sh as int, d as int, budget as int),
        unit_f64((r.0 as int, r.1 as int)),
{
    proof {
        lemma_pow2_facts();
    }
    let one: (u128, u32) = (0x10_0000_0000_0000, 52);
    let s1 = if d < sw { min_f64_exec(one, ratio_f64_exec(d as u128, sw as u128)) } else { one };
    let s2 = if d < sh { min_f64_exec(s1, ratio_f64_exec(d as u128, sh as u128)) } else { s1 };
    let p = int_f64_exec(budget as u128);
    assert(sw as int * sh as int <= 0xffff_ffff * 0xffff_ffff) by (nonlinear_arith)
        requires
            sw <= 0xffff_ffff,
            sh <= 0xffff_ffff,
    ;
    let t = int_f64_exec(sw as u128 * sh as u128);
    assert(1 <= p && t <= 0x2_0000_0000_0000_0000) by (nonlinear_arith)
        requires
            p * two52() >= budget * (two52() - 1),
            t * two52() <= (sw * sh) * (two52() + 1),
            sw * sh <= 0xffff_ffff * 0xffff_ffff,
            budget >= 1,
            two52() == 0x10_0000_0000_0000,
    ;
    if p < t {
        let q = ratio_f64_exec(p, t);
        if q.1 >= 53 {
            return min_f64_exec(s2, sqrt_f64_exec(q.0, q.1));
        }
    }
    s2
}

/// A side scaled by the factor: `floor(side * factor)` with the product
/// rounded to a double, and at least 1.
pub open spec fn scaled_side(side: int, s: (int, int)) -> int {
    let f = int_f64(side * s.0) / (pow2(s.1 as nat) as int);
    if f < 1 {
        1
    } else {
        f
    }
}

pub(crate) proof fn lemma_unit_le_one(s: (int, int))
    requires
        unit_f64(s),
    ensures
        0 < s.0 <= pow2(s.1 as nat),
        s.1 >= 52,
{
    lemma_pow2_facts();
    if s.1 > 53 {
        lemma_pow2_strictly_increases(53, s.1 as nat);
    }
}

pub fn scaled_side_exec(side: u32, s: (u128, u32)) -> (r: u32)
    requires
        side >= 1,
        unit_f64((s.0 as int, s.1 as int)),
    ensures
        r as int == scaled_side(side as int, (s.0 as int, s.1 as int)),
        1 <= r <= side,
{
    proof {
        lemma_pow2_facts();
        lemma_unit_le_one((s.0 as int, s.1 as int));
    }
    assert(side as int * s.0 as int <= 0xffff_ffff * 0x20_0000_0000_0000) by (nonlinear_arith)
        requires
            side <= 0xffff_ffff,
            s.0 < 0x20_0000_0000_0000,
    ;
    let n = side as u128 * s.0;
    let big = int_f64_exec(n);
    proof {
        lemma_u128_shr_is_div(big, s.1 as u128);
        let pk = pow2(s.1 as nat) as int;
        lemma_pow2_pos(s.1 as nat);
        lemma_div_bounds(big as int, pk);
        assert(big < (side + 1) * pk) by (nonlinear_arith)
            requires
                big * two52() <= n * (two52() + 1),
                n == side * s.0,
                s.0 <= pk,
                side <= 0xffff_ffff,
                two52() == 0x10_0000_0000_0000,
                pk > 0,
        ;
        assert(big as int / pk <= side) by (nonlinear_arith)
            requires
                pk * (big as int / pk) <= big,
                big < (side + 1) * pk,
                pk > 0,
        ;
    }
    let f = big >> (s.1 as u128);
    if f < 1 {
        1
    } else {
        f as u32
    }
}

// ---------------------------------------------------------------------------
// Bounds and rounding errors.

proof fn lemma_doublings(p: int, q: int)
    requires
        0 < p < q,
    ensures
        doublings(p, q) >= 1,
        q <= p * pow2(doublings(p, q)) < 2 * q,
    decreases q - p,
{
    let l = doublings(p, q);
    lemma_pow2_unfold(l);
    if 2 * p >= q {
        assert(doublings(2 * p, q) == 0);
        lemma2_to64();
        assert(l == 1);
    } else {
        lemma_doublings(2 * p, q);
        let l1 = doublings(2 * p, q);
        assert(l == 1 + l1);
        assert(p * pow2(l) == 2 * p * pow2(l1)) by (nonlinear_arith)
            requires
                pow2(l) == 2 * pow2(l1),
        ;
    }
}

/// The double nearest to a ratio below one lies in (0, 1].
pub proof fn lemma_ratio_unit(p: int, q: int)
    requires
        0 < p < q <= 0x4_0000_0000_0000_0000,
    ensures
        unit_f64(ratio_f64(p, q)),
{
    lemma_pow2_facts();
    lemma_doublings(p, q);
    let l = doublings(p, q);
    let c = p * pow2(l);
    assert(c >= pow2(l)) by (nonlinear_arith)
        requires
            c == p * pow2(l),
            p >= 1,
            pow2(l) >= 0,
    ;
    if l > 66 {
        lemma_pow2_unfold(67);
        if l > 67 {
            lemma_pow2_strictly_increases(67, l);
        }
        assert(false);
    }
    let n = c * two52();
    assert(n == p * pow2(l) * two52());
    lemma_div_bounds(n, q);
    let f = n / q;
    assert(two52() <= f < two53()) by (nonlinear_arith)
        requires
            q * f <= n < q * f + q,
            n == c * two52(),
            q <= c < 2 * q,
            q > 0,
            two52() == 0x10_0000_0000_0000,
            two53() == 0x20_0000_0000_0000,
    ;
}

/// The double nearest to the root of a double below one lies in (0, 1].
pub proof fn lemma_sqrt_unit(mq: int, kq: int)
    requires
        two52() <= mq < two53(),
        53 <= kq <= 127,
    ensures
        unit_f64(sqrt_f64(mq, kq)),
{
    lemma_pow2_facts();
    let x = mq * pow2(sqrt_shift(kq));
    assert(0x100_0000_0000_0000_0000_0000_0000 <= x < 0x20_0000_0000_0000 * 0x20_0000_0000_0000) by (nonlinear_arith)
        requires
            x == mq * pow2(sqrt_shift(kq)),
            0x10_0000_0000_0000 <= mq < 0x20_0000_0000_0000,
            0x10_0000_0000_0000 <= pow2(sqrt_shift(kq)) <= 0x20_0000_0000_0000,
    ;
    lemma_isqrt_exists(x);
    let r = isqrt(x);
    assert(two52() <= r < two53()) by (nonlinear_arith)
        requires
            is_isqrt(x, r),
            0x100_0000_0000_0000_0000_0000_0000 <= x < 0x20_0000_0000_0000 * 0x20_0000_0000_0000,
            two52() == 0x10_0000_0000_0000,
            two53() == 0x20_0000_0000_0000,
    ;
}

/// Rounding a natural number to a double moves it by at most `n / 2^52`.
pub proof fn lemma_int_f64_error(n: int)
    requires
        n >= 0,
    ensures
        int_f64(n) * two52() <= n * (two52() + 1),
        n * (two52() - 1) <= int_f64(n) * two52(),
{
    lemma_excess(n);
    let s = excess_bits(n);
    lemma_pow2_pos(s);
    let pw = pow2(s) as int;
    lemma_div_bounds(n, pw);
    let c = n / pw;
    let m = div_half_even(n, pw);
    assert(c <= m <= c + 1);
    if s == 0 {
        lemma2_to64();
        assert(pw == 1);
        assert(c == n);
        assert(n % pw == 0);
        assert(m == c);
    }
    assert(int_f64(n) == m * pw);
    assert(pw * c <= n < pw * c + pw);
    assert(s > 0 ==> c >= two52());
    if s > 0 {
        assert(m * pw <= c * pw + pw) by (nonlinear_arith)
            requires
                m <= c + 1,
                pw >= 0,
        ;
        assert(c * pw <= m * pw) by (nonlinear_arith)
            requires
                c <= m,
                pw >= 0,
        ;
        assert(pw * two52() <= pw * c) by (nonlinear_arith)
            requires
                c >= two52(),
                pw >= 0,
        ;
        assert(c * pw == pw * c) by (nonlinear_arith);
    }
}

/// The factor of autoscaling lies in (0, 1].
pub proof fn lemma_factor_unit(sw: int, sh: int, d: int, budget: int)
    requires
        1 <= sw <= 0xffff_ffff,
        1 <= sh <= 0xffff_ffff,
        d >= 1,
        1 <= budget <= 0xffff_ffff_ffff_ffff,
    ensures
        unit_f64(autoscale_factor(sw, sh, d, budget)),
{
    lemma_pow2_facts();
    let one = f64_one();
    if d < sw {
        lemma_ratio_unit(d, sw);
    }
    if d < sh {
        lemma_ratio_unit(d, sh);
    }
    let p = int_f64(budget);
    let t = int_f64(sw * sh);
    lemma_int_f64_error(budget);
    assert(sw * sh <= 0xffff_ffff * 0xffff_ffff) by (nonlinear_arith)
        requires
            1 <= sw <= 0xffff_ffff,
            1 <= sh <= 0xffff_ffff,
    ;
    lemma_int_f64_error(sw * sh);
    assert(1 <= p && t <= 0x2_0000_0000_0000_0000) by (nonlinear_arith)
        requires
            p * two52() >= budget * (two52() - 1),
            t * two52() <= (sw * sh) * (two52() + 1),
            sw * sh <= 0xffff_ffff * 0xffff_ffff,
            budget >= 1,
            two52() == 0x10_0000_0000_0000,
    ;
    if p < t {
        lemma_ratio_unit(p, t);
        let q = ratio_f64(p, t);
        if q.1 >= 53 {
            lemma_sqrt_unit(q.0, q.1);
        }
    }
}

/// A scaled side is at least 1 and, the factor being at most one, at most
/// the side.
pub proof fn lemma_scaled_side_bounds(side: int, s: (int, int))
    requires
        1 <= side <= 0xffff_ffff,
        unit_f64(s),
    ensures
        1 <= scaled_side(side, s) <= side,
{
    lemma_pow2_facts();
    lemma_unit_le_one(s);
    let n = side * s.0;
    assert(n >= 0) by (nonlinear_arith)
        requires
            n == side * s.0,
            side >= 1,
            s.0 > 0,
    ;
    lemma_int_f64_error(n);
    let big = int_f64(n);
    let pk = pow2(s.1 as nat) as int;
    lemma_pow2_pos(s.1 as nat);
    assert(s.0 <= pk);
    assert(big >= 0) by (nonlinear_arith)
        requires
            n * (two52() - 1) <= big * two52(),
            n >= 0,
            two52() == 0x10_0000_0000_0000,
    ;
    lemma_div_bounds(big, pk);
    assert(n <= side * pk) by (nonlinear_arith)
        requires
            n == side * s.0,
            s.0 <= pk,
            side >= 0,
    ;
    assert(side * pk < pk * two52()) by (nonlinear_arith)
        requires
            side <= 0xffff_ffff,
            pk > 0,
            two52() == 0x10_0000_0000_0000,
    ;
    assert((side + 1) * pk == side * pk + pk) by (nonlinear_arith);
    assert(pk * two52() == two52() * pk) by (nonlinear_arith);
    assert(big < (side + 1) * pk);
    assert(big / pk <= side) by (nonlinear_arith)
        requires
            pk * (big / pk) <= big,
            big < (side + 1) * pk,
            pk > 0,
    ;
}

// ---------------------------------------------------------------------------
// Quotients of any size and their display with three decimals.

/// The double nearest to `p / q` for `p, q >= 1`: below one as
/// `ratio_f64`; otherwise `q` is doubled `j` times past `p`, that ratio
/// rounded, and its exponent lowered by `j` (scaling by powers of two is
/// exact, so rounding commutes with it).
pub open spec fn quotient_f64(p: int, q: int) -> (int, int) {
    if p < q {
        ratio_f64(p, q)
    } else {
        let j = doublings(q, p + 1);
        let r = ratio_f64(p, q * pow2(j));
        (r.0, r.1 - j)
    }
}

/// The double `m / 2^k` times 1000, rounded to the nearest integer, ties to
/// even: the three decimals `{:.3}` prints.
pub open spec fn thousandths(m: int, k: int) -> int {
    if k >= 0 {
        div_half_even(m * 1000, pow2(k as nat) as int)
    } else {
        m * 1000 * pow2((-k) as nat)
    }
}

fn pow2_exec(e: u32) -> (r: u128)
    requires
        e <= 120,
    ensures
        r as int == pow2(e as nat),
{
    proof {
        lemma2_to64();
        lemma2_to64_rest();
        lemma_pow2_adds(64, 56);
    }
    let mut r: u128 = 1;
    let mut i: u32 = 0;
    while i < e
        invariant
            i <= e <= 120,
            r as int == pow2(i as nat),
            pow2(120) == pow2(64) * pow2(56),
            pow2(64) == 0x1_0000_0000_0000_0000,
            pow2(56) == 0x100_0000_0000_0000,
        decreases e - i,
    {
        proof {
            lemma_pow2_strictly_increases(i as nat, 120);
            lemma_pow2_unfold((i + 1) as nat);
        }
        r = r * 2;
        i = i + 1;
    }
    r
}

pub fn quotient_f64_exec(p: u128, q: u128) -> (r: (u128, i32))
    requires
        1 <= p <= 0x1_0000_0000_0000_2000,
        1 <= q <= 0x1_0000_0000_0000_2000,
    ensures
        r.0 as int == quotient_f64(p as int, q as int).0,
        r.1 as int == quotient_f64(p as int, q as int).1,
        two52() <= r.0 < two53(),
        -14 <= r.1 <= 119,
{
    proof {
        lemma_pow2_facts();
        lemma2_to64();
        lemma2_to64_rest();
    }
    if p < q {
        let r = ratio_f64_exec(p, q);
        assert(r.0 < two53());
        return (r.0, r.1 as i32);
    }
    let mut c = q;
    let mut j: u32 = 0;
    while c < p + 1
        invariant
            1 <= q <= p <= 0x1_0000_0000_0000_2000,
            q <= c < 2 * (p + 1),
            c == q * pow2(j as nat),
            pow2(j as nat) <= c,
            doublings(q as int, p + 1) == j + doublings(c as int, p + 1),
            j <= 66,
            pow2(66) == 0x4_0000_0000_0000_0000,
        decreases 2 * (p + 1) - c,
    {
        proof {
            lemma_pow2_lt_exp(j as nat, 66);
            lemma_pow2_unfold((j + 1) as nat);
        }
        c = 2 * c;
        j = j + 1;
        assert(c == q * pow2(j as nat)) by (nonlinear_arith)
            requires
                c == 2 * (q * pow2((j - 1) as nat)),
                pow2(j as nat) == 2 * pow2((j - 1) as nat),
        ;
    }
    assert(doublings(c as int, p + 1) == 0);
    let r = ratio_f64_exec(p, c);
    assert(r.0 < two53());
    assert(j <= 65) by {
        if j > 65 {
            lemma_pow2_strictly_increases(65, j as nat);
            lemma_pow2_adds(64, 1);
        }
    }
    (r.0, r.1 as i32 - j as i32)
}

pub fn thousandths_exec(m: u128, k: i32) -> (r: u128)
    requires
        two52() <= m < two53(),
        -14 <= k <= 119,
    ensures
        r as int == thousandths(m as int, k as int),
        r <= m * 1000 * 0x4000,
{
    proof {
        lemma2_to64();
    }
    if k >= 0 {
        let pw = pow2_exec(k as u32);
        proof {
            lemma_pow2_pos(k as nat);
            lemma_div_bounds((m * 1000) as int, pw as int);
        }
        let r = div_half_even_exec(m * 1000, pw);
        assert(r <= m * 1000 + 1);
        assert(r <= m * 1000 * 0x4000) by (nonlinear_arith)
            requires
                r <= m * 1000 + 1,
                m >= 1,
        ;
        r
    } else {
        let pw = pow2_exec((-k) as u32);
        proof {
            lemma_pow2_strictly_increases((-k) as nat, 15);
        }
        assert(pw < 0x8000);
        assert(m * 1000 * pw <= m * 1000 * 0x4000) by (nonlinear_arith)
            requires
                pw <= 0x4000,
                m >= 1,
        ;
        m * 1000 * pw
    }
}

} // verus!
