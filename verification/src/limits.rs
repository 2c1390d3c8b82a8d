//! Planning of image decoding against the configured and the hard limits.

use vstd::prelude::*;
use vstd::arithmetic::div_mod::{lemma_fundamental_div_mod, lemma_mod_pos_bound};
use crate::config::ImageLimits;
use crate::text::{push_decimal, push_str};
use crate::float::{
    autoscale_factor, autoscale_factor_exec, int_f64, lemma_factor_unit, lemma_int_f64_error,
    lemma_scaled_side_bounds, scaled_side, scaled_side_exec, two52, unit_f64,
};
use vstd::arithmetic::power2::{lemma_pow2_pos, pow2};

verus! {

// ---------------------------------------------------------------------------
// Integer arithmetic facts.

proof fn lemma_floor_div(x: int, d: int)
    requires
        0 <= x,
        0 < d,
    ensures
        0 <= x / d,
        d * (x / d) <= x,
        x < d * (x / d + 1),
{
    lemma_fundamental_div_mod(x, d);
    lemma_mod_pos_bound(x, d);
    assert(0 <= x / d) by (nonlinear_arith)
        requires
            x == d * (x / d) + (x % d),
            0 <= x % d < d,
            0 < d,
            0 <= x,
    ;
    assert(d * (x / d + 1) == d * (x / d) + d) by (nonlinear_arith);
}

proof fn lemma_mul_le_left(k: int, a: int, b: int)
    requires
        0 <= k,
        a <= b,
    ensures
        k * a <= k * b,
{
    assert(k * a <= k * b) by (nonlinear_arith)
        requires
            0 <= k,
            a <= b,
    ;
}

proof fn lemma_square_lt(x: int, y: int)
    requires
        0 <= x,
        0 <= y,
        x * x < y * y,
    ensures
        x < y,
{
    if x >= y {
        assert(y * y <= x * x) by (nonlinear_arith)
            requires
                0 <= y <= x,
        ;
    }
}

/// `r` is the integer square root of `x`.
pub open spec fn is_isqrt(x: int, r: int) -> bool {
    0 <= r && r * r <= x && x < (r + 1) * (r + 1)
}

/// Integer square root, rounded down.
pub open spec fn isqrt(x: int) -> int {
    choose|r: int| is_isqrt(x, r)
}

proof fn lemma_isqrt_unique(x: int, r: int)
    requires
        is_isqrt(x, r),
    ensures
        isqrt(x) == r,
{
    let s = isqrt(x);
    assert(is_isqrt(x, s));
    if s < r {
        assert((s + 1) * (s + 1) <= r * r) by (nonlinear_arith)
            requires
                0 <= s,
                s + 1 <= r,
        ;
    } else if r < s {
        assert((r + 1) * (r + 1) <= s * s) by (nonlinear_arith)
            requires
                0 <= r,
                r + 1 <= s,
        ;
    }
}

/// Integer square root of a number below 2^128.
pub(crate) fn isqrt_u128(x: u128) -> (r: u64)
    ensures
        is_isqrt(x as int, r as int),
        r == isqrt(x as int),
{
    // lo * lo <= x < hi * hi
    let mut lo: u128 = 0;
    let mut hi: u128 = 0x1_0000_0000_0000_0000;
    assert(x < hi * hi) by (nonlinear_arith)
        requires
            hi == 0x1_0000_0000_0000_0000u128,
            x <= 0xffff_ffff_ffff_ffff_ffff_ffff_ffff_ffffu128,
    ;
    while hi - lo > 1
        invariant
            lo < hi <= 0x1_0000_0000_0000_0000,
            lo * lo <= x,
            x < hi * hi,
        decreases hi - lo,
    {
        let mid = lo + (hi - lo) / 2;
        assert(mid * mid <= 0xffff_ffff_ffff_ffff * 0xffff_ffff_ffff_ffffu128) by (nonlinear_arith)
            requires
                mid < 0x1_0000_0000_0000_0000,
        ;
        if mid * mid <= x {
            lo = mid;
        } else {
            hi = mid;
        }
    }
    assert(hi == lo + 1);
    proof {
        lemma_isqrt_unique(x as int, lo as int);
    }
    lo as u64
}

// ---------------------------------------------------------------------------
// Autoscaling to the configured limits.

pub open spec fn min_int(a: int, b: int) -> int {
    if a <= b { a } else { b }
}

pub open spec fn max_int(a: int, b: int) -> int {
    if a >= b { a } else { b }
}

/// Whether a `w` x `h` image stays within `l` (side, pixel count, RGBA bytes).
pub open spec fn fits_limits(w: int, h: int, l: ImageLimits) -> bool {
    &&& w <= l.image_dim
    &&& h <= l.image_dim
    &&& w * h <= l.total_pixels
    &&& w * h * 4 <= l.alloc_bytes
}

/// Number of pixels that both the pixel limit and the allocation limit allow.
pub open spec fn pixel_budget(l: ImageLimits) -> int {
    min_int(l.total_pixels as int, l.alloc_bytes as int / 4)
}

/// First estimate of the scaled width: `floor(width * s)`, at least 1, with
/// `s` the double-precision factor of `autoscale_factor` (at most 1, and
/// small enough for the side limit and the pixel budget) and the product
/// rounded to a double.
pub open spec fn initial_width(w: int, h: int, l: ImageLimits) -> int {
    scaled_side(w, autoscale_factor(w, h, l.image_dim as int, pixel_budget(l)))
}

/// First estimate of the scaled height, with the same factor as the width.
pub open spec fn initial_height(w: int, h: int, l: ImageLimits) -> int {
    scaled_side(h, autoscale_factor(w, h, l.image_dim as int, pixel_budget(l)))
}

/// The shrinking loop: while the size does not fit and is larger than 1x1,
/// the longer side (the width on ties) loses one pixel and the other side is
/// recomputed from the source aspect ratio, rounding down but keeping at least 1.
pub open spec fn refine_size(sw: int, sh: int, l: ImageLimits, w: int, h: int, fuel: nat) -> (int, int)
    decreases fuel,
{
    if fuel == 0 || fits_limits(w, h, l) || !(w > 1 || h > 1) {
        (w, h)
    } else if w >= h && w > 1 {
        refine_size(sw, sh, l, w - 1, max_int(1, sh * (w - 1) / sw), (fuel - 1) as nat)
    } else if h > 1 {
        refine_size(sw, sh, l, max_int(1, sw * (h - 1) / sh), h - 1, (fuel - 1) as nat)
    } else {
        (w, h)
    }
}

/// The size an image of `w` x `h` pixels is scaled to so that it fits `l`,
/// keeping its aspect ratio as far as whole pixels allow; none when the
/// limits leave no room.
pub open spec fn autoscale_size_spec(w: int, h: int, l: ImageLimits) -> Option<(int, int)> {
    if pixel_budget(l) == 0 || l.image_dim == 0 {
        None
    } else {
        let iw = initial_width(w, h, l);
        let ih = initial_height(w, h, l);
        let r = refine_size(w, h, l, iw, ih, (iw + ih) as nat);
        if r.0 == 0 || r.1 == 0 || !fits_limits(r.0, r.1, l) {
            None
        } else {
            Some(r)
        }
    }
}

/// The shrinking loop is consistent at `(w, h)`: each side is at most what
/// the other side and the source aspect ratio allow, plus one.
pub open spec fn consistent(sw: int, sh: int, w: int, h: int) -> bool {
    &&& 1 <= w <= sw
    &&& 1 <= h <= sh
    &&& sh * (w - 1) < sw * (h + 1)
    &&& sw * (h - 1) < sh * (w + 1)
}

pub(crate) proof fn lemma_isqrt_exists(x: int)
    requires
        x >= 0,
    ensures
        is_isqrt(x, isqrt(x)),
{
    let r = isqrt_witness(x);
    assert(is_isqrt(x, r));
}

proof fn isqrt_witness(x: int) -> (r: int)
    requires
        x >= 0,
    ensures
        is_isqrt(x, r),
    decreases x,
{
    if x == 0 {
        assert(is_isqrt(0, 0)) by (nonlinear_arith);
        0
    } else {
        let s = isqrt_witness(x - 1);
        assert(is_isqrt(x - 1, s));
        if (s + 1) * (s + 1) <= x {
            assert(x < (s + 2) * (s + 2)) by (nonlinear_arith)
                requires
                    x - 1 < (s + 1) * (s + 1),
                    s >= 0,
            ;
            assert(is_isqrt(x, s + 1));
            s + 1
        } else {
            assert(is_isqrt(x, s));
            s
        }
    }
}

proof fn lemma_mul_lt_left(k: int, a: int, b: int)
    requires
        0 < k,
        a < b,
    ensures
        k * a < k * b,
{
    assert(k * a < k * b) by (nonlinear_arith)
        requires
            0 < k,
            a < b,
    ;
}

/// Two sides scaled by one factor `ms / pk` (at most one), each product
/// rounded to a double (error at most a 2^-52 share) and floored, keep the
/// source ratio: `sh * (a - 1) < sw * (b + 1)`.
proof fn lemma_rounded_cross(sw: int, sh: int, ms: int, pk: int, rw: int, rh: int, a: int, b: int)
    requires
        1 <= sw <= 0xffff_ffff,
        1 <= sh,
        0 < ms <= pk,
        a >= 1,
        b >= 0,
        a * pk <= rw,
        rw * two52() <= (sw * ms) * (two52() + 1),
        rh < (b + 1) * pk,
        (sh * ms) * (two52() - 1) <= rh * two52(),
    ensures
        sh * (a - 1) < sw * (b + 1),
{
    let e = two52();
    let z = sw * sh * ms;
    assert(sh * (a * pk) <= sh * rw) by (nonlinear_arith)
        requires
            a * pk <= rw,
            sh >= 1,
    ;
    assert(sh * (rw * e) <= z * (e + 1)) by (nonlinear_arith)
        requires
            rw * e <= (sw * ms) * (e + 1),
            sh >= 1,
            z == sw * sh * ms,
    ;
    assert(z * (e - 1) <= sw * (rh * e)) by (nonlinear_arith)
        requires
            (sh * ms) * (e - 1) <= rh * e,
            sw >= 1,
            z == sw * sh * ms,
    ;
    assert(sw * rh < sw * ((b + 1) * pk)) by (nonlinear_arith)
        requires
            rh < (b + 1) * pk,
            sw >= 1,
    ;
    assert(2 * z <= sh * pk * e) by (nonlinear_arith)
        requires
            z == sw * sh * ms,
            sw <= 0xffff_ffff,
            0 < ms <= pk,
            sh >= 1,
            e == 0x10_0000_0000_0000,
    ;
    // Both sides times pk * e.
    assert((sh * (a - 1)) * (pk * e) == (sh * (a * pk)) * e - (sh * pk) * e) by (nonlinear_arith);
    assert((sh * (a * pk)) * e <= (sh * rw) * e) by (nonlinear_arith)
        requires
            sh * (a * pk) <= sh * rw,
            e > 0,
    ;
    assert((sh * rw) * e == sh * (rw * e)) by (nonlinear_arith);
    assert((sw * (b + 1)) * (pk * e) == (sw * ((b + 1) * pk)) * e) by (nonlinear_arith);
    assert((sw * ((b + 1) * pk)) * e > (sw * rh) * e) by (nonlinear_arith)
        requires
            sw * rh < sw * ((b + 1) * pk),
            e > 0,
    ;
    assert((sw * rh) * e == sw * (rh * e)) by (nonlinear_arith);
    assert(sh * pk * e == (sh * pk) * e) by (nonlinear_arith);
    assert(z * (e + 1) == z * e + z) by (nonlinear_arith);
    assert(z * (e - 1) == z * e - z) by (nonlinear_arith);
    assert((sh * (a - 1)) * (pk * e) < (sw * (b + 1)) * (pk * e));
    assert(sh * (a - 1) < sw * (b + 1)) by (nonlinear_arith)
        requires
            (sh * (a - 1)) * (pk * e) < (sw * (b + 1)) * (pk * e),
            pk > 0,
            e > 0,
    ;
}

proof fn lemma_side_facts(side: int, s: (int, int)) -> (r: (int, int))
    requires
        1 <= side <= 0xffff_ffff,
        unit_f64(s),
    ensures
        r.0 == int_f64(side * s.0),
        r.1 == int_f64(side * s.0) / (pow2(s.1 as nat) as int),
        r.1 * (pow2(s.1 as nat) as int) <= r.0 < (r.1 + 1) * (pow2(s.1 as nat) as int),
        r.0 * two52() <= (side * s.0) * (two52() + 1),
        (side * s.0) * (two52() - 1) <= r.0 * two52(),
        0 < s.0 <= pow2(s.1 as nat),
        r.1 >= 0,
{
    lemma_scaled_side_bounds(side, s);
    let n = side * s.0;
    let pk = pow2(s.1 as nat) as int;
    lemma_pow2_pos(s.1 as nat);
    assert(0 < s.0 <= pk) by {
        crate::float::lemma_unit_le_one(s);
    }
    assert(n >= 0) by (nonlinear_arith)
        requires
            n == side * s.0,
            side >= 1,
            s.0 > 0,
    ;
    lemma_int_f64_error(n);
    let big = int_f64(n);
    assert(big >= 0) by (nonlinear_arith)
        requires
            n * (two52() - 1) <= big * two52(),
            n >= 0,
            two52() == 0x10_0000_0000_0000,
    ;
    lemma_fundamental_div_mod(big, pk);
    lemma_mod_pos_bound(big, pk);
    lemma_floor_div(big, pk);
    assert((big / pk) * pk == pk * (big / pk)) by (nonlinear_arith);
    assert((big / pk + 1) * pk == pk * (big / pk + 1)) by (nonlinear_arith);
    (big, big / pk)
}

proof fn lemma_initial_consistent(sw: int, sh: int, l: ImageLimits)
    requires
        1 <= sw <= 0xffff_ffff,
        1 <= sh <= 0xffff_ffff,
        pixel_budget(l) >= 1,
        l.image_dim >= 1,
    ensures
        consistent(sw, sh, initial_width(sw, sh, l), initial_height(sw, sh, l)),
{
    let d = l.image_dim as int;
    let budget = pixel_budget(l);
    lemma_factor_unit(sw, sh, d, budget);
    let s = autoscale_factor(sw, sh, d, budget);
    let w = initial_width(sw, sh, l);
    let h = initial_height(sw, sh, l);
    lemma_scaled_side_bounds(sw, s);
    lemma_scaled_side_bounds(sh, s);
    let (rw, a) = lemma_side_facts(sw, s);
    let (rh, b) = lemma_side_facts(sh, s);
    let pk = pow2(s.1 as nat) as int;
    if a >= 1 {
        lemma_rounded_cross(sw, sh, s.0, pk, rw, rh, a, b);
        lemma_mul_le_left(sw, b + 1, h + 1);
    } else {
        assert(sh * (w - 1) < sw * (h + 1)) by (nonlinear_arith)
            requires
                w == 1,
                h >= 1,
                sw >= 1,
        ;
    }
    if b >= 1 {
        lemma_rounded_cross(sh, sw, s.0, pk, rh, rw, b, a);
        lemma_mul_le_left(sh, a + 1, w + 1);
    } else {
        assert(sw * (h - 1) < sh * (w + 1)) by (nonlinear_arith)
            requires
                h == 1,
                w >= 1,
                sh >= 1,
        ;
    }
}

/// One shrinking step on the first side keeps the state consistent and
/// shrinks the sum of the sides.
proof fn lemma_shrink_step(sw: int, sh: int, w: int, h: int)
    requires
        consistent(sw, sh, w, h),
        w > 1,
    ensures
        consistent(sw, sh, w - 1, max_int(1, sh * (w - 1) / sw)),
        max_int(1, sh * (w - 1) / sw) <= h,
        0 <= sh * (w - 1) / sw <= sh,
{
    let w1 = w - 1;
    assert(0 <= sh * w1) by (nonlinear_arith)
        requires
            sh >= 1,
            w1 >= 0,
    ;
    lemma_floor_div(sh * w1, sw);
    let q = sh * w1 / sw;
    let h1 = max_int(1, q);
    // q <= h
    assert(q <= h) by (nonlinear_arith)
        requires
            sw * q <= sh * w1,
            sh * w1 < sw * (h + 1),
            sw >= 1,
    ;
    // q <= sh
    lemma_mul_le_left(sh, w1, sw);
    assert(q <= sh) by (nonlinear_arith)
        requires
            sw * q <= sh * w1,
            sh * w1 <= sh * sw,
            sw >= 1,
    ;
    // sh * (w1 - 1) < sw * (h1 + 1)
    lemma_mul_le_left(sh, w1 - 1, w1);
    lemma_mul_le_left(sw, q + 1, h1 + 1);
    // sw * (h1 - 1) < sh * (w1 + 1)
    if h1 == 1 {
        assert(sw * (h1 - 1) < sh * (w1 + 1)) by (nonlinear_arith)
            requires
                h1 == 1,
                w1 >= 1,
                sh >= 1,
        ;
    } else {
        lemma_mul_lt_left(sh, w1, w1 + 1);
        assert(sw * (h1 - 1) <= sw * q) by {
            lemma_mul_le_left(sw, h1 - 1, q);
        }
    }
}

proof fn lemma_refine_consistent(sw: int, sh: int, l: ImageLimits, w: int, h: int, fuel: nat)
    requires
        consistent(sw, sh, w, h),
    ensures
        consistent(sw, sh, refine_size(sw, sh, l, w, h, fuel).0, refine_size(sw, sh, l, w, h, fuel).1),
    decreases fuel,
{
    if fuel == 0 || fits_limits(w, h, l) || !(w > 1 || h > 1) {
    } else if w >= h && w > 1 {
        lemma_shrink_step(sw, sh, w, h);
        lemma_refine_consistent(sw, sh, l, w - 1, max_int(1, sh * (w - 1) / sw), (fuel - 1) as nat);
    } else if h > 1 {
        lemma_shrink_step(sh, sw, h, w);
        lemma_refine_consistent(sw, sh, l, max_int(1, sw * (h - 1) / sh), h - 1, (fuel - 1) as nat);
    }
}

/// The autoscaled size fits the limits, is no larger than the source on
/// either side, and keeps the source aspect ratio up to one pixel.
pub proof fn lemma_autoscale_fits(sw: int, sh: int, l: ImageLimits)
    requires
        1 <= sw <= u32::MAX,
        1 <= sh <= u32::MAX,
    ensures
        autoscale_size_spec(sw, sh, l) matches Some((w, h)) ==> {
            &&& 1 <= w <= sw
            &&& 1 <= h <= sh
            &&& fits_limits(w, h, l)
            &&& consistent(sw, sh, w, h)
        },
{
    if pixel_budget(l) != 0 && l.image_dim != 0 {
        assert(pixel_budget(l) >= 1) by {
            assert(l.alloc_bytes as int / 4 >= 0);
        }
        lemma_initial_consistent(sw, sh, l);
        let iw = initial_width(sw, sh, l);
        let ih = initial_height(sw, sh, l);
        lemma_refine_consistent(sw, sh, l, iw, ih, (iw + ih) as nat);
    }
}

// ---------------------------------------------------------------------------
// Source metrics and the decoding plan.

/// Size and memory footprint of an image before decoding.
#[derive(Debug, Clone, Copy, PartialEq, Eq, Structural)]
pub struct SourceMetrics {
    pub width: u32,
    pub height: u32,
    pub total_pixels: u64,
    pub rgba_bytes: u64,
}

/// Metrics as `source_metrics` makes them: non-zero sides, the pixel count
/// their product, four bytes per pixel.
pub open spec fn metrics_wf(m: SourceMetrics) -> bool {
    &&& m.width >= 1
    &&& m.height >= 1
    &&& m.total_pixels == m.width as int * m.height as int
    &&& m.rgba_bytes == m.total_pixels as int * 4
}

/// Why an image cannot be planned for decoding.
#[derive(Debug, Clone, Copy, PartialEq, Eq, Structural)]
pub enum LimitError {
    /// A side is zero.
    ZeroDimensions,
    /// Four bytes per pixel do not fit in 64 bits.
    FootprintTooLarge,
    /// The image exceeds the hard safety limits.
    HardLimitExceeded { width: u32, height: u32 },
    /// No size within the configured limits exists.
    CannotAutoscale { width: u32, height: u32 },
}

pub const HARD_LIMIT_SIDE: u32 = 32_768;
pub const HARD_LIMIT_TOTAL_PIXELS: u64 = 500_000_000;
pub const HARD_LIMIT_ALLOC_BYTES: u64 = 2_147_483_648;

/// The hard safety limits that apply whatever the configuration says.
pub open spec fn hard_limits_spec() -> ImageLimits {
    ImageLimits {
        image_dim: HARD_LIMIT_SIDE,
        total_pixels: HARD_LIMIT_TOTAL_PIXELS,
        alloc_bytes: HARD_LIMIT_ALLOC_BYTES,
    }
}

/// The hard safety limits: 32768 px per side, 500 MP, 2 GiB.
pub fn hard_limits() -> (l: ImageLimits)
    ensures
        l == hard_limits_spec(),
{
    ImageLimits {
        image_dim: HARD_LIMIT_SIDE,
        total_pixels: HARD_LIMIT_TOTAL_PIXELS,
        alloc_bytes: HARD_LIMIT_ALLOC_BYTES,
    }
}

/// Size, pixel count and RGBA byte count of a `width` x `height` image.
pub fn source_metrics(width: u32, height: u32) -> (r: Result<SourceMetrics, LimitError>)
    ensures
        width == 0 || height == 0 ==> r == Err::<SourceMetrics, LimitError>(LimitError::ZeroDimensions),
        width != 0 && height != 0 && width as int * height as int * 4 > u64::MAX ==> r == Err::<
            SourceMetrics,
            LimitError,
        >(LimitError::FootprintTooLarge),
        r matches Ok(m) ==> metrics_wf(m) && m.width == width && m.height == height,
        width != 0 && height != 0 && width as int * height as int * 4 <= u64::MAX ==> r is Ok,
{
    if width == 0 || height == 0 {
        return Err(LimitError::ZeroDimensions);
    }
    assert(width as int * height as int <= u32::MAX as int * u32::MAX as int) by (nonlinear_arith)
        requires
            width <= u32::MAX,
            height <= u32::MAX,
    ;
    let total_pixels = width as u64 * height as u64;
    if total_pixels > u64::MAX / 4 {
        return Err(LimitError::FootprintTooLarge);
    }
    let rgba_bytes = total_pixels * 4;
    Ok(SourceMetrics { width, height, total_pixels, rgba_bytes })
}

/// Whether an image with these metrics breaks any of the limits.
pub open spec fn exceeds_spec(m: SourceMetrics, l: ImageLimits) -> bool {
    ||| m.width > l.image_dim
    ||| m.height > l.image_dim
    ||| m.total_pixels > l.total_pixels
    ||| m.rgba_bytes > l.alloc_bytes
}

pub fn exceeds_limits(metrics: SourceMetrics, limits: &ImageLimits) -> (r: bool)
    ensures
        r == exceeds_spec(metrics, *limits),
{
    metrics.width > limits.image_dim || metrics.height > limits.image_dim
        || metrics.total_pixels > limits.total_pixels || metrics.rgba_bytes > limits.alloc_bytes
}

fn fits_exec(w: u32, h: u32, l: &ImageLimits) -> (r: bool)
    requires
        w as int * h as int * 4 <= u64::MAX,
    ensures
        r == fits_limits(w as int, h as int, *l),
{
    let area = w as u64 * h as u64;
    w <= l.image_dim && h <= l.image_dim && area <= l.total_pixels && area * 4 <= l.alloc_bytes
}

fn min_u64(a: u64, b: u64) -> (r: u64)
    ensures
        r == min_int(a as int, b as int),
{
    if a <= b { a } else { b }
}

/// Largest size within `limits` that keeps the source aspect ratio as far as
/// whole pixels allow; none when the limits leave no room.
pub fn compute_autoscale_size(metrics: SourceMetrics, limits: &ImageLimits) -> (r: Option<[u32; 2]>)
    requires
        metrics_wf(metrics),
    ensures
        r matches Some(s) ==> autoscale_size_spec(metrics.width as int, metrics.height as int, *limits)
            == Some((s[0] as int, s[1] as int)),
        r is None ==> autoscale_size_spec(metrics.width as int, metrics.height as int, *limits) is None,
{
    let ghost l = *limits;
    let sw = metrics.width;
    let sh = metrics.height;
    let alloc_pixels = limits.alloc_bytes / 4;
    let budget = min_u64(limits.total_pixels, alloc_pixels);
    if budget == 0 || limits.image_dim == 0 {
        return None;
    }
    proof {
        lemma_initial_consistent(sw as int, sh as int, l);
    }
    let factor = autoscale_factor_exec(sw, sh, limits.image_dim, budget);
    let iw = scaled_side_exec(sw, factor);
    let ih = scaled_side_exec(sh, factor);
    assert(iw == initial_width(sw as int, sh as int, l));
    assert(ih == initial_height(sw as int, sh as int, l));
    let ghost fuel0: nat = (iw + ih) as nat;
    let ghost mut fuel: nat = fuel0;
    let mut w = iw;
    let mut h = ih;
    proof {
        lemma_mul_le_left(w as int, h as int, sh as int);
        lemma_mul_le_left(sh as int, w as int, sw as int);
    }
    loop
        invariant_except_break
            consistent(sw as int, sh as int, w as int, h as int),
            refine_size(sw as int, sh as int, l, iw as int, ih as int, fuel0)
                == refine_size(sw as int, sh as int, l, w as int, h as int, fuel),
            fuel >= w + h,
            l == *limits,
            metrics_wf(metrics),
            sw == metrics.width,
            sh == metrics.height,
        ensures
            refine_size(sw as int, sh as int, l, iw as int, ih as int, fuel0) == (w as int, h as int),
            1 <= w <= sw,
            1 <= h <= sh,
        decreases w + h,
    {
        proof {
            lemma_mul_le_left(w as int, h as int, sh as int);
            lemma_mul_le_left(sh as int, w as int, sw as int);
            assert(w as int * h as int * 4 <= sw as int * sh as int * 4) by (nonlinear_arith)
                requires
                    w as int * h as int <= w as int * sh as int,
                    w as int * sh as int == sh as int * w as int,
                    sh as int * w as int <= sh as int * sw as int,
            ;
        }
        if fits_exec(w, h, limits) || !(w > 1 || h > 1) {
            break;
        }
        if w >= h && w > 1 {
            proof {
                lemma_shrink_step(sw as int, sh as int, w as int, h as int);
            }
            w = w - 1;
            assert(sh as int * w as int <= u32::MAX as int * u32::MAX as int) by (nonlinear_arith)
                requires
                    sh <= u32::MAX,
                    w <= u32::MAX,
            ;
            let q = (sh as u64 * w as u64) / sw as u64;
            h = if q < 1 { 1 } else { q as u32 };
        } else {
            proof {
                lemma_shrink_step(sh as int, sw as int, h as int, w as int);
            }
            h = h - 1;
            assert(sw as int * h as int <= u32::MAX as int * u32::MAX as int) by (nonlinear_arith)
                requires
                    sw <= u32::MAX,
                    h <= u32::MAX,
            ;
            let q = (sw as u64 * h as u64) / sh as u64;
            w = if q < 1 { 1 } else { q as u32 };
        }
        proof {
            fuel = (fuel - 1) as nat;
        }
    }
    proof {
        lemma_mul_le_left(w as int, h as int, sh as int);
        lemma_mul_le_left(sh as int, w as int, sw as int);
        assert(w as int * h as int * 4 <= sw as int * sh as int * 4) by (nonlinear_arith)
            requires
                w as int * h as int <= w as int * sh as int,
                w as int * sh as int == sh as int * w as int,
                sh as int * w as int <= sh as int * sw as int,
        ;
    }
    if w == 0 || h == 0 || !fits_exec(w, h, limits) {
        None
    } else {
        Some([w, h])
    }
}

/// How to treat an image that breaks the configured limits.
#[derive(Debug, Clone, Copy, PartialEq, Eq, Structural)]
pub enum ImageLoadPolicy {
    AskUser,
    AutoscaleToConfig,
    IgnoreConfigWithHardCap,
}

/// What the user is told when an image breaks the configured limits.
#[derive(Debug, Clone, Copy, PartialEq, Eq, Structural)]
pub struct ImageLimitInfo {
    pub source_width: u32,
    pub source_height: u32,
    pub source_total_pixels: u64,
    pub source_rgba_bytes: u64,
    pub config_limits: ImageLimits,
    pub hard_limits: ImageLimits,
    pub autoscale_width: Option<u32>,
    pub autoscale_height: Option<u32>,
    pub can_autoscale: bool,
    pub can_ignore_limits: bool,
}

impl ImageLimitInfo {
    /// The proposed autoscaled size, when there is one.
    pub fn autoscale_size(&self) -> (r: Option<[u32; 2]>)
        ensures
            match (self.autoscale_width, self.autoscale_height) {
                (Some(w), Some(h)) => r matches Some(s) && s[0] == w && s[1] == h,
                _ => r is None,
            },
    {
        match (self.autoscale_width, self.autoscale_height) {
            (Some(w), Some(h)) => Some([w, h]),
            _ => None,
        }
    }
}

/// How the image is to be decoded.
#[derive(Debug, Clone, Copy)]
pub enum DecodePlan {
    /// Full size, under the configured limits.
    OriginalConfig,
    /// Full size, under the hard limits only.
    OriginalHard,
    /// Scaled to the given size.
    ResizeConfig([u32; 2]),
}

/// Either a plan to decode, or a question for the user.
#[derive(Debug, Clone, Copy)]
pub enum PlanDecision {
    Proceed(DecodePlan),
    Prompt(ImageLimitInfo),
}

/// The autoscaled size offered for an image: none when the hard limits are broken.
pub open spec fn offered_size(m: SourceMetrics, cfg: ImageLimits) -> Option<(int, int)> {
    if exceeds_spec(m, hard_limits_spec()) {
        None
    } else {
        autoscale_size_spec(m.width as int, m.height as int, cfg)
    }
}

/// The information `decide_plan` reports for an image and configured limits.
pub open spec fn limit_info_matches(info: ImageLimitInfo, m: SourceMetrics, cfg: ImageLimits) -> bool {
    let hard = exceeds_spec(m, hard_limits_spec());
    &&& info.source_width == m.width
    &&& info.source_height == m.height
    &&& info.source_total_pixels == m.total_pixels
    &&& info.source_rgba_bytes == m.rgba_bytes
    &&& info.config_limits == cfg
    &&& info.hard_limits == hard_limits_spec()
    &&& match offered_size(m, cfg) {
        Some((w, h)) => info.autoscale_width == Some(w as u32) && info.autoscale_height == Some(
            h as u32,
        ),
        None => info.autoscale_width is None && info.autoscale_height is None,
    }
    &&& info.can_autoscale == (offered_size(m, cfg) is Some && !hard)
    &&& info.can_ignore_limits == !hard
}

/// What to do with an image of these metrics under a policy: ask when the
/// configured limits are broken and the user decides; scale down to the
/// configured limits, or decode at full size under the hard limits, as the
/// policy says; fail when the hard limits are broken or no scaled size exists.
pub open spec fn decide_plan_ok(m: SourceMetrics, cfg: ImageLimits, policy: ImageLoadPolicy, r: Result<
    PlanDecision,
    LimitError,
>) -> bool {
    let config_exceeded = exceeds_spec(m, cfg);
    let hard_exceeded = exceeds_spec(m, hard_limits_spec());
    match policy {
        ImageLoadPolicy::AskUser => if config_exceeded {
            r matches Ok(PlanDecision::Prompt(info)) && limit_info_matches(info, m, cfg)
        } else {
            r matches Ok(PlanDecision::Proceed(DecodePlan::OriginalConfig))
        },
        ImageLoadPolicy::AutoscaleToConfig => if hard_exceeded {
            r == Err::<PlanDecision, LimitError>(
                LimitError::HardLimitExceeded { width: m.width, height: m.height },
            )
        } else if config_exceeded {
            match offered_size(m, cfg) {
                Some((w, h)) => r matches Ok(PlanDecision::Proceed(DecodePlan::ResizeConfig(s)))
                    && s[0] == w && s[1] == h,
                None => r == Err::<PlanDecision, LimitError>(
                    LimitError::CannotAutoscale { width: m.width, height: m.height },
                ),
            }
        } else {
            r matches Ok(PlanDecision::Proceed(DecodePlan::OriginalConfig))
        },
        ImageLoadPolicy::IgnoreConfigWithHardCap => if hard_exceeded {
            r == Err::<PlanDecision, LimitError>(
                LimitError::HardLimitExceeded { width: m.width, height: m.height },
            )
        } else {
            r matches Ok(PlanDecision::Proceed(DecodePlan::OriginalHard))
        },
    }
}

pub fn decide_plan(metrics: SourceMetrics, config_limits: &ImageLimits, policy: ImageLoadPolicy) -> (r:
    Result<PlanDecision, LimitError>)
    requires
        metrics_wf(metrics),
    ensures
        decide_plan_ok(metrics, *config_limits, policy, r),
{
    let hard = hard_limits();
    let config_exceeded = exceeds_limits(metrics, config_limits);
    let hard_exceeded = exceeds_limits(metrics, &hard);
    let autoscale_size = if hard_exceeded {
        None
    } else {
        compute_autoscale_size(metrics, config_limits)
    };
    let (autoscale_width, autoscale_height) = match autoscale_size {
        Some(s) => (Some(s[0]), Some(s[1])),
        None => (None, None),
    };
    let info = ImageLimitInfo {
        source_width: metrics.width,
        source_height: metrics.height,
        source_total_pixels: metrics.total_pixels,
        source_rgba_bytes: metrics.rgba_bytes,
        config_limits: *config_limits,
        hard_limits: hard,
        autoscale_width,
        autoscale_height,
        can_autoscale: autoscale_size.is_some() && !hard_exceeded,
        can_ignore_limits: !hard_exceeded,
    };
    match policy {
        ImageLoadPolicy::AskUser => {
            if config_exceeded {
                Ok(PlanDecision::Prompt(info))
            } else {
                Ok(PlanDecision::Proceed(DecodePlan::OriginalConfig))
            }
        },
        ImageLoadPolicy::AutoscaleToConfig => {
            if hard_exceeded {
                return Err(LimitError::HardLimitExceeded { width: metrics.width, height: metrics.height });
            }
            if config_exceeded {
                match autoscale_size {
                    Some(size) => Ok(PlanDecision::Proceed(DecodePlan::ResizeConfig(size))),
                    None => Err(
                        LimitError::CannotAutoscale { width: metrics.width, height: metrics.height },
                    ),
                }
            } else {
                Ok(PlanDecision::Proceed(DecodePlan::OriginalConfig))
            }
        },
        ImageLoadPolicy::IgnoreConfigWithHardCap => {
            if hard_exceeded {
                return Err(LimitError::HardLimitExceeded { width: metrics.width, height: metrics.height });
            }
            Ok(PlanDecision::Proceed(DecodePlan::OriginalHard))
        },
    }
}

/// Message of a planning error.
pub open spec fn limit_error_message(e: LimitError) -> Seq<char> {
    match e {
        LimitError::ZeroDimensions => "Image has invalid zero dimensions"@,
        LimitError::FootprintTooLarge => "Image RGBA footprint is too large"@,
        LimitError::HardLimitExceeded { width, height } => "Image exceeds hard safety limit: "@
            + crate::text::decimal(width as nat) + "x"@ + crate::text::decimal(height as nat)
            + " exceeds 32768 px side or exceeds 500 MP / 2147483648 bytes"@,
        LimitError::CannotAutoscale { width, height } =>
            "Image cannot be autoscaled to fit configured limits: "@ + crate::text::decimal(width as nat)
                + "x"@ + crate::text::decimal(height as nat),
    }
}

impl LimitError {
    pub fn message(&self) -> (s: String)
        ensures
            s@ == limit_error_message(*self),
    {
        let mut s = String::new();
        match self {
            LimitError::ZeroDimensions => push_str(&mut s, "Image has invalid zero dimensions"),
            LimitError::FootprintTooLarge => push_str(&mut s, "Image RGBA footprint is too large"),
            LimitError::HardLimitExceeded { width, height } => {
                push_str(&mut s, "Image exceeds hard safety limit: ");
                push_decimal(&mut s, *width as u64);
                push_str(&mut s, "x");
                push_decimal(&mut s, *height as u64);
                push_str(&mut s, " exceeds 32768 px side or exceeds 500 MP / 2147483648 bytes");
            },
            LimitError::CannotAutoscale { width, height } => {
                push_str(&mut s, "Image cannot be autoscaled to fit configured limits: ");
                push_decimal(&mut s, *width as u64);
                push_str(&mut s, "x");
                push_decimal(&mut s, *height as u64);
            },
        }
        s
    }
}

// ---------------------------------------------------------------------------
// Recognising SVG data.

/// `u8::is_ascii_whitespace`: space, tab, line feed, form feed, carriage return.
pub open spec fn is_ascii_ws(b: u8) -> bool {
    b == 0x20 || b == 0x09 || b == 0x0A || b == 0x0C || b == 0x0D
}

pub open spec fn ascii_lower(b: u8) -> u8 {
    if 0x41 <= b && b <= 0x5A { (b + 32) as u8 } else { b }
}

pub open spec fn without_bom(s: Seq<u8>) -> Seq<u8> {
    if s.len() >= 3 && s[0] == 0xEF && s[1] == 0xBB && s[2] == 0xBF {
        s.skip(3)
    } else {
        s
    }
}

pub open spec fn skip_ascii_ws(s: Seq<u8>) -> Seq<u8>
    decreases s.len(),
{
    if s.len() > 0 && is_ascii_ws(s[0]) {
        skip_ascii_ws(s.drop_first())
    } else {
        s
    }
}

/// The first 256 bytes after a byte-order mark and leading white space, in
/// ASCII lower case.
pub open spec fn svg_probe(s: Seq<u8>) -> Seq<u8> {
    let t = skip_ascii_ws(without_bom(s));
    let n = if t.len() < 256 { t.len() } else { 256 };
    t.take(n as int).map_values(|b: u8| ascii_lower(b))
}

pub open spec fn has_at(p: Seq<u8>, i: int, pat: Seq<u8>) -> bool {
    0 <= i && i + pat.len() <= p.len() && p.subrange(i, i + pat.len()) == pat
}

pub open spec fn svg_tag() -> Seq<u8> {
    seq![0x3Cu8, 0x73u8, 0x76u8, 0x67u8]
}

pub open spec fn xml_decl() -> Seq<u8> {
    seq![0x3Cu8, 0x3Fu8, 0x78u8, 0x6Du8, 0x6Cu8]
}

/// Data is taken for SVG when it starts with the gzip magic number (SVGZ), or
/// when its probe starts with `<?xml` or holds `<svg` anywhere.
pub open spec fn looks_like_svg_spec(s: Seq<u8>) -> bool {
    let p = svg_probe(s);
    ||| (s.len() >= 2 && s[0] == 0x1f && s[1] == 0x8b)
    ||| has_at(p, 0, svg_tag())
    ||| has_at(p, 0, xml_decl())
    ||| exists|i: int| has_at(p, i, svg_tag())
}

proof fn lemma_skip_ws_from(s: Seq<u8>, i: int)
    requires
        0 <= i <= s.len(),
        forall|j: int| 0 <= j < i ==> is_ascii_ws(#[trigger] s[j]),
    ensures
        skip_ascii_ws(s) == skip_ascii_ws(s.skip(i)),
    decreases i,
{
    if i > 0 {
        let rest = s.drop_first();
        assert forall|j: int| 0 <= j < i - 1 implies is_ascii_ws(#[trigger] rest[j]) by {
            assert(rest[j] == s[j + 1]);
        }
        lemma_skip_ws_from(rest, i - 1);
        assert(rest.skip(i - 1) =~= s.skip(i));
    } else {
        assert(s.skip(0) =~= s);
    }
}

fn lower_byte(b: u8) -> (r: u8)
    ensures
        r == ascii_lower(b),
{
    if 0x41 <= b && b <= 0x5A { b + 32 } else { b }
}

fn matches_at(p: &Vec<u8>, i: usize, pat: &[u8]) -> (r: bool)
    ensures
        r == has_at(p@, i as int, pat@),
{
    if i > p.len() || pat.len() > p.len() - i {
        return false;
    }
    let mut k: usize = 0;
    while k < pat.len()
        invariant
            i + pat@.len() <= p@.len(),
            i + pat.len() <= p.len(),
            k <= pat@.len(),
            forall|j: int| 0 <= j < k ==> p@[i + j] == pat@[j],
        decreases pat.len() - k,
    {
        if p[i + k] != pat[k] {
            assert(p@.subrange(i as int, i + pat@.len())[k as int] != pat@[k as int]);
            return false;
        }
        k = k + 1;
    }
    assert(p@.subrange(i as int, i + pat@.len()) =~= pat@);
    true
}

/// Whether the bytes look like SVG (or gzip-compressed SVG) rather than a raster image.
pub fn looks_like_svg(bytes: &[u8]) -> (r: bool)
    ensures
        r == looks_like_svg_spec(bytes@),
{
    let ghost s = bytes@;
    let n = bytes.len();
    if n >= 2 && bytes[0] == 0x1f && bytes[1] == 0x8b {
        return true;
    }
    let mut start: usize = 0;
    if n >= 3 && bytes[0] == 0xEF && bytes[1] == 0xBB && bytes[2] == 0xBF {
        start = 3;
    }
    let ghost nb = s.skip(start as int);
    assert(without_bom(s) == nb) by {
        if start == 0 {
            assert(s.skip(0) =~= s);
        }
    }
    let mut i = start;
    while i < n && (bytes[i] == 0x20 || bytes[i] == 0x09 || bytes[i] == 0x0A || bytes[i] == 0x0C
        || bytes[i] == 0x0D)
        invariant
            bytes@ == s,
            n == s.len(),
            start <= i <= n,
            nb == s.skip(start as int),
            forall|j: int| start <= j < i ==> is_ascii_ws(#[trigger] s[j]),
        decreases n - i,
    {
        i = i + 1;
    }
    let ghost t = s.skip(i as int);
    proof {
        assert forall|j: int| 0 <= j < i - start implies is_ascii_ws(#[trigger] nb[j]) by {
            assert(nb[j] == s[j + start]);
        }
        lemma_skip_ws_from(nb, i - start);
        assert(nb.skip(i - start) =~= t);
        if t.len() > 0 {
            assert(t[0] == s[i as int]);
        }
        assert(skip_ascii_ws(t) == t);
    }
    let mut probe: Vec<u8> = Vec::new();
    let mut k = i;
    while k < n && probe.len() < 256
        invariant
            bytes@ == s,
            n == s.len(),
            i <= k <= n,
            t == s.skip(i as int),
            probe@.len() == k - i,
            probe@.len() <= 256,
            probe@ == t.take(k - i).map_values(|b: u8| ascii_lower(b)),
        decreases n - k,
    {
        let b = lower_byte(bytes[k]);
        probe.push(b);
        k = k + 1;
        assert(probe@ =~= t.take(k - i).map_values(|b: u8| ascii_lower(b)));
    }
    assert(probe@ =~= svg_probe(s));
    let svg: [u8; 4] = [0x3C, 0x73, 0x76, 0x67];
    let xml: [u8; 5] = [0x3C, 0x3F, 0x78, 0x6D, 0x6C];
    assert(svg@ =~= svg_tag());
    assert(xml@ =~= xml_decl());
    if matches_at(&probe, 0, svg.as_slice()) {
        assert(has_at(probe@, 0, svg_tag()));
        return true;
    }
    if matches_at(&probe, 0, xml.as_slice()) {
        assert(has_at(probe@, 0, xml_decl()));
        return true;
    }
    let mut w: usize = 0;
    while w < probe.len()
        invariant
            bytes@ == s,
            probe@ == svg_probe(s),
            svg@ == svg_tag(),
            forall|j: int| 0 <= j < w ==> !has_at(probe@, j, svg_tag()),
        decreases probe.len() - w,
    {
        if matches_at(&probe, w, svg.as_slice()) {
            assert(has_at(probe@, w as int, svg_tag()));
            return true;
        }
        w = w + 1;
    }
    assert forall|j: int| !has_at(probe@, j, svg_tag()) by {
        if 0 <= j < probe@.len() {
        }
    }
    false
}

} // verus!