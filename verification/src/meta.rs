//! Where a loaded image came from, and how its size is described.

use vstd::prelude::*;
use std::path::PathBuf;
use std::time::SystemTime;
use vstd::arithmetic::power2::{lemma2_to64, lemma_pow2_unfold, pow2};
use vstd::arithmetic::div_mod::{
    lemma_fundamental_div_mod, lemma_mod_multiples_basic, lemma_mod_pos_bound,
};
use crate::text::{decimal, digit_char, push_char, push_decimal, push_decimal_wide, push_str};
use crate::float::{int_f64, int_f64_exec, quotient_f64, quotient_f64_exec, thousandths, thousandths_exec, two52};

verus! {

#[verifier::external_type_specification]
#[verifier::external_body]
pub struct ExPathBuf(PathBuf);

#[verifier::external_type_specification]
#[verifier::external_body]
pub struct ExSystemTime(SystemTime);

/// Final component of a path as UTF-8 text (`Path::file_name`), when it has
/// one that is valid UTF-8. What the component is depends on the platform's
/// path rules, so nothing is stated of it.
#[verifier::external_body]
fn path_file_name(path: &PathBuf) -> (r: Option<String>) {
    path.file_name().and_then(|s| s.to_str()).map(|s| s.to_string())
}

/// The path as shown to the user (`Path::display`); platform-dependent, so
/// nothing is stated of it.
#[verifier::external_body]
fn path_display(path: &PathBuf) -> (r: String) {
    path.display().to_string()
}

/// Where the current image data came from.
#[derive(Debug)]
pub enum ImageOrigin {
    File(PathBuf),
    DroppedBytes { suggested_name: Option<String> },
    Clipboard,
}

pub open spec fn origin_label_spec(o: ImageOrigin) -> Seq<char> {
    match o {
        ImageOrigin::File(_) => "File on disk"@,
        ImageOrigin::DroppedBytes { .. } => "Dropped bytes"@,
        ImageOrigin::Clipboard => "Clipboard"@,
    }
}

impl ImageOrigin {
    /// Label of the origin for the user interface.
    pub fn label(&self) -> (r: &'static str)
        ensures
            r@ == origin_label_spec(*self),
    {
        match self {
            ImageOrigin::File(_) => "File on disk",
            ImageOrigin::DroppedBytes { .. } => "Dropped bytes",
            ImageOrigin::Clipboard => "Clipboard",
        }
    }
}

/// Metadata of a loaded image and its origin.
#[derive(Debug)]
pub struct ImageMeta {
    origin: ImageOrigin,
    byte_len: Option<u64>,
    last_modified: Option<SystemTime>,
}

/// A name, or the fallback when there is none.
fn name_or(name: Option<String>, fallback: String) -> (r: String)
    ensures
        r@ == match name {
            Some(n) => n@,
            None => fallback@,
        },
{
    match name {
        Some(n) => n,
        None => fallback,
    }
}

fn owned(s: &str) -> (r: String)
    ensures
        r@ == s@,
{
    let mut r = String::new();
    push_str(&mut r, s);
    r
}

/// A dropped file's suggested name, kept only when it is not empty.
pub open spec fn kept_name(name: Option<Seq<char>>) -> Option<Seq<char>> {
    match name {
        Some(n) => if n.len() > 0 { Some(n) } else { None },
        None => None,
    }
}

fn keep_nonempty(name: Option<&str>) -> (r: Option<String>)
    ensures
        match (r, kept_name(match name { Some(n) => Some(n@), None => None })) {
            (Some(a), Some(b)) => a@ == b,
            (None, None) => true,
            _ => false,
        },
{
    match name {
        Some(n) => {
            if n.is_empty() {
                None
            } else {
                Some(owned(n))
            }
        },
        None => None,
    }
}

impl ImageMeta {
    pub closed spec fn origin_spec(&self) -> ImageOrigin {
        self.origin
    }

    pub closed spec fn byte_len_spec(&self) -> Option<u64> {
        self.byte_len
    }

    pub closed spec fn last_modified_spec(&self) -> Option<SystemTime> {
        self.last_modified
    }

    /// Metadata of a file whose size and modification time were read from
    /// the file system (`None` where they could not be read).
    pub fn from_file_metadata(path: PathBuf, byte_len: Option<u64>, last_modified: Option<SystemTime>) -> (r:
        ImageMeta)
        ensures
            r.origin_spec() == ImageOrigin::File(path),
            r.byte_len_spec() == byte_len,
            r.last_modified_spec() == last_modified,
    {
        ImageMeta { origin: ImageOrigin::File(path), byte_len, last_modified }
    }

    /// Metadata of dropped bytes; an empty suggested name counts as none.
    pub fn from_dropped_bytes(name: Option<&str>, byte_len: usize, last_modified: Option<SystemTime>) -> (r:
        ImageMeta)
        ensures
            r.origin_spec() matches ImageOrigin::DroppedBytes { suggested_name } && match (
                suggested_name,
                kept_name(match name { Some(n) => Some(n@), None => None }),
            ) {
                (Some(a), Some(b)) => a@ == b,
                (None, None) => true,
                _ => false,
            },
            r.byte_len_spec() == Some(byte_len as u64),
            r.last_modified_spec() == last_modified,
    {
        ImageMeta {
            origin: ImageOrigin::DroppedBytes { suggested_name: keep_nonempty(name) },
            byte_len: Some(byte_len as u64),
            last_modified,
        }
    }

    /// Metadata of an image pasted from the clipboard.
    pub fn from_clipboard(byte_len: Option<u64>) -> (r: ImageMeta)
        ensures
            r.origin_spec() matches ImageOrigin::Clipboard,
            r.byte_len_spec() == byte_len,
            r.last_modified_spec() is None,
    {
        ImageMeta { origin: ImageOrigin::Clipboard, byte_len, last_modified: None }
    }

    /// Name to show for the image: the file name (or the whole path when it
    /// has none), the suggested name of dropped bytes or "Unnamed drop", or
    /// "Clipboard image".
    pub fn display_name(&self) -> (r: String)
        ensures
            self.origin_spec() matches ImageOrigin::DroppedBytes { suggested_name } ==> r@ == match suggested_name {
                Some(n) => n@,
                None => "Unnamed drop"@,
            },
            self.origin_spec() matches ImageOrigin::Clipboard ==> r@ == "Clipboard image"@,
    {
        match &self.origin {
            ImageOrigin::File(path) => name_or(path_file_name(path), path_display(path)),
            ImageOrigin::DroppedBytes { suggested_name } => match suggested_name {
                Some(n) => n.clone(),
                None => owned("Unnamed drop"),
            },
            ImageOrigin::Clipboard => owned("Clipboard image"),
        }
    }

    /// The file path when the image came from disk.
    pub fn path(&self) -> (r: Option<&PathBuf>)
        ensures
            match self.origin_spec() {
                ImageOrigin::File(p) => r == Some(&p),
                _ => r is None,
            },
    {
        match &self.origin {
            ImageOrigin::File(path) => Some(path),
            ImageOrigin::DroppedBytes { .. } | ImageOrigin::Clipboard => None,
        }
    }

    /// Short label of the origin.
    pub fn source_label(&self) -> (r: &'static str)
        ensures
            r@ == origin_label_spec(self.origin_spec()),
    {
        self.origin.label()
    }

    pub fn byte_len(&self) -> (r: Option<u64>)
        ensures
            r == self.byte_len_spec(),
    {
        self.byte_len
    }

    pub fn last_modified(&self) -> (r: Option<SystemTime>)
        ensures
            r == self.last_modified_spec(),
    {
        self.last_modified
    }
}

// ---------------------------------------------------------------------------
// Pixel counts and aspect ratios.

/// Number of pixels of a `width` x `height` image, saturating at `u64::MAX`.
pub fn total_pixel_count(size: [usize; 2]) -> (r: u64)
    ensures
        r == if size[0] as int * size[1] as int > u64::MAX { u64::MAX as int } else { size[0] as int
            * size[1] as int },
{
    let w = size[0] as u64;
    let h = size[1] as u64;
    match w.checked_mul(h) {
        Some(p) => p,
        None => u64::MAX,
    }
}

/// Greatest common divisor (Euclid).
pub open spec fn gcd(a: nat, b: nat) -> nat
    decreases b,
{
    if b == 0 {
        a
    } else {
        proof {
            lemma_mod_pos_bound(a as int, b as int);
        }
        gcd(b, a % b)
    }
}

/// `d` divides `x`.
pub open spec fn divides(d: int, x: int) -> bool {
    d > 0 && x % d == 0
}

proof fn lemma_divides_combination(g: int, x: int, y: int, k: int)
    requires
        divides(g, x),
        divides(g, y),
    ensures
        divides(g, x * k + y),
        divides(g, x - y * k),
{
    lemma_fundamental_div_mod(x, g);
    lemma_fundamental_div_mod(y, g);
    let a = x / g;
    let b = y / g;
    assert(x * k + y == (a * k + b) * g) by (nonlinear_arith)
        requires
            x == g * a,
            y == g * b,
    ;
    assert(x - y * k == (a - b * k) * g) by (nonlinear_arith)
        requires
            x == g * a,
            y == g * b,
    ;
    lemma_mod_multiples_basic(a * k + b, g);
    lemma_mod_multiples_basic(a - b * k, g);
}

/// The gcd of two numbers, not both zero, is positive and divides both.
proof fn lemma_gcd_divides(a: nat, b: nat)
    requires
        a > 0 || b > 0,
    ensures
        divides(gcd(a, b) as int, a as int),
        divides(gcd(a, b) as int, b as int),
    decreases b,
{
    if b == 0 {
        lemma_mod_multiples_basic(1, a as int);
        lemma_mod_multiples_basic(0, a as int);
    } else {
        lemma_mod_pos_bound(a as int, b as int);
        let r = a % b;
        lemma_gcd_divides(b, r);
        let g = gcd(b, r) as int;
        lemma_fundamental_div_mod(a as int, b as int);
        lemma_divides_combination(g, b as int, r as int, (a / b) as int);
        assert(a as int == b as int * (a / b) as int + r as int);
    }
}

/// Every common divisor of two numbers divides their gcd.
proof fn lemma_gcd_greatest(a: nat, b: nat, d: int)
    requires
        divides(d, a as int),
        divides(d, b as int),
    ensures
        divides(d, gcd(a, b) as int),
    decreases b,
{
    if b > 0 {
        lemma_mod_pos_bound(a as int, b as int);
        let r = a % b;
        lemma_fundamental_div_mod(a as int, b as int);
        lemma_divides_combination(d, a as int, b as int, (a / b) as int);
        assert(r as int == a as int - b as int * (a / b) as int);
        lemma_gcd_greatest(b, r, d);
    }
}

/// A divisor of a positive number is at most that number.
proof fn lemma_divisor_le(d: int, x: int)
    requires
        divides(d, x),
        x > 0,
    ensures
        d <= x,
{
    lemma_fundamental_div_mod(x, d);
    let q = x / d;
    assert(q >= 1) by (nonlinear_arith)
        requires
            x == d * q,
            d > 0,
            x > 0,
    ;
    assert(d <= x) by (nonlinear_arith)
        requires
            x == d * q,
            d > 0,
            q >= 1,
    ;
}

/// Dividing both sides of a non-degenerate size by their gcd leaves a ratio
/// in lowest terms that describes the same shape.
pub proof fn lemma_aspect_ratio_lowest_terms(w: nat, h: nat)
    requires
        w > 0,
        h > 0,
    ensures
        divides(gcd(w, h) as int, w as int),
        divides(gcd(w, h) as int, h as int),
        gcd(w / gcd(w, h), h / gcd(w, h)) == 1,
        (w / gcd(w, h)) * h == (h / gcd(w, h)) * w,
{
    lemma_gcd_divides(w, h);
    let g = gcd(w, h) as int;
    lemma_fundamental_div_mod(w as int, g);
    lemma_fundamental_div_mod(h as int, g);
    let sw = w as int / g;
    let sh = h as int / g;
    assert(sw > 0 && sh > 0) by (nonlinear_arith)
        requires
            w as int == g * sw,
            h as int == g * sh,
            w > 0,
            h > 0,
            g > 0,
    ;
    assert(sw * h == sh * w) by (nonlinear_arith)
        requires
            w as int == g * sw,
            h as int == g * sh,
    ;
    lemma_gcd_divides(sw as nat, sh as nat);
    let g2 = gcd(sw as nat, sh as nat) as int;
    lemma_fundamental_div_mod(sw, g2);
    lemma_fundamental_div_mod(sh, g2);
    let gg = g * g2;
    assert(gg > 0) by (nonlinear_arith)
        requires
            gg == g * g2,
            g > 0,
            g2 > 0,
    ;
    assert(w as int == (sw / g2) * gg && h as int == (sh / g2) * gg) by (nonlinear_arith)
        requires
            w as int == g * sw,
            h as int == g * sh,
            sw == g2 * (sw / g2),
            sh == g2 * (sh / g2),
            gg == g * g2,
    ;
    lemma_mod_multiples_basic(sw / g2, gg);
    lemma_mod_multiples_basic(sh / g2, gg);
    lemma_gcd_greatest(w, h, gg);
    lemma_divisor_le(gg, g);
    assert(g2 == 1) by (nonlinear_arith)
        requires
            gg == g * g2,
            gg <= g,
            g > 0,
            g2 > 0,
    ;
}

/// Greatest common divisor of two sizes; 1 when both are zero.
fn gcd_usize(a: usize, b: usize) -> (r: usize)
    ensures
        r == if gcd(a as nat, b as nat) == 0 { 1 } else { gcd(a as nat, b as nat) },
{
    let mut x = a;
    let mut y = b;
    while y != 0
        invariant
            gcd(x as nat, y as nat) == gcd(a as nat, b as nat),
        decreases y,
    {
        let t = x % y;
        x = y;
        y = t;
    }
    if x == 0 {
        1
    } else {
        x
    }
}

/// The sides of a non-degenerate size divided by their gcd (the "w:h" part
/// of an aspect-ratio description); none when a side is zero.
pub fn simplified_aspect_ratio(size: [usize; 2]) -> (r: Option<[usize; 2]>)
    ensures
        size[0] == 0 || size[1] == 0 ==> r is None,
        size[0] > 0 && size[1] > 0 ==> r == Some(
            [
                (size[0] as nat / gcd(size[0] as nat, size[1] as nat)) as usize,
                (size[1] as nat / gcd(size[0] as nat, size[1] as nat)) as usize,
            ],
        ),
{
    let w = size[0];
    let h = size[1];
    if w == 0 || h == 0 {
        return None;
    }
    let divisor = gcd_usize(w, h);
    proof {
        lemma_gcd_divides(w as nat, h as nat);
    }
    Some([w / divisor, h / divisor])
}

/// A count of thousandths as `{:.3}` prints it: the whole part, a point and
/// three digits.
pub open spec fn three_decimals(t: nat) -> Seq<char> {
    decimal(t / 1000) + seq![
        '.',
        digit_char(((t / 100) % 10) as int),
        digit_char(((t / 10) % 10) as int),
        digit_char((t % 10) as int),
    ]
}

/// "w:h (~r:1)": the sides in lowest terms and their quotient as a double
/// (each side converted to a double first), printed with three decimals;
/// none when a side is zero.
pub open spec fn describe_aspect_ratio_spec(w: nat, h: nat) -> Option<Seq<char>> {
    if w == 0 || h == 0 {
        None
    } else {
        let g = gcd(w, h);
        let q = quotient_f64(int_f64(w as int), int_f64(h as int));
        Some(decimal(w / g) + ":"@ + decimal(h / g) + " (~"@ + three_decimals(
            thousandths(q.0, q.1) as nat,
        ) + ":1)"@)
    }
}

/// Describes the aspect ratio of a size, as in "16:9 (~1.778:1)".
pub fn describe_aspect_ratio(size: [usize; 2]) -> (r: Option<String>)
    ensures
        match (r, describe_aspect_ratio_spec(size[0] as nat, size[1] as nat)) {
            (Some(t), Some(u)) => t@ == u,
            (None, None) => true,
            _ => false,
        },
{
    let simple = match simplified_aspect_ratio(size) {
        Some(v) => v,
        None => return None,
    };
    let w = size[0] as u128;
    let h = size[1] as u128;
    let p = int_f64_exec(w);
    let q = int_f64_exec(h);
    assert(1 <= p <= 0x1_0000_0000_0000_2000 && 1 <= q <= 0x1_0000_0000_0000_2000) by (nonlinear_arith)
        requires
            p * two52() <= w * (two52() + 1),
            w * (two52() - 1) <= p * two52(),
            q * two52() <= h * (two52() + 1),
            h * (two52() - 1) <= q * two52(),
            1 <= w <= 0xffff_ffff_ffff_ffff,
            1 <= h <= 0xffff_ffff_ffff_ffff,
            two52() == 0x10_0000_0000_0000,
    ;
    let quotient = quotient_f64_exec(p, q);
    let t = thousandths_exec(quotient.0, quotient.1);
    let mut s = String::new();
    push_decimal(&mut s, simple[0] as u64);
    push_str(&mut s, ":");
    push_decimal(&mut s, simple[1] as u64);
    push_str(&mut s, " (~");
    push_decimal_wide(&mut s, t / 1000);
    push_char(&mut s, '.');
    push_char(&mut s, digit_of((t / 100 % 10) as u64));
    push_char(&mut s, digit_of((t / 10 % 10) as u64));
    push_char(&mut s, digit_of((t % 10) as u64));
    push_str(&mut s, ":1)");
    let ghost g = gcd(size[0] as nat, size[1] as nat);
    let ghost qq = quotient_f64(int_f64(size[0] as int), int_f64(size[1] as int));
    assert(p as int == int_f64(size[0] as int) && q as int == int_f64(size[1] as int));
    assert(quotient.0 as int == qq.0 && quotient.1 as int == qq.1);
    assert(t as int == thousandths(qq.0, qq.1));
    proof {
        lemma_gcd_divides(size[0] as nat, size[1] as nat);
        assert(g >= 1);
        assert(size[0] as nat / g <= size[0] as nat && size[1] as nat / g <= size[1] as nat) by (nonlinear_arith)
            requires
                g >= 1,
        ;
    }
    assert(simple[0] as u64 as nat == size[0] as nat / g);
    assert(simple[1] as u64 as nat == size[1] as nat / g);
    let ghost tn = t as nat;
    assert((t / 1000) as nat == tn / 1000);
    assert((t / 100 % 10) as u64 as int == ((tn / 100) % 10) as int);
    assert((t / 10 % 10) as u64 as int == ((tn / 10) % 10) as int);
    assert((t % 10) as u64 as int == (tn % 10) as int);
    assert(s@ =~= describe_aspect_ratio_spec(size[0] as nat, size[1] as nat).unwrap());
    Some(s)
}

// ---------------------------------------------------------------------------
// Byte counts in binary units.

/// 2^53: below it every integer is exactly a double.
pub const DOUBLE_EXACT_LIMIT: u128 = 9_007_199_254_740_992;

/// Spacing of the doubles around `b`, searched from `2^k` upwards (enough for
/// every `u64`).
pub open spec fn double_spacing_from(b: nat, k: nat) -> nat
    decreases 11 - k,
{
    if k >= 11 || b < DOUBLE_EXACT_LIMIT * pow2(k) {
        pow2(k)
    } else {
        double_spacing_from(b, k + 1)
    }
}

/// `b as f64`, as an integer: the nearest multiple of the spacing of the
/// doubles at `b`, ties going to the even multiple.
pub open spec fn nearest_double(b: nat) -> nat {
    let u = double_spacing_from(b, 0);
    let q = b / u;
    let r = b % u;
    if 2 * r > u || (2 * r == u && q % 2 == 1) {
        (q + 1) * u
    } else {
        q * u
    }
}

/// How many times a value can be divided by 1024 before it drops below 1024
/// (at most four: TiB is the largest unit).
pub open spec fn unit_index(f: nat) -> nat {
    if f < 1024 {
        0
    } else if f < 1_048_576 {
        1
    } else if f < 1_073_741_824 {
        2
    } else if f < 1_099_511_627_776 {
        3
    } else {
        4
    }
}

pub open spec fn unit_divisor(k: nat) -> nat {
    if k == 0 {
        1
    } else if k == 1 {
        1024
    } else if k == 2 {
        1_048_576
    } else if k == 3 {
        1_073_741_824
    } else {
        1_099_511_627_776
    }
}

pub open spec fn unit_name(k: nat) -> Seq<char> {
    if k == 0 {
        "B"@
    } else if k == 1 {
        "KiB"@
    } else if k == 2 {
        "MiB"@
    } else if k == 3 {
        "GiB"@
    } else {
        "TiB"@
    }
}

/// `n / d` rounded to the nearest integer, ties to even.
pub open spec fn round_half_even(n: nat, d: nat) -> nat {
    let q = n / d;
    let r = n % d;
    if 2 * r > d || (2 * r == d && q % 2 == 1) {
        q + 1
    } else {
        q
    }
}

/// Text of a byte count: whole bytes below 1 KiB, otherwise the value in the
/// largest binary unit up to TiB that keeps it at least 1, with two decimals
/// (the double nearest the count, divided exactly, rounded half to even).
pub open spec fn human_readable_bytes_spec(bytes: u64) -> Seq<char> {
    let f = nearest_double(bytes as nat);
    let k = unit_index(f);
    if k == 0 {
        decimal(bytes as nat) + " B"@
    } else {
        let n = round_half_even(f * 100, unit_divisor(k));
        decimal(n / 100) + seq!['.', digit_char(((n / 10) % 10) as int), digit_char((n % 10) as int)]
            + " "@ + unit_name(k)
    }
}

proof fn lemma_spacing_bound(b: nat, k: nat)
    requires
        k <= 11,
    ensures
        pow2(k) <= double_spacing_from(b, k) <= 2048,
        b < u64::MAX + 1 ==> b < DOUBLE_EXACT_LIMIT * double_spacing_from(b, k) || k == 11,
    decreases 11 - k,
{
    lemma2_to64();
    if k < 11 && b >= DOUBLE_EXACT_LIMIT * pow2(k) {
        lemma_spacing_bound(b, k + 1);
        lemma_pow2_unfold(k + 1);
    }
    if k < 11 {
        lemma_pow2_mono(k, 11);
    }
}

proof fn lemma_pow2_mono(a: nat, b: nat)
    requires
        a <= b,
    ensures
        pow2(a) <= pow2(b),
    decreases b - a,
{
    if a < b {
        lemma_pow2_mono(a, (b - 1) as nat);
        lemma_pow2_unfold(b);
    }
}

/// The double nearest to `b`, as an integer.
fn nearest_double_exec(b: u64) -> (f: u128)
    ensures
        f == nearest_double(b as nat),
        f <= b as int + 2048,
{
    let mut u: u128 = 1;
    let mut k: u64 = 0;
    proof {
        lemma2_to64();
    }
    while k < 11 && b as u128 >= DOUBLE_EXACT_LIMIT * u
        invariant
            k <= 11,
            u == pow2(k as nat),
            u <= 2048,
            double_spacing_from(b as nat, k as nat) == double_spacing_from(b as nat, 0),
        decreases 11 - k,
    {
        proof {
            lemma2_to64();
            lemma_pow2_unfold((k + 1) as nat);
            lemma_pow2_mono((k + 1) as nat, 11);
        }
        u = 2 * u;
        k = k + 1;
    }
    assert(double_spacing_from(b as nat, k as nat) == u);
    let q = b as u128 / u;
    let r = b as u128 % u;
    proof {
        lemma_fundamental_div_mod(b as int, u as int);
        lemma_mod_pos_bound(b as int, u as int);
    }
    assert(q * u <= b) by (nonlinear_arith)
        requires
            b as int == u * q + r,
            r >= 0,
    ;
    if 2 * r > u || (2 * r == u && q % 2 == 1) {
        assert((q + 1) * u <= b as int + 2048) by (nonlinear_arith)
            requires
                b as int == u * q + r,
                r >= 0,
                u <= 2048,
        ;
        (q + 1) * u
    } else {
        q * u
    }
}

/// A byte count in binary units, as the user interface shows it ("512 B",
/// "1.50 KiB", "2.00 GiB").
pub fn human_readable_bytes(bytes: u64) -> (r: String)
    ensures
        r@ == human_readable_bytes_spec(bytes),
{
    let f = nearest_double_exec(bytes);
    let mut s = String::new();
    if f < 1024 {
        push_decimal(&mut s, bytes);
        push_str(&mut s, " B");
        return s;
    }
    let (d, unit): (u128, &str) = if f < 1_048_576 {
        (1024, "KiB")
    } else if f < 1_073_741_824 {
        (1_048_576, "MiB")
    } else if f < 1_099_511_627_776 {
        (1_073_741_824, "GiB")
    } else {
        (1_099_511_627_776, "TiB")
    };
    proof {
        reveal_strlit("KiB");
        reveal_strlit("MiB");
        reveal_strlit("GiB");
        reveal_strlit("TiB");
    }
    assert(d == unit_divisor(unit_index(f as nat)) && unit@ == unit_name(unit_index(f as nat)));
    let num = f * 100;
    let q = num / d;
    let rem = num % d;
    let n = if 2 * rem > d || (2 * rem == d && q % 2 == 1) {
        q + 1
    } else {
        q
    };
    assert(n == round_half_even(num as nat, d as nat));
    assert(q <= num) by (nonlinear_arith)
        requires
            d >= 1,
            q == num / d,
    ;
    assert(num <= 100 * (u64::MAX as int + 2048));
    assert(n / 100 <= u64::MAX) by (nonlinear_arith)
        requires
            n <= q + 1,
            q == num / d,
            d >= 1024,
            num <= 100 * (u64::MAX as int + 2048),
    ;
    let whole = (n / 100) as u64;
    push_decimal(&mut s, whole);
    push_char(&mut s, '.');
    push_char(&mut s, digit_of((n / 10 % 10) as u64));
    push_char(&mut s, digit_of((n % 10) as u64));
    push_char(&mut s, ' ');
    push_str(&mut s, unit);
    proof {
        reveal_strlit(" ");
        assert(whole as nat == n as nat / 100);
    }
    assert(s@ =~= human_readable_bytes_spec(bytes));
    s
}

fn digit_of(d: u64) -> (c: char)
    requires
        d < 10,
    ensures
        c == digit_char(d as int),
{
    match d {
        0 => '0',
        1 => '1',
        2 => '2',
        3 => '3',
        4 => '4',
        5 => '5',
        6 => '6',
        7 => '7',
        8 => '8',
        _ => '9',
    }
}

// ---------------------------------------------------------------------------
// Images waiting to be decoded.

/// An image waiting to be decoded.
pub enum ImageLoadRequest {
    Path(PathBuf),
    Bytes(Vec<u8>),
    ClipboardRgba { width: usize, height: usize, rgba: Vec<u8> },
}

/// What is known of an image while it is being decoded.
pub enum PendingImageMeta {
    Path { path: PathBuf },
    DroppedBytes { name: Option<String>, byte_len: usize, last_modified: Option<SystemTime> },
}

impl PendingImageMeta {
    /// Short description for progress messages: the file name (or the whole
    /// path when it has none), the dropped name, or "dropped bytes".
    pub fn description(&self) -> (r: String)
        ensures
            *self matches PendingImageMeta::DroppedBytes { name, .. } ==> r@ == match name {
                Some(n) => n@,
                None => "dropped bytes"@,
            },
    {
        match self {
            PendingImageMeta::Path { path } => name_or(path_file_name(path), path_display(path)),
            PendingImageMeta::DroppedBytes { name, .. } => match name {
                Some(n) => n.clone(),
                None => owned("dropped bytes"),
            },
        }
    }

    /// The metadata of the loaded image. For a file, `file_len` and
    /// `file_modified` are what the file system reported (`None` where it
    /// could not be read); for dropped bytes they are not used.
    pub fn into_image_meta(self, file_len: Option<u64>, file_modified: Option<SystemTime>) -> (r: ImageMeta)
        ensures
            match self {
                PendingImageMeta::Path { path } => r.origin_spec() == ImageOrigin::File(path)
                    && r.byte_len_spec() == file_len && r.last_modified_spec() == file_modified,
                PendingImageMeta::DroppedBytes { name, byte_len, last_modified } => (r.origin_spec() matches ImageOrigin::DroppedBytes {
                    suggested_name,
                } && match (suggested_name, kept_name(match name { Some(n) => Some(n@), None => None })) {
                    (Some(a), Some(b)) => a@ == b,
                    (None, None) => true,
                    _ => false,
                }) && r.byte_len_spec() == Some(byte_len as u64) && r.last_modified_spec() == last_modified,
            },
    {
        match self {
            PendingImageMeta::Path { path } => ImageMeta::from_file_metadata(path, file_len, file_modified),
            PendingImageMeta::DroppedBytes { name, byte_len, last_modified } => {
                let name_ref: Option<&str> = match &name {
                    Some(n) => Some(n.as_str()),
                    None => None,
                };
                ImageMeta::from_dropped_bytes(name_ref, byte_len, last_modified)
            },
        }
    }
}

} // verus!
