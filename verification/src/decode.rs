//! Decoding raster images and clipboard pixels under the configured limits.

use vstd::prelude::*;
use std::io::Cursor;
use image::imageops::FilterType;
use image::{ImageReader, Limits, RgbaImage};
use crate::config::{sanitized_limits, ImageLimits};
use crate::limits::{
    decide_plan, exceeds_spec, hard_limits, hard_limits_spec, lemma_autoscale_fits, limit_info_matches,
    offered_size, source_metrics, DecodePlan, ImageLimitInfo, ImageLoadPolicy, LimitError, PlanDecision,
    SourceMetrics, autoscale_size_spec, consistent, fits_limits,
};
use crate::text::push_str;

verus! {

// ---------------------------------------------------------------------------
// Results.

/// Pixels ready for display: four bytes (red, green, blue, alpha) per pixel,
/// row by row. `premultiplied` tells whether the colour channels are already
/// multiplied by alpha.
pub struct DecodedImage {
    pub size: [usize; 2],
    pub rgba: Vec<u8>,
    pub premultiplied: bool,
}

impl DecodedImage {
    /// Four bytes for each pixel of the image.
    pub open spec fn wf(&self) -> bool {
        self.rgba.len() == 4 * self.size[0] * self.size[1]
    }
}

/// Either the decoded pixels, or a question for the user about the limits.
pub enum ImageLoadOutcome {
    Ready(DecodedImage),
    NeedsLimitDecision(ImageLimitInfo),
}

/// Why an image could not be loaded.
#[derive(Debug, Clone, Copy, PartialEq, Eq, Structural)]
pub enum LoadError {
    /// The size breaks the rules of the planner.
    Limit(LimitError),
    /// The data could not be probed for a format.
    FormatDetection,
    /// The header could not be read.
    Dimensions,
    /// The pixel data could not be decoded.
    Decode,
    /// The decoded pixels would not fit in the address space.
    OutputTooLarge,
    /// A clipboard image wider than `u32::MAX`.
    ClipboardWidthTooLarge,
    /// A clipboard image taller than `u32::MAX`.
    ClipboardHeightTooLarge,
    /// A clipboard image whose byte count does not fit in the address space.
    ClipboardTooLarge,
    /// Fewer clipboard bytes than the size calls for.
    ClipboardTruncated,
}

pub open spec fn load_error_message(e: LoadError) -> Seq<char> {
    match e {
        LoadError::Limit(l) => crate::limits::limit_error_message(l),
        LoadError::FormatDetection => "Failed to detect image format"@,
        LoadError::Dimensions => "Failed to read image dimensions"@,
        LoadError::Decode => "Failed to decode image data"@,
        LoadError::OutputTooLarge => "Decoded image is too large to fit in memory"@,
        LoadError::ClipboardWidthTooLarge => "Clipboard image width is too large"@,
        LoadError::ClipboardHeightTooLarge => "Clipboard image height is too large"@,
        LoadError::ClipboardTooLarge => "Clipboard image is too large to fit in memory"@,
        LoadError::ClipboardTruncated => "Paste failed: clipboard image data is truncated."@,
    }
}

impl LoadError {
    /// The message shown to the user.
    pub fn message(&self) -> (s: String)
        ensures
            s@ == load_error_message(*self),
    {
        match self {
            LoadError::Limit(l) => l.message(),
            _ => {
                let mut s = String::new();
                let text = match self {
                    LoadError::FormatDetection => "Failed to detect image format",
                    LoadError::Dimensions => "Failed to read image dimensions",
                    LoadError::Decode => "Failed to decode image data",
                    LoadError::OutputTooLarge => "Decoded image is too large to fit in memory",
                    LoadError::ClipboardWidthTooLarge => "Clipboard image width is too large",
                    LoadError::ClipboardHeightTooLarge => "Clipboard image height is too large",
                    LoadError::ClipboardTooLarge => "Clipboard image is too large to fit in memory",
                    _ => "Paste failed: clipboard image data is truncated.",
                };
                push_str(&mut s, text);
                s
            },
        }
    }
}

// ---------------------------------------------------------------------------
// Planning.

/// What to do with an image of a known size.
#[derive(Debug, Clone, Copy)]
pub enum LoadPlan {
    /// Decode under `limits`, then bring the pixels to `target`.
    Decode { limits: ImageLimits, target: [u32; 2] },
    /// Ask the user how to treat the limits first.
    Ask(ImageLimitInfo),
}

/// The metrics of a `width` x `height` image.
pub open spec fn metrics_of(width: u32, height: u32) -> SourceMetrics {
    SourceMetrics {
        width,
        height,
        total_pixels: (width as int * height as int) as u64,
        rgba_bytes: (width as int * height as int * 4) as u64,
    }
}

/// The plan for a `width` x `height` image under the configured limits (as
/// sanitised) and a policy: a zero side or a byte count beyond 64 bits is an
/// error; within the configured limits the image is decoded under them at
/// full size; beyond them the user is asked, the image is scaled down to the
/// offered size, or decoded at full size under the hard limits, as the policy
/// says; beyond the hard limits only asking is possible.
pub open spec fn load_plan_ok(
    width: u32,
    height: u32,
    image_limits: ImageLimits,
    policy: ImageLoadPolicy,
    r: Result<LoadPlan, LimitError>,
) -> bool {
    let cfg = sanitized_limits(image_limits);
    let m = metrics_of(width, height);
    let hard = exceeds_spec(m, hard_limits_spec());
    let over = exceeds_spec(m, cfg);
    if width == 0 || height == 0 {
        r == Err::<LoadPlan, LimitError>(LimitError::ZeroDimensions)
    } else if width as int * height as int * 4 > u64::MAX {
        r == Err::<LoadPlan, LimitError>(LimitError::FootprintTooLarge)
    } else {
        match policy {
            ImageLoadPolicy::AskUser => if over {
                r matches Ok(LoadPlan::Ask(info)) && limit_info_matches(info, m, cfg)
            } else {
                r matches Ok(LoadPlan::Decode { limits, target }) && limits == cfg && target[0] == width
                    && target[1] == height
            },
            ImageLoadPolicy::AutoscaleToConfig => if hard {
                r == Err::<LoadPlan, LimitError>(LimitError::HardLimitExceeded { width, height })
            } else if over {
                match offered_size(m, cfg) {
                    Some((w, h)) => r matches Ok(LoadPlan::Decode { limits, target }) && limits
                        == hard_limits_spec() && target[0] == w && target[1] == h,
                    None => r == Err::<LoadPlan, LimitError>(LimitError::CannotAutoscale { width, height }),
                }
            } else {
                r matches Ok(LoadPlan::Decode { limits, target }) && limits == cfg && target[0] == width
                    && target[1] == height
            },
            ImageLoadPolicy::IgnoreConfigWithHardCap => if hard {
                r == Err::<LoadPlan, LimitError>(LimitError::HardLimitExceeded { width, height })
            } else {
                r matches Ok(LoadPlan::Decode { limits, target }) && limits == hard_limits_spec()
                    && target[0] == width && target[1] == height
            },
        }
    }
}

/// Plans the loading of a `width` x `height` image: the configured limits are
/// sanitised, then the size is held against them and the hard limits.
pub fn plan_image_load(width: u32, height: u32, image_limits: &ImageLimits, policy: ImageLoadPolicy) -> (r:
    Result<LoadPlan, LimitError>)
    ensures
        load_plan_ok(width, height, *image_limits, policy, r),
{
    let cfg = image_limits.sanitized();
    let metrics = match source_metrics(width, height) {
        Ok(m) => m,
        Err(e) => return Err(e),
    };
    assert(metrics == metrics_of(width, height));
    match decide_plan(metrics, &cfg, policy) {
        Err(e) => Err(e),
        Ok(PlanDecision::Prompt(info)) => Ok(LoadPlan::Ask(info)),
        Ok(PlanDecision::Proceed(DecodePlan::OriginalConfig)) => Ok(
            LoadPlan::Decode { limits: cfg, target: [width, height] },
        ),
        Ok(PlanDecision::Proceed(DecodePlan::OriginalHard)) => Ok(
            LoadPlan::Decode { limits: hard_limits(), target: [width, height] },
        ),
        Ok(PlanDecision::Proceed(DecodePlan::ResizeConfig(size))) => Ok(
            LoadPlan::Decode { limits: hard_limits(), target: size },
        ),
    }
}

// ---------------------------------------------------------------------------
// Calls into the `image` crate.

/// Pixels decoded by the `image` crate, in 8-bit RGBA.
pub struct RgbaBuffer {
    pub width: u32,
    pub height: u32,
    pub rgba: Vec<u8>,
}

/// Which step of the `image` crate failed.
#[derive(Debug, Clone, Copy, PartialEq, Eq, Structural)]
pub enum RasterFailure {
    Format,
    Header,
    Decode,
}

/// Reads the size from the header: `ImageReader::new` over the bytes,
/// `with_guessed_format`, `no_limits`, then `into_dimensions`. Format
/// guessing only reads and seeks the in-memory cursor, which cannot fail, so
/// the call never fails at that step; the answer otherwise rests on the
/// decoders and on detection hooks that a process may register, so nothing
/// more is stated of it.
#[verifier::external_body]
fn read_raster_dimensions(bytes: &[u8]) -> (r: Result<(u32, u32), RasterFailure>)
    ensures
        r matches Err(f) ==> f != RasterFailure::Format,
{
    let mut reader = match ImageReader::new(Cursor::new(bytes)).with_guessed_format() {
        Ok(reader) => reader,
        Err(_) => return Err(RasterFailure::Format),
    };
    reader.no_limits();
    reader.into_dimensions().map_err(|_| RasterFailure::Header)
}

/// Decodes the pixels: `ImageReader::new` over the bytes,
/// `with_guessed_format`, `limits` (both sides capped at `max_side`,
/// allocation at `max_alloc`), `decode`, then `DynamicImage::to_rgba8`. The
/// buffer that `to_rgba8` builds holds four bytes for each pixel; nothing
/// more is stated of the pixels. As for the header, guessing the format over
/// the in-memory cursor cannot fail.
#[verifier::external_body]
fn decode_raster(bytes: &[u8], max_side: u32, max_alloc: u64) -> (r: Result<RgbaBuffer, RasterFailure>)
    ensures
        r matches Ok(img) ==> img.rgba.len() == 4 * img.width * img.height,
        r matches Err(f) ==> f != RasterFailure::Format,
{
    let mut reader = match ImageReader::new(Cursor::new(bytes)).with_guessed_format() {
        Ok(reader) => reader,
        Err(_) => return Err(RasterFailure::Format),
    };
    let mut limits = Limits::default();
    limits.max_image_width = Some(max_side);
    limits.max_image_height = Some(max_side);
    limits.max_alloc = Some(max_alloc);
    reader.limits(limits);
    let img = reader.decode().map_err(|_| RasterFailure::Decode)?.to_rgba8();
    Ok(RgbaBuffer { width: img.width(), height: img.height(), rgba: img.into_raw() })
}

/// Scales RGBA pixels with Catmull-Rom filtering: `RgbaImage::from_raw`, then
/// `imageops::resize`. `from_raw` accepts a buffer of at least four bytes per
/// pixel; `resize` builds a `target_w` x `target_h` buffer. The filtered
/// values are floating-point results and are not stated.
#[verifier::external_body]
fn resize_rgba(width: u32, height: u32, rgba: Vec<u8>, target_w: u32, target_h: u32) -> (r: Option<Vec<u8>>)
    requires
        4 * target_w * target_h <= usize::MAX,
    ensures
        rgba.len() >= 4 * width * height ==> r is Some,
        r matches Some(v) ==> v.len() == 4 * target_w * target_h,
{
    let source = RgbaImage::from_raw(width, height, rgba)?;
    Some(image::imageops::resize(&source, target_w, target_h, FilterType::CatmullRom).into_raw())
}

// ---------------------------------------------------------------------------
// Raster images.

/// The plan for raster data whose header reading gave `header`.
pub open spec fn raster_plan_ok(
    header: Result<(u32, u32), RasterFailure>,
    image_limits: ImageLimits,
    policy: ImageLoadPolicy,
    r: Result<LoadPlan, LoadError>,
) -> bool {
    match header {
        Err(RasterFailure::Format) => r == Err::<LoadPlan, LoadError>(LoadError::FormatDetection),
        Err(_) => r == Err::<LoadPlan, LoadError>(LoadError::Dimensions),
        Ok((w, h)) => match r {
            Ok(p) => load_plan_ok(w, h, image_limits, policy, Ok(p)),
            Err(LoadError::Limit(e)) => load_plan_ok(w, h, image_limits, policy, Err(e)),
            Err(_) => false,
        },
    }
}

/// Plans the loading of raster data from what its header gave.
pub fn raster_plan(header: Result<(u32, u32), RasterFailure>, image_limits: &ImageLimits, policy: ImageLoadPolicy) -> (r:
    Result<LoadPlan, LoadError>)
    ensures
        raster_plan_ok(header, *image_limits, policy, r),
{
    match header {
        Err(RasterFailure::Format) => Err(LoadError::FormatDetection),
        Err(_) => Err(LoadError::Dimensions),
        Ok((w, h)) => match plan_image_load(w, h, image_limits, policy) {
            Ok(p) => Ok(p),
            Err(e) => Err(LoadError::Limit(e)),
        },
    }
}

/// Brings decoded pixels to the planned size: kept as they are when the size
/// already matches, scaled otherwise.
pub fn fit_decoded(decoded: Result<RgbaBuffer, RasterFailure>, target: [u32; 2]) -> (r: Result<
    DecodedImage,
    LoadError,
>)
    requires
        decoded matches Ok(img) ==> img.rgba.len() == 4 * img.width * img.height,
    ensures
        decoded is Err ==> r == Err::<DecodedImage, LoadError>(match decoded {
            Err(RasterFailure::Format) => LoadError::FormatDetection,
            _ => LoadError::Decode,
        }),
        decoded matches Ok(img) ==> match r {
            Ok(out) => out.wf() && out.size[0] == target[0] && out.size[1] == target[1]
                && !out.premultiplied && (img.width == target[0] && img.height == target[1] ==> out.rgba@
                == img.rgba@),
            Err(e) => e == LoadError::OutputTooLarge && 4 * target[0] * target[1] > usize::MAX,
        },
{
    let img = match decoded {
        Ok(img) => img,
        Err(RasterFailure::Format) => return Err(LoadError::FormatDetection),
        Err(_) => return Err(LoadError::Decode),
    };
    let tw = target[0];
    let th = target[1];
    if img.width == tw && img.height == th {
        return Ok(DecodedImage { size: [tw as usize, th as usize], rgba: img.rgba, premultiplied: false });
    }
    assert(4 * (tw as int) * (th as int) <= 4 * (u32::MAX as int) * (u32::MAX as int)) by (nonlinear_arith)
        requires
            tw <= u32::MAX,
            th <= u32::MAX,
    ;
    let bytes = 4 * (tw as u128) * (th as u128);
    if bytes > usize::MAX as u128 {
        return Err(LoadError::OutputTooLarge);
    }
    match resize_rgba(img.width, img.height, img.rgba, tw, th) {
        Some(v) => Ok(DecodedImage { size: [tw as usize, th as usize], rgba: v, premultiplied: false }),
        None => Err(LoadError::Decode),
    }
}

/// What a load gives once its plan is `p`: a planning error as it is; a
/// question about the limits as the outcome; for a decode, pixels of exactly
/// the planned size (straight alpha), or a failure of detecting the format,
/// of decoding, or of an output too large for memory.
pub open spec fn outcome_follows_plan(p: Result<LoadPlan, LoadError>, r: Result<ImageLoadOutcome, LoadError>) -> bool {
    match p {
        Err(e) => r == Err::<ImageLoadOutcome, LoadError>(e),
        Ok(LoadPlan::Ask(info)) => r == Ok::<ImageLoadOutcome, LoadError>(ImageLoadOutcome::NeedsLimitDecision(info)),
        Ok(LoadPlan::Decode { limits, target }) => match r {
            Ok(ImageLoadOutcome::Ready(img)) => img.wf() && !img.premultiplied && img.size[0] == target[0]
                && img.size[1] == target[1],
            Ok(ImageLoadOutcome::NeedsLimitDecision(_)) => false,
            Err(e) => e == LoadError::FormatDetection || e == LoadError::Decode || e == LoadError::OutputTooLarge,
        },
    }
}

/// Decodes raster data (PNG, JPEG and the other formats of the `image`
/// crate) under the configured limits and a policy. The outcome follows the
/// plan that `raster_plan` makes from what the header reading gave: planning
/// errors and limit questions come from that plan alone, and a decoded image
/// has the planned size.
pub fn decode_raster_bytes(bytes: &[u8], image_limits: &ImageLimits, policy: ImageLoadPolicy) -> (r: Result<
    ImageLoadOutcome,
    LoadError,
>)
    ensures
        r matches Ok(ImageLoadOutcome::Ready(img)) ==> img.wf() && !img.premultiplied,
        r matches Ok(ImageLoadOutcome::NeedsLimitDecision(info)) ==> policy == ImageLoadPolicy::AskUser
            && info.config_limits == sanitized_limits(*image_limits),
        exists|header: Result<(u32, u32), RasterFailure>, p: Result<LoadPlan, LoadError>|
            #[trigger] raster_plan_ok(header, *image_limits, policy, p) && outcome_follows_plan(p, r),
{
    let header = read_raster_dimensions(bytes);
    let plan = raster_plan(header, image_limits, policy);
    let r = match plan {
        Err(e) => Err(e),
        Ok(LoadPlan::Ask(info)) => Ok(ImageLoadOutcome::NeedsLimitDecision(info)),
        Ok(LoadPlan::Decode { limits, target }) => {
            let decoded = decode_raster(bytes, limits.image_dim, limits.alloc_bytes);
            match fit_decoded(decoded, target) {
                Ok(img) => Ok(ImageLoadOutcome::Ready(img)),
                Err(e) => Err(e),
            }
        },
    };
    proof {
        assert(raster_plan_ok(header, *image_limits, policy, plan) && outcome_follows_plan(plan, r));
    }
    r
}

// ---------------------------------------------------------------------------
// Clipboard pixels.

/// The first `n` bytes.
fn prefix(bytes: &[u8], n: usize) -> (r: Vec<u8>)
    requires
        n <= bytes.len(),
    ensures
        r@ == bytes@.take(n as int),
{
    let mut out: Vec<u8> = Vec::with_capacity(n);
    let mut i: usize = 0;
    while i < n
        invariant
            i <= n <= bytes.len(),
            out@ == bytes@.take(i as int),
        decreases n - i,
    {
        out.push(bytes[i]);
        i = i + 1;
        assert(out@ =~= bytes@.take(i as int));
    }
    out
}

/// The limits a plan decodes under: the configured ones when the image is
/// kept at full size within them, the hard ones otherwise.
pub open spec fn decode_limits_for(w: u32, h: u32, image_limits: ImageLimits, policy: ImageLoadPolicy) -> ImageLimits {
    let cfg = sanitized_limits(image_limits);
    match policy {
        ImageLoadPolicy::IgnoreConfigWithHardCap => hard_limits_spec(),
        ImageLoadPolicy::AutoscaleToConfig => if exceeds_spec(metrics_of(w, h), cfg) {
            hard_limits_spec()
        } else {
            cfg
        },
        ImageLoadPolicy::AskUser => cfg,
    }
}

/// What loading clipboard pixels gives: errors for sizes that do not fit the
/// types or the data, then what the plan says; at full size the pixels are
/// the first `4 * width * height` bytes as they came.
pub open spec fn clipboard_load_ok(
    image_limits: ImageLimits,
    width: usize,
    height: usize,
    rgba: Seq<u8>,
    policy: ImageLoadPolicy,
    r: Result<ImageLoadOutcome, LoadError>,
) -> bool {
    if width > u32::MAX {
        r == Err::<ImageLoadOutcome, LoadError>(LoadError::ClipboardWidthTooLarge)
    } else if height > u32::MAX {
        r == Err::<ImageLoadOutcome, LoadError>(LoadError::ClipboardHeightTooLarge)
    } else if width == 0 || height == 0 {
        r == Err::<ImageLoadOutcome, LoadError>(LoadError::Limit(LimitError::ZeroDimensions))
    } else if width * height * 4 > u64::MAX {
        r == Err::<ImageLoadOutcome, LoadError>(LoadError::Limit(LimitError::FootprintTooLarge))
    } else if width * height * 4 > usize::MAX {
        r == Err::<ImageLoadOutcome, LoadError>(LoadError::ClipboardTooLarge)
    } else if rgba.len() < width * height * 4 {
        r == Err::<ImageLoadOutcome, LoadError>(LoadError::ClipboardTruncated)
    } else {
        let w = width as u32;
        let h = height as u32;
        match r {
            Err(LoadError::Limit(e)) => load_plan_ok(w, h, image_limits, policy, Err(e)),
            Err(_) => false,
            Ok(ImageLoadOutcome::NeedsLimitDecision(info)) => load_plan_ok(
                w,
                h,
                image_limits,
                policy,
                Ok(LoadPlan::Ask(info)),
            ),
            Ok(ImageLoadOutcome::Ready(img)) => {
                &&& img.wf()
                &&& !img.premultiplied
                &&& img.size[0] <= u32::MAX && img.size[1] <= u32::MAX
                &&& load_plan_ok(
                    w,
                    h,
                    image_limits,
                    policy,
                    Ok(
                        (LoadPlan::Decode {
                            limits: decode_limits_for(w, h, image_limits, policy),
                            target: [img.size[0] as u32, img.size[1] as u32],
                        }),
                    ),
                )
                &&& img.size[0] == width && img.size[1] == height ==> img.rgba@ == rgba.take(
                    width * height * 4,
                )
            },
        }
    }
}

/// Loads RGBA pixels pasted from the clipboard under the configured limits
/// and a policy.
pub fn decode_image_from_clipboard_rgba(
    image_limits: &ImageLimits,
    width: usize,
    height: usize,
    rgba: &[u8],
    policy: ImageLoadPolicy,
) -> (r: Result<ImageLoadOutcome, LoadError>)
    ensures
        clipboard_load_ok(*image_limits, width, height, rgba@, policy, r),
{
    if width > u32::MAX as usize {
        return Err(LoadError::ClipboardWidthTooLarge);
    }
    if height > u32::MAX as usize {
        return Err(LoadError::ClipboardHeightTooLarge);
    }
    let w = width as u32;
    let h = height as u32;
    let metrics = match source_metrics(w, h) {
        Ok(m) => m,
        Err(e) => return Err(LoadError::Limit(e)),
    };
    if metrics.rgba_bytes > usize::MAX as u64 {
        return Err(LoadError::ClipboardTooLarge);
    }
    let expected_len = metrics.rgba_bytes as usize;
    assert(4 * (width as int) * (height as int) == (width as int) * (height as int) * 4) by (nonlinear_arith);
    if rgba.len() < expected_len {
        return Err(LoadError::ClipboardTruncated);
    }
    let plan = plan_image_load(w, h, image_limits, policy);
    match plan {
        Err(e) => Err(LoadError::Limit(e)),
        Ok(LoadPlan::Ask(info)) => Ok(ImageLoadOutcome::NeedsLimitDecision(info)),
        Ok(LoadPlan::Decode { limits, target }) => {
            let pixels = prefix(rgba, expected_len);
            if target[0] == w && target[1] == h {
                let img = DecodedImage { size: [width, height], rgba: pixels, premultiplied: false };
                assert(limits == decode_limits_for(w, h, *image_limits, policy));
                return Ok(ImageLoadOutcome::Ready(img));
            }
            proof {
                let cfg = sanitized_limits(*image_limits);
                lemma_autoscale_fits(w as int, h as int, cfg);
                assert(autoscale_size_spec(w as int, h as int, cfg) matches Some((a, b)) && a == target[0]
                    && b == target[1]);
                assert(4 * target[0] as int * target[1] as int <= 4 * w as int * h as int) by (nonlinear_arith)
                    requires
                        target[0] <= w,
                        target[1] <= h,
                ;
            }
            match resize_rgba(w, h, pixels, target[0], target[1]) {
                Some(v) => {
                    let img = DecodedImage {
                        size: [target[0] as usize, target[1] as usize],
                        rgba: v,
                        premultiplied: false,
                    };
                    assert(limits == decode_limits_for(w, h, *image_limits, policy));
                    Ok(ImageLoadOutcome::Ready(img))
                },
                None => Err(LoadError::ClipboardTruncated),
            }
        },
    }
}

// ---------------------------------------------------------------------------
// Choosing between the SVG and the raster decoder.

/// `char::to_ascii_lowercase`.
pub open spec fn ascii_lower_char(c: char) -> char {
    if 'A' <= c && c <= 'Z' {
        ((c as u32) + 32) as char
    } else {
        c
    }
}

/// Whether a file extension names SVG data: "svg" or "svgz", ASCII letters
/// in any case.
pub open spec fn is_svg_extension_spec(ext: Seq<char>) -> bool {
    let lower = ext.map_values(|c: char| ascii_lower_char(c));
    lower == seq!['s', 'v', 'g'] || lower == seq!['s', 'v', 'g', 'z']
}

fn lower_char(c: char) -> (r: char)
    ensures
        r == ascii_lower_char(c),
{
    if 'A' <= c && c <= 'Z' {
        proof {
            assert(((c as u32) + 32) as char == ascii_lower_char(c));
        }
        char_from_ascii((c as u8) + 32)
    } else {
        c
    }
}

fn char_from_ascii(b: u8) -> (r: char)
    requires
        b < 128,
    ensures
        r == b as char,
{
    b as char
}

/// Whether a file extension names SVG data ("svg" or "svgz", in any case).
pub fn is_svg_extension(ext: &str) -> (r: bool)
    ensures
        r == is_svg_extension_spec(ext@),
{
    let mut lower: Vec<char> = Vec::new();
    let ghost s = ext@;
    for ch in it: ext.chars()
        invariant
            s == ext@,
            it.seq() == s,
            it.index() <= s.len(),
            lower@ == s.take(it.index() as int).map_values(|c: char| ascii_lower_char(c)),
    {
        let l = lower_char(ch);
        lower.push(l);
        assert(lower@ =~= s.take(it.index() + 1).map_values(|c: char| ascii_lower_char(c)));
    }
    assert(s.take(s.len() as int) =~= s);
    let n = lower.len();
    let svg = n >= 3 && lower[0] == 's' && lower[1] == 'v' && lower[2] == 'g';
    let r = (n == 3 && svg) || (n == 4 && svg && lower[3] == 'z');
    assert(r == is_svg_extension_spec(ext@)) by {
        if n == 3 && svg {
            assert(lower@ =~= seq!['s', 'v', 'g']);
        }
        if n == 4 && svg && lower[3] == 'z' {
            assert(lower@ =~= seq!['s', 'v', 'g', 'z']);
        }
        if lower@ == seq!['s', 'v', 'g'] {
            assert(lower@[0] == 's');
        }
        if lower@ == seq!['s', 'v', 'g', 'z'] {
            assert(lower@[3] == 'z');
        }
    }
    r
}

/// Whether data should first be tried as SVG: the file extension says so, or
/// the data looks like SVG (see `looks_like_svg`).
pub fn should_try_svg(extension_says_svg: bool, bytes: &[u8]) -> (r: bool)
    ensures
        r == (extension_says_svg || crate::limits::looks_like_svg_spec(bytes@)),
{
    extension_says_svg || crate::limits::looks_like_svg(bytes)
}

/// What follows an attempt to parse data as SVG.
#[derive(Debug, Clone, Copy, PartialEq, Eq, Structural)]
pub enum SvgStep {
    /// The document parsed: render it.
    Render,
    /// The extension promised SVG and parsing failed: report the failure.
    Fail,
    /// The data only looked like SVG: decode it as a raster image instead.
    FallBackToRaster,
}

/// The step after SVG parsing: a parsed document is rendered; a failure is
/// reported when the file's extension named SVG, and otherwise the data is
/// decoded as a raster image.
pub fn svg_parse_step(extension_says_svg: bool, parsed: bool) -> (r: SvgStep)
    ensures
        parsed ==> r == SvgStep::Render,
        !parsed && extension_says_svg ==> r == SvgStep::Fail,
        !parsed && !extension_says_svg ==> r == SvgStep::FallBackToRaster,
{
    if parsed {
        SvgStep::Render
    } else if extension_says_svg {
        SvgStep::Fail
    } else {
        SvgStep::FallBackToRaster
    }
}

/// The message of an SVG file that does not parse.
pub fn svg_failure_message(err: &str) -> (r: String)
    ensures
        r@ == "Failed to parse SVG data: "@ + err@,
{
    let mut s = String::new();
    push_str(&mut s, "Failed to parse SVG data: ");
    push_str(&mut s, err);
    s
}

// ---------------------------------------------------------------------------
// What every plan guarantees.

proof fn lemma_fits_iff_within(w: u32, h: u32, l: ImageLimits)
    requires
        w as int * h as int * 4 <= u64::MAX,
    ensures
        fits_limits(w as int, h as int, l) <== !exceeds_spec(metrics_of(w, h), l),
        fits_limits(w as int, h as int, l) ==> !exceeds_spec(metrics_of(w, h), l),
{
    assert(0 <= w as int * h as int) by (nonlinear_arith);
}

/// A plan to decode never enlarges the image; at full size the image is
/// within the limits it is decoded under; it is scaled only by the
/// autoscaling policy, to a size within the configured limits and the hard
/// limits whose aspect ratio matches the source up to one pixel.
pub proof fn lemma_planned_target_fits(
    width: u32,
    height: u32,
    image_limits: ImageLimits,
    policy: ImageLoadPolicy,
    limits: ImageLimits,
    target: [u32; 2],
)
    requires
        load_plan_ok(width, height, image_limits, policy, Ok((LoadPlan::Decode { limits, target }))),
    ensures
        1 <= target[0] <= width,
        1 <= target[1] <= height,
        limits == sanitized_limits(image_limits) || limits == hard_limits_spec(),
        target[0] == width && target[1] == height ==> !exceeds_spec(metrics_of(width, height), limits),
        target[0] != width || target[1] != height ==> {
            &&& policy == ImageLoadPolicy::AutoscaleToConfig
            &&& fits_limits(target[0] as int, target[1] as int, sanitized_limits(image_limits))
            &&& fits_limits(target[0] as int, target[1] as int, hard_limits_spec())
            &&& consistent(width as int, height as int, target[0] as int, target[1] as int)
        },
{
    let cfg = sanitized_limits(image_limits);
    let m = metrics_of(width, height);
    lemma_fits_iff_within(width, height, cfg);
    lemma_fits_iff_within(width, height, hard_limits_spec());
    if policy == ImageLoadPolicy::AutoscaleToConfig && exceeds_spec(m, cfg) {
        lemma_autoscale_fits(width as int, height as int, cfg);
        let t0 = target[0] as int;
        let t1 = target[1] as int;
        assert(t0 * t1 <= width as int * height as int) by (nonlinear_arith)
            requires
                1 <= t0 <= width,
                1 <= t1 <= height,
        ;
        if t0 == width && t1 == height {
            assert(fits_limits(width as int, height as int, cfg));
        }
    }
}

/// When an image breaks the hard limits, the question put to the user offers
/// neither scaling nor ignoring the configured limits.
pub proof fn lemma_hard_breach_disables_actions(
    width: u32,
    height: u32,
    image_limits: ImageLimits,
    policy: ImageLoadPolicy,
    info: ImageLimitInfo,
)
    requires
        load_plan_ok(width, height, image_limits, policy, Ok(LoadPlan::Ask(info))),
        exceeds_spec(metrics_of(width, height), hard_limits_spec()),
    ensures
        !info.can_autoscale,
        !info.can_ignore_limits,
        policy == ImageLoadPolicy::AskUser,
{
}

} // verus!
