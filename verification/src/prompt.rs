//! The question put to the user when an image breaks the configured limits:
//! its lines of text and what the answer leads to.

use vstd::prelude::*;
use crate::config::ImageLimits;
use crate::i18n::UiLanguage;
use crate::limits::{ImageLimitInfo, ImageLoadPolicy};
use crate::meta::{human_readable_bytes, human_readable_bytes_spec};
use crate::text::{decimal, digit_char, push_char, push_decimal, push_str};

verus! {

fn digit(d: u64) -> (c: char)
    requires
        d < 10,
    ensures
        c == digit_char(d as int),
{
    match d {
        0 => '0',
        1 => '1',
        2 => '2',
        3 => '3',
        4 => '4',
        5 => '5',
        6 => '6',
        7 => '7',
        8 => '8',
        _ => '9',
    }
}

/// Megapixels with two decimals, truncated: `12.34` for 12 345 678 pixels.
pub open spec fn megapixels_text(pixels: nat) -> Seq<char> {
    let frac = (pixels % 1_000_000) / 10_000;
    decimal(pixels / 1_000_000) + seq!['.', digit_char((frac / 10) as int), digit_char((frac % 10) as int)]
}

pub open spec fn source_line_spec(lang: UiLanguage, title: Seq<char>, label: Seq<char>, info: ImageLimitInfo) -> Seq<char> {
    title + ": "@ + label + " — "@ + decimal(info.source_width as nat) + "x"@
        + decimal(info.source_height as nat) + " px (~"@ + megapixels_text(info.source_total_pixels as nat)
        + match lang {
        UiLanguage::En => " MP, "@,
        UiLanguage::Ru => " МП, "@,
    } + human_readable_bytes_spec(info.source_rgba_bytes) + ")"@
}

/// The source line of the question under the caption `title`:
/// "Source image: name — 4000x2000 px (~8.00 MP, 30.52 MiB)".
pub fn format_source_line(lang: UiLanguage, title: &str, source_label: &str, info: &ImageLimitInfo) -> (r: String)
    ensures
        r@ == source_line_spec(lang, title@, source_label@, *info),
{
    let mut s = String::new();
    push_str(&mut s, title);
    push_str(&mut s, ": ");
    push_str(&mut s, source_label);
    push_str(&mut s, " — ");
    push_decimal(&mut s, info.source_width as u64);
    push_str(&mut s, "x");
    push_decimal(&mut s, info.source_height as u64);
    push_str(&mut s, " px (~");
    let pixels = info.source_total_pixels;
    let frac = (pixels % 1_000_000) / 10_000;
    push_decimal(&mut s, pixels / 1_000_000);
    push_char(&mut s, '.');
    push_char(&mut s, digit(frac / 10));
    push_char(&mut s, digit(frac % 10));
    match lang {
        UiLanguage::En => push_str(&mut s, " MP, "),
        UiLanguage::Ru => push_str(&mut s, " МП, "),
    }
    let bytes = human_readable_bytes(info.source_rgba_bytes);
    push_str(&mut s, bytes.as_str());
    push_str(&mut s, ")");
    s
}

pub open spec fn limits_line_spec(lang: UiLanguage, title: Seq<char>, limits: ImageLimits) -> Seq<char> {
    title + match lang {
        UiLanguage::En => ": side <= "@,
        UiLanguage::Ru => ": сторона <= "@,
    } + decimal(limits.image_dim as nat) + match lang {
        UiLanguage::En => " px, pixels <= "@,
        UiLanguage::Ru => " px, пиксели <= "@,
    } + decimal(limits.total_pixels as nat / 1_000_000) + match lang {
        UiLanguage::En => " MP, RGBA <= "@,
        UiLanguage::Ru => " МП, RGBA <= "@,
    } + human_readable_bytes_spec(limits.alloc_bytes)
}

/// A line describing limits under the caption `title`:
/// "Configured limits: side <= 12000 px, pixels <= 80 MP, RGBA <= 512.00 MiB".
pub fn format_limits_line(lang: UiLanguage, title: &str, limits: &ImageLimits) -> (r: String)
    ensures
        r@ == limits_line_spec(lang, title@, *limits),
{
    let en = match lang {
        UiLanguage::En => true,
        UiLanguage::Ru => false,
    };
    let mut s = String::new();
    push_str(&mut s, title);
    push_str(&mut s, if en { ": side <= " } else { ": сторона <= " });
    push_decimal(&mut s, limits.image_dim as u64);
    push_str(&mut s, if en { " px, pixels <= " } else { " px, пиксели <= " });
    push_decimal(&mut s, limits.total_pixels / 1_000_000);
    push_str(&mut s, if en { " MP, RGBA <= " } else { " МП, RGBA <= " });
    let bytes = human_readable_bytes(limits.alloc_bytes);
    push_str(&mut s, bytes.as_str());
    s
}

pub open spec fn autoscale_line_spec(title: Seq<char>, info: ImageLimitInfo) -> Seq<char> {
    title + ": "@ + match (info.autoscale_width, info.autoscale_height) {
        (Some(w), Some(h)) => decimal(w as nat) + "x"@ + decimal(h as nat) + " px"@,
        _ => "-"@,
    }
}

/// The offered size under the caption `title`: "Suggested autoscale:
/// 1000x500 px", or "-" when none is offered.
pub fn format_autoscale_line(title: &str, info: &ImageLimitInfo) -> (r: String)
    ensures
        r@ == autoscale_line_spec(title@, *info),
{
    let mut s = String::new();
    push_str(&mut s, title);
    push_str(&mut s, ": ");
    match info.autoscale_size() {
        Some(size) => {
            push_decimal(&mut s, size[0] as u64);
            push_str(&mut s, "x");
            push_decimal(&mut s, size[1] as u64);
            push_str(&mut s, " px");
        },
        None => push_str(&mut s, "-"),
    }
    s
}

/// What the answer to the limits question leads to.
#[derive(Debug, Clone, Copy, PartialEq, Eq, Structural)]
pub enum PromptResolution {
    /// Load again under the chosen policy.
    Retry(ImageLoadPolicy),
    /// Give the image up.
    Reject,
    /// No answer yet.
    Pending,
}

/// A chosen policy wins; otherwise rejecting, or closing the window, gives
/// the image up. A policy whose action the question does not offer cannot be
/// chosen.
pub fn resolve_limit_prompt(
    info: &ImageLimitInfo,
    window_open: bool,
    reject_clicked: bool,
    autoscale_clicked: bool,
    ignore_clicked: bool,
) -> (r: PromptResolution)
    ensures
        r == if autoscale_clicked && info.can_autoscale {
            PromptResolution::Retry(ImageLoadPolicy::AutoscaleToConfig)
        } else if ignore_clicked && info.can_ignore_limits {
            PromptResolution::Retry(ImageLoadPolicy::IgnoreConfigWithHardCap)
        } else if reject_clicked || !window_open {
            PromptResolution::Reject
        } else {
            PromptResolution::Pending
        },
{
    if autoscale_clicked && info.can_autoscale {
        PromptResolution::Retry(ImageLoadPolicy::AutoscaleToConfig)
    } else if ignore_clicked && info.can_ignore_limits {
        PromptResolution::Retry(ImageLoadPolicy::IgnoreConfigWithHardCap)
    } else if reject_clicked || !window_open {
        PromptResolution::Reject
    } else {
        PromptResolution::Pending
    }
}

/// Whether the question notes that some action is unavailable.
pub fn shows_action_unavailable(info: &ImageLimitInfo) -> (r: bool)
    ensures
        r == (!info.can_autoscale || !info.can_ignore_limits),
{
    !info.can_autoscale || !info.can_ignore_limits
}

} // verus!
