//! # Encoding Quality.

use vstd::prelude::*;
use crate::ImageKind;
use crate::image_kind::max_quality_of;
use vstd::string::StringExecFns;
use crate::l10n::{digit, digit_char};

verus! {

#[derive(Debug, Clone, Copy, PartialEq, Eq, Structural)]
/// # Encoding Quality.
///
/// Qualities are handled internally as values from `1` up to the maximum of
/// each format; this enum couples such a value (or losslessness) with the
/// output format it applies to.
pub enum Quality {
    /// # Lossless.
    Lossless(ImageKind),
    /// # Lossy.
    Lossy(ImageKind, u8),
}

/// # The output format of a quality.
pub open spec fn quality_kind(q: Quality) -> ImageKind {
    match q {
        Quality::Lossless(k) => k,
        Quality::Lossy(k, _) => k,
    }
}

/// # The raw quality value: the format maximum for lossless.
pub open spec fn raw_of(q: Quality) -> u8 {
    match q {
        Quality::Lossless(k) => max_quality_of(k),
        Quality::Lossy(_, v) => v,
    }
}

/// # The quality built from a format and an optional lossy value.
pub open spec fn quality_of(kind: ImageKind, quality: Option<u8>) -> Quality {
    match quality {
        Some(q) => Quality::Lossy(kind, q),
        None => Quality::Lossless(kind),
    }
}

impl Quality {
    /// # New.
    ///
    /// `None` means lossless.
    pub fn new(kind: ImageKind, quality: Option<u8>) -> (r: Quality)
        ensures r == quality_of(kind, quality),
    {
        match quality {
            Some(q) => Self::Lossy(kind, q),
            None => Self::Lossless(kind),
        }
    }

    /// # Is Lossless?
    pub fn is_lossless(self) -> (r: bool)
        ensures r == (self is Lossless),
    {
        matches!(self, Self::Lossless(_))
    }

    /// # Kind.
    ///
    /// The output image format associated with the value.
    pub fn kind(self) -> (r: ImageKind)
        ensures r == quality_kind(self),
    {
        match self {
            Self::Lossless(k) | Self::Lossy(k, _) => k,
        }
    }

    /// # Label.
    ///
    /// The word the encoder uses to signify quality: AVIF calls it
    /// "quantizer", everyone else calls it "quality".
    pub fn label(self) -> (r: &'static str)
        ensures
            r@ == (if quality_kind(self) is Avif { "quantizer"@ } else { "quality"@ }),
    {
        match self.kind() {
            ImageKind::Avif => "quantizer",
            _ => "quality",
        }
    }

    /// # Label (Title Case).
    pub fn label_title(self) -> (r: &'static str)
        ensures
            r@ == (if quality_kind(self) is Avif { "Quantizer"@ } else { "Quality"@ }),
    {
        match self.kind() {
            ImageKind::Avif => "Quantizer",
            _ => "Quality",
        }
    }

    /// # Raw Quality Value.
    ///
    /// The lossy value, or the format's maximum for lossless.
    pub fn raw(self) -> (r: u8)
        ensures r == raw_of(self),
    {
        match self {
            Self::Lossless(k) => k.max_encoder_quality(),
            Self::Lossy(_, q) => q,
        }
    }
}


/// # The decimal digits of a byte, without leading zeros.
pub open spec fn digits_of(n: u8) -> Seq<char> {
    let v: int = n as int;
    if v >= 100 {
        seq![digit_char(v / 100), digit_char((v / 10) % 10), digit_char(v % 10)]
    } else if v >= 10 {
        seq![digit_char(v / 10), digit_char(v % 10)]
    } else {
        seq![digit_char(v)]
    }
}

/// # The tenths of a byte: its digits with a period before the last one
/// (and a zero before the period when nothing else would be).
pub open spec fn tenths_of(n: u8) -> Seq<char> {
    let d = digits_of(n);
    let a = d.subrange(0, d.len() - 1);
    (if a.len() == 0 { seq!['0'] } else { a }) + seq!['.'] + seq![d.last()]
}

/// # Quality Value (Format-Friendly).
///
/// Format-friendly representations of the different kinds of quality
/// values, in the native scale of each encoder.
#[derive(Debug, Clone, Copy, PartialEq, Eq)]
pub enum QualityValueFmt {
    /// # Nothing.
    Blank,
    /// # Integer.
    ///
    /// This is used by AVIF and WebP, and also serves as a default for kinds
    /// that don't actually support encoding.
    Int(u8),
    /// # Lossless.
    Lossless,
    /// # Float.
    ///
    /// This is used by JPEG XL: the value is in tenths, so for print a
    /// period is sneaked in ahead of the last digit.
    Float(u8),
}

/// # What a quality value formats to.
pub open spec fn fmt_text(v: QualityValueFmt) -> Seq<char> {
    match v {
        QualityValueFmt::Blank => Seq::empty(),
        QualityValueFmt::Int(n) => digits_of(n),
        QualityValueFmt::Lossless => "lossless"@,
        QualityValueFmt::Float(n) => tenths_of(n),
    }
}

/// # The decimal digits of a byte, without leading zeros.
pub fn digits(n: u8) -> (r: String)
    ensures r@ == digits_of(n),
{
    let mut out: String = String::new();
    if n >= 100 {
        out.append(digit((n / 100) as u64));
    }
    if n >= 10 {
        out.append(digit(((n / 10) % 10) as u64));
    }
    out.append(digit((n % 10) as u64));
    assert(out@ =~= digits_of(n));
    out
}

impl QualityValueFmt {
    /// # Is Empty?
    pub fn is_empty(self) -> (r: bool)
        ensures r == (self is Blank),
    {
        matches!(self, Self::Blank)
    }

    /// # Length.
    ///
    /// The length of the printed value.
    pub fn len(self) -> (r: usize)
        ensures r == fmt_text(self).len(),
    {
        proof { reveal_strlit("lossless"); }
        match self {
            Self::Blank => 0,
            Self::Int(n) => if n >= 100 { 3 } else if n >= 10 { 2 } else { 1 },
            Self::Lossless => 8,
            // Add a zero and a period, or just a period.
            Self::Float(n) => if n >= 100 { 4 } else { 3 },
        }
    }

    /// # As String.
    ///
    /// Return a value suitable for print.
    pub fn as_str(&self) -> (r: String)
        ensures r@ == fmt_text(*self),
    {
        match self {
            Self::Blank => String::new(),
            Self::Int(n) => digits(*n),
            Self::Lossless => String::from_str("lossless"),
            Self::Float(n) => {
                proof { reveal_strlit("0"); reveal_strlit("."); }
                let mut out: String = String::new();
                if *n >= 100 {
                    out.append(digit((*n / 100) as u64));
                    out.append(digit(((*n / 10) % 10) as u64));
                } else if *n >= 10 {
                    out.append(digit((*n / 10) as u64));
                } else {
                    out.append("0");
                }
                out.append(".");
                out.append(digit((*n % 10) as u64));
                assert(out@ =~= tenths_of(*n));
                out
            },
        }
    }
}

/// # The quality value in the native scale of its encoder.
///
/// AVIF and JPEG XL count backwards (from 63 and, in tenths, from 150).
pub open spec fn quality_fmt_of(q: Quality) -> QualityValueFmt {
    match q {
        Quality::Lossless(_) => QualityValueFmt::Lossless,
        Quality::Lossy(k, v) => match k {
            ImageKind::Avif => QualityValueFmt::Int((63 - v) as u8),
            ImageKind::Jxl => QualityValueFmt::Float((150 - v) as u8),
            _ => QualityValueFmt::Int(v),
        },
    }
}

impl Quality {
    /// # Normalized Quality Value (Pre-Formatted).
    ///
    /// The quality value in the native format of the encoder: AVIF's
    /// quantizer runs backwards from 63, and JPEG XL's distance backwards
    /// from 150, in tenths.
    pub fn quality_fmt(self) -> (r: QualityValueFmt)
        requires
            self matches Quality::Lossy(ImageKind::Avif, v) ==> v <= 63,
            self matches Quality::Lossy(ImageKind::Jxl, v) ==> v <= 150,
        ensures r == quality_fmt_of(self),
    {
        match self {
            Self::Lossless(_) => QualityValueFmt::Lossless,
            Self::Lossy(k, q) => match k {
                ImageKind::Avif => QualityValueFmt::Int(63 - q),
                ImageKind::Jxl => QualityValueFmt::Float(150 - q),
                _ => QualityValueFmt::Int(q),
            },
        }
    }
}

} // verus!
