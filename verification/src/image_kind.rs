//! # Image Kind.

use vstd::prelude::*;
use crate::RefractError;

verus! {

#[derive(Debug, Clone, Copy, PartialEq, Eq, Structural)]
/// # Image Kind.
pub enum ImageKind {
    /// # AVIF.
    Avif,
    /// # JPEG.
    Jpeg,
    /// # JPEG XL.
    Jxl,
    /// # PNG.
    Png,
    /// # WebP.
    Webp,
    /// # Invalid.
    Invalid,
}

/// # PNG signature.
pub open spec fn is_png(s: Seq<u8>) -> bool {
    s[0] == 0x89u8 && s[1] == 0x50u8 && s[2] == 0x4Eu8 && s[3] == 0x47u8
    && s[4] == 0x0Du8 && s[5] == 0x0Au8 && s[6] == 0x1Au8 && s[7] == 0x0Au8
}

/// # WebP signature: `RIFF` then `WEBP` at offset eight.
pub open spec fn is_webp(s: Seq<u8>) -> bool {
    s[0] == 0x52u8 && s[1] == 0x49u8 && s[2] == 0x46u8 && s[3] == 0x46u8
    && s[8] == 0x57u8 && s[9] == 0x45u8 && s[10] == 0x42u8 && s[11] == 0x50u8
}

/// # AVIF signature: `ftyp` then one of `avif`, `MA1B`, `MA1A`.
pub open spec fn is_avif(s: Seq<u8>) -> bool {
    s[4] == 0x66u8 && s[5] == 0x74u8 && s[6] == 0x79u8 && s[7] == 0x70u8
    && (
        (s[8] == 0x61u8 && s[9] == 0x76u8 && s[10] == 0x69u8 && s[11] == 0x66u8)
        || (s[8] == 0x4Du8 && s[9] == 0x41u8 && s[10] == 0x31u8 && s[11] == 0x42u8)
        || (s[8] == 0x4Du8 && s[9] == 0x41u8 && s[10] == 0x31u8 && s[11] == 0x41u8)
    )
}

/// # JPEG XL signature: a bare codestream or the container box.
pub open spec fn is_jxl(s: Seq<u8>) -> bool {
    (s[0] == 0xFFu8 && s[1] == 0x0Au8)
    || (
        s[0] == 0x00u8 && s[1] == 0x00u8 && s[2] == 0x00u8 && s[3] == 0x0Cu8
        && s[4] == 0x4Au8 && s[5] == 0x58u8 && s[6] == 0x4Cu8 && s[7] == 0x20u8
        && s[8] == 0x0Du8 && s[9] == 0x0Au8 && s[10] == 0x87u8 && s[11] == 0x0Au8
    )
}

/// # JPEG signature: SOI, EOI, and one of the usual segment openings.
pub open spec fn is_jpeg(s: Seq<u8>) -> bool {
    s[0] == 0xFFu8 && s[1] == 0xD8u8 && s[2] == 0xFFu8
    && s[s.len() - 2] == 0xFFu8 && s[s.len() - 1] == 0xD9u8
    && (
        s[3] == 0xDBu8
        || s[3] == 0xEEu8
        || (
            s[3] == 0xE0u8 && s[4] == 0x00u8 && s[5] == 0x10u8 && s[6] == 0x4Au8
            && s[7] == 0x46u8 && s[8] == 0x49u8 && s[9] == 0x46u8 && s[10] == 0x00u8
            && s[11] == 0x01u8
        )
        || (
            s[3] == 0xE1u8 && s[6] == 0x45u8 && s[7] == 0x78u8 && s[8] == 0x69u8
            && s[9] == 0x66u8 && s[10] == 0x00u8 && s[11] == 0x00u8
        )
    )
}

/// # The kind of image a raw file is, judged by its magic headers.
///
/// At least thirteen bytes are needed; the checks run in the order PNG,
/// WebP, AVIF, JPEG XL, JPEG.
pub open spec fn magic_kind(s: Seq<u8>) -> Option<ImageKind> {
    if s.len() > 12 {
        if is_png(s) { Some(ImageKind::Png) }
        else if is_webp(s) { Some(ImageKind::Webp) }
        else if is_avif(s) { Some(ImageKind::Avif) }
        else if is_jxl(s) { Some(ImageKind::Jxl) }
        else if is_jpeg(s) { Some(ImageKind::Jpeg) }
        else { None }
    }
    else { None }
}

/// # JPEG signatures.
///
/// A file of more than twelve bytes that opens with the JPEG start-of-image
/// marker `FF D8 FF` followed by a JFIF (`E0 00 10 "JFIF" 00 01`) or an
/// EXIF (`E1 ?? ?? "Exif" 00 00`) application segment, and closes with the
/// end-of-image marker `FF D9`, is a JPEG; so is one that opens with a
/// quantization table (`FF D8 FF DB`) or an Adobe segment (`FF D8 FF EE`),
/// unless bytes four to eleven carry an AVIF `ftyp` box. Nothing of twelve
/// bytes or fewer is identified, and nothing that does not close with
/// `FF D9` is a JPEG.
pub proof fn lemma_jpeg_signatures(s: Seq<u8>)
    ensures
        (s.len() > 12 && s[0] == 0xFFu8 && s[1] == 0xD8u8 && s[2] == 0xFFu8
            && s[3] == 0xE1u8 && s[6] == 0x45u8 && s[7] == 0x78u8 && s[8] == 0x69u8
            && s[9] == 0x66u8 && s[10] == 0x00u8 && s[11] == 0x00u8
            && s[s.len() - 2] == 0xFFu8 && s[s.len() - 1] == 0xD9u8)
            ==> magic_kind(s) == Some(ImageKind::Jpeg),
        (s.len() > 12 && s[0] == 0xFFu8 && s[1] == 0xD8u8 && s[2] == 0xFFu8
            && s[3] == 0xE0u8 && s[4] == 0x00u8 && s[5] == 0x10u8 && s[6] == 0x4Au8
            && s[7] == 0x46u8 && s[8] == 0x49u8 && s[9] == 0x46u8 && s[10] == 0x00u8
            && s[11] == 0x01u8
            && s[s.len() - 2] == 0xFFu8 && s[s.len() - 1] == 0xD9u8)
            ==> magic_kind(s) == Some(ImageKind::Jpeg),
        (s.len() > 12 && s[0] == 0xFFu8 && s[1] == 0xD8u8 && s[2] == 0xFFu8
            && (s[3] == 0xDBu8 || s[3] == 0xEEu8)
            && !(s[4] == 0x66u8 && s[5] == 0x74u8 && s[6] == 0x79u8 && s[7] == 0x70u8)
            && s[s.len() - 2] == 0xFFu8 && s[s.len() - 1] == 0xD9u8)
            ==> magic_kind(s) == Some(ImageKind::Jpeg),
        s.len() <= 12 ==> magic_kind(s) is None,
        (magic_kind(s) == Some(ImageKind::Jpeg))
            ==> s[0] == 0xFFu8 && s[1] == 0xD8u8 && s[2] == 0xFFu8
                && s[s.len() - 2] == 0xFFu8 && s[s.len() - 1] == 0xD9u8,
{}

/// # Formats that can be decoded: every real one.
pub open spec fn decodable(k: ImageKind) -> bool { !(k is Invalid) }

/// # Formats this library can encode.
pub open spec fn encodable(k: ImageKind) -> bool { k is Avif || k is Jxl || k is Webp }

/// # Largest encoder quality of a format.
pub open spec fn max_quality_of(k: ImageKind) -> u8 {
    match k {
        ImageKind::Avif => 63u8,
        ImageKind::Jxl => 150u8,
        _ => 100u8,
    }
}

impl ImageKind {
    /// # From Raw Bytes.
    ///
    /// This examines the headers of the raw image file to see what magic they
    /// contain.
    ///
    /// ## Errors
    ///
    /// `RefractError::Image` is returned if the source is too short or of an
    /// unknown format.
    pub fn try_from(src: &[u8]) -> (r: Result<ImageKind, RefractError>)
        ensures
            r matches Ok(k) ==> magic_kind(src@) == Some(k),
            r matches Err(e) ==> magic_kind(src@) is None && e == RefractError::Image,
    {
        let n: usize = src.len();
        if n > 12 {
            if src[0] == 0x89 && src[1] == 0x50 && src[2] == 0x4E && src[3] == 0x47
                && src[4] == 0x0D && src[5] == 0x0A && src[6] == 0x1A && src[7] == 0x0A
            {
                return Ok(Self::Png);
            }

            if src[0] == 0x52 && src[1] == 0x49 && src[2] == 0x46 && src[3] == 0x46
                && src[8] == 0x57 && src[9] == 0x45 && src[10] == 0x42 && src[11] == 0x50
            {
                return Ok(Self::Webp);
            }

            if src[4] == 0x66 && src[5] == 0x74 && src[6] == 0x79 && src[7] == 0x70
                && (
                    (src[8] == 0x61 && src[9] == 0x76 && src[10] == 0x69 && src[11] == 0x66)
                    || (src[8] == 0x4D && src[9] == 0x41 && src[10] == 0x31 && src[11] == 0x42)
                    || (src[8] == 0x4D && src[9] == 0x41 && src[10] == 0x31 && src[11] == 0x41)
                )
            {
                return Ok(Self::Avif);
            }

            if (src[0] == 0xFF && src[1] == 0x0A)
                || (
                    src[0] == 0x00 && src[1] == 0x00 && src[2] == 0x00 && src[3] == 0x0C
                    && src[4] == 0x4A && src[5] == 0x58 && src[6] == 0x4C && src[7] == 0x20
                    && src[8] == 0x0D && src[9] == 0x0A && src[10] == 0x87 && src[11] == 0x0A
                )
            {
                return Ok(Self::Jxl);
            }

            if src[0] == 0xFF && src[1] == 0xD8 && src[2] == 0xFF
                && src[n - 2] == 0xFF && src[n - 1] == 0xD9
                && (
                    src[3] == 0xDB
                    || src[3] == 0xEE
                    || (
                        src[3] == 0xE0 && src[4] == 0x00 && src[5] == 0x10 && src[6] == 0x4A
                        && src[7] == 0x46 && src[8] == 0x49 && src[9] == 0x46 && src[10] == 0x00
                        && src[11] == 0x01
                    )
                    || (
                        src[3] == 0xE1 && src[6] == 0x45 && src[7] == 0x78 && src[8] == 0x69
                        && src[9] == 0x66 && src[10] == 0x00 && src[11] == 0x00
                    )
                )
            {
                return Ok(Self::Jpeg);
            }
        }

        Err(RefractError::Image)
    }

    /// # Can Decode?
    ///
    /// Returns `true` for every real image format. JPEG and PNG are decoded
    /// by [`ImageKind::decode`]; AVIF, JPEG XL and WebP by their own
    /// decoders (reached through FFI), whose pixels go through
    /// `decode::finish_rgba` and `Input::from_foreign`.
    pub fn can_decode(self) -> (r: bool)
        ensures r == decodable(self),
    {
        !matches!(self, Self::Invalid)
    }

    /// # Can Encode?
    ///
    /// Returns `true` if encoding is supported for this image type.
    pub fn can_encode(self) -> (r: bool)
        ensures r == encodable(self),
    {
        matches!(self, Self::Avif | Self::Jxl | Self::Webp)
    }

    /// # As String Slice.
    pub fn as_str(self) -> (r: &'static str)
        ensures
            r@ == (match self {
                ImageKind::Avif => "AVIF"@,
                ImageKind::Jpeg => "JPEG"@,
                ImageKind::Jxl => "JPEG XL"@,
                ImageKind::Png => "PNG"@,
                ImageKind::Webp => "WebP"@,
                ImageKind::Invalid => "???"@,
            }),
    {
        match self {
            Self::Avif => "AVIF",
            Self::Jpeg => "JPEG",
            Self::Jxl => "JPEG XL",
            Self::Png => "PNG",
            Self::Webp => "WebP",
            Self::Invalid => "???",
        }
    }

    /// # Is Empty?
    ///
    /// Image kinds are never empty.
    pub fn is_empty(self) -> (r: bool)
        ensures !r,
    {
        false
    }

    /// # Length (of the name returned by `as_str`).
    pub fn len(self) -> (r: usize)
        ensures
            r == (match self {
                ImageKind::Avif | ImageKind::Jpeg | ImageKind::Webp => 4usize,
                ImageKind::Jxl => 7usize,
                ImageKind::Png | ImageKind::Invalid => 3usize,
            }),
    {
        match self {
            Self::Avif | Self::Jpeg | Self::Webp => 4,
            Self::Jxl => 7,
            Self::Png | Self::Invalid => 3,
        }
    }

    /// # File Extension.
    pub fn extension(self) -> (r: &'static str)
        ensures
            r@ == (match self {
                ImageKind::Avif => "avif"@,
                ImageKind::Jpeg => "jpg"@,
                ImageKind::Jxl => "jxl"@,
                ImageKind::Png => "png"@,
                ImageKind::Webp => "webp"@,
                ImageKind::Invalid => "xxx"@,
            }),
    {
        match self {
            Self::Avif => "avif",
            Self::Jpeg => "jpg",
            Self::Jxl => "jxl",
            Self::Png => "png",
            Self::Webp => "webp",
            Self::Invalid => "xxx",
        }
    }

    /// # Media Type.
    pub fn mime(self) -> (r: &'static str)
        ensures
            r@ == (match self {
                ImageKind::Avif => "image/avif"@,
                ImageKind::Jpeg => "image/jpeg"@,
                ImageKind::Jxl => "image/jxl"@,
                ImageKind::Png => "image/png"@,
                ImageKind::Webp => "image/webp"@,
                ImageKind::Invalid => "application/octet-stream"@,
            }),
    {
        match self {
            Self::Avif => "image/avif",
            Self::Jpeg => "image/jpeg",
            Self::Jxl => "image/jxl",
            Self::Png => "image/png",
            Self::Webp => "image/webp",
            Self::Invalid => "application/octet-stream",
        }
    }

    /// # Encoding Minimum Quality.
    ///
    /// This is always `1`.
    pub fn min_encoder_quality(self) -> (r: u8)
        ensures r == 1,
    {
        1
    }

    /// # Encoding Maximum Quality.
    ///
    /// `63` for AVIF, `150` for JPEG XL, and `100` for everything else.
    pub fn max_encoder_quality(self) -> (r: u8)
        ensures r == max_quality_of(self),
    {
        match self {
            Self::Avif => 63,
            Self::Jxl => 150,
            _ => 100,
        }
    }
}

} // verus!
