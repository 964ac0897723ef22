//! # Decoding.
//!
//! Raw JPEG and PNG files are decoded into contiguous RGBA buffers, four
//! bytes per pixel, whatever their native layout. The decoding itself is
//! done by `jpeg-decoder` and `lodepng`; everything around it — the choice
//! of decoder, upscaling, size checks, color detection and the alpha
//! clean-up — is done here.

use vstd::prelude::*;
use crate::{ColorKind, ImageKind, RefractError};
use crate::alpha::{clean_alpha, clean_alpha_spec, keeps_alpha_and_opaque, lemma_clean_alpha_keeps};
use crate::color::{any_alpha, any_color, color_of, px_has_alpha, px_is_color};
use crate::image_kind::magic_kind;
use crate::Input;
use crate::input::{decoded_input, input_result_view, rgba_of, upsample, InputView};

verus! {

/// # Pixel Layouts of Decoded JPEGs.
#[derive(Debug, Clone, Copy, PartialEq, Eq)]
pub enum JpegFormat {
    /// # Greyscale, 8 bits.
    L8,
    /// # Greyscale, 16 bits.
    L16,
    /// # RGB, 8 bits per channel.
    Rgb24,
    /// # CMYK, 8 bits per channel.
    Cmyk32,
}

/// # What a decoder hands back: pixels, width, height, color.
pub type Decoded = (Vec<u8>, usize, usize, ColorKind);

/// # The view of a decoder's answer.
pub open spec fn decoded_view(r: Result<Decoded, RefractError>)
    -> Result<(Seq<u8>, usize, usize, ColorKind), RefractError>
{
    match r {
        Ok((buf, w, h, c)) => Ok((buf@, w, h, c)),
        Err(e) => Err(e),
    }
}

/// # `lodepng::Error`, the error `lodepng` decoding returns; only carried
/// through (nothing is known of its contents).
#[verifier::external_type_specification]
#[verifier::external_body]
pub struct ExLodepngError(lodepng::Error);

/// # `jpeg_decoder::Error`, the error `jpeg-decoder` decoding returns; only
/// carried through (nothing is known of its contents).
#[verifier::external_type_specification]
#[verifier::external_body]
pub struct ExJpegError(jpeg_decoder::Error);

/// # The RGBA bytes, width and height `lodepng` decodes from a PNG file,
/// or nothing where it refuses the file.
pub uninterp spec fn png_decoded(raw: Seq<u8>) -> Option<(Seq<u8>, usize, usize)>;

/// # The samples `jpeg-decoder` decodes from a JPEG file and what its
/// decoder then reports of the frame (width, height, pixel layout), or
/// nothing where it refuses the file.
pub uninterp spec fn jpeg_decoded(raw: Seq<u8>) -> Option<(Seq<u8>, Option<(u16, u16, JpegFormat)>)>;

/// # PNG Decoding (`lodepng::decode32`).
///
/// `decode32` decodes a PNG file to 8-bit RGBA pixels, row by row, and
/// gives its width and height; the pixels are handed on as raw bytes (the
/// `rgb` crate's `as_bytes`, red first). The contract claims only that the
/// result depends on the file's bytes alone (it is [`png_decoded`] of them):
/// nothing is claimed of the buffer's size or contents.
#[verifier::external_body]
fn lodepng_decode32(raw: &[u8]) -> (r: Result<(Vec<u8>, usize, usize), lodepng::Error>)
    ensures
        match r {
            Ok((buf, w, h)) => png_decoded(raw@) == Some((buf@, w, h)),
            Err(_) => png_decoded(raw@) is None,
        },
{
    match lodepng::decode32(raw) {
        Ok(bmp) => Ok((rgb::ComponentBytes::as_bytes(bmp.buffer.as_slice()).to_vec(), bmp.width, bmp.height)),
        Err(e) => Err(e),
    }
}

/// # JPEG Decoding (`jpeg_decoder::Decoder`).
///
/// A decoder is made over the file's bytes, `decode` reads the image into
/// interleaved samples, and `info` then reports the frame's width, height
/// and pixel format (which this function passes on variant for variant).
/// The contract claims only that the result depends on the file's bytes
/// alone (it is [`jpeg_decoded`] of them): nothing is claimed of the
/// samples, nor that the frame is reported.
#[verifier::external_body]
fn jpeg_decode(raw: &[u8]) -> (r: Result<(Vec<u8>, Option<(u16, u16, JpegFormat)>), jpeg_decoder::Error>)
    ensures
        match r {
            Ok((px, info)) => jpeg_decoded(raw@) == Some((px@, info)),
            Err(_) => jpeg_decoded(raw@) is None,
        },
{
    let mut dec = jpeg_decoder::Decoder::new(raw);
    let px = dec.decode()?;
    let info = match dec.info() {
        Some(i) => Some((i.width, i.height, match i.pixel_format {
            jpeg_decoder::PixelFormat::L8 => JpegFormat::L8,
            jpeg_decoder::PixelFormat::L16 => JpegFormat::L16,
            jpeg_decoder::PixelFormat::RGB24 => JpegFormat::Rgb24,
            jpeg_decoder::PixelFormat::CMYK32 => JpegFormat::Cmyk32,
        })),
        None => None,
    };
    Ok((px, info))
}

/// # Does a color kind carry alpha?
pub open spec fn alpha_kind(c: ColorKind) -> bool {
    c is GreyAlpha || c is Rgba
}

/// # What a PNG decodes to, given `lodepng`'s pixels and dimensions.
///
/// Dimensions whose buffer size overflows are refused, as is a buffer of
/// the wrong size. Images with alpha are cleaned up.
pub open spec fn png_result(buf: Seq<u8>, w: usize, h: usize)
    -> Result<(Seq<u8>, usize, usize, ColorKind), RefractError>
{
    if (w as int) * (h as int) * 4 > usize::MAX {
        Err(RefractError::Overflow)
    } else if buf.len() != (w as int) * (h as int) * 4 {
        Err(RefractError::Decode)
    } else {
        let color = color_of(buf);
        Ok((if alpha_kind(color) { clean_alpha_spec(buf, w as int, h as int) } else { buf }, w, h, color))
    }
}

/// # What a JPEG decodes to, given `jpeg-decoder`'s samples and frame.
///
/// Greyscale and RGB samples are upscaled to RGBA; other layouts are
/// refused, as is an upscaled buffer of the wrong size.
pub open spec fn jpeg_result(px: Seq<u8>, info: Option<(u16, u16, JpegFormat)>)
    -> Result<(Seq<u8>, usize, usize, ColorKind), RefractError>
{
    match info {
        None => Err(RefractError::Decode),
        Some((w, h, fmt)) => {
            if fmt is L8 || fmt is Rgb24 {
                let out = rgba_of(px, if fmt is L8 { ColorKind::Grey } else { ColorKind::Rgb });
                if out.len() != (w as int) * (h as int) * 4 {
                    Err(RefractError::Overflow)
                } else {
                    Ok((out, w as usize, h as usize, color_of(out)))
                }
            } else {
                Err(RefractError::Color)
            }
        },
    }
}

/// # Finish a PNG.
///
/// Check `lodepng`'s buffer against the dimensions, work out which channels
/// the image uses, and clean up the alpha of images that have it.
///
/// ## Errors
///
/// `Overflow` if the buffer size overflows, `Decode` if the buffer is not
/// exactly `width * height` RGBA pixels.
pub fn finish_png(buf: Vec<u8>, width: usize, height: usize) -> (r: Result<Decoded, RefractError>)
    ensures decoded_view(r) == png_result(buf@, width, height),
{
    let size: usize = match width.checked_mul(height) {
        Some(n) => match n.checked_mul(4) {
            Some(s) => s,
            None => return Err(RefractError::Overflow),
        },
        None => {
            assert((width as int) * (height as int) * 4 > usize::MAX) by (nonlinear_arith)
                requires (width as int) * (height as int) > usize::MAX;
            return Err(RefractError::Overflow);
        },
    };
    if buf.len() != size {
        return Err(RefractError::Decode);
    }

    let mut raw: Vec<u8> = buf;
    let color: ColorKind = ColorKind::from_rgba(raw.as_slice());

    // If we have alpha, let's take a quick detour to clean it up.
    if color.has_alpha() {
        clean_alpha(&mut raw, width, height);
    }

    Ok((raw, width, height, color))
}

/// # Finish a JPEG.
///
/// Upscale `jpeg-decoder`'s greyscale or RGB samples to RGBA, check the
/// result against the frame's dimensions and work out which channels the
/// image uses.
///
/// ## Errors
///
/// `Decode` if no frame was reported, `Color` for 16-bit greyscale or CMYK,
/// and `Overflow` if the upscaled buffer does not match the dimensions.
pub fn finish_jpeg(px: Vec<u8>, info: Option<(u16, u16, JpegFormat)>) -> (r: Result<Decoded, RefractError>)
    ensures decoded_view(r) == jpeg_result(px@, info),
{
    let (w, h, fmt): (u16, u16, JpegFormat) = match info {
        Some(i) => i,
        None => return Err(RefractError::Decode),
    };

    // So many ways to be a JPEG...
    let out: Vec<u8> = match fmt {
        JpegFormat::L8 => upsample(px.as_slice(), ColorKind::Grey),
        JpegFormat::Rgb24 => upsample(px.as_slice(), ColorKind::Rgb),
        _ => return Err(RefractError::Color),
    };

    // One final sanity check to make sure the buffer is sized correctly!
    let width: usize = w as usize;
    let height: usize = h as usize;
    let w64: u64 = w as u64;
    let h64: u64 = h as u64;
    assert(w64 * h64 * 4 <= 65535 * 65535 * 4) by (nonlinear_arith)
        requires w64 <= 65535, h64 <= 65535;
    let expected: u64 = w64 * h64 * 4;
    if out.len() as u64 != expected {
        return Err(RefractError::Overflow);
    }

    let color: ColorKind = ColorKind::from_rgba(out.as_slice());
    Ok((out, width, height, color))
}

/// # Decode a PNG.
///
/// ## Errors
///
/// `Decode` if `lodepng` refuses the file; otherwise as [`finish_png`].
pub fn decode_png(raw: &[u8]) -> (r: Result<Decoded, RefractError>)
    ensures
        decoded_view(r) == match png_decoded(raw@) {
            None => Err(RefractError::Decode),
            Some((buf, w, h)) => png_result(buf, w, h),
        },
{
    match lodepng_decode32(raw) {
        Ok((buf, width, height)) => finish_png(buf, width, height),
        Err(_) => Err(RefractError::Decode),
    }
}

/// # Decode a JPEG.
///
/// ## Errors
///
/// `Decode` if `jpeg-decoder` refuses the file; otherwise as
/// [`finish_jpeg`].
pub fn decode_jpeg(raw: &[u8]) -> (r: Result<Decoded, RefractError>)
    ensures
        decoded_view(r) == match jpeg_decoded(raw@) {
            None => Err(RefractError::Decode),
            Some((px, info)) => jpeg_result(px, info),
        },
{
    match jpeg_decode(raw) {
        Ok((px, info)) => finish_jpeg(px, info),
        Err(_) => Err(RefractError::Decode),
    }
}

/// # What decoding a file of the given kind gives.
pub open spec fn kind_decoded(kind: ImageKind, raw: Seq<u8>)
    -> Result<(Seq<u8>, usize, usize, ColorKind), RefractError>
{
    match kind {
        ImageKind::Jpeg => match jpeg_decoded(raw) {
            None => Err(RefractError::Decode),
            Some((px, info)) => jpeg_result(px, info),
        },
        ImageKind::Png => match png_decoded(raw) {
            None => Err(RefractError::Decode),
            Some((buf, w, h)) => png_result(buf, w, h),
        },
        _ => Err(RefractError::ImageDecode(kind)),
    }
}

impl ImageKind {
    /// # Decode.
    ///
    /// Decode a raw file of this kind into RGBA pixels, with its width,
    /// height and the channels it actually uses.
    ///
    /// ## Errors
    ///
    /// JPEG and PNG sources fail as [`decode_jpeg`] and [`decode_png`] do.
    /// AVIF, JPEG XL and WebP have no decoder here — theirs are reached
    /// through FFI, and their pixels go through [`Input::from_foreign`] —
    /// so this returns `ImageDecode` for them, as for `Invalid`.
    pub fn decode(self, raw: &[u8]) -> (r: Result<Decoded, RefractError>)
        ensures decoded_view(r) == kind_decoded(self, raw@),
    {
        match self {
            Self::Jpeg => decode_jpeg(raw),
            Self::Png => decode_png(raw),
            _ => Err(RefractError::ImageDecode(self)),
        }
    }
}

/// # Decode.
///
/// Decode a raw file source into delicious pixels: a contiguous buffer of
/// four bytes per pixel (greyscale, RGB, etc., are upscaled accordingly),
/// its width and height, the channels it actually uses, and its kind.
///
/// ## Errors
///
/// `Image` if the source is of no known kind; otherwise as
/// [`ImageKind::decode`].
pub fn decode(raw: &[u8]) -> (r: Result<(Vec<u8>, usize, usize, ColorKind, ImageKind), RefractError>)
    ensures
        match magic_kind(raw@) {
            None => r == Err::<(Vec<u8>, usize, usize, ColorKind, ImageKind), RefractError>(RefractError::Image),
            Some(kind) => match (r, kind_decoded(kind, raw@)) {
                (Ok((buf, w, h, c, k)), Ok((sbuf, sw, sh, sc))) =>
                    buf@ == sbuf && w == sw && h == sh && c == sc && k == kind,
                (Err(e), Err(se)) => e == se,
                _ => false,
            },
        },
{
    let kind: ImageKind = ImageKind::try_from(raw)?;
    let (buf, width, height, color) = kind.decode(raw)?;
    Ok((buf, width, height, color, kind))
}


/// # The input a raw file gives, or the error that refuses it.
pub open spec fn input_from_raw(raw: Seq<u8>) -> Result<InputView, RefractError> {
    match magic_kind(raw) {
        None => Err(RefractError::Image),
        Some(kind) => match kind_decoded(kind, raw) {
            Err(e) => Err(e),
            Ok((buf, w, h, c)) => decoded_input(raw.len() as int, kind, buf, w, h, c),
        },
    }
}

impl Input {
    /// # From Raw File.
    ///
    /// Identify the kind of a raw image file, decode it, and keep its RGBA
    /// pixels with what is known of them. At the moment, only JPEG and PNG
    /// sources can be decoded.
    ///
    /// ## Errors
    ///
    /// As [`decode`], then as [`Input::from_decoded`].
    pub fn try_from(src: &[u8]) -> (r: Result<Input, RefractError>)
        ensures
            input_result_view(r) == input_from_raw(src@),
            r matches Ok(i) ==> i.wf(),
    {
        let kind: ImageKind = ImageKind::try_from(src)?;
        let (buf, width, height, color) = kind.decode(src)?;
        Input::from_decoded(src.len(), kind, buf, width, height, color)
    }
}


/// # Does any whole pixel of an RGBA buffer have alpha?
pub open spec fn has_alpha_px(s: Seq<u8>) -> bool {
    any_alpha(s, (s.len() / 4) as int)
}

/// # Buffers with the same alpha bytes agree on alpha.
proof fn lemma_same_alpha(a: Seq<u8>, b: Seq<u8>)
    requires keeps_alpha_and_opaque(a, b),
    ensures has_alpha_px(a) == has_alpha_px(b),
{
    let n: int = (a.len() / 4) as int;
    if has_alpha_px(a) {
        let i = choose|i: int| 0 <= i < n && #[trigger] px_has_alpha(a, i);
        assert((4 * i + 3) % 4 == 3);
        assert(px_has_alpha(b, i));
    }
    if has_alpha_px(b) {
        let i = choose|i: int| 0 <= i < n && #[trigger] px_has_alpha(b, i);
        assert((4 * i + 3) % 4 == 3);
        assert(px_has_alpha(a, i));
    }
}

/// # Decoded images are RGBA.
///
/// Whatever the source, a successful decode gives four bytes per pixel,
/// `width * height` pixels, and a color kind that carries alpha exactly
/// when some pixel is not fully opaque.
pub proof fn lemma_decoded_rgba(kind: ImageKind, raw: Seq<u8>)
    ensures
        kind_decoded(kind, raw) matches Ok((buf, w, h, c)) ==> {
            &&& buf.len() == (w as int) * (h as int) * 4
            &&& alpha_kind(c) == has_alpha_px(buf)
        },
{
    match kind {
        ImageKind::Png => match png_decoded(raw) {
            Some((buf, w, h)) => {
                if png_result(buf, w, h) is Ok && alpha_kind(color_of(buf)) {
                    lemma_clean_alpha_keeps(buf, w as int, h as int);
                    lemma_same_alpha(buf, clean_alpha_spec(buf, w as int, h as int));
                }
            },
            None => {},
        },
        ImageKind::Jpeg => match jpeg_decoded(raw) {
            Some((px, Some((w, h, fmt)))) => {
                if fmt is L8 || fmt is Rgb24 {
                    let out = rgba_of(px, if fmt is L8 { ColorKind::Grey } else { ColorKind::Rgb });
                    let n: int = (out.len() / 4) as int;
                    assert forall|i: int| 0 <= i < n implies !#[trigger] px_has_alpha(out, i) by {
                        assert((4 * i + 3) % 4 == 3);
                        assert((4 * i + 3) / 4 == i);
                    }
                }
            },
            _ => {},
        },
        _ => {},
    }
}


// ---------------------------------------------------------------------------
// Color kinds, pixel by pixel.
// ---------------------------------------------------------------------------

/// # Pixel `i` of an RGBA buffer is grey (red, green and blue agree).
pub open spec fn px_grey(s: Seq<u8>, i: int) -> bool {
    s[4 * i] == s[4 * i + 1] && s[4 * i] == s[4 * i + 2]
}

/// # What the color kind of an RGBA buffer says of its pixels.
///
/// A buffer of whole pixels is of a grey kind exactly when every pixel is
/// grey, and of an alpha kind exactly when some pixel is not fully opaque.
proof fn lemma_color_pixels(s: Seq<u8>)
    requires s.len() % 4 == 0,
    ensures
        (color_of(s) is Grey || color_of(s) is GreyAlpha)
            == (forall|i: int| 0 <= i < s.len() / 4 ==> #[trigger] px_grey(s, i)),
        alpha_kind(color_of(s))
            == (exists|i: int| 0 <= i < s.len() / 4 && #[trigger] s[4 * i + 3] != 255),
{
    let n: int = (s.len() / 4) as int;
    if any_color(s, n) {
        let i = choose|i: int| 0 <= i < n && #[trigger] px_is_color(s, i);
        assert(!px_grey(s, i));
    } else {
        assert forall|i: int| 0 <= i < n implies #[trigger] px_grey(s, i) by {
            assert(!px_is_color(s, i));
        }
    }
    if any_alpha(s, n) {
        let i = choose|i: int| 0 <= i < n && #[trigger] px_has_alpha(s, i);
        assert(s[4 * i + 3] != 255);
    }
    if exists|i: int| 0 <= i < n && #[trigger] s[4 * i + 3] != 255 {
        let i = choose|i: int| 0 <= i < n && #[trigger] s[4 * i + 3] != 255;
        assert(px_has_alpha(s, i));
    }
}

/// # The color kind a decode reports describes the decoded pixels.
///
/// A JPEG comes out opaque; it is reported greyscale exactly when every
/// pixel of the decoded buffer is grey (however it was stored), and RGB
/// otherwise. A PNG is reported of a grey kind exactly when every pixel
/// `lodepng` gave is grey, and of an alpha kind exactly when one of them is
/// not fully opaque.
pub proof fn lemma_decoded_colors(
    px: Seq<u8>,
    info: Option<(u16, u16, JpegFormat)>,
    buf: Seq<u8>,
    w: usize,
    h: usize,
)
    ensures
        jpeg_result(px, info) matches Ok((out, ow, oh, c)) ==> {
            &&& c is Grey || c is Rgb
            &&& (c is Grey) == (forall|i: int| 0 <= i < ow * oh ==> #[trigger] px_grey(out, i))
            &&& forall|i: int| 0 <= i < ow * oh ==> #[trigger] out[4 * i + 3] == 255
        },
        png_result(buf, w, h) matches Ok((out, ow, oh, c)) ==> {
            &&& (c is Grey || c is GreyAlpha) == (forall|i: int| 0 <= i < w * h ==> #[trigger] px_grey(buf, i))
            &&& alpha_kind(c) == (exists|i: int| 0 <= i < w * h && #[trigger] buf[4 * i + 3] != 255)
        },
{
    if let Ok((out, ow, oh, c)) = jpeg_result(px, info) {
        let n: int = ow * oh;
        assert(out.len() == n * 4);
        assert(out.len() / 4 == n);
        lemma_color_pixels(out);
        assert forall|i: int| 0 <= i < n implies #[trigger] out[4 * i + 3] == 255 by {
            assert((4 * i + 3) % 4 == 3);
            assert((4 * i + 3) / 4 == i);
        }
    }
    if png_result(buf, w, h) is Ok {
        assert(buf.len() / 4 == w * h);
        lemma_color_pixels(buf);
    }
}


// ---------------------------------------------------------------------------
// Pixels from other decoders.
// ---------------------------------------------------------------------------

/// # The byte size of a `w` by `h` RGBA buffer, if the dimensions are
/// non-negative and the size fits `usize`.
pub open spec fn rgba_size_spec(w: i64, h: i64) -> Option<int> {
    if w < 0 || h < 0 || (w as int) * (h as int) * 4 > usize::MAX { None }
    else { Some((w as int) * (h as int) * 4) }
}

/// # What an RGBA buffer another decoder produced decodes to.
///
/// Negative or overflowing dimensions are refused, as is a buffer of the
/// wrong size.
pub open spec fn rgba_result(buf: Seq<u8>, w: i64, h: i64)
    -> Result<(Seq<u8>, usize, usize, ColorKind), RefractError>
{
    match rgba_size_spec(w, h) {
        None => Err(RefractError::Overflow),
        Some(n) => if buf.len() != n { Err(RefractError::Decode) }
            else { Ok((buf, w as usize, h as usize, color_of(buf))) },
    }
}

/// # RGBA Buffer Size.
///
/// The number of bytes a `width` by `height` RGBA image takes, as reported
/// by a decoder.
///
/// ## Errors
///
/// `Overflow` if a dimension is negative or the size does not fit `usize`.
pub fn rgba_size(width: i64, height: i64) -> (r: Result<usize, RefractError>)
    ensures
        match rgba_size_spec(width, height) {
            None => r == Err::<usize, RefractError>(RefractError::Overflow),
            Some(n) => r matches Ok(v) && v == n,
        },
{
    if width < 0 || height < 0 {
        return Err(RefractError::Overflow);
    }
    if width == 0 || height == 0 {
        return Ok(0);
    }
    let w64: u64 = width as u64;
    let h64: u64 = height as u64;
    if w64 > usize::MAX as u64 || h64 > usize::MAX as u64 {
        assert((width as int) * (height as int) * 4 > usize::MAX) by (nonlinear_arith)
            requires
                width as int > usize::MAX || height as int > usize::MAX,
                width >= 1, height >= 1;
        return Err(RefractError::Overflow);
    }
    let w: usize = w64 as usize;
    let h: usize = h64 as usize;
    match w.checked_mul(h) {
        Some(n) => match n.checked_mul(4) {
            Some(size) => Ok(size),
            None => Err(RefractError::Overflow),
        },
        None => {
            assert((w as int) * (h as int) * 4 > usize::MAX) by (nonlinear_arith)
                requires (w as int) * (h as int) > usize::MAX;
            Err(RefractError::Overflow)
        },
    }
}


/// # Finish Decoded RGBA.
///
/// Check an RGBA buffer another decoder (such as the AVIF, JPEG XL and WebP
/// decoders, which are reached through FFI) produced against its
/// dimensions, and work out which channels the image uses.
///
/// ## Errors
///
/// As [`rgba_size`], then `Decode` if the buffer is not exactly
/// `width * height` RGBA pixels.
pub fn finish_rgba(buf: Vec<u8>, width: i64, height: i64) -> (r: Result<Decoded, RefractError>)
    ensures decoded_view(r) == rgba_result(buf@, width, height),
{
    let size: usize = rgba_size(width, height)?;
    if buf.len() != size {
        return Err(RefractError::Decode);
    }
    let color: ColorKind = ColorKind::from_rgba(buf.as_slice());
    Ok((buf, width as usize, height as usize, color))
}

/// # The input a raw file gives, from another decoder's answer.
pub open spec fn input_from_foreign_spec(
    raw: Seq<u8>,
    decoded: Result<(Seq<u8>, i64, i64), RefractError>,
) -> Result<InputView, RefractError> {
    match magic_kind(raw) {
        None => Err(RefractError::Image),
        Some(kind) => match decoded {
            Err(e) => Err(e),
            Ok((buf, w, h)) => match rgba_result(buf, w, h) {
                Err(e) => Err(e),
                Ok((b, wu, hu, c)) => decoded_input(raw.len() as int, kind, b, wu, hu, c),
            },
        },
    }
}

/// # The view of another decoder's answer.
pub open spec fn foreign_view(d: Result<(Vec<u8>, i64, i64), RefractError>)
    -> Result<(Seq<u8>, i64, i64), RefractError>
{
    match d {
        Ok((b, w, h)) => Ok((b@, w, h)),
        Err(e) => Err(e),
    }
}

impl Input {
    /// # From Another Decoder.
    ///
    /// Identify the kind of a raw image file and keep the RGBA pixels
    /// another decoder produced for it (as with [`Input::try_from`], but
    /// for formats this library has no decoder of its own for: the AVIF,
    /// JPEG XL and WebP decoders are reached through FFI by the program).
    ///
    /// ## Errors
    ///
    /// `Image` if the file is of no known kind, the decoder's own error,
    /// then as [`finish_rgba`] and [`Input::from_decoded`].
    pub fn from_foreign(raw: &[u8], decoded: Result<(Vec<u8>, i64, i64), RefractError>)
        -> (r: Result<Input, RefractError>)
        ensures
            input_result_view(r) == input_from_foreign_spec(raw@, foreign_view(decoded)),
            r matches Ok(i) ==> i.wf(),
    {
        let kind: ImageKind = ImageKind::try_from(raw)?;
        let (buf, width, height) = decoded?;
        let (buf, width, height, color) = finish_rgba(buf, width, height)?;
        Input::from_decoded(raw.len(), kind, buf, width, height, color)
    }
}

} // verus!
