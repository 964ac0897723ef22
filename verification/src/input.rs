//! # Input Image.
//!
//! Decoded image data: a pixel buffer (four RGBA bytes per pixel when
//! freshly decoded, or only the channels the image needs once made
//! "native"), its dimensions, and what is known about its colors.

use vstd::prelude::*;
use crate::{ColorKind, ImageKind, RefractError};
use crate::color::{any_alpha, any_color, channels_of, color_of, px_has_alpha, px_is_color};

verus! {

/// # Abstract view of an input.
pub struct InputView {
    /// # Pixel bytes.
    pub pixels: Seq<u8>,
    /// # Width in pixels.
    pub width: int,
    /// # Height in pixels.
    pub height: int,
    /// # Size of the original file.
    pub size: int,
    /// # Channels the image actually uses.
    pub color: ColorKind,
    /// # Channels stored in `pixels`.
    pub depth: ColorKind,
    /// # Source format.
    pub kind: ImageKind,
}

/// # RGBA byte `i` of a buffer stored with `depth` channels per pixel.
pub open spec fn rgba_byte(px: Seq<u8>, depth: ColorKind, i: int) -> u8 {
    let p = i / 4;
    let c = i % 4;
    match depth {
        ColorKind::Rgba => px[i],
        ColorKind::Rgb => if c < 3 { px[3 * p + c] } else { 255u8 },
        ColorKind::GreyAlpha => if c < 3 { px[2 * p] } else { px[2 * p + 1] },
        ColorKind::Grey => if c < 3 { px[p] } else { 255u8 },
    }
}

/// # A buffer stored with `depth` channels per pixel, upsampled to RGBA.
pub open spec fn rgba_of(px: Seq<u8>, depth: ColorKind) -> Seq<u8> {
    let n: int = px.len() as int / channels_of(depth);
    Seq::new((4 * n) as nat, |i: int| rgba_byte(px, depth, i))
}

/// # Native byte `i` of an RGBA buffer reduced to the channels of `color`.
pub open spec fn native_byte(px: Seq<u8>, color: ColorKind, i: int) -> u8 {
    match color {
        ColorKind::Grey => px[4 * i],
        ColorKind::GreyAlpha => if i % 2 == 0 { px[4 * (i / 2)] } else { px[4 * (i / 2) + 3] },
        ColorKind::Rgb => px[4 * (i / 3) + i % 3],
        ColorKind::Rgba => px[i],
    }
}

/// # An RGBA buffer reduced to the channels of `color`.
pub open spec fn native_of(px: Seq<u8>, color: ColorKind) -> Seq<u8> {
    let n: int = px.len() as int / 4;
    Seq::new((channels_of(color) * n) as nat, |i: int| native_byte(px, color, i))
}

/// # Bytes `4i..4i + 4` split as pixel `i` and channel `c`.
proof fn lemma_div4(i: int, c: int)
    requires 0 <= c < 4,
    ensures (4 * i + c) / 4 == i, (4 * i + c) % 4 == c,
{}

/// # The view after `Input::into_native`.
pub open spec fn native_view(v: InputView) -> InputView {
    InputView {
        pixels: if v.color == v.depth { v.pixels } else { native_of(v.pixels, v.color) },
        width: v.width,
        height: v.height,
        size: v.size,
        color: v.color,
        depth: v.color,
        kind: v.kind,
    }
}

/// # The view after `Input::into_rgba`.
pub open spec fn rgba_view(v: InputView) -> InputView {
    InputView {
        pixels: if v.depth == ColorKind::Rgba { v.pixels } else { rgba_of(v.pixels, v.depth) },
        width: v.width,
        height: v.height,
        size: v.size,
        color: v.color,
        depth: ColorKind::Rgba,
        kind: v.kind,
    }
}

/// # Division facts for packed pixels.
proof fn lemma_pack(p: int, c: int, k: int)
    requires 0 <= c < k, 1 <= k <= 4, 0 <= p,
    ensures (k * p + c) / k == p, (k * p + c) % k == c,
{
    assert((k * p + c) / k == p && (k * p + c) % k == c) by (nonlinear_arith)
        requires 0 <= c < k, 1 <= k, 0 <= p;
}

/// # Native round trip.
///
/// Reducing an RGBA buffer to the channels its color kind says it uses, then
/// upsampling it back to RGBA, gives back the original buffer: the channels
/// dropped carry no information (`into_native` followed by `into_rgba`
/// loses nothing).
pub proof fn lemma_native_round_trip(px: Seq<u8>, color: ColorKind)
    requires
        px.len() % 4 == 0,
        color == color_of(px),
    ensures rgba_of(native_of(px, color), color) == px,
{
    let n: int = px.len() as int / 4;
    let ch: int = channels_of(color);
    let nat_px = native_of(px, color);
    assert(nat_px.len() == ch * n);
    assert(nat_px.len() as int / ch == n) by (nonlinear_arith)
        requires nat_px.len() == ch * n, ch >= 1, n >= 0;
    let back = rgba_of(nat_px, color);
    assert(back.len() == px.len());
    assert forall|i: int| 0 <= i < px.len() implies back[i] == px[i] by {
        let p: int = i / 4;
        let c: int = i % 4;
        lemma_pack(p, c, 4);
        assert(i == 4 * p + c);
        assert(0 <= p < n);
        match color {
            ColorKind::Rgba => {},
            ColorKind::Rgb => {
                assert(!any_alpha(px, n));
                if c < 3 {
                    lemma_pack(p, c, 3);
                    assert(3 * p + c < 3 * n);
                    assert(nat_px[3 * p + c] == px[4 * p + c]);
                }
                else {
                    assert(!px_has_alpha(px, p));
                }
            },
            ColorKind::GreyAlpha => {
                assert(!any_color(px, n));
                assert(!px_is_color(px, p));
                lemma_pack(p, 0, 2);
                lemma_pack(p, 1, 2);
                assert(nat_px[2 * p] == px[4 * p]);
                assert(nat_px[2 * p + 1] == px[4 * p + 3]);
            },
            ColorKind::Grey => {
                assert(!any_color(px, n));
                assert(!any_alpha(px, n));
                assert(!px_is_color(px, p));
                assert(!px_has_alpha(px, p));
                assert(nat_px[p] == px[4 * p]);
            },
        }
    }
    assert(back =~= px);
}

/// # Product bounds used for buffer sizes.
proof fn lemma_mul_le(a: int, b: int, c: int)
    by (nonlinear_arith)
    requires 0 <= a, 1 <= b, 0 <= c,
    ensures a * c <= a * b * c, a <= a * b,
{}

/// # Upsample a 1, 2 or 3 channel buffer to RGBA.
///
/// Trailing bytes that do not make up a whole pixel are dropped.
pub fn upsample(px: &[u8], depth: ColorKind) -> (r: Vec<u8>)
    requires !(depth is Rgba),
    ensures r@ == rgba_of(px@, depth),
{
    let ch: usize = depth.channels() as usize;
    let len: usize = px.len();
    let n: usize = len / ch;
    let ghost target = rgba_of(px@, depth);
    let mut out: Vec<u8> = Vec::new();
    let mut p: usize = 0;
    while p < n
        invariant
            ch == channels_of(depth),
            1 <= ch <= 3,
            n == len / ch,
            len == px@.len(),
            target == rgba_of(px@, depth),
            target.len() == 4 * n,
            p <= n,
            out@.len() == 4 * p,
            forall|j: int| 0 <= j < 4 * p ==> out@[j] == target[j],
        decreases n - p,
    {
        proof {
            assert((p + 1) * ch <= len) by (nonlinear_arith)
                requires p < n, n == len / ch, ch >= 1;
            assert(p * ch + ch == (p + 1) * ch) by (nonlinear_arith);
            lemma_div4(p as int, 0);
            lemma_div4(p as int, 1);
            lemma_div4(p as int, 2);
            lemma_div4(p as int, 3);
        }
        let (r, g, b, a): (u8, u8, u8, u8) = if ch == 3 {
            (px[3 * p], px[3 * p + 1], px[3 * p + 2], 255u8)
        } else if ch == 2 {
            assert(2 * p + 1 < len) by (nonlinear_arith)
                requires (p + 1) * ch <= len, ch == 2;
            (px[2 * p], px[2 * p], px[2 * p], px[2 * p + 1])
        } else {
            assert(p < len) by (nonlinear_arith)
                requires (p + 1) * ch <= len, ch == 1;
            (px[p], px[p], px[p], 255u8)
        };
        out.push(r);
        out.push(g);
        out.push(b);
        out.push(a);
        p = p + 1;
    }
    assert(out@ =~= target);
    out
}

/// # Reduce an RGBA buffer to the 1, 2 or 3 channels of `color`.
fn downsample(px: &[u8], color: ColorKind) -> (r: Vec<u8>)
    requires
        !(color is Rgba),
        px@.len() % 4 == 0,
    ensures r@ == native_of(px@, color),
{
    let ch: usize = color.channels() as usize;
    let len: usize = px.len();
    let n: usize = len / 4;
    let ghost target = native_of(px@, color);
    let mut buf: Vec<u8> = Vec::new();
    let mut p: usize = 0;
    while p < n
        invariant
            ch == channels_of(color),
            1 <= ch <= 3,
            n == len / 4,
            len == px@.len(),
            len % 4 == 0,
            target == native_of(px@, color),
            target.len() == ch * n,
            p <= n,
            buf@.len() == ch * p,
            forall|j: int| 0 <= j < ch * p ==> buf@[j] == target[j],
        decreases n - p,
    {
        proof {
            assert(ch * (p + 1) == ch * p + ch) by (nonlinear_arith);
            assert(ch * p + ch <= ch * n) by (nonlinear_arith) requires p < n, ch >= 1;
        }
        if ch == 1 {
            buf.push(px[4 * p]);
            assert(ch * p == p);
        } else if ch == 2 {
            buf.push(px[4 * p]);
            buf.push(px[4 * p + 3]);
            assert((2 * p) / 2 == p && (2 * p) % 2 == 0);
            assert((2 * p + 1) / 2 == p && (2 * p + 1) % 2 == 1);
            assert(ch * p == 2 * p);
        } else {
            buf.push(px[4 * p]);
            buf.push(px[4 * p + 1]);
            buf.push(px[4 * p + 2]);
            assert((3 * p) / 3 == p && (3 * p) % 3 == 0);
            assert((3 * p + 1) / 3 == p && (3 * p + 1) % 3 == 1);
            assert((3 * p + 2) / 3 == p && (3 * p + 2) % 3 == 2);
            assert(ch * p == 3 * p);
        }
        p = p + 1;
    }
    assert(buf@ =~= target);
    buf
}

#[derive(Debug)]
/// # Input Image.
pub struct Input {
    /// # Image Pixels.
    pixels: Vec<u8>,
    /// # Image Width.
    width: u32,
    /// # Image Height.
    height: u32,
    /// # Original File Size.
    size: usize,
    /// # (Native) Color Kind.
    color: ColorKind,
    /// # (Stored) Color Depth.
    depth: ColorKind,
    /// # Image Kind.
    kind: ImageKind,
}

impl Clone for Input {
    /// # Clone.
    ///
    /// A copy with the same pixels, dimensions, size and kinds, so a
    /// well-formed input clones to a well-formed input.
    fn clone(&self) -> (r: Self)
        ensures r@ == self@,
    {
        let pixels: Vec<u8> = self.pixels.clone();
        assert(pixels@ =~= self.pixels@);
        Input {
            pixels,
            width: self.width,
            height: self.height,
            size: self.size,
            color: self.color,
            depth: self.depth,
            kind: self.kind,
        }
    }
}

impl View for Input {
    type V = InputView;

    closed spec fn view(&self) -> InputView {
        InputView {
            pixels: self.pixels@,
            width: self.width as int,
            height: self.height as int,
            size: self.size as int,
            color: self.color,
            depth: self.depth,
            kind: self.kind,
        }
    }
}

/// # Well-formed input view.
pub open spec fn input_wf(v: InputView) -> bool {
    &&& 1 <= v.width <= u32::MAX
    &&& 1 <= v.height <= u32::MAX
    &&& 1 <= v.size
    &&& v.pixels.len() == v.width * v.height * channels_of(v.depth)
    &&& (v.depth == ColorKind::Rgba || v.depth == v.color)
}

/// # The input built from a decoder's answer for a raw file of `src_len`
/// bytes, or the error that refuses it.
pub open spec fn decoded_input(
    src_len: int,
    kind: ImageKind,
    pixels: Seq<u8>,
    width: usize,
    height: usize,
    color: ColorKind,
) -> Result<InputView, RefractError> {
    if width == 0 || width > u32::MAX || height == 0 || height > u32::MAX {
        Err(RefractError::Overflow)
    } else if src_len == 0 {
        Err(RefractError::Image)
    } else if pixels.len() != width * height * 4 {
        Err(RefractError::Decode)
    } else {
        Ok(InputView {
            pixels,
            width: width as int,
            height: height as int,
            size: src_len,
            color,
            depth: ColorKind::Rgba,
            kind,
        })
    }
}

/// # The view of an input or the error in its place.
pub open spec fn input_result_view(r: Result<Input, RefractError>) -> Result<InputView, RefractError> {
    match r {
        Ok(i) => Ok(i@),
        Err(e) => Err(e),
    }
}

impl Input {
    /// # Well-formed.
    pub open spec fn wf(&self) -> bool {
        input_wf(self@)
    }

    /// # From Decoded Pixels.
    ///
    /// Build an input from the RGBA pixels, dimensions and color kind a
    /// decoder produced for a raw file of `src_len` bytes.
    ///
    /// ## Errors
    ///
    /// `Overflow` if a dimension is zero or beyond `u32`, `Image` if the
    /// file size is zero, and `Decode` if the buffer does not hold exactly
    /// `width * height` RGBA pixels.
    pub fn from_decoded(
        src_len: usize,
        kind: ImageKind,
        pixels: Vec<u8>,
        width: usize,
        height: usize,
        color: ColorKind,
    ) -> (r: Result<Input, RefractError>)
        ensures
            input_result_view(r) == decoded_input(src_len as int, kind, pixels@, width, height, color),
            r matches Ok(i) ==> i.wf(),
    {
        if width == 0 || width > 0xFFFF_FFFFusize || height == 0 || height > 0xFFFF_FFFFusize {
            return Err(RefractError::Overflow);
        }
        if src_len == 0 { return Err(RefractError::Image); }
        let len: usize = pixels.len();
        let area: Option<usize> = width.checked_mul(height);
        let expected: Option<usize> = match area {
            Some(a) => a.checked_mul(4),
            None => None,
        };
        match expected {
            Some(e) => if e != len { return Err(RefractError::Decode); },
            None => {
                proof { lemma_mul_le(width as int, height as int, 4); }
                return Err(RefractError::Decode);
            },
        }
        Ok(Self {
            pixels,
            width: width as u32,
            height: height as u32,
            size: src_len,
            color,
            depth: ColorKind::Rgba,
            kind,
        })
    }

    /// # Color Kind.
    ///
    /// The channels actually used by the image.
    pub fn color(&self) -> (r: ColorKind)
        ensures r == self@.color,
    {
        self.color
    }

    /// # Depth.
    ///
    /// The channels stored in the pixel buffer.
    pub fn depth(&self) -> (r: ColorKind)
        ensures r == self@.depth,
    {
        self.depth
    }

    /// # Has Alpha?
    pub fn has_alpha(&self) -> (r: bool)
        ensures r == (self@.color is GreyAlpha || self@.color is Rgba),
    {
        self.color.has_alpha()
    }

    /// # Height.
    pub fn height(&self) -> (r: usize)
        ensures r == self@.height,
    {
        self.height as usize
    }

    /// # Is Color?
    pub fn is_color(&self) -> (r: bool)
        ensures r == (self@.color is Rgb || self@.color is Rgba),
    {
        self.color.is_color()
    }

    /// # Is Greyscale?
    pub fn is_greyscale(&self) -> (r: bool)
        ensures r == (self@.color is Grey || self@.color is GreyAlpha),
    {
        self.color.is_greyscale()
    }

    /// # Image Kind.
    pub fn kind(&self) -> (r: ImageKind)
        ensures r == self@.kind,
    {
        self.kind
    }

    /// # Row Size.
    ///
    /// This is `width * bytes-per-pixel` of the stored buffer.
    pub fn row_size(&self) -> (r: usize)
        requires self.wf(),
        ensures r == self@.width * channels_of(self@.depth),
    {
        let len: usize = self.pixels.len();
        let ch: u32 = self.depth.channels();
        proof {
            lemma_mul_le(self.width as int, self.height as int, ch as int);
            assert(self.width as int * ch <= self.width as int * self.height as int * ch);
        }
        (self.width as usize) * (ch as usize)
    }

    /// # Size.
    ///
    /// The size of the original raw image file.
    pub fn size(&self) -> (r: usize)
        ensures r == self@.size,
    {
        self.size
    }

    /// # Take Pixels.
    ///
    /// Consume the instance, returning the pixel buffer.
    pub fn take_pixels(self) -> (r: Vec<u8>)
        ensures r@ == self@.pixels,
    {
        self.pixels
    }

    /// # Pixels (borrowed).
    pub fn pixels(&self) -> (r: &[u8])
        ensures r@ == self@.pixels,
    {
        self.pixels.as_slice()
    }

    /// # Width.
    pub fn width(&self) -> (r: usize)
        ensures r == self@.width,
    {
        self.width as usize
    }

    /// # Height (`i32`).
    ///
    /// ## Errors
    ///
    /// `Overflow` if the height does not fit `i32`.
    pub fn height_i32(&self) -> (r: Result<i32, RefractError>)
        ensures
            match r {
                Ok(h) => h == self@.height,
                Err(e) => e == RefractError::Overflow && self@.height > i32::MAX,
            },
    {
        if self.height <= 0x7FFF_FFFFu32 { Ok(self.height as i32) }
        else { Err(RefractError::Overflow) }
    }

    /// # Row Size (`i32`).
    ///
    /// ## Errors
    ///
    /// `Overflow` if the row size does not fit `i32`.
    pub fn row_size_i32(&self) -> (r: Result<i32, RefractError>)
        requires self.wf(),
        ensures
            match r {
                Ok(s) => s == self@.width * channels_of(self@.depth),
                Err(e) => e == RefractError::Overflow
                    && self@.width * channels_of(self@.depth) > i32::MAX,
            },
    {
        let row: usize = self.row_size();
        if row <= 0x7FFF_FFFFusize { Ok(row as i32) }
        else { Err(RefractError::Overflow) }
    }

    /// # Width (`i32`).
    ///
    /// ## Errors
    ///
    /// `Overflow` if the width does not fit `i32`.
    pub fn width_i32(&self) -> (r: Result<i32, RefractError>)
        ensures
            match r {
                Ok(w) => w == self@.width,
                Err(e) => e == RefractError::Overflow && self@.width > i32::MAX,
            },
    {
        if self.width <= 0x7FFF_FFFFu32 { Ok(self.width as i32) }
        else { Err(RefractError::Overflow) }
    }

    /// # Height (`u32`).
    pub fn height_u32(&self) -> (r: u32)
        ensures r == self@.height,
    {
        self.height
    }

    /// # Width (`u32`).
    pub fn width_u32(&self) -> (r: u32)
        ensures r == self@.width,
    {
        self.width
    }

    /// # RGBA Pixels.
    ///
    /// Return the pixels as 4-byte RGBA, upsampling the stored channels as
    /// necessary.
    pub fn pixels_rgba(&self) -> (r: Vec<u8>)
        requires self.wf(),
        ensures r@ == rgba_of(self@.pixels, self@.depth),
    {
        let ch: usize = self.depth.channels() as usize;
        let len: usize = self.pixels.len();
        proof {
            assert(len % ch == 0) by (nonlinear_arith)
                requires len == self.width as int * self.height as int * ch, ch >= 1;
        }
        match self.depth {
            ColorKind::Rgba => {
                let out: Vec<u8> = self.pixels.clone();
                assert(out@ =~= rgba_of(self@.pixels, self@.depth));
                out
            },
            _ => upsample(self.pixels.as_slice(), self.depth),
        }
    }

    /// # To Native Channels.
    ///
    /// Return the instance with its buffer reduced to only those channels
    /// actually used by the source (1, 2, 3 or 4 bytes per pixel). Native
    /// instances pass through unchanged.
    pub fn into_native(self) -> (r: Input)
        requires self.wf(),
        ensures
            r.wf(),
            r@ == native_view(self@),
    {
        if self.color == self.depth { return self; }
        let buf: Vec<u8> = downsample(self.pixels.as_slice(), self.color);
        proof {
            let ch = channels_of(self.color);
            assert(buf@.len() == self.width as int * self.height as int * ch) by (nonlinear_arith)
                requires buf@.len() == ch * (self@.pixels.len() as int / 4),
                    self@.pixels.len() == self.width as int * self.height as int * 4;
        }
        Self {
            pixels: buf,
            width: self.width,
            height: self.height,
            size: self.size,
            color: self.color,
            depth: self.color,
            kind: self.kind,
        }
    }

    /// # To RGBA.
    ///
    /// Return the instance holding a 4-byte RGBA pixel buffer, upsampling
    /// if needed.
    pub fn into_rgba(self) -> (r: Input)
        requires self.wf(),
        ensures
            r.wf(),
            r@ == rgba_view(self@),
    {
        if self.depth == ColorKind::Rgba { return self; }
        let pixels: Vec<u8> = self.pixels_rgba();
        proof {
            let ch = channels_of(self@.depth);
            assert(pixels@.len() == self.width as int * self.height as int * 4) by (nonlinear_arith)
                requires pixels@.len() == 4 * (self@.pixels.len() as int / ch),
                    self@.pixels.len() == self.width as int * self.height as int * ch, 1 <= ch;
        }
        Self {
            pixels,
            width: self.width,
            height: self.height,
            size: self.size,
            color: self.color,
            depth: ColorKind::Rgba,
            kind: self.kind,
        }
    }
}

} // verus!
