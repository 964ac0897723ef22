//! # Alpha Operations.
//!
//! Images with transparency are cleaned up before encoding: the colors of
//! fully transparent pixels carry no visual information, so they are
//! replaced with a neutral color, and pixels with some transparency that
//! border visible pixels have their colors smoothed toward those
//! neighbors. Neither changes how the image looks, but both help encoders
//! compress it.
//!
//! Everything here works on RGBA buffers, four bytes per pixel, row-major.

use vstd::prelude::*;

verus! {

/// # A Square of Nine Pixels.
///
/// This represents a pixel — located in the middle — and all eight of its
/// immediate neighbors, row by row, four RGBA bytes each.
///
/// At the edges of an image, "unavailable" neighbors are represented by
/// duplicating the corresponding last one. For example, at coordinate 0,0,
/// the top and middle rows will be identical, as will the left and center
/// columns within each row. At coordinate width,height, the middle and bottom
/// rows will match, as will the center and right columns within each row.
#[derive(Debug, Clone, Copy, PartialEq, Eq)]
pub struct Nine(pub [u8; 36]);

// ---------------------------------------------------------------------------
// Specifications of the per-square calculations.
// ---------------------------------------------------------------------------

/// # Sum of channel `c` over the first `k` pixels of a square.
pub open spec fn ch_sum(n: Seq<u8>, c: int, k: int) -> int
    decreases k,
{
    if k <= 0 { 0 } else { ch_sum(n, c, k - 1) + n[4 * (k - 1) + c] }
}

/// # Weight of a pixel by its alpha: the less visible, the heavier.
///
/// Invisible pixels do not count at all.
pub open spec fn weight_of(a: u8) -> int {
    if a > 0 { 256 - a } else { 0 }
}

/// # Alpha-weighted sum of channel `c` over the first `k` pixels.
pub open spec fn ch_wsum(n: Seq<u8>, c: int, k: int) -> int
    decreases k,
{
    if k <= 0 { 0 }
    else { ch_wsum(n, c, k - 1) + n[4 * (k - 1) + c] * weight_of(n[4 * (k - 1) + 3]) }
}

/// # Total weight of the first `k` pixels.
pub open spec fn w_total(n: Seq<u8>, k: int) -> int
    decreases k,
{
    if k <= 0 { 0 } else { w_total(n, k - 1) + weight_of(n[4 * (k - 1) + 3]) }
}

/// # Does any pixel of the square have an alpha of zero?
pub open spec fn any_invisible(n: Seq<u8>) -> bool {
    exists|i: int| 0 <= i < 9 && #[trigger] n[4 * i + 3] == 0
}

/// # Lower bound a reassigned channel may take.
///
/// The old value premultiplied by alpha, with a little room for rounding,
/// divided back out; the division's result is truncated to a byte.
pub open spec fn premul_low(old: u8, alpha: u8) -> u8 {
    let rounded: int = (old * alpha) / 255 * 255;
    let t: u8 = (((rounded + 16) / (alpha as int)) % 256) as u8;
    if old < t { old } else { t }
}

/// # Upper bound a reassigned channel may take.
pub open spec fn premul_high(old: u8, alpha: u8) -> u8 {
    let rounded: int = (old * alpha) / 255 * 255;
    let t: u8 = (((rounded + 239) / (alpha as int)) % 256) as u8;
    if old > t { old } else { t }
}

/// # A new channel value held between the bounds around the old one.
pub open spec fn clamp_spec(new: u8, old: u8, alpha: u8) -> u8 {
    let low = premul_low(old, alpha);
    let high = premul_high(old, alpha);
    let v = if new > low { new } else { low };
    if v < high { v } else { high }
}

/// # The pixel that replaces the center of `n` given new color channels.
///
/// The alpha stays. Unless the center is invisible, each channel is
/// clamped around its old value. If nothing changes, there is nothing to
/// replace.
pub open spec fn normalized(n: Seq<u8>, r: u8, g: u8, b: u8) -> Option<Seq<u8>> {
    let a = n[19];
    let nr = if a != 0 { clamp_spec(r, n[16], a) } else { r };
    let ng = if a != 0 { clamp_spec(g, n[17], a) } else { g };
    let nb = if a != 0 { clamp_spec(b, n[18], a) } else { b };
    if nr == n[16] && ng == n[17] && nb == n[18] { None } else { Some(seq![nr, ng, nb, a]) }
}

/// # The straight average of a square, normalized.
pub open spec fn averaged_spec(n: Seq<u8>) -> Option<Seq<u8>> {
    normalized(
        n,
        (ch_sum(n, 0, 9) / 9) as u8,
        (ch_sum(n, 1, 9) / 9) as u8,
        (ch_sum(n, 2, 9) / 9) as u8,
    )
}

/// # The alpha-weighted average of a square, normalized.
///
/// Nothing when no pixel of the square is visible.
pub open spec fn weighted_spec(n: Seq<u8>) -> Option<Seq<u8>> {
    let t = w_total(n, 9);
    if t > 0 {
        normalized(
            n,
            (ch_wsum(n, 0, 9) / t) as u8,
            (ch_wsum(n, 1, 9) / t) as u8,
            (ch_wsum(n, 2, 9) / t) as u8,
        )
    } else {
        None
    }
}

/// # An optional pixel matches an optional four-byte sequence.
pub open spec fn px_matches(r: Option<[u8; 4]>, s: Option<Seq<u8>>) -> bool {
    match r {
        Some(px) => s == Some(px@),
        None => s is None,
    }
}

// ---------------------------------------------------------------------------
// Bounds.
// ---------------------------------------------------------------------------

/// # Channel sums stay within a byte per pixel.
proof fn lemma_ch_sum_bound(n: Seq<u8>, c: int, k: int)
    requires 0 <= c < 4, 0 <= k <= 9, n.len() == 36,
    ensures 0 <= ch_sum(n, c, k) <= 255 * k,
    decreases k,
{
    if k > 0 { lemma_ch_sum_bound(n, c, k - 1); }
}

/// # Weighted sums stay within a byte times the total weight.
proof fn lemma_ch_wsum_bound(n: Seq<u8>, c: int, k: int)
    requires 0 <= c < 4, 0 <= k <= 9, n.len() == 36,
    ensures
        0 <= ch_wsum(n, c, k) <= 255 * w_total(n, k),
        0 <= w_total(n, k) <= 256 * k,
    decreases k,
{
    if k > 0 {
        lemma_ch_wsum_bound(n, c, k - 1);
        let v: int = n[4 * (k - 1) + c] as int;
        let w: int = weight_of(n[4 * (k - 1) + 3]);
        assert(0 <= v * w <= 255 * w) by (nonlinear_arith)
            requires 0 <= v <= 255, 0 <= w <= 256;
    }
}

/// # A sum bounded by a byte times its count, divided by the count.
proof fn lemma_avg_byte(s: int, t: int)
    requires 0 < t, 0 <= s <= 255 * t,
    ensures 0 <= s / t <= 255,
{
    assert(0 <= s / t <= 255) by (nonlinear_arith)
        requires 0 < t, 0 <= s <= 255 * t;
}

// ---------------------------------------------------------------------------
// Executable.
// ---------------------------------------------------------------------------

/// # Premultiplied Bounds.
///
/// The lowest and highest values a channel whose old value is `px_old` may
/// be moved to, for a pixel of the given (non-zero) alpha: roughly, the
/// values that premultiply to the same value as the old one, with a little
/// room for rounding. The old value itself always lies between them.
pub fn premultiplied_minmax(px_old: u8, alpha: u8) -> (r: (u8, u8))
    requires alpha > 0,
    ensures
        r.0 == premul_low(px_old, alpha),
        r.1 == premul_high(px_old, alpha),
        r.0 <= px_old <= r.1,
{
    let alpha16: u16 = alpha as u16;
    let old16: u16 = px_old as u16;
    assert(old16 * alpha16 <= 65025) by (nonlinear_arith)
        requires old16 <= 255, alpha16 <= 255;
    let prod: u16 = old16 * alpha16;
    let rounded: u16 = prod / 255 * 255;
    let lo_q: u16 = (rounded + 16) / alpha16;
    let hi_q: u16 = (rounded + 239) / alpha16;
    let lo_t: u8 = (lo_q % 256) as u8;
    let hi_t: u8 = (hi_q % 256) as u8;
    let low: u8 = if px_old < lo_t { px_old } else { lo_t };
    let high: u8 = if px_old > hi_t { px_old } else { hi_t };
    (low, high)
}

/// # Clamp Pixel.
///
/// This prevents averaged/weighted pixel reassignments from drifting too far
/// from the original: `px_new` is held between the premultiplied bounds of
/// `px_old`.
pub fn clamp(px_new: u8, px_old: u8, alpha: u8) -> (r: u8)
    requires alpha > 0,
    ensures r == clamp_spec(px_new, px_old, alpha),
{
    let (low, high) = premultiplied_minmax(px_old, alpha);
    let v: u8 = if px_new > low { px_new } else { low };
    if v < high { v } else { high }
}

/// ## Getters.
impl Nine {
    /// # The Center Pixel's Red.
    pub fn red(&self) -> (r: u8)
        ensures r == self.0@[16],
    {
        self.0[16]
    }

    /// # The Center Pixel's Green.
    pub fn green(&self) -> (r: u8)
        ensures r == self.0@[17],
    {
        self.0[17]
    }

    /// # The Center Pixel's Blue.
    pub fn blue(&self) -> (r: u8)
        ensures r == self.0@[18],
    {
        self.0[18]
    }

    /// # The Center Pixel's Alpha.
    pub fn alpha(&self) -> (r: u8)
        ensures r == self.0@[19],
    {
        self.0[19]
    }

    /// # Has Alpha?
    ///
    /// This returns true if the center pixel's alpha channel is less than 255.
    pub fn has_alpha(&self) -> (r: bool)
        ensures r == (self.0@[19] != 255),
    {
        self.alpha() != 255
    }

    /// # Has Invisible Pixels?
    ///
    /// This returns true if any of the pixels in the set have an alpha value
    /// of zero.
    pub fn has_invisible(&self) -> (r: bool)
        ensures r == any_invisible(self.0@),
    {
        let mut i: usize = 0;
        while i < 9
            invariant
                i <= 9,
                forall|j: int| 0 <= j < i ==> #[trigger] self.0@[4 * j + 3] != 0,
            decreases 9 - i,
        {
            if self.0[4 * i + 3] == 0 {
                assert(self.0@[4 * (i as int) + 3] == 0);
                return true;
            }
            i += 1;
        }
        false
    }

    /// # Is Semi-Transparent?
    ///
    /// This returns true if the center pixel's alpha channel is less than 255
    /// but greater than zero.
    pub fn is_semi_transparent(&self) -> (r: bool)
        ensures r == (0 < self.0@[19] && self.0@[19] < 255),
    {
        0 < self.alpha() && self.alpha() < 255
    }
}

/// ## Calculations.
impl Nine {
    /// # Average.
    ///
    /// This is a straight average of all of the pixels in a given set, which
    /// always has nine members (even if some are duplicates).
    ///
    /// For visible center pixels, the result is clamped to prevent too much
    /// drift.
    ///
    /// If the result turns out to be identical to the original value, `None`
    /// is returned.
    pub fn averaged(&self) -> (r: Option<[u8; 4]>)
        ensures px_matches(r, averaged_spec(self.0@)),
    {
        let mut r: u16 = 0;
        let mut g: u16 = 0;
        let mut b: u16 = 0;
        let mut i: usize = 0;
        while i < 9
            invariant
                i <= 9,
                r == ch_sum(self.0@, 0, i as int),
                g == ch_sum(self.0@, 1, i as int),
                b == ch_sum(self.0@, 2, i as int),
            decreases 9 - i,
        {
            proof {
                lemma_ch_sum_bound(self.0@, 0, i as int);
                lemma_ch_sum_bound(self.0@, 1, i as int);
                lemma_ch_sum_bound(self.0@, 2, i as int);
            }
            r = r + self.0[4 * i] as u16;
            g = g + self.0[4 * i + 1] as u16;
            b = b + self.0[4 * i + 2] as u16;
            i += 1;
        }
        proof {
            lemma_ch_sum_bound(self.0@, 0, 9);
            lemma_ch_sum_bound(self.0@, 1, 9);
            lemma_ch_sum_bound(self.0@, 2, 9);
        }
        self.normalize_avg((r / 9) as u8, (g / 9) as u8, (b / 9) as u8)
    }

    /// # Make Averaged Pixel.
    ///
    /// This puts the finishing touches on a pixel generated by
    /// [`Nine::averaged`] or [`Nine::weighted`], clamping values if
    /// necessary, and returning a formed RGBA pixel if different than the
    /// current center.
    pub fn normalize_avg(&self, r: u8, g: u8, b: u8) -> (res: Option<[u8; 4]>)
        ensures px_matches(res, normalized(self.0@, r, g, b)),
    {
        let a: u8 = self.alpha();
        let mut nr: u8 = r;
        let mut ng: u8 = g;
        let mut nb: u8 = b;

        // Unless this is invisible, we should clamp it.
        if a != 0 {
            nr = clamp(r, self.red(), a);
            ng = clamp(g, self.green(), a);
            nb = clamp(b, self.blue(), a);
        }

        if nr == self.red() && ng == self.green() && nb == self.blue() {
            None
        } else {
            let avg: [u8; 4] = [nr, ng, nb, a];
            assert(avg@ =~= seq![nr, ng, nb, a]);
            Some(avg)
        }
    }

    /// # Weighted Average.
    ///
    /// This calculates a weighted average of pixels (with alpha data) in the
    /// set. The more transparent a given pixel is, the more wiggle room we
    /// have in optimizing its color.
    ///
    /// For visible center pixels, the result is clamped to prevent too much
    /// drift.
    ///
    /// If no weighting is possible, or if the result winds up identical to the
    /// original, `None` is returned.
    pub fn weighted(&self) -> (res: Option<[u8; 4]>)
        ensures px_matches(res, weighted_spec(self.0@)),
    {
        let mut r: u32 = 0;
        let mut g: u32 = 0;
        let mut b: u32 = 0;
        let mut weight: u32 = 0;
        let mut i: usize = 0;
        while i < 9
            invariant
                i <= 9,
                r == ch_wsum(self.0@, 0, i as int),
                g == ch_wsum(self.0@, 1, i as int),
                b == ch_wsum(self.0@, 2, i as int),
                weight == w_total(self.0@, i as int),
            decreases 9 - i,
        {
            proof {
                lemma_ch_wsum_bound(self.0@, 0, i as int);
                lemma_ch_wsum_bound(self.0@, 1, i as int);
                lemma_ch_wsum_bound(self.0@, 2, i as int);
            }
            let a: u8 = self.0[4 * i + 3];
            if a > 0 {
                let w: u32 = 256 - a as u32;
                let vr: u32 = self.0[4 * i] as u32;
                let vg: u32 = self.0[4 * i + 1] as u32;
                let vb: u32 = self.0[4 * i + 2] as u32;
                assert(vr * w <= 65280 && vg * w <= 65280 && vb * w <= 65280) by (nonlinear_arith)
                    requires vr <= 255, vg <= 255, vb <= 255, w <= 256;
                r = r + vr * w;
                g = g + vg * w;
                b = b + vb * w;
                weight = weight + w;
            }
            proof {
                let n = self.0@;
                let k: int = i as int + 1;
                assert(weight_of(n[4 * i + 3]) == if a > 0 { 256 - a } else { 0 });
                assert(ch_wsum(n, 0, k) == ch_wsum(n, 0, i as int) + n[4 * i + 0] * weight_of(n[4 * i + 3]));
                assert(ch_wsum(n, 1, k) == ch_wsum(n, 1, i as int) + n[4 * i + 1] * weight_of(n[4 * i + 3]));
                assert(ch_wsum(n, 2, k) == ch_wsum(n, 2, i as int) + n[4 * i + 2] * weight_of(n[4 * i + 3]));
                assert(w_total(n, k) == w_total(n, i as int) + weight_of(n[4 * i + 3]));
            }
            i += 1;
        }

        // If there were visible neighbors, make the adjustment!
        if weight > 0 {
            proof {
                lemma_ch_wsum_bound(self.0@, 0, 9);
                lemma_ch_wsum_bound(self.0@, 1, 9);
                lemma_ch_wsum_bound(self.0@, 2, 9);
                lemma_avg_byte(r as int, weight as int);
                lemma_avg_byte(g as int, weight as int);
                lemma_avg_byte(b as int, weight as int);
            }
            self.normalize_avg((r / weight) as u8, (g / weight) as u8, (b / weight) as u8)
        } else {
            None
        }
    }
}


// ---------------------------------------------------------------------------
// Squares of an image.
// ---------------------------------------------------------------------------

/// # Dimensions that the square operations accept.
///
/// At least three pixels in either direction, and a buffer of exactly four
/// bytes per pixel.
pub open spec fn valid_dims(len: int, w: int, h: int) -> bool {
    w >= 3 && h >= 3 && len == (w * h) * 4
}

/// # The square whose rows start at the given offsets and whose columns sit
/// at the given offsets within each row.
pub open spec fn nine_from(img: Seq<u8>, top: int, mid: int, bot: int, l: int, c: int, r: int) -> Seq<u8> {
    seq![
        img[top + l], img[top + l + 1], img[top + l + 2], img[top + l + 3],
        img[top + c], img[top + c + 1], img[top + c + 2], img[top + c + 3],
        img[top + r], img[top + r + 1], img[top + r + 2], img[top + r + 3],
        img[mid + l], img[mid + l + 1], img[mid + l + 2], img[mid + l + 3],
        img[mid + c], img[mid + c + 1], img[mid + c + 2], img[mid + c + 3],
        img[mid + r], img[mid + r + 1], img[mid + r + 2], img[mid + r + 3],
        img[bot + l], img[bot + l + 1], img[bot + l + 2], img[bot + l + 3],
        img[bot + c], img[bot + c + 1], img[bot + c + 2], img[bot + c + 3],
        img[bot + r], img[bot + r + 1], img[bot + r + 2], img[bot + r + 3],
    ]
}

/// # The square around pixel `p` of a `w` by `h` image.
///
/// Rows and columns beyond the edges repeat the edge.
pub open spec fn nine_of(img: Seq<u8>, w: int, h: int, p: int) -> Seq<u8> {
    let x = p % w;
    let y = p / w;
    let rs = w * 4;
    let mid = y * rs;
    let top = if y == 0 { 0 } else { mid - rs };
    let bot = if y + 1 < h { mid + rs } else { mid };
    let c = x * 4;
    let l = if x == 0 { c } else { c - 4 };
    let r = if x + 1 < w { c + 4 } else { c };
    nine_from(img, top, mid, bot, l, c, r)
}

/// # Where pixel `p` sits.
proof fn lemma_pixel_pos(w: int, h: int, p: int)
    requires w > 0, h > 0, 0 <= p < w * h,
    ensures
        0 <= p % w < w,
        0 <= p / w < h,
        (p / w) * (w * 4) + (p % w) * 4 == p * 4,
        (p / w) * (w * 4) + w * 4 <= (w * h) * 4,
        p / w + 1 < h ==> (p / w) * (w * 4) + 2 * (w * 4) <= (w * h) * 4,
        w * 4 <= (w * h) * 4,
        p / w >= 1 ==> (p / w) * (w * 4) >= w * 4,
        (p % w) * 4 + 4 <= w * 4,
{
    let x: int = p % w;
    let y: int = p / w;
    vstd::arithmetic::div_mod::lemma_fundamental_div_mod(p, w);
    assert(0 <= x < w) by { vstd::arithmetic::div_mod::lemma_mod_bound(p, w); }
    assert(p == w * y + x);
    assert(0 <= y < h) by (nonlinear_arith)
        requires p == w * y + x, 0 <= x < w, 0 <= p < w * h, w > 0;
    assert(y * (w * 4) + x * 4 == p * 4) by (nonlinear_arith)
        requires p == w * y + x;
    assert(y * (w * 4) + w * 4 <= (w * h) * 4) by (nonlinear_arith)
        requires 0 <= y < h, w > 0;
    assert(y + 1 < h ==> y * (w * 4) + 2 * (w * 4) <= (w * h) * 4) by (nonlinear_arith)
        requires 0 <= y, w > 0;
    assert(w * 4 <= (w * h) * 4) by (nonlinear_arith)
        requires w > 0, h > 0;
    assert(y >= 1 ==> y * (w * 4) >= w * 4) by (nonlinear_arith)
        requires w > 0;
}

/// # The center of the square around pixel `p` is pixel `p`.
pub proof fn lemma_nine_center(img: Seq<u8>, w: int, h: int, p: int, c: int)
    requires valid_dims(img.len() as int, w, h), 0 <= p < w * h, 0 <= c < 4,
    ensures nine_of(img, w, h, p)[16 + c] == img[4 * p + c],
{
    lemma_pixel_pos(w, h, p);
}

/// # Pixel Count.
///
/// The number of pixels of a `width` by `height` image, if the dimensions
/// are ones the square operations accept for a buffer of `len` bytes.
pub fn checked_pixels(len: usize, width: usize, height: usize) -> (r: Option<usize>)
    ensures
        r is Some <==> valid_dims(len as int, width as int, height as int),
        r matches Some(n) ==> n == width * height,
{
    if width < 3 || height < 3 {
        return None;
    }
    match width.checked_mul(height) {
        None => None,
        Some(px) => match px.checked_mul(4) {
            Some(size) if size == len => Some(px),
            _ => None,
        },
    }
}

/// # The square with the given row and column offsets.
fn nine_from_offsets(
    img: &[u8],
    top: usize,
    mid: usize,
    bot: usize,
    l: usize,
    c: usize,
    r: usize,
) -> (n: Nine)
    requires
        top + r + 4 <= img@.len(),
        mid + r + 4 <= img@.len(),
        bot + r + 4 <= img@.len(),
        l <= c <= r,
    ensures
        n.0@ == nine_from(img@, top as int, mid as int, bot as int, l as int, c as int, r as int),
{
    let len: usize = img.len();
    let tl: usize = top + l;
    let tc: usize = top + c;
    let tr: usize = top + r;
    let ml: usize = mid + l;
    let mc: usize = mid + c;
    let mr: usize = mid + r;
    let bl: usize = bot + l;
    let bc: usize = bot + c;
    let br: usize = bot + r;
    let out: [u8; 36] = [
            img[tl], img[tl + 1], img[tl + 2], img[tl + 3],
            img[tc], img[tc + 1], img[tc + 2], img[tc + 3],
            img[tr], img[tr + 1], img[tr + 2], img[tr + 3],
            img[ml], img[ml + 1], img[ml + 2], img[ml + 3],
            img[mc], img[mc + 1], img[mc + 2], img[mc + 3],
            img[mr], img[mr + 1], img[mr + 2], img[mr + 3],
            img[bl], img[bl + 1], img[bl + 2], img[bl + 3],
            img[bc], img[bc + 1], img[bc + 2], img[bc + 3],
            img[br], img[br + 1], img[br + 2], img[br + 3],
    ];
    assert(out@ =~= nine_from(img@, top as int, mid as int, bot as int, l as int, c as int, r as int));
    Nine(out)
}

/// # The Square Around a Pixel.
///
/// Pixel `p` of a `width` by `height` image, counted row by row, with its
/// eight neighbors.
pub fn nine_at(img: &[u8], width: usize, height: usize, p: usize) -> (n: Nine)
    requires
        valid_dims(img@.len() as int, width as int, height as int),
        p < width * height,
    ensures n.0@ == nine_of(img@, width as int, height as int, p as int),
{
    let len: usize = img.len();
    proof { lemma_pixel_pos(width as int, height as int, p as int); }
    let rs: usize = width * 4;
    let x: usize = p % width;
    let y: usize = p / width;
    let mid: usize = y * rs;
    let top: usize = if y == 0 { 0 } else { mid - rs };
    let bot: usize = if y + 1 < height { mid + rs } else { mid };
    let c: usize = x * 4;
    let l: usize = if x == 0 { c } else { c - 4 };
    let r: usize = if x + 1 < width { c + 4 } else { c };
    nine_from_offsets(img, top, mid, bot, l, c, r)
}

/// # All the Squares.
///
/// The square around each pixel of the image, row by row. Nothing if the
/// image is narrower or shorter than three pixels, or if the buffer does not
/// hold exactly four bytes per pixel.
pub fn the_nines(img: &[u8], width: usize, height: usize) -> (out: Vec<Nine>)
    ensures
        valid_dims(img@.len() as int, width as int, height as int) ==> {
            &&& out@.len() == width * height
            &&& forall|i: int| 0 <= i < out@.len() ==>
                #[trigger] out@[i].0@ == nine_of(img@, width as int, height as int, i)
        },
        !valid_dims(img@.len() as int, width as int, height as int) ==> out@.len() == 0,
{
    let mut out: Vec<Nine> = Vec::new();
    match checked_pixels(img.len(), width, height) {
        None => out,
        Some(total) => {
            let mut p: usize = 0;
            while p < total
                invariant
                    valid_dims(img@.len() as int, width as int, height as int),
                    total == width * height,
                    p <= total,
                    out@.len() == p,
                    forall|i: int| 0 <= i < p ==>
                        #[trigger] out@[i].0@ == nine_of(img@, width as int, height as int, i),
                decreases total - p,
            {
                let n: Nine = nine_at(img, width, height, p);
                out.push(n);
                p += 1;
            }
            out
        },
    }
}


// ---------------------------------------------------------------------------
// Whole-image passes.
// ---------------------------------------------------------------------------

/// # The replacement, if any, for the center of a square in a blur pass.
///
/// Only pixels with some transparency are touched.
pub open spec fn pass_px(n: Seq<u8>, weighted: bool) -> Option<Seq<u8>> {
    if n[19] != 255 {
        if weighted { weighted_spec(n) } else { averaged_spec(n) }
    } else {
        None
    }
}

/// # An image after one blur pass.
///
/// Every replacement is computed from the image as it was before the pass.
/// Images the square operations do not accept stay as they are.
pub open spec fn pass_spec(img: Seq<u8>, w: int, h: int, weighted: bool) -> Seq<u8> {
    if valid_dims(img.len() as int, w, h) {
        Seq::new(img.len(), |k: int|
            match pass_px(nine_of(img, w, h, k / 4), weighted) {
                Some(px) => px[k % 4],
                None => img[k],
            }
        )
    } else {
        img
    }
}

/// # Does the square count toward the neutral color?
///
/// Its center is semi-transparent and it touches an invisible pixel.
pub open spec fn neutral_term(n: Seq<u8>) -> bool {
    0 < n[19] && n[19] < 255 && any_invisible(n)
}

/// # Weighted sum of channel `c` (or, for `c == 3`, the weight alone) over
/// the counting squares of the first `k` pixels.
pub open spec fn neutral_acc(img: Seq<u8>, w: int, h: int, c: int, k: int) -> int
    decreases k,
{
    if k <= 0 {
        0
    } else {
        let n = nine_of(img, w, h, k - 1);
        neutral_acc(img, w, h, c, k - 1) + if neutral_term(n) {
            (if c < 3 { n[16 + c] as int } else { 1 }) * (256 - n[19])
        } else {
            0
        }
    }
}

/// # The neutral color for invisible pixels, if there is one.
///
/// The weighted average color of the semi-transparent pixels that border
/// invisible ones, with an alpha of zero.
pub open spec fn neutral_spec(img: Seq<u8>, w: int, h: int) -> Option<Seq<u8>> {
    if valid_dims(img.len() as int, w, h) {
        let t = neutral_acc(img, w, h, 3, w * h);
        if t > 0 {
            Some(seq![
                (neutral_acc(img, w, h, 0, w * h) / t) as u8,
                (neutral_acc(img, w, h, 1, w * h) / t) as u8,
                (neutral_acc(img, w, h, 2, w * h) / t) as u8,
                0u8,
            ])
        } else {
            None
        }
    } else {
        None
    }
}

/// # An image with every invisible pixel set to `avg`.
pub open spec fn fill_spec(img: Seq<u8>, avg: Seq<u8>) -> Seq<u8> {
    Seq::new(img.len(), |k: int|
        if (k / 4) * 4 + 3 < img.len() && img[(k / 4) * 4 + 3] == 0 { avg[k % 4] } else { img[k] }
    )
}

/// # An image after the alpha clean-up.
pub open spec fn clean_alpha_spec(img: Seq<u8>, w: int, h: int) -> Seq<u8> {
    match neutral_spec(img, w, h) {
        None => img,
        Some(avg) => pass_spec(pass_spec(fill_spec(img, avg), w, h, true), w, h, false),
    }
}

/// # Neutral sums stay within a byte times the total weight.
proof fn lemma_neutral_bound(img: Seq<u8>, w: int, h: int, c: int, k: int)
    requires 0 <= c < 3, 0 <= k,
    ensures
        0 <= neutral_acc(img, w, h, c, k) <= 255 * neutral_acc(img, w, h, 3, k),
        0 <= neutral_acc(img, w, h, 3, k) <= 256 * k,
    decreases k,
{
    if k > 0 {
        lemma_neutral_bound(img, w, h, c, k - 1);
        let n = nine_of(img, w, h, k - 1);
        let v: int = n[16 + c] as int;
        let wt: int = 256 - n[19];
        assert(0 <= v * wt <= 255 * wt) by (nonlinear_arith)
            requires 0 <= v <= 255, 0 <= wt <= 256;
    }
}

/// # Bytes `4p..4p + 4` split as pixel `p` and channel `c`.
proof fn lemma_quad(p: int, c: int)
    requires 0 <= c < 4,
    ensures (4 * p + c) / 4 == p, (4 * p + c) % 4 == c,
{}

/// # One Blur Pass.
///
/// A copy of the image in which each pixel with some transparency takes
/// the weighted (or the straight) average of its square, as computed from
/// the image before the pass.
fn blur_pass(img: &Vec<u8>, width: usize, height: usize, weighted: bool) -> (out: Vec<u8>)
    ensures out@ == pass_spec(img@, width as int, height as int, weighted),
{
    let mut out: Vec<u8> = img.clone();
    assert(out@ =~= img@);
    match checked_pixels(img.len(), width, height) {
        None => out,
        Some(total) => {
            let ghost want: Seq<u8> = pass_spec(img@, width as int, height as int, weighted);
            let len: usize = img.len();
            let mut p: usize = 0;
            while p < total
                invariant
                    len == img@.len(),
                    valid_dims(img@.len() as int, width as int, height as int),
                    want == pass_spec(img@, width as int, height as int, weighted),
                    total == width * height,
                    p <= total,
                    out@.len() == img@.len(),
                    forall|k: int| 0 <= k < 4 * p ==> #[trigger] out@[k] == want[k],
                    forall|k: int| 4 * p <= k < out@.len() ==> #[trigger] out@[k] == img@[k],
                decreases total - p,
            {
                let n: Nine = nine_at(img.as_slice(), width, height, p);
                let base: usize = p * 4;
                proof {
                    assert forall|c: int| 0 <= c < 4 implies
                        #[trigger] ((4 * p + c) / 4) == p && (4 * p + c) % 4 == c by {
                        lemma_quad(p as int, c);
                    }
                }
                if n.has_alpha() {
                    let ch: Option<[u8; 4]> = if weighted { n.weighted() } else { n.averaged() };
                    if let Some(px) = ch {
                        out[base] = px[0];
                        out[base + 1] = px[1];
                        out[base + 2] = px[2];
                        out[base + 3] = px[3];
                    }
                }
                assert forall|k: int| 0 <= k < 4 * (p + 1) implies #[trigger] out@[k] == want[k] by {
                    if k >= 4 * p {
                        lemma_quad(p as int, k - 4 * p);
                    }
                }
                p += 1;
            }
            assert(out@ =~= want);
            out
        },
    }
}

/// # Blur Alpha.
///
/// This optimization pass adjusts the colors of transparent pixels (visible or
/// otherwise) appearing next to visible pixels: first toward the weighted
/// average of their squares, then toward the straight average.
///
/// The less visible a pixel is, the more we can shift it.
pub fn blur_alpha(img: &mut Vec<u8>, width: usize, height: usize)
    ensures
        final(img)@ == pass_spec(
            pass_spec(old(img)@, width as int, height as int, true),
            width as int,
            height as int,
            false,
        ),
{
    let first: Vec<u8> = blur_pass(img, width, height, true);
    *img = blur_pass(&first, width, height, false);
}

/// # Neutral Pixel.
///
/// The weighted average color of the semi-transparent pixels appearing next
/// to fully transparent pixels, a suitable "default" for invisible pixels
/// image-wide; `None` if there are no such pixels.
pub fn neutral_pixel(img: &[u8], width: usize, height: usize) -> (res: Option<[u8; 4]>)
    ensures px_matches(res, neutral_spec(img@, width as int, height as int)),
{
    match checked_pixels(img.len(), width, height) {
        None => None,
        Some(total) => {
            let ghost wi: int = width as int;
            let ghost hi: int = height as int;
            let mut r: u128 = 0;
            let mut g: u128 = 0;
            let mut b: u128 = 0;
            let mut t: u128 = 0;
            let mut p: usize = 0;
            while p < total
                invariant
                    valid_dims(img@.len() as int, wi, hi),
                    wi == width, hi == height,
                    total == width * height,
                    p <= total,
                    r == neutral_acc(img@, wi, hi, 0, p as int),
                    g == neutral_acc(img@, wi, hi, 1, p as int),
                    b == neutral_acc(img@, wi, hi, 2, p as int),
                    t == neutral_acc(img@, wi, hi, 3, p as int),
                decreases total - p,
            {
                proof {
                    lemma_neutral_bound(img@, wi, hi, 0, p as int);
                    lemma_neutral_bound(img@, wi, hi, 1, p as int);
                    lemma_neutral_bound(img@, wi, hi, 2, p as int);
                }
                let n: Nine = nine_at(img, width, height, p);
                if n.is_semi_transparent() && n.has_invisible() {
                    let weight: u128 = 256 - n.alpha() as u128;
                    let vr: u128 = n.red() as u128;
                    let vg: u128 = n.green() as u128;
                    let vb: u128 = n.blue() as u128;
                    assert(vr * weight <= 65280 && vg * weight <= 65280 && vb * weight <= 65280)
                        by (nonlinear_arith)
                        requires vr <= 255, vg <= 255, vb <= 255, weight <= 256;
                    r = r + vr * weight;
                    g = g + vg * weight;
                    b = b + vb * weight;
                    t = t + weight;
                }
                p += 1;
            }

            // We only need to continue if we found the pixels we were looking for.
            if t > 0 {
                proof {
                    lemma_neutral_bound(img@, wi, hi, 0, p as int);
                    lemma_neutral_bound(img@, wi, hi, 1, p as int);
                    lemma_neutral_bound(img@, wi, hi, 2, p as int);
                    lemma_avg_byte(r as int, t as int);
                    lemma_avg_byte(g as int, t as int);
                    lemma_avg_byte(b as int, t as int);
                }
                let avg: [u8; 4] = [(r / t) as u8, (g / t) as u8, (b / t) as u8, 0];
                assert(avg@ =~= neutral_spec(img@, wi, hi)->0);
                Some(avg)
            } else {
                None
            }
        },
    }
}

/// # Fill Invisible Pixels.
///
/// Every pixel whose alpha is zero becomes `avg`.
fn fill_invisible(img: &mut Vec<u8>, avg: [u8; 4])
    ensures final(img)@ == fill_spec(old(img)@, avg@),
{
    let ghost orig: Seq<u8> = img@;
    let ghost want: Seq<u8> = fill_spec(orig, avg@);
    let len: usize = img.len();
    let count: usize = len / 4;
    let mut q: usize = 0;
    while q < count
        invariant
            len == orig.len(),
            count == len / 4,
            want == fill_spec(orig, avg@),
            q <= count,
            img@.len() == len,
            forall|k: int| 0 <= k < 4 * q ==> #[trigger] img@[k] == want[k],
            forall|k: int| 4 * q <= k < len ==> #[trigger] img@[k] == orig[k],
        decreases count - q,
    {
        let base: usize = q * 4;
        proof {
            assert forall|c: int| 0 <= c < 4 implies
                #[trigger] ((4 * q + c) / 4) == q && (4 * q + c) % 4 == c by {
                lemma_quad(q as int, c);
            }
        }
        if img[base + 3] == 0 {
            img[base] = avg[0];
            img[base + 1] = avg[1];
            img[base + 2] = avg[2];
            img[base + 3] = avg[3];
        }
        assert forall|k: int| 0 <= k < 4 * (q + 1) implies #[trigger] img@[k] == want[k] by {
            if k >= 4 * q {
                lemma_quad(q as int, k - 4 * q);
            }
        }
        q += 1;
    }
    assert forall|k: int| 4 * q <= k < len implies #[trigger] img@[k] == want[k] by {
        assert(!((k / 4) * 4 + 3 < len));
    }
    assert(img@ =~= want);
}

/// # Clean Up the Alpha!
///
/// For images with alpha channel data, three rounds of optimizations are
/// performed to improve later encoder efficiency and output compression:
///
/// * Fully transparent pixels are assigned a weighted, neutral color.
/// * Pixels with any degree of transparency appearing next to visible pixels have their colors shifted to a weighted average of said neighbors.
/// * Those same pixels are then averaged again to smooth out the edges.
///
/// Images without semi-transparent pixels next to invisible ones are passed
/// through unchanged.
pub fn clean_alpha(img: &mut Vec<u8>, width: usize, height: usize)
    ensures final(img)@ == clean_alpha_spec(old(img)@, width as int, height as int),
{
    if let Some(avg) = neutral_pixel(img.as_slice(), width, height) {
        fill_invisible(img, avg);
        blur_alpha(img, width, height);
    }
}


// ---------------------------------------------------------------------------
// Laws.
// ---------------------------------------------------------------------------

/// # What a step of the clean-up keeps: the length, every alpha byte, and
/// every fully opaque pixel.
pub open spec fn keeps_alpha_and_opaque(before: Seq<u8>, after: Seq<u8>) -> bool {
    &&& after.len() == before.len()
    &&& forall|k: int| 0 <= k < before.len() && k % 4 == 3 ==> #[trigger] after[k] == before[k]
    &&& forall|p: int, c: int|
        0 <= p && 4 * p + 3 < before.len() && before[4 * p + 3] == 255 && 0 <= c < 4
            ==> #[trigger] after[4 * p + c] == before[4 * p + c]
}

/// # A blur pass keeps the alpha channel and the opaque pixels.
proof fn lemma_pass_keeps(img: Seq<u8>, w: int, h: int, weighted: bool)
    ensures keeps_alpha_and_opaque(img, pass_spec(img, w, h, weighted)),
{
    if valid_dims(img.len() as int, w, h) {
        let out = pass_spec(img, w, h, weighted);
        assert forall|k: int| 0 <= k < img.len() && k % 4 == 3 implies #[trigger] out[k] == img[k] by {
            let p: int = k / 4;
            assert(4 * p + 3 == k);
            assert(p < w * h);
            lemma_nine_center(img, w, h, p, 3);
        }
        assert forall|p: int, c: int|
            0 <= p && 4 * p + 3 < img.len() && img[4 * p + 3] == 255 && 0 <= c < 4
            implies #[trigger] out[4 * p + c] == img[4 * p + c] by {
            lemma_quad(p, c);
            assert(p < w * h);
            lemma_nine_center(img, w, h, p, 3);
        }
    }
}

/// # Filling invisible pixels with a color of zero alpha keeps the alpha
/// channel and the opaque pixels.
proof fn lemma_fill_keeps(img: Seq<u8>, avg: Seq<u8>)
    requires avg.len() == 4, avg[3] == 0,
    ensures keeps_alpha_and_opaque(img, fill_spec(img, avg)),
{
    let out = fill_spec(img, avg);
    assert forall|k: int| 0 <= k < img.len() && k % 4 == 3 implies #[trigger] out[k] == img[k] by {
        assert((k / 4) * 4 + 3 == k);
    }
    assert forall|p: int, c: int|
        0 <= p && 4 * p + 3 < img.len() && img[4 * p + 3] == 255 && 0 <= c < 4
        implies #[trigger] out[4 * p + c] == img[4 * p + c] by {
        lemma_quad(p, c);
    }
}

/// # Alpha clean-up changes colors only.
///
/// The clean-up never changes the size of the buffer or any pixel's alpha,
/// and leaves every fully opaque pixel exactly as it was: only the colors of
/// pixels with some transparency move.
pub proof fn lemma_clean_alpha_keeps(img: Seq<u8>, w: int, h: int)
    ensures keeps_alpha_and_opaque(img, clean_alpha_spec(img, w, h)),
{
    match neutral_spec(img, w, h) {
        None => {},
        Some(avg) => {
            let f = fill_spec(img, avg);
            let a = pass_spec(f, w, h, true);
            let b = pass_spec(a, w, h, false);
            lemma_fill_keeps(img, avg);
            lemma_pass_keeps(f, w, h, true);
            lemma_pass_keeps(a, w, h, false);
            assert forall|p: int, c: int|
                0 <= p && 4 * p + 3 < img.len() && img[4 * p + 3] == 255 && 0 <= c < 4
                implies #[trigger] b[4 * p + c] == img[4 * p + c] by {
                assert(f[4 * p + 3] == 255);
                assert(f[4 * p + c] == img[4 * p + c]);
                assert(a[4 * p + 3] == 255);
                assert(a[4 * p + c] == f[4 * p + c]);
            }
        },
    }
}

/// # Opaque images pass through.
///
/// An image without any alpha channel data (every alpha byte 255) comes out
/// of the clean-up unchanged.
pub proof fn lemma_clean_alpha_opaque(img: Seq<u8>, w: int, h: int)
    requires
        img.len() % 4 == 0,
        forall|p: int| 0 <= p < img.len() / 4 ==> #[trigger] img[4 * p + 3] == 255,
    ensures clean_alpha_spec(img, w, h) == img,
{
    let out = clean_alpha_spec(img, w, h);
    lemma_clean_alpha_keeps(img, w, h);
    assert forall|k: int| 0 <= k < img.len() implies #[trigger] out[k] == img[k] by {
        let p: int = k / 4;
        let c: int = k % 4;
        lemma_quad(p, c);
        assert(img[4 * p + 3] == 255);
        assert(out[4 * p + c] == img[4 * p + c]);
    }
    assert(out =~= img);
}

/// # Pixels `p` and `q` of a `w`-wide image are neighbors (or the same):
/// their columns and rows differ by at most one.
pub open spec fn neighbors(w: int, p: int, q: int) -> bool {
    -1 <= q % w - p % w <= 1 && -1 <= q / w - p / w <= 1
}

/// # The alpha bytes of a square are those of neighbors.
///
/// Entry `i` of the square around pixel `p` is the alpha of some pixel `q`
/// of the image next to `p`.
proof fn lemma_nine_alpha(img: Seq<u8>, w: int, h: int, p: int, i: int) -> (q: int)
    requires valid_dims(img.len() as int, w, h), 0 <= p < w * h, 0 <= i < 9,
    ensures
        0 <= q < w * h,
        neighbors(w, p, q),
        nine_of(img, w, h, p)[4 * i + 3] == img[4 * q + 3],
        0 <= p / w + i / 3 - 1 < h ==> q / w == p / w + i / 3 - 1,
        0 <= p % w + i % 3 - 1 < w ==> q % w == p % w + i % 3 - 1,
{
    lemma_pixel_pos(w, h, p);
    let x: int = p % w;
    let y: int = p / w;
    let rs: int = w * 4;
    let ry: int = i / 3;
    let cx: int = i % 3;
    let yy: int = if ry == 0 { if y == 0 { 0 } else { y - 1 } }
        else if ry == 1 { y }
        else { if y + 1 < h { y + 1 } else { y } };
    let xx: int = if cx == 0 { if x == 0 { x } else { x - 1 } }
        else if cx == 1 { x }
        else { if x + 1 < w { x + 1 } else { x } };
    let q: int = yy * w + xx;
    assert(0 <= yy < h && 0 <= xx < w);
    vstd::arithmetic::div_mod::lemma_fundamental_div_mod_converse(q, w, yy, xx);
    assert(0 <= q < w * h) by (nonlinear_arith)
        requires q == yy * w + xx, 0 <= yy < h, 0 <= xx < w;
    assert(4 * q + 3 == yy * rs + xx * 4 + 3) by (nonlinear_arith)
        requires q == yy * w + xx, rs == w * 4;
    assert((y - 1) * rs == y * rs - rs && (y + 1) * rs == y * rs + rs) by (nonlinear_arith);
    let n = nine_of(img, w, h, p);
    assert(n[4 * i + 3] == img[yy * rs + xx * 4 + 3]) by {
        assert(i == 3 * ry + cx);
        if i == 0 {} else if i == 1 {} else if i == 2 {} else if i == 3 {}
        else if i == 4 {} else if i == 5 {} else if i == 6 {} else if i == 7 {} else {}
    }
    q
}

/// # Images with no semi-transparent edge pass through.
///
/// If no pixel with an alpha strictly between 0 and 255 has a fully
/// transparent neighbor (the eight around it, within the image), there is
/// no neutral color, and the alpha clean-up gives the image back unchanged.
pub proof fn lemma_clean_alpha_no_edges(img: Seq<u8>, w: int, h: int)
    requires
        forall|p: int, q: int|
            #![trigger img[4 * p + 3], img[4 * q + 3]]
            0 <= p < w * h && 0 <= q < w * h && 0 < img[4 * p + 3] < 255 && neighbors(w, p, q)
                ==> img[4 * q + 3] != 0,
    ensures
        neutral_spec(img, w, h) is None,
        clean_alpha_spec(img, w, h) == img,
{
    if valid_dims(img.len() as int, w, h) {
        lemma_no_edge_terms(img, w, h, w * h);
    }
}

/// # No square counts toward the neutral color without a semi-transparent
/// edge.
proof fn lemma_no_edge_terms(img: Seq<u8>, w: int, h: int, k: int)
    requires
        valid_dims(img.len() as int, w, h),
        0 <= k <= w * h,
        forall|p: int, q: int|
            #![trigger img[4 * p + 3], img[4 * q + 3]]
            0 <= p < w * h && 0 <= q < w * h && 0 < img[4 * p + 3] < 255 && neighbors(w, p, q)
                ==> img[4 * q + 3] != 0,
    ensures neutral_acc(img, w, h, 3, k) == 0,
    decreases k,
{
    if k > 0 {
        lemma_no_edge_terms(img, w, h, k - 1);
        let p: int = k - 1;
        let n = nine_of(img, w, h, p);
        lemma_nine_center(img, w, h, p, 3);
        if neutral_term(n) {
            let i = choose|i: int| 0 <= i < 9 && #[trigger] n[4 * i + 3] == 0;
            let q = lemma_nine_alpha(img, w, h, p, i);
            assert(img[4 * q + 3] == 0);
            assert(0 < img[4 * p + 3] < 255);
            assert(false);
        }
    }
}

/// # Every neighbor's alpha sits in the square.
proof fn lemma_neighbor_in_nine(img: Seq<u8>, w: int, h: int, p: int, q: int)
    requires
        valid_dims(img.len() as int, w, h),
        0 <= p < w * h,
        0 <= q < w * h,
        neighbors(w, p, q),
    ensures
        exists|i: int| 0 <= i < 9 && #[trigger] nine_of(img, w, h, p)[4 * i + 3] == img[4 * q + 3],
{
    lemma_pixel_pos(w, h, p);
    lemma_pixel_pos(w, h, q);
    let dy: int = q / w - p / w + 1;
    let dx: int = q % w - p % w + 1;
    let i: int = 3 * dy + dx;
    assert(i / 3 == dy && i % 3 == dx);
    let q2 = lemma_nine_alpha(img, w, h, p, i);
    lemma_pixel_pos(w, h, q2);
    vstd::arithmetic::div_mod::lemma_fundamental_div_mod(q, w);
    vstd::arithmetic::div_mod::lemma_fundamental_div_mod(q2, w);
    assert(q2 == q);
    assert(nine_of(img, w, h, p)[4 * i + 3] == img[4 * q + 3]);
}

/// # Neutral sums only grow.
proof fn lemma_neutral_grows(img: Seq<u8>, w: int, h: int, p: int, k: int)
    requires 0 <= p < k,
    ensures
        neutral_acc(img, w, h, 3, k) >= neutral_acc(img, w, h, 3, p + 1),
        neutral_acc(img, w, h, 3, p + 1) >= neutral_acc(img, w, h, 3, p),
    decreases k,
{
    if k > p + 1 {
        lemma_neutral_grows(img, w, h, p, k - 1);
    }
    lemma_neutral_bound(img, w, h, 0, p);
}

/// # Images with a semi-transparent edge get a neutral color.
///
/// If some pixel with an alpha strictly between 0 and 255 has a fully
/// transparent neighbor, there is a neutral color, and it is invisible
/// (alpha 0).
pub proof fn lemma_neutral_found(img: Seq<u8>, w: int, h: int, p: int, q: int)
    requires
        valid_dims(img.len() as int, w, h),
        0 <= p < w * h,
        0 <= q < w * h,
        0 < img[4 * p + 3] < 255,
        neighbors(w, p, q),
        img[4 * q + 3] == 0,
    ensures
        neutral_spec(img, w, h) matches Some(c) && c[3] == 0,
{
    lemma_neighbor_in_nine(img, w, h, p, q);
    lemma_nine_center(img, w, h, p, 3);
    let n = nine_of(img, w, h, p);
    assert(neutral_term(n));
    lemma_neutral_grows(img, w, h, p, w * h);
    lemma_neutral_bound(img, w, h, 0, p);
    assert(neutral_acc(img, w, h, 3, p + 1) > neutral_acc(img, w, h, 3, p));
}

} // verus!
