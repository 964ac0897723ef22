//! # Color Kind.

use vstd::prelude::*;

verus! {

#[derive(Debug, Clone, Copy, PartialEq, Eq, Structural)]
/// # Source Image Color.
///
/// Which color channels are used by a given image. Alpha kinds require at
/// least one alpha value below `255`; greyscale kinds require that every
/// pixel has equal R, G, and B values.
pub enum ColorKind {
    /// # Greyscale.
    Grey,
    /// # Greyscale with Alpha.
    GreyAlpha,
    /// # RGB.
    Rgb,
    /// # RGB with Alpha.
    Rgba,
}

/// # Channel count of a color kind.
pub open spec fn channels_of(c: ColorKind) -> int {
    match c {
        ColorKind::Grey => 1,
        ColorKind::GreyAlpha => 2,
        ColorKind::Rgb => 3,
        ColorKind::Rgba => 4,
    }
}

/// # Pixel `i` of an RGBA buffer uses color (R, G and B are not all equal).
pub open spec fn px_is_color(s: Seq<u8>, i: int) -> bool {
    s[4 * i] != s[4 * i + 1] || s[4 * i] != s[4 * i + 2]
}

/// # Pixel `i` of an RGBA buffer is not fully opaque.
pub open spec fn px_has_alpha(s: Seq<u8>, i: int) -> bool {
    s[4 * i + 3] != 255
}

/// # Some whole pixel among the first `n` uses color.
pub open spec fn any_color(s: Seq<u8>, n: int) -> bool {
    exists|i: int| 0 <= i < n && #[trigger] px_is_color(s, i)
}

/// # Some whole pixel among the first `n` has alpha.
pub open spec fn any_alpha(s: Seq<u8>, n: int) -> bool {
    exists|i: int| 0 <= i < n && #[trigger] px_has_alpha(s, i)
}

/// # The color kind of an RGBA buffer (trailing partial pixels are ignored).
pub open spec fn color_of(s: Seq<u8>) -> ColorKind {
    let n: int = (s.len() / 4) as int;
    let color = any_color(s, n);
    let alpha = any_alpha(s, n);
    if color && alpha { ColorKind::Rgba }
    else if color { ColorKind::Rgb }
    else if alpha { ColorKind::GreyAlpha }
    else { ColorKind::Grey }
}

/// # Getters.
impl ColorKind {
    /// # Total Channels.
    pub fn channels(self) -> (r: u32)
        ensures r == channels_of(self),
    {
        match self {
            Self::Grey => 1,
            Self::GreyAlpha => 2,
            Self::Rgb => 3,
            Self::Rgba => 4,
        }
    }

    /// # Color Channels.
    ///
    /// Return the number of channels used by color, e.g. 3 for RGB.
    pub fn color_channels(self) -> (r: u32)
        ensures r == (if self is Grey || self is GreyAlpha { 1u32 } else { 3u32 }),
    {
        match self {
            Self::Grey | Self::GreyAlpha => 1,
            Self::Rgb | Self::Rgba => 3,
        }
    }

    /// # Extra Channels.
    ///
    /// Return the number of extra channels, i.e. one for alpha.
    pub fn extra_channels(self) -> (r: u32)
        ensures r == (if self is GreyAlpha || self is Rgba { 1u32 } else { 0u32 }),
    {
        match self {
            Self::GreyAlpha | Self::Rgba => 1,
            _ => 0,
        }
    }

    /// # Is Color?
    pub fn is_color(self) -> (r: bool)
        ensures r == (self is Rgb || self is Rgba),
    {
        matches!(self, Self::Rgb | Self::Rgba)
    }

    /// # Is Greyscale?
    pub fn is_greyscale(self) -> (r: bool)
        ensures r == (self is Grey || self is GreyAlpha),
    {
        matches!(self, Self::Grey | Self::GreyAlpha)
    }

    /// # Has Alpha?
    pub fn has_alpha(self) -> (r: bool)
        ensures r == (self is GreyAlpha || self is Rgba),
    {
        matches!(self, Self::GreyAlpha | Self::Rgba)
    }

    /// # From RGBA.
    ///
    /// Find out whether the 4-byte pixel slice is using any color or alpha
    /// channels.
    pub fn from_rgba(src: &[u8]) -> (r: ColorKind)
        ensures r == color_of(src@),
    {
        let n: usize = src.len() / 4;
        assert(4 * n <= src.len());
        let mut color: bool = false;
        let mut alpha: bool = false;
        let mut i: usize = 0;
        while i < n
            invariant
                n as int == (src@.len() / 4) as int,
                4 * n <= src.len(),
                src.len() == src@.len(),
                i <= n,
                color == any_color(src@, i as int),
                alpha == any_alpha(src@, i as int),
                !(color && alpha),
            decreases n - i,
        {
            let base: usize = 4 * i;
            if !color && (src[base] != src[base + 1] || src[base] != src[base + 2]) {
                color = true;
                assert(px_is_color(src@, i as int));
                if alpha {
                    assert(any_color(src@, n as int));
                    assert(any_alpha(src@, n as int));
                    return Self::Rgba;
                }
            }
            if !alpha && src[base + 3] != 255 {
                alpha = true;
                assert(px_has_alpha(src@, i as int));
                if color {
                    assert(any_color(src@, n as int));
                    assert(any_alpha(src@, n as int));
                    return Self::Rgba;
                }
            }
            assert(color == any_color(src@, i + 1)) by {
                if any_color(src@, i + 1) && !any_color(src@, i as int) {
                    assert(px_is_color(src@, i as int));
                }
            }
            assert(alpha == any_alpha(src@, i + 1)) by {
                if any_alpha(src@, i + 1) && !any_alpha(src@, i as int) {
                    assert(px_has_alpha(src@, i as int));
                }
            }
            i = i + 1;
        }
        assert(i == n);
        assert(color == any_color(src@, (src@.len() / 4) as int));
        assert(alpha == any_alpha(src@, (src@.len() / 4) as int));
        if color { Self::Rgb }
        else if alpha { Self::GreyAlpha }
        else { Self::Grey }
    }
}

} // verus!
