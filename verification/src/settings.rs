//! # Program Settings.
//!
//! The program keeps its settings — which formats to encode to, which
//! encoding modes to try, and a few other toggles — as bits of a `u16`.
//! This module holds those bits, their upkeep (at least one format and one
//! mode are always enabled), and the choice of the next encoder for an
//! image.

use vstd::prelude::*;
use crate::{ImageKind, RefractError};
use crate::{FLAG_NO_AVIF_YCBCR, FLAG_NO_LOSSLESS, FLAG_NO_LOSSY};

verus! {

/// # Format: AVIF.
pub const FMT_AVIF: u16 = 0b0000_0000_0001;

/// # Format: JPEG XL.
pub const FMT_JXL: u16 = 0b0000_0000_0010;

/// # Format: WebP.
pub const FMT_WEBP: u16 = 0b0000_0000_0100;

/// # Mode: Lossless.
pub const MODE_LOSSLESS: u16 = 0b0000_0000_1000;

/// # Mode: Lossy.
pub const MODE_LOSSY: u16 = 0b0000_0001_0000;

/// # Mode: Lossy + YCBCR.
///
/// This only applies for AVIF conversions.
pub const MODE_LOSSY_YCBCR: u16 = 0b0000_0010_0000;

/// # Show B (Candidate) Image.
pub const OTHER_BSIDE: u16 = 0b0000_0100_0000;

/// # Exit After.
pub const OTHER_EXIT_AUTO: u16 = 0b0000_1000_0000;

/// # Night Mode.
pub const OTHER_NIGHT: u16 = 0b0001_0000_0000;

/// # Save w/o Prompt.
pub const OTHER_SAVE_AUTO: u16 = 0b0010_0000_0000;

/// # New Encoder.
pub const SWITCHED_ENCODER: u16 = 0b0100_0000_0000;

/// # All Formats.
pub const FMT_FLAGS: u16 = 0b0000_0000_0111;

/// # All Modes.
pub const MODE_FLAGS: u16 = 0b0000_0001_1000;

/// # Default Flags.
pub const DEFAULT_FLAGS: u16 = 0b0000_0011_1111;

// ---------------------------------------------------------------------------
// Specifications.
// ---------------------------------------------------------------------------

/// # Every bit of `flag` is set in `flags`.
pub open spec fn on(flags: u16, flag: u16) -> bool {
    flags & flag == flag
}

/// # At least one format and one mode are enabled.
pub open spec fn sane(flags: u16) -> bool {
    flags & FMT_FLAGS != 0 && flags & MODE_FLAGS != 0
}

/// # Flags with all formats (or all modes) switched back on if none were.
pub open spec fn sanitized(flags: u16) -> u16 {
    let f = if flags & FMT_FLAGS == 0 { flags | FMT_FLAGS } else { flags };
    if f & MODE_FLAGS == 0 { f | MODE_FLAGS } else { f }
}

/// # The formats enabled, in the order they are encoded: WebP, AVIF, JPEG XL.
pub open spec fn encoders_of(flags: u16) -> Seq<ImageKind> {
    (if on(flags, FMT_WEBP) { seq![ImageKind::Webp] } else { Seq::empty() })
    + (if on(flags, FMT_AVIF) { seq![ImageKind::Avif] } else { Seq::empty() })
    + (if on(flags, FMT_JXL) { seq![ImageKind::Jxl] } else { Seq::empty() })
}

/// # The next format to encode to and the flags left once it is taken.
pub open spec fn pick_spec(flags: u16) -> Option<(ImageKind, u16)> {
    if on(flags, FMT_WEBP) { Some((ImageKind::Webp, flags & !FMT_WEBP)) }
    else if on(flags, FMT_AVIF) { Some((ImageKind::Avif, flags & !FMT_AVIF)) }
    else if on(flags, FMT_JXL) { Some((ImageKind::Jxl, flags & !FMT_JXL)) }
    else { None }
}

/// # The encoder flags that carry the mode settings.
///
/// Without lossy encoding there is nothing to do in `YCbCr` either.
pub open spec fn encoder_flags_spec(flags: u16) -> u8 {
    if flags & MODE_LOSSY == 0 {
        FLAG_NO_LOSSY | FLAG_NO_AVIF_YCBCR
    } else {
        (if flags & MODE_LOSSLESS == 0 { FLAG_NO_LOSSLESS } else { 0u8 })
        | (if flags & MODE_LOSSY_YCBCR == 0 { FLAG_NO_AVIF_YCBCR } else { 0u8 })
    }
}

// ---------------------------------------------------------------------------
// Bits.
// ---------------------------------------------------------------------------

/// # Sanitized flags are sane, and sane flags are left alone.
proof fn lemma_sanitized_bits(f: u16)
    by (bit_vector)
    ensures
        sanitized(f) & FMT_FLAGS != 0,
        sanitized(f) & MODE_FLAGS != 0,
        (f & FMT_FLAGS != 0 && f & MODE_FLAGS != 0) ==> sanitized(f) == f,
{}

/// # Taking a format clears its bit and keeps every other bit.
proof fn lemma_take_bits(f: u16)
    by (bit_vector)
    ensures
        (f & !4u16) & 4u16 == 0,
        (f & !4u16) & 1u16 == f & 1u16,
        (f & !4u16) & 2u16 == f & 2u16,
        (f & !4u16) & 8u16 == f & 8u16,
        (f & !4u16) & 16u16 == f & 16u16,
        (f & !4u16) & 32u16 == f & 32u16,
        (f & !1u16) & 1u16 == 0,
        (f & !1u16) & 2u16 == f & 2u16,
        (f & !1u16) & 4u16 == f & 4u16,
        (f & !1u16) & 8u16 == f & 8u16,
        (f & !1u16) & 16u16 == f & 16u16,
        (f & !1u16) & 32u16 == f & 32u16,
        (f & !2u16) & 2u16 == 0,
        (f & !2u16) & 1u16 == f & 1u16,
        (f & !2u16) & 4u16 == f & 4u16,
        (f & !2u16) & 8u16 == f & 8u16,
        (f & !2u16) & 16u16 == f & 16u16,
        (f & !2u16) & 32u16 == f & 32u16,
{}

/// # Sanitized flags are sane.
pub proof fn lemma_sanitized_sane(flags: u16)
    ensures
        sane(sanitized(flags)),
        sane(flags) ==> sanitized(flags) == flags,
{
    lemma_sanitized_bits(flags);
}

// ---------------------------------------------------------------------------
// Executable.
// ---------------------------------------------------------------------------

/// # Sanitize Flags.
///
/// If the format or mode flags got completely unset, flip all of their bits
/// back on.
pub fn sanitize(flags: u16) -> (r: u16)
    ensures r == sanitized(flags), sane(r),
{
    proof { lemma_sanitized_sane(flags); }
    let f: u16 = if flags & FMT_FLAGS == 0 { flags | FMT_FLAGS } else { flags };
    if f & MODE_FLAGS == 0 { f | MODE_FLAGS } else { f }
}

/// # Has Flag?
///
/// Returns true if every bit of `flag` is set.
pub fn has_flag(flags: u16, flag: u16) -> (r: bool)
    ensures r == on(flags, flag),
{
    flag == flags & flag
}

/// # Count Encoders.
///
/// The number of formats enabled.
pub fn count_encoders(flags: u16) -> (r: u8)
    ensures r == encoders_of(flags).len(),
{
    let a: u8 = if has_flag(flags, FMT_AVIF) { 1 } else { 0 };
    let j: u8 = if has_flag(flags, FMT_JXL) { 1 } else { 0 };
    let w: u8 = if has_flag(flags, FMT_WEBP) { 1 } else { 0 };
    a + j + w
}

/// # Encoder Flags.
///
/// This maps the mode settings to the equivalent `EncodeIter` flags.
pub fn encoder_flags(flags: u16) -> (r: u8)
    ensures r == encoder_flags_spec(flags),
{
    if flags & MODE_LOSSY == 0 {
        FLAG_NO_LOSSY | FLAG_NO_AVIF_YCBCR
    } else {
        let a: u8 = if flags & MODE_LOSSLESS == 0 { FLAG_NO_LOSSLESS } else { 0u8 };
        let b: u8 = if flags & MODE_LOSSY_YCBCR == 0 { FLAG_NO_AVIF_YCBCR } else { 0u8 };
        a | b
    }
}

/// # Next Encoder.
///
/// Pluck the next encoding format from the flags, if any — WebP first, then
/// AVIF, then JPEG XL — clearing its bit, and return it with the encoder
/// flags for the mode settings.
pub fn next_encoder(flags: &mut u16) -> (r: Option<(ImageKind, u8)>)
    ensures
        match pick_spec(*old(flags)) {
            None => r is None && *final(flags) == *old(flags),
            Some((kind, rest)) => {
                &&& r == Some((kind, encoder_flags_spec(*old(flags))))
                &&& *final(flags) == rest
            },
        },
{
    let f: u16 = *flags;
    let kind: ImageKind =
        if has_flag(f, FMT_WEBP) {
            *flags = f & !FMT_WEBP;
            ImageKind::Webp
        } else if has_flag(f, FMT_AVIF) {
            *flags = f & !FMT_AVIF;
            ImageKind::Avif
        } else if has_flag(f, FMT_JXL) {
            *flags = f & !FMT_JXL;
            ImageKind::Jxl
        } else {
            return None;
        };
    Some((kind, encoder_flags(f)))
}

/// # Encoders come out in order, each once.
///
/// Taking the next encoder yields the first of the enabled formats (WebP,
/// then AVIF, then JPEG XL) and leaves exactly the others enabled, with the
/// mode settings (and so the encoder flags) untouched; with no format left,
/// nothing is taken.
pub proof fn lemma_next_encoder_order(flags: u16)
    ensures
        pick_spec(flags) is None <==> encoders_of(flags).len() == 0,
        pick_spec(flags) matches Some((kind, rest)) ==> {
            &&& kind == encoders_of(flags)[0]
            &&& encoders_of(rest) == encoders_of(flags).drop_first()
            &&& encoder_flags_spec(rest) == encoder_flags_spec(flags)
        },
{
    lemma_take_bits(flags);
    let e = encoders_of(flags);
    match pick_spec(flags) {
        None => {},
        Some((kind, rest)) => {
            assert(encoders_of(rest) =~= e.drop_first());
        },
    }
}

/// # Message Error.
///
/// Situations in which nothing, rather than something, happens, such as
/// when a user adds a directory that doesn't have any images in it.
#[derive(Debug, Clone, Copy, PartialEq, Eq)]
pub enum MessageError {
    /// # No Images.
    NoImages,
    /// # Open Failed.
    NoOpen,
}

impl MessageError {
    /// # As Str.
    pub fn as_str(self) -> (r: &'static str)
        ensures
            r@ == (match self {
                MessageError::NoImages => "No qualifying images were found."@,
                MessageError::NoOpen => "The link could not be opened."@,
            }),
    {
        match self {
            Self::NoImages => "No qualifying images were found.",
            Self::NoOpen => "The link could not be opened.",
        }
    }
}

/// # Command-Line Switches.
///
/// The switches that affect the settings.
#[derive(Debug, Clone, Copy, PartialEq, Eq)]
pub enum CliKey {
    /// # `-e`/`--exit-auto`.
    ExitAuto,
    /// # `-h`/`--help`.
    Help,
    /// # `--no-avif`.
    NoAvif,
    /// # `--no-jxl`.
    NoJxl,
    /// # `--no-webp`.
    NoWebp,
    /// # `--no-lossless`.
    NoLossless,
    /// # `--no-lossy`.
    NoLossy,
    /// # `--no-ycbcr`.
    NoYcbcr,
    /// # `-s`/`--save-auto`.
    SaveAuto,
    /// # `-V`/`--version`.
    Version,
}

/// # The flags after one switch, or the "error" that stops the program.
pub open spec fn apply_key(flags: u16, key: CliKey) -> Result<u16, RefractError> {
    match key {
        CliKey::ExitAuto => Ok(flags | OTHER_EXIT_AUTO),
        CliKey::Help => Err(RefractError::PrintHelp),
        CliKey::NoAvif => Ok(flags & !FMT_AVIF),
        CliKey::NoJxl => Ok(flags & !FMT_JXL),
        CliKey::NoWebp => Ok(flags & !FMT_WEBP),
        CliKey::NoLossless => Ok(flags & !MODE_LOSSLESS),
        CliKey::NoLossy => Ok(flags & !MODE_LOSSY),
        CliKey::NoYcbcr => Ok(flags & !MODE_LOSSY_YCBCR),
        CliKey::SaveAuto => Ok(flags | OTHER_SAVE_AUTO),
        CliKey::Version => Err(RefractError::PrintVersion),
    }
}

/// # The flags after the first `n` switches, from the defaults.
pub open spec fn apply_keys(keys: Seq<CliKey>, n: int) -> Result<u16, RefractError>
    decreases n,
{
    if n <= 0 {
        Ok(DEFAULT_FLAGS)
    } else {
        match apply_keys(keys, n - 1) {
            Err(e) => Err(e),
            Ok(f) => apply_key(f, keys[n - 1]),
        }
    }
}

/// # Settings.
///
/// The program's settings, as flag bits. At least one format and one mode
/// are always enabled.
pub struct Settings {
    flags: u16,
}

impl View for Settings {
    type V = u16;

    closed spec fn view(&self) -> u16 {
        self.flags
    }
}

impl Settings {
    /// # Well-formed.
    pub open spec fn wf(&self) -> bool {
        sane(self@)
    }

    /// # From Switches.
    ///
    /// Start from the defaults (every format and mode) and apply the
    /// switches in order; if the formats or modes end up completely unset,
    /// all of them are switched back on.
    ///
    /// ## Errors
    ///
    /// `--help` and `--version` stop the program instead, returning the
    /// corresponding "error".
    pub fn from_args(keys: &[CliKey]) -> (r: Result<Settings, RefractError>)
        ensures
            match apply_keys(keys@, keys@.len() as int) {
                Ok(f) => r matches Ok(s) && s@ == sanitized(f) && s.wf(),
                Err(e) => r matches Err(e2) && e2 == e,
            },
    {
        let mut flags: u16 = DEFAULT_FLAGS;
        let mut i: usize = 0;
        while i < keys.len()
            invariant
                i <= keys@.len(),
                apply_keys(keys@, i as int) == Ok::<u16, RefractError>(flags),
            decreases keys@.len() - i,
        {
            match keys[i] {
                CliKey::ExitAuto => { flags = flags | OTHER_EXIT_AUTO; },
                CliKey::Help => {
                    proof { lemma_keys_stop(keys@, i as int + 1, keys@.len() as int); }
                    return Err(RefractError::PrintHelp);
                },
                CliKey::NoAvif => { flags = flags & !FMT_AVIF; },
                CliKey::NoJxl => { flags = flags & !FMT_JXL; },
                CliKey::NoWebp => { flags = flags & !FMT_WEBP; },
                CliKey::NoLossless => { flags = flags & !MODE_LOSSLESS; },
                CliKey::NoLossy => { flags = flags & !MODE_LOSSY; },
                CliKey::NoYcbcr => { flags = flags & !MODE_LOSSY_YCBCR; },
                CliKey::SaveAuto => { flags = flags | OTHER_SAVE_AUTO; },
                CliKey::Version => {
                    proof { lemma_keys_stop(keys@, i as int + 1, keys@.len() as int); }
                    return Err(RefractError::PrintVersion);
                },
            }
            i += 1;
        }
        Ok(Settings { flags: sanitize(flags) })
    }

    /// # Flags.
    pub fn flags(&self) -> (r: u16)
        ensures r == self@,
    {
        self.flags
    }

    /// # Has Flag?
    ///
    /// Returns true if a given flag is set.
    pub fn has_flag(&self, flag: u16) -> (r: bool)
        ensures r == on(self@, flag),
    {
        has_flag(self.flags, flag)
    }

    /// # Automatic?
    ///
    /// Returns true if only crunching losslessly and auto-save is enabled,
    /// i.e. no feedback will ever be asked for.
    pub fn automatic(&self) -> (r: bool)
        ensures r == (!on(self@, MODE_LOSSY) && on(self@, OTHER_SAVE_AUTO)),
    {
        !self.has_flag(MODE_LOSSY) && self.has_flag(OTHER_SAVE_AUTO)
    }

    /// # Count Encoders.
    pub fn count_encoders(&self) -> (r: u8)
        ensures r == encoders_of(self@).len(),
    {
        count_encoders(self.flags)
    }

    /// # Announce Encoder Switches?
    ///
    /// A change of encoder is worth announcing only when the user is
    /// involved and more than one encoder is enabled.
    pub fn announce_switch(&self) -> (r: bool)
        ensures
            r == (!(!on(self@, MODE_LOSSY) && on(self@, OTHER_SAVE_AUTO))
                && encoders_of(self@).len() >= 2),
    {
        !(self.automatic() || self.count_encoders() < 2)
    }

    /// # Toggle Flag.
    ///
    /// Flip the bits corresponding to a given flag, except in cases where
    /// that would leave us without any formats or modes, in which case _all_
    /// formats or modes (respectively) will be flipped back _on_.
    pub fn toggle_flag(&mut self, flag: u16)
        ensures final(self)@ == sanitized(old(self)@ ^ flag), final(self).wf(),
    {
        self.flags = sanitize(self.flags ^ flag);
    }

    /// # Set Flag.
    ///
    /// Turn the bits of a flag on.
    pub fn set_flag(&mut self, flag: u16)
        requires old(self).wf(),
        ensures final(self)@ == old(self)@ | flag, final(self).wf(),
    {
        proof { lemma_set_keeps_sane(self.flags, flag); }
        self.flags = self.flags | flag;
    }

    /// # Unset Flag.
    ///
    /// Turn the bits of a flag off, keeping at least one format and one mode
    /// enabled.
    pub fn unset_flag(&mut self, flag: u16)
        ensures final(self)@ == sanitized(old(self)@ & !flag), final(self).wf(),
    {
        self.flags = sanitize(self.flags & !flag);
    }
}

/// # Setting bits keeps flags sane.
proof fn lemma_set_keeps_sane(f: u16, b: u16)
    by (bit_vector)
    requires f & 0x07u16 != 0 && f & 0x18u16 != 0,
    ensures (f | b) & 0x07u16 != 0 && (f | b) & 0x18u16 != 0,
{}

/// # Once a switch stops the program, later switches change nothing.
proof fn lemma_keys_stop(keys: Seq<CliKey>, i: int, n: int)
    requires 1 <= i <= n, apply_keys(keys, i) is Err,
    ensures apply_keys(keys, n) == apply_keys(keys, i),
    decreases n - i,
{
    if n > i {
        lemma_keys_stop(keys, i, n - 1);
    }
}


// ---------------------------------------------------------------------------
// The switches.
// ---------------------------------------------------------------------------

/// # One of the first `n` switches is `k`.
pub open spec fn switched(keys: Seq<CliKey>, n: int, k: CliKey) -> bool {
    exists|i: int| 0 <= i < n && #[trigger] keys[i] == k
}

/// # None of the first `n` switches stops the program.
pub open spec fn no_stop(keys: Seq<CliKey>, n: int) -> bool {
    forall|i: int| 0 <= i < n ==> #[trigger] keys[i] != CliKey::Help && keys[i] != CliKey::Version
}

/// # What each switch does to each flag bit.
proof fn lemma_switch_bits(f: u16)
    by (bit_vector)
    ensures
        ((f | 128u16) & 1u16 != 0) == (f & 1u16 != 0),
        ((f | 128u16) & 2u16 != 0) == (f & 2u16 != 0),
        ((f | 128u16) & 4u16 != 0) == (f & 4u16 != 0),
        ((f | 128u16) & 8u16 != 0) == (f & 8u16 != 0),
        ((f | 128u16) & 16u16 != 0) == (f & 16u16 != 0),
        ((f | 128u16) & 32u16 != 0) == (f & 32u16 != 0),
        ((f | 128u16) & 128u16 != 0) == true,
        ((f | 128u16) & 512u16 != 0) == (f & 512u16 != 0),
        f & 0xFD40u16 == 0 ==> (f | 128u16) & 0xFD40u16 == 0,
        ((f & !1u16) & 1u16 != 0) == false,
        ((f & !1u16) & 2u16 != 0) == (f & 2u16 != 0),
        ((f & !1u16) & 4u16 != 0) == (f & 4u16 != 0),
        ((f & !1u16) & 8u16 != 0) == (f & 8u16 != 0),
        ((f & !1u16) & 16u16 != 0) == (f & 16u16 != 0),
        ((f & !1u16) & 32u16 != 0) == (f & 32u16 != 0),
        ((f & !1u16) & 128u16 != 0) == (f & 128u16 != 0),
        ((f & !1u16) & 512u16 != 0) == (f & 512u16 != 0),
        f & 0xFD40u16 == 0 ==> (f & !1u16) & 0xFD40u16 == 0,
        ((f & !2u16) & 1u16 != 0) == (f & 1u16 != 0),
        ((f & !2u16) & 2u16 != 0) == false,
        ((f & !2u16) & 4u16 != 0) == (f & 4u16 != 0),
        ((f & !2u16) & 8u16 != 0) == (f & 8u16 != 0),
        ((f & !2u16) & 16u16 != 0) == (f & 16u16 != 0),
        ((f & !2u16) & 32u16 != 0) == (f & 32u16 != 0),
        ((f & !2u16) & 128u16 != 0) == (f & 128u16 != 0),
        ((f & !2u16) & 512u16 != 0) == (f & 512u16 != 0),
        f & 0xFD40u16 == 0 ==> (f & !2u16) & 0xFD40u16 == 0,
        ((f & !4u16) & 1u16 != 0) == (f & 1u16 != 0),
        ((f & !4u16) & 2u16 != 0) == (f & 2u16 != 0),
        ((f & !4u16) & 4u16 != 0) == false,
        ((f & !4u16) & 8u16 != 0) == (f & 8u16 != 0),
        ((f & !4u16) & 16u16 != 0) == (f & 16u16 != 0),
        ((f & !4u16) & 32u16 != 0) == (f & 32u16 != 0),
        ((f & !4u16) & 128u16 != 0) == (f & 128u16 != 0),
        ((f & !4u16) & 512u16 != 0) == (f & 512u16 != 0),
        f & 0xFD40u16 == 0 ==> (f & !4u16) & 0xFD40u16 == 0,
        ((f & !8u16) & 1u16 != 0) == (f & 1u16 != 0),
        ((f & !8u16) & 2u16 != 0) == (f & 2u16 != 0),
        ((f & !8u16) & 4u16 != 0) == (f & 4u16 != 0),
        ((f & !8u16) & 8u16 != 0) == false,
        ((f & !8u16) & 16u16 != 0) == (f & 16u16 != 0),
        ((f & !8u16) & 32u16 != 0) == (f & 32u16 != 0),
        ((f & !8u16) & 128u16 != 0) == (f & 128u16 != 0),
        ((f & !8u16) & 512u16 != 0) == (f & 512u16 != 0),
        f & 0xFD40u16 == 0 ==> (f & !8u16) & 0xFD40u16 == 0,
        ((f & !16u16) & 1u16 != 0) == (f & 1u16 != 0),
        ((f & !16u16) & 2u16 != 0) == (f & 2u16 != 0),
        ((f & !16u16) & 4u16 != 0) == (f & 4u16 != 0),
        ((f & !16u16) & 8u16 != 0) == (f & 8u16 != 0),
        ((f & !16u16) & 16u16 != 0) == false,
        ((f & !16u16) & 32u16 != 0) == (f & 32u16 != 0),
        ((f & !16u16) & 128u16 != 0) == (f & 128u16 != 0),
        ((f & !16u16) & 512u16 != 0) == (f & 512u16 != 0),
        f & 0xFD40u16 == 0 ==> (f & !16u16) & 0xFD40u16 == 0,
        ((f & !32u16) & 1u16 != 0) == (f & 1u16 != 0),
        ((f & !32u16) & 2u16 != 0) == (f & 2u16 != 0),
        ((f & !32u16) & 4u16 != 0) == (f & 4u16 != 0),
        ((f & !32u16) & 8u16 != 0) == (f & 8u16 != 0),
        ((f & !32u16) & 16u16 != 0) == (f & 16u16 != 0),
        ((f & !32u16) & 32u16 != 0) == false,
        ((f & !32u16) & 128u16 != 0) == (f & 128u16 != 0),
        ((f & !32u16) & 512u16 != 0) == (f & 512u16 != 0),
        f & 0xFD40u16 == 0 ==> (f & !32u16) & 0xFD40u16 == 0,
        ((f | 512u16) & 1u16 != 0) == (f & 1u16 != 0),
        ((f | 512u16) & 2u16 != 0) == (f & 2u16 != 0),
        ((f | 512u16) & 4u16 != 0) == (f & 4u16 != 0),
        ((f | 512u16) & 8u16 != 0) == (f & 8u16 != 0),
        ((f | 512u16) & 16u16 != 0) == (f & 16u16 != 0),
        ((f | 512u16) & 32u16 != 0) == (f & 32u16 != 0),
        ((f | 512u16) & 128u16 != 0) == (f & 128u16 != 0),
        ((f | 512u16) & 512u16 != 0) == true,
        f & 0xFD40u16 == 0 ==> (f | 512u16) & 0xFD40u16 == 0,
        (0x3Fu16 & 1u16 != 0) == true,
        (0x3Fu16 & 2u16 != 0) == true,
        (0x3Fu16 & 4u16 != 0) == true,
        (0x3Fu16 & 8u16 != 0) == true,
        (0x3Fu16 & 16u16 != 0) == true,
        (0x3Fu16 & 32u16 != 0) == true,
        (0x3Fu16 & 128u16 != 0) == false,
        (0x3Fu16 & 512u16 != 0) == false,
        0x3Fu16 & 0xFD40u16 == 0,
        (f | 7u16) & 32u16 == f & 32u16, (f | 24u16) & 32u16 == f & 32u16,
        ((f | 7u16) | 24u16) & 32u16 == f & 32u16,
        (f | 7u16) & 128u16 == f & 128u16, (f | 24u16) & 128u16 == f & 128u16,
        ((f | 7u16) | 24u16) & 128u16 == f & 128u16,
        (f | 7u16) & 512u16 == f & 512u16, (f | 24u16) & 512u16 == f & 512u16,
        ((f | 7u16) | 24u16) & 512u16 == f & 512u16,
{}

/// # The flags after the first `n` switches, bit by bit.
proof fn lemma_switches_upto(keys: Seq<CliKey>, n: int)
    requires 0 <= n <= keys.len(), no_stop(keys, n),
    ensures
        apply_keys(keys, n) matches Ok(f) && {
            &&& (f & FMT_AVIF != 0) == !switched(keys, n, CliKey::NoAvif)
            &&& (f & FMT_JXL != 0) == !switched(keys, n, CliKey::NoJxl)
            &&& (f & FMT_WEBP != 0) == !switched(keys, n, CliKey::NoWebp)
            &&& (f & MODE_LOSSLESS != 0) == !switched(keys, n, CliKey::NoLossless)
            &&& (f & MODE_LOSSY != 0) == !switched(keys, n, CliKey::NoLossy)
            &&& (f & MODE_LOSSY_YCBCR != 0) == !switched(keys, n, CliKey::NoYcbcr)
            &&& (f & OTHER_EXIT_AUTO != 0) == switched(keys, n, CliKey::ExitAuto)
            &&& (f & OTHER_SAVE_AUTO != 0) == switched(keys, n, CliKey::SaveAuto)
            &&& f & 0xFD40u16 == 0
        },
    decreases n,
{
    if n == 0 {
        lemma_switch_bits(0);
    } else {
        lemma_switches_upto(keys, n - 1);
        let f = apply_keys(keys, n - 1)->Ok_0;
        lemma_switch_bits(f);
        let k = keys[n - 1];
        assert forall|x: CliKey| #[trigger] switched(keys, n, x) == (switched(keys, n - 1, x) || k == x) by {
            if switched(keys, n, x) {
                let i = choose|i: int| 0 <= i < n && #[trigger] keys[i] == x;
                if i < n - 1 { assert(switched(keys, n - 1, x)); }
            }
            if switched(keys, n - 1, x) {
                let i = choose|i: int| 0 <= i < n - 1 && #[trigger] keys[i] == x;
                assert(keys[i] == x);
            }
            if k == x { assert(keys[n - 1] == x); }
        }
        assert(keys[n - 1] != CliKey::Help && keys[n - 1] != CliKey::Version);
    }
}

/// # What the switches do.
///
/// Without `--help` or `--version`, the switches never fail, and each flag
/// depends only on whether its switch appears, not on the order: each
/// `--no-*` switch clears exactly its own format or mode (`--no-ycbcr` the
/// `YCbCr` AVIF round), `--exit-auto` and `--save-auto` set theirs, and
/// everything else stays at the defaults. Sanitizing never touches the
/// `YCbCr`, exit and save bits.
pub proof fn lemma_switches(keys: Seq<CliKey>)
    requires
        forall|i: int| 0 <= i < keys.len()
            ==> #[trigger] keys[i] != CliKey::Help && keys[i] != CliKey::Version,
    ensures
        apply_keys(keys, keys.len() as int) matches Ok(f) && {
            &&& (f & FMT_AVIF != 0) == !keys.contains(CliKey::NoAvif)
            &&& (f & FMT_JXL != 0) == !keys.contains(CliKey::NoJxl)
            &&& (f & FMT_WEBP != 0) == !keys.contains(CliKey::NoWebp)
            &&& (f & MODE_LOSSLESS != 0) == !keys.contains(CliKey::NoLossless)
            &&& (f & MODE_LOSSY != 0) == !keys.contains(CliKey::NoLossy)
            &&& (f & MODE_LOSSY_YCBCR != 0) == !keys.contains(CliKey::NoYcbcr)
            &&& (f & OTHER_EXIT_AUTO != 0) == keys.contains(CliKey::ExitAuto)
            &&& (f & OTHER_SAVE_AUTO != 0) == keys.contains(CliKey::SaveAuto)
            &&& (sanitized(f) & MODE_LOSSY_YCBCR != 0) == !keys.contains(CliKey::NoYcbcr)
            &&& (sanitized(f) & OTHER_EXIT_AUTO != 0) == keys.contains(CliKey::ExitAuto)
            &&& (sanitized(f) & OTHER_SAVE_AUTO != 0) == keys.contains(CliKey::SaveAuto)
        },
{
    let n = keys.len() as int;
    lemma_switches_upto(keys, n);
    let f = apply_keys(keys, n)->Ok_0;
    lemma_switch_bits(f);
    assert forall|x: CliKey| #[trigger] keys.contains(x) == switched(keys, n, x) by {
        if keys.contains(x) {
            let i = choose|i: int| 0 <= i < n && keys[i] == x;
            assert(keys[i] == x);
        }
        if switched(keys, n, x) {
            let i = choose|i: int| 0 <= i < n && #[trigger] keys[i] == x;
            assert(keys[i] == x);
        }
    }
}

} // verus!
