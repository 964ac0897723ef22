//! # Refract Core
//!
//! The library behind Refract, a guided image conversion tool that turns
//! JPEG and PNG sources into AVIF, JPEG XL and WebP copies by stepping
//! through encoder qualities with user feedback.

use vstd::prelude::*;

pub mod alpha;
pub mod avif;
pub mod bits;
pub mod color;
pub mod decode;
pub mod error;
pub mod image_kind;
pub mod input;
pub mod iter;
pub mod l10n;
pub mod output;
pub mod quality;
pub mod range;
pub mod session;
pub mod settings;

pub use color::ColorKind;
pub use error::RefractError;
pub use image_kind::ImageKind;
pub use input::Input;
pub use iter::{EncodeIter, EncodeRequest, Step};
pub use output::Output;
pub use quality::Quality;
pub use range::QualityRange;

verus! {

/// # Encoder Flag: Disable Lossy Encoding.
pub const FLAG_NO_LOSSY: u8 = 0b0000_0001;

/// # Encoder Flag: Disable Lossless Encoding.
pub const FLAG_NO_LOSSLESS: u8 = 0b0000_0010;

/// # Encoder Flag: Disable `YCbCr` Encoding (AVIF only).
pub const FLAG_NO_AVIF_YCBCR: u8 = 0b0000_0100;

/// # Encoder Flags that can be set from the outside.
pub const PUBLIC_FLAGS: u8 = 0b0000_0111;

/// # Encoder Flag: `AVIF` encoding uses full-range `RGB`.
pub const FLAG_AVIF_RGB: u8 = 0b0000_1000;

/// # Encoder Flag: `AVIF` second (limited-range) round has started.
pub const FLAG_AVIF_ROUND_2: u8 = 0b0001_0000;

/// # Output Flag: the buffer has been validated.
pub const FLAG_VALID: u8 = 0b0010_0000;

/// # Encoder Flag: lossless encoding has been attempted.
pub const FLAG_DID_LOSSLESS: u8 = 0b0100_0000;

} // verus!
