//! # Errors.

use vstd::prelude::*;
use crate::ImageKind;

verus! {

/// # Help Text.
pub const HELP: &'static str = "\n       ..oFaa7l;'\n   =>r??\\O@@@@QNk;\n  :|Fjjug@@@@@@@@N}}:\n ^/aPePN@@@@peWQ@Qez;\n =iKBDB@@@O^:.::\\kQO=~\n =iKQ@QWOP: ~gBQw'|Qgz,\n =i6RwEQ#s' N@RQQl i@D:   \x1b[38;5;199mRefract\x1b[0;38;5;69m v0.1.0\x1b[0m\n =?|>a@@Nv'^Q@@@Qe ,aW|   Guided image conversion from\n ==;.\\QQ@6,|Q@@@@p.;;+\\,  JPEG/PNG to AVIF/JPEG-XL/WebP.\n '\\tlFw9Wgs~W@@@@S   ,;'\n .^|QQp6D6t^iDRo;\n   ~b@BEwDEu|:::\n    rR@Q6t7|=='\n     'i6Ko\\=;\n       `''''`\n\nUSAGE:\n    refract [FLAGS] [OPTIONS] <PATH(S)>...\n\nFORMAT FLAGS:\n        --no-avif     Skip AVIF encoding.\n        --no-jxl      Skip JPEG-XL encoding.\n        --no-webp     Skip WebP encoding.\n\nMODE FLAGS:\n        --no-lossless Skip lossless encoding passes.\n        --no-lossy    Skip lossy encoding passes.\n        --no-ycbcr    Skip AVIF YCbCr encoding passes.\n\nMISC FLAGS:\n    -h, --help        Print help information and exit.\n    -s, --save-auto   Automatically save successful conversions to their source\n                      paths \u{2014} with new extensions appended \u{2014} instead of popping\n                      file dialogues for confirmation.\n    -V, --version     Print version information and exit.\n\nOPTIONS:\n    -l, --list <FILE> Read (absolute) image and/or directory paths from this\n                      text file \u{2014} or STDIN if \"-\" \u{2014} one path per line, instead\n                      of or in addition to those specified inline via\n                      <PATH(S)>.\n\nTRAILING ARGS:\n    <PATH(S)>...      Image and/or directory paths to re-encode. Directories\n                      will be crawled recursively.\n";

/// # Version Text.
pub const VERSION: &'static str = "Refract v0.1.0";

#[derive(Debug, Clone, Copy, PartialEq, Eq, Structural)]
/// # Errors.
pub enum RefractError {
    /// # Unsupported color.
    Color,
    /// # Decoding failed.
    Decode,
    /// # Encoding failed.
    Encode,
    /// # Invalid image.
    Image,
    /// # Decoding not supported.
    ImageDecode(ImageKind),
    /// # Encoding not supported.
    ImageEncode(ImageKind),
    /// # No candiates were found.
    NoBest(ImageKind),
    /// # Done!
    NothingDoing,
    /// # Image dimensions are too big.
    Overflow,
    /// # Image is too big.
    TooBig,
    /// # I/O read error.
    Read,
    /// # I/O write error.
    Write,
    /// # Print Help (Not an Error).
    PrintHelp,
    /// # Print Version (Not an Error).
    PrintVersion,
}

/// # The English message of an error.
pub open spec fn error_message(e: RefractError) -> Seq<char> {
    match e {
        RefractError::Color => "Unsupported color encoding format."@,
        RefractError::Decode => "The image could not be decoded."@,
        RefractError::Encode => "The image could not be encoded."@,
        RefractError::Image => "Invalid image."@,
        RefractError::ImageDecode(k) => match k {
            ImageKind::Avif => "Refract cannot decode AVIF images."@,
            ImageKind::Jxl => "Refract cannot decode JPEG XL images."@,
            ImageKind::Webp => "Refract cannot decode WebP images."@,
            _ => ""@,
        },
        RefractError::ImageEncode(k) => match k {
            ImageKind::Jpeg => "Refract cannot encode JPEG files."@,
            ImageKind::Png => "Refract cannot encode PNG files."@,
            _ => ""@,
        },
        RefractError::NoBest(k) => match k {
            ImageKind::Avif => "No acceptable AVIF candidate was found."@,
            ImageKind::Jxl => "No acceptable JPEG XL candidate was found."@,
            ImageKind::Webp => "No acceptable WebP candidate was found."@,
            _ => ""@,
        },
        RefractError::NothingDoing => "There is nothing else to do."@,
        RefractError::Overflow => "The image dimensions are out of range."@,
        RefractError::TooBig => "The encoded image was too big."@,
        RefractError::Read => "Unable to read the source file."@,
        RefractError::Write => "Unable to save the file."@,
        RefractError::PrintHelp => HELP@,
        RefractError::PrintVersion => VERSION@,
    }
}

impl RefractError {
    /// # As Str.
    ///
    /// Return the error as an English string slice.
    pub fn as_str(self) -> (r: &'static str)
        ensures r@ == error_message(self),
    {
        match self {
            Self::Color => "Unsupported color encoding format.",
            Self::Decode => "The image could not be decoded.",
            Self::Encode => "The image could not be encoded.",
            Self::Image => "Invalid image.",
            Self::ImageDecode(k) => match k {
                ImageKind::Avif => "Refract cannot decode AVIF images.",
                ImageKind::Jxl => "Refract cannot decode JPEG XL images.",
                ImageKind::Webp => "Refract cannot decode WebP images.",
                _ => "",
            },
            Self::ImageEncode(k) => match k {
                ImageKind::Jpeg => "Refract cannot encode JPEG files.",
                ImageKind::Png => "Refract cannot encode PNG files.",
                _ => "",
            },
            Self::NoBest(k) => match k {
                ImageKind::Avif => "No acceptable AVIF candidate was found.",
                ImageKind::Jxl => "No acceptable JPEG XL candidate was found.",
                ImageKind::Webp => "No acceptable WebP candidate was found.",
                _ => "",
            },
            Self::NothingDoing => "There is nothing else to do.",
            Self::Overflow => "The image dimensions are out of range.",
            Self::TooBig => "The encoded image was too big.",
            Self::Read => "Unable to read the source file.",
            Self::Write => "Unable to save the file.",
            Self::PrintHelp => HELP,
            Self::PrintVersion => VERSION,
        }
    }
}

} // verus!
