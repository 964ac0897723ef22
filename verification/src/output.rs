//! # Encoded Output Image.

use vstd::prelude::*;
use crate::{FLAG_VALID, ImageKind, Quality, RefractError};
use crate::bits::{has8, lemma_or_sets};
use crate::image_kind::magic_kind;
use crate::quality::quality_kind;

verus! {

/// # Abstract view of an output.
pub struct OutputView {
    /// # Raw file bytes.
    pub data: Seq<u8>,
    /// # Quality used to write them.
    pub quality: Quality,
    /// # Encoder flags (including the validity flag).
    pub flags: u8,
}

/// # The validity flag is set.
pub open spec fn valid_flags(flags: u8) -> bool {
    has8(flags, FLAG_VALID)
}

/// # What `Output::finish` decides for a (not yet valid) output.
///
/// `Ok` means the data is accepted as it stands.
pub open spec fn finish_verdict(v: OutputView, size: int) -> Result<(), RefractError> {
    if v.data.len() == 0 || size == 0 { Err(RefractError::Encode) }
    else if v.data.len() >= size { Err(RefractError::TooBig) }
    else {
        match magic_kind(v.data) {
            None => Err(RefractError::Image),
            Some(k) => if k == quality_kind(v.quality) { Ok(()) } else { Err(RefractError::Encode) },
        }
    }
}

#[derive(Debug)]
/// # Output Image.
///
/// This struct holds the raw file data for an encoded image along with
/// information about the quality used to create it.
pub struct Output {
    /// # Raw file bytes.
    data: Vec<u8>,
    /// # Quality used.
    quality: Quality,
    /// # Flags.
    flags: u8,
}

impl View for Output {
    type V = OutputView;

    closed spec fn view(&self) -> OutputView {
        OutputView { data: self.data@, quality: self.quality, flags: self.flags }
    }
}

impl Output {
    /// # New.
    ///
    /// Create a new, empty instance expecting the provided output kind.
    pub fn new(kind: ImageKind) -> (r: Output)
        ensures
            r@.data == Seq::<u8>::empty(),
            r@.quality == Quality::Lossless(kind),
            r@.flags == 0,
    {
        Self { data: Vec::new(), quality: Quality::Lossless(kind), flags: 0 }
    }

    /// # Reset.
    ///
    /// Empty the buffer and clear the flags so it can be used again.
    pub fn reset(&mut self)
        ensures
            final(self)@.data == Seq::<u8>::empty(),
            final(self)@.quality == old(self)@.quality,
            final(self)@.flags == 0,
    {
        self.data.truncate(0);
        self.flags = 0;
    }

    /// # Finish (and Validate).
    ///
    /// Called after an encoder has written data to the buffer, to make sure
    /// the data is of the expected format and smaller than `size`. Already
    /// validated data passes through.
    ///
    /// ## Errors
    ///
    /// `Encode` for an empty buffer, a zero `size` or a format mismatch,
    /// `TooBig` if the data is not smaller than `size`, and `Image` if the
    /// data is of no known format.
    pub fn finish(&mut self, size: usize) -> (r: Result<(), RefractError>)
        ensures
            final(self)@.data == old(self)@.data,
            final(self)@.quality == old(self)@.quality,
            valid_flags(old(self)@.flags) ==> r is Ok && final(self)@.flags == old(self)@.flags,
            !valid_flags(old(self)@.flags) ==> r == finish_verdict(old(self)@, size as int),
            !valid_flags(old(self)@.flags) && r is Ok ==> final(self)@.flags == (old(self)@.flags | FLAG_VALID),
            !valid_flags(old(self)@.flags) && r is Err ==> final(self)@.flags == old(self)@.flags,
            r is Ok ==> valid_flags(final(self)@.flags),
    {
        if self.is_valid() { return Ok(()); }
        let len: usize = self.data.len();
        if size == 0 || len == 0 {
            Err(RefractError::Encode)
        }
        else if len >= size {
            Err(RefractError::TooBig)
        }
        else {
            let kind = ImageKind::try_from(self.data.as_slice());
            match kind {
                Err(e) => Err(e),
                Ok(k) => {
                    if self.quality.kind() == k {
                        proof { lemma_or_sets(self.flags, FLAG_VALID); }
                        self.flags = self.flags | FLAG_VALID;
                        Ok(())
                    }
                    else { Err(RefractError::Encode) }
                },
            }
        }
    }

    /// # Flags.
    ///
    /// The encoder flags that were set when the data was written (a value
    /// is returned even if the data itself wound up invalid).
    pub fn flags(&self) -> (r: u8)
        ensures r == self@.flags,
    {
        self.flags
    }

    /// # Is Valid?
    pub fn is_valid(&self) -> (r: bool)
        ensures r == valid_flags(self@.flags),
    {
        FLAG_VALID == self.flags & FLAG_VALID
    }

    /// # Kind.
    pub fn kind(&self) -> (r: ImageKind)
        ensures r == quality_kind(self@.quality),
    {
        self.quality.kind()
    }

    /// # Quality.
    pub fn quality(&self) -> (r: Quality)
        ensures r == self@.quality,
    {
        self.quality
    }

    /// # Size.
    ///
    /// The byte size of the image, or `None` if the data is not valid (or
    /// empty).
    pub fn size(&self) -> (r: Option<usize>)
        ensures
            match r {
                Some(s) => valid_flags(self@.flags) && self@.data.len() > 0 && s == self@.data.len(),
                None => !(valid_flags(self@.flags) && self@.data.len() > 0),
            },
    {
        if self.is_valid() && self.data.len() > 0 { Some(self.data.len()) }
        else { None }
    }

    /// # Raw Bytes.
    ///
    /// The file data if valid, otherwise an empty slice.
    pub fn as_slice(&self) -> (r: &[u8])
        ensures r@ == (if valid_flags(self@.flags) { self@.data } else { Seq::<u8>::empty() }),
    {
        if self.is_valid() { self.data.as_slice() }
        else { &[] }
    }

    /// # Copy To.
    ///
    /// Move the data, quality and flags into `dst`, resetting `self`: its
    /// buffer is emptied and its flags cleared (its quality stays).
    pub fn copy_to(&mut self, dst: &mut Output)
        ensures
            final(dst)@ == old(self)@,
            final(self)@.data == Seq::<u8>::empty(),
            final(self)@.quality == old(self)@.quality,
            final(self)@.flags == 0,
    {
        dst.quality = self.quality;
        dst.flags = self.flags;
        dst.data.truncate(0);
        dst.data.append(&mut self.data);
        self.flags = 0;
        assert(dst.data@ =~= old(self).data@);
    }

    /// # Set Target Quality and Flags.
    ///
    /// Reset the buffer and record the quality and flags of the next write.
    pub fn set_quality(&mut self, quality: Quality, flags: u8)
        ensures
            final(self)@.data == Seq::<u8>::empty(),
            final(self)@.quality == quality,
            final(self)@.flags == flags,
    {
        self.reset();
        self.flags = flags;
        self.quality = quality;
    }

    /// # Set Data From Slice.
    ///
    /// Copy encoder output into the buffer, unless it already holds data.
    pub fn set_slice(&mut self, data: &[u8])
        ensures
            final(self)@.data == (if old(self)@.data.len() == 0 { data@ } else { old(self)@.data }),
            final(self)@.quality == old(self)@.quality,
            final(self)@.flags == old(self)@.flags,
    {
        if self.data.len() == 0 {
            self.data.extend_from_slice(data);
            assert(self.data@ =~= data@);
        }
    }
}

} // verus!
