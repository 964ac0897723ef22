//! # Quality Range.
//!
//! A closing range of encoder qualities. Each call to `next` hands out an
//! untried quality, roughly halving the distance between the ends, while
//! `set_bottom` and `set_top` let feedback pull the ends together.

use vstd::prelude::*;
use crate::ImageKind;
use crate::image_kind::max_quality_of;

verus! {

/// # Abstract view of a quality range.
pub struct RangeView {
    /// # Bottom (inclusive).
    pub bottom: int,
    /// # Top (inclusive).
    pub top: int,
    /// # Qualities already handed out or ignored.
    pub tried: Set<int>,
}

#[derive(Debug)]
/// # Quality Range.
pub struct QualityRange {
    /// # Bottom (inclusive).
    bottom: u8,
    /// # Top (inclusive).
    top: u8,
    /// # Tried qualities, indexed by value.
    tried: Vec<bool>,
}

/// # The first quality `next` looks at.
///
/// If the ends are more than one apart, this is the (rounded down) middle;
/// otherwise it is the top.
pub open spec fn guess_of(bottom: int, top: int) -> int {
    if top - bottom > 1 { bottom + (top - bottom) / 2 } else { top }
}

/// # Every quality in the range has been tried.
pub open spec fn exhausted(v: RangeView) -> bool {
    forall|j: int| v.bottom <= j <= v.top ==> #[trigger] v.tried.contains(j)
}

/// # `q` is the smallest untried quality in the range.
pub open spec fn least_untried(v: RangeView, q: int) -> bool {
    &&& v.bottom <= q <= v.top
    &&& !v.tried.contains(q)
    &&& forall|j: int| v.bottom <= j < q ==> #[trigger] v.tried.contains(j)
}

/// # The quality `next` hands out for a given state, if any.
pub open spec fn next_quality(v: RangeView, q: Option<u8>) -> bool {
    let g = guess_of(v.bottom, v.top);
    match q {
        Some(q) =>
            if !v.tried.contains(g) { q == g }
            else { least_untried(v, q as int) },
        None => exhausted(v),
    }
}

/// # The view after a quality has been handed out.
pub open spec fn with_tried(v: RangeView, q: int) -> RangeView {
    RangeView { bottom: v.bottom, top: v.top, tried: v.tried.insert(q) }
}

/// # Ordered ends: `bottom` and `top` swapped into order.
pub open spec fn ordered(a: u8, b: u8) -> (int, int) {
    if a <= b { (a as int, b as int) } else { (b as int, a as int) }
}

/// # Untried qualities within the range.
pub open spec fn untried(v: RangeView) -> Set<int> {
    Set::new(|j: int| v.bottom <= j <= v.top && !v.tried.contains(j))
}

/// # Progress of `next`.
///
/// Every quality `next` hands out is taken from the untried qualities of the
/// range, which shrink by exactly one; `None` comes only once none are left.
/// A range of `top - bottom + 1` values therefore runs dry after at most that
/// many calls (absent feedback, which can only shrink it further).
pub proof fn lemma_next_progress(v: RangeView, r: Option<u8>)
    requires
        v.bottom <= v.top,
        next_quality(v, r),
        r matches Some(q) ==> v.bottom <= q <= v.top && !v.tried.contains(q as int),
    ensures
        untried(v).finite(),
        untried(v).len() <= v.top - v.bottom + 1,
        match r {
            Some(q) => {
                &&& untried(v).contains(q as int)
                &&& untried(with_tried(v, q as int)) == untried(v).remove(q as int)
                &&& untried(with_tried(v, q as int)).len() + 1 == untried(v).len()
            },
            None => untried(v).len() == 0,
        },
{
    let range = vstd::set_lib::set_int_range(v.bottom, v.top + 1);
    vstd::set_lib::lemma_int_range(v.bottom, v.top + 1);
    assert(untried(v).subset_of(range));
    vstd::set_lib::lemma_len_subset(untried(v), range);
    match r {
        Some(q) => {
            assert(untried(v).contains(q as int));
            assert(untried(with_tried(v, q as int)) =~= untried(v).remove(q as int));
        },
        None => {
            assert(untried(v) =~= Set::<int>::empty());
        },
    }
}

impl View for QualityRange {
    type V = RangeView;

    closed spec fn view(&self) -> RangeView {
        RangeView {
            bottom: self.bottom as int,
            top: self.top as int,
            tried: Set::new(|q: int| 0 <= q < self.tried@.len() && self.tried@[q]),
        }
    }
}

impl QualityRange {
    /// # Well-formed.
    pub closed spec fn wf(&self) -> bool {
        &&& self.tried@.len() == 256
        &&& 1 <= self.bottom <= self.top
    }

    /// # Bounds of a well-formed range.
    pub proof fn lemma_bounds(&self)
        requires self.wf(),
        ensures
            1 <= self@.bottom <= self@.top <= 255,
            forall|q: int| #[trigger] self@.tried.contains(q) ==> 0 <= q <= 255,
    {}

    /// # Fresh tried-list.
    fn no_tries() -> (r: Vec<bool>)
        ensures
            r@.len() == 256,
            forall|i: int| 0 <= i < 256 ==> !r@[i],
    {
        let mut v: Vec<bool> = Vec::new();
        let mut i: usize = 0;
        while i < 256
            invariant
                i <= 256,
                v@.len() == i,
                forall|j: int| 0 <= j < i ==> !v@[j],
            decreases 256 - i,
        {
            v.push(false);
            i = i + 1;
        }
        v
    }

    /// # New.
    ///
    /// Create a new range between bottom and top, both inclusive; the ends
    /// are swapped if given in the wrong order.
    pub fn new(bottom: u8, top: u8) -> (r: QualityRange)
        requires bottom >= 1, top >= 1,
        ensures
            r.wf(),
            r@.bottom == ordered(bottom, top).0,
            r@.top == ordered(bottom, top).1,
            r@.tried == Set::<int>::empty(),
    {
        let tried = Self::no_tries();
        let r = if bottom <= top { Self { bottom, top, tried } }
            else { Self { bottom: top, top: bottom, tried } };
        assert(r@.tried =~= Set::<int>::empty());
        r
    }

    /// # From Image Kind.
    ///
    /// The full encoder range of a format: `1` to its maximum quality.
    pub fn from(kind: ImageKind) -> (r: QualityRange)
        ensures
            r.wf(),
            r@.bottom == 1,
            r@.top == max_quality_of(kind),
            r@.tried == Set::<int>::empty(),
    {
        Self::new(kind.min_encoder_quality(), kind.max_encoder_quality())
    }

    /// # Reboot.
    ///
    /// Recycle an instance by setting a new bottom and top (and clearing any
    /// history). The result is the same as calling `QualityRange::new`.
    pub fn reboot(&mut self, bottom: u8, top: u8)
        requires old(self).wf(), bottom >= 1, top >= 1,
        ensures
            final(self).wf(),
            final(self)@.bottom == ordered(bottom, top).0,
            final(self)@.top == ordered(bottom, top).1,
            final(self)@.tried == Set::<int>::empty(),
    {
        *self = Self::new(bottom, top);
    }

    /// # Get the bottom.
    pub fn bottom(&self) -> (r: u8)
        ensures r == self@.bottom,
    {
        self.bottom
    }

    /// # Get the top.
    pub fn top(&self) -> (r: u8)
        ensures r == self@.top,
    {
        self.top
    }

    /// # Was a quality already tried?
    pub fn was_tried(&self, quality: u8) -> (r: bool)
        requires self.wf(),
        ensures r == self@.tried.contains(quality as int),
    {
        self.tried[quality as usize]
    }

    /// # Mark as tried.
    fn mark(&mut self, quality: u8)
        requires old(self).wf(),
        ensures
            final(self).wf(),
            final(self)@ == with_tried(old(self)@, quality as int),
    {
        self.tried.set(quality as usize, true);
        assert(self@.tried =~= old(self)@.tried.insert(quality as int));
    }

    /// # Ignore Value.
    ///
    /// Mark a value as having already been tried, preventing its appearance
    /// in the future.
    pub fn ignore(&mut self, quality: u8)
        requires old(self).wf(),
        ensures
            final(self).wf(),
            final(self)@ == with_tried(old(self)@, quality as int),
    {
        self.mark(quality);
    }

    /// # Raise Bottom.
    ///
    /// Raise the range's floor to this value (clamped to the existing bottom
    /// and top values).
    pub fn set_bottom(&mut self, bottom: u8)
        requires old(self).wf(),
        ensures
            final(self).wf(),
            final(self)@.top == old(self)@.top,
            final(self)@.tried == old(self)@.tried,
            final(self)@.bottom == (if bottom <= old(self)@.bottom { old(self)@.bottom }
                else if bottom >= old(self)@.top { old(self)@.top }
                else { bottom as int }),
    {
        let b: u8 = if bottom > self.bottom { bottom } else { self.bottom };
        self.bottom = if b < self.top { b } else { self.top };
    }

    /// # Lower Top.
    ///
    /// Lower the range's ceiling to this value (clamped to the existing
    /// bottom and top values).
    pub fn set_top(&mut self, top: u8)
        requires old(self).wf(),
        ensures
            final(self).wf(),
            final(self)@.bottom == old(self)@.bottom,
            final(self)@.tried == old(self)@.tried,
            final(self)@.top == (if top >= old(self)@.top { old(self)@.top }
                else if top <= old(self)@.bottom { old(self)@.bottom }
                else { top as int }),
    {
        let t: u8 = if top < self.top { top } else { self.top };
        self.top = if t > self.bottom { t } else { self.bottom };
    }

    /// # Lower Top (Minus One).
    ///
    /// This lowers the range's ceiling to the provided value minus one
    /// (clamped like `set_top`), or all the way to the bottom if the value
    /// is one (or zero).
    pub fn set_top_minus_one(&mut self, top: u8)
        requires old(self).wf(),
        ensures
            final(self).wf(),
            final(self)@.bottom == old(self)@.bottom,
            final(self)@.tried == old(self)@.tried,
            final(self)@.top == (if top <= 1 { old(self)@.bottom }
                else if top - 1 >= old(self)@.top { old(self)@.top }
                else if top - 1 <= old(self)@.bottom { old(self)@.bottom }
                else { top - 1 }),
    {
        if top <= 1 {
            self.top = self.bottom;
        }
        else {
            self.set_top(top - 1);
        }
    }

    /// # Next Quality.
    ///
    /// Return the next untested quality value from the moving range. In the
    /// early stages, the value will fall roughly in the middle of the ends,
    /// but as options run out, it may proceed sequentially from the bottom.
    ///
    /// Once every possibility (within the closing range) has been tried,
    /// `None` is returned.
    pub fn next(&mut self) -> (r: Option<u8>)
        requires old(self).wf(),
        ensures
            final(self).wf(),
            next_quality(old(self)@, r),
            match r {
                Some(q) => {
                    &&& old(self)@.bottom <= q <= old(self)@.top
                    &&& !old(self)@.tried.contains(q as int)
                    &&& final(self)@ == with_tried(old(self)@, q as int)
                },
                None => final(self)@ == old(self)@,
            },
    {
        let min: u8 = self.bottom;
        let max: u8 = self.top;
        let mut diff: u8 = max - min;
        if diff > 1 {
            diff = diff / 2;
        }

        let guess: u8 = min + diff;
        assert(guess == guess_of(min as int, max as int));
        if !self.tried[guess as usize] {
            self.mark(guess);
            return Some(guess);
        }

        let mut i: u16 = min as u16;
        while i <= max as u16
            invariant
                self.wf(),
                self@ == old(self)@,
                min == self@.bottom,
                max == self@.top,
                min <= i <= max as u16 + 1,
                self@.tried.contains(guess_of(min as int, max as int)),
                forall|j: int| min <= j < i ==> #[trigger] self@.tried.contains(j),
            decreases max as u16 + 1 - i,
        {
            let q: u8 = i as u8;
            if !self.tried[q as usize] {
                self.mark(q);
                return Some(q);
            }
            i = i + 1;
        }

        None
    }
}


/// # The number of bits in `d`: roughly the number of halvings left.
pub open spec fn bit_len(d: nat) -> nat
    decreases d,
{
    if d == 0 { 0 } else { 1 + bit_len(d / 2) }
}

impl QualityRange {
    /// # Size Hint.
    ///
    /// The number of bits in the distance between the ends, a decent
    /// approximation of the number of guesses remaining (as a lower bound;
    /// there is no upper bound to report).
    pub fn size_hint(&self) -> (r: (usize, Option<usize>))
        requires self.wf(),
        ensures
            r.0 == bit_len((self@.top - self@.bottom) as nat),
            r.1 is None,
    {
        proof { self.lemma_bounds(); }
        let mut d: u8 = self.top - self.bottom;
        proof { lemma_bit_len_byte(d); }
        let mut n: usize = 0;
        while d > 0
            invariant
                n + bit_len(d as nat) == bit_len((self@.top - self@.bottom) as nat),
                n <= 8,
                bit_len(d as nat) + n <= 8,
            decreases d,
        {
            proof { lemma_bit_len_byte(d); }
            d = d / 2;
            n += 1;
        }
        (n, None)
    }
}

/// # Two to the power of `k`.
spec fn two_to(k: nat) -> nat
    decreases k,
{
    if k == 0 { 1 } else { 2 * two_to((k - 1) as nat) }
}

/// # Numbers below `2^k` have at most `k` bits.
proof fn lemma_bit_len_below(d: nat, k: nat)
    requires d < two_to(k),
    ensures bit_len(d) <= k,
    decreases k,
{
    if d > 0 {
        lemma_bit_len_below(d / 2, (k - 1) as nat);
    }
}

/// # A byte has at most eight bits.
proof fn lemma_bit_len_byte(d: u8)
    ensures bit_len(d as nat) <= 8,
{
    reveal_with_fuel(two_to, 9);
    lemma_bit_len_below(d as nat, 8);
}

} // verus!
