//! # Guided Encoding.
//!
//! `EncodeIter` holds the decisions of a guided encoding run: which
//! encoding to try next (lossless first, then lossy qualities that close in
//! on the best acceptable one), how to judge what an encoder produced, and
//! how user feedback narrows the remaining range. The encoding itself is
//! done by the caller: each `Step::Encode` asks for one encoder run, whose
//! result is handed back through `EncodeIter::feed`.

use vstd::prelude::*;
use crate::{
    ColorKind, FLAG_AVIF_RGB, FLAG_AVIF_ROUND_2, FLAG_DID_LOSSLESS, FLAG_NO_AVIF_YCBCR,
    FLAG_NO_LOSSLESS, FLAG_NO_LOSSY, FLAG_VALID, ImageKind, Input, Output, PUBLIC_FLAGS,
    Quality, QualityRange, RefractError,
};
use crate::bits::{
    has8, lemma_and_mask, lemma_and_mask_drops, lemma_andnot_clears, lemma_andnot_keeps,
    lemma_encoder_flags, lemma_or_keeps, lemma_or_sets, lemma_single_bit,
};
use crate::image_kind::{encodable, magic_kind, max_quality_of};
use crate::input::{input_wf, native_view, rgba_view, InputView};
use crate::output::{finish_verdict, valid_flags, OutputView};
use crate::quality::{quality_kind, quality_of, raw_of};
use crate::range::{
    exhausted, guess_of, least_untried, next_quality, with_tried, RangeView,
};

verus! {

/// # An Encoding Job.
///
/// Encode the input as `kind` with the given encoder quality (`None` means
/// lossless) and encoder flags.
#[derive(Debug, Clone, Copy, PartialEq, Eq, Structural)]
pub struct EncodeRequest {
    /// # Output format.
    pub kind: ImageKind,
    /// # Encoder quality; `None` for lossless.
    pub quality: Option<u8>,
    /// # Encoder flags.
    pub flags: u8,
}

/// # What the caller should do next.
#[derive(Debug, Clone, Copy, PartialEq, Eq, Structural)]
pub enum Step {
    /// # Run this encoding and hand the result to `EncodeIter::feed`.
    Encode(EncodeRequest),
    /// # A new candidate is ready for review.
    Candidate,
    /// # Nothing (more) this round.
    Done,
}

/// # The encoding awaiting a result.
#[derive(Debug, Clone, Copy, PartialEq, Eq, Structural)]
pub enum Pending {
    /// # None.
    Idle,
    /// # A lossless encoding.
    Lossless,
    /// # A lossy encoding at this quality.
    Lossy(u8),
}

/// # Abstract view of the iterator.
pub struct EncodeView {
    /// # Source.
    pub src: InputView,
    /// # Best output so far.
    pub best: OutputView,
    /// # Current candidate.
    pub candidate: OutputView,
    /// # Quality range.
    pub steps: RangeView,
    /// # Flags.
    pub flags: u8,
    /// # Awaited encoding.
    pub pending: Pending,
}

// ---------------------------------------------------------------------------
// View updates.
// ---------------------------------------------------------------------------

/// # Replace the range.
pub open spec fn with_steps(v: EncodeView, s: RangeView) -> EncodeView {
    EncodeView { src: v.src, best: v.best, candidate: v.candidate, steps: s, flags: v.flags, pending: v.pending }
}

/// # Replace the flags.
pub open spec fn with_flags(v: EncodeView, f: u8) -> EncodeView {
    EncodeView { src: v.src, best: v.best, candidate: v.candidate, steps: v.steps, flags: f, pending: v.pending }
}

/// # Replace the pending job.
pub open spec fn with_pending(v: EncodeView, p: Pending) -> EncodeView {
    EncodeView { src: v.src, best: v.best, candidate: v.candidate, steps: v.steps, flags: v.flags, pending: p }
}

/// # Replace the candidate.
pub open spec fn with_candidate(v: EncodeView, c: OutputView) -> EncodeView {
    EncodeView { src: v.src, best: v.best, candidate: c, steps: v.steps, flags: v.flags, pending: v.pending }
}

/// # Replace the best.
pub open spec fn with_best(v: EncodeView, b: OutputView) -> EncodeView {
    EncodeView { src: v.src, best: b, candidate: v.candidate, steps: v.steps, flags: v.flags, pending: v.pending }
}

// ---------------------------------------------------------------------------
// Derived values.
// ---------------------------------------------------------------------------

/// # Output format of the run.
pub open spec fn iter_kind(v: EncodeView) -> ImageKind {
    quality_kind(v.candidate.quality)
}

/// # Flag test (single-bit flags).
pub open spec fn on(flags: u8, flag: u8) -> bool {
    has8(flags, flag)
}

/// # Size of a valid, non-empty output.
pub open spec fn size_of(o: OutputView) -> Option<int> {
    if valid_flags(o.flags) && o.data.len() > 0 { Some(o.data.len() as int) } else { None }
}

/// # The size new candidates must stay under: the smaller of the input
/// size and the best size so far.
pub open spec fn target_size(v: EncodeView) -> int {
    match size_of(v.best) {
        Some(s) => if s < v.src.size { s } else { v.src.size },
        None => v.src.size,
    }
}

/// # The quality a range hands out next, if any.
pub open spec fn pick(r: RangeView) -> Option<u8> {
    let g = guess_of(r.bottom, r.top);
    if !r.tried.contains(g) { Some(g as u8) }
    else if exhausted(r) { None }
    else { Some((choose|q: int| least_untried(r, q)) as u8) }
}

/// # The range after `pick`.
pub open spec fn after_pick(r: RangeView) -> RangeView {
    match pick(r) {
        Some(q) => with_tried(r, q as int),
        None => r,
    }
}

/// # The range after `set_top_minus_one(q)`.
pub open spec fn top_minus_one(r: RangeView, q: u8) -> RangeView {
    RangeView {
        bottom: r.bottom,
        top: if q <= 1 { r.bottom }
            else if q - 1 >= r.top { r.top }
            else if q - 1 <= r.bottom { r.bottom }
            else { q - 1 },
        tried: r.tried,
    }
}

/// # A fresh full range for a format.
pub open spec fn fresh_range(k: ImageKind) -> RangeView {
    RangeView { bottom: 1, top: max_quality_of(k) as int, tried: Set::empty() }
}

/// # The candidate reset for a new encoding at `quality`.
pub open spec fn with_candidate_quality(v: EncodeView, quality: Option<u8>) -> EncodeView {
    with_candidate(v, OutputView {
        data: Seq::empty(),
        quality: quality_of(iter_kind(v), quality),
        flags: v.flags,
    })
}

/// # The job for a lossless encoding.
///
/// AVIF has no lossless mode of its own: its best lossy quality stands in,
/// except for greyscale sources, which are not worth the effort.
pub open spec fn lossless_request(v: EncodeView) -> Result<EncodeRequest, RefractError> {
    let k = iter_kind(v);
    if k is Avif {
        if v.src.color is Grey || v.src.color is GreyAlpha { Err(RefractError::NothingDoing) }
        else { Ok(EncodeRequest { kind: k, quality: Some(63u8), flags: v.flags }) }
    }
    else { Ok(EncodeRequest { kind: k, quality: None, flags: v.flags }) }
}

/// # The job for a lossy encoding.
pub open spec fn lossy_request(v: EncodeView, q: u8) -> EncodeRequest {
    EncodeRequest { kind: iter_kind(v), quality: Some(q), flags: v.flags }
}

/// # Try to start a lossy encoding.
///
/// `None` if lossy encoding is disabled or the range is exhausted.
pub open spec fn lossy_try(v: EncodeView) -> Option<(EncodeView, Step)> {
    if on(v.flags, FLAG_NO_LOSSY) { None }
    else {
        match pick(v.steps) {
            None => None,
            Some(q) => {
                let v1 = with_candidate_quality(with_steps(v, after_pick(v.steps)), Some(q));
                Some((with_pending(v1, Pending::Lossy(q)), Step::Encode(lossy_request(v1, q))))
            },
        }
    }
}

/// # No (more) lossy work in this range.
///
/// For AVIF, the first time this happens the range is rebooted for a second
/// round in limited-range `YCbCr` (unless that is disabled).
pub open spec fn inner_failed(v: EncodeView) -> (EncodeView, Step) {
    if iter_kind(v) is Avif && !on(v.flags, FLAG_AVIF_ROUND_2) {
        let v1 = with_flags(v, v.flags | FLAG_AVIF_ROUND_2);
        if !on(v1.flags, FLAG_NO_AVIF_YCBCR) {
            let v2 = with_flags(with_steps(v1, fresh_range(ImageKind::Avif)), v1.flags & !FLAG_AVIF_RGB);
            match lossy_try(v2) {
                Some(x) => x,
                None => (v2, Step::Done),
            }
        }
        else { (v1, Step::Done) }
    }
    else { (v, Step::Done) }
}

/// # Start a lossy encoding, or give up on this range.
pub open spec fn lossy_start(v: EncodeView) -> (EncodeView, Step) {
    match lossy_try(v) {
        Some(x) => x,
        None => inner_failed(v),
    }
}

/// # The state after `advance`, and its step.
pub open spec fn advance_spec(v: EncodeView) -> (EncodeView, Step) {
    let v0 = with_pending(v, Pending::Idle);
    if !on(v0.flags, FLAG_DID_LOSSLESS) {
        let v1 = with_flags(v0, v0.flags | FLAG_DID_LOSSLESS);
        if !on(v1.flags, FLAG_NO_LOSSLESS) {
            let v2 = with_steps(v1, with_tried(v1.steps, v1.steps.top));
            let v3 = with_candidate_quality(v2, None);
            match lossless_request(v3) {
                Ok(req) => (with_pending(v3, Pending::Lossless), Step::Encode(req)),
                Err(_) => lossy_start(v3),
            }
        }
        else { lossy_start(v1) }
    }
    else { lossy_start(v0) }
}

/// # An encoder result as spec values.
pub open spec fn result_view(r: Result<Vec<u8>, RefractError>) -> Result<Seq<u8>, RefractError> {
    match r {
        Ok(d) => Ok(d@),
        Err(e) => Err(e),
    }
}

/// # Store and judge an encoder result.
pub open spec fn process(v: EncodeView, data: Result<Seq<u8>, RefractError>) -> (EncodeView, Result<(), RefractError>) {
    match data {
        Err(e) => (v, Err(e)),
        Ok(d) => {
            let c = v.candidate;
            let c1 = OutputView {
                data: if c.data.len() == 0 { d } else { c.data },
                quality: c.quality,
                flags: c.flags,
            };
            let res = if valid_flags(c1.flags) { Ok(()) } else { finish_verdict(c1, target_size(v)) };
            let f = if !valid_flags(c1.flags) && res is Ok { c1.flags | FLAG_VALID } else { c1.flags };
            (with_candidate(v, OutputView { data: c1.data, quality: c1.quality, flags: f }), res)
        },
    }
}

/// # Make a valid candidate the new best.
pub open spec fn keep_candidate_spec(v: EncodeView) -> EncodeView {
    if valid_flags(v.candidate.flags) {
        with_best(
            with_candidate(v, OutputView { data: Seq::empty(), quality: v.candidate.quality, flags: 0 }),
            v.candidate,
        )
    }
    else { v }
}

/// # The state after `keep`: the ceiling is lowered to the candidate's
/// quality, and a valid candidate becomes the best.
pub open spec fn keep_spec(v: EncodeView) -> EncodeView {
    keep_candidate_spec(with_steps(v, RangeView {
        bottom: v.steps.bottom,
        top: {
            let t = raw_of(v.candidate.quality) as int;
            if t >= v.steps.top { v.steps.top }
            else if t <= v.steps.bottom { v.steps.bottom }
            else { t }
        },
        tried: v.steps.tried,
    }))
}

/// # The state after `feed`, and its step.
pub open spec fn feed_spec(v: EncodeView, data: Result<Seq<u8>, RefractError>) -> (EncodeView, Step) {
    match v.pending {
        Pending::Idle => (v, Step::Done),
        Pending::Lossless => {
            let (v2, res) = process(with_pending(v, Pending::Idle), data);
            let v3 = if res is Ok { keep_candidate_spec(v2) } else { v2 };
            lossy_start(v3)
        },
        Pending::Lossy(q) => {
            let (v2, res) = process(with_pending(v, Pending::Idle), data);
            match res {
                Ok(_) => (v2, Step::Candidate),
                Err(RefractError::TooBig) => lossy_start(with_steps(v2, top_minus_one(v2.steps, q))),
                Err(_) => inner_failed(v2),
            }
        },
    }
}

/// # The flags a run starts with.
pub open spec fn start_flags(kind: ImageKind, flags: u8) -> u8 {
    if kind is Avif { (flags & PUBLIC_FLAGS) | FLAG_AVIF_RGB }
    else { (flags & PUBLIC_FLAGS) & !FLAG_NO_AVIF_YCBCR }
}

/// # The AVIF rounds' colour-space flags.
///
/// An AVIF run encodes full-range `RGB` until its second round starts; the
/// second round, when `YCbCr` is not disabled, encodes limited-range
/// `YCbCr`, i.e. without the `RGB` flag.
pub open spec fn avif_round_flags(k: ImageKind, f: u8) -> bool {
    &&& (k is Avif && !on(f, FLAG_AVIF_ROUND_2) ==> on(f, FLAG_AVIF_RGB))
    &&& (on(f, FLAG_AVIF_ROUND_2) && !on(f, FLAG_NO_AVIF_YCBCR) ==> !on(f, FLAG_AVIF_RGB))
}

/// # Well-formed iterator view.
pub open spec fn iter_wf(v: EncodeView) -> bool {
    &&& avif_round_flags(iter_kind(v), v.flags)
    &&& input_wf(v.src)
    &&& encodable(iter_kind(v))
    &&& quality_kind(v.best.quality) == iter_kind(v)
    &&& 1 <= v.steps.bottom <= v.steps.top <= 255
    &&& v.flags & FLAG_VALID == 0
    &&& (size_of(v.best) matches Some(s) ==> s < v.src.size)
    &&& (size_of(v.candidate) matches Some(s) ==> s < target_size(v))
    &&& (v.pending matches Pending::Lossy(q) ==> v.steps.tried.contains(q as int))
    &&& (v.pending matches Pending::Lossy(q) ==> v.candidate.quality == Quality::Lossy(iter_kind(v), q))
    &&& (!(v.pending is Idle) ==> v.candidate.data.len() == 0 && !valid_flags(v.candidate.flags))
    &&& (valid_flags(v.best.flags) ==> v.best.data.len() > 0)
    &&& (valid_flags(v.candidate.flags) ==> v.candidate.data.len() > 0)
}


// ---------------------------------------------------------------------------
// Laws.
// ---------------------------------------------------------------------------

/// # A lossy job from `lossy_try` is fresh.
proof fn lemma_lossy_try_fresh(v: EncodeView)
    requires 1 <= v.steps.bottom <= v.steps.top <= 255,
    ensures
        lossy_try(v) matches Some((v2, st)) ==> {
            &&& v2.pending matches Pending::Lossy(q)
            &&& st == Step::Encode(lossy_request(v2, q))
            &&& v.steps.bottom <= q <= v.steps.top
            &&& !v.steps.tried.contains(q as int)
            &&& v2.steps == with_tried(v.steps, q as int)
        },
{
    if !on(v.flags, FLAG_NO_LOSSY) {
        let r = v.steps;
        let g = guess_of(r.bottom, r.top);
        if !r.tried.contains(g) {
        }
        else if !exhausted(r) {
            let w = choose|j: int| r.bottom <= j <= r.top && !r.tried.contains(j);
            assert(r.bottom <= w <= r.top && !r.tried.contains(w));
            lemma_least_exists(r, w);
            let c = choose|q: int| least_untried(r, q);
            assert(least_untried(r, c));
        }
    }
}

/// # Some untried quality implies a least one.
proof fn lemma_least_exists(r: RangeView, w: int)
    requires r.bottom <= w <= r.top, !r.tried.contains(w),
    ensures exists|q: int| least_untried(r, q),
    decreases w - r.bottom,
{
    if exists|j: int| r.bottom <= j < w && !r.tried.contains(j) {
        let j = choose|j: int| r.bottom <= j < w && !r.tried.contains(j);
        lemma_least_exists(r, j);
    }
    else {
        assert(least_untried(r, w));
    }
}

/// # The jobs of a round are fresh.
///
/// Whenever `advance` or `feed` asks for a lossy encoding at quality `q`,
/// `q` lies within the range it was drawn from and had not been tried in it
/// (the AVIF second round draws from a fresh range); afterwards it counts as
/// tried. No quality is encoded twice within a round of the range.
pub proof fn lemma_lossy_jobs_fresh(v: EncodeView, data: Result<Seq<u8>, RefractError>)
    requires iter_wf(v),
    ensures
        advance_spec(v).0.pending matches Pending::Lossy(q) ==> {
            let v2 = advance_spec(v).0;
            &&& advance_spec(v).1 == Step::Encode(lossy_request(v2, q))
            &&& v2.steps.bottom <= q <= v2.steps.top
            &&& exists|x: Set<int>| !x.contains(q as int) && v2.steps.tried == x.insert(q as int)
        },
        feed_spec(v, data).0.pending matches Pending::Lossy(q) ==> {
            let v2 = feed_spec(v, data).0;
            &&& feed_spec(v, data).1 == Step::Encode(lossy_request(v2, q))
            &&& v2.steps.bottom <= q <= v2.steps.top
            &&& exists|x: Set<int>| !x.contains(q as int) && v2.steps.tried == x.insert(q as int)
        },
{
    let v0 = with_pending(v, Pending::Idle);
    lemma_start_fresh(v0);
    let v1 = with_flags(v0, v0.flags | FLAG_DID_LOSSLESS);
    lemma_start_fresh(v1);
    let v2 = with_steps(v1, with_tried(v1.steps, v1.steps.top));
    let v3 = with_candidate_quality(v2, None);
    lemma_start_fresh(v3);
    match v.pending {
        Pending::Idle => {},
        Pending::Lossless => {
            let (w2, res) = process(with_pending(v, Pending::Idle), data);
            lemma_start_fresh(w2);
            lemma_start_fresh(keep_candidate_spec(w2));
        },
        Pending::Lossy(q) => {
            let (w2, res) = process(with_pending(v, Pending::Idle), data);
            lemma_start_fresh(with_steps(w2, top_minus_one(w2.steps, q)));
            lemma_failed_fresh(w2);
        },
    }
}

/// # The colour space of every AVIF encoding job.
///
/// Each job `advance` or `feed` asks for is of the run's format, and for
/// AVIF runs: before the second round starts the job encodes full-range
/// `RGB`; once the second round has started (and `YCbCr` is not disabled)
/// the job encodes limited-range `YCbCr`, without the `RGB` flag.
pub proof fn lemma_avif_colour_rounds(v: EncodeView, data: Result<Seq<u8>, RefractError>)
    requires iter_wf(v),
    ensures
        advance_spec(v).1 matches Step::Encode(r) ==> {
            &&& r.kind == iter_kind(v)
            &&& (r.kind is Avif && !on(r.flags, FLAG_AVIF_ROUND_2) ==> on(r.flags, FLAG_AVIF_RGB))
            &&& (on(r.flags, FLAG_AVIF_ROUND_2) && !on(r.flags, FLAG_NO_AVIF_YCBCR)
                ==> !on(r.flags, FLAG_AVIF_RGB))
        },
        feed_spec(v, data).1 matches Step::Encode(r) ==> {
            &&& r.kind == iter_kind(v)
            &&& (r.kind is Avif && !on(r.flags, FLAG_AVIF_ROUND_2) ==> on(r.flags, FLAG_AVIF_RGB))
            &&& (on(r.flags, FLAG_AVIF_ROUND_2) && !on(r.flags, FLAG_NO_AVIF_YCBCR)
                ==> !on(r.flags, FLAG_AVIF_RGB))
        },
{
    lemma_encoder_flags();
    let v0 = with_pending(v, Pending::Idle);
    lemma_start_flags(v0);
    let f = v0.flags;
    lemma_or_keeps(f, FLAG_DID_LOSSLESS, FLAG_AVIF_ROUND_2);
    lemma_or_keeps(f, FLAG_DID_LOSSLESS, FLAG_AVIF_RGB);
    lemma_or_keeps(f, FLAG_DID_LOSSLESS, FLAG_NO_AVIF_YCBCR);
    let v1 = with_flags(v0, f | FLAG_DID_LOSSLESS);
    lemma_start_flags(v1);
    let v3 = with_candidate_quality(with_steps(v1, with_tried(v1.steps, v1.steps.top)), None);
    lemma_start_flags(v3);
    match v.pending {
        Pending::Idle => {},
        Pending::Lossless => {
            let (w2, res) = process(with_pending(v, Pending::Idle), data);
            lemma_start_flags(w2);
            lemma_start_flags(keep_candidate_spec(w2));
        },
        Pending::Lossy(q) => {
            let (w2, res) = process(with_pending(v, Pending::Idle), data);
            lemma_start_flags(with_steps(w2, top_minus_one(w2.steps, q)));
            lemma_failed_flags(w2);
        },
    }
}

/// # Colour-space flags of `lossy_start` jobs.
proof fn lemma_start_flags(v: EncodeView)
    requires avif_round_flags(iter_kind(v), v.flags),
    ensures
        lossy_start(v).1 matches Step::Encode(r) ==>
            r.kind == iter_kind(v) && avif_round_flags(r.kind, r.flags),
{
    lemma_failed_flags(v);
}

/// # Colour-space flags of `inner_failed` jobs.
proof fn lemma_failed_flags(v: EncodeView)
    requires avif_round_flags(iter_kind(v), v.flags),
    ensures
        inner_failed(v).1 matches Step::Encode(r) ==>
            r.kind == iter_kind(v) && avif_round_flags(r.kind, r.flags),
{
    lemma_encoder_flags();
    if iter_kind(v) is Avif && !on(v.flags, FLAG_AVIF_ROUND_2) {
        let f1 = v.flags | FLAG_AVIF_ROUND_2;
        lemma_or_sets(v.flags, FLAG_AVIF_ROUND_2);
        lemma_or_keeps(v.flags, FLAG_AVIF_ROUND_2, FLAG_NO_AVIF_YCBCR);
        lemma_andnot_keeps(f1, FLAG_AVIF_RGB, FLAG_AVIF_ROUND_2);
        lemma_andnot_keeps(f1, FLAG_AVIF_RGB, FLAG_NO_AVIF_YCBCR);
        lemma_andnot_clears(f1, FLAG_AVIF_RGB);
    }
}

/// # Freshness of `lossy_start`.
proof fn lemma_start_fresh(v: EncodeView)
    requires 1 <= v.steps.bottom <= v.steps.top <= 255, v.pending is Idle,
    ensures
        lossy_start(v).0.pending matches Pending::Lossy(q) ==> {
            let v2 = lossy_start(v).0;
            &&& lossy_start(v).1 == Step::Encode(lossy_request(v2, q))
            &&& v2.steps.bottom <= q <= v2.steps.top
            &&& exists|x: Set<int>| !x.contains(q as int) && v2.steps.tried == x.insert(q as int)
        },
{
    lemma_lossy_try_fresh(v);
    lemma_failed_fresh(v);
    if let Some((v2, st)) = lossy_try(v) {
        if let Pending::Lossy(q) = v2.pending {
            assert(!v.steps.tried.contains(q as int) && v2.steps.tried == v.steps.tried.insert(q as int));
        }
    }
}

/// # Freshness of `inner_failed`.
proof fn lemma_failed_fresh(v: EncodeView)
    requires 1 <= v.steps.bottom <= v.steps.top <= 255, v.pending is Idle,
    ensures
        inner_failed(v).0.pending matches Pending::Lossy(q) ==> {
            let v2 = inner_failed(v).0;
            &&& inner_failed(v).1 == Step::Encode(lossy_request(v2, q))
            &&& v2.steps.bottom <= q <= v2.steps.top
            &&& exists|x: Set<int>| !x.contains(q as int) && v2.steps.tried == x.insert(q as int)
        },
{
    if iter_kind(v) is Avif && !on(v.flags, FLAG_AVIF_ROUND_2) {
        let v1 = with_flags(v, v.flags | FLAG_AVIF_ROUND_2);
        if !on(v1.flags, FLAG_NO_AVIF_YCBCR) {
            let v2 = with_flags(with_steps(v1, fresh_range(ImageKind::Avif)), v1.flags & !FLAG_AVIF_RGB);
            lemma_lossy_try_fresh(v2);
            if let Some((v3, st)) = lossy_try(v2) {
                if let Pending::Lossy(q) = v3.pending {
                    assert(!v2.steps.tried.contains(q as int) && v3.steps.tried == v2.steps.tried.insert(q as int));
                }
            }
        }
    }
}

/// # Candidates are smaller.
///
/// A candidate handed out by `feed` is a valid, lossy image of the run's
/// format, non-empty, and strictly smaller than both the source file and
/// the best kept so far; the best is left as it was. (Lossless results are
/// never handed out for review: they are kept straight away.)
pub proof fn lemma_candidate_smaller(v: EncodeView, data: Result<Seq<u8>, RefractError>)
    requires
        iter_wf(v),
        feed_spec(v, data).1 == Step::Candidate,
    ensures ({
        let v2 = feed_spec(v, data).0;
        &&& valid_flags(v2.candidate.flags)
        &&& 0 < v2.candidate.data.len() < target_size(v)
        &&& target_size(v) <= v.src.size
        &&& (size_of(v.best) matches Some(b) ==> v2.candidate.data.len() < b)
        &&& magic_kind(v2.candidate.data) == Some(iter_kind(v))
        &&& v2.candidate.quality is Lossy
        &&& quality_kind(v2.candidate.quality) == iter_kind(v)
        &&& v2.best == v.best
    }),
{
    lemma_never_candidate_start(v);
    match v.pending {
        Pending::Lossy(q) => {
            let v1 = with_pending(v, Pending::Idle);
            let (w2, res) = process(v1, data);
            lemma_never_candidate_start(with_steps(w2, top_minus_one(w2.steps, q)));
            lemma_never_candidate_failed(w2);
            assert(res is Ok);
            assert(v.candidate.data.len() == 0);
            assert(data is Ok);
            assert(!valid_flags(v1.candidate.flags));
            assert(finish_verdict(w2.candidate, target_size(v1)) is Ok);
            assert(target_size(v1) == target_size(v));
            lemma_or_sets(v1.candidate.flags, FLAG_VALID);
            assert(feed_spec(v, data).0 == w2);
            assert(valid_flags(w2.candidate.flags));
        },
        Pending::Lossless => {
            let (w2, res) = process(with_pending(v, Pending::Idle), data);
            let w3 = if res is Ok { keep_candidate_spec(w2) } else { w2 };
            lemma_never_candidate_start(w3);
        },
        Pending::Idle => {},
    }
}

/// # `lossy_start` never hands out a candidate.
/// # `advance` never hands out a candidate: only `feed` does.
proof fn lemma_advance_no_candidate(v: EncodeView)
    ensures advance_spec(v).1 != Step::Candidate,
{
    let v0 = with_pending(v, Pending::Idle);
    let v1 = with_flags(v0, v0.flags | FLAG_DID_LOSSLESS);
    let v3 = with_candidate_quality(with_steps(v1, with_tried(v1.steps, v1.steps.top)), None);
    lemma_never_candidate_start(v0);
    lemma_never_candidate_start(v1);
    lemma_never_candidate_start(v3);
}

proof fn lemma_never_candidate_start(v: EncodeView)
    ensures lossy_start(v).1 != Step::Candidate,
{
    lemma_never_candidate_failed(v);
}

/// # `inner_failed` never hands out a candidate.
proof fn lemma_never_candidate_failed(v: EncodeView)
    ensures inner_failed(v).1 != Step::Candidate,
{}

/// # Keeping twice is keeping once.
///
/// `keep` hands the candidate over to the best and resets it, so a second
/// `keep` (with nothing in between) changes nothing more.
pub proof fn lemma_keep_idempotent(v: EncodeView)
    requires iter_wf(v),
    ensures keep_spec(keep_spec(v)) == keep_spec(v),
{
    lemma_encoder_flags();
    let v1 = keep_spec(v);
    assert(keep_spec(v1).steps =~= v1.steps);
}

/// # Keeping shrinks the best.
///
/// After `keep`, a candidate with data has become the best, and it is
/// strictly smaller than the source file and than the previous best.
pub proof fn lemma_keep_shrinks(v: EncodeView, v2: EncodeView)
    requires
        iter_wf(v),
        v2 == keep_candidate_spec(v),
        size_of(v.candidate) is Some,
    ensures
        size_of(v2.best) == size_of(v.candidate),
        size_of(v2.best).unwrap() < v.src.size,
        size_of(v.best) matches Some(b) ==> size_of(v2.best).unwrap() < b,
{}

// ---------------------------------------------------------------------------
// The iterator.
// ---------------------------------------------------------------------------

#[derive(Debug)]
/// # Encoding Iterator.
///
/// A guided encoding run for one source and one output format. Each round,
/// started with `advance`, yields encoding jobs until a candidate is ready
/// (or nothing is left); `keep` and `discard` feed back whether the
/// candidate looked good, narrowing the range of qualities left to try by
/// roughly half each time. `take` returns the best candidate kept.
pub struct EncodeIter {
    /// # Source.
    src: Input,
    /// # Best Output.
    best: Output,
    /// # Current Output.
    candidate: Output,
    /// # Quality Stepper.
    steps: QualityRange,
    /// # Flags.
    flags: u8,
    /// # Awaited encoding.
    pending: Pending,
}

impl View for EncodeIter {
    type V = EncodeView;

    closed spec fn view(&self) -> EncodeView {
        EncodeView {
            src: self.src@,
            best: self.best@,
            candidate: self.candidate@,
            steps: self.steps@,
            flags: self.flags,
            pending: self.pending,
        }
    }
}

/// # `pick` is what `QualityRange::next` returns.
proof fn lemma_pick(r: RangeView, x: Option<u8>)
    requires
        next_quality(r, x),
        x matches Some(q) ==> r.bottom <= q <= r.top && !r.tried.contains(q as int),
        1 <= r.bottom <= r.top <= 255,
    ensures x == pick(r),
{
    let g = guess_of(r.bottom, r.top);
    if !r.tried.contains(g) {
    }
    else {
        match x {
            Some(q) => {
                assert(least_untried(r, q as int));
                assert(!exhausted(r));
                let c = choose|c: int| least_untried(r, c);
                assert(least_untried(r, c));
                if c < q { assert(r.tried.contains(c)); }
                if q < c { assert(r.tried.contains(q as int)); }
                assert(c == q);
            },
            None => {},
        }
    }
}

impl EncodeIter {
    /// # Well-formed.
    pub closed spec fn wf(&self) -> bool {
        &&& self.src.wf()
        &&& self.steps.wf()
        &&& iter_wf(self@)
    }

    /// # Well-formed iterators meet the invariant the laws speak of.
    ///
    /// Every iterator built by `new` and kept by the other methods is
    /// well-formed; this opens that up to callers, so the laws of this
    /// module (such as `lemma_candidate_smaller`) apply to real iterators.
    pub proof fn lemma_wf(&self)
        requires self.wf(),
        ensures iter_wf(self@),
    {}

    /// # New.
    ///
    /// Start a new run given a source and output format. The flags are
    /// sanitized to the public ones; AVIF runs start in full-range `RGB`,
    /// and the `YCbCr` flag is dropped for the other formats. JPEG XL works
    /// from a native-channel buffer, everyone else from RGBA.
    ///
    /// ## Errors
    ///
    /// `ImageEncode` if the output format does not support encoding.
    pub fn new(src: Input, kind: ImageKind, flags: u8) -> (r: Result<EncodeIter, RefractError>)
        requires src.wf(),
        ensures
            match r {
                Ok(it) => {
                    &&& encodable(kind)
                    &&& it.wf()
                    &&& it@.flags == start_flags(kind, flags)
                    &&& it@.src == (if kind is Jxl { native_view(src@) } else { rgba_view(src@) })
                    &&& it@.best == OutputView { data: Seq::empty(), quality: Quality::Lossless(kind), flags: 0 }
                    &&& it@.candidate == OutputView { data: Seq::empty(), quality: Quality::Lossless(kind), flags: 0 }
                    &&& it@.steps == fresh_range(kind)
                    &&& it@.pending == Pending::Idle
                },
                Err(e) => !encodable(kind) && e == RefractError::ImageEncode(kind),
            },
    {
        if !kind.can_encode() {
            return Err(RefractError::ImageEncode(kind));
        }
        let masked: u8 = flags & PUBLIC_FLAGS;
        proof { lemma_encoder_flags(); lemma_and_mask_drops(flags, PUBLIC_FLAGS, FLAG_VALID); }
        proof { lemma_and_mask_drops(flags, PUBLIC_FLAGS, FLAG_AVIF_ROUND_2); }
        let f: u8 = if kind == ImageKind::Avif {
            proof {
                lemma_or_keeps(masked, FLAG_AVIF_RGB, FLAG_VALID);
                lemma_or_keeps(masked, FLAG_AVIF_RGB, FLAG_AVIF_ROUND_2);
                lemma_or_sets(masked, FLAG_AVIF_RGB);
            }
            masked | FLAG_AVIF_RGB
        }
        else {
            proof {
                lemma_andnot_keeps(masked, FLAG_NO_AVIF_YCBCR, FLAG_VALID);
                lemma_andnot_keeps(masked, FLAG_NO_AVIF_YCBCR, FLAG_AVIF_ROUND_2);
            }
            masked & !FLAG_NO_AVIF_YCBCR
        };
        let src = match kind {
            ImageKind::Jxl => src.into_native(),
            _ => src.into_rgba(),
        };
        let steps = QualityRange::from(kind);
        proof { steps.lemma_bounds(); }
        Ok(Self {
            src,
            best: Output::new(kind),
            candidate: Output::new(kind),
            steps,
            flags: f,
            pending: Pending::Idle,
        })
    }

    /// # Candidate.
    ///
    /// The most recent candidate image, if valid.
    pub fn candidate(&self) -> (r: Option<&Output>)
        ensures
            match r {
                Some(o) => valid_flags(self@.candidate.flags) && o@ == self@.candidate,
                None => !valid_flags(self@.candidate.flags),
            },
    {
        if self.candidate.is_valid() { Some(&self.candidate) }
        else { None }
    }

    /// # Source.
    ///
    /// The (converted) input the encoders should work from.
    pub fn input(&self) -> (r: &Input)
        ensures r@ == self@.src,
    {
        &self.src
    }

    /// # Input Kind.
    pub fn input_kind(&self) -> (r: ImageKind)
        ensures r == self@.src.kind,
    {
        self.src.kind()
    }

    /// # Input Size.
    ///
    /// The original file size of the source image.
    pub fn input_size(&self) -> (r: usize)
        ensures r == self@.src.size,
    {
        self.src.size()
    }

    /// # Output Kind.
    pub fn output_kind(&self) -> (r: ImageKind)
        ensures r == iter_kind(self@),
    {
        self.candidate.kind()
    }

    /// # Output Size.
    ///
    /// The size of the current best output image, if any.
    pub fn output_size(&self) -> (r: Option<usize>)
        ensures
            match r {
                Some(s) => size_of(self@.best) == Some(s as int),
                None => size_of(self@.best) is None,
            },
    {
        self.best.size()
    }

    /// # Flags.
    pub fn flags(&self) -> (r: u8)
        ensures r == self@.flags,
    {
        self.flags
    }

    /// # Quality Range.
    pub fn steps(&self) -> (r: &QualityRange)
        ensures r@ == self@.steps,
    {
        &self.steps
    }

    /// # Take the Best!
    ///
    /// Consume the iterator and return the best candidate found, if any.
    ///
    /// ## Errors
    ///
    /// `NoBest` if no candidate was ever kept.
    pub fn take(self) -> (r: Result<Output, RefractError>)
        requires self.wf(),
        ensures
            r is Ok <==> size_of(self@.best) is Some,
            match r {
                Ok(o) => {
                    &&& o@ == self@.best
                    &&& valid_flags(o@.flags)
                    &&& 0 < o@.data.len() < self@.src.size
                    &&& quality_kind(o@.quality) == iter_kind(self@)
                },
                Err(e) => e == RefractError::NoBest(iter_kind(self@)),
            },
    {
        if self.best.is_valid() { Ok(self.best) }
        else {
            let k: ImageKind = self.output_kind();
            Err(RefractError::NoBest(k))
        }
    }

    /// # Target Size.
    fn target_size(&self) -> (r: usize)
        ensures r == target_size(self@),
    {
        let input: usize = self.src.size();
        match self.best.size() {
            Some(s) => if s < input { s } else { input },
            None => input,
        }
    }

    /// # Discard Candidate.
    ///
    /// Reject the last candidate because e.g. it looked terrible: the floor
    /// of the range is raised to its quality so the next round tests a
    /// higher one.
    pub fn discard(&mut self)
        requires old(self).wf(),
        ensures
            final(self).wf(),
            final(self)@ == with_steps(old(self)@, RangeView {
                bottom: {
                    let b = raw_of(old(self)@.candidate.quality) as int;
                    if b <= old(self)@.steps.bottom { old(self)@.steps.bottom }
                    else if b >= old(self)@.steps.top { old(self)@.steps.top }
                    else { b }
                },
                top: old(self)@.steps.top,
                tried: old(self)@.steps.tried,
            }),
    {
        let q: u8 = self.candidate.quality().raw();
        self.steps.set_bottom(q);
        proof { self.steps.lemma_bounds(); }
    }

    /// # Keep Candidate.
    ///
    /// Store the last candidate as the current best: the ceiling of the
    /// range is lowered to its quality so the next round tests a lower one.
    pub fn keep(&mut self)
        requires old(self).wf(),
        ensures
            final(self).wf(),
            final(self)@ == keep_spec(old(self)@),
    {
        let q: u8 = self.candidate.quality().raw();
        self.steps.set_top(q);
        proof { self.steps.lemma_bounds(); }
        self.keep_candidate();
    }

    /// # Keep Candidate (internal).
    fn keep_candidate(&mut self)
        requires old(self).wf(),
        ensures
            final(self).wf(),
            final(self)@ == keep_candidate_spec(old(self)@),
    {
        proof { lemma_encoder_flags(); }
        if self.candidate.is_valid() {
            self.candidate.copy_to(&mut self.best);
            proof {
                assert(self@ == keep_candidate_spec(old(self)@));
            }
        }
    }

    /// # Set Candidate Quality.
    fn set_candidate_quality(&mut self, quality: Option<u8>)
        requires old(self).wf(), old(self)@.pending == Pending::Idle,
        ensures
            final(self).wf(),
            final(self)@ == with_candidate_quality(old(self)@, quality),
    {
        let k: ImageKind = self.output_kind();
        self.candidate.set_quality(Quality::new(k, quality), self.flags);
        proof {
            assert(self@ == with_candidate_quality(old(self)@, quality));
            assert(!valid_flags(self.flags)) by {
                lemma_encoder_flags();
            }
        }
    }

    /// # Lossless job (internal).
    fn lossless_request(&self) -> (r: Result<EncodeRequest, RefractError>)
        requires self.wf(),
        ensures r == lossless_request(self@),
    {
        let k: ImageKind = self.output_kind();
        if k == ImageKind::Avif {
            if self.src.is_greyscale() { Err(RefractError::NothingDoing) }
            else { Ok(EncodeRequest { kind: k, quality: Some(63u8), flags: self.flags }) }
        }
        else { Ok(EncodeRequest { kind: k, quality: None, flags: self.flags }) }
    }

    /// # Try a lossy job (internal).
    fn lossy_try(&mut self) -> (r: Option<Step>)
        requires old(self).wf(), old(self)@.pending == Pending::Idle,
        ensures
            final(self).wf(),
            match r {
                Some(s) => lossy_try(old(self)@) == Some((final(self)@, s)),
                None => lossy_try(old(self)@) is None && final(self)@ == old(self)@,
            },
    {
        proof { lemma_single_bit(self.flags, FLAG_NO_LOSSY); }
        if 0 != self.flags & FLAG_NO_LOSSY { return None; }
        proof { self.steps.lemma_bounds(); }
        let ghost before = self.steps@;
        let next: Option<u8> = self.steps.next();
        proof {
            lemma_pick(before, next);
            self.steps.lemma_bounds();
        }
        match next {
            None => None,
            Some(q) => {
                self.set_candidate_quality(Some(q));
                let k: ImageKind = self.output_kind();
                let req = EncodeRequest { kind: k, quality: Some(q), flags: self.flags };
                self.pending = Pending::Lossy(q);
                Some(Step::Encode(req))
            },
        }
    }

    /// # No (more) lossy work (internal).
    fn inner_failed(&mut self) -> (r: Step)
        requires old(self).wf(), old(self)@.pending == Pending::Idle,
        ensures
            final(self).wf(),
            (final(self)@, r) == inner_failed(old(self)@),
    {
        let k: ImageKind = self.output_kind();
        proof { lemma_encoder_flags(); lemma_single_bit(self.flags, FLAG_AVIF_ROUND_2); }
        if k == ImageKind::Avif && 0 == self.flags & FLAG_AVIF_ROUND_2 {
            proof {
                lemma_or_keeps(self.flags, FLAG_AVIF_ROUND_2, FLAG_VALID);
                lemma_or_keeps(self.flags, FLAG_AVIF_ROUND_2, FLAG_NO_AVIF_YCBCR);
                lemma_or_sets(self.flags, FLAG_AVIF_ROUND_2);
                lemma_single_bit(self.flags, FLAG_NO_AVIF_YCBCR);
            }
            self.flags = self.flags | FLAG_AVIF_ROUND_2;
            if 0 == self.flags & FLAG_NO_AVIF_YCBCR {
                self.steps.reboot(k.min_encoder_quality(), k.max_encoder_quality());
                proof {
                    lemma_andnot_keeps(self.flags, FLAG_AVIF_RGB, FLAG_VALID);
                    lemma_andnot_keeps(self.flags, FLAG_AVIF_RGB, FLAG_AVIF_ROUND_2);
                    lemma_andnot_keeps(self.flags, FLAG_AVIF_RGB, FLAG_NO_AVIF_YCBCR);
                    lemma_andnot_clears(self.flags, FLAG_AVIF_RGB);
                    self.steps.lemma_bounds();
                }
                self.flags = self.flags & !FLAG_AVIF_RGB;
                let ghost v2 = self@;
                match self.lossy_try() {
                    Some(s) => s,
                    None => Step::Done,
                }
            }
            else { Step::Done }
        }
        else { Step::Done }
    }

    /// # Start lossy work (internal).
    fn lossy_start(&mut self) -> (r: Step)
        requires old(self).wf(), old(self)@.pending == Pending::Idle,
        ensures
            final(self).wf(),
            (final(self)@, r) == lossy_start(old(self)@),
    {
        match self.lossy_try() {
            Some(s) => s,
            None => self.inner_failed(),
        }
    }

    /// # Advance.
    ///
    /// Start a round: returns the first encoding job, or `Done` if there is
    /// nothing left to try. The first round starts with a lossless attempt
    /// (unless disabled); lossy rounds take the next quality from the
    /// closing range.
    pub fn advance(&mut self) -> (r: Step)
        requires old(self).wf(),
        ensures
            final(self).wf(),
            (final(self)@, r) == advance_spec(old(self)@),
            r != Step::Candidate,
    {
        proof { lemma_advance_no_candidate(self@); }
        self.pending = Pending::Idle;
        proof { lemma_encoder_flags(); lemma_single_bit(self.flags, FLAG_DID_LOSSLESS); }
        if 0 == self.flags & FLAG_DID_LOSSLESS {
            proof {
                lemma_or_keeps(self.flags, FLAG_DID_LOSSLESS, FLAG_VALID);
                lemma_or_keeps(self.flags, FLAG_DID_LOSSLESS, FLAG_NO_LOSSLESS);
                lemma_or_keeps(self.flags, FLAG_DID_LOSSLESS, FLAG_AVIF_ROUND_2);
                lemma_or_keeps(self.flags, FLAG_DID_LOSSLESS, FLAG_AVIF_RGB);
                lemma_or_keeps(self.flags, FLAG_DID_LOSSLESS, FLAG_NO_AVIF_YCBCR);
                lemma_single_bit(self.flags, FLAG_NO_LOSSLESS);
            }
            self.flags = self.flags | FLAG_DID_LOSSLESS;
            if 0 == self.flags & FLAG_NO_LOSSLESS {
                let top: u8 = self.steps.top();
                self.steps.ignore(top);
                proof { self.steps.lemma_bounds(); }
                self.set_candidate_quality(None);
                match self.lossless_request() {
                    Ok(req) => {
                        self.pending = Pending::Lossless;
                        return Step::Encode(req);
                    },
                    Err(_) => {},
                }
            }
        }
        self.lossy_start()
    }

    /// # Store and judge an encoder result (internal).
    fn process(&mut self, data: Result<Vec<u8>, RefractError>) -> (r: Result<(), RefractError>)
        requires
            old(self).wf(),
            old(self)@.pending == Pending::Idle,
            old(self)@.candidate.data.len() == 0,
            !valid_flags(old(self)@.candidate.flags),
        ensures
            final(self).wf(),
            (final(self)@, r) == process(old(self)@, result_view(data)),
    {
        match data {
            Err(e) => {
                assert(self@ == old(self)@);
                Err(e)
            },
            Ok(d) => {
                let target: usize = self.target_size();
                self.candidate.set_slice(d.as_slice());
                self.candidate.finish(target)
            },
        }
    }

    /// # Feed an Encoder Result.
    ///
    /// Hand over what the encoder made of the last `Step::Encode` job (the
    /// raw file bytes, or its error). The result is validated: it must be of
    /// the expected format and smaller than both the source and the best so
    /// far. Returns the next job of the round, `Candidate` if a lossy result
    /// passed, or `Done`.
    pub fn feed(&mut self, data: Result<Vec<u8>, RefractError>) -> (r: Step)
        requires old(self).wf(),
        ensures
            final(self).wf(),
            (final(self)@, r) == feed_spec(old(self)@, result_view(data)),
            r == Step::Candidate ==> {
                &&& valid_flags(final(self)@.candidate.flags)
                &&& 0 < final(self)@.candidate.data.len() < target_size(old(self)@)
                &&& final(self)@.candidate.quality is Lossy
                &&& quality_kind(final(self)@.candidate.quality) == iter_kind(old(self)@)
                &&& magic_kind(final(self)@.candidate.data) == Some(iter_kind(old(self)@))
                &&& final(self)@.best == old(self)@.best
            },
    {
        proof {
            let d = result_view(data);
            if feed_spec(self@, d).1 == Step::Candidate { lemma_candidate_smaller(self@, d); }
        }
        match self.pending {
            Pending::Idle => Step::Done,
            Pending::Lossless => {
                self.pending = Pending::Idle;
                let res = self.process(data);
                if res.is_ok() { self.keep_candidate(); }
                self.lossy_start()
            },
            Pending::Lossy(q) => {
                self.pending = Pending::Idle;
                let res = self.process(data);
                match res {
                    Ok(()) => Step::Candidate,
                    Err(RefractError::TooBig) => {
                        self.steps.set_top_minus_one(q);
                        proof { self.steps.lemma_bounds(); }
                        self.lossy_start()
                    },
                    Err(_) => self.inner_failed(),
                }
            },
        }
    }
}

} // verus!
