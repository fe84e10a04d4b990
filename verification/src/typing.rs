//! Which typing burst caused a frame. A burst stored against the frame
//! counts when it was typed on the frame's surface within a minute before
//! the frame. A burst never tied to a frame is recovered only when exactly
//! one fits: typed on the frame's surface, and either started from the
//! frame's direct predecessor or ended within two and a half seconds of the
//! frame. A burst typed in another window never counts, and several that
//! fit recover none.
//!
//! The store reads the bursts; among stored bursts that count, the one
//! with the highest association confidence is taken where the confidences
//! are kept.
use vstd::prelude::*;
use crate::evidence::{surface_matches, typing_surface_matches, TypingSurface};
use crate::text::{opt_str, str_eq};

verus! {

/// How long before a frame a stored burst may end and still count.
pub const MAX_TYPING_TO_FRAME_MS: i64 = 60_000;

/// How close to a frame a burst never tied to one must end to be recovered
/// without the frame's predecessor.
pub const CLOSE_TYPING_TO_FRAME_MS: i64 = 2_500;

/// What attribution reads of a typing burst.
#[derive(Debug, Clone, PartialEq, Eq)]
pub struct TypingCandidate {
    pub id: String,
    pub ended_at_ms: i64,
    pub pre_frame_id: Option<String>,
    pub surface: TypingSurface,
}

/// What attribution reads of the frame.
#[derive(Debug, Clone, PartialEq, Eq)]
pub struct TypingFrame {
    pub observed_at_ms: i64,
    pub bundle_id: Option<String>,
    pub app_name: Option<String>,
    pub window_id: Option<i64>,
    pub window_title: Option<String>,
    pub previous_frame_id: Option<String>,
    pub trigger_pre_frame_id: Option<String>,
}

/// The time from a burst's end to the frame, saturated to `i64`.
pub open spec fn gap_ms(observed: i64, ended: i64) -> int {
    let d = observed - ended;
    if d > i64::MAX {
        i64::MAX as int
    } else if d < i64::MIN {
        i64::MIN as int
    } else {
        d
    }
}

/// The burst was typed on the frame's surface.
pub open spec fn on_frame_surface(c: TypingCandidate, f: TypingFrame) -> bool {
    surface_matches(c.surface, opt_str(f.bundle_id), opt_str(f.app_name), f.window_id, opt_str(f.window_title))
}

/// A stored burst counts for the frame.
pub open spec fn stored_fits(c: TypingCandidate, f: TypingFrame) -> bool {
    &&& on_frame_surface(c, f)
    &&& 0 <= gap_ms(f.observed_at_ms, c.ended_at_ms) <= MAX_TYPING_TO_FRAME_MS
}

/// The burst started from the frame's direct predecessor.
pub open spec fn follows_predecessor(c: TypingCandidate, f: TypingFrame) -> bool {
    match opt_str(c.pre_frame_id) {
        Some(p) => opt_str(f.previous_frame_id) == Some(p) || opt_str(f.trigger_pre_frame_id) == Some(p),
        None => false,
    }
}

/// A burst never tied to a frame fits the frame.
pub open spec fn recovered_fits(c: TypingCandidate, f: TypingFrame) -> bool {
    &&& (follows_predecessor(c, f) || gap_ms(f.observed_at_ms, c.ended_at_ms) <= CLOSE_TYPING_TO_FRAME_MS)
    &&& on_frame_surface(c, f)
}

/// The indices of the first `n` bursts that meet `p`, in order.
pub open spec fn fitting(
    cands: Seq<TypingCandidate>,
    f: TypingFrame,
    p: spec_fn(TypingCandidate, TypingFrame) -> bool,
    n: int,
) -> Seq<usize>
    decreases n,
{
    if n <= 0 {
        Seq::empty()
    } else if p(cands[n - 1], f) {
        fitting(cands, f, p, n - 1).push((n - 1) as usize)
    } else {
        fitting(cands, f, p, n - 1)
    }
}

pub open spec fn stored_p() -> spec_fn(TypingCandidate, TypingFrame) -> bool {
    |c: TypingCandidate, f: TypingFrame| stored_fits(c, f)
}

pub open spec fn recovered_p() -> spec_fn(TypingCandidate, TypingFrame) -> bool {
    |c: TypingCandidate, f: TypingFrame| recovered_fits(c, f)
}

/// The time from a burst's end to the frame, saturated.
fn gap(observed: i64, ended: i64) -> (r: i64)
    ensures
        r == gap_ms(observed, ended),
{
    let d: i128 = observed as i128 - ended as i128;
    if d > i64::MAX as i128 {
        i64::MAX
    } else if d < i64::MIN as i128 {
        i64::MIN
    } else {
        d as i64
    }
}

fn opt_as_str(o: &Option<String>) -> (r: Option<&str>)
    ensures
        match r {
            Some(s) => opt_str(*o) == Some(s@),
            None => o is None,
        },
{
    match o {
        Some(s) => Some(s.as_str()),
        None => None,
    }
}

fn on_surface(c: &TypingCandidate, f: &TypingFrame) -> (b: bool)
    ensures
        b == on_frame_surface(*c, *f),
{
    typing_surface_matches(
        &c.surface,
        opt_as_str(&f.bundle_id),
        opt_as_str(&f.app_name),
        f.window_id,
        opt_as_str(&f.window_title),
    )
}

fn same_opt(a: &Option<String>, b: &str) -> (r: bool)
    ensures
        r == (opt_str(*a) == Some(b@)),
{
    match a {
        Some(s) => str_eq(s.as_str(), b),
        None => false,
    }
}

/// The stored bursts that count for the frame, in order.
pub fn stored_typing_candidates(cands: &Vec<TypingCandidate>, f: &TypingFrame) -> (r: Vec<usize>)
    ensures
        r@ == fitting(cands@, *f, stored_p(), cands@.len() as int),
{
    let mut r: Vec<usize> = Vec::new();
    let mut i: usize = 0;
    while i < cands.len()
        invariant
            i <= cands@.len(),
            r@ == fitting(cands@, *f, stored_p(), i as int),
        decreases cands.len() - i,
    {
        let c = &cands[i];
        let d = gap(f.observed_at_ms, c.ended_at_ms);
        let fits = on_surface(c, f) && 0 <= d && d <= MAX_TYPING_TO_FRAME_MS;
        assert(fits == (stored_p())(cands@[i as int], *f));
        if fits {
            r.push(i);
        }
        i = i + 1;
    }
    r
}

/// The burst never tied to a frame that is recovered for it: the one that
/// fits, when exactly one does.
pub fn recovered_typing_candidate(cands: &Vec<TypingCandidate>, f: &TypingFrame) -> (r: Option<usize>)
    ensures
        ({
            let fit = fitting(cands@, *f, recovered_p(), cands@.len() as int);
            r == if fit.len() == 1 {
                Some(fit[0])
            } else {
                None::<usize>
            }
        }),
{
    let mut found: Vec<usize> = Vec::new();
    let mut i: usize = 0;
    while i < cands.len()
        invariant
            i <= cands@.len(),
            found@ == fitting(cands@, *f, recovered_p(), i as int),
        decreases cands.len() - i,
    {
        let c = &cands[i];
        let follows = match &c.pre_frame_id {
            Some(p) => same_opt(&f.previous_frame_id, p.as_str()) || same_opt(
                &f.trigger_pre_frame_id,
                p.as_str(),
            ),
            None => false,
        };
        let close = gap(f.observed_at_ms, c.ended_at_ms) <= CLOSE_TYPING_TO_FRAME_MS;
        let fits = (follows || close) && on_surface(c, f);
        assert(fits == (recovered_p())(cands@[i as int], *f));
        if fits {
            found.push(i);
        }
        i = i + 1;
    }
    if found.len() == 1 {
        Some(found[0])
    } else {
        None
    }
}

} // verus!
