//! Decoder selection: which plugin `find_decoder` picks and in which order `decode` tries them.

use super::DecodeMatch;
use vstd::prelude::*;

verus! {

/// Indices `i < n` whose score is `m`, in increasing order.
pub open spec fn indices_with(scores: Seq<DecodeMatch>, m: DecodeMatch, n: nat) -> Seq<usize>
    decreases n,
{
    if n == 0 {
        Seq::empty()
    } else {
        indices_with(scores, m, (n - 1) as nat) + if scores[n - 1] == m {
            seq![(n - 1) as usize]
        } else {
            Seq::empty()
        }
    }
}

/// The decoders to try, most confident first: every matching decoder, sorted by descending
/// score, registration order kept among equal scores (a stable sort).
pub open spec fn candidate_order(scores: Seq<DecodeMatch>) -> Seq<usize> {
    indices_with(scores, DecodeMatch::MagicBytes, scores.len())
        + indices_with(scores, DecodeMatch::ExtensionOnly, scores.len())
}

/// The last index `< n` with score `m`, if any.
pub open spec fn last_with(scores: Seq<DecodeMatch>, m: DecodeMatch, n: nat) -> Option<usize>
    decreases n,
{
    if n == 0 {
        None
    } else if scores[n - 1] == m {
        Some((n - 1) as usize)
    } else {
        last_with(scores, m, (n - 1) as nat)
    }
}

/// What `last_with` finds has the score asked for and lies below `n`.
pub proof fn lemma_last_with(scores: Seq<DecodeMatch>, m: DecodeMatch, n: nat)
    requires
        n <= scores.len() <= usize::MAX,
    ensures
        last_with(scores, m, n) matches Some(k) ==> k < n && scores[k as int] == m,
    decreases n,
{
    if n > 0 {
        lemma_last_with(scores, m, (n - 1) as nat);
    }
}

/// The decoder `find_decoder` picks: the highest score wins, and among equal scores the last
/// registered (as `Iterator::max_by_key` returns the last maximum); none if nothing matches.
pub open spec fn best_candidate(scores: Seq<DecodeMatch>) -> Option<usize> {
    match last_with(scores, DecodeMatch::MagicBytes, scores.len()) {
        Some(i) => Some(i),
        None => last_with(scores, DecodeMatch::ExtensionOnly, scores.len()),
    }
}

/// Appends the indices with score `m`.
fn push_indices_with(out: &mut Vec<usize>, scores: &[DecodeMatch], m: DecodeMatch)
    ensures
        final(out)@ == old(out)@ + indices_with(scores@, m, scores@.len()),
{
    let mut i: usize = 0;
    while i < scores.len()
        invariant
            i <= scores@.len(),
            out@ == old(out)@ + indices_with(scores@, m, i as nat),
        decreases scores.len() - i,
    {
        if scores[i] == m {
            out.push(i);
        }
        assert(out@ =~= old(out)@ + indices_with(scores@, m, (i + 1) as nat));
        i = i + 1;
    }
}

/// Gathers all matching decoders sorted descending by confidence (magic bytes before
/// extension only), keeping registration order among equals.
pub fn rank_candidates(scores: &[DecodeMatch]) -> (r: Vec<usize>)
    ensures
        r@ == candidate_order(scores@),
{
    let mut out: Vec<usize> = Vec::new();
    push_indices_with(&mut out, scores, DecodeMatch::MagicBytes);
    push_indices_with(&mut out, scores, DecodeMatch::ExtensionOnly);
    assert(out@ =~= candidate_order(scores@));
    out
}

/// Picks the decoder with the highest match score (the last one among equals).
pub fn best_decoder(scores: &[DecodeMatch]) -> (r: Option<usize>)
    ensures
        r == best_candidate(scores@),
{
    let mut best: Option<usize> = None;
    let mut best_rank: u8 = 0;
    let mut i: usize = 0;
    while i < scores.len()
        invariant
            i <= scores@.len(),
            best == (match last_with(scores@, DecodeMatch::MagicBytes, i as nat) {
                Some(k) => Some(k),
                None => last_with(scores@, DecodeMatch::ExtensionOnly, i as nat),
            }),
            best_rank == match best {
                Some(k) => scores@[k as int].spec_rank(),
                None => 0,
            },
            best matches Some(k) ==> k < i,
        decreases scores.len() - i,
    {
        let r = scores[i].rank();
        proof {
            assert(scores@.len() == scores.len());
            lemma_last_with(scores@, DecodeMatch::MagicBytes, i as nat);
            lemma_last_with(scores@, DecodeMatch::ExtensionOnly, i as nat);
        }
        if r > 0 && r >= best_rank {
            best = Some(i);
            best_rank = r;
        }
        i = i + 1;
    }
    best
}

/// `indices_with` lists exactly the indices below `n` with the score, in increasing order.
pub proof fn lemma_indices_with(scores: Seq<DecodeMatch>, m: DecodeMatch, n: nat)
    requires
        n <= scores.len() <= usize::MAX,
    ensures
        forall|i: int| 0 <= i < n ==> (scores[i] == m <==> indices_with(scores, m, n).contains(i as usize)),
        forall|k: int|
            0 <= k < indices_with(scores, m, n).len() ==> (#[trigger] indices_with(scores, m, n)[k])
                < n && scores[indices_with(scores, m, n)[k] as int] == m,
        forall|a: int, b: int|
            0 <= a < b < indices_with(scores, m, n).len() ==> #[trigger] indices_with(scores, m, n)[a]
                < #[trigger] indices_with(scores, m, n)[b],
    decreases n,
{
    if n > 0 {
        lemma_indices_with(scores, m, (n - 1) as nat);
        let p = indices_with(scores, m, (n - 1) as nat);
        let q = indices_with(scores, m, n);
        if scores[n - 1] == m {
            assert(q =~= p.push((n - 1) as usize));
            assert forall|i: int| 0 <= i < n implies (scores[i] == m <==> q.contains(i as usize)) by {
                if i < n - 1 {
                    if scores[i] == m {
                        let k = choose|k: int| 0 <= k < p.len() && p[k] == i as usize;
                        assert(q[k] == i as usize);
                    }
                    if q.contains(i as usize) {
                        let k = choose|k: int| 0 <= k < q.len() && q[k] == i as usize;
                        if k < p.len() {
                            assert(p[k] == i as usize);
                        }
                    }
                } else {
                    assert(q[q.len() - 1] == i as usize);
                }
            }
        } else {
            assert(q =~= p);
        }
    }
}

/// `decode` tries exactly the decoders that recognise the file (by magic bytes or by extension),
/// each once, magic-byte matches before extension-only ones, and in registration order among
/// decoders with the same score.
pub proof fn law_candidate_order(scores: Seq<DecodeMatch>)
    requires
        scores.len() <= usize::MAX,
    ensures
        forall|i: int|
            0 <= i < scores.len() ==> (scores[i] != DecodeMatch::NoMatch <==> candidate_order(
                scores,
            ).contains(i as usize)),
        forall|a: int, b: int|
            #![trigger candidate_order(scores)[a], candidate_order(scores)[b]]
            0 <= a < b < candidate_order(scores).len() ==> {
                &&& scores[candidate_order(scores)[a] as int].spec_rank() >= scores[candidate_order(
                    scores,
                )[b] as int].spec_rank()
                &&& scores[candidate_order(scores)[a] as int] == scores[candidate_order(
                    scores,
                )[b] as int] ==> candidate_order(scores)[a] < candidate_order(scores)[b]
            },
{
    let n = scores.len();
    lemma_indices_with(scores, DecodeMatch::MagicBytes, n);
    lemma_indices_with(scores, DecodeMatch::ExtensionOnly, n);
    let mg = indices_with(scores, DecodeMatch::MagicBytes, n);
    let ex = indices_with(scores, DecodeMatch::ExtensionOnly, n);
    let c = candidate_order(scores);
    assert(c == mg + ex);
    assert forall|i: int| 0 <= i < n implies (scores[i] != DecodeMatch::NoMatch <==> c.contains(
        i as usize,
    )) by {
        if mg.contains(i as usize) {
            let k = choose|k: int| 0 <= k < mg.len() && mg[k] == i as usize;
            assert(c[k] == i as usize);
        }
        if ex.contains(i as usize) {
            let k = choose|k: int| 0 <= k < ex.len() && ex[k] == i as usize;
            assert(c[mg.len() + k] == i as usize);
        }
        if c.contains(i as usize) {
            let k = choose|k: int| 0 <= k < c.len() && c[k] == i as usize;
            if k < mg.len() {
                assert(mg[k] == i as usize);
            } else {
                assert(ex[k - mg.len()] == i as usize);
            }
        }
    }
    assert forall|a: int, b: int|
        #![trigger c[a], c[b]]
        0 <= a < b < c.len() implies {
            &&& scores[c[a] as int].spec_rank() >= scores[c[b] as int].spec_rank()
            &&& scores[c[a] as int] == scores[c[b] as int] ==> c[a] < c[b]
        } by {
        if b < mg.len() {
            assert(c[a] == mg[a] && c[b] == mg[b]);
        } else if a >= mg.len() {
            assert(c[a] == ex[a - mg.len()] && c[b] == ex[b - mg.len()]);
        } else {
            assert(c[a] == mg[a] && c[b] == ex[b - mg.len()]);
        }
    }
}

/// `find_decoder` picks a decoder with the highest score, the last registered among those;
/// it picks none exactly when no decoder recognises the file.
pub proof fn law_best_candidate(scores: Seq<DecodeMatch>)
    requires
        scores.len() <= usize::MAX,
    ensures
        match best_candidate(scores) {
            Some(b) => b < scores.len() && scores[b as int] != DecodeMatch::NoMatch && forall|j: int|
                0 <= j < scores.len() ==> scores[j].spec_rank() <= scores[b as int].spec_rank() && (
                scores[j] == scores[b as int] ==> j <= b),
            None => forall|j: int| 0 <= j < scores.len() ==> scores[j] == DecodeMatch::NoMatch,
        },
{
    lemma_last_with_is_last(scores, DecodeMatch::MagicBytes, scores.len());
    lemma_last_with_is_last(scores, DecodeMatch::ExtensionOnly, scores.len());
    lemma_last_with(scores, DecodeMatch::MagicBytes, scores.len());
    lemma_last_with(scores, DecodeMatch::ExtensionOnly, scores.len());
}

/// Nothing after what `last_with` finds has the score, and it finds nothing only when no index
/// has it.
proof fn lemma_last_with_is_last(scores: Seq<DecodeMatch>, m: DecodeMatch, n: nat)
    requires
        n <= scores.len() <= usize::MAX,
    ensures
        match last_with(scores, m, n) {
            Some(k) => forall|j: int| k < j < n ==> scores[j] != m,
            None => forall|j: int| 0 <= j < n ==> scores[j] != m,
        },
    decreases n,
{
    if n > 0 {
        lemma_last_with_is_last(scores, m, (n - 1) as nat);
    }
}

/// What `decode` does next while it works through the ranked candidates.
#[derive(Debug, Clone, Copy, PartialEq, Eq, Structural)]
pub enum FallbackAction {
    /// Decode the file with the decoder of this index.
    Try(usize),
    /// The attempt just made succeeded: return its image.
    UseResult,
    /// Every candidate failed: return the error of the last attempt.
    ReportLastError,
    /// No decoder recognises the file: report an unsupported format.
    Unsupported,
}

/// The action after the attempt at position `pos` of `candidates` (or the first action, for
/// `pos == None`): the first success wins, a failure moves on to the next candidate, and when
/// none is left the last error is reported.
pub open spec fn fallback(candidates: Seq<usize>, pos: Option<usize>, succeeded: bool) -> FallbackAction {
    match pos {
        None => if candidates.len() == 0 {
            FallbackAction::Unsupported
        } else {
            FallbackAction::Try(candidates[0])
        },
        Some(p) => if succeeded {
            FallbackAction::UseResult
        } else if p + 1 < candidates.len() {
            FallbackAction::Try(candidates[p + 1])
        } else {
            FallbackAction::ReportLastError
        },
    }
}

/// One step of the decoding cascade over `candidates` (as [`rank_candidates`] orders them):
/// `pos` is the position just tried, with its outcome, or `None` before the first attempt.
pub fn fallback_step(candidates: &[usize], pos: Option<usize>, succeeded: bool) -> (r: FallbackAction)
    requires
        pos matches Some(p) ==> p < candidates@.len(),
    ensures
        r == fallback(candidates@, pos, succeeded),
{
    match pos {
        None => if candidates.len() == 0 {
            FallbackAction::Unsupported
        } else {
            FallbackAction::Try(candidates[0])
        },
        Some(p) => if succeeded {
            FallbackAction::UseResult
        } else if p < candidates.len() - 1 {
            FallbackAction::Try(candidates[p + 1])
        } else {
            FallbackAction::ReportLastError
        },
    }
}

/// The cascade tries the candidates in ranked order, each once: it starts with the first,
/// moves to the next after each failure, stops at the first success, and after the last
/// candidate fails reports that failure.
pub proof fn law_fallback_in_rank_order(candidates: Seq<usize>)
    requires
        0 < candidates.len() <= usize::MAX,
    ensures
        fallback(candidates, None, false) == FallbackAction::Try(candidates[0]),
        forall|p: usize|
            p + 1 < candidates.len() ==> #[trigger] fallback(candidates, Some(p), false)
                == FallbackAction::Try(candidates[p + 1]),
        forall|p: usize|
            p < candidates.len() ==> #[trigger] fallback(candidates, Some(p), true)
                == FallbackAction::UseResult,
        fallback(candidates, Some((candidates.len() - 1) as usize), false)
            == FallbackAction::ReportLastError,
{
}

} // verus!
