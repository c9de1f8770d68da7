//! The vocabulary of a search over candidate transforms.
//!
//! A search walks a list of candidates. For each it names the candidate,
//! the caller applies it to the image and decodes what comes out, and hands
//! back how that went. The first candidate whose decode reads anything ends
//! the search; a candidate that fails is passed over like one that reads
//! nothing.

use crate::clock::{elapsed_between, now_millis};
use crate::error::QRDecodeError;
use crate::types::QRCodeResult;
use vstd::prelude::*;

verus! {

/// How the attempt on one candidate went.
#[derive(Debug)]
pub enum AttemptOutcome {
    /// The transform could not be applied, or the decoder gave up.
    Failed(QRDecodeError),
    /// The decoder ran and read these codes, possibly none.
    Decoded(Vec<QRCodeResult>),
}

impl AttemptOutcome {
    /// The codes that the attempt read; none where it failed.
    pub open spec fn results(&self) -> Seq<QRCodeResult> {
        match self {
            AttemptOutcome::Failed(_) => Seq::empty(),
            AttemptOutcome::Decoded(v) => v@,
        }
    }

    /// Whether the attempt read anything.
    pub open spec fn is_hit(&self) -> bool {
        self.results().len() > 0
    }
}

/// What a search ended with.
#[derive(Debug)]
pub struct SearchOutcome {
    /// The codes that were found; none where every candidate came up empty.
    pub results: Vec<QRCodeResult>,
    /// How many candidates were tried.
    pub attempts_tried: usize,
    /// How long the search took, in milliseconds of the wall clock.
    pub elapsed: u64,
}

/// What is to be done next in a search.
#[derive(Debug)]
pub enum SearchStep<C> {
    /// Apply this candidate, decode, and come back with the outcome.
    Attempt { index: usize, candidate: C },
    /// The search is over.
    Finished(SearchOutcome),
}

impl SearchOutcome {
    /// The outcome of a search that began at `started`, a reading of the
    /// wall clock in milliseconds.
    pub fn finish(results: Vec<QRCodeResult>, attempts_tried: usize, started: i64) -> (o: Self)
        ensures
            o.results == results,
            o.attempts_tried == attempts_tried,
    {
        Self { results, attempts_tried, elapsed: elapsed_between(started, now_millis()) }
    }
}

/// The first candidate, from `from` on, whose attempt reads anything, where
/// `outcomes` says how the attempt on each candidate would go; the number of
/// candidates where there is none.
pub open spec fn first_hit(outcomes: Seq<AttemptOutcome>, from: int) -> int
    decreases outcomes.len() - from,
{
    if from >= outcomes.len() {
        outcomes.len() as int
    } else if outcomes[from].is_hit() {
        from
    } else {
        first_hit(outcomes, from + 1)
    }
}

/// `first_hit` names a hit, and nothing before it is one.
pub proof fn lemma_first_hit(outcomes: Seq<AttemptOutcome>, from: int)
    requires
        0 <= from <= outcomes.len(),
    ensures
        from <= first_hit(outcomes, from) <= outcomes.len(),
        first_hit(outcomes, from) < outcomes.len() ==> outcomes[first_hit(outcomes, from)].is_hit(),
        forall|i: int| from <= i < first_hit(outcomes, from) ==> !(#[trigger] outcomes[i]).is_hit(),
    decreases outcomes.len() - from,
{
    if from < outcomes.len() && !outcomes[from].is_hit() {
        lemma_first_hit(outcomes, from + 1);
    }
}

/// The first hit does not depend on what comes after it: outcomes that
/// agree up to the first hit of one have the same first hit.
pub proof fn lemma_first_hit_is_blind(a: Seq<AttemptOutcome>, b: Seq<AttemptOutcome>, from: int)
    requires
        0 <= from <= a.len(),
        a.len() == b.len(),
        forall|i: int| from <= i <= first_hit(a, from) && i < a.len() ==> #[trigger] a[i] == b[i],
    ensures
        first_hit(a, from) == first_hit(b, from),
    decreases a.len() - from,
{
    if from < a.len() {
        lemma_first_hit(a, from);
        assert(a[from] == b[from]);
        if !a[from].is_hit() {
            lemma_first_hit_is_blind(a, b, from + 1);
        }
    }
}

/// Where a search goes after one attempt.
pub enum Advance {
    /// On to the candidate with this index.
    Next(int),
    /// No further: so many candidates were tried, and the last of them was a
    /// hit or not.
    Stop { attempts: int, hit: bool },
}

/// Where a search over `count` candidates goes once the attempt on candidate
/// `cursor` is known to be a hit or not.
///
/// A hit stops the search at once. A miss moves it to the next candidate,
/// and stops it where there is none. With `cursor` at or past `count` no
/// search is under way, and none starts.
pub open spec fn spec_advance(count: int, cursor: int, hit: bool) -> Advance {
    if cursor >= count {
        Advance::Stop { attempts: count, hit: false }
    } else if hit {
        Advance::Stop { attempts: cursor + 1, hit: true }
    } else if cursor + 1 < count {
        Advance::Next(cursor + 1)
    } else {
        Advance::Stop { attempts: count, hit: false }
    }
}

/// How a search ends that stands at candidate `cursor` and from there on
/// meets the given outcomes, one step after the other.
pub open spec fn spec_run(outcomes: Seq<AttemptOutcome>, cursor: int) -> Advance
    decreases outcomes.len() - cursor,
{
    if cursor < 0 || cursor >= outcomes.len() {
        spec_advance(outcomes.len() as int, cursor, false)
    } else {
        match spec_advance(outcomes.len() as int, cursor, outcomes[cursor].is_hit()) {
            Advance::Next(next) => if next > cursor {
                spec_run(outcomes, next)
            } else {
                Advance::Stop { attempts: outcomes.len() as int, hit: false }
            },
            stop => stop,
        }
    }
}

/// A search returns on the first candidate whose attempt reads anything:
/// it tries the candidates up to and including that one and no other, and
/// all of them where none reads anything.
pub proof fn lemma_run_stops_at_first_hit(outcomes: Seq<AttemptOutcome>, cursor: int)
    requires
        0 <= cursor <= outcomes.len(),
    ensures
        spec_run(outcomes, cursor) == if first_hit(outcomes, cursor) < outcomes.len() {
            Advance::Stop { attempts: first_hit(outcomes, cursor) + 1, hit: true }
        } else {
            Advance::Stop { attempts: outcomes.len() as int, hit: false }
        },
    decreases outcomes.len() - cursor,
{
    if cursor < outcomes.len() && !outcomes[cursor].is_hit() {
        lemma_run_stops_at_first_hit(outcomes, cursor + 1);
    }
}

/// What would have come of the candidates after the first hit plays no
/// part in how a search ends.
pub proof fn lemma_run_is_blind(a: Seq<AttemptOutcome>, b: Seq<AttemptOutcome>)
    requires
        a.len() == b.len(),
        forall|i: int| 0 <= i <= first_hit(a, 0) && i < a.len() ==> #[trigger] a[i] == b[i],
    ensures
        spec_run(a, 0) == spec_run(b, 0),
{
    lemma_first_hit_is_blind(a, b, 0);
    lemma_run_stops_at_first_hit(a, 0);
    lemma_run_stops_at_first_hit(b, 0);
}

} // verus!
