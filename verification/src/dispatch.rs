//! The decisions of the fallback dispatch, apart from the engines that are
//! asked: what one attempt means for a search, and what a search that found
//! nothing reports.

use crate::engine::{EngineError, RetrieveAnswer, SearchAnswer};
use crate::types::{RetrievedSongInfo, SongSearchInformation};
use vstd::prelude::*;

verus! {

/// What one entry of the requested engine list came to.
#[derive(Debug)]
pub enum Attempt {
    /// No engine is registered under the id, so none was asked.
    Unregistered,
    /// The engine registered under the id was asked and gave this answer.
    Answered(SearchAnswer),
}

/// Why an engine is counted as unavailable.
#[derive(Debug)]
pub enum Unavailability {
    /// The id names no registered engine.
    Unregistered,
    /// The engine's own call failed.
    Failed(EngineError),
}

/// Why one entry of the requested engine list gave no match.
#[derive(Debug)]
pub enum Reason {
    /// The engine was reached and has no matching content.
    NotFound,
    /// The engine could not be asked, or failed while it was asked.
    EngineUnavailable(Unavailability),
}

/// The record of one entry that gave no match.
#[derive(Debug)]
pub struct Diagnostic {
    /// The engine id as the caller gave it.
    pub engine: String,
    /// Why that entry gave no match.
    pub reason: Reason,
}

/// The failures that the executor hands to its caller.
#[derive(Debug)]
pub enum ExecutorError {
    /// No entry of the requested list gave a match. Holds one diagnostic for
    /// each entry, in the order of the list.
    AllEnginesExhausted(Vec<Diagnostic>),
    /// `retrieve` was given a result whose source names no registered engine.
    UnknownEngineSource(String),
    /// The engine chosen for `retrieve` failed; holds its error unchanged.
    EngineUnavailable(EngineError),
}

impl Attempt {
    /// The match that this attempt holds, if it holds one.
    pub open spec fn matched(self) -> Option<SongSearchInformation> {
        match self {
            Attempt::Answered(Ok(Some(info))) => Some(info),
            _ => None,
        }
    }

    /// Why this attempt gave no match. Meant for attempts without one.
    pub open spec fn reason(self) -> Reason {
        match self {
            Attempt::Unregistered => Reason::EngineUnavailable(Unavailability::Unregistered),
            Attempt::Answered(Err(error)) => Reason::EngineUnavailable(
                Unavailability::Failed(error),
            ),
            Attempt::Answered(Ok(_)) => Reason::NotFound,
        }
    }
}

impl Diagnostic {
    /// This diagnostic is the record of `attempt`, made for the engine id
    /// `engine`.
    pub open spec fn describes(self, engine: Seq<char>, attempt: Attempt) -> bool {
        self.engine@ == engine && self.reason == attempt.reason()
    }
}

/// The engine ids as specifications speak of them.
pub open spec fn id_views(engine_ids: Seq<String>) -> Seq<Seq<char>> {
    Seq::new(engine_ids.len(), |i: int| engine_ids[i]@)
}

/// None of the attempts holds a match.
pub open spec fn no_match(attempts: Seq<Attempt>) -> bool {
    forall|i: int| 0 <= i < attempts.len() ==> (#[trigger] attempts[i]).matched() is None
}

/// The attempt at `k` holds a match and none before it does.
pub open spec fn is_first_match(attempts: Seq<Attempt>, k: int) -> bool {
    &&& 0 <= k < attempts.len()
    &&& attempts[k].matched() is Some
    &&& no_match(attempts.take(k))
}

/// `diagnostics` records `attempts`, made for `engine_ids`, one for one and
/// in order.
pub open spec fn records(
    diagnostics: Seq<Diagnostic>,
    engine_ids: Seq<Seq<char>>,
    attempts: Seq<Attempt>,
) -> bool {
    &&& diagnostics.len() == attempts.len()
    &&& attempts.len() <= engine_ids.len()
    &&& forall|i: int|
        0 <= i < attempts.len() ==> (#[trigger] diagnostics[i]).describes(
            engine_ids[i],
            attempts[i],
        )
}

/// What a search over `engine_ids` returns once `attempts` have been made,
/// the attempt at `i` for the id at `i`: the first match, where there is
/// one; else, with every id attempted, the exhaustion error that records
/// every attempt.
pub open spec fn search_outcome(
    engine_ids: Seq<Seq<char>>,
    attempts: Seq<Attempt>,
    result: Result<SongSearchInformation, ExecutorError>,
) -> bool {
    match result {
        Ok(info) => exists|k: int|
            #![trigger is_first_match(attempts, k)]
            is_first_match(attempts, k) && attempts[k].matched() == Some(info),
        Err(ExecutorError::AllEnginesExhausted(diagnostics)) => {
            &&& no_match(attempts)
            &&& attempts.len() == engine_ids.len()
            &&& records(diagnostics@, engine_ids, attempts)
        },
        Err(_) => false,
    }
}

/// Only an engine that answers with a match ends a search: an id that
/// names no registered engine, an engine that fails and an engine without
/// a match are passed over.
pub proof fn law_only_a_match_ends_the_search(attempt: Attempt)
    ensures
        attempt.matched() is Some <==> attempt matches Attempt::Answered(Ok(Some(_))),
        attempt is Unregistered ==> attempt.matched() is None,
        attempt matches Attempt::Answered(Err(_)) ==> attempt.matched() is None,
        attempt matches Attempt::Answered(Ok(None)) ==> attempt.matched() is None,
{
}

/// The first match wins: whatever the attempts before it came to, a search
/// returns the match of the first attempt that holds one.
pub proof fn law_first_match_wins(
    engine_ids: Seq<Seq<char>>,
    attempts: Seq<Attempt>,
    k: int,
    result: Result<SongSearchInformation, ExecutorError>,
)
    requires
        is_first_match(attempts, k),
    ensures
        search_outcome(engine_ids, attempts, result) <==> result == Ok::<
            SongSearchInformation,
            ExecutorError,
        >(attempts[k].matched()->0),
{
    if search_outcome(engine_ids, attempts, result) {
        match result {
            Ok(info) => {
                let first = choose|first: int| #[trigger]
                    is_first_match(attempts, first) && attempts[first].matched() == Some(info);
                lemma_first_match_unique(attempts, k, first);
            },
            Err(_) => {
                assert(attempts[k].matched() is Some);
            },
        }
    }
}

/// What stands after the first match has no part in the result: two runs
/// that agree up to and including the first match of one of them have the
/// same outcomes.
pub proof fn law_nothing_after_the_first_match_counts(
    engine_ids: Seq<Seq<char>>,
    attempts: Seq<Attempt>,
    others: Seq<Attempt>,
    k: int,
    result: Result<SongSearchInformation, ExecutorError>,
)
    requires
        is_first_match(attempts, k),
        k < others.len(),
        others.take(k + 1) == attempts.take(k + 1),
    ensures
        search_outcome(engine_ids, attempts, result) <==> search_outcome(
            engine_ids,
            others,
            result,
        ),
{
    assert(others[k] == others.take(k + 1)[k]);
    assert(attempts[k] == attempts.take(k + 1)[k]);
    assert forall|i: int| 0 <= i < k implies (#[trigger] others.take(k)[i]).matched() is None by {
        assert(others.take(k)[i] == others.take(k + 1)[i]);
        assert(attempts.take(k)[i] == attempts.take(k + 1)[i]);
    }
    assert(is_first_match(others, k));
    law_first_match_wins(engine_ids, attempts, k, result);
    law_first_match_wins(engine_ids, others, k, result);
}

/// Exhaustion: where every entry of the list was attempted and none gave a
/// match, a search fails with `AllEnginesExhausted`, which holds one
/// diagnostic for each entry; and a search fails in no other case.
pub proof fn law_exhaustion(
    engine_ids: Seq<Seq<char>>,
    attempts: Seq<Attempt>,
    result: Result<SongSearchInformation, ExecutorError>,
)
    requires
        search_outcome(engine_ids, attempts, result),
    ensures
        result is Err <==> no_match(attempts),
        result matches Err(error) ==> error matches ExecutorError::AllEnginesExhausted(
            diagnostics,
        ) && diagnostics@.len() == engine_ids.len(),
{
    if let Ok(info) = result {
        let first = choose|first: int| #[trigger]
            is_first_match(attempts, first) && attempts[first].matched() == Some(info);
        assert(attempts[first].matched() is Some);
    }
}

/// At most one attempt is the first match.
proof fn lemma_first_match_unique(attempts: Seq<Attempt>, k: int, other: int)
    requires
        is_first_match(attempts, k),
        is_first_match(attempts, other),
    ensures
        k == other,
{
    if k < other {
        assert(attempts.take(other)[k].matched() is None);
    }
    if other < k {
        assert(attempts.take(k)[other].matched() is None);
    }
}

/// The diagnostics gathered while a search goes through the requested list.
#[derive(Debug)]
pub struct SearchProgress {
    /// One diagnostic for each entry tried so far, in order.
    pub diagnostics: Vec<Diagnostic>,
}

impl SearchProgress {
    /// The progress of a search that has tried nothing yet.
    pub fn new() -> (progress: Self)
        ensures
            progress.diagnostics@.len() == 0,
    {
        SearchProgress { diagnostics: Vec::new() }
    }

    /// Take in the attempt made for `engine_id`. A match is handed back and
    /// ends the search: nothing is recorded. Anything else is recorded as one
    /// more diagnostic, and the search goes on.
    pub fn record(&mut self, engine_id: &String, attempt: Attempt) -> (found: Option<
        SongSearchInformation,
    >)
        ensures
            found == attempt.matched(),
            found is Some ==> final(self).diagnostics@ == old(self).diagnostics@,
            found is None ==> final(self).diagnostics@.len() == old(self).diagnostics@.len() + 1,
            found is None ==> final(self).diagnostics@.drop_last() == old(self).diagnostics@,
            found is None ==> final(self).diagnostics@.last().describes(engine_id@, attempt),
    {
        let reason = match attempt {
            Attempt::Answered(Ok(Some(info))) => {
                return Some(info);
            },
            Attempt::Answered(Ok(None)) => Reason::NotFound,
            Attempt::Answered(Err(error)) => Reason::EngineUnavailable(
                Unavailability::Failed(error),
            ),
            Attempt::Unregistered => Reason::EngineUnavailable(Unavailability::Unregistered),
        };
        self.diagnostics.push(Diagnostic { engine: engine_id.clone(), reason });
        assert(final(self).diagnostics@.drop_last() =~= old(self).diagnostics@);
        None
    }

    /// End a search in which no entry gave a match.
    pub fn exhausted(self) -> (error: ExecutorError)
        ensures
            error == ExecutorError::AllEnginesExhausted(self.diagnostics),
    {
        ExecutorError::AllEnginesExhausted(self.diagnostics)
    }
}

/// The engine ids of a list of entries, each an id with what it came to.
pub open spec fn entry_ids(entries: Seq<(String, Attempt)>) -> Seq<Seq<char>> {
    Seq::new(entries.len(), |i: int| entries[i].0@)
}

/// The attempts of a list of entries, each an id with what it came to.
pub open spec fn entry_attempts(entries: Seq<(String, Attempt)>) -> Seq<Attempt> {
    Seq::new(entries.len(), |i: int| entries[i].1)
}

/// Run a whole search over answers that are already at hand: each entry is
/// an engine id with what asking under it came to, in the order of the
/// caller's list. Entries after the first match are not looked at.
pub fn resolve(entries: Vec<(String, Attempt)>) -> (result: Result<
    SongSearchInformation,
    ExecutorError,
>)
    ensures
        search_outcome(entry_ids(entries@), entry_attempts(entries@), result),
{
    let ghost ids = entry_ids(entries@);
    let ghost all = entry_attempts(entries@);
    let ghost total = entries@.len();
    let mut progress = SearchProgress::new();
    let mut front = entries;
    let mut rest: Vec<(String, Attempt)> = Vec::new();
    // Entries can only be taken from the back, so turn the list round first.
    while front.len() > 0
        invariant
            front@.len() + rest@.len() == total,
            total == entries@.len(),
            forall|i: int| 0 <= i < front@.len() ==> front@[i] == entries@[i],
            forall|i: int| 0 <= i < rest@.len() ==> rest@[i] == entries@[total - 1 - i],
        decreases front.len(),
    {
        let entry = front.pop().unwrap();
        rest.push(entry);
    }
    let ghost mut index: int = 0;
    while rest.len() > 0
        invariant
            0 <= index <= total,
            total == entries@.len(),
            ids == entry_ids(entries@),
            all == entry_attempts(entries@),
            rest@.len() == total - index,
            forall|i: int| 0 <= i < rest@.len() ==> rest@[i] == entries@[total - 1 - i],
            no_match(all.take(index)),
            records(progress.diagnostics@, ids, all.take(index)),
        decreases rest.len(),
    {
        let (id, attempt) = rest.pop().unwrap();
        assert(id@ == ids[index] && attempt == all[index]);
        let ghost before = progress.diagnostics@;
        match progress.record(&id, attempt) {
            Some(info) => {
                assert(is_first_match(all, index));
                return Ok(info);
            },
            None => {
                proof {
                    let seen = all.take(index + 1);
                    assert(seen.take(index) =~= all.take(index));
                    assert forall|i: int| 0 <= i < seen.len() implies (#[trigger] seen[i]).matched()
                        is None by {
                        if i < index {
                            assert(all.take(index)[i] == seen[i]);
                        }
                    }
                    assert forall|i: int| 0 <= i < seen.len() implies (
                    #[trigger] progress.diagnostics@[i]).describes(ids[i], seen[i]) by {
                        if i < index {
                            assert(progress.diagnostics@.drop_last()[i] == before[i]);
                            assert(all.take(index)[i] == seen[i]);
                        }
                    }
                    index = index + 1;
                }
            },
        }
    }
    assert(all.take(index) =~= all);
    Err(progress.exhausted())
}

/// What `retrieve` makes of the answer of the engine it chose: the
/// engine's result, or its error, unchanged.
pub open spec fn relayed(answer: RetrieveAnswer) -> Result<RetrievedSongInfo, ExecutorError> {
    match answer {
        Ok(info) => Ok(info),
        Err(error) => Err(ExecutorError::EngineUnavailable(error)),
    }
}

/// Hand on the answer of the engine that `retrieve` chose.
pub fn relay(answer: RetrieveAnswer) -> (result: Result<RetrievedSongInfo, ExecutorError>)
    ensures
        result == relayed(answer),
{
    match answer {
        Ok(info) => Ok(info),
        Err(error) => Err(ExecutorError::EngineUnavailable(error)),
    }
}

} // verus!
