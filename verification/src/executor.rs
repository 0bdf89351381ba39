//! The executor: the registry of engines and the fallback dispatch over it.

use crate::dispatch::{
    id_views, is_first_match, no_match, records, relay, relayed, search_outcome, Attempt,
    ExecutorError, SearchProgress,
};
use crate::engine::{Engine, RetrieveAnswer};
use crate::registry::Registry;
use crate::types::{Context, RetrievedSongInfo, Song, SongSearchInformation};
use std::sync::Arc;
use vstd::prelude::*;

verus! {

/// Owns the engines, each under a unique id, and dispatches `search` and
/// `retrieve` to them. `Executor<dyn Engine>` holds engines of any kind.
#[verifier::reject_recursive_types(E)]
pub struct Executor<E: Engine + ?Sized> {
    registry: Registry<E>,
}

impl<E: Engine + ?Sized> View for Executor<E> {
    type V = Map<Seq<char>, Arc<E>>;

    /// The registered engines by their ids.
    closed spec fn view(&self) -> Map<Seq<char>, Arc<E>> {
        self.registry@
    }
}

impl<E: Engine + ?Sized> Executor<E> {
    /// An engine is registered under `id`.
    pub open spec fn is_registered(self, id: Seq<char>) -> bool {
        self@.contains_key(id)
    }

    /// The engine registered under `id`. Meant for registered ids.
    pub open spec fn engine_of(self, id: Seq<char>) -> Arc<E> {
        self@[id]
    }

    /// `attempt` is what asking this registry for `song` under the id
    /// `engine_id` may come to: `Unregistered` where no engine is registered
    /// under the id, else an answer that the engine registered under it may
    /// give for `song` and `ctx`.
    pub open spec fn may_attempt(
        self,
        engine_id: Seq<char>,
        song: &Song,
        ctx: &Context,
        attempt: Attempt,
    ) -> bool {
        match attempt {
            Attempt::Unregistered => !self.is_registered(engine_id),
            Attempt::Answered(answer) => self.is_registered(engine_id) && self.engine_of(
                engine_id,
            ).answers(song, ctx, answer),
        }
    }

    /// `attempts` is a run of this registry over the first entries of
    /// `engine_ids`, in order, each asked for `song` under `ctx`.
    pub open spec fn asked(
        self,
        engine_ids: Seq<Seq<char>>,
        song: &Song,
        ctx: &Context,
        attempts: Seq<Attempt>,
    ) -> bool {
        &&& attempts.len() <= engine_ids.len()
        &&& forall|i: int|
            0 <= i < attempts.len() ==> self.may_attempt(
                engine_ids[i],
                song,
                ctx,
                #[trigger] attempts[i],
            )
    }

    /// An executor with no engine.
    pub fn new() -> (executor: Self)
        ensures
            executor@ == Map::<Seq<char>, Arc<E>>::empty(),
    {
        Executor { registry: Registry::new() }
    }

    /// Whether an engine is registered under `id`.
    pub fn contains(&self, id: &String) -> (found: bool)
        ensures
            found == self.is_registered(id@),
    {
        self.registry.contains(id)
    }

    /// Register `engine` under `id`. An engine registered under the same id
    /// before is replaced; every other registration stays as it is.
    pub fn register(&mut self, id: String, engine: Arc<E>)
        ensures
            final(self)@ == old(self)@.insert(id@, engine),
    {
        self.registry.register(id, engine);
    }

    /// Ask the engines named by `engine_ids`, in that order, for `song`, and
    /// return the first match. An id that names no registered engine, an
    /// engine without a match and an engine that fails are recorded and
    /// passed over; no engine after the first match is asked. Where no entry
    /// gives a match the search fails with one diagnostic for each entry.
    pub fn search(&self, engine_ids: &[String], song: &Song, ctx: &Context) -> (result: Result<
        SongSearchInformation,
        ExecutorError,
    >)
        ensures
            exists|attempts: Seq<Attempt>|
                {
                    &&& #[trigger] self.asked(id_views(engine_ids@), song, ctx, attempts)
                    &&& search_outcome(id_views(engine_ids@), attempts, result)
                    &&& result is Ok ==> is_first_match(attempts, attempts.len() - 1)
                },
    {
        let ghost ids = id_views(engine_ids@);
        let ghost mut attempts: Seq<Attempt> = Seq::empty();
        let mut progress = SearchProgress::new();
        let mut index: usize = 0;
        while index < engine_ids.len()
            invariant
                index <= engine_ids@.len(),
                ids == id_views(engine_ids@),
                attempts.len() == index,
                self.asked(ids, song, ctx, attempts),
                no_match(attempts),
                records(progress.diagnostics@, ids, attempts),
            decreases engine_ids@.len() - index,
        {
            let id = &engine_ids[index];
            let attempt = match self.registry.get(id) {
                Some(engine) => Attempt::Answered(engine.search(song, ctx)),
                None => Attempt::Unregistered,
            };
            let ghost earlier = attempts;
            let ghost recorded = progress.diagnostics@;
            proof {
                attempts = attempts.push(attempt);
                assert(attempts.take(index as int) =~= earlier);
                assert(ids[index as int] == id@);
                assert(self.may_attempt(ids[index as int], song, ctx, attempt));
                assert forall|i: int| 0 <= i < attempts.len() implies self.may_attempt(
                    ids[i],
                    song,
                    ctx,
                    #[trigger] attempts[i],
                ) by {
                    if i < index {
                        assert(attempts[i] == earlier[i]);
                    }
                }
            }
            match progress.record(id, attempt) {
                Some(info) => {
                    assert(is_first_match(attempts, index as int));
                    assert(self.asked(ids, song, ctx, attempts));
                    return Ok(info);
                },
                None => {
                    proof {
                        assert forall|i: int| 0 <= i < attempts.len() implies (
                        #[trigger] progress.diagnostics@[i]).describes(ids[i], attempts[i]) by {
                            if i < index {
                                assert(progress.diagnostics@.drop_last()[i] == recorded[i]);
                            }
                        }
                    }
                },
            }
            index = index + 1;
        }
        Err(progress.exhausted())
    }

    /// Resolve `info` with the engine that issued it: the one registered
    /// under `info.source`, and no other. That engine's result or error is
    /// handed on unchanged. Where no engine is registered under
    /// `info.source`, no engine is asked.
    pub fn retrieve(&self, info: &SongSearchInformation, ctx: &Context) -> (result: Result<
        RetrievedSongInfo,
        ExecutorError,
    >)
        ensures
            !self.is_registered(info.source@) ==> (result matches Err(
                ExecutorError::UnknownEngineSource(source),
            ) && source@ == info.source@),
            self.is_registered(info.source@) ==> exists|answer: RetrieveAnswer|
                {
                    &&& #[trigger] self.engine_of(info.source@).resolves(
                        &info.identifier,
                        ctx,
                        answer,
                    )
                    &&& result == relayed(answer)
                },
    {
        match self.registry.issuer_of(info) {
            Ok(engine) => {
                let answer = engine.retrieve(&info.identifier, ctx);
                assert(self.engine_of(info.source@).resolves(&info.identifier, ctx, answer));
                relay(answer)
            },
            Err(error) => Err(error),
        }
    }
}

} // verus!
