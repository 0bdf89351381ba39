//! The contract that every provider adapter fulfils.

use crate::types::{Context, RetrievedSongInfo, SerializedIdentifier, Song, SongSearchInformation};
use vstd::prelude::*;

verus! {

/// A failure that an engine reports: a transport or protocol error, a
/// malformed identifier, a request that the provider rejected.
#[derive(Debug, Clone)]
pub struct EngineError {
    /// What went wrong, for diagnostics.
    pub message: String,
}

/// What an engine answers to a search: a match, no match, or a failure.
pub type SearchAnswer = Result<Option<SongSearchInformation>, EngineError>;

/// What an engine answers to a retrieval: the playable form, or a failure.
pub type RetrieveAnswer = Result<RetrievedSongInfo, EngineError>;

/// A provider adapter. An engine speaks for a remote service, so nothing is
/// promised of what it answers: `answers` and `resolves` only name the
/// answers that an engine may give, for contracts that hand them on. An
/// engine that says nothing of its answers leaves them as they stand here:
/// any answer may come.
pub trait Engine {
    /// `answer` is an answer that this engine may give when it is asked
    /// for `song` under `ctx`.
    open spec fn answers(&self, song: &Song, ctx: &Context, answer: SearchAnswer) -> bool {
        true
    }

    /// `answer` is an answer that this engine may give when it is asked to
    /// resolve `identifier` under `ctx`.
    open spec fn resolves(
        &self,
        identifier: &SerializedIdentifier,
        ctx: &Context,
        answer: RetrieveAnswer,
    ) -> bool {
        true
    }

    /// Look for `song` at this provider. `Ok(None)` says that the provider
    /// was reached and has no matching content.
    fn search(&self, song: &Song, ctx: &Context) -> (answer: SearchAnswer)
        ensures
            self.answers(song, ctx, answer),
    ;

    /// Resolve an identifier that this engine's `search` issued.
    fn retrieve(&self, identifier: &SerializedIdentifier, ctx: &Context) -> (answer:
        RetrieveAnswer)
        ensures
            self.resolves(identifier, ctx, answer),
    ;
}

} // verus!
