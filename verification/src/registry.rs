//! The registry: a mapping from engine id to a shared engine, in which an
//! id occurs at most once.

use crate::dispatch::ExecutorError;
use crate::types::SongSearchInformation;
use std::sync::Arc;
use vstd::hash_map::StringHashMap;
use vstd::prelude::*;

verus! {

/// A mapping from engine id to a shared instance. It is a map, so that an
/// id names at most one instance: registering under an id that is taken
/// puts the new instance in the place of the old one.
#[verifier::reject_recursive_types(T)]
pub struct Registry<T: ?Sized> {
    entries: StringHashMap<Arc<T>>,
}

impl<T: ?Sized> View for Registry<T> {
    type V = Map<Seq<char>, Arc<T>>;

    closed spec fn view(&self) -> Map<Seq<char>, Arc<T>> {
        self.entries@
    }
}

impl<T: ?Sized> Registry<T> {
    /// A registry that holds nothing.
    pub fn new() -> (registry: Self)
        ensures
            registry@ == Map::<Seq<char>, Arc<T>>::empty(),
    {
        Registry { entries: StringHashMap::new() }
    }

    /// Put `instance` under `id`, in the place of what stood there; every
    /// other id keeps what it had.
    pub fn register(&mut self, id: String, instance: Arc<T>)
        ensures
            final(self)@ == old(self)@.insert(id@, instance),
    {
        self.entries.insert(id, instance);
    }

    /// Whether something is registered under `id`.
    pub fn contains(&self, id: &String) -> (found: bool)
        ensures
            found == self@.contains_key(id@),
    {
        self.entries.contains_key(id.as_str())
    }

    /// What is registered under `id`, if anything is.
    pub fn get(&self, id: &String) -> (instance: Option<&Arc<T>>)
        ensures
            match instance {
                Some(instance) => self@.contains_key(id@) && *instance == self@[id@],
                None => !self@.contains_key(id@),
            },
    {
        self.entries.get(id.as_str())
    }

    /// The instance that issued `info`: the one registered under
    /// `info.source`. Where there is none, the error that names the source.
    pub fn issuer_of(&self, info: &SongSearchInformation) -> (instance: Result<
        &Arc<T>,
        ExecutorError,
    >)
        ensures
            match instance {
                Ok(instance) => self@.contains_key(info.source@) && *instance
                    == self@[info.source@],
                Err(error) => !self@.contains_key(info.source@) && (error matches ExecutorError::UnknownEngineSource(
                    source,
                ) && source@ == info.source@),
            },
    {
        match self.get(&info.source) {
            Some(instance) => Ok(instance),
            None => Err(ExecutorError::UnknownEngineSource(info.source.clone())),
        }
    }
}

} // verus!
