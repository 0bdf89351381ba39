use std::sync::atomic::{AtomicUsize, Ordering};
use std::sync::Arc;
use unm_core::dispatch::{ExecutorError, Reason, Unavailability};
use unm_core::engine::{Engine, EngineError, RetrieveAnswer, SearchAnswer};
use unm_core::executor::Executor;
use unm_core::types::{Context, RetrievedSongInfo, SerializedIdentifier, Song, SongSearchInformation};

#[derive(Clone, Copy)]
enum Behaviour {
    Nothing,
    Fails,
    Finds,
}

struct Scripted {
    id: &'static str,
    behaviour: Behaviour,
    searches: AtomicUsize,
    retrievals: AtomicUsize,
}

impl Scripted {
    fn new(id: &'static str, behaviour: Behaviour) -> Arc<Scripted> {
        Arc::new(Scripted {
            id,
            behaviour,
            searches: AtomicUsize::new(0),
            retrievals: AtomicUsize::new(0),
        })
    }

    fn searches(&self) -> usize {
        self.searches.load(Ordering::SeqCst)
    }

    fn retrievals(&self) -> usize {
        self.retrievals.load(Ordering::SeqCst)
    }
}

impl Engine for Scripted {
    fn search(&self, song: &Song, _ctx: &Context) -> SearchAnswer {
        self.searches.fetch_add(1, Ordering::SeqCst);
        match self.behaviour {
            Behaviour::Nothing => Ok(None),
            Behaviour::Fails => Err(EngineError { message: format!("{} is down", self.id) }),
            Behaviour::Finds => Ok(Some(SongSearchInformation {
                source: self.id.to_string(),
                identifier: format!("{}:{}", self.id, song.id),
                song: None,
            })),
        }
    }

    fn retrieve(&self, identifier: &SerializedIdentifier, _ctx: &Context) -> RetrieveAnswer {
        self.retrievals.fetch_add(1, Ordering::SeqCst);
        match self.behaviour {
            Behaviour::Fails => Err(EngineError { message: format!("{} rejects", self.id) }),
            _ => Ok(RetrievedSongInfo {
                source: self.id.to_string(),
                url: format!("https://{}/{}", self.id, identifier),
            }),
        }
    }
}

fn song() -> Song {
    Song { id: "42".to_string(), name: "Name".to_string(), ..Default::default() }
}

fn ids(names: &[&str]) -> Vec<String> {
    names.iter().map(|name| name.to_string()).collect()
}

fn executor(engines: &[&Arc<Scripted>]) -> Executor<dyn Engine> {
    let mut executor: Executor<dyn Engine> = Executor::new();
    for engine in engines {
        let shared: Arc<dyn Engine> = (*engine).clone();
        executor.register(engine.id.to_string(), shared);
    }
    executor
}

#[test]
fn first_success_short_circuits() {
    let e1 = Scripted::new("E1", Behaviour::Nothing);
    let e2 = Scripted::new("E2", Behaviour::Finds);
    let e3 = Scripted::new("E3", Behaviour::Finds);
    let executor = executor(&[&e1, &e2, &e3]);
    let info =
        executor.search(&ids(&["E1", "E2", "E3"]), &song(), &Context::default()).unwrap();
    assert_eq!(info.source, "E2");
    assert_eq!(info.identifier, "E2:42");
    assert_eq!(e1.searches(), 1);
    assert_eq!(e2.searches(), 1);
    assert_eq!(e3.searches(), 0);
}

#[test]
fn engine_order_is_the_callers_priority() {
    let e1 = Scripted::new("E1", Behaviour::Finds);
    let e2 = Scripted::new("E2", Behaviour::Finds);
    let executor = executor(&[&e1, &e2]);
    let info = executor.search(&ids(&["E2", "E1"]), &song(), &Context::default()).unwrap();
    assert_eq!(info.source, "E2");
    assert_eq!(e1.searches(), 0);
}

#[test]
fn a_failing_engine_does_not_abort_the_search() {
    let e1 = Scripted::new("E1", Behaviour::Fails);
    let e2 = Scripted::new("E2", Behaviour::Finds);
    let executor = executor(&[&e1, &e2]);
    let info = executor.search(&ids(&["E1", "E2"]), &song(), &Context::default()).unwrap();
    assert_eq!(info.source, "E2");
    assert_eq!(e1.searches(), 1);
}

#[test]
fn search_is_exhausted_when_no_engine_matches() {
    let e1 = Scripted::new("E1", Behaviour::Nothing);
    let e2 = Scripted::new("E2", Behaviour::Nothing);
    let executor = executor(&[&e1, &e2]);
    match executor.search(&ids(&["E1", "E2"]), &song(), &Context::default()) {
        Err(ExecutorError::AllEnginesExhausted(diagnostics)) => {
            assert_eq!(diagnostics.len(), 2);
            assert_eq!(diagnostics[0].engine, "E1");
            assert!(matches!(diagnostics[0].reason, Reason::NotFound));
            assert_eq!(diagnostics[1].engine, "E2");
            assert!(matches!(diagnostics[1].reason, Reason::NotFound));
        }
        other => panic!("unexpected {:?}", other),
    }
    assert_eq!(e1.searches(), 1);
    assert_eq!(e2.searches(), 1);
}

#[test]
fn exhaustion_keeps_each_reason() {
    let e1 = Scripted::new("E1", Behaviour::Fails);
    let executor = executor(&[&e1]);
    match executor.search(&ids(&["ghost", "E1"]), &song(), &Context::default()) {
        Err(ExecutorError::AllEnginesExhausted(diagnostics)) => {
            assert_eq!(diagnostics.len(), 2);
            assert_eq!(diagnostics[0].engine, "ghost");
            assert!(matches!(
                diagnostics[0].reason,
                Reason::EngineUnavailable(Unavailability::Unregistered)
            ));
            match &diagnostics[1].reason {
                Reason::EngineUnavailable(Unavailability::Failed(error)) => {
                    assert_eq!(error.message, "E1 is down")
                }
                other => panic!("unexpected {:?}", other),
            }
        }
        other => panic!("unexpected {:?}", other),
    }
}

#[test]
fn an_unknown_id_is_skipped_at_search_time() {
    let e2 = Scripted::new("E2", Behaviour::Finds);
    let executor = executor(&[&e2]);
    let info = executor.search(&ids(&["ghost", "E2"]), &song(), &Context::default()).unwrap();
    assert_eq!(info.source, "E2");
    assert_eq!(info.identifier, "E2:42");
}

#[test]
fn search_over_no_ids_is_exhausted() {
    let e1 = Scripted::new("E1", Behaviour::Finds);
    let executor = executor(&[&e1]);
    match executor.search(&[], &song(), &Context::default()) {
        Err(ExecutorError::AllEnginesExhausted(diagnostics)) => assert!(diagnostics.is_empty()),
        other => panic!("unexpected {:?}", other),
    }
    assert_eq!(e1.searches(), 0);
}

#[test]
fn retrieve_is_bound_to_the_source() {
    let e2 = Scripted::new("E2", Behaviour::Finds);
    let executor = executor(&[&e2]);
    let info =
        SongSearchInformation { source: "E1".to_string(), identifier: "x".to_string(), song: None };
    match executor.retrieve(&info, &Context::default()) {
        Err(ExecutorError::UnknownEngineSource(source)) => assert_eq!(source, "E1"),
        other => panic!("unexpected {:?}", other),
    }
    assert_eq!(e2.retrievals(), 0);
}

#[test]
fn retrieve_asks_the_engine_that_issued_the_identifier() {
    let e1 = Scripted::new("E1", Behaviour::Finds);
    let e2 = Scripted::new("E2", Behaviour::Finds);
    let executor = executor(&[&e1, &e2]);
    let found = executor.search(&ids(&["E2"]), &song(), &Context::default()).unwrap();
    let retrieved = executor.retrieve(&found, &Context::default()).unwrap();
    assert_eq!(retrieved.source, "E2");
    assert_eq!(retrieved.url, "https://E2/E2:42");
    assert_eq!(e1.retrievals(), 0);
    assert_eq!(e2.retrievals(), 1);
}

#[test]
fn retrieve_hands_on_the_engines_error() {
    let e1 = Scripted::new("E1", Behaviour::Fails);
    let executor = executor(&[&e1]);
    let info =
        SongSearchInformation { source: "E1".to_string(), identifier: "x".to_string(), song: None };
    match executor.retrieve(&info, &Context::default()) {
        Err(ExecutorError::EngineUnavailable(error)) => assert_eq!(error.message, "E1 rejects"),
        other => panic!("unexpected {:?}", other),
    }
    assert_eq!(e1.retrievals(), 1);
}

#[test]
fn register_replaces_the_engine_of_an_id() {
    let old = Scripted::new("E1", Behaviour::Nothing);
    let new = Scripted::new("E1", Behaviour::Finds);
    let mut executor: Executor<dyn Engine> = Executor::new();
    assert!(!executor.contains(&"E1".to_string()));
    executor.register("E1".to_string(), old.clone());
    assert!(executor.contains(&"E1".to_string()));
    executor.register("E1".to_string(), new.clone());
    assert!(executor.contains(&"E1".to_string()));
    assert!(!executor.contains(&"E2".to_string()));
    let info = executor.search(&ids(&["E1"]), &song(), &Context::default()).unwrap();
    assert_eq!(info.identifier, "E1:42");
    assert_eq!(old.searches(), 0);
    assert_eq!(new.searches(), 1);
}

#[test]
fn an_id_listed_twice_is_asked_twice() {
    let e1 = Scripted::new("E1", Behaviour::Nothing);
    let executor = executor(&[&e1]);
    assert!(executor.search(&ids(&["E1", "E1"]), &song(), &Context::default()).is_err());
    assert_eq!(e1.searches(), 2);
}
