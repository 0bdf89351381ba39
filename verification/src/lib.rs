//! Resolves a song query into a playable audio URL by asking interchangeable
//! engines in the caller's order of priority.

pub mod dispatch;
pub mod engine;
pub mod executor;
pub mod proxy;
pub mod pyncm;
pub mod registry;
pub mod types;
