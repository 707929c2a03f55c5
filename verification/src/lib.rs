//! Core of a personal radio controller: an ordered playback queue with a
//! "currently playing" cursor, and the event-driven state machine that
//! advances it.

use vstd::prelude::*;

pub mod announce;
pub mod config;
pub mod control;
pub mod db;
pub mod rest;
pub mod signals;
pub mod state;
pub mod track;
pub mod uri;

verus! {

/// Errors surfaced by the core.
///
/// `EmptyQueue` is returned, never panicked, by every queue accessor that
/// needs a current track. `StoreFailure` covers a failed transaction against
/// the backing store. The remaining variants belong to the control loop and
/// the catalog lookups around it.
#[derive(Clone, Copy, Debug, PartialEq, Eq)]
pub enum SpotifmError {
    EmptyQueue,
    StoreFailure,
    MalformedUri,
    CatalogLookupFailed,
    EngineLoadFailed,
    SessionInvalid,
}

} // verus!
