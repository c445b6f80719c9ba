use vstd::prelude::*;

pub mod automaton;
pub mod clock;
pub mod level;
pub mod physics;
pub mod scheduler;
pub mod settings;
pub mod sprite;
pub mod world;

verus! {

/// Error taxonomy of the simulation core.
///
/// `AssetLoad` is fatal: a missing or corrupt sprite sheet aborts startup.
/// `NotFound` is recoverable: a stale entity or handle is skipped for the
/// frame. `IndexOutOfRange` flags a clip lookup past the stored range, a
/// programming-contract violation. `Rejected` reports a refused automaton
/// transition; the current transition table is total, so it is never
/// produced, but the signatures surface it for future non-total tables.
#[derive(Debug, Copy, Clone, PartialEq, Eq, Structural)]
pub enum ErrorKind {
    AssetLoad,
    NotFound,
    IndexOutOfRange,
    Rejected,
}

} // verus!
