//! A deterministic stress-test harness for a package-installation pipeline.
//!
//! The harness fetches one package archive, then repeatedly resets a clean
//! working area and re-runs extraction followed by linking against the same
//! archive bytes, aborting the whole run on the first failure with the
//! iteration index attached.  The decisions of that loop — which step comes
//! next, which error a failing step yields, when the run is over — live here
//! as a verified state machine; the surrounding process performs the network,
//! filesystem and collaborator calls and feeds their outcomes back in.

pub mod config;
pub mod errors;
pub mod format;
pub mod laws;
pub mod machine;
pub mod workspace;
