//! An evaluation session for a unit-aware expression language.
//!
//! A session owns the interpreter's state across a sequence of submissions.
//! It resolves modules through a chain of directories with the engine's
//! embedded catalog as the fallback, and an orchestrator turns each
//! submission into what the display shows.

use vstd::prelude::*;

pub mod config;
pub mod engine;
pub mod orchestrator;
pub mod resolution;
pub mod session;
pub mod text;

verus! {

/// How a run of the evaluator ended.
#[derive(Debug, Clone, Copy, PartialEq, Eq, Structural)]
pub enum ExitStatus {
    Success,
    Error,
}

} // verus!
