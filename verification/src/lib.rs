//! Checkpoint and revert support for an automation engine working inside a
//! version-control repository.
//!
//! The library holds the decision logic only: every interaction with the
//! version-control engine is described as a [`GitAction`](command::GitAction)
//! that a thin driver performs, handing each command's outcome back. The
//! library decides what to run next and what to report, and those decisions
//! are verified.

pub mod checkpoint;
pub mod command;
pub mod inspect;
pub mod revert;
pub mod safety;
pub mod text;
