//! Decision logic of a local process supervisor.
//!
//! The supervisor locates two auxiliary servers (a JavaScript-runtime-based
//! one and a Python-based one), installs them when missing, launches them,
//! and reports their status to a front end.  Everything that can be decided
//! from plain values is in this crate and verified: executable locators,
//! candidate-priority searches, status records, error reporting, and the
//! install/start sequences as state machines.  The surrounding binary
//! performs the filesystem, process and network work and feeds the outcomes
//! back in as events.

pub mod command;
pub mod digits;
pub mod fastapi;
pub mod install;
pub mod locate;
pub mod mcp;
pub mod paths;
pub mod process;
pub mod startup;
pub mod status;
