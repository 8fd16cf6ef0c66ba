//! A build-time helper for generating a version identifier source file.
//!
//! The helper locates the root of the enclosing version-controlled project,
//! picks a usable script interpreter on the host, assembles the command line
//! for the external version-computation tool, and decides what the enclosing
//! build system must be told after the tool has run. All of those decisions
//! are made here, over plain values, with verified contracts; reading the
//! environment and running processes is left to the surrounding binary.

pub mod command;
pub mod errors;
pub mod locator;
pub mod plan;
pub mod prober;
pub mod rerun;
