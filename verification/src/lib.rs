//! Backend logic for a sandboxed package-manager playground.
//!
//! The library derives the workspace layout under an application-private base
//! directory, drives the bootstrap-and-invoke sequence of a package
//! installation as an explicit state machine, classifies the outcome of the
//! package-manager subprocess, and extracts the installed package names from
//! the workspace manifest.  All filesystem and subprocess work is performed by
//! the caller, which feeds the resulting events back into the state machine.

pub mod install;
pub mod manifest;
pub mod workspace;
