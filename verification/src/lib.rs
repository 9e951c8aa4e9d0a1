//! Core of a tab-completion interception shim for a line-editing library.
//!
//! The shim overrides the library's completion entry point, captures the
//! candidate list the library would have produced, hands it to an external
//! completer process, and marshals the process's answer back into the
//! null-terminated foreign array format the library expects.
//!
//! This crate holds the verified logic of that pipeline:
//!
//! - [`hook`]: the save/install/restore discipline for the library's
//!   process-wide completion-callback slot;
//! - [`bridge`]: which candidates are forwarded to the completer, how its
//!   output is turned into a new candidate list, and how each exit outcome
//!   of the completer process is interpreted;
//! - [`marshal`]: the layout of the null-terminated foreign candidate array
//!   handed back to the library.
//!
//! Everything foreign (symbol resolution, the callback slot itself, process
//! spawning and the pipes) lives outside this crate and drives these
//! functions with plain values.

pub mod bridge;
pub mod hook;
pub mod marshal;

pub use marshal::vec_to_c_array;
pub use marshal::ForeignArray;
