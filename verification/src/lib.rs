//! Supervision of externally spawned, long-running worker processes, and
//! the rules of the application built around it.
//!
//! Each worker belongs to an instance with a stable identifier and a working
//! directory of its own.  The library decides what starting, stopping,
//! killing, restarting and sampling an instance come to; it performs no input
//! or output itself.  Callers hand in what they observed and carry out what
//! the library returns.
//!
//! - [`instance`] holds the supervisor's operations, [`supervisor`] its
//!   runtime state, [`restart`] the restart protocol, and [`laws`] what holds
//!   across them.
//! - [`process_table`], [`registry`], [`launch`] and [`error`] are what the
//!   operations are made of.
//! - [`download`], [`playit`], [`filesystem`] and [`config`] hold the rules of
//!   the collaborators around the supervisor; [`models`] the data they share.
//! - [`text`] and [`sorting`] are helpers; [`clock`] and [`identity`] read the
//!   time and draw identifiers through outside crates.
pub mod clock;
pub mod config;
pub mod download;
pub mod error;
pub mod filesystem;
pub mod identity;
pub mod instance;
pub mod launch;
pub mod laws;
pub mod models;
pub mod playit;
pub mod process_table;
pub mod registry;
pub mod restart;
pub mod sorting;
pub mod supervisor;
pub mod text;
