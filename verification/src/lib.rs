//! Command-dispatch core of a small serially controlled device: a binary
//! output line and an 8-bit counter, driven by framed commands.
//!
//! [`router`] holds the dispatch table and its handlers, [`model`] says in
//! mathematical terms what they do, and [`laws`] proves what follows for
//! every command. [`pipeline`] is the cycle that brings a frame from the
//! receive interrupt to the deferred task that dispatches it.

pub mod command;
pub mod laws;
pub mod line;
pub mod model;
pub mod pipeline;
pub mod reply;
pub mod router;

pub use command::{Command, NewCommandError};
pub use line::{Led, LineState};
pub use pipeline::{Action, Pipeline, Stage};
pub use reply::{NackReason, Reply};
pub use router::{CustomRouter, DriveableResources, Routed};
