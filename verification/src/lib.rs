//! Core of a pseudo-terminal (PTY) session manager.
//!
//! The library builds platform-correct terminal attributes, plans the
//! fork/exec and process-creation steps, and maintains registries of live
//! sessions so that resize, kill and query operations can act on a session
//! by a stable identifier, with exactly one exit notification per attached
//! child.

pub mod attrs;
pub mod conpty;
pub mod error;
pub mod numfmt;
pub mod unix;
pub mod util;
pub mod winpty;
