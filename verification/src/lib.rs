//! Local mail delivery through a sendmail-style mail delivery agent (MDA).
//!
//! The crate holds the behaviour-bearing pieces of such a transport: the
//! transport configuration, the envelope model, the construction of the
//! argument vector handed to the MDA executable, and the translation of the
//! child process's exit status and diagnostic bytes into a typed result.
//! Spawning the child process and streaming the message into it is plain
//! I/O and is left to the surrounding application.

pub mod envelope;
pub mod error;
pub mod transport;
