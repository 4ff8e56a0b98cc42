//! The typed outcome of a delivery attempt.

use vstd::prelude::*;

verus! {

/// The ways a delivery attempt can fail. Every failure is surfaced once,
/// synchronously, to the caller; no retry happens at this layer.
#[derive(Debug)]
pub enum Error {
    /// Spawning the MDA, writing to its input, or waiting for its exit
    /// failed at the operating-system level; carries the OS error text.
    Io(String),
    /// The MDA exited with a non-zero status; carries the UTF-8 text
    /// captured on its error-diagnostic channel.
    Client(String),
    /// The captured diagnostic bytes were not valid UTF-8; carries those
    /// bytes unchanged.
    Utf8(Vec<u8>),
}

/// The result of one send: success carries no payload, and no
/// partial-success state exists.
pub type SendmailResult = Result<(), Error>;

} // verus!
