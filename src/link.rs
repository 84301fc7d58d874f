//! What the protocol engine asks of the serial link, and the link's fixed
//! settings.

use vstd::prelude::*;

verus! {

/// Baud rate of every board's serial link.
pub const BAUD_RATE: u32 = 57600;

/// Most bytes asked of the link in one read.
pub const READ_CHUNK_MAX: usize = 10000;

/// Pause before every command written to a board, in milliseconds.
pub const PING_PACING_MS: u64 = 1000;

/// Pause after a read that brought no bytes, in milliseconds.
pub const READ_BACKOFF_MS: u64 = 300;

/// What the driver of a link does next for an engine.
#[derive(Debug)]
pub enum Action {
    /// Discard the input the link holds.
    Flush,
    /// Wait `PING_PACING_MS`, then write these bytes.
    Send(Vec<u8>),
    /// Read one chunk of at most `READ_CHUNK_MAX` bytes without blocking and
    /// hand it back, empty when nothing was ready or the read failed.
    Read,
    /// Sleep `READ_BACKOFF_MS`.
    Backoff,
    /// The engine has finished.
    Done,
}

/// The model of an `Action`.
pub enum Step {
    Flush,
    Send(Seq<u8>),
    Read,
    Backoff,
    Done,
}

pub open spec fn action_view(a: Action) -> Step {
    match a {
        Action::Flush => Step::Flush,
        Action::Send(bytes) => Step::Send(bytes@),
        Action::Read => Step::Read,
        Action::Backoff => Step::Backoff,
        Action::Done => Step::Done,
    }
}

} // verus!
