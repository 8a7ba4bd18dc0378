//! The small enums that the buffer speaks in.

use vstd::prelude::*;

verus! {

/// Errors returned by `append` and `push`.
#[derive(Debug, Clone, Copy, PartialEq, Eq, Structural)]
pub enum PingpongBufferError {
    /// One call carried more data than the two slots can take together:
    /// what lay beyond the second slot was not placed.
    Overflow,
    /// The active slot is full and the reserve slot still holds a batch that
    /// has not been read, so the slots cannot exchange roles.
    ReserveFull,
}

/// Names one of the two slots.
#[derive(Debug, PartialEq, Eq, Structural)]
pub enum Buffer {
    A,
    B,
}

impl Buffer {
    /// The slot that `self` does not name.
    pub open spec fn other(self) -> Buffer {
        match self {
            Buffer::A => Buffer::B,
            Buffer::B => Buffer::A,
        }
    }

    /// Switch to the other slot.
    pub fn toggle(&self) -> (r: Buffer)
        ensures
            r == self.other(),
    {
        match self {
            Buffer::A => Buffer::B,
            Buffer::B => Buffer::A,
        }
    }
}

/// Says whether a slot holds a complete batch.
///
/// As the result of a write it says whether the write completed a batch,
/// that is, whether the slots exchanged roles.
#[derive(Debug, PartialEq, Eq, Structural)]
pub enum BufferCapacity {
    Full,
    NotFull,
}

} // verus!
