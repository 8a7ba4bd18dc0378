//! The mathematical state of a ping-pong buffer and its transitions.

use crate::flags::{Buffer, BufferCapacity, PingpongBufferError};
use vstd::prelude::*;

verus! {

/// `v` is a value that `T::default()` may return.
pub open spec fn is_default<T: Default>(v: T) -> bool {
    call_ensures(T::default, (), v)
}

/// From position `from` on, `s` holds one and the same default value.
pub open spec fn default_from<T: Default>(s: Seq<T>, from: int) -> bool {
    &&& forall|i: int| from <= i < s.len() ==> is_default(#[trigger] s[i])
    &&& forall|i: int, j: int|
        from <= i < s.len() && from <= j < s.len() ==> #[trigger] s[i] == #[trigger] s[j]
}

/// `base` with `data` written over it from position `at` on.
pub open spec fn overlay<T>(base: Seq<T>, at: int, data: Seq<T>) -> Seq<T> {
    Seq::new(
        base.len(),
        |i: int|
            if at <= i < at + data.len() {
                data[i - at]
            } else {
                base[i]
            },
    )
}

/// What a ping-pong buffer is, as a mathematical value.
pub struct PingpongState<T> {
    /// The contents of slot A, one entry per position.
    pub slot_a: Seq<T>,
    /// The contents of slot B, one entry per position.
    pub slot_b: Seq<T>,
    /// The slot that accepts writes; the other one is the reserve.
    pub active: Buffer,
    /// How many elements the active slot has taken since it became active
    /// or was last flushed.
    pub write_index: nat,
    /// The reserve slot holds a complete batch that has not been read.
    pub reserve_ready: bool,
}

impl<T> PingpongState<T> {
    /// The number of elements that one slot holds.
    pub open spec fn capacity(self) -> nat {
        self.slot_a.len()
    }

    /// Both slots have the same length and the write cursor lies within it.
    pub open spec fn wf(self) -> bool {
        &&& self.slot_b.len() == self.slot_a.len()
        &&& self.write_index <= self.capacity()
    }

    /// The contents of the slot that `which` names.
    pub open spec fn slot(self, which: Buffer) -> Seq<T> {
        match which {
            Buffer::A => self.slot_a,
            Buffer::B => self.slot_b,
        }
    }

    /// The contents of the active slot, written or not.
    pub open spec fn active_slot(self) -> Seq<T> {
        self.slot(self.active)
    }

    /// The contents of the reserve slot.
    pub open spec fn reserve_slot(self) -> Seq<T> {
        self.slot(self.active.other())
    }

    /// The elements written to the active slot so far, in order.
    pub open spec fn written(self) -> Seq<T> {
        self.active_slot().take(self.write_index as int)
    }

    /// How many more elements the active slot can take.
    pub open spec fn room(self) -> nat {
        (self.capacity() - self.write_index) as nat
    }

    /// How many elements of an input of length `len` go to the active slot
    /// before any exchange of roles.
    pub open spec fn transferred(self, len: nat) -> nat {
        if len <= self.room() {
            len
        } else {
            self.room()
        }
    }

    /// The state after `chunk` is written to the active slot at the write
    /// cursor. Meant for a `chunk` that fits in `room()`.
    pub open spec fn store(self, chunk: Seq<T>) -> Self {
        let filled = overlay(self.active_slot(), self.write_index as int, chunk);
        let write_index = self.write_index + chunk.len();
        match self.active {
            Buffer::A => PingpongState { slot_a: filled, write_index, ..self },
            Buffer::B => PingpongState { slot_b: filled, write_index, ..self },
        }
    }

    /// The state after the slots exchange roles: the slot that was active
    /// becomes a reserve that is ready to be read, the other one becomes
    /// active and empty.
    pub open spec fn swapped(self) -> Self {
        PingpongState { active: self.active.other(), write_index: 0, reserve_ready: true, ..self }
    }

    /// The state after `data` is appended.
    ///
    /// The part of `data` that fits in the active slot is always stored. If
    /// that fills the slot, the slots exchange roles unless the reserve is
    /// still unread, and what is left of `data` goes to the new active slot
    /// unless it is longer than a slot.
    pub open spec fn append(self, data: Seq<T>) -> Self {
        let first = self.transferred(data.len()) as int;
        let filled = self.store(data.take(first));
        if filled.write_index < self.capacity() || self.reserve_ready {
            filled
        } else if data.len() - first > self.capacity() {
            filled.swapped()
        } else {
            filled.swapped().store(data.skip(first))
        }
    }

    /// What appending `data` reports.
    pub open spec fn append_result(self, data: Seq<T>) -> Result<
        BufferCapacity,
        PingpongBufferError,
    > {
        let first = self.transferred(data.len());
        if self.write_index + first < self.capacity() {
            Ok(BufferCapacity::NotFull)
        } else if self.reserve_ready {
            Err(PingpongBufferError::ReserveFull)
        } else if data.len() - first > self.capacity() {
            Err(PingpongBufferError::Overflow)
        } else {
            Ok(BufferCapacity::Full)
        }
    }

    /// The batch that a read hands out: the reserve slot if it is ready.
    pub open spec fn read_result(self) -> Option<Seq<T>> {
        if self.reserve_ready {
            Some(self.reserve_slot())
        } else {
            None
        }
    }

    /// The state after a read: the reserve is no longer ready.
    pub open spec fn read(self) -> Self {
        PingpongState { reserve_ready: false, ..self }
    }

    /// The state after a flush: the write cursor is back at the start.
    pub open spec fn flush(self) -> Self {
        PingpongState { write_index: 0, ..self }
    }

    /// No operation can tell the two states apart: they agree on the
    /// capacity, on the write cursor and the elements written before it, and
    /// on the batch in reserve if there is one. Positions that hold nothing
    /// valid, and which of the two slots is the active one, do not count.
    pub open spec fn observably_equal(self, other: Self) -> bool {
        &&& self.capacity() == other.capacity()
        &&& self.write_index == other.write_index
        &&& self.reserve_ready == other.reserve_ready
        &&& self.written() == other.written()
        &&& self.reserve_ready ==> self.reserve_slot() == other.reserve_slot()
    }
}

impl<T: Default> PingpongState<T> {
    /// A buffer as it is right after construction: nothing written, slot A
    /// active, no batch in reserve, every position holding the default value.
    pub open spec fn is_initial(self) -> bool {
        &&& self.wf()
        &&& self.write_index == 0
        &&& self.active == Buffer::A
        &&& !self.reserve_ready
        &&& default_from(self.slot_a, 0)
        &&& default_from(self.slot_b, 0)
    }
}

} // verus!
