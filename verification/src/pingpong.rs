//! The buffer itself.

use crate::flags::{Buffer, BufferCapacity, PingpongBufferError};
use crate::model::{default_from, overlay, PingpongState};
use vstd::prelude::*;

verus! {

/// Ping-pong or double buffering serves tasks that read and write at the
/// same time: while one slot is being written to, the other can be read.
/// Writes go to the active slot, reads come from the reserve slot.
pub struct PingpongBuffer<const N: usize, T> {
    /// The first slot.
    buffer_a: [T; N],
    /// The second slot.
    buffer_b: [T; N],
    /// The write cursor in the active slot.
    active_index: usize,
    /// The slot that is active.
    active_buffer: Buffer,
    /// Whether the reserve slot holds an unread batch.
    reserve_capacity: BufferCapacity,
}

impl<const N: usize, T> View for PingpongBuffer<N, T> {
    type V = PingpongState<T>;

    closed spec fn view(&self) -> PingpongState<T> {
        PingpongState {
            slot_a: self.buffer_a@,
            slot_b: self.buffer_b@,
            active: self.active_buffer,
            write_index: self.active_index as nat,
            reserve_ready: self.reserve_capacity == BufferCapacity::Full,
        }
    }
}

impl<const N: usize, T> PingpongBuffer<N, T> {
    #[verifier::type_invariant]
    spec fn cursor_in_slot(&self) -> bool {
        self.active_index <= N
    }

    /// The view is a well-formed state whose slots hold `N` elements.
    pub open spec fn valid(&self) -> bool {
        self@.wf() && self@.capacity() == N
    }
}

/// Copy `count` elements of `data`, from position `from` on, into `slot` at
/// position `at`.
fn copy_into<const N: usize, T: Copy>(
    slot: &mut [T; N],
    at: usize,
    data: &[T],
    from: usize,
    count: usize,
)
    requires
        at + count <= N,
        from + count <= data.len(),
    ensures
        final(slot)@ == overlay(old(slot)@, at as int, data@.subrange(from as int, from + count)),
    no_unwind
{
    let mut i: usize = 0;
    while i < count
        invariant
            i <= count,
            at + count <= N,
            from + count <= data.len(),
            slot@ == overlay(old(slot)@, at as int, data@.subrange(from as int, from + i)),
        decreases count - i,
    {
        slot[at + i] = data[from + i];
        i += 1;
    }
}

impl<const N: usize, T> Default for PingpongBuffer<N, T> where T: Default + Copy {
    fn default() -> (r: Self)
        ensures
            r.valid(),
            r@.is_initial(),
    {
        let fill = T::default();
        Self {
            buffer_a: [fill;N],
            buffer_b: [fill;N],
            active_index: 0,
            active_buffer: Buffer::A,
            reserve_capacity: BufferCapacity::NotFull,
        }
    }
}

impl<const N: usize, T> PingpongBuffer<N, T> where T: Default + Copy {
    /// A buffer with nothing written. The same as `default()`.
    pub fn new() -> (r: Self)
        ensures
            r.valid(),
            r@.is_initial(),
    {
        PingpongBuffer::<N, T>::default()
    }

    /// Is the active slot empty?
    pub fn is_empty(&self) -> (r: bool)
        ensures
            self.valid(),
            r == (self@.write_index == 0),
    {
        proof {
            use_type_invariant(self);
        }
        self.active_index == 0
    }

    /// Is the active slot at least half full?
    pub fn is_half_full(&self) -> (r: bool)
        ensures
            self.valid(),
            r == (self@.write_index >= N / 2),
    {
        proof {
            use_type_invariant(self);
        }
        self.active_index >= (N / 2)
    }

    /// Does the reserve slot hold a batch that is ready to be read?
    pub fn is_reserve_full(&self) -> (r: bool)
        ensures
            self.valid(),
            r == self@.reserve_ready,
    {
        proof {
            use_type_invariant(self);
        }
        self.reserve_capacity == BufferCapacity::Full
    }

    /// Bring the buffer back to the state in which it was constructed.
    pub fn clear(&mut self)
        ensures
            final(self).valid(),
            final(self)@.is_initial(),
    {
        proof {
            use_type_invariant(&*self);
        }
        self.buffer_a = [T::default();N];
        self.buffer_b = [T::default();N];
        self.active_index = 0;
        self.active_buffer = Buffer::A;
        self.reserve_capacity = BufferCapacity::NotFull;
    }

    /// Hand out what the active slot holds and empty it.
    ///
    /// For when buffering has to end and there is not enough data to fill
    /// the active slot. The first `count` positions of the array are the
    /// elements written, the rest holds the default value. The reserve slot
    /// is not touched.
    pub fn flush(&mut self) -> (r: ([T; N], usize))
        ensures
            final(self).valid(),
            final(self)@ == old(self)@.flush(),
            r.1 == old(self)@.write_index,
            r.0@.take(r.1 as int) == old(self)@.written(),
            default_from(r.0@, r.1 as int),
    {
        proof {
            use_type_invariant(&*self);
        }
        let mut data: [T; N] = [T::default();N];
        let remainder = self.active_index;
        match self.active_buffer {
            Buffer::A => copy_into(&mut data, 0, &self.buffer_a, 0, remainder),
            Buffer::B => copy_into(&mut data, 0, &self.buffer_b, 0, remainder),
        }
        self.active_index = 0;
        assert(data@.take(remainder as int) =~= old(self)@.written());
        (data, remainder)
    }

    /// Read the batch in the reserve slot.
    ///
    /// Returns `None` while the reserve slot is not full. A batch is handed
    /// out once; after that the slot is free to become active again.
    pub fn read(&mut self) -> (r: Option<[T; N]>)
        ensures
            final(self).valid(),
            final(self)@ == old(self)@.read(),
            match r {
                Some(batch) => old(self)@.read_result() == Some(batch@),
                None => old(self)@.read_result().is_none(),
            },
    {
        proof {
            use_type_invariant(&*self);
        }
        if let BufferCapacity::Full = self.reserve_capacity {
            self.reserve_capacity = BufferCapacity::NotFull;
            match self.active_buffer {
                Buffer::A => Some(self.buffer_b),
                Buffer::B => Some(self.buffer_a),
            }
        } else {
            None
        }
    }

    /// The position of the write cursor in the active slot.
    pub fn position(&self) -> (r: usize)
        ensures
            self.valid(),
            r == self@.write_index,
    {
        proof {
            use_type_invariant(self);
        }
        self.active_index
    }

    /// Push one element to the active slot: `append` with a single element.
    pub fn push(&mut self, element: T) -> (r: Result<BufferCapacity, PingpongBufferError>)
        ensures
            final(self).valid(),
            final(self)@ == old(self)@.append(seq![element]),
            r == old(self)@.append_result(seq![element]),
    {
        let one = [element];
        assert(one@ =~= seq![element]);
        self.append(&one)
    }

    /// Append data to the active slot.
    ///
    /// If the active slot fills up, the slots exchange roles and what is left
    /// of `data` goes to the new active slot. The exchange needs the reserve
    /// to have been read; what was stored before a failure stays stored.
    pub fn append(&mut self, data: &[T]) -> (r: Result<BufferCapacity, PingpongBufferError>)
        ensures
            final(self).valid(),
            final(self)@ == old(self)@.append(data@),
            r == old(self)@.append_result(data@),
    {
        proof {
            use_type_invariant(&*self);
        }
        // how many elements the active slot can still take
        let capacity = N - self.active_index;
        // how many elements go to the active slot
        let transferred = if data.len() < capacity {
            data.len()
        } else {
            capacity
        };
        match self.active_buffer {
            Buffer::A => copy_into(&mut self.buffer_a, self.active_index, data, 0, transferred),
            Buffer::B => copy_into(&mut self.buffer_b, self.active_index, data, 0, transferred),
        }
        self.active_index += transferred;

        // the active slot is full
        if self.active_index == N {
            if let BufferCapacity::Full = self.reserve_capacity {
                // the reserve still holds a batch that has not been read
                return Err(PingpongBufferError::ReserveFull);
            }
            self.reserve_capacity = BufferCapacity::Full;
            self.active_index = 0;
            self.active_buffer = self.active_buffer.toggle();
            // there is data left over
            if transferred != data.len() {
                let remainder = data.len() - transferred;
                if remainder > N {
                    return Err(PingpongBufferError::Overflow);
                }
                match self.active_buffer {
                    Buffer::A => copy_into(&mut self.buffer_a, 0, data, transferred, remainder),
                    Buffer::B => copy_into(&mut self.buffer_b, 0, data, transferred, remainder),
                }
                self.active_index += remainder;
            }
            assert(self@.active_slot() =~= old(self)@.append(data@).active_slot());
            return Ok(BufferCapacity::Full);
        }
        Ok(BufferCapacity::NotFull)
    }
}

} // verus!
