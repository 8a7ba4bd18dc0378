//! What follows from the transitions of `PingpongState`.
//!
//! Each proof function here states one law of the buffer over the model, so
//! it holds of every `PingpongBuffer` through the contracts of its methods.

use crate::flags::{BufferCapacity, PingpongBufferError};
use crate::model::PingpongState;
use vstd::prelude::*;

verus! {

/// Storing a chunk that fits extends what is written by that chunk and
/// touches nothing else.
pub proof fn store_extends_written<T>(m: PingpongState<T>, chunk: Seq<T>)
    requires
        m.wf(),
        chunk.len() <= m.room(),
    ensures
        m.store(chunk).wf(),
        m.store(chunk).capacity() == m.capacity(),
        m.store(chunk).write_index == m.write_index + chunk.len(),
        m.store(chunk).written() == m.written() + chunk,
        m.store(chunk).active == m.active,
        m.store(chunk).reserve_ready == m.reserve_ready,
        m.store(chunk).reserve_slot() == m.reserve_slot(),
{
    assert(m.store(chunk).written() =~= m.written() + chunk);
}

/// Every transition keeps the state well formed and the capacity fixed: the
/// write cursor never leaves the slot.
pub proof fn transitions_keep_wf<T>(m: PingpongState<T>, data: Seq<T>)
    requires
        m.wf(),
    ensures
        m.append(data).wf() && m.append(data).capacity() == m.capacity(),
        m.read().wf() && m.read().capacity() == m.capacity(),
        m.flush().wf() && m.flush().capacity() == m.capacity(),
{
    let first = m.transferred(data.len()) as int;
    let filled = m.store(data.take(first));
    store_extends_written(m, data.take(first));
    if !(filled.write_index < m.capacity() || m.reserve_ready) && data.len() - first
        <= m.capacity() {
        store_extends_written(filled.swapped(), data.skip(first));
    }
}

/// What `append` reports depends only on the length of the input, the room
/// left in the active slot and whether the reserve is unread.
pub proof fn append_result_by_length<T>(m: PingpongState<T>, data: Seq<T>)
    requires
        m.wf(),
    ensures
        m.append_result(data) == Ok::<BufferCapacity, PingpongBufferError>(BufferCapacity::NotFull)
            <==> data.len() < m.room(),
        m.append_result(data) == Ok::<BufferCapacity, PingpongBufferError>(BufferCapacity::Full)
            <==> !m.reserve_ready && m.room() <= data.len() <= m.room() + m.capacity(),
        m.append_result(data) == Err::<BufferCapacity, PingpongBufferError>(
            PingpongBufferError::ReserveFull,
        ) <==> m.reserve_ready && m.room() <= data.len(),
        m.append_result(data) == Err::<BufferCapacity, PingpongBufferError>(
            PingpongBufferError::Overflow,
        ) <==> !m.reserve_ready && data.len() > m.room() + m.capacity(),
{
}

/// An `append` that does not exchange the slots stores what fits in the
/// active slot, behind what was written before, and leaves the reserve as
/// it was.
pub proof fn append_without_swap<T>(m: PingpongState<T>, data: Seq<T>)
    requires
        m.wf(),
        data.len() < m.room() || m.reserve_ready,
    ensures
        m.append(data).active == m.active,
        m.append(data).reserve_ready == m.reserve_ready,
        m.append(data).reserve_slot() == m.reserve_slot(),
        m.append(data).write_index == m.write_index + m.transferred(data.len()),
        m.append(data).written() == m.written() + data.take(m.transferred(data.len()) as int),
{
    store_extends_written(m, data.take(m.transferred(data.len()) as int));
}

/// The slots exchange roles exactly when `append` fills the active slot
/// while the reserve has been read. The slot that was active then holds, as
/// the new reserve, what was written before followed by the start of
/// `data`; the rest of `data` is written to the new active slot unless it is
/// longer than a slot, in which case nothing of it is.
pub proof fn append_with_swap<T>(m: PingpongState<T>, data: Seq<T>)
    requires
        m.wf(),
        !m.reserve_ready,
        data.len() >= m.room(),
    ensures
        m.append(data).active == m.active.other(),
        m.append(data).reserve_ready,
        m.append(data).reserve_slot() == m.written() + data.take(m.room() as int),
        m.append(data).written() == if data.len() - m.room() <= m.capacity() {
            data.skip(m.room() as int)
        } else {
            Seq::<T>::empty()
        },
{
    let first = m.room() as int;
    let filled = m.store(data.take(first));
    store_extends_written(m, data.take(first));
    assert(filled.written() =~= filled.active_slot());
    if data.len() - first <= m.capacity() {
        store_extends_written(filled.swapped(), data.skip(first));
        assert(filled.swapped().written() =~= Seq::<T>::empty());
        assert(m.append(data).written() =~= data.skip(first));
    } else {
        assert(m.append(data).written() =~= Seq::<T>::empty());
    }
}

/// An exchange of the slots happens only in the case that `append_with_swap`
/// describes: in every other case the active slot stays the active slot.
pub proof fn swap_only_when_filled<T>(m: PingpongState<T>, data: Seq<T>)
    requires
        m.wf(),
    ensures
        m.append(data).active != m.active <==> !m.reserve_ready && data.len() >= m.room(),
        m.read().active == m.active,
        m.flush().active == m.active,
{
    if !m.reserve_ready && data.len() >= m.room() {
        append_with_swap(m, data);
    } else {
        append_without_swap(m, data);
    }
}

/// On a buffer with nothing written and nothing in reserve, an input longer
/// than one slot and no longer than two is taken whole: the first slot's
/// worth becomes the reserve, the rest is written to the new active slot.
pub proof fn append_over_one_slot<T>(m: PingpongState<T>, data: Seq<T>)
    requires
        m.wf(),
        m.write_index == 0,
        !m.reserve_ready,
        m.capacity() < data.len() <= 2 * m.capacity(),
    ensures
        m.append_result(data) == Ok::<BufferCapacity, PingpongBufferError>(BufferCapacity::Full),
        m.append(data).write_index == data.len() - m.capacity(),
        m.append(data).reserve_ready,
        m.append(data).reserve_slot() == data.take(m.capacity() as int),
        m.append(data).written() == data.skip(m.capacity() as int),
{
    append_with_swap(m, data);
    transitions_keep_wf(m, data);
    assert(m.written() + data.take(m.capacity() as int) =~= data.take(m.capacity() as int));
}

/// An input that is longer than the room in the active slot plus one more
/// slot overflows. The failure comes after the exchange of the slots and
/// undoes nothing: the reserve is ready and holds what was written before
/// followed by the start of `data`, so on a buffer with nothing written it
/// holds the first slot's worth of `data`. The new active slot is empty.
pub proof fn append_overflow_keeps_first_batch<T>(m: PingpongState<T>, data: Seq<T>)
    requires
        m.wf(),
        !m.reserve_ready,
        data.len() > m.room() + m.capacity(),
    ensures
        m.append_result(data) == Err::<BufferCapacity, PingpongBufferError>(
            PingpongBufferError::Overflow,
        ),
        m.append(data).reserve_ready,
        m.append(data).write_index == 0,
        m.append(data).reserve_slot() == m.written() + data.take(m.room() as int),
        m.write_index == 0 ==> m.append(data).reserve_slot() == data.take(m.capacity() as int),
{
    append_with_swap(m, data);
    if m.write_index == 0 {
        assert(m.written() + data.take(m.capacity() as int) =~= data.take(m.capacity() as int));
    }
}

/// An input that would fill the active slot while the reserve is unread is
/// refused with `ReserveFull`. No exchange takes place: the reserve slot and
/// what was written to the active slot before are as they were, and the
/// active slot is filled up from the start of `data`.
pub proof fn append_on_unread_reserve<T>(m: PingpongState<T>, data: Seq<T>)
    requires
        m.wf(),
        m.reserve_ready,
        m.write_index + data.len() >= m.capacity(),
    ensures
        m.append_result(data) == Err::<BufferCapacity, PingpongBufferError>(
            PingpongBufferError::ReserveFull,
        ),
        m.append(data).active == m.active,
        m.append(data).reserve_ready,
        m.append(data).reserve_slot() == m.reserve_slot(),
        m.append(data).write_index == m.capacity(),
        m.append(data).written().take(m.write_index as int) == m.written(),
        m.append(data).written() == m.written() + data.take(m.room() as int),
{
    append_without_swap(m, data);
    assert((m.written() + data.take(m.room() as int)).take(m.write_index as int) =~= m.written());
}

/// A batch is read once: `read` hands out the reserve slot exactly when it
/// is ready, and right after any `read` there is nothing to read. A `read`
/// with nothing to hand out changes nothing.
pub proof fn read_hands_out_once<T>(m: PingpongState<T>)
    ensures
        m.read_result().is_some() <==> m.reserve_ready,
        m.reserve_ready ==> m.read_result() == Some(m.reserve_slot()),
        !m.read().reserve_ready,
        m.read().read_result().is_none(),
        !m.reserve_ready ==> m.read() == m,
        m.read().written() == m.written(),
{
}

/// The batch that a read hands out after an exchange of the slots is the
/// one that the exchange completed: a full slot's worth, made of what was
/// written before and the start of the `data` that filled the slot.
pub proof fn read_after_swap_gives_batch<T>(m: PingpongState<T>, data: Seq<T>)
    requires
        m.wf(),
        !m.reserve_ready,
        data.len() >= m.room(),
    ensures
        m.append(data).read_result() == Some(m.written() + data.take(m.room() as int)),
        (m.written() + data.take(m.room() as int)).len() == m.capacity(),
{
    append_with_swap(m, data);
}

/// `flush` empties the active slot and nothing else: the reserve, its
/// readiness and the roles of the slots are as before.
pub proof fn flush_leaves_reserve<T>(m: PingpongState<T>)
    ensures
        m.flush().write_index == 0,
        m.flush().written() == Seq::<T>::empty(),
        m.flush().reserve_ready == m.reserve_ready,
        m.flush().reserve_slot() == m.reserve_slot(),
        m.flush().read_result() == m.read_result(),
        m.flush().active == m.active,
{
    assert(m.flush().written() =~= Seq::<T>::empty());
}

/// Any two states as they are right after construction, of the same
/// capacity, are observably equal: a cleared buffer cannot be told from a
/// new one.
pub proof fn initial_states_observably_equal<T: Default>(a: PingpongState<T>, b: PingpongState<T>)
    requires
        a.is_initial(),
        b.is_initial(),
        a.capacity() == b.capacity(),
    ensures
        a.observably_equal(b),
{
    assert(a.written() =~= b.written());
}

/// Observable equality is an equivalence.
pub proof fn observably_equal_is_equivalence<T>(
    a: PingpongState<T>,
    b: PingpongState<T>,
    c: PingpongState<T>,
)
    ensures
        a.observably_equal(a),
        a.observably_equal(b) ==> b.observably_equal(a),
        a.observably_equal(b) && b.observably_equal(c) ==> a.observably_equal(c),
{
}

/// Observably equal states answer every operation alike and stay observably
/// equal under it.
pub proof fn operations_respect_observation<T>(
    a: PingpongState<T>,
    b: PingpongState<T>,
    data: Seq<T>,
)
    requires
        a.wf(),
        b.wf(),
        a.observably_equal(b),
    ensures
        a.append_result(data) == b.append_result(data),
        a.append(data).observably_equal(b.append(data)),
        a.read_result() == b.read_result(),
        a.read().observably_equal(b.read()),
        a.flush().observably_equal(b.flush()),
{
    transitions_keep_wf(a, data);
    transitions_keep_wf(b, data);
    if !a.reserve_ready && data.len() >= a.room() {
        append_with_swap(a, data);
        append_with_swap(b, data);
    } else {
        append_without_swap(a, data);
        append_without_swap(b, data);
    }
    flush_leaves_reserve(a);
    flush_leaves_reserve(b);
}

/// The number of elements in all the chunks together.
pub open spec fn total_len<T>(chunks: Seq<Seq<T>>) -> nat
    decreases chunks.len(),
{
    if chunks.len() == 0 {
        0
    } else {
        chunks[0].len() + total_len(chunks.drop_first())
    }
}

/// The chunks laid end to end.
pub open spec fn joined<T>(chunks: Seq<Seq<T>>) -> Seq<T>
    decreases chunks.len(),
{
    if chunks.len() == 0 {
        Seq::empty()
    } else {
        chunks[0] + joined(chunks.drop_first())
    }
}

/// The state after the chunks are appended one after the other, whatever
/// each `append` reports.
pub open spec fn append_all<T>(m: PingpongState<T>, chunks: Seq<Seq<T>>) -> PingpongState<T>
    decreases chunks.len(),
{
    if chunks.len() == 0 {
        m
    } else {
        append_all(m.append(chunks[0]), chunks.drop_first())
    }
}

/// How many of those appends report that the slots exchanged roles.
pub open spec fn swaps<T>(m: PingpongState<T>, chunks: Seq<Seq<T>>) -> nat
    decreases chunks.len(),
{
    if chunks.len() == 0 {
        0
    } else {
        let here: nat = if m.append_result(chunks[0]) == Ok::<BufferCapacity, PingpongBufferError>(
            BufferCapacity::Full,
        ) {
            1
        } else {
            0
        };
        here + swaps(m.append(chunks[0]), chunks.drop_first())
    }
}

/// Chunks that hold nothing join to nothing.
pub proof fn joined_of_empty_chunks<T>(chunks: Seq<Seq<T>>)
    requires
        total_len(chunks) == 0,
    ensures
        joined(chunks) == Seq::<T>::empty(),
    decreases chunks.len(),
{
    if chunks.len() > 0 {
        joined_of_empty_chunks(chunks.drop_first());
        assert(chunks[0] + joined(chunks.drop_first()) =~= Seq::<T>::empty());
    }
}

/// Appending nothing, any number of times, to a buffer that has just
/// exchanged its slots reports no further exchange and changes nothing that
/// can be observed.
pub proof fn empty_chunks_after_swap<T>(m: PingpongState<T>, chunks: Seq<Seq<T>>)
    requires
        m.wf(),
        m.reserve_ready,
        m.write_index == 0,
        total_len(chunks) == 0,
    ensures
        swaps(m, chunks) == 0,
        append_all(m, chunks).observably_equal(m),
    decreases chunks.len(),
{
    if chunks.len() == 0 {
    } else {
        let next = m.append(chunks[0]);
        append_without_swap(m, chunks[0]);
        transitions_keep_wf(m, chunks[0]);
        assert(next.written() =~= m.written());
        empty_chunks_after_swap(next, chunks.drop_first());
    }
}

/// A batch completes exactly once. When the reserve has been read and the
/// chunks together hold exactly as many elements as the active slot has room
/// for, appending them one after the other reports one exchange of the
/// slots, whatever the size of a slot and however the elements are split.
/// Afterwards the reserve is ready, the write cursor is at the start, and
/// the reserve holds what was written before followed by the chunks in
/// order.
pub proof fn batch_in_chunks_swaps_once<T>(m: PingpongState<T>, chunks: Seq<Seq<T>>)
    requires
        m.wf(),
        !m.reserve_ready,
        chunks.len() > 0,
        total_len(chunks) == m.room(),
    ensures
        swaps(m, chunks) == 1,
        append_all(m, chunks).reserve_ready,
        append_all(m, chunks).write_index == 0,
        append_all(m, chunks).reserve_slot() == m.written() + joined(chunks),
    decreases chunks.len(),
{
    let head = chunks[0];
    let rest = chunks.drop_first();
    let next = m.append(head);
    transitions_keep_wf(m, head);
    if head.len() < m.room() {
        append_without_swap(m, head);
        assert(head.take(head.len() as int) =~= head);
        assert(rest.len() > 0) by {
            assert(total_len(rest) == next.room());
        }
        batch_in_chunks_swaps_once(next, rest);
        assert((m.written() + head) + joined(rest) =~= m.written() + (head + joined(rest)));
    } else {
        append_with_swap(m, head);
        assert(head.take(m.room() as int) =~= head);
        empty_chunks_after_swap(next, rest);
        joined_of_empty_chunks(rest);
        assert(m.written() + head =~= m.written() + (head + joined(rest)));
    }
}

} // verus!
