use pingpong::{Buffer, BufferCapacity, PingpongBuffer, PingpongBufferError};

#[test]
fn toggle_names_the_other_slot() {
    assert_eq!(Buffer::A.toggle(), Buffer::B);
    assert_eq!(Buffer::B.toggle(), Buffer::A);
    assert_eq!(Buffer::A.toggle().toggle(), Buffer::A);
}

#[test]
fn new_buffer_is_blank() {
    let mut buff = PingpongBuffer::<4, u8>::new();
    assert!(buff.is_empty());
    assert!(!buff.is_reserve_full());
    assert_eq!(buff.position(), 0);
    assert_eq!(buff.read(), None);
    assert_eq!(buff.flush(), ([0, 0, 0, 0], 0));
}

#[test]
fn six_into_slots_of_four() {
    let mut buff = PingpongBuffer::<4, u8>::new();
    assert_eq!(buff.append(&[1, 2, 3, 4, 5, 6]), Ok(BufferCapacity::Full));
    assert_eq!(buff.position(), 2);
    assert_eq!(buff.read(), Some([1, 2, 3, 4]));
    assert_eq!(buff.read(), None);
    assert_eq!(buff.flush(), ([5, 6, 0, 0], 2));
    assert_eq!(buff.position(), 0);
}

#[test]
fn exact_batch_swaps_once() {
    let mut buff = PingpongBuffer::<4, u16>::new();
    assert_eq!(buff.append(&[9, 8, 7, 6]), Ok(BufferCapacity::Full));
    assert!(buff.is_reserve_full());
    assert_eq!(buff.position(), 0);
    assert!(buff.is_empty());
    assert_eq!(buff.read(), Some([9, 8, 7, 6]));
}

#[test]
fn batch_in_pieces_swaps_once() {
    let mut buff = PingpongBuffer::<5, u8>::new();
    let pieces: [&[u8]; 5] = [&[], &[1, 2], &[], &[3, 4, 5], &[]];
    let mut full = 0;
    for piece in pieces {
        if buff.append(piece) == Ok(BufferCapacity::Full) {
            full += 1;
        }
    }
    assert_eq!(full, 1);
    assert!(buff.is_reserve_full());
    assert_eq!(buff.position(), 0);
    assert_eq!(buff.read(), Some([1, 2, 3, 4, 5]));
}

#[test]
fn pushes_fill_a_batch() {
    let mut buff = PingpongBuffer::<3, u32>::new();
    assert_eq!(buff.push(10), Ok(BufferCapacity::NotFull));
    assert_eq!(buff.position(), 1);
    assert_eq!(buff.push(20), Ok(BufferCapacity::NotFull));
    assert_eq!(buff.position(), 2);
    assert_eq!(buff.push(30), Ok(BufferCapacity::Full));
    assert_eq!(buff.position(), 0);
    assert_eq!(buff.read(), Some([10, 20, 30]));
}

#[test]
fn push_is_append_of_one() {
    let mut pushed = PingpongBuffer::<2, u8>::new();
    let mut appended = PingpongBuffer::<2, u8>::new();
    for v in [4u8, 5, 6, 7, 8] {
        assert_eq!(pushed.push(v), appended.append(&[v]));
        assert_eq!(pushed.position(), appended.position());
        assert_eq!(pushed.is_reserve_full(), appended.is_reserve_full());
    }
    assert_eq!(pushed.read(), appended.read());
    assert_eq!(pushed.flush(), appended.flush());
}

#[test]
fn half_full_goes_by_integer_division() {
    let mut buff = PingpongBuffer::<5, u8>::new();
    // 5 / 2 == 2
    assert!(!buff.is_half_full());
    buff.push(1).unwrap();
    assert!(!buff.is_half_full());
    buff.push(1).unwrap();
    assert!(buff.is_half_full());
    buff.append(&[1, 1]).unwrap();
    assert!(buff.is_half_full());
    buff.push(1).unwrap();
    // the slot filled and the cursor is back at the start
    assert_eq!(buff.position(), 0);
    assert!(!buff.is_half_full());

    // a slot of one element is half full from the start: 1 / 2 == 0
    let single = PingpongBuffer::<1, u8>::new();
    assert!(single.is_half_full());
}

#[test]
fn two_full_slots_are_taken() {
    let mut buff = PingpongBuffer::<3, u8>::new();
    assert_eq!(buff.append(&[1, 2, 3, 4, 5, 6]), Ok(BufferCapacity::Full));
    assert_eq!(buff.position(), 3);
    assert_eq!(buff.read(), Some([1, 2, 3]));
    assert_eq!(buff.flush(), ([4, 5, 6], 3));
}

#[test]
fn second_slot_filled_without_second_swap() {
    // the slots exchange once per call at most: a second full slot stays
    // active, and the next write asks for the exchange
    let mut buff = PingpongBuffer::<2, u8>::new();
    assert_eq!(buff.append(&[1, 2, 3, 4]), Ok(BufferCapacity::Full));
    assert_eq!(buff.position(), 2);
    assert_eq!(buff.append(&[]), Err(PingpongBufferError::ReserveFull));
    assert_eq!(buff.read(), Some([1, 2]));
    assert_eq!(buff.append(&[]), Ok(BufferCapacity::Full));
    assert_eq!(buff.position(), 0);
    assert_eq!(buff.read(), Some([3, 4]));
}

#[test]
fn overflow_keeps_the_first_batch() {
    let mut buff = PingpongBuffer::<4, u8>::new();
    assert_eq!(
        buff.append(&[1, 2, 3, 4, 5, 6, 7, 8, 9]),
        Err(PingpongBufferError::Overflow)
    );
    // the exchange has happened and is not undone
    assert!(buff.is_reserve_full());
    assert_eq!(buff.position(), 0);
    assert!(buff.is_empty());
    assert_eq!(buff.read(), Some([1, 2, 3, 4]));
    // nothing of the rest was written
    assert_eq!(buff.flush(), ([0, 0, 0, 0], 0));
}

#[test]
fn overflow_counts_from_the_cursor() {
    let mut buff = PingpongBuffer::<4, u8>::new();
    buff.append(&[1, 2]).unwrap();
    // room for 2, then one more slot of 4: 7 elements are one too many
    assert_eq!(
        buff.append(&[3, 4, 5, 6, 7, 8, 9]),
        Err(PingpongBufferError::Overflow)
    );
    assert_eq!(buff.position(), 0);
    assert_eq!(buff.read(), Some([1, 2, 3, 4]));

    let mut buff = PingpongBuffer::<4, u8>::new();
    buff.append(&[1, 2]).unwrap();
    assert_eq!(buff.append(&[3, 4, 5, 6, 7, 8]), Ok(BufferCapacity::Full));
    assert_eq!(buff.position(), 4);
    assert_eq!(buff.read(), Some([1, 2, 3, 4]));
    assert_eq!(buff.flush(), ([5, 6, 7, 8], 4));
}

#[test]
fn reserve_full_keeps_both_slots() {
    let mut buff = PingpongBuffer::<4, u8>::new();
    buff.append(&[1, 2, 3, 4]).unwrap();
    buff.append(&[5, 6]).unwrap();
    // fills the active slot; the surplus 9 is dropped
    assert_eq!(
        buff.append(&[7, 8, 9]),
        Err(PingpongBufferError::ReserveFull)
    );
    assert!(buff.is_reserve_full());
    assert_eq!(buff.position(), 4);
    // asking again changes nothing
    assert_eq!(buff.append(&[10]), Err(PingpongBufferError::ReserveFull));
    assert_eq!(buff.position(), 4);
    assert_eq!(buff.read(), Some([1, 2, 3, 4]));
    assert_eq!(buff.flush(), ([5, 6, 7, 8], 4));
}

#[test]
fn reserve_full_then_read_then_retry() {
    let mut buff = PingpongBuffer::<2, u8>::new();
    buff.append(&[1, 2, 3]).unwrap();
    assert_eq!(buff.append(&[4, 5]), Err(PingpongBufferError::ReserveFull));
    assert_eq!(buff.read(), Some([1, 2]));
    // the active slot is full: the next write exchanges at once
    assert_eq!(buff.append(&[5]), Ok(BufferCapacity::Full));
    assert_eq!(buff.position(), 1);
    assert_eq!(buff.read(), Some([3, 4]));
    assert_eq!(buff.flush(), ([5, 0], 1));
}

#[test]
fn read_gives_a_batch_once() {
    let mut buff = PingpongBuffer::<3, u8>::new();
    assert_eq!(buff.read(), None);
    buff.append(&[1, 2, 3, 4]).unwrap();
    assert!(buff.is_reserve_full());
    assert_eq!(buff.read(), Some([1, 2, 3]));
    assert!(!buff.is_reserve_full());
    assert_eq!(buff.read(), None);
    // reading leaves the active slot alone
    assert_eq!(buff.position(), 1);
}

#[test]
fn read_is_a_snapshot() {
    let mut buff = PingpongBuffer::<2, u8>::new();
    buff.append(&[1, 2]).unwrap();
    let batch = buff.read().unwrap();
    // the slot that was read becomes active again and is overwritten
    buff.append(&[3, 4]).unwrap();
    buff.append(&[5, 6]).unwrap_err();
    assert_eq!(batch, [1, 2]);
}

#[test]
fn flush_hands_out_the_written_part() {
    let mut buff = PingpongBuffer::<4, u16>::new();
    buff.append(&[7, 8, 9]).unwrap();
    assert_eq!(buff.flush(), ([7, 8, 9, 0], 3));
    assert_eq!(buff.position(), 0);
    assert!(buff.is_empty());
    // what lies beyond the cursor is not handed out again
    buff.append(&[1]).unwrap();
    assert_eq!(buff.flush(), ([1, 0, 0, 0], 1));
    assert_eq!(buff.flush(), ([0, 0, 0, 0], 0));
}

#[test]
fn flush_leaves_the_reserve() {
    let mut buff = PingpongBuffer::<3, u8>::new();
    buff.append(&[1, 2, 3, 4, 5]).unwrap();
    assert_eq!(buff.flush(), ([4, 5, 0], 2));
    assert!(buff.is_reserve_full());
    assert_eq!(buff.read(), Some([1, 2, 3]));

    let mut buff = PingpongBuffer::<3, u8>::new();
    buff.append(&[1, 2]).unwrap();
    assert_eq!(buff.flush(), ([1, 2, 0], 2));
    assert!(!buff.is_reserve_full());
    assert_eq!(buff.read(), None);
}

#[test]
fn clear_gives_a_new_buffer() {
    let mut used = PingpongBuffer::<3, u8>::new();
    used.append(&[1, 2, 3, 4, 5]).unwrap();
    used.clear();
    assert!(used.is_empty());
    assert!(!used.is_reserve_full());
    assert_eq!(used.position(), 0);

    // from here on it answers as a new one does
    let mut fresh = PingpongBuffer::<3, u8>::new();
    let inputs: [&[u8]; 4] = [&[6], &[7, 8, 9], &[10, 11, 12, 13], &[14]];
    for input in inputs {
        assert_eq!(used.append(input), fresh.append(input));
        assert_eq!(used.position(), fresh.position());
        assert_eq!(used.is_reserve_full(), fresh.is_reserve_full());
    }
    assert_eq!(used.read(), fresh.read());
    assert_eq!(used.flush(), fresh.flush());
}

#[test]
fn clear_drops_the_reserve() {
    let mut buff = PingpongBuffer::<2, u8>::new();
    buff.append(&[1, 2, 3]).unwrap();
    buff.clear();
    assert_eq!(buff.read(), None);
    assert_eq!(buff.flush(), ([0, 0], 0));
}

#[test]
fn empty_append_changes_nothing() {
    let mut buff = PingpongBuffer::<4, u8>::new();
    assert_eq!(buff.append(&[]), Ok(BufferCapacity::NotFull));
    assert!(buff.is_empty());
    buff.append(&[1, 2]).unwrap();
    assert_eq!(buff.append(&[]), Ok(BufferCapacity::NotFull));
    assert_eq!(buff.position(), 2);
    assert_eq!(buff.flush(), ([1, 2, 0, 0], 2));
}

#[test]
fn slots_without_room() {
    // a slot of no elements is full at once
    let mut buff = PingpongBuffer::<0, u8>::new();
    assert!(buff.is_empty());
    assert!(buff.is_half_full());
    assert_eq!(buff.append(&[]), Ok(BufferCapacity::Full));
    assert_eq!(buff.append(&[]), Err(PingpongBufferError::ReserveFull));
    assert_eq!(buff.read(), Some([]));
    assert_eq!(buff.append(&[1]), Err(PingpongBufferError::Overflow));
    assert!(buff.is_reserve_full());
    assert_eq!(buff.flush(), ([], 0));
}

#[test]
fn slots_alternate() {
    let mut buff = PingpongBuffer::<2, u8>::new();
    let mut seen = Vec::new();
    for round in 0u8..6 {
        let got = buff.append(&[2 * round, 2 * round + 1]);
        assert_eq!(got, Ok(BufferCapacity::Full));
        seen.extend_from_slice(&buff.read().unwrap());
    }
    assert_eq!(seen, vec![0, 1, 2, 3, 4, 5, 6, 7, 8, 9, 10, 11]);
}

#[test]
fn default_is_new() {
    let mut a = PingpongBuffer::<3, i32>::default();
    let mut b = PingpongBuffer::<3, i32>::new();
    assert_eq!(a.position(), b.position());
    assert_eq!(a.is_reserve_full(), b.is_reserve_full());
    assert_eq!(a.append(&[-1, -2, -3, -4]), b.append(&[-1, -2, -3, -4]));
    assert_eq!(a.read(), b.read());
    assert_eq!(a.flush(), ([-4, 0, 0], 1));
    assert_eq!(b.flush(), ([-4, 0, 0], 1));
}
