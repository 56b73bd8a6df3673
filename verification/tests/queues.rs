use ruyi_ur::cq;
use ruyi_ur::err::{EOPNOTSUPP, ETIME};
use ruyi_ur::op::{self, Op};
use ruyi_ur::sq;

fn sqe(user_data: u64) -> sq::Entry {
    let mut e = op::Nop.entry();
    e.set_user_data(user_data);
    e
}

#[test]
fn sq_new_counters() {
    let q = sq::Queue::new(4, 3, 0, 0);
    assert_eq!(q.sqe_head(), 0);
    assert_eq!(q.sqe_tail(), 0);
    assert_eq!(q.shared_tail(), 0);
    assert_eq!(q.staged_len(), 0);
    assert!(!q.is_full());
}

#[test]
fn sq_push_stages_records() {
    let mut q = sq::Queue::new(4, 3, 0, 0);
    assert!(q.push(sqe(1)));
    assert!(q.push(sqe(2)));
    assert_eq!(q.staged_len(), 2);
    assert_eq!(q.staged_at(0).user_data, 1);
    assert_eq!(q.staged_at(1).user_data, 2);
    assert_eq!(q.sqe_tail(), 2);
    // Not yet published.
    assert_eq!(q.shared_tail(), 0);
}

#[test]
fn sq_flush_publishes_tail() {
    let mut q = sq::Queue::new(4, 3, 0, 0);
    q.push(sqe(1));
    q.push(sqe(2));
    let tail = q.flush();
    assert_eq!(tail, 2);
    // After any flush the shared tail equals the reservation tail.
    assert_eq!(q.shared_tail(), q.sqe_tail());
    assert_eq!(q.staged_len(), 0);
    assert_eq!(q.sqe_head(), 2);
}

#[test]
fn sq_fill_exactly_then_full() {
    // A ring of two holds exactly two reservations; the third is refused.
    let mut q = sq::Queue::new(2, 1, 0, 0);
    assert!(q.push(sqe(1)));
    assert!(q.push(sqe(2)));
    assert!(q.is_full());
    assert!(!q.push(sqe(3)));
    assert_eq!(q.staged_len(), 2);
    let tail = q.flush();
    assert_eq!(tail, 2);
}

#[test]
fn sq_full_clears_after_kernel_consumes() {
    let mut q = sq::Queue::new(2, 1, 0, 0);
    q.push(sqe(1));
    q.push(sqe(2));
    q.flush();
    // The kernel has consumed nothing yet: still full.
    let in_flight = q.note_head(0);
    assert_eq!(in_flight, 2);
    assert!(!q.push(sqe(3)));
    // The kernel consumed both: room again.
    let in_flight = q.note_head(2);
    assert_eq!(in_flight, 0);
    assert!(q.push(sqe(3)));
}

#[test]
fn sq_counter_wrap_produces_zero_tail() {
    // With the counters at their maximum, one insertion and a flush wrap
    // the shared tail to zero.
    let mut q = sq::Queue::new(4, 3, 0xFFFF_FFFF, 0xFFFF_FFFF);
    assert!(q.push(sqe(1)));
    assert_eq!(q.sqe_tail(), 0);
    let tail = q.flush();
    assert_eq!(tail, 0);
    assert_eq!(q.shared_tail(), 0);
}

#[test]
fn sq_slot_of_masks_counter() {
    let q = sq::Queue::new(4, 3, 0, 0);
    assert_eq!(q.slot_of(0), 0);
    assert_eq!(q.slot_of(5), 1);
    assert_eq!(q.slot_of(0xFFFF_FFFF), 3);
}

#[test]
fn sq_identity_array_from_zero() {
    let arr = sq::identity_array(4, 3, 0);
    assert_eq!(arr, vec![0, 1, 2, 3]);
}

#[test]
fn sq_identity_array_from_offset_tail() {
    // array[(tail + i) & mask] == i, with tail == 5.
    let arr = sq::identity_array(4, 3, 5);
    assert_eq!(arr, vec![3, 0, 1, 2]);
}

#[test]
fn sq_kernel_flag_words() {
    assert!(sq::need_wakeup(sq::NEED_WAKEUP));
    assert!(!sq::need_wakeup(sq::CQ_OVERFLOW));
    assert!(sq::cq_ring_needs_flush(sq::CQ_OVERFLOW));
    assert!(!sq::cq_ring_needs_flush(sq::NEED_WAKEUP));
}

#[test]
fn sqe_setters_write_fields() {
    let mut e = op::Nop.entry();
    e.set_user_data(42);
    assert_eq!(e.user_data, 42);
    e.set_buf_index(3);
    assert_eq!(e.buf_index_group, 3);
    e.set_splice_fd_in(7);
    assert_eq!(e.splice_fd_in, 7);
    e.set_splice_off_in(99);
    assert_eq!(e.addr_splice_off_in, 99);
    e.set_poll_events(0x301);
    assert_eq!(e.op_flags, 0x301);
}

#[test]
fn error_carries_raw_code() {
    let e = ruyi_ur::Error::new(ETIME);
    assert_eq!(e.raw_os_error(), 62);
    assert_eq!(e.code, ETIME);
}

#[test]
fn cqe_accessors() {
    let e = cq::Entry::new(42, -5, 9);
    assert_eq!(e.user_data(), 42);
    assert_eq!(e.res(), -5);
    assert_eq!(e.flags, 9);
}

#[test]
fn cqe_buffer_id_present() {
    // Bit 0 set: the upper sixteen bits carry the buffer id.
    let e = cq::Entry::new(0, 0, 0x0005_0001);
    assert_eq!(e.buffer_id(), Some(5));
}

#[test]
fn cqe_buffer_id_absent() {
    let e = cq::Entry::new(0, 0, 0x0005_0000);
    assert_eq!(e.buffer_id(), None);
}

#[test]
fn cq_absorb_and_peek() {
    let mut q = cq::Queue::new(4, 3, 0, false);
    q.absorb(2, vec![cq::Entry::new(1, 0, 0), cq::Entry::new(2, 0, 0)]);
    let first = q.peek_cqe().unwrap().unwrap();
    assert_eq!(first.user_data, 1);
    // Peek does not consume; the caller advances.
    let again = q.peek_cqe().unwrap().unwrap();
    assert_eq!(again.user_data, 1);
    q.advance(1);
    assert_eq!(q.shared_head(), 1);
    let second = q.peek_cqe().unwrap().unwrap();
    assert_eq!(second.user_data, 2);
    q.advance(1);
    assert!(q.peek_cqe().unwrap().is_none());
}

#[test]
fn cq_peek_skips_satisfied_sentinel() {
    // An internal timeout that was satisfied (non-negative result) is
    // consumed silently; the next real completion comes out.
    let mut q = cq::Queue::new(4, 3, 0, false);
    q.absorb(2, vec![cq::Entry::new(u64::MAX, 0, 0), cq::Entry::new(7, 0, 0)]);
    let e = q.peek_cqe().unwrap().unwrap();
    assert_eq!(e.user_data, 7);
    assert_eq!(q.shared_head(), 1);
}

#[test]
fn cq_peek_never_returns_sentinel() {
    let mut q = cq::Queue::new(4, 3, 0, false);
    q.absorb(1, vec![cq::Entry::new(u64::MAX, 0, 0)]);
    // Only a sentinel is pending: nothing is surfaced.
    assert!(q.peek_cqe().unwrap().is_none());
    assert_eq!(q.shared_head(), 1);
}

#[test]
fn cq_expired_sentinel_surfaces_os_error() {
    // An expired internal timeout carries -ETIME; the error comes out
    // with the raw code 62 and the sentinel is consumed.
    let mut q = cq::Queue::new(4, 3, 0, false);
    q.absorb(1, vec![cq::Entry::new(u64::MAX, -ETIME, 0)]);
    let err = q.peek_cqe().unwrap_err();
    assert_eq!(err.raw_os_error(), 62);
    assert_eq!(q.shared_head(), 1);
}

#[test]
fn cq_advance_is_additive() {
    // advance(n) then advance(m) moves the shared head as one advance of
    // n + m.
    let mut split = cq::Queue::new(8, 7, 0, false);
    let entries: Vec<cq::Entry> = (0..5).map(|i| cq::Entry::new(i, 0, 0)).collect();
    split.absorb(5, entries.clone());
    split.advance(2);
    split.advance(3);
    let mut whole = cq::Queue::new(8, 7, 0, false);
    whole.absorb(5, entries);
    whole.advance(5);
    assert_eq!(split.shared_head(), whole.shared_head());
}

#[test]
fn cq_reap_ring_plus_one_in_two_batches() {
    // A ring of two can publish at most two completions per kernel
    // transition: the third arrives only in a second batch.
    let mut q = cq::Queue::new(2, 1, 0, false);
    q.absorb(2, vec![cq::Entry::new(1, 0, 0), cq::Entry::new(2, 0, 0)]);
    assert_eq!(q.peek_cqe().unwrap().unwrap().user_data, 1);
    q.advance(1);
    assert_eq!(q.peek_cqe().unwrap().unwrap().user_data, 2);
    q.advance(1);
    assert!(q.peek_cqe().unwrap().is_none());
    q.absorb(3, vec![cq::Entry::new(3, 0, 0)]);
    assert_eq!(q.peek_cqe().unwrap().unwrap().user_data, 3);
}

#[test]
fn cq_eventfd_enabled_without_flags_word() {
    let q = cq::Queue::new(4, 3, 0, false);
    assert!(q.eventfd_enabled(0));
    // Already in the requested state: nothing to store.
    assert_eq!(q.toggle_eventfd(0, true), Ok(None));
    // Actual toggling is unsupported on kernels without the flags word.
    let err = q.toggle_eventfd(0, false).unwrap_err();
    assert_eq!(err.raw_os_error(), EOPNOTSUPP);
}

#[test]
fn cq_toggle_eventfd_with_flags_word() {
    let q = cq::Queue::new(4, 3, 0, true);
    assert!(q.eventfd_enabled(0));
    assert!(!q.eventfd_enabled(cq::F_EVENTFD_DISABLED));
    assert_eq!(q.toggle_eventfd(0, false), Ok(Some(cq::F_EVENTFD_DISABLED)));
    assert_eq!(q.toggle_eventfd(cq::F_EVENTFD_DISABLED, true), Ok(Some(0)));
    assert_eq!(q.toggle_eventfd(0, true), Ok(None));
}
