//! The submission queue: the ring the user fills and the kernel drains.
//!
//! The verified view keeps the private counters and the records staged since
//! the last publication.  The caller performs the shared-memory traffic: it
//! writes each staged record into its ring slot, stores the tail returned by
//! [`Queue::flush`] with release ordering, re-loads the kernel head
//! (acquire) and hands it to [`Queue::note_head`].

use crate::cq::UDATA_TIMEOUT;
use crate::wrap::in_window;
use crate::wrap::is_pow2;
use crate::wrap::lemma_mask_is_mod;
use crate::wrap::lemma_wadd_mod;
use crate::wrap::lemma_window_shift;
use crate::wrap::lemma_wsub_extend;
use crate::wrap::lemma_wsub_mod;
use crate::wrap::wadd;
use crate::wrap::wsub;
use vstd::arithmetic::div_mod::lemma_mod_division_less_than_divisor;
use vstd::arithmetic::div_mod::lemma_mod_twice;
use vstd::arithmetic::div_mod::lemma_small_mod;
use vstd::arithmetic::div_mod::lemma_sub_mod_noop;
use vstd::arithmetic::power2::lemma_pow2_pos;
use vstd::arithmetic::power2::pow2;
use vstd::prelude::*;

verus! {

/// Submission-ring flags bit (kernel to user): the kernel poll thread is
/// parked and `io_uring_enter` must wake it.
pub const NEED_WAKEUP: u32 = 1u32 << 0;

/// Submission-ring flags bit (kernel to user): the completion ring has
/// overflowed.
pub const CQ_OVERFLOW: u32 = 1u32 << 1;

/// Per-entry flag: the fd field indexes the registered-files table.
pub const SQE_FIXED_FILE: u8 = 1u8 << 0;

/// Per-entry flag: issue after the preceding entries have completed.
pub const SQE_IO_DRAIN: u8 = 1u8 << 1;

/// Per-entry flag: link this entry to the next one.
pub const SQE_IO_LINK: u8 = 1u8 << 2;

/// Per-entry flag: like link, but failures do not sever the chain.
pub const SQE_IO_HARDLINK: u8 = 1u8 << 3;

/// Per-entry flag: always issue from asynchronous context.
pub const SQE_ASYNC: u8 = 1u8 << 4;

/// Per-entry flag: select a buffer from the group named in the entry.
pub const SQE_BUFFER_SELECT: u8 = 1u8 << 5;

/// The offsets the kernel reports for the submission ring, in bytes from the
/// start of its mapping.
#[derive(Debug, Clone, Copy, PartialEq, Eq, Structural)]
pub struct Offsets {
    pub head: u32,
    pub tail: u32,
    pub ring_mask: u32,
    pub ring_entries: u32,
    pub flags: u32,
    pub dropped: u32,
    pub array: u32,
}

impl Offsets {
    /// Byte offset of the indirection index array within the ring mapping.
    pub fn array(&self) -> (off: u32)
        ensures
            off == self.array,
    {
        self.array
    }
}

/// A submission record: the fixed 64-byte entry the kernel reads from the
/// submission ring.  The op-flags word is a union in the kernel ABI; here it
/// is the raw 32-bit word, with one setter per interpretation.
#[derive(Debug, Clone, Copy, PartialEq, Eq, Structural)]
pub struct Entry {
    /// The operation code.
    pub opcode: u8,
    /// Per-entry flags; see the `SQE_` constants.
    pub flags: u8,
    /// I/O priority for the request.
    pub ioprio: u16,
    /// File descriptor to operate on.
    pub fd: i32,
    /// File offset, or a second address, depending on the operation.
    pub off_addr2: u64,
    /// Buffer or iovec address, or the splice input offset.
    pub addr_splice_off_in: u64,
    /// Buffer size or iovec count.
    pub len: u32,
    /// The variant-tagged op-flags word; its meaning follows the opcode.
    pub op_flags: u32,
    /// Caller token, returned verbatim on the matching completion.
    pub user_data: u64,
    /// Fixed-buffer index, or buffer-group id, depending on the operation.
    pub buf_index_group: u16,
    /// Credentials registration to issue under, if any.
    pub personality: u16,
    /// Splice input file descriptor.
    pub splice_fd_in: i32,
    /// Reserved padding, always zero.
    pub pad0: u64,
    /// Reserved padding, always zero.
    pub pad1: u64,
}

impl Entry {
    /// The record produced for `opcode` with the four positional fields set
    /// and every op-specific field zero.
    pub open spec fn shaped(opcode: u8, fd: i32, addr: u64, length: u32, offset: u64) -> Entry {
        Entry {
            opcode,
            flags: 0,
            ioprio: 0,
            fd,
            off_addr2: offset,
            addr_splice_off_in: addr,
            len: length,
            op_flags: 0,
            user_data: 0,
            buf_index_group: 0,
            personality: 0,
            splice_fd_in: 0,
            pad0: 0,
            pad1: 0,
        }
    }

    /// Initialises a record with the positional fields of an operation; the
    /// op-specific fields are left zero for the per-operation setters.
    pub fn shape(opcode: u8, fd: i32, addr: u64, length: u32, offset: u64) -> (e: Entry)
        ensures
            e == Entry::shaped(opcode, fd, addr, length, offset),
    {
        Entry {
            opcode,
            flags: 0,
            ioprio: 0,
            fd,
            off_addr2: offset,
            addr_splice_off_in: addr,
            len: length,
            op_flags: 0,
            user_data: 0,
            buf_index_group: 0,
            personality: 0,
            splice_fd_in: 0,
            pad0: 0,
            pad1: 0,
        }
    }

    /// Sets the splice input offset (shares the address field).
    pub fn set_splice_off_in(&mut self, splice_off_in: u64)
        ensures
            *final(self) == (Entry { addr_splice_off_in: splice_off_in, ..*old(self) }),
    {
        self.addr_splice_off_in = splice_off_in;
    }

    /// Sets the splice input file descriptor.
    pub fn set_splice_fd_in(&mut self, splice_fd_in: i32)
        ensures
            *final(self) == (Entry { splice_fd_in, ..*old(self) }),
    {
        self.splice_fd_in = splice_fd_in;
    }

    /// Sets the fixed-buffer index.
    pub fn set_buf_index(&mut self, buf_index: u16)
        ensures
            *final(self) == (Entry { buf_index_group: buf_index, ..*old(self) }),
    {
        self.buf_index_group = buf_index;
    }

    /// Sets the buffer-group id.
    pub fn set_buf_group(&mut self, buf_group: u16)
        ensures
            *final(self) == (Entry { buf_index_group: buf_group, ..*old(self) }),
    {
        self.buf_index_group = buf_group;
    }

    /// Stores fsync flags in the op-flags word.
    pub fn set_fsync_flags(&mut self, fsync_flags: u32)
        ensures
            *final(self) == (Entry { op_flags: fsync_flags, ..*old(self) }),
    {
        self.op_flags = fsync_flags;
    }

    /// Stores the poll event mask in the op-flags word.  The kernel reads
    /// the mask little-endian; this crate targets little-endian machines, so
    /// the raw value is stored as given.
    pub fn set_poll_events(&mut self, poll_events: u16)
        ensures
            *final(self) == (Entry { op_flags: poll_events as u32, ..*old(self) }),
    {
        self.op_flags = poll_events as u32;
    }

    /// Stores sync-file-range flags in the op-flags word.
    pub fn set_sync_range_flags(&mut self, sync_range_flags: u32)
        ensures
            *final(self) == (Entry { op_flags: sync_range_flags, ..*old(self) }),
    {
        self.op_flags = sync_range_flags;
    }

    /// Stores message flags in the op-flags word.
    pub fn set_msg_flags(&mut self, msg_flags: u32)
        ensures
            *final(self) == (Entry { op_flags: msg_flags, ..*old(self) }),
    {
        self.op_flags = msg_flags;
    }

    /// Stores timeout flags in the op-flags word.
    pub fn set_timeout_flags(&mut self, timeout_flags: u32)
        ensures
            *final(self) == (Entry { op_flags: timeout_flags, ..*old(self) }),
    {
        self.op_flags = timeout_flags;
    }

    /// Stores accept flags in the op-flags word.
    pub fn set_accept_flags(&mut self, accept_flags: u32)
        ensures
            *final(self) == (Entry { op_flags: accept_flags, ..*old(self) }),
    {
        self.op_flags = accept_flags;
    }

    /// Stores cancellation flags in the op-flags word.
    pub fn set_cancel_flags(&mut self, cancel_flags: u32)
        ensures
            *final(self) == (Entry { op_flags: cancel_flags, ..*old(self) }),
    {
        self.op_flags = cancel_flags;
    }

    /// Stores open flags in the op-flags word.
    pub fn set_open_flags(&mut self, open_flags: u32)
        ensures
            *final(self) == (Entry { op_flags: open_flags, ..*old(self) }),
    {
        self.op_flags = open_flags;
    }

    /// Stores statx flags in the op-flags word.
    pub fn set_statx_flags(&mut self, statx_flags: u32)
        ensures
            *final(self) == (Entry { op_flags: statx_flags, ..*old(self) }),
    {
        self.op_flags = statx_flags;
    }

    /// Stores the fadvise or madvise advice in the op-flags word.
    pub fn set_fadvise_advice_flags(&mut self, fadvise_advice_flags: u32)
        ensures
            *final(self) == (Entry { op_flags: fadvise_advice_flags, ..*old(self) }),
    {
        self.op_flags = fadvise_advice_flags;
    }

    /// Stores splice flags in the op-flags word.
    pub fn set_splice_flags(&mut self, splice_flags: u32)
        ensures
            *final(self) == (Entry { op_flags: splice_flags, ..*old(self) }),
    {
        self.op_flags = splice_flags;
    }

    /// Sets the caller token returned on the matching completion.  The
    /// all-ones value is reserved for the library's internal timeouts and
    /// may not be used.
    pub fn set_user_data(&mut self, user_data: u64)
        requires
            user_data != UDATA_TIMEOUT,
        ensures
            *final(self) == (Entry { user_data, ..*old(self) }),
    {
        self.user_data = user_data;
    }
}

/// Whether the submission-ring flags word asks for a poll-thread wakeup.
pub fn need_wakeup(kflags: u32) -> (b: bool)
    ensures
        b == (kflags & NEED_WAKEUP != 0),
{
    kflags & NEED_WAKEUP != 0
}

/// Whether the submission-ring flags word reports completion-ring overflow.
pub fn cq_ring_needs_flush(kflags: u32) -> (b: bool)
    ensures
        b == (kflags & CQ_OVERFLOW != 0),
{
    kflags & CQ_OVERFLOW != 0
}

/// The contents of the kernel's indirection index array as written once at
/// ring construction: the identity permutation for a full ring, laid out so
/// that for every `i` below the ring size, the slot named by `tail + i`
/// holds the value `i`.  The array is never rewritten afterwards.
pub fn identity_array(ring_entries: u32, ring_mask: u32, tail: u32) -> (arr: Vec<u32>)
    requires
        is_pow2(ring_entries),
        ring_mask == ring_entries - 1,
    ensures
        arr@.len() == ring_entries,
        forall|i: u32|
            i < ring_entries ==> arr@[#[trigger] (wadd(tail, i) % ring_entries) as int] == i,
{
    proof {
        let n = choose|n: nat| n < 32 && ring_entries == pow2(n);
        lemma_pow2_pos(n);
    }
    let mut arr: Vec<u32> = Vec::new();
    let mut k: u32 = 0;
    while k < ring_entries
        invariant
            ring_entries >= 1,
            k <= ring_entries,
            arr@.len() == k,
            forall|j: u32| j < k ==> arr@[j as int] == wsub(j, tail) % ring_entries,
        decreases ring_entries - k,
    {
        let v = k.wrapping_sub(tail) % ring_entries;
        arr.push(v);
        k = k + 1;
    }
    proof {
        let e = ring_entries as int;
        assert forall|i: u32|
            i < ring_entries implies arr@[#[trigger] (wadd(tail, i) % ring_entries) as int]
            == i by {
            let s = wadd(tail, i) % ring_entries;
            lemma_mod_division_less_than_divisor(wadd(tail, i) as int, e);
            let su = s as u32;
            assert(arr@[s as int] == wsub(su, tail) % ring_entries);
            lemma_wsub_mod(su, tail, ring_entries);
            lemma_wadd_mod(tail, i, ring_entries);
            let x = tail + i;
            // su == x % e; show (su - tail) % e == i.
            lemma_sub_mod_noop(x % e, tail as int, e);
            lemma_sub_mod_noop(x, tail as int, e);
            lemma_mod_twice(x, e);
            assert((su - tail) % e == (x - tail) % e);
            lemma_small_mod(i as nat, ring_entries as nat);
        }
    }
    arr
}

/// The user-space view of the submission ring.
pub struct Queue {
    /// Ring size minus one; slot index is `counter & ring_mask`.
    pub ring_mask: u32,
    /// Ring size: a power of two.
    pub ring_entries: u32,
    /// The kernel head as last observed.
    pub khead_shadow: u32,
    /// The value last published to the shared tail.
    pub ktail_shadow: u32,
    /// Counter up to which entries have been published.
    pub sqe_head: u32,
    /// Counter up to which entries have been reserved.
    pub sqe_tail: u32,
    /// Records reserved since the last flush, oldest first; record `i`
    /// belongs in the slot named by `sqe_head + i`.
    pub staged: Vec<Entry>,
}

impl Queue {
    /// The counters describe a plausible ring: the observed kernel head, the
    /// published tail and the reservation tail lie in order, at most
    /// `ring_entries` apart, and the staged records mirror the unpublished
    /// span.
    pub open spec fn wf(&self) -> bool {
        &&& is_pow2(self.ring_entries)
        &&& self.ring_mask == self.ring_entries - 1
        &&& self.ktail_shadow == self.sqe_head
        &&& self.staged@.len() == wsub(self.sqe_tail, self.sqe_head)
        &&& in_window(self.khead_shadow, self.sqe_head, self.sqe_tail)
        &&& wsub(self.sqe_tail, self.khead_shadow) <= self.ring_entries
    }

    /// How many reservations stand against the last observed kernel head.
    pub open spec fn reserved(&self) -> u32 {
        wsub(self.sqe_tail, self.khead_shadow)
    }

    /// Builds the view from the geometry the kernel reported and the head
    /// and tail counters observed at setup.  The kernel starts them equal.
    pub fn new(ring_entries: u32, ring_mask: u32, head: u32, tail: u32) -> (q: Queue)
        requires
            is_pow2(ring_entries),
            ring_mask == ring_entries - 1,
            wsub(tail, head) <= ring_entries,
        ensures
            q.wf(),
            q.ring_entries == ring_entries,
            q.ring_mask == ring_mask,
            q.khead_shadow == head,
            q.ktail_shadow == tail,
            q.sqe_head == tail,
            q.sqe_tail == tail,
            q.staged@.len() == 0,
    {
        Queue {
            ring_mask,
            ring_entries,
            khead_shadow: head,
            ktail_shadow: tail,
            sqe_head: tail,
            sqe_tail: tail,
            staged: Vec::new(),
        }
    }

    /// The ring is full against the last observed kernel head; the caller
    /// should re-load the shared head, hand it to [`Queue::note_head`] and
    /// retry once before giving up.
    pub fn is_full(&self) -> (b: bool)
        requires
            self.wf(),
        ensures
            b == (self.reserved() == self.ring_entries),
    {
        self.sqe_tail.wrapping_sub(self.khead_shadow) == self.ring_entries
    }

    /// Reserves the next free slot and stages `e` for it.  Returns false,
    /// changing nothing, when the ring is full against the last observed
    /// kernel head.
    pub fn push(&mut self, e: Entry) -> (ok: bool)
        requires
            old(self).wf(),
        ensures
            final(self).wf(),
            ok == (old(self).reserved() < old(self).ring_entries),
            final(self).khead_shadow == old(self).khead_shadow,
            final(self).ktail_shadow == old(self).ktail_shadow,
            final(self).sqe_head == old(self).sqe_head,
            final(self).ring_entries == old(self).ring_entries,
            final(self).ring_mask == old(self).ring_mask,
            ok ==> final(self).sqe_tail == wadd(old(self).sqe_tail, 1) && final(self).staged@
                == old(self).staged@.push(e),
            !ok ==> *final(self) == *old(self),
    {
        if self.sqe_tail.wrapping_sub(self.khead_shadow) == self.ring_entries {
            return false;
        }
        proof {
            lemma_wsub_extend(self.sqe_tail, self.sqe_head, 1);
            lemma_wsub_extend(self.sqe_tail, self.khead_shadow, 1);
        }
        self.staged.push(e);
        self.sqe_tail = self.sqe_tail.wrapping_add(1);
        true
    }

    /// Reserves a slot and initialises it with the positional fields of an
    /// operation, leaving the op-specific fields zero.  Returns false,
    /// changing nothing, when the ring is full.
    pub fn prep_rw(&mut self, opcode: u8, fd: i32, addr: u64, length: u32, offset: u64) -> (ok:
        bool)
        requires
            old(self).wf(),
        ensures
            final(self).wf(),
            ok == (old(self).reserved() < old(self).ring_entries),
            final(self).khead_shadow == old(self).khead_shadow,
            final(self).ktail_shadow == old(self).ktail_shadow,
            final(self).sqe_head == old(self).sqe_head,
            final(self).ring_entries == old(self).ring_entries,
            final(self).ring_mask == old(self).ring_mask,
            ok ==> final(self).sqe_tail == wadd(old(self).sqe_tail, 1) && final(self).staged@
                == old(self).staged@.push(Entry::shaped(opcode, fd, addr, length, offset)),
            !ok ==> *final(self) == *old(self),
    {
        self.push(Entry::shape(opcode, fd, addr, length, offset))
    }

    /// Publishes every staged record: the shared tail catches up with the
    /// reservation tail.  Returns the tail value the caller must store to
    /// the shared ring with release ordering, after writing each staged
    /// record into its slot.
    pub fn flush(&mut self) -> (tail: u32)
        requires
            old(self).wf(),
        ensures
            final(self).wf(),
            tail == old(self).sqe_tail,
            final(self).ktail_shadow == final(self).sqe_tail,
            final(self).sqe_tail == old(self).sqe_tail,
            final(self).sqe_head == old(self).sqe_tail,
            final(self).khead_shadow == old(self).khead_shadow,
            final(self).staged@.len() == 0,
            final(self).ring_entries == old(self).ring_entries,
            final(self).ring_mask == old(self).ring_mask,
    {
        self.staged.clear();
        self.sqe_head = self.sqe_tail;
        self.ktail_shadow = self.sqe_tail;
        self.ktail_shadow
    }

    /// Takes in a freshly observed kernel head and returns how many
    /// published entries the kernel has yet to consume.  The kernel head
    /// only moves forward, and never beyond the published tail.
    pub fn note_head(&mut self, khead: u32) -> (in_flight: u32)
        requires
            old(self).wf(),
            in_window(old(self).khead_shadow, khead, old(self).ktail_shadow),
        ensures
            final(self).wf(),
            final(self).khead_shadow == khead,
            final(self).ktail_shadow == old(self).ktail_shadow,
            final(self).sqe_head == old(self).sqe_head,
            final(self).sqe_tail == old(self).sqe_tail,
            final(self).staged == old(self).staged,
            final(self).ring_entries == old(self).ring_entries,
            final(self).ring_mask == old(self).ring_mask,
            in_flight == wsub(old(self).ktail_shadow, khead),
    {
        proof {
            lemma_window_shift(
                self.khead_shadow,
                khead,
                self.sqe_head,
                self.sqe_tail,
            );
        }
        self.khead_shadow = khead;
        self.ktail_shadow.wrapping_sub(khead)
    }

    /// The slot index a counter value names: the counter reduced modulo the
    /// ring size, computed as the kernel does with the ring mask.
    pub fn slot_of(&self, counter: u32) -> (idx: usize)
        requires
            self.wf(),
        ensures
            idx == counter % self.ring_entries,
            idx < self.ring_entries,
    {
        proof {
            lemma_mask_is_mod(counter, self.ring_entries, self.ring_mask);
        }
        (counter & self.ring_mask) as usize
    }

    /// How many records are staged and unpublished.
    pub fn staged_len(&self) -> (n: usize)
        ensures
            n == self.staged@.len(),
    {
        self.staged.len()
    }

    /// The `i`-th staged record; it belongs in the slot named by
    /// `sqe_head + i`.
    pub fn staged_at(&self, i: usize) -> (e: Entry)
        requires
            i < self.staged@.len(),
        ensures
            e == self.staged@[i as int],
    {
        self.staged[i]
    }

    /// The counter of the first staged record's slot.
    pub fn sqe_head(&self) -> (h: u32)
        ensures
            h == self.sqe_head,
    {
        self.sqe_head
    }

    /// The reservation tail.
    pub fn sqe_tail(&self) -> (t: u32)
        ensures
            t == self.sqe_tail,
    {
        self.sqe_tail
    }

    /// The value last published (or, right after [`Queue::flush`], to be
    /// published) to the shared tail word.
    pub fn shared_tail(&self) -> (t: u32)
        ensures
            t == self.ktail_shadow,
    {
        self.ktail_shadow
    }
}

/// Each successful reservation raises the outstanding count by exactly
/// one: starting with nothing outstanding, exactly `ring_entries`
/// reservations fit before [`Queue::push`] first refuses.
pub proof fn lemma_reserved_step(q: &Queue)
    requires
        q.wf(),
        q.reserved() < q.ring_entries,
    ensures
        wsub(wadd(q.sqe_tail, 1), q.khead_shadow) == q.reserved() + 1,
{
    lemma_wsub_extend(q.sqe_tail, q.khead_shadow, 1);
}

/// In every well-formed submission-queue state, the span from the last
/// observed kernel head to the reservation tail never exceeds the ring
/// size.
pub proof fn lemma_sq_bound(q: &Queue)
    requires
        q.wf(),
    ensures
        wsub(q.sqe_tail, q.khead_shadow) <= q.ring_entries,
{
}

} // verus!
