//! The ring driver: capability probing, the enter decision, and the reap
//! loop that ties submission and completion together.
//!
//! The driver owns the two queue views and the setup flags.  System calls
//! and shared-memory loads happen outside the verified core: the driver
//! says which kernel transition is required ([`EnterCall`]), and the caller
//! performs it and reports what the kernel accepted.

use crate::cq;
use crate::cq::UDATA_TIMEOUT;
use crate::err::Error;
use crate::err::EAGAIN;
use crate::op;
use crate::op::Op;
use crate::params::SETUP_IOPOLL;
use crate::params::SETUP_SQPOLL;
use crate::params::UringBuilder;
use crate::sq;
use crate::wrap::in_window;
use crate::wrap::lemma_or_basics;
use crate::wrap::lemma_wadd_assoc;
use crate::wrap::wadd;
use crate::wrap::wsub;
use vstd::prelude::*;

verus! {

/// Enter flag: reap completions (block until `min_complete` are there).
pub const ENTER_GETEVENTS: u32 = 1u32 << 0;

/// Enter flag: wake the kernel's submission poll thread.
pub const ENTER_SQ_WAKEUP: u32 = 1u32 << 1;

/// Registration opcode: register fixed buffers.
pub const REGISTER_BUFFERS: u32 = 0;

/// Registration opcode: unregister fixed buffers.
pub const UNREGISTER_BUFFERS: u32 = 1;

/// Registration opcode: register a file table.
pub const REGISTER_FILES: u32 = 2;

/// Registration opcode: unregister the file table.
pub const UNREGISTER_FILES: u32 = 3;

/// Registration opcode: register an eventfd for completion posting.
pub const REGISTER_EVENTFD: u32 = 4;

/// Registration opcode: unregister the eventfd.
pub const UNREGISTER_EVENTFD: u32 = 5;

/// Registration opcode: update part of the registered file table.
pub const REGISTER_FILES_UPDATE: u32 = 6;

/// Registration opcode: register an eventfd notified only for async
/// completions.
pub const REGISTER_EVENTFD_ASYNC: u32 = 7;

/// Registration opcode: fill a capability probe.
pub const REGISTER_PROBE: u32 = 8;

/// Registration opcode: register the current credentials.
pub const REGISTER_PERSONALITY: u32 = 9;

/// Registration opcode: unregister a credentials id.
pub const UNREGISTER_PERSONALITY: u32 = 10;

/// The number of opcode slots a capability probe reports: the full opcode
/// byte range.
pub const PROBE_OPS_LEN: usize = 256;

/// Probe per-op flag: the kernel implements the opcode.
pub const PROBE_OP_SUPPORTED: u16 = 1u16 << 0;

/// The payload of a files-update registration: the table offset to write
/// at and the address of the descriptor array.
#[derive(Debug, Clone, Copy, PartialEq, Eq, Structural)]
pub struct FilesUpdate {
    pub offset: u32,
    pub resv: u32,
    pub fds: u64,
}

/// Builds the files-update payload; the reserved word stays zero.
pub fn files_update(offset: u32, fds: u64) -> (fu: FilesUpdate)
    ensures
        fu == (FilesUpdate { offset, resv: 0, fds }),
{
    FilesUpdate { offset, resv: 0, fds }
}

/// The kernel's answer to a capability probe: the last opcode it knows and
/// one flags word per opcode slot.
#[derive(Debug, Clone)]
pub struct Probe {
    pub last_op: u8,
    pub ops: Vec<u16>,
}

impl Probe {
    /// The probe covers the full opcode byte range.
    pub open spec fn wf(&self) -> bool {
        self.ops@.len() == PROBE_OPS_LEN
    }

    /// The kernel supports `opcode`: it lies at or below the last known
    /// opcode and its slot carries the supported flag.
    pub open spec fn supported_spec(&self, opcode: u8) -> bool {
        opcode <= self.last_op && self.ops@[opcode as int] & PROBE_OP_SUPPORTED != 0
    }

    /// Builds a probe from the fields the kernel filled.
    pub fn new(last_op: u8, ops: Vec<u16>) -> (p: Probe)
        requires
            ops@.len() == PROBE_OPS_LEN,
        ensures
            p.wf(),
            p.last_op == last_op,
            p.ops == ops,
    {
        Probe { last_op, ops }
    }

    /// Whether the kernel supports `opcode`.
    pub fn supported(&self, opcode: u8) -> (r: bool)
        requires
            self.wf(),
        ensures
            r == self.supported_spec(opcode),
    {
        opcode <= self.last_op && self.ops[opcode as usize] & PROBE_OP_SUPPORTED != 0
    }

    /// Whether the kernel supports the operation type `T`.
    pub fn support<T: Op>(&self) -> (r: bool)
        requires
            self.wf(),
        ensures
            r == self.supported_spec(T::code_spec()),
    {
        let c = T::code();
        self.supported(c)
    }
}

/// No opcode above the last one a probe reports is ever supported.
pub proof fn lemma_unsupported_above_last(p: &Probe, opcode: u8)
    requires
        opcode > p.last_op,
    ensures
        !p.supported_spec(opcode),
{
}

/// A kernel transition the driver asks for: the arguments of one
/// `io_uring_enter` call.
#[derive(Debug, Clone, Copy, PartialEq, Eq, Structural)]
pub struct EnterCall {
    pub to_submit: u32,
    pub min_complete: u32,
    pub flags: u32,
}

/// The running state of one reap loop.
#[derive(Debug, Clone, Copy, PartialEq, Eq, Structural)]
pub struct Reap {
    /// Submissions the kernel has not yet accepted.
    pub submit: u32,
    /// The completion count the caller originally asked to wait for.
    pub to_wait: u32,
    /// Completions still to wait for in the next kernel transition.
    pub wait_nr: u32,
    /// A completion copied out in the current round, not yet consumed.
    pub peeked: Option<cq::Entry>,
}

/// Starts a reap of `to_wait` completions with `submit` submissions still
/// to hand to the kernel.
pub fn begin_reap(submit: u32, to_wait: u32) -> (r: Reap)
    ensures
        r == (Reap { submit, to_wait, wait_nr: to_wait, peeked: None::<cq::Entry> }),
{
    Reap { submit, to_wait, wait_nr: to_wait, peeked: None }
}

/// What one reap round asks the caller to do next.
#[derive(Debug, Clone, Copy, PartialEq, Eq, Structural)]
pub enum Turn {
    /// The reap is finished; hand this completion to the caller.
    Done(cq::Entry),
    /// The reap failed with this operating-system error.
    Failed(Error),
    /// Perform this kernel transition, then report the accepted count to
    /// [`Uring::reap_enter_done`].
    Enter(EnterCall),
    /// Nothing to hand out and no transition due: observe the completion
    /// ring again and take another step.
    Retry,
}

/// The wakeup bit the enter decision adds: when a plain enter is not
/// already forced by pending submissions, but the kernel poll thread
/// reports itself parked and must be woken.
pub open spec fn wakeup_bit(setup: u32, submitted: u32, sq_kflags: u32) -> u32 {
    if (setup & SETUP_SQPOLL != 0 || submitted == 0) && sq_kflags & sq::NEED_WAKEUP != 0 {
        ENTER_SQ_WAKEUP
    } else {
        0
    }
}

/// The ring driver: the two queue views and the setup flags.
pub struct Uring {
    /// The submission queue view.
    pub sq: sq::Queue,
    /// The completion queue view.
    pub cq: cq::Queue,
    /// The setup flags the ring was built with.
    pub flags: u32,
}

impl Uring {
    /// Both queue views are well-formed.
    pub open spec fn wf(&self) -> bool {
        self.sq.wf() && self.cq.wf()
    }

    /// Starts a configuration asking for `entries` submission slots.
    pub fn entries(entries: u32) -> (b: UringBuilder)
        ensures
            b == (UringBuilder {
                entries,
                cq_entries: 0,
                flags: 0,
                sq_thread_cpu: 0,
                sq_thread_idle: 0,
                wq_fd: 0,
            }),
    {
        UringBuilder::new(entries)
    }

    /// Assembles the driver from its parts.
    pub fn new(sq: sq::Queue, cq: cq::Queue, flags: u32) -> (u: Uring)
        requires
            sq.wf(),
            cq.wf(),
        ensures
            u.wf(),
            u.sq == sq,
            u.cq == cq,
            u.flags == flags,
    {
        Uring { sq, cq, flags }
    }

    /// The submission queue view.
    pub fn sq(&self) -> (q: &sq::Queue)
        ensures
            q == &self.sq,
    {
        &self.sq
    }

    /// The completion queue view.
    pub fn cq(&self) -> (q: &cq::Queue)
        ensures
            q == &self.cq,
    {
        &self.cq
    }

    /// The setup flags the ring was built with.
    pub fn setup_flags(&self) -> (f: u32)
        ensures
            f == self.flags,
    {
        self.flags
    }

    /// Stages a fully shaped submission record; false when the ring is
    /// full against the last observed kernel head.
    pub fn push(&mut self, e: sq::Entry) -> (ok: bool)
        requires
            old(self).wf(),
        ensures
            final(self).wf(),
            final(self).cq == old(self).cq,
            final(self).flags == old(self).flags,
            ok == (old(self).sq.reserved() < old(self).sq.ring_entries),
            final(self).sq.khead_shadow == old(self).sq.khead_shadow,
            final(self).sq.ktail_shadow == old(self).sq.ktail_shadow,
            final(self).sq.sqe_head == old(self).sq.sqe_head,
            final(self).sq.ring_entries == old(self).sq.ring_entries,
            final(self).sq.ring_mask == old(self).sq.ring_mask,
            ok ==> final(self).sq.sqe_tail == wadd(old(self).sq.sqe_tail, 1)
                && final(self).sq.staged@ == old(self).sq.staged@.push(e),
            !ok ==> final(self).sq == old(self).sq,
    {
        self.sq.push(e)
    }

    /// Shapes an operation's record and stages it; false when the ring is
    /// full.
    pub fn prepare<T: Op>(&mut self, operation: &T) -> (ok: bool)
        requires
            old(self).wf(),
        ensures
            final(self).wf(),
            final(self).cq == old(self).cq,
            final(self).flags == old(self).flags,
            ok == (old(self).sq.reserved() < old(self).sq.ring_entries),
            final(self).sq.khead_shadow == old(self).sq.khead_shadow,
            final(self).sq.ktail_shadow == old(self).sq.ktail_shadow,
            final(self).sq.sqe_head == old(self).sq.sqe_head,
            final(self).sq.ring_entries == old(self).sq.ring_entries,
            final(self).sq.ring_mask == old(self).sq.ring_mask,
            ok ==> final(self).sq.sqe_tail == wadd(old(self).sq.sqe_tail, 1)
                && final(self).sq.staged@ == old(self).sq.staged@.push(operation.entry_spec()),
            !ok ==> final(self).sq == old(self).sq,
    {
        let e = operation.entry();
        self.sq.push(e)
    }

    /// Publishes the staged submissions; returns the tail to store to the
    /// shared ring (release) after the staged records are written to their
    /// slots.  Afterwards the shared tail equals the reservation tail.
    pub fn flush(&mut self) -> (tail: u32)
        requires
            old(self).wf(),
        ensures
            final(self).wf(),
            final(self).cq == old(self).cq,
            final(self).flags == old(self).flags,
            tail == old(self).sq.sqe_tail,
            final(self).sq.ktail_shadow == final(self).sq.sqe_tail,
            final(self).sq.sqe_tail == old(self).sq.sqe_tail,
            final(self).sq.sqe_head == old(self).sq.sqe_tail,
            final(self).sq.khead_shadow == old(self).sq.khead_shadow,
            final(self).sq.staged@.len() == 0,
            final(self).sq.ring_entries == old(self).sq.ring_entries,
            final(self).sq.ring_mask == old(self).sq.ring_mask,
    {
        self.sq.flush()
    }

    /// Takes in a freshly observed kernel head; returns how many published
    /// submissions the kernel has yet to consume.
    pub fn note_head(&mut self, khead: u32) -> (in_flight: u32)
        requires
            old(self).wf(),
            in_window(old(self).sq.khead_shadow, khead, old(self).sq.ktail_shadow),
        ensures
            final(self).wf(),
            final(self).cq == old(self).cq,
            final(self).flags == old(self).flags,
            final(self).sq.khead_shadow == khead,
            final(self).sq.ktail_shadow == old(self).sq.ktail_shadow,
            final(self).sq.sqe_head == old(self).sq.sqe_head,
            final(self).sq.sqe_tail == old(self).sq.sqe_tail,
            final(self).sq.staged == old(self).sq.staged,
            final(self).sq.ring_entries == old(self).sq.ring_entries,
            final(self).sq.ring_mask == old(self).sq.ring_mask,
            in_flight == wsub(old(self).sq.ktail_shadow, khead),
    {
        self.sq.note_head(khead)
    }

    /// Takes in a freshly observed completion tail and the records the
    /// kernel published up to it, oldest first.
    pub fn absorb(&mut self, ktail: u32, fresh: Vec<cq::Entry>)
        requires
            old(self).wf(),
            fresh@.len() == wsub(ktail, old(self).cq.ktail_shadow),
            wsub(ktail, old(self).cq.khead_shadow) <= old(self).cq.ring_entries,
            in_window(old(self).cq.khead_shadow, old(self).cq.ktail_shadow, ktail),
        ensures
            final(self).wf(),
            final(self).sq == old(self).sq,
            final(self).flags == old(self).flags,
            final(self).cq.ktail_shadow == ktail,
            final(self).cq.khead_shadow == old(self).cq.khead_shadow,
            final(self).cq.pending@ == old(self).cq.pending@ + fresh@,
            final(self).cq.ring_entries == old(self).cq.ring_entries,
            final(self).cq.ring_mask == old(self).cq.ring_mask,
            final(self).cq.has_kflags == old(self).cq.has_kflags,
    {
        self.cq.absorb(ktail, fresh)
    }

    /// Whether a kernel transition is required to publish `submitted`
    /// entries, given the submission-ring flags word as just observed.
    /// Sets the wakeup bit in `flags` when the kernel poll thread must be
    /// woken instead.
    pub fn need_enter(&self, submitted: u32, sq_kflags: u32, flags: &mut u32) -> (need: bool)
        ensures
            ({
                let sqpoll = self.flags & SETUP_SQPOLL != 0;
                let wakeup = sq_kflags & sq::NEED_WAKEUP != 0;
                if !sqpoll && submitted > 0 {
                    need && *final(flags) == *old(flags)
                } else if wakeup {
                    need && *final(flags) == *old(flags) | ENTER_SQ_WAKEUP
                } else {
                    !need && *final(flags) == *old(flags)
                }
            }),
    {
        if self.flags & SETUP_SQPOLL == 0 && submitted > 0 {
            return true;
        }
        if sq::need_wakeup(sq_kflags) {
            *flags = *flags | ENTER_SQ_WAKEUP;
            return true;
        }
        false
    }

    /// Decides the kernel transition for a submit: after a flush left
    /// `in_flight` entries unconsumed, with `wait_nr` completions to wait
    /// for, and the submission-ring flags word as just observed.  `None`
    /// means no call is needed and the submit count is `in_flight` itself.
    pub fn submit_plan(&self, in_flight: u32, wait_nr: u32, sq_kflags: u32) -> (plan: Option<
        EnterCall,
    >)
        ensures
            ({
                let sqpoll = self.flags & SETUP_SQPOLL != 0;
                let iopoll = self.flags & SETUP_IOPOLL != 0;
                let need = (!sqpoll && in_flight > 0) || (sq_kflags & sq::NEED_WAKEUP != 0);
                let wak = wakeup_bit(self.flags, in_flight, sq_kflags);
                let gev: u32 = if wait_nr > 0 || iopoll {
                    ENTER_GETEVENTS
                } else {
                    0
                };
                if need || wait_nr > 0 {
                    plan == Some(EnterCall {
                        to_submit: in_flight,
                        min_complete: wait_nr,
                        flags: wak | gev,
                    })
                } else {
                    plan is None
                }
            }),
    {
        let mut fl: u32 = 0;
        let need = self.need_enter(in_flight, sq_kflags, &mut fl);
        if need || wait_nr > 0 {
            if wait_nr > 0 || self.flags & SETUP_IOPOLL != 0 {
                fl = fl | ENTER_GETEVENTS;
            }
            proof {
                lemma_or_basics(ENTER_SQ_WAKEUP, 0);
                lemma_or_basics(ENTER_SQ_WAKEUP, ENTER_GETEVENTS);
                lemma_or_basics(ENTER_GETEVENTS, 0);
                lemma_or_basics(0, 0);
            }
            Some(EnterCall { to_submit: in_flight, min_complete: wait_nr, flags: fl })
        } else {
            None
        }
    }

    /// Consumes the peeked completion, if one is stored, and ends the
    /// round: `Done` with it, or `Retry` when the round found nothing.
    fn reap_finish(&mut self, r: &mut Reap) -> (t: Turn)
        requires
            old(self).wf(),
            old(r).peeked matches Some(e) ==> old(self).cq.pending@.len() > 0 && old(self).cq.pending@[0] == e,
        ensures
            final(self).wf(),
            final(self).sq == old(self).sq,
            final(self).flags == old(self).flags,
            final(self).cq.ktail_shadow == old(self).cq.ktail_shadow,
            final(self).cq.ring_entries == old(self).cq.ring_entries,
            final(self).cq.ring_mask == old(self).cq.ring_mask,
            final(self).cq.has_kflags == old(self).cq.has_kflags,
            final(r).submit == old(r).submit,
            final(r).to_wait == old(r).to_wait,
            final(r).wait_nr == old(r).wait_nr,
            final(r).peeked is None,
            match old(r).peeked {
                Some(e) => t == Turn::Done(e) && final(self).cq.pending@ == old(self).cq.pending@.skip(1) && final(self).cq.khead_shadow == wadd(
                    old(self).cq.khead_shadow,
                    1,
                ),
                None => t == Turn::Retry && final(self).cq == old(self).cq,
            },
    {
        match r.peeked {
            Some(e) => {
                self.cq.advance(1);
                r.peeked = None;
                Turn::Done(e)
            },
            None => Turn::Retry,
        }
    }

    /// One round of the reap loop, up to the enter decision.
    ///
    /// Scans the pending completions: internal timeouts are consumed (a
    /// negative one fails the reap with its error), the first real
    /// completion is copied out and counted against `wait_nr`.  When
    /// nothing is pending and nothing was asked for, fails with the
    /// "try again" error.  Then: if completions are still awaited or
    /// submissions still unaccepted, asks for the kernel transition that
    /// moves things forward; otherwise ends the round with the copied-out
    /// completion or asks the caller to observe the ring again.
    pub fn reap_step(&mut self, r: &mut Reap, sq_kflags: u32) -> (t: Turn)
        requires
            old(self).wf(),
        ensures
            final(self).wf(),
            final(self).sq == old(self).sq,
            final(self).flags == old(self).flags,
            final(self).cq.ktail_shadow == old(self).cq.ktail_shadow,
            final(self).cq.ring_entries == old(self).cq.ring_entries,
            final(self).cq.ring_mask == old(self).cq.ring_mask,
            final(self).cq.has_kflags == old(self).cq.has_kflags,
            final(r).submit == old(r).submit,
            final(r).to_wait == old(r).to_wait,
            ({
                let s = old(self).cq.pending@;
                let k = cq::reap_index(s);
                let found = k < s.len() && !cq::is_sentinel(s[k]);
                let sentinel_err = k < s.len() && cq::is_sentinel(s[k]) && s[k].res < 0;
                let starved = k == s.len() && old(r).to_wait == 0 && old(r).submit == 0;
                let new_wait = if found && old(r).wait_nr > 0 {
                    (old(r).wait_nr - 1) as u32
                } else {
                    old(r).wait_nr
                };
                let must_enter = new_wait > 0 || old(r).submit > 0;
                let wak = if old(r).submit > 0 {
                    wakeup_bit(old(self).flags, old(r).submit, sq_kflags)
                } else {
                    0u32
                };
                let gev: u32 = if new_wait > 0 {
                    ENTER_GETEVENTS
                } else {
                    0
                };
                match t {
                    Turn::Failed(e) => {
                        ||| (sentinel_err && e.code == cq::errno_of(s[k].res) && final(self).cq.pending@ == s.skip(k + 1) && final(self).cq.khead_shadow == wadd(
                            old(self).cq.khead_shadow,
                            (k + 1) as u32,
                        ))
                        ||| (starved && e.code == EAGAIN && final(self).cq.pending@.len() == 0
                            && final(self).cq.khead_shadow == wadd(
                            old(self).cq.khead_shadow,
                            k as u32,
                        ))
                    },
                    Turn::Enter(c) => {
                        &&& !sentinel_err
                        &&& !starved
                        &&& must_enter
                        &&& final(r).wait_nr == new_wait
                        &&& final(r).peeked == (if found {
                            Some(s[k])
                        } else {
                            None::<cq::Entry>
                        })
                        &&& (if found {
                            final(self).cq.pending@ == s.skip(k)
                        } else {
                            final(self).cq.pending@.len() == 0
                        })
                        &&& final(self).cq.khead_shadow == wadd(old(self).cq.khead_shadow, k as u32)
                        &&& c == (EnterCall {
                            to_submit: old(r).submit,
                            min_complete: new_wait,
                            flags: wak | gev,
                        })
                    },
                    Turn::Done(e) => {
                        &&& found
                        &&& e == s[k]
                        &&& e.user_data != UDATA_TIMEOUT
                        &&& !must_enter
                        &&& final(r).wait_nr == new_wait
                        &&& final(r).peeked is None
                        &&& final(self).cq.pending@ == s.skip(k + 1)
                        &&& final(self).cq.khead_shadow == wadd(
                            old(self).cq.khead_shadow,
                            (k + 1) as u32,
                        )
                    },
                    Turn::Retry => {
                        &&& k == s.len()
                        &&& !starved
                        &&& !must_enter
                        &&& final(r).wait_nr == new_wait
                        &&& final(r).peeked is None
                        &&& final(self).cq.pending@.len() == 0
                        &&& final(self).cq.khead_shadow == wadd(old(self).cq.khead_shadow, k as u32)
                    },
                }
            }),
    {
        let ghost s = old(self).cq.pending@;
        let ghost k = cq::reap_index(s);
        let ghost h0 = old(self).cq.khead_shadow;
        proof {
            cq::lemma_reap_index_bounds(s);
        }
        match self.cq.peek_cqe() {
            Err(e) => {
                return Turn::Failed(e);
            },
            Ok(opt) => match opt {
                Some(c) => {
                    if r.wait_nr > 0 {
                        r.wait_nr = r.wait_nr - 1;
                    }
                    r.peeked = Some(c);
                    proof {
                        assert(s.skip(k)[0] == s[k]);
                    }
                },
                None => {
                    if r.to_wait == 0 && r.submit == 0 {
                        return Turn::Failed(Error::new(EAGAIN));
                    }
                    r.peeked = None;
                },
            },
        }
        let mut fl: u32 = 0;
        if r.wait_nr > 0 {
            fl = fl | ENTER_GETEVENTS;
        }
        if r.submit > 0 {
            let _ = self.need_enter(r.submit, sq_kflags, &mut fl);
        }
        if r.wait_nr > 0 || r.submit > 0 {
            proof {
                lemma_or_basics(ENTER_SQ_WAKEUP, ENTER_GETEVENTS);
                lemma_or_basics(ENTER_SQ_WAKEUP, 0);
                lemma_or_basics(ENTER_GETEVENTS, 0);
                lemma_or_basics(0, 0);
            }
            return Turn::Enter(
                EnterCall { to_submit: r.submit, min_complete: r.wait_nr, flags: fl },
            );
        }
        let t = self.reap_finish(r);
        proof {
            if k < s.len() {
                assert(s.skip(k).skip(1) =~= s.skip(k + 1));
                lemma_wadd_assoc(h0, k as u32, 1);
            }
        }
        t
    }

    /// Ends a round after the kernel transition: books the accepted count
    /// against the pending submissions (a full batch also clears the wait
    /// count, except under kernel completion polling, where only another
    /// transition can reap), then consumes the peeked completion if one is
    /// stored.
    pub fn reap_enter_done(&mut self, r: &mut Reap, ret: u32) -> (t: Turn)
        requires
            old(self).wf(),
            ret <= old(r).submit,
            old(r).peeked matches Some(e) ==> old(self).cq.pending@.len() > 0 && old(self).cq.pending@[0] == e,
        ensures
            final(self).wf(),
            final(self).sq == old(self).sq,
            final(self).flags == old(self).flags,
            final(self).cq.ktail_shadow == old(self).cq.ktail_shadow,
            final(self).cq.ring_entries == old(self).cq.ring_entries,
            final(self).cq.ring_mask == old(self).cq.ring_mask,
            final(self).cq.has_kflags == old(self).cq.has_kflags,
            final(r).to_wait == old(r).to_wait,
            final(r).peeked is None,
            ({
                let full = ret == old(r).submit;
                &&& final(r).submit == (if full {
                    0u32
                } else {
                    (old(r).submit - ret) as u32
                })
                &&& final(r).wait_nr == (if full && old(self).flags & SETUP_IOPOLL == 0 {
                    0u32
                } else {
                    old(r).wait_nr
                })
            }),
            match old(r).peeked {
                Some(e) => t == Turn::Done(e) && final(self).cq.pending@ == old(self).cq.pending@.skip(1) && final(self).cq.khead_shadow == wadd(
                    old(self).cq.khead_shadow,
                    1,
                ),
                None => t == Turn::Retry && final(self).cq == old(self).cq,
            },
    {
        if ret == r.submit {
            r.submit = 0;
            if self.flags & SETUP_IOPOLL == 0 {
                r.wait_nr = 0;
            }
        } else {
            r.submit = r.submit - ret;
        }
        self.reap_finish(r)
    }

    /// The submission record of the internal timeout a timed wait travels
    /// with: a timeout counting `count` completions, its timespec at
    /// address `ts`, tagged with the reserved user-data.
    pub open spec fn timeout_sentinel(ts: u64, count: u32) -> sq::Entry {
        sq::Entry { user_data: UDATA_TIMEOUT, ..(op::Timeout { ts, count, flags: 0 }).entry_spec() }
    }

    /// Stages the internal timeout for a timed wait of `count`
    /// completions, so that it travels in the same kernel transition as
    /// the flush that follows.  False when the ring is full: the timed
    /// wait then fails with the "try again" error.
    pub fn prep_timeout(&mut self, ts: u64, count: u32) -> (ok: bool)
        requires
            old(self).wf(),
        ensures
            final(self).wf(),
            final(self).cq == old(self).cq,
            final(self).flags == old(self).flags,
            ok == (old(self).sq.reserved() < old(self).sq.ring_entries),
            final(self).sq.khead_shadow == old(self).sq.khead_shadow,
            final(self).sq.ktail_shadow == old(self).sq.ktail_shadow,
            final(self).sq.sqe_head == old(self).sq.sqe_head,
            final(self).sq.ring_entries == old(self).sq.ring_entries,
            final(self).sq.ring_mask == old(self).sq.ring_mask,
            ok ==> final(self).sq.sqe_tail == wadd(old(self).sq.sqe_tail, 1)
                && final(self).sq.staged@ == old(self).sq.staged@.push(
                Uring::timeout_sentinel(ts, count),
            ),
            !ok ==> final(self).sq == old(self).sq,
    {
        let t = op::Timeout { ts, count, flags: 0 };
        let mut e = t.entry();
        e.user_data = UDATA_TIMEOUT;
        self.sq.push(e)
    }
}

} // verus!
