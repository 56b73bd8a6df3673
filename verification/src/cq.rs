//! The completion queue: the ring the kernel fills and the user drains.
//!
//! The verified view keeps the two private counter shadows and the
//! completion records that have been observed in the shared ring but not yet
//! consumed.  The caller performs the shared-memory traffic: it loads the
//! kernel tail (acquire), hands the freshly published records to [`Queue::absorb`],
//! and after every consumption stores [`Queue::shared_head`] back to the ring
//! (release).

use crate::err::Error;
use crate::err::EOPNOTSUPP;
use crate::wrap::in_window;
use crate::wrap::is_pow2;
use crate::wrap::lemma_wadd_assoc;
use crate::wrap::wadd;
use crate::wrap::wsub;
use vstd::prelude::*;

verus! {

/// The reserved user-data value that tags timeout submissions the library
/// issues on its own behalf.  It is never surfaced to callers and must not
/// be placed on a submission by them.
pub const UDATA_TIMEOUT: u64 = 0xFFFF_FFFF_FFFF_FFFF;

/// Completion flags bit: the upper sixteen bits of the flags word carry a
/// buffer id.
pub const F_BUFFER: u32 = 1u32 << 0;

/// Right-shift that extracts the buffer id from the flags word.
pub const BUFFER_SHIFT: u32 = 16;

/// Completion-ring flags bit: posting to the registered eventfd is disabled.
pub const F_EVENTFD_DISABLED: u32 = 1u32 << 0;

/// The offsets the kernel reports for the completion ring, in bytes from the
/// start of its mapping.
#[derive(Debug, Clone, Copy, PartialEq, Eq, Structural)]
pub struct Offsets {
    pub head: u32,
    pub tail: u32,
    pub ring_mask: u32,
    pub ring_entries: u32,
    pub overflow: u32,
    pub cqes: u32,
    pub flags: u32,
}

impl Offsets {
    /// Byte offset of the completion-record array within the ring mapping.
    pub fn cqes(&self) -> (off: u32)
        ensures
            off == self.cqes,
    {
        self.cqes
    }
}

/// A completion record: sixteen bytes the kernel writes per finished
/// submission.
#[derive(Debug, Clone, Copy, PartialEq, Eq, Structural)]
pub struct Entry {
    /// The user-data token of the matching submission, returned verbatim.
    pub user_data: u64,
    /// The operation's result; negative values are `-errno`.
    pub res: i32,
    /// Completion flags; see [`F_BUFFER`].
    pub flags: u32,
}

impl Entry {
    /// Builds a completion record from its three fields.
    pub fn new(user_data: u64, res: i32, flags: u32) -> (e: Entry)
        ensures
            e == (Entry { user_data, res, flags }),
    {
        Entry { user_data, res, flags }
    }

    /// The user-data token carried over from the submission.
    pub fn user_data(&self) -> (d: u64)
        ensures
            d == self.user_data,
    {
        self.user_data
    }

    /// The raw result; negative values are `-errno`.
    pub fn res(&self) -> (r: i32)
        ensures
            r == self.res,
    {
        self.res
    }

    /// The buffer id, if the kernel selected one: present exactly when bit 0
    /// of the flags word is set, carried in the upper sixteen bits.
    pub fn buffer_id(&self) -> (r: Option<u16>)
        ensures
            r == (if self.flags & F_BUFFER != 0 {
                Some((self.flags >> BUFFER_SHIFT) as u16)
            } else {
                None::<u16>
            }),
    {
        let w = self.flags;
        if w & F_BUFFER != 0 {
            assert(w >> 16 < 0x10000) by (bit_vector);
            Some((w >> BUFFER_SHIFT) as u16)
        } else {
            None
        }
    }
}

/// A completion carrying the reserved timeout user-data: library-internal,
/// never surfaced.
pub open spec fn is_sentinel(e: Entry) -> bool {
    e.user_data == UDATA_TIMEOUT
}

/// A sentinel completion that is consumed silently: the timeout was
/// cancelled or satisfied rather than expired.
pub open spec fn skippable(e: Entry) -> bool {
    is_sentinel(e) && e.res >= 0
}

/// Index of the first pending completion that stops the reap scan: the
/// first record that is not a silently-consumed sentinel.  Equals the length
/// when every pending record is skippable.
pub open spec fn reap_index(s: Seq<Entry>) -> int
    decreases s.len(),
{
    if s.len() == 0 {
        0
    } else if !skippable(s[0]) {
        0
    } else {
        1 + reap_index(s.skip(1))
    }
}

/// The reap scan stops within the pending range.
pub proof fn lemma_reap_index_bounds(s: Seq<Entry>)
    ensures
        0 <= reap_index(s) <= s.len(),
    decreases s.len(),
{
    if s.len() > 0 && skippable(s[0]) {
        lemma_reap_index_bounds(s.skip(1));
    }
}

/// Everything the reap scan passes over is a silently-consumed sentinel:
/// only library-internal timeouts are dropped, never caller work.
pub proof fn lemma_reap_index_skippable(s: Seq<Entry>)
    ensures
        forall|j: int| 0 <= j < reap_index(s) ==> skippable(s[j]),
    decreases s.len(),
{
    if s.len() > 0 && skippable(s[0]) {
        lemma_reap_index_skippable(s.skip(1));
        lemma_reap_index_bounds(s.skip(1));
        assert forall|j: int| 0 <= j < reap_index(s) implies skippable(s[j]) by {
            if j > 0 {
                assert(s.skip(1)[j - 1] == s[j]);
                assert(skippable(s.skip(1)[j - 1]));
            }
        }
    }
}

/// The positive `errno` named by a negative completion result.
pub open spec fn errno_of(res: i32) -> i32 {
    if res == i32::MIN {
        i32::MIN
    } else {
        (0 - res) as i32
    }
}

/// The user-space view of the completion ring.
pub struct Queue {
    /// Ring size minus one; slot index is `counter & ring_mask`.
    pub ring_mask: u32,
    /// Ring size: a power of two.
    pub ring_entries: u32,
    /// Consumer position; the value last published to the shared head.
    pub khead_shadow: u32,
    /// The kernel tail as last observed.
    pub ktail_shadow: u32,
    /// Whether the kernel exposes a completion-ring flags word.
    pub has_kflags: bool,
    /// Observed but not yet consumed completions, oldest first: the records
    /// in the shared slots from head to tail.
    pub pending: Vec<Entry>,
}

impl Queue {
    /// The counters describe a plausible ring: at most `ring_entries`
    /// completions outstanding, and the pending records mirror them.
    pub open spec fn wf(&self) -> bool {
        &&& is_pow2(self.ring_entries)
        &&& self.ring_mask == self.ring_entries - 1
        &&& self.pending@.len() == wsub(self.ktail_shadow, self.khead_shadow)
        &&& wsub(self.ktail_shadow, self.khead_shadow) <= self.ring_entries
    }

    /// How many observed completions await consumption.
    pub open spec fn available(&self) -> u32 {
        wsub(self.ktail_shadow, self.khead_shadow)
    }

    /// Builds the view from the geometry the kernel reported and the head
    /// counter observed at setup.  Published records are handed in
    /// afterwards through [`Queue::absorb`].
    pub fn new(ring_entries: u32, ring_mask: u32, head: u32, has_kflags: bool) -> (q: Queue)
        requires
            is_pow2(ring_entries),
            ring_mask == ring_entries - 1,
        ensures
            q.wf(),
            q.ring_entries == ring_entries,
            q.ring_mask == ring_mask,
            q.khead_shadow == head,
            q.ktail_shadow == head,
            q.has_kflags == has_kflags,
            q.pending@.len() == 0,
    {
        Queue {
            ring_mask,
            ring_entries,
            khead_shadow: head,
            ktail_shadow: head,
            has_kflags,
            pending: Vec::new(),
        }
    }

    /// Takes in a freshly observed kernel tail together with the records the
    /// kernel published between the old tail and the new one, oldest first.
    /// The kernel never overwrites the range between head and tail, and
    /// never lets it exceed the ring size.
    pub fn absorb(&mut self, ktail: u32, fresh: Vec<Entry>)
        requires
            old(self).wf(),
            fresh@.len() == wsub(ktail, old(self).ktail_shadow),
            wsub(ktail, old(self).khead_shadow) <= old(self).ring_entries,
            in_window(old(self).khead_shadow, old(self).ktail_shadow, ktail),
        ensures
            final(self).wf(),
            final(self).ktail_shadow == ktail,
            final(self).khead_shadow == old(self).khead_shadow,
            final(self).pending@ == old(self).pending@ + fresh@,
            final(self).ring_entries == old(self).ring_entries,
            final(self).ring_mask == old(self).ring_mask,
            final(self).has_kflags == old(self).has_kflags,
    {
        let mut fresh = fresh;
        self.pending.append(&mut fresh);
        self.ktail_shadow = ktail;
    }

    /// Consumes the `n` oldest observed completions: the private head
    /// advances by `n` (wrapping) and the caller must store the new
    /// [`Queue::shared_head`] to the ring with release ordering.
    pub fn advance(&mut self, n: u32)
        requires
            old(self).wf(),
            n <= old(self).available(),
        ensures
            final(self).wf(),
            final(self).khead_shadow == wadd(old(self).khead_shadow, n),
            final(self).ktail_shadow == old(self).ktail_shadow,
            final(self).pending@ == old(self).pending@.skip(n as int),
            final(self).ring_entries == old(self).ring_entries,
            final(self).ring_mask == old(self).ring_mask,
            final(self).has_kflags == old(self).has_kflags,
    {
        if n > 0 {
            let rest = self.pending.split_off(n as usize);
            self.pending = rest;
            self.khead_shadow = self.khead_shadow.wrapping_add(n);
        }
        proof {
            assert(final(self).pending@ =~= old(self).pending@.skip(n as int));
        }
    }

    /// The value to store to the shared head word (release) after
    /// consumption.
    pub fn shared_head(&self) -> (h: u32)
        ensures
            h == self.khead_shadow,
    {
        self.khead_shadow
    }

    /// The next completion for the caller, if one is pending.
    ///
    /// Sentinel records — internal timeouts, recognised by the reserved
    /// user-data — are consumed here and never returned: one whose result is
    /// negative surfaces as the operating-system error it carries, one whose
    /// result is non-negative is dropped silently.  A returned record is not
    /// yet consumed; the caller advances past it explicitly.
    pub fn peek_cqe(&mut self) -> (r: Result<Option<Entry>, Error>)
        requires
            old(self).wf(),
        ensures
            final(self).wf(),
            final(self).ktail_shadow == old(self).ktail_shadow,
            final(self).ring_entries == old(self).ring_entries,
            final(self).ring_mask == old(self).ring_mask,
            final(self).has_kflags == old(self).has_kflags,
            ({
                let s = old(self).pending@;
                let k = reap_index(s);
                match r {
                    Ok(opt) => match opt {
                        Some(e) => {
                            &&& k < s.len()
                            &&& !is_sentinel(s[k])
                            &&& e == s[k]
                            &&& final(self).pending@ == s.skip(k)
                            &&& final(self).khead_shadow == wadd(old(self).khead_shadow, k as u32)
                        },
                        None => {
                            &&& k == s.len()
                            &&& final(self).pending@.len() == 0
                            &&& final(self).khead_shadow == wadd(old(self).khead_shadow, k as u32)
                        },
                    },
                    Err(err) => {
                        &&& k < s.len()
                        &&& is_sentinel(s[k])
                        &&& s[k].res < 0
                        &&& err.code == errno_of(s[k].res)
                        &&& final(self).pending@ == s.skip(k + 1)
                        &&& final(self).khead_shadow == wadd(
                            old(self).khead_shadow,
                            (k + 1) as u32,
                        )
                    },
                }
            }),
            (match r {
                Ok(opt) => match opt {
                    Some(e) => e.user_data != UDATA_TIMEOUT,
                    None => true,
                },
                Err(_) => true,
            }),
    {
        let ghost s0 = old(self).pending@;
        let ghost h0 = old(self).khead_shadow;
        let mut i: u32 = 0;
        proof {
            lemma_reap_index_bounds(s0);
            assert(s0.skip(0) =~= s0);
        }
        loop
            invariant
                self.wf(),
                s0 == old(self).pending@,
                h0 == old(self).khead_shadow,
                s0.len() <= u32::MAX,
                self.ktail_shadow == old(self).ktail_shadow,
                self.ring_entries == old(self).ring_entries,
                self.ring_mask == old(self).ring_mask,
                self.has_kflags == old(self).has_kflags,
                i <= s0.len(),
                self.pending@ == s0.skip(i as int),
                self.khead_shadow == wadd(h0, i),
                reap_index(s0) == i + reap_index(s0.skip(i as int)),
                0 <= reap_index(s0) <= s0.len(),
            decreases s0.len() - i,
        {
            let ghost cur = self.pending@;
            proof {
                lemma_reap_index_bounds(cur);
            }
            if self.pending.len() == 0 {
                assert(reap_index(cur) == 0);
                return Ok(None);
            }
            let e = self.pending[0];
            if e.user_data == UDATA_TIMEOUT {
                let res = e.res;
                proof {
                    if res >= 0 {
                        assert(reap_index(cur) == 1 + reap_index(cur.skip(1)));
                    } else {
                        assert(reap_index(cur) == 0);
                    }
                }
                self.advance(1);
                proof {
                    assert(self.pending@ =~= s0.skip(i as int + 1));
                    lemma_wadd_assoc(h0, i, 1);
                }
                i = i + 1;
                if res < 0 {
                    let code = if res == i32::MIN {
                        i32::MIN
                    } else {
                        0 - res
                    };
                    return Err(Error::new(code));
                }
            } else {
                assert(reap_index(cur) == 0);
                return Ok(Some(e));
            }
        }
    }

    /// Consuming `n` completions and then `m` more is, for the shared head
    /// (and for the pending records), exactly one combined consumption of
    /// `n + m`: two calls of [`Queue::advance`] publish the same head as one.
    pub proof fn lemma_advance_additive(&self, n: u32, m: u32)
        requires
            self.wf(),
            n + m <= self.available(),
        ensures
            wadd(wadd(self.khead_shadow, n), m) == wadd(self.khead_shadow, (n + m) as u32),
            self.pending@.skip(n as int).skip(m as int) == self.pending@.skip((n + m) as int),
    {
        lemma_wadd_assoc(self.khead_shadow, n, m);
        assert(self.pending@.skip(n as int).skip(m as int) =~= self.pending@.skip(
            (n + m) as int,
        ));
    }

    /// Whether posting completions to the registered eventfd is currently
    /// enabled.  `kflags` is the shared completion-ring flags word as just
    /// observed; on kernels without that word the answer is always true.
    pub fn eventfd_enabled(&self, kflags: u32) -> (b: bool)
        ensures
            b == (self.has_kflags ==> kflags & F_EVENTFD_DISABLED == 0),
    {
        if self.has_kflags {
            kflags & F_EVENTFD_DISABLED == 0
        } else {
            true
        }
    }

    /// Computes the flags word that switches eventfd posting on or off.
    ///
    /// Returns `Ok(None)` when the ring is already in the requested state
    /// (nothing to store), `Ok(Some(word))` with the word the caller must
    /// store back, and the "operation not supported" error on kernels that
    /// expose no completion-ring flags word.
    pub fn toggle_eventfd(&self, kflags: u32, enabled: bool) -> (r: Result<Option<u32>, Error>)
        ensures
            ({
                let already = (self.has_kflags ==> kflags & F_EVENTFD_DISABLED == 0);
                if enabled == already {
                    r == Ok::<Option<u32>, Error>(None)
                } else if !self.has_kflags {
                    r matches Err(e) && e.code == EOPNOTSUPP
                } else if enabled {
                    r == Ok::<Option<u32>, Error>(Some(kflags & !F_EVENTFD_DISABLED))
                } else {
                    r == Ok::<Option<u32>, Error>(Some(kflags | F_EVENTFD_DISABLED))
                }
            }),
    {
        if enabled == self.eventfd_enabled(kflags) {
            return Ok(None);
        }
        if self.has_kflags {
            let word = if enabled {
                kflags & !F_EVENTFD_DISABLED
            } else {
                kflags | F_EVENTFD_DISABLED
            };
            Ok(Some(word))
        } else {
            Err(Error::new(EOPNOTSUPP))
        }
    }
}

/// The crate's half of the user-data round trip: a completion that mirrors
/// a token other than the reserved one is never taken for an internal
/// timeout — the reap scan stops right at it, and [`Queue::peek_cqe`] then
/// surfaces it verbatim.  (The kernel's mirroring of the token from the
/// consumed submission onto the completion happens outside the crate.)
pub proof fn lemma_token_surfaces(c: Entry, front: Seq<Entry>)
    requires
        c.user_data != UDATA_TIMEOUT,
        forall|j: int| 0 <= j < front.len() ==> skippable(front[j]),
    ensures
        reap_index(front.push(c)) == front.len(),
        front.push(c)[reap_index(front.push(c))] == c,
    decreases front.len(),
{
    let s = front.push(c);
    if front.len() == 0 {
        assert(s[0] == c);
    } else {
        assert(skippable(front[0]));
        assert(s[0] == front[0]);
        lemma_token_surfaces(c, front.skip(1));
        assert(s.skip(1) =~= front.skip(1).push(c));
    }
}

/// In every well-formed completion-queue state, the span from the published
/// head to the observed kernel tail never exceeds the ring size.
pub proof fn lemma_cq_bound(q: &Queue)
    requires
        q.wf(),
    ensures
        wsub(q.ktail_shadow, q.khead_shadow) <= q.ring_entries,
{
}

} // verus!
