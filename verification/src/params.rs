//! The kernel-facing setup parameters, the flag sets they carry, and the
//! builder that encodes the configurable options.

use crate::cq;
use crate::sq;
use vstd::prelude::*;

verus! {

/// Setup flag: the kernel polls for completed I/O (no completion events).
pub const SETUP_IOPOLL: u32 = 1u32 << 0;

/// Setup flag: the kernel spawns a submission-queue poll thread.
pub const SETUP_SQPOLL: u32 = 1u32 << 1;

/// Setup flag: the poll thread is pinned to `sq_thread_cpu`.
pub const SETUP_SQ_AFF: u32 = 1u32 << 2;

/// Setup flag: the application chooses the completion-ring size.
pub const SETUP_CQSIZE: u32 = 1u32 << 3;

/// Setup flag: the kernel may clamp requested ring sizes.
pub const SETUP_CLAMP: u32 = 1u32 << 4;

/// Setup flag: share the work queue of the ring named by `wq_fd`.
pub const SETUP_ATTACH_WQ: u32 = 1u32 << 5;

/// Feature bit: both rings can be served by a single mapping.
pub const FEAT_SINGLE_MMAP: u32 = 1u32 << 0;

/// Feature bit: completions are never dropped on overflow.
pub const FEAT_NODROP: u32 = 1u32 << 1;

/// Feature bit: submission data may be reused once submitted.
pub const FEAT_SUBMIT_STABLE: u32 = 1u32 << 2;

/// Feature bit: reads and writes honour the current file position.
pub const FEAT_RW_CUR_POS: u32 = 1u32 << 3;

/// Feature bit: requests run under the submitting task's credentials.
pub const FEAT_CUR_PERSONALITY: u32 = 1u32 << 4;

/// Feature bit: fast poll is available for pollable I/O.
pub const FEAT_FAST_POLL: u32 = 1u32 << 5;

/// Mapping offset of the submission ring.
pub const OFF_SQ_RING: u64 = 0;

/// Mapping offset of the completion ring.
pub const OFF_CQ_RING: u64 = 0x800_0000;

/// Mapping offset of the submission-record array.
pub const OFF_SQES: u64 = 0x1000_0000;

/// The byte size of one submission record.
pub const SQE_SIZE: u64 = 64;

/// The byte size of one completion record.
pub const CQE_SIZE: u64 = 16;

/// The parameter block exchanged with the kernel at setup.  The caller
/// writes the configuration fields; the kernel fills the ring sizes, the
/// feature bits and the two offset tables.
#[derive(Debug, Clone, Copy, PartialEq, Eq, Structural)]
pub struct UringParams {
    pub sq_entries: u32,
    pub cq_entries: u32,
    pub flags: u32,
    pub sq_thread_cpu: u32,
    pub sq_thread_idle: u32,
    pub features: u32,
    pub wq_fd: u32,
    pub sq_off: sq::Offsets,
    pub cq_off: cq::Offsets,
}

impl UringParams {
    /// The setup flags word.
    pub fn flags(&self) -> (f: u32)
        ensures
            f == self.flags,
    {
        self.flags
    }

    /// The feature bits the kernel reported.
    pub fn features(&self) -> (f: u32)
        ensures
            f == self.features,
    {
        self.features
    }

    /// The submission-ring offset table.
    pub fn sq_off(&self) -> (o: sq::Offsets)
        ensures
            o == self.sq_off,
    {
        self.sq_off
    }

    /// The completion-ring offset table.
    pub fn cq_off(&self) -> (o: cq::Offsets)
        ensures
            o == self.cq_off,
    {
        self.cq_off
    }

    /// Whether one mapping serves both rings.
    pub fn single_mmap(&self) -> (b: bool)
        ensures
            b == (self.features & FEAT_SINGLE_MMAP != 0),
    {
        self.features & FEAT_SINGLE_MMAP != 0
    }
}

/// The mapping layout a parameter block calls for: region lengths in bytes
/// for the two rings and the submission-record array.
#[derive(Debug, Clone, Copy, PartialEq, Eq, Structural)]
pub struct MmapPlan {
    /// One region at the submission-ring offset serves both rings; the
    /// completion-ring view aliases it.
    pub single: bool,
    /// Byte length of the region mapped at [`OFF_SQ_RING`].
    pub sq_ring_len: u64,
    /// Byte length of the region mapped at [`OFF_CQ_RING`]; under `single`
    /// it equals `sq_ring_len` and no second mapping is made.
    pub cq_ring_len: u64,
    /// Byte length of the region mapped at [`OFF_SQES`].
    pub sqes_len: u64,
}

/// The byte length the submission ring needs: up to the index array plus
/// one 32-bit index per entry.
pub open spec fn sq_ring_bytes(p: UringParams) -> int {
    p.sq_off.array + p.sq_entries * 4
}

/// The byte length the completion ring needs: up to the record array plus
/// one record per entry.
pub open spec fn cq_ring_bytes(p: UringParams) -> int {
    p.cq_off.cqes + p.cq_entries * CQE_SIZE
}

/// Computes the mapping layout for a filled-in parameter block.  When the
/// kernel reports the single-mapping feature, one region of the larger of
/// the two ring sizes serves both rings; otherwise each ring gets its own
/// region.
pub fn mmap_plan(p: &UringParams) -> (plan: MmapPlan)
    ensures
        plan.single == (p.features & FEAT_SINGLE_MMAP != 0),
        plan.single ==> plan.sq_ring_len == if sq_ring_bytes(*p) >= cq_ring_bytes(*p) {
            sq_ring_bytes(*p)
        } else {
            cq_ring_bytes(*p)
        },
        plan.single ==> plan.cq_ring_len == plan.sq_ring_len,
        !plan.single ==> plan.sq_ring_len == sq_ring_bytes(*p) && plan.cq_ring_len
            == cq_ring_bytes(*p),
        plan.sqes_len == p.sq_entries * SQE_SIZE,
{
    let sq_sz: u64 = p.sq_off.array as u64 + p.sq_entries as u64 * 4;
    let cq_sz: u64 = p.cq_off.cqes as u64 + p.cq_entries as u64 * CQE_SIZE;
    let sqes_len: u64 = p.sq_entries as u64 * SQE_SIZE;
    if p.features & FEAT_SINGLE_MMAP != 0 {
        let ring = if sq_sz >= cq_sz {
            sq_sz
        } else {
            cq_sz
        };
        MmapPlan { single: true, sq_ring_len: ring, cq_ring_len: ring, sqes_len }
    } else {
        MmapPlan { single: false, sq_ring_len: sq_sz, cq_ring_len: cq_sz, sqes_len }
    }
}

/// Configures and encodes the tunable setup options.  Each knob sets the
/// matching setup flag and, where applicable, carries its value.
#[derive(Debug, Clone, Copy, PartialEq, Eq, Structural)]
pub struct UringBuilder {
    pub entries: u32,
    pub cq_entries: u32,
    pub flags: u32,
    pub sq_thread_cpu: u32,
    pub sq_thread_idle: u32,
    pub wq_fd: u32,
}

impl UringBuilder {
    /// Starts a configuration asking for `entries` submission slots.
    pub fn new(entries: u32) -> (b: UringBuilder)
        ensures
            b == (UringBuilder {
                entries,
                cq_entries: 0,
                flags: 0,
                sq_thread_cpu: 0,
                sq_thread_idle: 0,
                wq_fd: 0,
            }),
    {
        UringBuilder { entries, cq_entries: 0, flags: 0, sq_thread_cpu: 0, sq_thread_idle: 0, wq_fd: 0 }
    }

    /// Asks the kernel to poll for completed I/O.
    pub fn iopoll(self) -> (b: UringBuilder)
        ensures
            b == (UringBuilder { flags: self.flags | SETUP_IOPOLL, ..self }),
    {
        UringBuilder { flags: self.flags | SETUP_IOPOLL, ..self }
    }

    /// Asks the kernel to spawn a submission poll thread.
    pub fn sqpoll(self) -> (b: UringBuilder)
        ensures
            b == (UringBuilder { flags: self.flags | SETUP_SQPOLL, ..self }),
    {
        UringBuilder { flags: self.flags | SETUP_SQPOLL, ..self }
    }

    /// Implies the poll thread and sets its idle time in milliseconds.
    pub fn sqpoll_idle(self, idle: u32) -> (b: UringBuilder)
        ensures
            b == (UringBuilder {
                flags: self.flags | SETUP_SQPOLL,
                sq_thread_idle: idle,
                ..self
            }),
    {
        let s = self.sqpoll();
        UringBuilder { sq_thread_idle: idle, ..s }
    }

    /// Implies the poll thread and pins it to `cpu`.
    pub fn sqpoll_cpu(self, cpu: u32) -> (b: UringBuilder)
        ensures
            b == (UringBuilder {
                flags: self.flags | SETUP_SQPOLL | SETUP_SQ_AFF,
                sq_thread_cpu: cpu,
                ..self
            }),
    {
        let s = self.sqpoll();
        UringBuilder { flags: s.flags | SETUP_SQ_AFF, sq_thread_cpu: cpu, ..s }
    }

    /// Asks for a completion ring of `cq_entries` slots.
    pub fn cqsize(self, cq_entries: u32) -> (b: UringBuilder)
        ensures
            b == (UringBuilder { flags: self.flags | SETUP_CQSIZE, cq_entries, ..self }),
    {
        UringBuilder { flags: self.flags | SETUP_CQSIZE, cq_entries, ..self }
    }

    /// Lets the kernel clamp over-large ring sizes instead of failing.
    pub fn clamp(self) -> (b: UringBuilder)
        ensures
            b == (UringBuilder { flags: self.flags | SETUP_CLAMP, ..self }),
    {
        UringBuilder { flags: self.flags | SETUP_CLAMP, ..self }
    }

    /// Shares the work queue of the existing ring named by `wq_fd`.
    pub fn attach_wq(self, wq_fd: u32) -> (b: UringBuilder)
        ensures
            b == (UringBuilder { flags: self.flags | SETUP_ATTACH_WQ, wq_fd, ..self }),
    {
        UringBuilder { flags: self.flags | SETUP_ATTACH_WQ, wq_fd, ..self }
    }

    /// Encodes the configuration as the zeroed parameter block handed to
    /// the setup call; the kernel fills the remaining fields.
    pub fn params(&self) -> (p: UringParams)
        ensures
            p == (UringParams {
                sq_entries: 0,
                cq_entries: self.cq_entries,
                flags: self.flags,
                sq_thread_cpu: self.sq_thread_cpu,
                sq_thread_idle: self.sq_thread_idle,
                features: 0,
                wq_fd: self.wq_fd,
                sq_off: (sq::Offsets {
                    head: 0,
                    tail: 0,
                    ring_mask: 0,
                    ring_entries: 0,
                    flags: 0,
                    dropped: 0,
                    array: 0,
                }),
                cq_off: (cq::Offsets {
                    head: 0,
                    tail: 0,
                    ring_mask: 0,
                    ring_entries: 0,
                    overflow: 0,
                    cqes: 0,
                    flags: 0,
                }),
            }),
    {
        UringParams {
            sq_entries: 0,
            cq_entries: self.cq_entries,
            flags: self.flags,
            sq_thread_cpu: self.sq_thread_cpu,
            sq_thread_idle: self.sq_thread_idle,
            features: 0,
            wq_fd: self.wq_fd,
            sq_off: sq::Offsets {
                head: 0,
                tail: 0,
                ring_mask: 0,
                ring_entries: 0,
                flags: 0,
                dropped: 0,
                array: 0,
            },
            cq_off: cq::Offsets {
                head: 0,
                tail: 0,
                ring_mask: 0,
                ring_entries: 0,
                overflow: 0,
                cqes: 0,
                flags: 0,
            },
        }
    }
}

} // verus!
