//! The operation encoders: one per opcode, each shaping the fixed 64-byte
//! submission record.
//!
//! Buffers, path strings and kernel structures an operation refers to are
//! carried as raw addresses (the kernel reads them from user memory); the
//! records themselves are plain values.  An encoder builds its record with
//! zero user-data; the caller may set per-entry flags and the user-data
//! token before pushing the record onto the submission queue.

use crate::sq::Entry;
use vstd::prelude::*;

verus! {

pub const NOP: u8 = 0;

pub const READV: u8 = 1;

pub const WRITEV: u8 = 2;

pub const FSYNC: u8 = 3;

pub const READ_FIXED: u8 = 4;

pub const WRITE_FIXED: u8 = 5;

pub const POLL_ADD: u8 = 6;

pub const POLL_REMOVE: u8 = 7;

pub const SYNC_FILE_RANGE: u8 = 8;

pub const SENDMSG: u8 = 9;

pub const RECVMSG: u8 = 10;

pub const TIMEOUT: u8 = 11;

pub const TIMEOUT_REMOVE: u8 = 12;

pub const ACCEPT: u8 = 13;

pub const ASYNC_CANCEL: u8 = 14;

pub const LINK_TIMEOUT: u8 = 15;

pub const CONNECT: u8 = 16;

pub const FALLOCATE: u8 = 17;

pub const OPENAT: u8 = 18;

pub const CLOSE: u8 = 19;

pub const FILES_UPDATE: u8 = 20;

pub const STATX: u8 = 21;

pub const READ: u8 = 22;

pub const WRITE: u8 = 23;

pub const FADVISE: u8 = 24;

pub const MADVISE: u8 = 25;

pub const SEND: u8 = 26;

pub const RECV: u8 = 27;

pub const OPENAT2: u8 = 28;

pub const EPOLL_CTL: u8 = 29;

pub const SPLICE: u8 = 30;

pub const PROVIDE_BUFFERS: u8 = 31;

pub const REMOVE_BUFFERS: u8 = 32;

/// The two's-complement bits of a signed 32-bit value, as an unsigned word.
pub open spec fn u32_bits(x: i32) -> u32 {
    if x >= 0 {
        x as u32
    } else {
        (x + 0x1_0000_0000) as u32
    }
}

/// The sign-extended two's-complement bits of a signed 32-bit value, as an
/// unsigned 64-bit word.
pub open spec fn u64_bits(x: i32) -> u64 {
    if x >= 0 {
        x as u64
    } else {
        (x + 0x1_0000_0000_0000_0000) as u64
    }
}

/// Computes [`u32_bits`].
fn u32_bits_of(x: i32) -> (w: u32)
    ensures
        w == u32_bits(x),
{
    if x >= 0 {
        x as u32
    } else {
        ((x as i64) + 0x1_0000_0000) as u32
    }
}

/// Computes [`u64_bits`].
fn u64_bits_of(x: i32) -> (w: u64)
    ensures
        w == u64_bits(x),
{
    if x >= 0 {
        x as u64
    } else {
        let neg = (-(x as i64)) as u64;
        u64::MAX - neg + 1
    }
}

/// An operation that can be shaped into a submission record.
pub trait Op {
    /// The operation's opcode.
    spec fn code_spec() -> u8;

    /// The record this operation shapes.
    spec fn entry_spec(&self) -> Entry;

    /// The operation's opcode, for capability queries.
    fn code() -> (c: u8)
        ensures
            c == Self::code_spec(),
    ;

    /// Builds the fully shaped submission record.
    fn entry(&self) -> (e: Entry)
        ensures
            e == self.entry_spec(),
            e.opcode == Self::code_spec(),
    ;
}

/// No operation: completes immediately.
#[derive(Debug, Clone, Copy)]
pub struct Nop;

impl Op for Nop {
    open spec fn code_spec() -> u8 {
        NOP
    }

    open spec fn entry_spec(&self) -> Entry {
        Entry::shaped(NOP, -1i32, 0, 0, 0)
    }

    fn code() -> u8 {
        NOP
    }

    fn entry(&self) -> Entry {
        Entry::shape(NOP, -1i32, 0, 0, 0)
    }
}

/// Vectored read: `iovecs` is the address of `nr_vecs` iovec structures.
#[derive(Debug, Clone, Copy)]
pub struct Readv {
    pub fd: i32,
    pub iovecs: u64,
    pub nr_vecs: u32,
    pub offset: u64,
}

impl Op for Readv {
    open spec fn code_spec() -> u8 {
        READV
    }

    open spec fn entry_spec(&self) -> Entry {
        Entry::shaped(READV, self.fd, self.iovecs, self.nr_vecs, self.offset)
    }

    fn code() -> u8 {
        READV
    }

    fn entry(&self) -> Entry {
        Entry::shape(READV, self.fd, self.iovecs, self.nr_vecs, self.offset)
    }
}

/// Vectored write: `iovecs` is the address of `nr_vecs` iovec structures.
#[derive(Debug, Clone, Copy)]
pub struct Writev {
    pub fd: i32,
    pub iovecs: u64,
    pub nr_vecs: u32,
    pub offset: u64,
}

impl Op for Writev {
    open spec fn code_spec() -> u8 {
        WRITEV
    }

    open spec fn entry_spec(&self) -> Entry {
        Entry::shaped(WRITEV, self.fd, self.iovecs, self.nr_vecs, self.offset)
    }

    fn code() -> u8 {
        WRITEV
    }

    fn entry(&self) -> Entry {
        Entry::shape(WRITEV, self.fd, self.iovecs, self.nr_vecs, self.offset)
    }
}

/// File synchronisation.
#[derive(Debug, Clone, Copy)]
pub struct Fsync {
    pub fd: i32,
    pub flags: u32,
}

impl Op for Fsync {
    open spec fn code_spec() -> u8 {
        FSYNC
    }

    open spec fn entry_spec(&self) -> Entry {
        Entry { op_flags: self.flags, ..Entry::shaped(FSYNC, self.fd, 0, 0, 0) }
    }

    fn code() -> u8 {
        FSYNC
    }

    fn entry(&self) -> Entry {
        let mut e = Entry::shape(FSYNC, self.fd, 0, 0, 0);
        e.set_fsync_flags(self.flags);
        e
    }
}

/// Read into a pre-registered buffer.
#[derive(Debug, Clone, Copy)]
pub struct ReadFixed {
    pub fd: i32,
    pub buf: u64,
    pub buf_len: u32,
    pub offset: u64,
    pub buf_index: u16,
}

impl Op for ReadFixed {
    open spec fn code_spec() -> u8 {
        READ_FIXED
    }

    open spec fn entry_spec(&self) -> Entry {
        Entry {
            buf_index_group: self.buf_index,
            ..Entry::shaped(READ_FIXED, self.fd, self.buf, self.buf_len, self.offset)
        }
    }

    fn code() -> u8 {
        READ_FIXED
    }

    fn entry(&self) -> Entry {
        let mut e = Entry::shape(READ_FIXED, self.fd, self.buf, self.buf_len, self.offset);
        e.set_buf_index(self.buf_index);
        e
    }
}

/// Write from a pre-registered buffer.
#[derive(Debug, Clone, Copy)]
pub struct WriteFixed {
    pub fd: i32,
    pub buf: u64,
    pub buf_len: u32,
    pub offset: u64,
    pub buf_index: u16,
}

impl Op for WriteFixed {
    open spec fn code_spec() -> u8 {
        WRITE_FIXED
    }

    open spec fn entry_spec(&self) -> Entry {
        Entry {
            buf_index_group: self.buf_index,
            ..Entry::shaped(WRITE_FIXED, self.fd, self.buf, self.buf_len, self.offset)
        }
    }

    fn code() -> u8 {
        WRITE_FIXED
    }

    fn entry(&self) -> Entry {
        let mut e = Entry::shape(WRITE_FIXED, self.fd, self.buf, self.buf_len, self.offset);
        e.set_buf_index(self.buf_index);
        e
    }
}

/// One-shot poll for readiness.
#[derive(Debug, Clone, Copy)]
pub struct PollAdd {
    pub fd: i32,
    pub poll_mask: u16,
}

impl Op for PollAdd {
    open spec fn code_spec() -> u8 {
        POLL_ADD
    }

    open spec fn entry_spec(&self) -> Entry {
        Entry { op_flags: self.poll_mask as u32, ..Entry::shaped(POLL_ADD, self.fd, 0, 0, 0) }
    }

    fn code() -> u8 {
        POLL_ADD
    }

    fn entry(&self) -> Entry {
        let mut e = Entry::shape(POLL_ADD, self.fd, 0, 0, 0);
        e.set_poll_events(self.poll_mask);
        e
    }
}

/// Removes a pending poll, addressed by its user-data token.
#[derive(Debug, Clone, Copy)]
pub struct PollRemove {
    pub fd: i32,
    pub user_data: u64,
}

impl Op for PollRemove {
    open spec fn code_spec() -> u8 {
        POLL_REMOVE
    }

    open spec fn entry_spec(&self) -> Entry {
        Entry::shaped(POLL_REMOVE, self.fd, self.user_data, 0, 0)
    }

    fn code() -> u8 {
        POLL_REMOVE
    }

    fn entry(&self) -> Entry {
        Entry::shape(POLL_REMOVE, self.fd, self.user_data, 0, 0)
    }
}

/// Synchronises a file range.
#[derive(Debug, Clone, Copy)]
pub struct SyncFileRange {
    pub fd: i32,
    pub offset: u64,
    pub len: u32,
    pub flags: u32,
}

impl Op for SyncFileRange {
    open spec fn code_spec() -> u8 {
        SYNC_FILE_RANGE
    }

    open spec fn entry_spec(&self) -> Entry {
        Entry {
            op_flags: self.flags,
            ..Entry::shaped(SYNC_FILE_RANGE, self.fd, 0, self.len, self.offset)
        }
    }

    fn code() -> u8 {
        SYNC_FILE_RANGE
    }

    fn entry(&self) -> Entry {
        let mut e = Entry::shape(SYNC_FILE_RANGE, self.fd, 0, self.len, self.offset);
        e.set_sync_range_flags(self.flags);
        e
    }
}

/// Sends a message: `msg` is the address of a msghdr structure.
#[derive(Debug, Clone, Copy)]
pub struct SendMsg {
    pub fd: i32,
    pub msg: u64,
    pub flags: u32,
}

impl Op for SendMsg {
    open spec fn code_spec() -> u8 {
        SENDMSG
    }

    open spec fn entry_spec(&self) -> Entry {
        Entry { op_flags: self.flags, ..Entry::shaped(SENDMSG, self.fd, self.msg, 1, 0) }
    }

    fn code() -> u8 {
        SENDMSG
    }

    fn entry(&self) -> Entry {
        let mut e = Entry::shape(SENDMSG, self.fd, self.msg, 1, 0);
        e.set_msg_flags(self.flags);
        e
    }
}

/// Receives a message: `msg` is the address of a msghdr structure.
#[derive(Debug, Clone, Copy)]
pub struct RecvMsg {
    pub fd: i32,
    pub msg: u64,
    pub flags: u32,
}

impl Op for RecvMsg {
    open spec fn code_spec() -> u8 {
        RECVMSG
    }

    open spec fn entry_spec(&self) -> Entry {
        Entry { op_flags: self.flags, ..Entry::shaped(RECVMSG, self.fd, self.msg, 1, 0) }
    }

    fn code() -> u8 {
        RECVMSG
    }

    fn entry(&self) -> Entry {
        let mut e = Entry::shape(RECVMSG, self.fd, self.msg, 1, 0);
        e.set_msg_flags(self.flags);
        e
    }
}

/// A timeout: `ts` is the address of a timespec; the completion fires after
/// `count` completions or when the clock runs out.
#[derive(Debug, Clone, Copy)]
pub struct Timeout {
    pub ts: u64,
    pub count: u32,
    pub flags: u32,
}

impl Op for Timeout {
    open spec fn code_spec() -> u8 {
        TIMEOUT
    }

    open spec fn entry_spec(&self) -> Entry {
        Entry { op_flags: self.flags, ..Entry::shaped(TIMEOUT, -1i32, self.ts, 1, self.count as u64) }
    }

    fn code() -> u8 {
        TIMEOUT
    }

    fn entry(&self) -> Entry {
        let mut e = Entry::shape(TIMEOUT, -1i32, self.ts, 1, self.count as u64);
        e.set_timeout_flags(self.flags);
        e
    }
}

/// Removes a pending timeout, addressed by its user-data token.
#[derive(Debug, Clone, Copy)]
pub struct TimeoutRemove {
    pub user_data: u64,
    pub flags: u32,
}

impl Op for TimeoutRemove {
    open spec fn code_spec() -> u8 {
        TIMEOUT_REMOVE
    }

    open spec fn entry_spec(&self) -> Entry {
        Entry { op_flags: self.flags, ..Entry::shaped(TIMEOUT_REMOVE, -1i32, self.user_data, 0, 0) }
    }

    fn code() -> u8 {
        TIMEOUT_REMOVE
    }

    fn entry(&self) -> Entry {
        let mut e = Entry::shape(TIMEOUT_REMOVE, -1i32, self.user_data, 0, 0);
        e.set_timeout_flags(self.flags);
        e
    }
}

/// Accepts a connection: `addr` and `addr_len` are the addresses of a
/// sockaddr structure and its length word.
#[derive(Debug, Clone, Copy)]
pub struct Accept {
    pub fd: i32,
    pub addr: u64,
    pub addr_len: u64,
    pub flags: u32,
}

impl Op for Accept {
    open spec fn code_spec() -> u8 {
        ACCEPT
    }

    open spec fn entry_spec(&self) -> Entry {
        Entry { op_flags: self.flags, ..Entry::shaped(ACCEPT, self.fd, self.addr, 0, self.addr_len) }
    }

    fn code() -> u8 {
        ACCEPT
    }

    fn entry(&self) -> Entry {
        let mut e = Entry::shape(ACCEPT, self.fd, self.addr, 0, self.addr_len);
        e.set_accept_flags(self.flags);
        e
    }
}

/// Cancels a pending submission, addressed by its user-data token.
#[derive(Debug, Clone, Copy)]
pub struct Cancel {
    pub user_data: u64,
    pub flags: u32,
}

impl Op for Cancel {
    open spec fn code_spec() -> u8 {
        ASYNC_CANCEL
    }

    open spec fn entry_spec(&self) -> Entry {
        Entry { op_flags: self.flags, ..Entry::shaped(ASYNC_CANCEL, -1i32, self.user_data, 0, 0) }
    }

    fn code() -> u8 {
        ASYNC_CANCEL
    }

    fn entry(&self) -> Entry {
        let mut e = Entry::shape(ASYNC_CANCEL, -1i32, self.user_data, 0, 0);
        e.set_cancel_flags(self.flags);
        e
    }
}

/// A timeout linked to the previous submission: `ts` is the address of a
/// timespec.
#[derive(Debug, Clone, Copy)]
pub struct LinkTimeout {
    pub ts: u64,
    pub flags: u32,
}

impl Op for LinkTimeout {
    open spec fn code_spec() -> u8 {
        LINK_TIMEOUT
    }

    open spec fn entry_spec(&self) -> Entry {
        Entry { op_flags: self.flags, ..Entry::shaped(LINK_TIMEOUT, -1i32, self.ts, 1, 0) }
    }

    fn code() -> u8 {
        LINK_TIMEOUT
    }

    fn entry(&self) -> Entry {
        let mut e = Entry::shape(LINK_TIMEOUT, -1i32, self.ts, 1, 0);
        e.set_timeout_flags(self.flags);
        e
    }
}

/// Connects a socket: `addr` is the address of a sockaddr structure of
/// `addr_len` bytes.
#[derive(Debug, Clone, Copy)]
pub struct Connect {
    pub fd: i32,
    pub addr: u64,
    pub addr_len: u32,
}

impl Op for Connect {
    open spec fn code_spec() -> u8 {
        CONNECT
    }

    open spec fn entry_spec(&self) -> Entry {
        Entry::shaped(CONNECT, self.fd, self.addr, 0, self.addr_len as u64)
    }

    fn code() -> u8 {
        CONNECT
    }

    fn entry(&self) -> Entry {
        Entry::shape(CONNECT, self.fd, self.addr, 0, self.addr_len as u64)
    }
}

/// Preallocates file space; the length travels in the address field.
#[derive(Debug, Clone, Copy)]
pub struct Fallocate {
    pub fd: i32,
    pub mode: u32,
    pub offset: u64,
    pub len: u64,
}

impl Op for Fallocate {
    open spec fn code_spec() -> u8 {
        FALLOCATE
    }

    open spec fn entry_spec(&self) -> Entry {
        Entry::shaped(FALLOCATE, self.fd, self.len, self.mode, self.offset)
    }

    fn code() -> u8 {
        FALLOCATE
    }

    fn entry(&self) -> Entry {
        Entry::shape(FALLOCATE, self.fd, self.len, self.mode, self.offset)
    }
}

/// Opens a file relative to a directory: `path` is the address of a
/// NUL-terminated path string.
#[derive(Debug, Clone, Copy)]
pub struct Openat {
    pub dfd: i32,
    pub path: u64,
    pub flags: u32,
    pub mode: u32,
}

impl Op for Openat {
    open spec fn code_spec() -> u8 {
        OPENAT
    }

    open spec fn entry_spec(&self) -> Entry {
        Entry { op_flags: self.flags, ..Entry::shaped(OPENAT, self.dfd, self.path, self.mode, 0) }
    }

    fn code() -> u8 {
        OPENAT
    }

    fn entry(&self) -> Entry {
        let mut e = Entry::shape(OPENAT, self.dfd, self.path, self.mode, 0);
        e.set_open_flags(self.flags);
        e
    }
}

/// Closes a file descriptor.
#[derive(Debug, Clone, Copy)]
pub struct Close {
    pub fd: i32,
}

impl Op for Close {
    open spec fn code_spec() -> u8 {
        CLOSE
    }

    open spec fn entry_spec(&self) -> Entry {
        Entry::shaped(CLOSE, self.fd, 0, 0, 0)
    }

    fn code() -> u8 {
        CLOSE
    }

    fn entry(&self) -> Entry {
        Entry::shape(CLOSE, self.fd, 0, 0, 0)
    }
}

/// Updates the registered-files table: `fds` is the address of `nr_fds`
/// descriptors, written at `offset` within the table.
#[derive(Debug, Clone, Copy)]
pub struct FilesUpdate {
    pub fds: u64,
    pub nr_fds: u32,
    pub offset: u32,
}

impl Op for FilesUpdate {
    open spec fn code_spec() -> u8 {
        FILES_UPDATE
    }

    open spec fn entry_spec(&self) -> Entry {
        Entry::shaped(FILES_UPDATE, -1i32, self.fds, self.nr_fds, self.offset as u64)
    }

    fn code() -> u8 {
        FILES_UPDATE
    }

    fn entry(&self) -> Entry {
        Entry::shape(FILES_UPDATE, -1i32, self.fds, self.nr_fds, self.offset as u64)
    }
}

/// Queries extended file status: `path` and `statxbuf` are the addresses of
/// the path string and the result buffer.
#[derive(Debug, Clone, Copy)]
pub struct Statx {
    pub dfd: i32,
    pub path: u64,
    pub flags: u32,
    pub mask: u32,
    pub statxbuf: u64,
}

impl Op for Statx {
    open spec fn code_spec() -> u8 {
        STATX
    }

    open spec fn entry_spec(&self) -> Entry {
        Entry {
            op_flags: self.flags,
            ..Entry::shaped(STATX, self.dfd, self.path, self.mask, self.statxbuf)
        }
    }

    fn code() -> u8 {
        STATX
    }

    fn entry(&self) -> Entry {
        let mut e = Entry::shape(STATX, self.dfd, self.path, self.mask, self.statxbuf);
        e.set_statx_flags(self.flags);
        e
    }
}

/// Plain read into a buffer of `buf_len` bytes at address `buf`.
#[derive(Debug, Clone, Copy)]
pub struct Read {
    pub fd: i32,
    pub buf: u64,
    pub buf_len: u32,
    pub offset: u64,
}

impl Op for Read {
    open spec fn code_spec() -> u8 {
        READ
    }

    open spec fn entry_spec(&self) -> Entry {
        Entry::shaped(READ, self.fd, self.buf, self.buf_len, self.offset)
    }

    fn code() -> u8 {
        READ
    }

    fn entry(&self) -> Entry {
        Entry::shape(READ, self.fd, self.buf, self.buf_len, self.offset)
    }
}

/// Plain write from a buffer of `data_len` bytes at address `data`.
#[derive(Debug, Clone, Copy)]
pub struct Write {
    pub fd: i32,
    pub data: u64,
    pub data_len: u32,
    pub offset: u64,
}

impl Op for Write {
    open spec fn code_spec() -> u8 {
        WRITE
    }

    open spec fn entry_spec(&self) -> Entry {
        Entry::shaped(WRITE, self.fd, self.data, self.data_len, self.offset)
    }

    fn code() -> u8 {
        WRITE
    }

    fn entry(&self) -> Entry {
        Entry::shape(WRITE, self.fd, self.data, self.data_len, self.offset)
    }
}

/// File access-pattern advice.
#[derive(Debug, Clone, Copy)]
pub struct Fadvise {
    pub fd: i32,
    pub offset: u64,
    pub len: u32,
    pub advice: i32,
}

impl Op for Fadvise {
    open spec fn code_spec() -> u8 {
        FADVISE
    }

    open spec fn entry_spec(&self) -> Entry {
        Entry {
            op_flags: u32_bits(self.advice),
            ..Entry::shaped(FADVISE, self.fd, 0, self.len, self.offset)
        }
    }

    fn code() -> u8 {
        FADVISE
    }

    fn entry(&self) -> Entry {
        let mut e = Entry::shape(FADVISE, self.fd, 0, self.len, self.offset);
        e.set_fadvise_advice_flags(u32_bits_of(self.advice));
        e
    }
}

/// Memory access-pattern advice for `mem_len` bytes at address `mem`.
#[derive(Debug, Clone, Copy)]
pub struct Madvise {
    pub mem: u64,
    pub mem_len: u32,
    pub advice: i32,
}

impl Op for Madvise {
    open spec fn code_spec() -> u8 {
        MADVISE
    }

    open spec fn entry_spec(&self) -> Entry {
        Entry {
            op_flags: u32_bits(self.advice),
            ..Entry::shaped(MADVISE, -1i32, self.mem, self.mem_len, 0)
        }
    }

    fn code() -> u8 {
        MADVISE
    }

    fn entry(&self) -> Entry {
        let mut e = Entry::shape(MADVISE, -1i32, self.mem, self.mem_len, 0);
        e.set_fadvise_advice_flags(u32_bits_of(self.advice));
        e
    }
}

/// Sends from a buffer of `data_len` bytes at address `data`.
#[derive(Debug, Clone, Copy)]
pub struct Send {
    pub sockfd: i32,
    pub data: u64,
    pub data_len: u32,
    pub flags: u32,
}

impl Op for Send {
    open spec fn code_spec() -> u8 {
        SEND
    }

    open spec fn entry_spec(&self) -> Entry {
        Entry { op_flags: self.flags, ..Entry::shaped(SEND, self.sockfd, self.data, self.data_len, 0) }
    }

    fn code() -> u8 {
        SEND
    }

    fn entry(&self) -> Entry {
        let mut e = Entry::shape(SEND, self.sockfd, self.data, self.data_len, 0);
        e.set_msg_flags(self.flags);
        e
    }
}

/// Receives into a buffer of `buf_len` bytes at address `buf`.
#[derive(Debug, Clone, Copy)]
pub struct Recv {
    pub sockfd: i32,
    pub buf: u64,
    pub buf_len: u32,
    pub flags: u32,
}

impl Op for Recv {
    open spec fn code_spec() -> u8 {
        RECV
    }

    open spec fn entry_spec(&self) -> Entry {
        Entry { op_flags: self.flags, ..Entry::shaped(RECV, self.sockfd, self.buf, self.buf_len, 0) }
    }

    fn code() -> u8 {
        RECV
    }

    fn entry(&self) -> Entry {
        let mut e = Entry::shape(RECV, self.sockfd, self.buf, self.buf_len, 0);
        e.set_msg_flags(self.flags);
        e
    }
}

/// The open-how structure the second open variant points at.
#[derive(Debug, Clone, Copy, PartialEq, Eq, Structural)]
pub struct OpenHow {
    pub flags: u64,
    pub mode: u64,
    pub resolve: u64,
}

/// The byte size of [`OpenHow`]: three 64-bit words.
pub const OPEN_HOW_SIZE: u32 = 24;

/// Opens a file with extended options: `path` and `how` are the addresses
/// of the path string and an [`OpenHow`] structure.
#[derive(Debug, Clone, Copy)]
pub struct Openat2 {
    pub dfd: i32,
    pub path: u64,
    pub how: u64,
}

impl Op for Openat2 {
    open spec fn code_spec() -> u8 {
        OPENAT2
    }

    open spec fn entry_spec(&self) -> Entry {
        Entry::shaped(OPENAT2, self.dfd, self.path, OPEN_HOW_SIZE, self.how)
    }

    fn code() -> u8 {
        OPENAT2
    }

    fn entry(&self) -> Entry {
        Entry::shape(OPENAT2, self.dfd, self.path, OPEN_HOW_SIZE, self.how)
    }
}

/// Epoll control: `ev` is the address of an epoll event structure, and the
/// target descriptor travels in the offset field.
#[derive(Debug, Clone, Copy)]
pub struct EpollCtl {
    pub epfd: i32,
    pub fd: i32,
    pub op: u32,
    pub ev: u64,
}

impl Op for EpollCtl {
    open spec fn code_spec() -> u8 {
        EPOLL_CTL
    }

    open spec fn entry_spec(&self) -> Entry {
        Entry::shaped(EPOLL_CTL, self.epfd, self.ev, self.op, u64_bits(self.fd))
    }

    fn code() -> u8 {
        EPOLL_CTL
    }

    fn entry(&self) -> Entry {
        let target = u64_bits_of(self.fd);
        Entry::shape(EPOLL_CTL, self.epfd, self.ev, self.op, target)
    }
}

/// Splices `nbytes` from one descriptor to another; the input side travels
/// in the splice fields.
#[derive(Debug, Clone, Copy)]
pub struct Splice {
    pub fd_in: i32,
    pub off_in: u64,
    pub fd_out: i32,
    pub off_out: u64,
    pub nbytes: u32,
    pub flags: u32,
}

impl Op for Splice {
    open spec fn code_spec() -> u8 {
        SPLICE
    }

    open spec fn entry_spec(&self) -> Entry {
        Entry {
            addr_splice_off_in: self.off_in,
            splice_fd_in: self.fd_in,
            op_flags: self.flags,
            ..Entry::shaped(SPLICE, self.fd_out, 0, self.nbytes, self.off_out)
        }
    }

    fn code() -> u8 {
        SPLICE
    }

    fn entry(&self) -> Entry {
        let mut e = Entry::shape(SPLICE, self.fd_out, 0, self.nbytes, self.off_out);
        e.set_splice_off_in(self.off_in);
        e.set_splice_fd_in(self.fd_in);
        e.set_splice_flags(self.flags);
        e
    }
}

/// Hands `nr` buffers of `addr_len` bytes each, starting at address `addr`,
/// to the kernel under group `bgid`, with ids counting up from `bid`.
#[derive(Debug, Clone, Copy)]
pub struct ProvideBuffers {
    pub addr: u64,
    pub addr_len: u32,
    pub nr: i32,
    pub bgid: u16,
    pub bid: u32,
}

impl Op for ProvideBuffers {
    open spec fn code_spec() -> u8 {
        PROVIDE_BUFFERS
    }

    open spec fn entry_spec(&self) -> Entry {
        Entry {
            buf_index_group: self.bgid,
            ..Entry::shaped(PROVIDE_BUFFERS, self.nr, self.addr, self.addr_len, self.bid as u64)
        }
    }

    fn code() -> u8 {
        PROVIDE_BUFFERS
    }

    fn entry(&self) -> Entry {
        let mut e = Entry::shape(PROVIDE_BUFFERS, self.nr, self.addr, self.addr_len, self.bid as u64);
        e.set_buf_group(self.bgid);
        e
    }
}

/// Takes `nr` buffers of group `bgid` back from the kernel.
#[derive(Debug, Clone, Copy)]
pub struct RemoveBuffers {
    pub nr: i32,
    pub bgid: u16,
}

impl Op for RemoveBuffers {
    open spec fn code_spec() -> u8 {
        REMOVE_BUFFERS
    }

    open spec fn entry_spec(&self) -> Entry {
        Entry { buf_index_group: self.bgid, ..Entry::shaped(REMOVE_BUFFERS, self.nr, 0, 0, 0) }
    }

    fn code() -> u8 {
        REMOVE_BUFFERS
    }

    fn entry(&self) -> Entry {
        let mut e = Entry::shape(REMOVE_BUFFERS, self.nr, 0, 0, 0);
        e.set_buf_group(self.bgid);
        e
    }
}

} // verus!
