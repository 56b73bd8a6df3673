use ruyi_ur::op::{self, Op};

#[test]
fn nop_shape() {
    let e = op::Nop.entry();
    assert_eq!(e.opcode, op::NOP);
    assert_eq!(e.fd, -1);
    assert_eq!(e.flags, 0);
    assert_eq!(e.ioprio, 0);
    assert_eq!(e.off_addr2, 0);
    assert_eq!(e.addr_splice_off_in, 0);
    assert_eq!(e.len, 0);
    assert_eq!(e.op_flags, 0);
    assert_eq!(e.user_data, 0);
    assert_eq!(e.buf_index_group, 0);
    assert_eq!(e.personality, 0);
    assert_eq!(e.splice_fd_in, 0);
    assert_eq!(e.pad0, 0);
    assert_eq!(e.pad1, 0);
}

#[test]
fn readv_shape() {
    let e = op::Readv { fd: 5, iovecs: 0x1000, nr_vecs: 2, offset: 4096 }.entry();
    assert_eq!(e.opcode, op::READV);
    assert_eq!(e.fd, 5);
    assert_eq!(e.addr_splice_off_in, 0x1000);
    assert_eq!(e.len, 2);
    assert_eq!(e.off_addr2, 4096);
}

#[test]
fn writev_shape() {
    let e = op::Writev { fd: 3, iovecs: 0x2000, nr_vecs: 1, offset: 0 }.entry();
    assert_eq!(e.opcode, op::WRITEV);
    assert_eq!(e.fd, 3);
    assert_eq!(e.addr_splice_off_in, 0x2000);
    assert_eq!(e.len, 1);
}

#[test]
fn fsync_carries_flags() {
    let e = op::Fsync { fd: 7, flags: 1 }.entry();
    assert_eq!(e.opcode, op::FSYNC);
    assert_eq!(e.fd, 7);
    assert_eq!(e.op_flags, 1);
    assert_eq!(e.len, 0);
}

#[test]
fn read_fixed_carries_buffer_index() {
    let e = op::ReadFixed { fd: 4, buf: 0x3000, buf_len: 512, offset: 1024, buf_index: 3 }.entry();
    assert_eq!(e.opcode, op::READ_FIXED);
    assert_eq!(e.buf_index_group, 3);
    assert_eq!(e.addr_splice_off_in, 0x3000);
    assert_eq!(e.len, 512);
    assert_eq!(e.off_addr2, 1024);
}

#[test]
fn write_fixed_carries_buffer_index() {
    let e = op::WriteFixed { fd: 4, buf: 0x4000, buf_len: 256, offset: 0, buf_index: 1 }.entry();
    assert_eq!(e.opcode, op::WRITE_FIXED);
    assert_eq!(e.buf_index_group, 1);
}

#[test]
fn poll_add_stores_events() {
    let e = op::PollAdd { fd: 6, poll_mask: 0x0041 }.entry();
    assert_eq!(e.opcode, op::POLL_ADD);
    assert_eq!(e.op_flags, 0x0041);
    assert_eq!(e.len, 0);
}

#[test]
fn poll_remove_targets_token() {
    let e = op::PollRemove { fd: 6, user_data: 99 }.entry();
    assert_eq!(e.opcode, op::POLL_REMOVE);
    assert_eq!(e.addr_splice_off_in, 99);
}

#[test]
fn sync_file_range_shape() {
    let e = op::SyncFileRange { fd: 2, offset: 100, len: 50, flags: 7 }.entry();
    assert_eq!(e.opcode, op::SYNC_FILE_RANGE);
    assert_eq!(e.off_addr2, 100);
    assert_eq!(e.len, 50);
    assert_eq!(e.op_flags, 7);
    assert_eq!(e.addr_splice_off_in, 0);
}

#[test]
fn sendmsg_len_is_one() {
    let e = op::SendMsg { fd: 9, msg: 0x5000, flags: 2 }.entry();
    assert_eq!(e.opcode, op::SENDMSG);
    assert_eq!(e.addr_splice_off_in, 0x5000);
    assert_eq!(e.len, 1);
    assert_eq!(e.op_flags, 2);
}

#[test]
fn recvmsg_len_is_one() {
    let e = op::RecvMsg { fd: 9, msg: 0x6000, flags: 4 }.entry();
    assert_eq!(e.opcode, op::RECVMSG);
    assert_eq!(e.len, 1);
    assert_eq!(e.op_flags, 4);
}

#[test]
fn timeout_shape() {
    let e = op::Timeout { ts: 0x7000, count: 3, flags: 1 }.entry();
    assert_eq!(e.opcode, op::TIMEOUT);
    assert_eq!(e.fd, -1);
    assert_eq!(e.addr_splice_off_in, 0x7000);
    assert_eq!(e.len, 1);
    assert_eq!(e.off_addr2, 3);
    assert_eq!(e.op_flags, 1);
}

#[test]
fn timeout_remove_targets_token() {
    let e = op::TimeoutRemove { user_data: 77, flags: 0 }.entry();
    assert_eq!(e.opcode, op::TIMEOUT_REMOVE);
    assert_eq!(e.fd, -1);
    assert_eq!(e.addr_splice_off_in, 77);
}

#[test]
fn accept_shape() {
    let e = op::Accept { fd: 10, addr: 0x8000, addr_len: 0x8010, flags: 0x800 }.entry();
    assert_eq!(e.opcode, op::ACCEPT);
    assert_eq!(e.addr_splice_off_in, 0x8000);
    assert_eq!(e.off_addr2, 0x8010);
    assert_eq!(e.op_flags, 0x800);
    assert_eq!(e.len, 0);
}

#[test]
fn cancel_shape() {
    let e = op::Cancel { user_data: 55, flags: 0 }.entry();
    assert_eq!(e.opcode, op::ASYNC_CANCEL);
    assert_eq!(e.fd, -1);
    assert_eq!(e.addr_splice_off_in, 55);
}

#[test]
fn link_timeout_shape() {
    let e = op::LinkTimeout { ts: 0x9000, flags: 1 }.entry();
    assert_eq!(e.opcode, op::LINK_TIMEOUT);
    assert_eq!(e.fd, -1);
    assert_eq!(e.addr_splice_off_in, 0x9000);
    assert_eq!(e.len, 1);
    assert_eq!(e.off_addr2, 0);
}

#[test]
fn connect_shape() {
    let e = op::Connect { fd: 11, addr: 0xA000, addr_len: 16 }.entry();
    assert_eq!(e.opcode, op::CONNECT);
    assert_eq!(e.addr_splice_off_in, 0xA000);
    assert_eq!(e.off_addr2, 16);
    assert_eq!(e.len, 0);
}

#[test]
fn fallocate_length_travels_as_address() {
    let e = op::Fallocate { fd: 12, mode: 1, offset: 2048, len: 8192 }.entry();
    assert_eq!(e.opcode, op::FALLOCATE);
    assert_eq!(e.addr_splice_off_in, 8192);
    assert_eq!(e.len, 1);
    assert_eq!(e.off_addr2, 2048);
}

#[test]
fn openat_shape() {
    let e = op::Openat { dfd: -100, path: 0xB000, flags: 0x241, mode: 0o644 }.entry();
    assert_eq!(e.opcode, op::OPENAT);
    assert_eq!(e.fd, -100);
    assert_eq!(e.addr_splice_off_in, 0xB000);
    assert_eq!(e.len, 0o644);
    assert_eq!(e.op_flags, 0x241);
}

#[test]
fn close_shape() {
    let e = op::Close { fd: 13 }.entry();
    assert_eq!(e.opcode, op::CLOSE);
    assert_eq!(e.fd, 13);
}

#[test]
fn files_update_shape() {
    let e = op::FilesUpdate { fds: 0xC000, nr_fds: 4, offset: 2 }.entry();
    assert_eq!(e.opcode, op::FILES_UPDATE);
    assert_eq!(e.fd, -1);
    assert_eq!(e.addr_splice_off_in, 0xC000);
    assert_eq!(e.len, 4);
    assert_eq!(e.off_addr2, 2);
}

#[test]
fn statx_shape() {
    let e = op::Statx { dfd: -100, path: 0xD000, flags: 0x100, mask: 0x7FF, statxbuf: 0xD100 }
        .entry();
    assert_eq!(e.opcode, op::STATX);
    assert_eq!(e.addr_splice_off_in, 0xD000);
    assert_eq!(e.len, 0x7FF);
    assert_eq!(e.off_addr2, 0xD100);
    assert_eq!(e.op_flags, 0x100);
}

#[test]
fn read_shape() {
    let e = op::Read { fd: 14, buf: 0xE000, buf_len: 16, offset: 0 }.entry();
    assert_eq!(e.opcode, op::READ);
    assert_eq!(e.addr_splice_off_in, 0xE000);
    assert_eq!(e.len, 16);
    assert_eq!(e.off_addr2, 0);
}

#[test]
fn write_shape() {
    let e = op::Write { fd: 14, data: 0xF000, data_len: 32, offset: 64 }.entry();
    assert_eq!(e.opcode, op::WRITE);
    assert_eq!(e.addr_splice_off_in, 0xF000);
    assert_eq!(e.len, 32);
    assert_eq!(e.off_addr2, 64);
}

#[test]
fn fadvise_advice_in_op_flags() {
    let e = op::Fadvise { fd: 15, offset: 0, len: 100, advice: 4 }.entry();
    assert_eq!(e.opcode, op::FADVISE);
    assert_eq!(e.op_flags, 4);
    assert_eq!(e.len, 100);
}

#[test]
fn madvise_negative_advice_two_complement() {
    let e = op::Madvise { mem: 0x10000, mem_len: 4096, advice: -1 }.entry();
    assert_eq!(e.opcode, op::MADVISE);
    assert_eq!(e.fd, -1);
    assert_eq!(e.op_flags, 0xFFFF_FFFF);
    assert_eq!(e.addr_splice_off_in, 0x10000);
    assert_eq!(e.len, 4096);
}

#[test]
fn send_shape() {
    let e = op::Send { sockfd: 16, data: 0x11000, data_len: 10, flags: 0x40 }.entry();
    assert_eq!(e.opcode, op::SEND);
    assert_eq!(e.addr_splice_off_in, 0x11000);
    assert_eq!(e.len, 10);
    assert_eq!(e.op_flags, 0x40);
    assert_eq!(e.off_addr2, 0);
}

#[test]
fn recv_shape() {
    let e = op::Recv { sockfd: 16, buf: 0x12000, buf_len: 20, flags: 0 }.entry();
    assert_eq!(e.opcode, op::RECV);
    assert_eq!(e.len, 20);
}

#[test]
fn openat2_length_is_open_how_size() {
    let e = op::Openat2 { dfd: -100, path: 0x13000, how: 0x13100 }.entry();
    assert_eq!(e.opcode, op::OPENAT2);
    assert_eq!(e.len, op::OPEN_HOW_SIZE);
    assert_eq!(e.len, 24);
    assert_eq!(e.off_addr2, 0x13100);
}

#[test]
fn epoll_ctl_shape() {
    let e = op::EpollCtl { epfd: 17, fd: 18, op: 1, ev: 0x14000 }.entry();
    assert_eq!(e.opcode, op::EPOLL_CTL);
    assert_eq!(e.fd, 17);
    assert_eq!(e.addr_splice_off_in, 0x14000);
    assert_eq!(e.len, 1);
    assert_eq!(e.off_addr2, 18);
}

#[test]
fn epoll_ctl_negative_target_sign_extends() {
    let e = op::EpollCtl { epfd: 17, fd: -1, op: 2, ev: 0 }.entry();
    assert_eq!(e.off_addr2, u64::MAX);
}

#[test]
fn splice_shape() {
    let e = op::Splice { fd_in: 19, off_in: 7, fd_out: 20, off_out: 9, nbytes: 128, flags: 1 }
        .entry();
    assert_eq!(e.opcode, op::SPLICE);
    assert_eq!(e.fd, 20);
    assert_eq!(e.off_addr2, 9);
    assert_eq!(e.len, 128);
    assert_eq!(e.addr_splice_off_in, 7);
    assert_eq!(e.splice_fd_in, 19);
    assert_eq!(e.op_flags, 1);
}

#[test]
fn provide_buffers_shape() {
    let e = op::ProvideBuffers { addr: 0x15000, addr_len: 256, nr: 8, bgid: 5, bid: 100 }.entry();
    assert_eq!(e.opcode, op::PROVIDE_BUFFERS);
    assert_eq!(e.fd, 8);
    assert_eq!(e.addr_splice_off_in, 0x15000);
    assert_eq!(e.len, 256);
    assert_eq!(e.off_addr2, 100);
    assert_eq!(e.buf_index_group, 5);
}

#[test]
fn remove_buffers_shape() {
    let e = op::RemoveBuffers { nr: 8, bgid: 5 }.entry();
    assert_eq!(e.opcode, op::REMOVE_BUFFERS);
    assert_eq!(e.fd, 8);
    assert_eq!(e.buf_index_group, 5);
}

#[test]
fn opcodes_are_consecutive() {
    assert_eq!(op::NOP, 0);
    assert_eq!(op::TIMEOUT, 11);
    assert_eq!(op::ASYNC_CANCEL, 14);
    assert_eq!(op::PROVIDE_BUFFERS, 31);
    assert_eq!(op::REMOVE_BUFFERS, 32);
}

#[test]
fn op_codes_match_entries() {
    assert_eq!(op::Nop::code(), op::NOP);
    assert_eq!(op::Timeout::code(), op::TIMEOUT);
    assert_eq!(op::RemoveBuffers::code(), op::REMOVE_BUFFERS);
}
