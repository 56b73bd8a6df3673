use ruyi_ur::params::{
    mmap_plan, UringBuilder, UringParams, FEAT_SINGLE_MMAP, SETUP_ATTACH_WQ, SETUP_CLAMP,
    SETUP_CQSIZE, SETUP_IOPOLL, SETUP_SQPOLL, SETUP_SQ_AFF,
};
use ruyi_ur::{cq, sq, Uring};

fn zeroed_params() -> UringParams {
    UringBuilder::new(0).params()
}

#[test]
fn builder_defaults() {
    let b = UringBuilder::new(8);
    assert_eq!(b.entries, 8);
    assert_eq!(b.cq_entries, 0);
    assert_eq!(b.flags, 0);
    assert_eq!(b.sq_thread_cpu, 0);
    assert_eq!(b.sq_thread_idle, 0);
    assert_eq!(b.wq_fd, 0);
}

#[test]
fn builder_iopoll_sets_flag() {
    let b = UringBuilder::new(4).iopoll();
    assert_eq!(b.flags, SETUP_IOPOLL);
}

#[test]
fn builder_sqpoll_idle_implies_sqpoll() {
    let b = UringBuilder::new(4).sqpoll_idle(2000);
    assert_eq!(b.flags, SETUP_SQPOLL);
    assert_eq!(b.sq_thread_idle, 2000);
}

#[test]
fn builder_sqpoll_cpu_implies_affinity() {
    let b = UringBuilder::new(4).sqpoll_cpu(3);
    assert_eq!(b.flags, SETUP_SQPOLL | SETUP_SQ_AFF);
    assert_eq!(b.sq_thread_cpu, 3);
}

#[test]
fn builder_cqsize_clamp_attach() {
    let b = UringBuilder::new(4).cqsize(64).clamp().attach_wq(9);
    assert_eq!(b.flags, SETUP_CQSIZE | SETUP_CLAMP | SETUP_ATTACH_WQ);
    assert_eq!(b.cq_entries, 64);
    assert_eq!(b.wq_fd, 9);
}

#[test]
fn builder_params_encodes_configuration() {
    let p = UringBuilder::new(4).iopoll().cqsize(32).attach_wq(7).params();
    assert_eq!(p.flags, SETUP_IOPOLL | SETUP_CQSIZE | SETUP_ATTACH_WQ);
    assert_eq!(p.cq_entries, 32);
    assert_eq!(p.wq_fd, 7);
    assert_eq!(p.sq_entries, 0);
    assert_eq!(p.features, 0);
    assert_eq!(p.sq_off.array, 0);
    assert_eq!(p.cq_off.cqes, 0);
}

#[test]
fn uring_entries_starts_builder() {
    assert_eq!(Uring::entries(4), UringBuilder::new(4));
}

#[test]
fn mmap_plan_two_regions() {
    let mut p = zeroed_params();
    p.sq_entries = 4;
    p.cq_entries = 8;
    p.sq_off = sq::Offsets {
        head: 0,
        tail: 64,
        ring_mask: 256,
        ring_entries: 260,
        flags: 276,
        dropped: 272,
        array: 384,
    };
    p.cq_off = cq::Offsets {
        head: 128,
        tail: 192,
        ring_mask: 260,
        ring_entries: 264,
        overflow: 284,
        cqes: 320,
        flags: 280,
    };
    let plan = mmap_plan(&p);
    assert!(!plan.single);
    assert_eq!(plan.sq_ring_len, 384 + 4 * 4);
    assert_eq!(plan.cq_ring_len, 320 + 8 * 16);
    assert_eq!(plan.sqes_len, 4 * 64);
}

#[test]
fn mmap_plan_single_takes_larger_region() {
    let mut p = zeroed_params();
    p.features = FEAT_SINGLE_MMAP;
    p.sq_entries = 4;
    p.cq_entries = 8;
    p.sq_off.array = 384;
    p.cq_off.cqes = 320;
    let plan = mmap_plan(&p);
    assert!(plan.single);
    // SQ needs 400 bytes, CQ needs 448: the one region takes the larger.
    assert_eq!(plan.sq_ring_len, 448);
    assert_eq!(plan.cq_ring_len, 448);
    assert_eq!(plan.sqes_len, 256);
}

#[test]
fn params_accessors_mirror_fields() {
    let mut p = zeroed_params();
    p.flags = SETUP_SQPOLL;
    p.features = FEAT_SINGLE_MMAP;
    p.sq_off.array = 12;
    p.cq_off.cqes = 34;
    assert_eq!(p.flags(), SETUP_SQPOLL);
    assert_eq!(p.features(), FEAT_SINGLE_MMAP);
    assert!(p.single_mmap());
    assert_eq!(p.sq_off().array(), 12);
    assert_eq!(p.cq_off().cqes(), 34);
}
