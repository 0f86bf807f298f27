use rrddmma::mr::{Mr, MrRemote, Sge};
use rrddmma::send::{send_wr, SendWr};
use rrddmma::wr::{AtomicTarget, WrUnion};

#[test]
fn send_wr_starts_zeroed() {
    let w: SendWr<4> = send_wr::<4>();
    let raw = w.raw();
    assert_eq!((raw.wr_id, raw.num_sge, raw.opcode, raw.send_flags, raw.imm_data), (0, 0, 0, 0, 0));
    assert_eq!(raw.wr, WrUnion::Zeroed);
    assert!(w.posted_sgl().is_empty());
}

#[test]
fn send_wr_setters_chain() {
    let m = Mr::registered(1, 0x1000, 256, 3, 4);
    let s0 = m.as_slice();
    let mut w = SendWr::<4>::new();
    w.set_id(42).set_sge(2, &s0).set_flag_signaled().set_flag_inline().set_wr_send(Some(9));
    let raw = w.raw();
    assert_eq!(raw.wr_id, 42);
    assert_eq!(raw.num_sge, 3);
    assert_eq!(raw.send_flags, 2 | 8);
    assert_eq!(raw.opcode, 3);
    assert_eq!(raw.imm_data, 9);
    let sgl = w.posted_sgl();
    assert_eq!(sgl.len(), 3);
    assert_eq!(sgl[2], Sge { addr: 0x1000, length: 256, lkey: 3 });
    assert_eq!(sgl[0], Sge { addr: 0, length: 0, lkey: 0 });
}

#[test]
fn send_wr_sgl_len_and_flags() {
    let m = Mr::registered(1, 0x1000, 256, 3, 4);
    let mut w = SendWr::<2>::new();
    w.set_sge(0, &m.as_slice());
    assert_eq!(w.raw().num_sge, 1);
    w.set_sgl_len(2);
    assert_eq!(w.raw().num_sge, 2);
    w.set_sge(0, &m.as_slice());
    assert_eq!(w.raw().num_sge, 2);
    w.set_flags(1).set_flag_solicited();
    assert_eq!(w.raw().send_flags, 5);
}

#[test]
fn send_wr_one_sided_and_atomics() {
    let remote = MrRemote::new(0x4000, 8, 77);
    let mut w = SendWr::<1>::new();
    w.set_wr_read(remote);
    assert_eq!(w.raw().opcode, 4);
    w.set_wr_write(remote, None);
    assert_eq!(w.raw().opcode, 0);
    w.set_wr_write(remote, Some(5));
    assert_eq!((w.raw().opcode, w.raw().imm_data), (1, 5));
    w.set_wr_send(None);
    assert_eq!((w.raw().opcode, w.raw().imm_data), (2, 5));
    w.set_wr_cas(remote, 10, 20);
    assert_eq!(w.raw().opcode, 5);
    assert_eq!(w.raw().wr, WrUnion::Atomic(AtomicTarget { remote_addr: 0x4000, compare_add: 10, swap: 20, rkey: 77 }));
    w.set_wr_faa(remote, 3);
    assert_eq!(w.raw().opcode, 6);
    assert_eq!(w.raw().wr, WrUnion::Atomic(AtomicTarget { remote_addr: 0x4000, compare_add: 3, swap: 0, rkey: 77 }));
}
