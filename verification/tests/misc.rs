use rrddmma::context::{Context, DeviceAttr, Pd};
use rrddmma::select::Select;
use rrddmma::wr::{RecvWr, SendWr, SendWrDetails, WrUnion};
use rrddmma::mr::Mr;
use rrddmma::remote_mem::RemoteMem;

#[test]
fn select_picks_by_truthiness() {
    assert_eq!(true.select_val(1, 2), 1);
    assert_eq!(false.select_val(1, 2), 2);
    assert_eq!(0u32.select_val("a", "b"), "b");
    assert_eq!(3i32.select_val("a", "b"), "a");
    assert_eq!(0usize.select_val(1, 2), 2);
    assert_eq!(9u64.select_val(1, 2), 1);
    assert_eq!(Some(0).select_val(1, 2), 1);
    assert_eq!(None::<u8>.select_val(1, 2), 2);
    assert_eq!(Ok::<u8, u8>(0).select_val(1, 2), 1);
    assert_eq!(Err::<u8, u8>(0).select_val(1, 2), 2);
    assert_eq!(1u8.select_val(1, 2), 1);
    assert_eq!((-1i64).select_val(1, 2), 1);
    assert_eq!(0i8.select_val(1, 2), 2);
    assert_eq!(0u16.select_val(1, 2), 2);
    assert_eq!(3isize.select_val(1, 2), 1);
    assert_eq!(0i16.select_val(1, 2), 2);
}

#[test]
fn select_calls_only_the_picked_function() {
    let picked = true.select(|| 10, || panic!("not picked"));
    assert_eq!(picked, 10);
    let other = 0u32.select(|| panic!("not picked"), || 20);
    assert_eq!(other, 20);
    assert!(Some(1).picks_first());
    assert!(!Err::<u8, u8>(1).picks_first());
}

#[test]
fn context_and_pd_accessors() {
    let ctx = Context::new(0x10, DeviceAttr { max_qp_wr: 64, max_sge: 4, phys_port_cnt: 2 });
    assert_eq!(ctx.as_raw(), 0x10);
    assert_eq!(ctx.attr().phys_port_cnt, 2);
    let pd = Pd::new(&ctx, 0x20);
    assert_eq!(pd.as_raw(), 0x20);
    assert_eq!(pd.context().as_raw(), 0x10);
    assert_eq!(pd.clone().as_raw(), 0x20);
}

#[test]
fn send_wr_lays_out_details() {
    let m = Mr::registered(1, 0x1000, 64, 3, 4);
    let s = m.as_slice();
    let w = SendWr::new(&[s], 9, true, SendWrDetails::Write { dst: RemoteMem::new(0x8000, 64, 5), imm: Some(1) });
    assert!(w.is_signaled());
    let raw = w.to_wr();
    assert_eq!((raw.wr_id, raw.num_sge, raw.opcode, raw.send_flags, raw.imm_data), (9, 1, 1, 2, 1));
    match raw.wr {
        WrUnion::Rdma(t) => assert_eq!((t.remote_addr, t.rkey), (0x8000, 5)),
        _ => panic!("a write targets remote memory"),
    }
    let mut r = SendWr::new(&[], 3, true, SendWrDetails::Read { src: RemoteMem::new(0x9000, 8, 6) });
    r.set_signaled(false);
    assert!(!r.is_signaled());
    assert_eq!(r.to_wr().send_flags, 0);
    assert_eq!(r.to_wr().opcode, 4);
    assert!(r.sgl().is_empty());
    let inl = SendWr::new(&[s], 1, false, SendWrDetails::SendRc { imm: None, inline: true });
    assert_eq!((inl.to_wr().opcode, inl.to_wr().send_flags), (2, 8));
    let cas = SendWr::new(&[s], 1, false, SendWrDetails::CompareSwap { dst: RemoteMem::new(0x9000, 8, 6), current: 1, new: 2 });
    assert_eq!(cas.to_wr().opcode, 5);
    let faa = SendWr::new(&[s], 1, false, SendWrDetails::FetchAdd { dst: RemoteMem::new(0x9000, 8, 6), add: 1 });
    assert_eq!(faa.to_wr().opcode, 6);
}

#[test]
fn recv_wr_lays_out_sgl() {
    let m = Mr::registered(1, 0x1000, 64, 3, 4);
    let w = RecvWr::new(&[m.as_slice(), m.as_slice()], 8);
    assert_eq!(w.sgl().len(), 2);
    let raw = w.to_wr();
    assert_eq!((raw.wr_id, raw.num_sge), (8, 2));
}
