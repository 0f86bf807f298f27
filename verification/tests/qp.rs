use rrddmma::context::{Context, DeviceAttr, Pd};
use rrddmma::cq::Cq;
use rrddmma::gid::{Gid, GidType, GidTyped};
use rrddmma::mr::{Mr, MrRemote, Sge, Slicing};
use rrddmma::port::{Port, PortAttr};
use rrddmma::qp::{QpCaps, QpEndpoint, QpPeer, QpState, QpType, GLOBAL_DC_KEY};
use rrddmma::queue_pair::{
    check_caps, connect_modifications, peer_ah_attr, AtomicArgError, CapName, ExpFeature, ExtAtomicOp, Qp, QpBuilder, QpCreationError, QpInitAttr,
    GLOBAL_INIT_PSN, GLOBAL_QKEY, IBV_EXP_QP_INIT_ATTR_ATOMICS_ARG, IBV_EXP_QP_INIT_ATTR_PD, IBV_QP_INIT_ATTR_PD, RawQpInitAttr,
};
use rrddmma::wr::{AtomicTarget, RawSendWr, WrUnion};

fn ctx() -> Context {
    Context::new(0x10, DeviceAttr { max_qp_wr: 256, max_sge: 8, phys_port_cnt: 2 })
}

fn gid(last: u8, v4: bool) -> Gid {
    let mut raw = [0u8; 16];
    if !v4 {
        raw[0] = 0xfe;
        raw[1] = 0x80;
    } else {
        raw[10] = 0xff;
        raw[11] = 0xff;
    }
    raw[15] = last;
    Gid::from_raw(raw)
}

fn port(state: u32) -> Port {
    let attr = PortAttr { state, active_mtu: 5, gid_tbl_len: 3, lid: 7, active_width: 2, active_speed: 32, link_layer: 2 };
    let gids = vec![
        GidTyped::new(gid(1, false), GidType::RoceV1),
        GidTyped::new(gid(2, true), GidType::RoceV2),
        GidTyped::new(gid(3, false), GidType::RoceV2),
    ];
    Port::new(1, attr, gids)
}

#[test]
fn qp_type_codes_roundtrip() {
    let all = [QpType::Rc, QpType::Uc, QpType::Ud, QpType::Xrc, QpType::RawPacket, QpType::XrcIni, QpType::XrcTgt, QpType::DcIni, QpType::Driver];
    let codes = [2u32, 3, 4, 5, 8, 9, 10, 32, 0xff];
    for (t, c) in all.iter().zip(codes.iter()) {
        assert_eq!(t.code(), *c);
        assert_eq!(u32::from(*t), *c);
        assert_eq!(QpType::from_code(*c), *t);
    }
    assert!(QpType::Rc.is_reliable() && QpType::Rc.is_connected());
    assert!(!QpType::Ud.is_connected() && !QpType::Ud.is_reliable());
    assert!(QpType::Uc.is_connected() && !QpType::Uc.is_reliable());
    assert!(QpType::XrcIni.is_initiator() && !QpType::XrcIni.is_target());
    assert!(QpType::XrcTgt.is_target());
    assert!(QpType::Xrc.is_reliable() && QpType::Xrc.is_connected());
    assert!(QpType::DcIni.is_connected() && !QpType::DcIni.is_reliable());
    assert!(QpType::DcIni.is_initiator() && !QpType::DcIni.is_target());
}

#[test]
fn qp_state_codes_roundtrip() {
    let all = [QpState::Reset, QpState::Init, QpState::Rtr, QpState::Rts, QpState::Sqd, QpState::Sqe, QpState::Error, QpState::Unknown];
    for (i, s) in all.iter().enumerate() {
        assert_eq!(s.code(), i as u32);
        assert_eq!(QpState::from_code(i as u32), *s);
    }
}

#[test]
fn qp_caps_presets() {
    let d: QpCaps = Default::default();
    assert_eq!(d, QpCaps::new(128, 128, 16, 16, 64));
    assert_eq!(QpCaps::for_dc_ini(), QpCaps::new(128, 0, 8, 0, 64));
    assert_eq!(QpCaps::zeroed(), QpCaps::new(0, 0, 0, 0, 0));
}

#[test]
fn check_caps_reports_first_missing_capability() {
    let c = ctx();
    assert_eq!(check_caps(&c, &QpCaps::new(256, 256, 8, 8, 0)), Ok(()));
    assert_eq!(check_caps(&c, &QpCaps::new(257, 300, 9, 9, 0)), Err(QpCreationError::CapabilityNotEnough(CapName::MaxSendWr, 256, 257)));
    assert_eq!(check_caps(&c, &QpCaps::new(1, 300, 9, 9, 0)), Err(QpCreationError::CapabilityNotEnough(CapName::MaxRecvWr, 256, 300)));
    assert_eq!(check_caps(&c, &QpCaps::new(1, 1, 9, 9, 0)), Err(QpCreationError::CapabilityNotEnough(CapName::MaxSendSge, 8, 9)));
    assert_eq!(check_caps(&c, &QpCaps::new(1, 1, 1, 9, 0)), Err(QpCreationError::CapabilityNotEnough(CapName::MaxRecvSge, 8, 9)));
    assert_eq!(CapName::MaxSendWr.name(), "max_send_wr");
    assert_eq!(CapName::MaxRecvSge.name(), "max_recv_sge");
}

#[test]
fn qp_builder_and_prepare() {
    let c = ctx();
    let pd = Pd::new(&c, 0x20);
    let scq = Cq { handle: 0x30, context: 0x10 };
    let rcq = Cq { handle: 0x31, context: 0x10 };
    let b = Qp::builder().send_cq(&scq).recv_cq(&rcq).qp_type(QpType::Rc).sq_sig_all(false)
        .caps(QpCaps::new(16, 16, 2, 2, 64)).enable_feature(ExpFeature::ExtendedAtomics, 16);
    let attr = Qp::prepare(&pd, b).unwrap();
    assert_eq!(attr.send_cq, scq);
    assert_eq!(attr.qp_type, QpType::Rc);
    assert!(attr.global_routing && attr.extended_atomics == Some(16));
    let raw = attr.to_init_attr();
    assert_eq!((raw.send_cq, raw.recv_cq, raw.qp_type, raw.sq_sig_all, raw.pd, raw.comp_mask), (0x30, 0x31, 2, 0, 0, 0));
    let ex = attr.to_init_attr_ex(&pd);
    assert_eq!((ex.pd, ex.comp_mask), (0x20, IBV_QP_INIT_ATTR_PD));
    let exp = attr.to_exp_init_attr(&pd);
    assert_eq!(exp.base, RawQpInitAttr { comp_mask: 33, ..ex });
    assert_eq!(exp.base.comp_mask, IBV_EXP_QP_INIT_ATTR_PD | IBV_EXP_QP_INIT_ATTR_ATOMICS_ARG);
    assert_eq!(exp.max_atomic_arg, Some(16));
    let plain = QpInitAttr { extended_atomics: None, ..attr };
    let plain_exp = plain.to_exp_init_attr(&pd);
    assert_eq!(plain_exp.max_atomic_arg, None);
    assert_eq!(plain_exp.base.comp_mask, IBV_EXP_QP_INIT_ATTR_PD);
    let too_big = QpBuilder::new().send_cq(&scq).recv_cq(&rcq).qp_type(QpType::Ud).sq_sig_all(true)
        .caps(QpCaps::new(1000, 1, 1, 1, 0)).disable_feature(ExpFeature::ExtendedAtomics);
    assert_eq!(Qp::prepare(&pd, too_big).err(), Some(QpCreationError::CapabilityNotEnough(CapName::MaxSendWr, 256, 1000)));
}

fn rc_qp(pd: &Pd) -> Qp {
    let cq = Cq { handle: 0x30, context: 0x10 };
    let attr = QpInitAttr { send_cq: cq, recv_cq: cq, caps: QpCaps::default(), qp_type: QpType::Rc, sq_sig_all: false, global_routing: true, extended_atomics: None };
    Qp::created(0x40, pd, attr, 77)
}

#[test]
fn qp_bring_up_rc() {
    let c = ctx();
    let pd = Pd::new(&c, 0x20);
    let mut qp = rc_qp(&pd);
    assert!(qp.endpoint().is_none());
    assert!(qp.bind_local_port(&port(1), None).is_err());
    let mods = qp.bind_local_port(&port(4), None).unwrap();
    assert!(mods.is_empty());
    assert_eq!(qp.make_peer_gid_index(), 1);
    let ep = qp.endpoint().unwrap();
    assert_eq!(ep, QpEndpoint::new(gid(2, true), 1, 7, 77, GLOBAL_INIT_PSN, GLOBAL_QKEY));
    assert_eq!(QpEndpoint::of_qp(&qp), Some(ep));
    let peer = QpPeer::new(0x50, QpEndpoint::new(gid(9, true), 1, 8, 99, 0, GLOBAL_QKEY));
    let ups = qp.bind_peer(peer);
    assert_eq!(ups.len(), 3);
    assert_eq!(ups[0].attr.qp_state, 1);
    assert_eq!(ups[1].attr.qp_state, 2);
    assert_eq!(ups[2].attr.qp_state, 3);
    assert_eq!(ups[1].attr.dest_qp_num, 99);
    assert_eq!(ups[1].attr.path_mtu, 5);
    assert_eq!(ups[1].attr.ah_attr.sgid_index, 1);
    for m in ups.iter() {
        assert_eq!(m.mask & 1, 1);
    }
    assert_eq!(qp.reset_modify().attr.qp_state, 0);
    assert!(qp == rc_qp(&pd));
    let cq = Cq { handle: 0x30, context: 0x10 };
    let other = Qp::created(0x99, &pd, QpInitAttr::default_rc(cq), 77);
    assert!(qp != other);
    qp.reset();
    assert!(qp.endpoint().is_none() && qp.peer().is_none());
}

#[test]
fn qp_bring_up_ud_on_bind() {
    let c = ctx();
    let pd = Pd::new(&c, 0x20);
    let cq = Cq { handle: 0x30, context: 0x10 };
    let attr = QpInitAttr { send_cq: cq, recv_cq: cq, caps: QpCaps::default(), qp_type: QpType::Ud, sq_sig_all: true, global_routing: true, extended_atomics: None };
    let mut qp = Qp::created(0x41, &pd, attr, 78);
    let mods = qp.bind_local_port(&port(4), Some(0)).unwrap();
    assert_eq!(mods.len(), 3);
    assert_eq!(mods[2].attr.qp_state, 3);
    assert_eq!(qp.make_peer_gid_index(), 0);
    let peer = QpPeer::new(0x51, QpEndpoint::new(gid(9, true), 1, 8, 99, 0, GLOBAL_QKEY));
    assert!(qp.bind_peer(peer).is_empty());
    let m = Mr::registered(1, 0x1000, 64, 3, 4);
    let s = m.as_slice();
    let p = qp.send(&[s], None, Some(5), 7, true, false);
    assert_eq!(p.wr.opcode, 3);
    assert_eq!(p.wr.imm_data, 5);
    assert_eq!(p.wr.send_flags, 2);
    match p.wr.wr {
        WrUnion::Ud(t) => assert_eq!((t.ah, t.remote_qpn, t.remote_qkey), (0x51, 99, GLOBAL_QKEY)),
        _ => panic!("a UD send targets the bound peer"),
    }
}

#[test]
fn qp_one_sided_requests() {
    let c = ctx();
    let pd = Pd::new(&c, 0x20);
    let qp = rc_qp(&pd);
    let m = Mr::registered(1, 0x1000, 64, 3, 4);
    let a = m.slice(0, 16).unwrap();
    let b = m.slice(16, 16).unwrap();
    let remote = MrRemote::new(0x9000, 32, 12);
    let r = qp.read(&[a, b], &remote, 1, true);
    assert_eq!((r.wr.opcode, r.wr.num_sge, r.wr.send_flags), (4, 2, 2));
    assert_eq!(r.sgl, vec![Sge { addr: 0x1000, length: 16, lkey: 3 }, Sge { addr: 0x1010, length: 16, lkey: 3 }]);
    let w = qp.write(&[a], &remote, 2, Some(8), false);
    assert_eq!((w.wr.opcode, w.wr.imm_data, w.wr.send_flags), (1, 8, 0));
    let w2 = qp.write(&[a], &remote, 2, None, false);
    assert_eq!(w2.wr.opcode, 0);
    let s = qp.send(&[a], None, None, 3, false, true);
    assert_eq!((s.wr.opcode, s.wr.send_flags), (2, 8));
    assert_eq!(s.wr.wr, WrUnion::Zeroed);
    let rv = qp.recv(&[a, b], 4);
    assert_eq!((rv.wr.wr_id, rv.wr.num_sge), (4, 2));
}

#[test]
fn qp_atomics_check_buffers() {
    let c = ctx();
    let pd = Pd::new(&c, 0x20);
    let qp = rc_qp(&pd);
    let m = Mr::registered(1, 0x1000, 64, 3, 4);
    let word = m.slice(8, 8).unwrap();
    let remote = MrRemote::new(0x9000, 8, 12);
    let p = qp.compare_swap(&word, &remote, 1, 2, 5, true).unwrap();
    assert_eq!(p.wr.opcode, 5);
    assert_eq!(p.wr.wr, WrUnion::Atomic(AtomicTarget { remote_addr: 0x9000, compare_add: 1, swap: 2, rkey: 12 }));
    assert_eq!(p.sgl, vec![Sge { addr: 0x1008, length: 8, lkey: 3 }]);
    let f = qp.fetch_add(&word, &remote, 10, 6, false).unwrap();
    assert_eq!(f.wr.opcode, 6);
    let short = m.slice(8, 4).unwrap();
    assert_eq!(qp.fetch_add(&short, &remote, 1, 1, false).err(), Some(AtomicArgError::Size(4, 8)));
    let odd = m.slice(4, 8).unwrap();
    assert_eq!(qp.compare_swap(&odd, &remote, 1, 2, 1, false).err(), Some(AtomicArgError::Alignment(0x1004, 0x9000)));
    let remote_odd = MrRemote::new(0x9002, 8, 12);
    assert_eq!(qp.fetch_add(&word, &remote_odd, 1, 1, false).err(), Some(AtomicArgError::Alignment(0x1008, 0x9002)));
}

#[test]
fn qp_peer_targets() {
    let ep = QpEndpoint::new(gid(1, true), 1, 2, 3, 4, 5);
    let p = QpPeer::new(0x99, ep);
    let ud = p.ud();
    assert_eq!((ud.ah, ud.remote_qpn, ud.remote_qkey), (0x99, 3, GLOBAL_QKEY));
    let old = p.as_ud_t();
    assert_eq!((old.ah, old.remote_qpn, old.remote_qkey), (0x99, 3, 5));
    let mut raw = RawSendWr { wr_id: 1, num_sge: 0, opcode: 2, send_flags: 0, imm_data: 0, wr: WrUnion::Zeroed };
    p.set_ud_peer(&mut raw);
    assert_eq!(raw.wr, WrUnion::Ud(ud));
    assert_eq!((raw.wr_id, raw.opcode), (1, 2));
    let ah = peer_ah_attr(2, &ep);
    assert!(ah.dgid == gid(1, true));
    assert_eq!((ah.sgid_index, ah.hop_limit, ah.dlid, ah.port_num, ah.is_global, ah.flow_label), (2, 0xff, 2, 1, 1, 0));
    let dc = p.dc();
    assert_eq!((dc.ah, dc.dct_number, dc.dct_access_key), (0x99, 3, GLOBAL_DC_KEY));
    assert_eq!(*p.endpoint(), ep);
}

#[test]
fn qp_error_explanations() {
    assert!(Qp::recv_err_explanation(12).is_some());
    assert!(Qp::send_err_explanation(22).is_some());
    assert!(Qp::send_err_explanation(1).is_none());
}

#[test]
fn connect_modifications_from_each_state() {
    let ep = QpEndpoint::new(gid(4, true), 2, 6, 55, 123, 0x77);
    let from_reset = connect_modifications(QpType::Rc, QpState::Reset, &ep, 1, 5, 3);
    assert_eq!(from_reset.len(), 3);
    assert_eq!((from_reset[0].attr.qp_state, from_reset[0].attr.port_num, from_reset[0].attr.qp_access_flags), (1, 2, 14));
    assert_eq!((from_reset[1].attr.qp_state, from_reset[1].attr.rq_psn, from_reset[1].attr.dest_qp_num), (2, 123, 55));
    assert_eq!((from_reset[1].attr.ah_attr.port_num, from_reset[1].attr.ah_attr.sgid_index, from_reset[1].attr.path_mtu), (1, 3, 5));
    assert_eq!((from_reset[2].attr.qp_state, from_reset[2].attr.sq_psn, from_reset[2].attr.timeout), (3, 123, 14));
    let ud = connect_modifications(QpType::Ud, QpState::Init, &ep, 1, 5, 3);
    assert_eq!(ud.len(), 2);
    assert_eq!((ud[0].attr.qp_state, ud[0].mask), (2, 1));
    assert_eq!((ud[1].attr.qp_state, ud[1].attr.sq_psn), (3, 123));
    let ud_init = connect_modifications(QpType::Ud, QpState::Reset, &ep, 1, 5, 3);
    assert_eq!((ud_init[0].attr.qkey, ud_init[0].mask & 64), (0x77, 64));
    assert_eq!(connect_modifications(QpType::Rc, QpState::Rtr, &ep, 1, 5, 3).len(), 1);
    assert!(connect_modifications(QpType::Rc, QpState::Rts, &ep, 1, 5, 3).is_empty());
    assert!(connect_modifications(QpType::Rc, QpState::Error, &ep, 1, 5, 3).is_empty());
}

#[test]
fn qp_init_attr_presets() {
    let cq = Cq { handle: 1, context: 2 };
    let rc = QpInitAttr::default_rc(cq);
    assert_eq!(rc, QpInitAttr::new(cq, cq, QpCaps::default(), QpType::Rc, false));
    assert!(rc.global_routing && rc.extended_atomics.is_none());
    let ud = QpInitAttr::default_ud(cq);
    assert_eq!(ud.qp_type, QpType::Ud);
    assert!(!ud.sq_sig_all);
}

#[test]
fn bind_local_port_with_index_needs_no_gid() {
    let c = ctx();
    let pd = Pd::new(&c, 0x20);
    let mut qp = rc_qp(&pd);
    let attr = PortAttr { state: 4, active_mtu: 5, gid_tbl_len: 0, lid: 7, active_width: 2, active_speed: 32, link_layer: 2 };
    let bare = Port::new(1, attr, Vec::new());
    let mods = qp.bind_local_port(&bare, Some(0)).unwrap();
    assert!(mods.is_empty());
    assert_eq!(qp.make_peer_gid_index(), 0);
}

#[test]
fn qp_extended_atomics() {
    let c = ctx();
    let pd = Pd::new(&c, 0x20);
    let cq = Cq { handle: 0x30, context: 0x10 };
    let b = Qp::builder().send_cq(&cq).recv_cq(&cq).qp_type(QpType::Rc).sq_sig_all(false)
        .enable_feature(ExpFeature::ExtendedAtomics, 16);
    let attr = Qp::prepare(&pd, b).unwrap();
    let qp = Qp::created(0x42, &pd, attr, 79);
    let m = Mr::registered(1, 0x1000, 64, 3, 4);
    let field = m.slice(16, 16).unwrap();
    let remote = MrRemote::new(0x9010, 16, 12);
    let ones = [0xffu8; 16];
    let p = qp.ext_compare_swap(&field, &remote, &[1u8; 16], &[2u8; 16], &ones, &ones, 5, true).unwrap();
    assert_eq!((p.wr_id, p.signaled, p.log_arg_sz, p.remote_addr, p.rkey), (5, true, 4, 0x9010, 12));
    assert_eq!(p.sgl, vec![Sge { addr: 0x1010, length: 16, lkey: 3 }]);
    match p.op {
        ExtAtomicOp::CompareSwap { compare, swap, compare_mask, swap_mask } => {
            assert_eq!((compare, swap), (vec![1u8; 16], vec![2u8; 16]));
            assert_eq!((compare_mask, swap_mask), (vec![0xffu8; 16], vec![0xffu8; 16]));
        }
        ExtAtomicOp::FetchAdd { .. } => panic!("expected a compare-and-swap"),
    }
    let f = qp.ext_fetch_add(&field, &remote, &[3u8; 16], &[0u8; 16], 6, false).unwrap();
    assert!(matches!(f.op, ExtAtomicOp::FetchAdd { ref add, .. } if add == &vec![3u8; 16]));
    let word = m.slice(8, 8).unwrap();
    assert_eq!(qp.ext_fetch_add(&word, &remote, &[0u8; 16], &[0u8; 16], 1, false).err(), Some(AtomicArgError::Size(8, 16)));
    let odd = m.slice(8, 16).unwrap();
    assert_eq!(qp.ext_fetch_add(&odd, &remote, &[0u8; 16], &[0u8; 16], 1, false).err(), Some(AtomicArgError::Alignment(0x1008, 0x9010)));
}
