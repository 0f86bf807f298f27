use rrddmma::gid::{Gid, GidQueryError, GidType, GidTyped};
use rrddmma::port::{Port, PortAttr, PortLinkLayer, PortMtu, PortSpeed, PortState};

fn gid(first: u8, last: u8, v4: bool) -> Gid {
    let mut raw = [0u8; 16];
    raw[0] = first;
    if v4 {
        raw[0] = 0;
        raw[10] = 0xff;
        raw[11] = 0xff;
    }
    raw[15] = last;
    Gid::from_raw(raw)
}

fn attr(state: u32, mtu: u32, width: u8, speed: u8, link: u8) -> PortAttr {
    PortAttr { state, active_mtu: mtu, gid_tbl_len: 4, lid: 3, active_width: width, active_speed: speed, link_layer: link }
}

#[test]
fn port_accessors() {
    let gids = vec![GidTyped::new(gid(0xfe, 1, false), GidType::Infiniband)];
    let p = Port::new(2, attr(4, 3, 2, 16, 1), gids);
    assert_eq!(p.num(), 2);
    assert_eq!(p.lid(), 3);
    assert_eq!(p.gids().len(), 1);
    assert_eq!(p.attr().gid_tbl_len, 4);
    assert_eq!(p.state(), PortState::Active);
    assert_eq!(p.link_layer(), PortLinkLayer::Infiniband);
    assert_eq!(p.mtu(), PortMtu::Mtu1024);
    assert_eq!(p.mtu().bytes(), 1024);
    assert_eq!(p.mtu().code(), 3);
    assert_eq!(p.mtu().to_text(), "1024B");
    assert_eq!(PortMtu::Mtu4096.to_text(), "4096B");
    assert_eq!(PortState::ActiveDefer.code(), 5);
}

#[test]
fn port_speed_is_lanes_times_lane_speed() {
    let cases = [
        (1u8, 1u8, 25u32),
        (2, 2, 200),
        (2, 32, 1000),
        (4, 16, 1120),
        (8, 64, 6000),
        (2, 8, 400),
    ];
    for (w, s, tenths) in cases.iter() {
        let p = Port::new(1, attr(4, 5, *w, *s, 2), vec![]);
        assert_eq!(p.speed(), PortSpeed(*tenths));
        assert_eq!(p.speed().gbps_times_ten(), *tenths);
    }
}

#[test]
fn recommended_gid_prefers_type_then_ipv4_then_index() {
    let gids = vec![
        GidTyped::new(gid(0xfe, 1, false), GidType::RoceV1),
        GidTyped::new(gid(0, 2, true), GidType::RoceV1),
        GidTyped::new(gid(0xfe, 3, false), GidType::RoceV2),
        GidTyped::new(gid(0xfe, 4, false), GidType::RoceV2),
    ];
    let p = Port::new(1, attr(4, 5, 2, 32, 2), gids.clone());
    let (g, idx) = p.recommended_gid();
    assert_eq!(idx, 3);
    assert!(g.eq(&gids[3]));
    let with_v4 = vec![
        GidTyped::new(gid(0xfe, 3, false), GidType::RoceV2),
        GidTyped::new(gid(0, 2, true), GidType::RoceV2),
        GidTyped::new(gid(0xfe, 4, false), GidType::RoceV2),
    ];
    let p2 = Port::new(1, attr(4, 5, 2, 32, 2), with_v4);
    assert_eq!(p2.recommended_gid().1, 1);
    let ib = vec![
        GidTyped::new(gid(0xfe, 9, false), GidType::Infiniband),
        GidTyped::new(gid(0, 2, true), GidType::RoceV2),
    ];
    let p3 = Port::new(1, attr(4, 5, 2, 32, 1), ib);
    assert_eq!(p3.recommended_gid().1, 0);
}

#[test]
fn gid_ipv4_mapping() {
    let mapped = gid(0, 7, true);
    assert_eq!(mapped.to_ipv4(), Some([0, 0, 0, 7]));
    let mut compat = [0u8; 16];
    compat[12] = 10;
    compat[15] = 1;
    assert_eq!(Gid::from_raw(compat).to_ipv4(), Some([10, 0, 0, 1]));
    assert_eq!(gid(0xfe, 7, false).to_ipv4(), None);
    assert_eq!(mapped.raw()[10], 0xff);
    assert!(mapped == gid(0, 7, true));
    assert!(mapped != gid(0, 8, true));
    assert_eq!(GidType::Infiniband.rank(), 2);
    assert_eq!(GidType::RoceV2.rank(), 1);
    assert_eq!(GidType::RoceV1.rank(), 0);
    assert_eq!(GidType::from_query_code(0).ok(), Some(GidType::Infiniband));
    assert_eq!(GidType::from_query_code(1).ok(), Some(GidType::RoceV1));
    assert_eq!(GidType::from_query_code(2).ok(), Some(GidType::RoceV2));
    assert!(matches!(GidType::from_query_code(3), Err(GidQueryError::Unrecognized)));
    let t = GidTyped::new(mapped, GidType::RoceV2);
    assert!(t.to_gid() == mapped);
}

#[test]
fn port_codes_known() {
    assert!(Port::new(1, attr(4, 3, 2, 16, 1), Vec::new()).codes_known());
    assert!(Port::new(1, attr(4, 3, 8, 64, 2), Vec::new()).codes_known());
    assert!(!Port::new(1, attr(4, 3, 3, 16, 1), Vec::new()).codes_known());
    assert!(!Port::new(1, attr(4, 3, 2, 3, 1), Vec::new()).codes_known());
    assert!(!Port::new(1, attr(4, 3, 2, 16, 3), Vec::new()).codes_known());
}
