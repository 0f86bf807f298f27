use rrddmma::context::{Context, DeviceAttr, Pd, Srq};
use rrddmma::cq::Cq;
use rrddmma::dct::{check_queried_dct, dct_srq_caps, Dct, DctCreationError};
use rrddmma::gid::{Gid, GidType, GidTyped};
use rrddmma::mr::Mr;
use rrddmma::nic::{NicFilters, NicProbe, NthSelector, ProbeAction, ProbeMode};
use rrddmma::port::{Port, PortAttr, PortLinkLayer};
use rrddmma::qp::{QpEndpoint, GLOBAL_DC_KEY};
use rrddmma::queue_pair::{GLOBAL_INIT_PSN, GLOBAL_QKEY};

fn port() -> Port {
    let attr = PortAttr { state: 4, active_mtu: 4, gid_tbl_len: 2, lid: 9, active_width: 2, active_speed: 32, link_layer: 1 };
    let mut raw = [0u8; 16];
    raw[0] = 0xfe;
    raw[15] = 3;
    Port::new(1, attr, vec![GidTyped::new(Gid::from_raw(raw), GidType::Infiniband)])
}

#[test]
fn dct_queried_checks() {
    assert_eq!(check_queried_dct(GLOBAL_DC_KEY, true), Ok(()));
    assert_eq!(check_queried_dct(GLOBAL_DC_KEY, false), Err(DctCreationError::NotActive));
    assert_eq!(check_queried_dct(5, false), Err(DctCreationError::DifferentDcKey(5)));
    assert_eq!(dct_srq_caps(), (128, 16));
}

#[test]
fn dct_builder_attributes_and_endpoint() {
    let ctx = Context::new(0x10, DeviceAttr { max_qp_wr: 256, max_sge: 8, phys_port_cnt: 1 });
    let pd = Pd::new(&ctx, 0x20);
    let cq = Cq { handle: 0x30, context: 0x10 };
    let srq = Srq::new(&pd, 0x60, 42);
    let p = port();
    let attr = Dct::builder().pd(&pd).cq(&cq).port(&p, None).inline_size(64).unwrap(srq);
    assert_eq!(attr.gid_index, 0);
    let raw = attr.to_init_attr();
    assert_eq!((raw.pd, raw.cq, raw.srq, raw.dc_key), (0x20, 0x30, 0x60, GLOBAL_DC_KEY));
    assert_eq!((raw.port, raw.access_flags, raw.min_rnr_timer, raw.mtu, raw.hop_limit, raw.inline_size), (1, 15, 12, 4, 0xff, 64));
    let dct = Dct::created(&ctx, 0x70, 0x1234, attr);
    assert_eq!(dct.dct_num(), 0x1234);
    assert_eq!(dct.as_raw(), 0x70);
    assert_eq!(dct.srq().srq_num(), 42);
    let ep = dct.endpoint();
    assert_eq!(QpEndpoint::of_dct(&dct), ep);
    assert_eq!((dct.init_attr().inline_size, dct.init_attr().gid_index), (64, 0));
    assert_eq!((ep.port_num, ep.lid, ep.qpn, ep.psn, ep.qkey), (1, 9, 0x1234, GLOBAL_INIT_PSN, GLOBAL_QKEY));
}

#[test]
fn srq_attributes_and_recv() {
    let ctx = Context::new(0x10, DeviceAttr { max_qp_wr: 256, max_sge: 8, phys_port_cnt: 1 });
    let pd = Pd::new(&ctx, 0x20);
    let cq = Cq { handle: 0x30, context: 0x10 };
    let a = Srq::init_attr(&pd, Some(&cq), 128, 16);
    assert_eq!((a.max_wr, a.max_sge, a.srq_limit, a.pd, a.cq), (128, 16, 0, 0x20, 0x30));
    assert_eq!(Srq::init_attr(&pd, None, 1, 1).cq, 0);
    let srq = Srq::new(&pd, 0x60, 7);
    assert_eq!((srq.as_raw(), srq.srq_num(), srq.pd().as_raw(), srq.context().as_raw()), (0x60, 7, 0x20, 0x10));
    let m = Mr::registered(1, 0x1000, 32, 2, 3);
    let post = srq.recv(&[m.as_slice()], 11);
    assert_eq!((post.wr.wr_id, post.wr.num_sge, post.sgl.len()), (11, 1, 1));
}

#[test]
fn nic_filters_devices_and_ports() {
    let f = NicFilters::new().port_num(2).numa_node(1).port_link_layer(PortLinkLayer::Ethernet);
    assert!(f.device_fits(Some(2), Some(1)));
    assert!(!f.device_fits(Some(1), Some(1)));
    assert!(!f.device_fits(None, Some(1)));
    assert!(!f.device_fits(Some(2), Some(0)));
    assert!(!f.device_fits(Some(2), None));
    assert!(f.port_fits(2, PortLinkLayer::Ethernet));
    assert!(!f.port_fits(1, PortLinkLayer::Ethernet));
    assert!(!f.port_fits(2, PortLinkLayer::Infiniband));
    let any = NicFilters::new();
    assert!(any.device_fits(None, None));
    assert!(any.port_fits(7, PortLinkLayer::Infiniband));
    assert!(any.device_name_fits(None));
}

#[test]
fn nic_filters_device_names() {
    let f = NicFilters::new().dev_name("^mlx5_[01]$").dev_name("irdma");
    assert!(f.device_name_fits(Some("mlx5_1")));
    assert!(f.device_name_fits(Some("irdma-roce0")));
    assert!(!f.device_name_fits(Some("mlx5_2")));
    assert!(!f.device_name_fits(None));
    let refused = NicFilters::new().try_dev_name("mlx5_[");
    assert!(refused.is_err());
    assert!(refused.unwrap_err().dev_names.is_empty());
    let accepted = NicFilters::new().try_dev_name("mlx4.*").unwrap();
    assert_eq!(accepted.dev_names, vec!["mlx4.*".to_string()]);
}

#[test]
fn nth_selector_counts_down() {
    let mut s = NthSelector::new(2);
    assert!(!s.visit_eligible());
    assert!(!s.visit_eligible());
    assert!(s.visit_eligible());
    assert!(s.visit_eligible());
}

#[test]
fn nic_port_filter_permits_any_of_the_numbers() {
    let f = NicFilters::new().port_num(1).port_num(2);
    assert!(f.device_fits(Some(1), None));
    assert!(f.device_fits(Some(2), None));
    let g = NicFilters::new().port_num(3);
    assert!(!g.device_fits(Some(2), None));
}

fn taken(a: ProbeAction) -> Option<Vec<u8>> {
    match a {
        ProbeAction::Take(p) => Some(p),
        ProbeAction::Close => None,
    }
}

#[test]
fn nic_probe_by_device() {
    let mut p = NicProbe::new(ProbeMode::NthDevice, 1);
    assert_eq!(taken(p.on_device(false, &[])), None);
    assert_eq!(taken(p.on_device(true, &[false, false])), None);
    assert_eq!(p.selector.remaining, 1);
    assert_eq!(taken(p.on_device(true, &[false, true])), None);
    assert_eq!(p.selector.remaining, 0);
    assert_eq!(taken(p.on_device(true, &[true, false, false])), Some(vec![1, 2, 3]));
}

#[test]
fn nic_probe_by_port() {
    let mut p = NicProbe::new(ProbeMode::NthPort, 2);
    assert_eq!(taken(p.on_device(true, &[true, false, true])), None);
    assert_eq!(p.selector.remaining, 0);
    assert_eq!(taken(p.on_device(false, &[])), None);
    assert_eq!(taken(p.on_device(true, &[false, true, true])), Some(vec![2, 3]));
    let mut q = NicProbe::new(ProbeMode::NthPort, 1);
    assert_eq!(taken(q.on_device(true, &[true, true, false, true])), Some(vec![1, 2, 4]));
}
