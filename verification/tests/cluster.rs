use rrddmma::cluster::{first_local, pow2_roundup, Cluster, ConnectRole, ConnectStep, Connecter, Ipv4, DEFAULT_PORT};
use rrddmma::context::{Context, DeviceAttr, Pd};

fn ip(a: u8, b: u8, c: u8, d: u8) -> Ipv4 {
    Ipv4::new(a, b, c, d)
}

#[test]
fn ipv4_new_is_big_endian() {
    assert_eq!(ip(10, 0, 0, 1), Ipv4(0x0a00_0001));
    assert_eq!(ip(255, 255, 255, 255), Ipv4(u32::MAX));
    assert_eq!(ip(192, 168, 1, 20).0, 3_232_235_796);
}

#[test]
fn ipv4_parse_accepts_dotted_decimal() {
    assert_eq!(Ipv4::parse(b"10.0.0.1"), Some(ip(10, 0, 0, 1)));
    assert_eq!(Ipv4::parse(b"0.0.0.0"), Some(ip(0, 0, 0, 0)));
    assert_eq!(Ipv4::parse(b"255.255.255.255"), Some(ip(255, 255, 255, 255)));
    assert_eq!(Ipv4::parse(b"128.110.219.7"), Some(ip(128, 110, 219, 7)));
}

#[test]
fn ipv4_parse_refuses_what_std_refuses() {
    let bad: [&[u8]; 14] = [
        b"",
        b"1.2.3",
        b"1.2.3.4.5",
        b"256.0.0.1",
        b"1.2.3.999",
        b"01.2.3.4",
        b"1.2.3.00",
        b"1..2.3",
        b"1.2.3.4 ",
        b" 1.2.3.4",
        b"1.2.3.4a",
        b"1234.1.1.1",
        b"a.b.c.d",
        b"1.2.3.",
    ];
    for s in bad.iter() {
        assert_eq!(Ipv4::parse(s), None, "{:?}", s);
    }
}

#[test]
fn ipv4_parse_samples() {
    let samples: [(&str, Option<u32>); 7] = [
        ("1.2.3.4", Some(0x0102_0304)),
        ("0.1.10.100", Some(0x0001_0a64)),
        ("9.99.199.255", Some(0x0963_c7ff)),
        ("10.10.1.2", Some(0x0a0a_0102)),
        ("100.0.0.1", Some(0x6400_0001)),
        ("7.0.08.1", None),
        ("1.2.3.-4", None),
    ];
    for (s, expected) in samples.iter() {
        assert_eq!(Ipv4::parse(s.as_bytes()).map(|a| a.0), *expected, "{}", s);
    }
}

#[test]
fn cluster_new_picks_first_local_host() {
    let peers = vec![ip(10, 0, 0, 1), ip(10, 0, 0, 2), ip(10, 0, 0, 3)];
    let local = [ip(127, 0, 0, 1), ip(10, 0, 0, 3), ip(10, 0, 0, 2)];
    let c = Cluster::new(peers.clone(), &local);
    assert_eq!(c.id(), 1);
    assert_eq!(c.size(), 3);
    assert_eq!(c.peers(), &peers);
    assert_eq!(c.get(2), Some(ip(10, 0, 0, 3)));
    assert_eq!(c.get(3), None);
}

#[test]
fn first_local_none_when_no_host_is_local() {
    let peers = [ip(10, 0, 0, 1), ip(10, 0, 0, 2)];
    assert_eq!(first_local(&peers, &[ip(10, 0, 0, 9)]), None);
    assert_eq!(first_local(&peers, &[ip(10, 0, 0, 2)]), Some(1));
    assert_eq!(first_local(&[], &[ip(10, 0, 0, 2)]), None);
}

#[test]
fn cluster_new_withid_keeps_id() {
    let c = Cluster::new_withid(vec![ip(1, 1, 1, 1)], 7);
    assert_eq!(c.id(), 7);
    assert_eq!(c.size(), 1);
}

#[test]
fn pow2_roundup_values() {
    assert_eq!(pow2_roundup(0), 1);
    assert_eq!(pow2_roundup(1), 1);
    assert_eq!(pow2_roundup(2), 2);
    assert_eq!(pow2_roundup(3), 4);
    assert_eq!(pow2_roundup(5), 8);
    assert_eq!(pow2_roundup(8), 8);
    assert_eq!(pow2_roundup(1000), 1024);
}

fn pd() -> Pd {
    let ctx = Context::new(0x1000, DeviceAttr { max_qp_wr: 16, max_sge: 4, phys_port_cnt: 1 });
    Pd::new(&ctx, 0x2000)
}

#[test]
fn connect_all_schedule_meets_every_peer_once() {
    let peers: Vec<Ipv4> = (1..=5).map(|i| ip(10, 0, 0, i)).collect();
    let pd = pd();
    for id in 0..5 {
        let c = Cluster::new_withid(peers.clone(), id);
        let mut it = c.connect_all(&pd);
        let mut met = Vec::new();
        let mut skips = 0;
        loop {
            match it.next_step() {
                ConnectStep::Done => break,
                ConnectStep::Skip => skips += 1,
                ConnectStep::Connect(p) => met.push(p),
            }
        }
        met.sort();
        let expected: Vec<usize> = (0..5).filter(|p| *p != id).collect();
        assert_eq!(met, expected);
        assert_eq!(met.len() + skips, 7);
    }
}

#[test]
fn connect_all_rounds_are_symmetric() {
    let peers: Vec<Ipv4> = (1..=4).map(|i| ip(10, 0, 0, i)).collect();
    let pd = pd();
    let mut schedules = Vec::new();
    for id in 0..4 {
        let c = Cluster::new_withid(peers.clone(), id);
        let mut it = c.connect_all(&pd);
        let mut rounds = Vec::new();
        while let Some(p) = it.progress() {
            rounds.push(p);
        }
        schedules.push(rounds);
    }
    for id in 0..4 {
        for (round, p) in schedules[id].iter().enumerate() {
            assert_ne!(*p, id);
            assert_eq!(schedules[*p][round], id);
        }
    }
}

#[test]
fn connecter_roles() {
    let peers = vec![ip(10, 0, 0, 1), ip(10, 0, 0, 2), ip(10, 0, 0, 3)];
    let c0 = Cluster::new_withid(peers.clone(), 0);
    let c2 = Cluster::new_withid(peers.clone(), 2);
    let a = Connecter::new(&c0, 2);
    let b = Connecter::new(&c2, 0);
    assert_eq!(a.role(), ConnectRole::Dial(ip(10, 0, 0, 3), DEFAULT_PORT));
    assert_eq!(b.role(), ConnectRole::Listen(DEFAULT_PORT));
    assert!(a.receives_first());
    assert!(!b.receives_first());
    let far = Connecter::new_on_port(&c0, 5, 4000);
    assert_eq!(far.role(), ConnectRole::Absent);
    assert_eq!(DEFAULT_PORT, 13337);
}

#[test]
fn connect_all_order_follows_round_xor_id() {
    let peers: Vec<Ipv4> = (1..=3).map(|i| ip(10, 0, 0, i)).collect();
    let pd = pd();
    let c = Cluster::new_withid(peers, 1);
    let mut it = c.connect_all(&pd);
    assert_eq!(it.next_step(), ConnectStep::Connect(0));
    assert_eq!(it.next_step(), ConnectStep::Skip);
    assert_eq!(it.next_step(), ConnectStep::Connect(2));
    assert_eq!(it.next_step(), ConnectStep::Done);
    assert_eq!(it.next_step(), ConnectStep::Done);
}
