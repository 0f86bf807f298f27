use rrddmma::device::{Device, DeviceList, DevicePort, DevicePortIter, PortWalkStep};

/// Run a walk over devices whose contexts are `100 + index`, with the given
/// port states per device (`None` for a failed query).
fn walk(ports: &[Vec<u32>]) -> Vec<DevicePort> {
    let list = DeviceList::new(0x1, ports.len());
    let mut it = list.iter();
    let mut out = Vec::new();
    let mut step = it.begin();
    loop {
        step = match step {
            PortWalkStep::Close(_) => it.after_close(),
            PortWalkStep::Open(i) => it.after_open(Some(100 + i as u64)),
            PortWalkStep::QueryDevice(h) => it.after_query_device(Some(ports[(h - 100) as usize].len() as u8)),
            PortWalkStep::QueryPort(h, p) => it.after_query_port(Some(ports[(h - 100) as usize][(p - 1) as usize])),
            PortWalkStep::Yield(dp) => {
                out.push(dp);
                it.begin()
            },
            PortWalkStep::Fail => panic!("no query fails here"),
            PortWalkStep::Finish => break,
        };
    }
    out
}

#[test]
fn device_port_walk_yields_active_ports() {
    let found = walk(&[vec![4, 1], vec![1], vec![5, 4, 2]]);
    assert_eq!(found, vec![DevicePort(100, 1), DevicePort(102, 1), DevicePort(102, 2)]);
}

#[test]
fn device_port_walk_over_empty_list() {
    assert!(walk(&[]).is_empty());
}

#[test]
fn device_port_walk_reports_failures() {
    let list = DeviceList::new(0x1, 1);
    let mut it = DevicePortIter::new(&list);
    assert_eq!(it.begin(), PortWalkStep::Open(0));
    assert_eq!(it.after_open(None), PortWalkStep::Fail);
    let mut it2 = DevicePortIter::new(&list);
    it2.begin();
    assert_eq!(it2.after_open(Some(9)), PortWalkStep::QueryDevice(9));
    assert_eq!(it2.after_query_device(None), PortWalkStep::Fail);
    assert_eq!(it2.after_query_device(Some(1)), PortWalkStep::QueryPort(9, 1));
    assert_eq!(it2.after_query_port(None), PortWalkStep::Fail);
}

#[test]
fn device_list_accessors() {
    let list = DeviceList::new(0x77, 0);
    assert!(list.is_empty());
    assert_eq!(list.len(), 0);
    assert_eq!(list.as_raw(), 0x77);
    assert_eq!(Device(5).as_raw(), 5);
}
