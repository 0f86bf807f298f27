use rrddmma::mr::{clip_range, Mr, MrRemote, MrSlice, RangeBound, Sge, SliceRange, Slicing};
use rrddmma::remote_mem::RemoteMem;

fn mr() -> Mr {
    Mr::registered(0xbeef, 0x1000, 4096, 11, 22)
}

#[test]
fn clip_range_bounds() {
    assert_eq!(clip_range(SliceRange::half_open(2, 5), 10), 2..5);
    assert_eq!(clip_range(SliceRange::inclusive(2, 5), 10), 2..6);
    assert_eq!(clip_range(SliceRange::from_start(3), 10), 3..10);
    assert_eq!(clip_range(SliceRange::up_to(4), 10), 0..4);
    assert_eq!(clip_range(SliceRange::full(), 10), 0..10);
    let r = SliceRange { start: RangeBound::Excluded(1), end: RangeBound::Unbounded };
    assert_eq!(clip_range(r, 10), 2..10);
}

#[test]
fn mr_accessors_and_remote_view() {
    let m = mr();
    assert_eq!(m.as_raw(), 0xbeef);
    assert_eq!(m.lkey(), 11);
    assert_eq!(m.rkey(), 22);
    assert_eq!(Slicing::addr(&m), 0x1000);
    assert_eq!(Slicing::len(&m), 4096);
    assert_eq!(m.as_remote(), MrRemote::new(0x1000, 4096, 22));
    let whole = m.as_slice();
    assert_eq!(whole.to_sge(), Sge { addr: 0x1000, length: 4096, lkey: 11 });
}

#[test]
fn mr_get_slice_in_and_out_of_bounds() {
    let m = mr();
    let s = m.get_slice(SliceRange::half_open(16, 48)).unwrap();
    assert_eq!(Slicing::addr(&s), 0x1010);
    assert_eq!(Slicing::len(&s), 32);
    assert_eq!(s.lkey(), 11);
    assert!(m.get_slice(SliceRange::half_open(8, 4)).is_none());
    assert!(m.get_slice(SliceRange::up_to(4097)).is_none());
    assert!(m.get_slice(SliceRange::from_start(4096)).is_some());
    let unchecked = m.get_slice_unchecked(SliceRange::inclusive(0, 7));
    assert_eq!(Slicing::len(&unchecked), 8);
    let p = m.get_slice_from_ptr(0x1100, 16);
    assert_eq!(p.to_sge(), Sge { addr: 0x1100, length: 16, lkey: 11 });
}

#[test]
fn slicing_trait_bounds() {
    let m = mr();
    assert!(m.slice(4095, 1).is_some());
    assert!(m.slice(4095, 2).is_none());
    assert!(m.slice(4096, 0).is_some());
    assert!(m.slice(4097, 0).is_none());
    assert!(m.slice_by_ptr(0xfff, 1).is_none());
    let s = m.slice_by_ptr(0x1ff0, 16).unwrap();
    assert_eq!(s.to_sge().addr, 0x1ff0);
    assert!(m.slice_by_ptr(0x1ff0, 17).is_none());
    let r = m.slice_by_range(SliceRange::from_start(100)).unwrap();
    assert_eq!(Slicing::len(&r), 3996);
    let u = m.slice_by_range_unchecked(SliceRange::half_open(10, 20));
    assert_eq!(u.to_sge(), Sge { addr: 0x100a, length: 10, lkey: 11 });
    let q = m.slice_by_ptr_unchecked(0x1004, 4);
    assert_eq!(q.to_sge(), Sge { addr: 0x1004, length: 4, lkey: 11 });
}

#[test]
fn slices_of_slices_compose() {
    let m = mr();
    let outer = m.slice(100, 200).unwrap();
    let inner = outer.slice(50, 20).unwrap();
    let direct = m.slice(150, 20).unwrap();
    assert_eq!(inner.to_sge(), direct.to_sge());
    assert!(outer.slice(190, 20).is_none());
    let sub = outer.get_slice(SliceRange::half_open(10, 30)).unwrap();
    assert_eq!(sub.to_sge(), Sge { addr: 0x1000 + 110, length: 20, lkey: 11 });
}

#[test]
fn mr_slice_resize() {
    let m = mr();
    let mut s = MrSlice::new(&m, 4000, 10);
    assert!(s.resize(96));
    assert_eq!(Slicing::len(&s), 96);
    assert!(!s.resize(97));
    assert_eq!(Slicing::len(&s), 96);
    assert_eq!(s.to_remote(), MrRemote::new(0x1000 + 4000, 96, 22));
    assert_eq!(Sge::from(s), Sge { addr: 0x1000 + 4000, length: 96, lkey: 11 });
}

#[test]
fn mr_remote_slices() {
    let r = MrRemote::new(0x8000, 64, 5);
    assert_eq!(r.at(8), 0x8008);
    let s = r.slice(8, 8).unwrap();
    assert_eq!(s, MrRemote::new(0x8008, 8, 5));
    assert!(r.slice(60, 8).is_none());
    assert_eq!(MrRemote::dummy(), MrRemote::new(0, 0, 0));
    let d: MrRemote = Default::default();
    assert_eq!(d, MrRemote::dummy());
    let t = r.as_rdma_t();
    assert_eq!((t.remote_addr, t.rkey), (0x8000, 5));
}

#[test]
fn remote_mem_slices() {
    let r = RemoteMem::new(0x9000, 128, 7);
    assert_eq!(r.at(16), 0x9010);
    let s = r.get_slice(SliceRange::half_open(16, 32)).unwrap();
    assert_eq!(s.at(0), 0x9010);
    assert!(r.get_slice(SliceRange::half_open(16, 129)).is_none());
    assert!(r.get_slice(SliceRange::half_open(17, 16)).is_none());
    let t = r.as_rdma_t();
    assert_eq!((t.remote_addr, t.rkey), (0x9000, 7));
    let d = RemoteMem::dummy();
    assert_eq!(d.at(0), 0);
}

#[test]
fn remote_slices_at_the_end_and_reversed_ranges() {
    let m = MrRemote::new(0x1000, 64, 7);
    assert_eq!(m.slice(8, 16), Some(MrRemote::new(0x1008, 16, 7)));
    assert!(m.slice(60, 8).is_none());
    assert!(m.slice(0, 65).is_none());
    assert_eq!(m.slice(64, 0), Some(MrRemote::new(0x1040, 0, 7)));
    assert_eq!(m.slice_by_range(SliceRange::half_open(8, 24)), Some(MrRemote::new(0x1008, 16, 7)));
    assert_eq!(m.slice_by_range(SliceRange::full()), Some(MrRemote::new(0x1000, 64, 7)));
    assert!(m.slice_by_range(SliceRange::half_open(60, 70)).is_none());
    assert!(m.slice_by_range(SliceRange::half_open(10, 5)).is_none());
    assert_eq!(m.slice_by_ptr(0x1040, 0), Some(MrRemote::new(0x1040, 0, 7)));
    assert!(m.slice_by_ptr(0x1041, 0).is_none());
}

#[test]
fn ranges_past_usize_max_are_out_of_bounds() {
    let r = RemoteMem::new(0x1000, 64, 7);
    assert!(r.get_slice(SliceRange::inclusive(0, usize::MAX)).is_none());
    assert!(r.get_slice(SliceRange { start: RangeBound::Excluded(usize::MAX), end: RangeBound::Unbounded }).is_none());
    assert!(r.get_slice(SliceRange::from_start(64)).is_some());
    let m = mr();
    assert!(m.get_slice(SliceRange::inclusive(0, usize::MAX)).is_none());
    assert!(m.slice_by_range(SliceRange::inclusive(0, usize::MAX)).is_none());
    let s = m.slice(0, 16).unwrap();
    assert!(s.get_slice(SliceRange::inclusive(0, usize::MAX)).is_none());
    assert!(m.slice_by_range(SliceRange::half_open(20, 10)).is_none());
}
