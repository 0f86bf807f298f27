use rrddmma::mr::{Mr, Sge, SliceRange, Slicing};
use rrddmma::registered_mem::{RegisterError, RegisteredMem};

#[test]
fn registered_mem_refuses_zero_length() {
    assert_eq!(RegisteredMem::alloc_zeroed(0).err(), Some(RegisterError::ZeroLength));
    assert_eq!(RegisteredMem::alloc_with_content(&[]).err(), Some(RegisterError::ZeroLength));
    assert_eq!(RegisteredMem::check_owned(&[]), Err(RegisterError::ZeroLength));
    assert_eq!(RegisteredMem::check_owned(&[1]), Ok(()));
}

#[test]
fn registered_mem_buffers() {
    assert_eq!(RegisteredMem::alloc_zeroed(3).unwrap(), vec![0u8, 0, 0]);
    assert_eq!(RegisteredMem::alloc_with_content(b"abc").unwrap(), b"abc".to_vec());
}

#[test]
fn registered_mem_write_clear_and_slices() {
    let buf = RegisteredMem::alloc_with_content(b"hello world").unwrap();
    let mr = Mr::registered(9, 0x7000, buf.len(), 1, 2);
    let mut m = RegisteredMem::from_registration(mr, buf);
    assert_eq!(m.len(), 11);
    m.write_at(6, b"RDMA!");
    assert_eq!(m.as_bytes(), b"hello RDMA!");
    let s = m.get_slice(SliceRange::from_start(6)).unwrap();
    assert_eq!(s.to_sge(), Sge { addr: 0x7006, length: 5, lkey: 1 });
    assert!(m.get_slice(SliceRange::half_open(0, 12)).is_none());
    assert_eq!(Slicing::addr(&m), 0x7000);
    assert_eq!(m.slice(10, 1).unwrap().to_sge().addr, 0x700a);
    assert_eq!(m.as_slice().to_sge().length, 11);
    assert_eq!(m.mr().rkey(), 2);
    m.clear();
    assert_eq!(m.as_bytes(), &[0u8; 11]);
}
