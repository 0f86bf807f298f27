use rrddmma::perm::Permission;

#[test]
fn permission_flags_have_ibverbs_values() {
    assert_eq!(Permission::empty().0, 0);
    assert_eq!(Permission::local_write().0, 1);
    assert_eq!(Permission::remote_write().0, 2);
    assert_eq!(Permission::remote_read().0, 4);
    assert_eq!(Permission::remote_atomic().0, 8);
    assert_eq!(Permission::mw_bind().0, 16);
    assert_eq!(Permission::zero_based().0, 32);
    assert_eq!(Permission::on_demand().0, 64);
}

#[test]
fn permission_default_is_full_access() {
    let p: Permission = Default::default();
    let full = Permission::local_write()
        + Permission::remote_read()
        + Permission::remote_write()
        + Permission::remote_atomic();
    assert_eq!(p, full);
    assert_eq!(p.0, 15);
    assert_eq!(i32::from(p), 15);
    assert_eq!(p.to_i32(), 15);
}

#[test]
fn permission_union_and_difference() {
    let a = Permission::local_write() + Permission::remote_read();
    let b = Permission::remote_read() | Permission::remote_write();
    assert_eq!((a + b).0, 7);
    assert_eq!((a - b).0, 1);
    assert_eq!((a & b).0, 4);
    assert_eq!((a | b).0, 7);
}

#[test]
fn permission_in_place_operations() {
    let mut p = Permission::empty();
    p.add_assign(Permission::remote_atomic());
    assert_eq!(p.0, 8);
    p.bitor_assign(Permission::local_write());
    assert_eq!(p.0, 9);
    p.sub_assign(Permission::remote_atomic());
    assert_eq!(p.0, 1);
    p.bitand_assign(Permission::remote_read());
    assert_eq!(p.0, 0);
}

#[test]
fn permission_union_laws_on_values() {
    let a = Permission(5);
    let b = Permission(6);
    let c = Permission(64);
    assert_eq!(a + b, b + a);
    assert_eq!((a + b) + c, a + (b + c));
    assert_eq!(a + a, a);
    assert_eq!((a - b) + b, a + b);
    assert_eq!((a + b) - b, a - b);
}
