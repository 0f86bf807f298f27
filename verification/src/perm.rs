//! Memory region permissions.
use vstd::prelude::*;

use core::ops::{Add, BitAnd, BitOr, Sub};
use vstd::std_specs::convert::FromSpecImpl;
use vstd::std_specs::ops::{AddSpecImpl, BitAndSpecImpl, BitOrSpecImpl, SubSpecImpl};

use crate::verbs::{
    IBV_ACCESS_LOCAL_WRITE, IBV_ACCESS_MW_BIND, IBV_ACCESS_ON_DEMAND, IBV_ACCESS_REMOTE_ATOMIC,
    IBV_ACCESS_REMOTE_READ, IBV_ACCESS_REMOTE_WRITE, IBV_ACCESS_ZERO_BASED,
};

verus! {

/// Memory region permissions: a set of `ibv_access_flags` bits.
#[derive(Clone, Copy, Debug, PartialEq, Eq, Structural)]
pub struct Permission(pub u32);

/// The union of two permission sets.
pub open spec fn perm_union(a: Permission, b: Permission) -> Permission {
    Permission(a.0 | b.0)
}

/// The permissions of `a` that `b` does not hold.
pub open spec fn perm_difference(a: Permission, b: Permission) -> Permission {
    Permission(a.0 & !b.0)
}

/// The permissions that both `a` and `b` hold.
pub open spec fn perm_intersection(a: Permission, b: Permission) -> Permission {
    Permission(a.0 & b.0)
}

/// Whether the permission set holds every bit of `flag`.
pub open spec fn perm_has(p: Permission, flag: u32) -> bool {
    p.0 & flag == flag
}

impl Permission {
    /// No permission.
    pub fn empty() -> (r: Permission)
        ensures
            r.0 == 0,
    {
        Permission(0)
    }

    /// Local write.
    pub fn local_write() -> (r: Permission)
        ensures
            r.0 == IBV_ACCESS_LOCAL_WRITE,
    {
        Permission(IBV_ACCESS_LOCAL_WRITE)
    }

    /// Remote read.
    pub fn remote_read() -> (r: Permission)
        ensures
            r.0 == IBV_ACCESS_REMOTE_READ,
    {
        Permission(IBV_ACCESS_REMOTE_READ)
    }

    /// Remote write.
    pub fn remote_write() -> (r: Permission)
        ensures
            r.0 == IBV_ACCESS_REMOTE_WRITE,
    {
        Permission(IBV_ACCESS_REMOTE_WRITE)
    }

    /// Remote atomic operations.
    pub fn remote_atomic() -> (r: Permission)
        ensures
            r.0 == IBV_ACCESS_REMOTE_ATOMIC,
    {
        Permission(IBV_ACCESS_REMOTE_ATOMIC)
    }

    /// Memory window binding.
    pub fn mw_bind() -> (r: Permission)
        ensures
            r.0 == IBV_ACCESS_MW_BIND,
    {
        Permission(IBV_ACCESS_MW_BIND)
    }

    /// Zero-based addressing.
    pub fn zero_based() -> (r: Permission)
        ensures
            r.0 == IBV_ACCESS_ZERO_BASED,
    {
        Permission(IBV_ACCESS_ZERO_BASED)
    }

    /// On-demand paging.
    pub fn on_demand() -> (r: Permission)
        ensures
            r.0 == IBV_ACCESS_ON_DEMAND,
    {
        Permission(IBV_ACCESS_ON_DEMAND)
    }

    /// The union of `self` and `rhs`, in place.
    pub fn add_assign(&mut self, rhs: Permission)
        ensures
            *final(self) == perm_union(*old(self), rhs),
    {
        self.0 = self.0 | rhs.0;
    }

    /// Remove the permissions of `rhs` from `self`, in place.
    pub fn sub_assign(&mut self, rhs: Permission)
        ensures
            *final(self) == perm_difference(*old(self), rhs),
    {
        self.0 = self.0 & !rhs.0;
    }

    /// Keep only the permissions that `rhs` also holds, in place.
    pub fn bitand_assign(&mut self, rhs: Permission)
        ensures
            *final(self) == perm_intersection(*old(self), rhs),
    {
        self.0 = self.0 & rhs.0;
    }

    /// The union of `self` and `rhs`, in place.
    pub fn bitor_assign(&mut self, rhs: Permission)
        ensures
            *final(self) == perm_union(*old(self), rhs),
    {
        self.add_assign(rhs);
    }

    /// The raw `int` value handed to `ibv_reg_mr`.
    pub fn to_i32(self) -> (r: i32)
        ensures
            r == self.0 as i32,
    {
        self.0 as i32
    }
}

impl Add for Permission {
    type Output = Permission;

    fn add(self, rhs: Permission) -> (r: Permission) {
        Permission(self.0 | rhs.0)
    }
}

impl AddSpecImpl for Permission {
    open spec fn obeys_add_spec() -> bool {
        true
    }

    open spec fn add_req(self, rhs: Permission) -> bool {
        true
    }

    open spec fn add_spec(self, rhs: Permission) -> Permission {
        perm_union(self, rhs)
    }
}

impl Sub for Permission {
    type Output = Permission;

    fn sub(self, rhs: Permission) -> (r: Permission) {
        Permission(self.0 & !rhs.0)
    }
}

impl SubSpecImpl for Permission {
    open spec fn obeys_sub_spec() -> bool {
        true
    }

    open spec fn sub_req(self, rhs: Permission) -> bool {
        true
    }

    open spec fn sub_spec(self, rhs: Permission) -> Permission {
        perm_difference(self, rhs)
    }
}

impl BitAnd for Permission {
    type Output = Permission;

    fn bitand(self, rhs: Permission) -> (r: Permission) {
        Permission(self.0 & rhs.0)
    }
}

impl BitAndSpecImpl for Permission {
    open spec fn obeys_bitand_spec() -> bool {
        true
    }

    open spec fn bitand_req(self, rhs: Permission) -> bool {
        true
    }

    open spec fn bitand_spec(self, rhs: Permission) -> Permission {
        perm_intersection(self, rhs)
    }
}

impl BitOr for Permission {
    type Output = Permission;

    fn bitor(self, rhs: Permission) -> (r: Permission) {
        self + rhs
    }
}

impl BitOrSpecImpl for Permission {
    open spec fn obeys_bitor_spec() -> bool {
        true
    }

    open spec fn bitor_req(self, rhs: Permission) -> bool {
        true
    }

    open spec fn bitor_spec(self, rhs: Permission) -> Permission {
        perm_union(self, rhs)
    }
}

impl Default for Permission {
    /// Allow local write, remote read/write, and remote atomic.
    fn default() -> (r: Permission)
        ensures
            r.0 == (IBV_ACCESS_LOCAL_WRITE | IBV_ACCESS_REMOTE_READ | IBV_ACCESS_REMOTE_WRITE
                | IBV_ACCESS_REMOTE_ATOMIC),
    {
        Permission::local_write() | Permission::remote_read() | Permission::remote_write()
            | Permission::remote_atomic()
    }
}

impl From<Permission> for i32 {
    fn from(p: Permission) -> (r: i32) {
        p.to_i32()
    }
}

impl FromSpecImpl<Permission> for i32 {
    open spec fn obeys_from_spec() -> bool {
        true
    }

    open spec fn from_spec(p: Permission) -> i32 {
        p.0 as i32
    }
}

/// Law: the union of permissions does not depend on the order of its
/// operands.
pub proof fn lemma_union_commutative(a: Permission, b: Permission)
    ensures
        perm_union(a, b) == perm_union(b, a),
{
    let x = a.0;
    let y = b.0;
    assert(x | y == y | x) by (bit_vector);
}

/// Law: the union of permissions does not depend on how it is grouped.
pub proof fn lemma_union_associative(a: Permission, b: Permission, c: Permission)
    ensures
        perm_union(perm_union(a, b), c) == perm_union(a, perm_union(b, c)),
{
    let x = a.0;
    let y = b.0;
    let z = c.0;
    assert((x | y) | z == x | (y | z)) by (bit_vector);
}

/// Law: adding permissions that are already held changes nothing.
pub proof fn lemma_union_idempotent(a: Permission)
    ensures
        perm_union(a, a) == a,
{
    let x = a.0;
    assert(x | x == x) by (bit_vector);
}

/// Law: removing permissions and adding them back gives the union; adding
/// permissions and removing them gives the difference.
pub proof fn lemma_difference_union(a: Permission, b: Permission)
    ensures
        perm_union(perm_difference(a, b), b) == perm_union(a, b),
        perm_difference(perm_union(a, b), b) == perm_difference(a, b),
{
    let x = a.0;
    let y = b.0;
    assert((x & !y) | y == x | y) by (bit_vector);
    assert((x | y) & !y == x & !y) by (bit_vector);
}

/// Law: a permission set holds a flag after a union iff one of the operands
/// does, after an intersection iff both do, and after a difference iff the
/// first does and the second does not (for a single-bit flag).
pub proof fn lemma_has_flag(a: Permission, b: Permission, flag: u32)
    requires
        flag != 0,
        flag & ((flag - 1) as u32) == 0,
    ensures
        perm_has(perm_union(a, b), flag) <==> perm_has(a, flag) || perm_has(b, flag),
        perm_has(perm_intersection(a, b), flag) <==> perm_has(a, flag) && perm_has(b, flag),
        perm_has(perm_difference(a, b), flag) <==> perm_has(a, flag) && !perm_has(b, flag),
{
    let x = a.0;
    let y = b.0;
    assert(flag != 0 && flag & ((flag - 1) as u32) == 0 ==> ((x | y) & flag == flag <==> (x
        & flag == flag || y & flag == flag))) by (bit_vector);
    assert(flag != 0 && flag & ((flag - 1) as u32) == 0 ==> ((x & y) & flag == flag <==> (x
        & flag == flag && y & flag == flag))) by (bit_vector);
    assert(flag != 0 && flag & ((flag - 1) as u32) == 0 ==> ((x & !y) & flag == flag <==> (x
        & flag == flag && !(y & flag == flag)))) by (bit_vector);
}

} // verus!
