//! Global identifiers (GIDs) of ports.
use vstd::prelude::*;
use vstd::std_specs::cmp::PartialEqSpecImpl;

use crate::verbs::{IBV_GID_TYPE_IB, IBV_GID_TYPE_ROCE_V1, IBV_GID_TYPE_ROCE_V2};

verus! {

/// An 128-bit identifier used to identify a port on a network adapter, a port
/// on a router, or a multicast group.
#[derive(Clone, Copy, Debug)]
pub struct Gid(pub [u8; 16]);

impl PartialEq for Gid {
    fn eq(&self, other: &Gid) -> (r: bool) {
        let a = self.0;
        let b = other.0;
        let mut i: usize = 0;
        while i < 16
            invariant
                0 <= i <= 16,
                a == self.0,
                b == other.0,
                forall|j: int| 0 <= j < i ==> a@[j] == b@[j],
            decreases 16 - i,
        {
            if a[i] != b[i] {
                return false;
            }
            i = i + 1;
        }
        assert(self.0@ =~= other.0@);
        true
    }
}

impl Eq for Gid {
}

impl PartialEqSpecImpl for Gid {
    open spec fn obeys_eq_spec() -> bool {
        true
    }

    open spec fn eq_spec(&self, other: &Gid) -> bool {
        self.0@ == other.0@
    }
}

/// Whether the 16 bytes carry an IPv4 address: the first ten bytes are zero
/// and the next two are both zero (IPv4-compatible) or both `0xff`
/// (IPv4-mapped), the rule of `Ipv6Addr::to_ipv4`.
pub open spec fn spec_holds_ipv4(raw: Seq<u8>) -> bool {
    &&& raw.len() == 16
    &&& forall|i: int| 0 <= i < 10 ==> #[trigger] raw[i] == 0u8
    &&& ((raw[10] == 0u8 && raw[11] == 0u8) || (raw[10] == 0xffu8 && raw[11] == 0xffu8))
}

impl Gid {
    /// The raw bytes of the GID.
    pub open spec fn bytes(self) -> Seq<u8> {
        self.0@
    }

    /// Make a GID from its raw bytes.
    pub fn from_raw(raw: [u8; 16]) -> (g: Gid)
        ensures
            g.0 == raw,
    {
        Gid(raw)
    }

    /// The raw bytes of the GID.
    pub fn raw(&self) -> (r: [u8; 16])
        ensures
            r == self.0,
    {
        self.0
    }

    /// The IPv4 address that this GID carries, read as an IPv6 address, if
    /// it carries one (see [`spec_holds_ipv4`]).
    pub fn to_ipv4(&self) -> (r: Option<[u8; 4]>)
        ensures
            r.is_some() <==> spec_holds_ipv4(self.0@),
            r matches Some(a) ==> a@ == self.0@.subrange(12, 16),
    {
        let raw = self.0;
        let mut i: usize = 0;
        while i < 10
            invariant
                0 <= i <= 10,
                raw == self.0,
                forall|j: int| 0 <= j < i ==> raw@[j] == 0u8,
            decreases 10 - i,
        {
            if raw[i] != 0 {
                return None;
            }
            i = i + 1;
        }
        if (raw[10] == 0 && raw[11] == 0) || (raw[10] == 0xff && raw[11] == 0xff) {
            let a = [raw[12], raw[13], raw[14], raw[15]];
            assert(a@ =~= self.0@.subrange(12, 16));
            Some(a)
        } else {
            None
        }
    }
}

/// GID type.
#[derive(Clone, Copy, Debug, PartialEq, Eq, PartialOrd, Ord, Hash, Structural)]
pub enum GidType {
    /// RoCEv1.
    RoceV1,
    /// RoCEv2.
    RoceV2,
    /// Infiniband.
    Infiniband,
}

/// The position of a GID type in the order that the GID types are declared
/// in, which is the order that `Ord` on [`GidType`] follows.
pub open spec fn spec_gid_type_rank(t: GidType) -> int {
    match t {
        GidType::RoceV1 => 0,
        GidType::RoceV2 => 1,
        GidType::Infiniband => 2,
    }
}

impl GidType {
    /// The position of this GID type in the declaration order.
    pub fn rank(&self) -> (r: u8)
        ensures
            r == spec_gid_type_rank(*self),
    {
        match self {
            GidType::RoceV1 => 0,
            GidType::RoceV2 => 1,
            GidType::Infiniband => 2,
        }
    }
}

impl GidType {
    /// The type of a GID that `ibv_query_gid_ex` reports with this
    /// `ibv_gid_type` code; [`GidQueryError::Unrecognized`] for a code that
    /// `libibverbs` does not define.
    pub fn from_query_code(code: u32) -> (r: Result<GidType, GidQueryError>)
        ensures
            r == (if code == IBV_GID_TYPE_IB {
                Ok::<GidType, GidQueryError>(GidType::Infiniband)
            } else if code == IBV_GID_TYPE_ROCE_V1 {
                Ok(GidType::RoceV1)
            } else if code == IBV_GID_TYPE_ROCE_V2 {
                Ok(GidType::RoceV2)
            } else {
                Err(GidQueryError::Unrecognized)
            }),
    {
        if code == IBV_GID_TYPE_IB {
            Ok(GidType::Infiniband)
        } else if code == IBV_GID_TYPE_ROCE_V1 {
            Ok(GidType::RoceV1)
        } else if code == IBV_GID_TYPE_ROCE_V2 {
            Ok(GidType::RoceV2)
        } else {
            Err(GidQueryError::Unrecognized)
        }
    }
}

/// GID query result error type.
#[derive(Debug)]
pub enum GidQueryError {
    /// **I/O error:** `libibverbs` interfaces returned an error with this
    /// OS error code.
    IoError(i32),
    /// **Unrecognized GID type:** the GID type is not Infiniband,
    /// RoCEv1, or RoCEv2, and is not recognized by this library.
    Unrecognized,
}

/// GID with type.
#[derive(Clone, Copy, Debug)]
pub struct GidTyped {
    /// The GID.
    pub gid: Gid,
    /// The GID type.
    pub ty: GidType,
}

impl GidTyped {
    /// Create a new GID.
    pub fn new(gid: Gid, ty: GidType) -> (r: GidTyped)
        ensures
            r.gid == gid,
            r.ty == ty,
    {
        GidTyped { gid, ty }
    }

    /// Two typed GIDs are equal when their GIDs are equal, whatever their
    /// types.
    pub fn eq(&self, other: &GidTyped) -> (r: bool)
        ensures
            r == (self.gid.0@ == other.gid.0@),
    {
        self.gid == other.gid
    }

    /// The GID, without its type.
    pub fn to_gid(&self) -> (r: Gid)
        ensures
            r == self.gid,
    {
        self.gid
    }
}

} // verus!
