//! Remote registered memory, addressed by ranges.
use vstd::prelude::*;

use vstd::std_specs::convert::FromSpecImpl;

use crate::mr::{
    clip_range, clip_range_checked, spec_range_computable, spec_range_end, spec_range_start, MrSlice, RdmaTarget,
    SliceRange,
};

verus! {

/// Remote registered memory.
///
/// This structure contains remote memory region information and does not
/// hold any RDMA resources locally. It can represent a remote memory region
/// slice by letting `addr` and `len` correspond to only a part of the entire
/// remote memory region.
#[derive(Clone, Copy, Debug, PartialEq, Eq, Structural)]
pub struct RemoteMem {
    /// Start address.
    pub addr: u64,
    /// Length in bytes.
    pub len: usize,
    /// Remote key.
    pub rkey: u32,
}

impl RemoteMem {
    /// Create a new piece of remote registered memory data.
    pub fn new(addr: u64, len: usize, rkey: u32) -> (r: RemoteMem)
        ensures
            r == (RemoteMem { addr, len, rkey }),
    {
        RemoteMem { addr, len, rkey }
    }

    /// Create a dummy remote registered memory data, all fields zero, to
    /// stand where no real one is at hand.
    pub fn dummy() -> (r: RemoteMem)
        ensures
            r == (RemoteMem { addr: 0, len: 0, rkey: 0 }),
    {
        RemoteMem::new(0, 0, 0)
    }

    /// Get the address at the given offset.
    pub fn at(&self, offset: usize) -> (r: u64)
        requires
            self.addr + offset <= u64::MAX,
        ensures
            r == self.addr + offset,
    {
        self.addr + offset as u64
    }

    /// Get a remote memory region slice that represents the range
    /// `start..end` of the remote memory area, an unbounded end standing for
    /// its end. Return `None` unless `start <= end <= len`.
    pub fn get_slice(&self, r: SliceRange) -> (out: Option<RemoteMem>)
        requires
            spec_range_start(r) <= spec_range_end(r, self.len as int) <= self.len ==> self.addr
                + spec_range_start(r) <= u64::MAX,
        ensures
            ({
                let start = spec_range_start(r);
                let end = spec_range_end(r, self.len as int);
                &&& out is Some <==> (start <= end && end <= self.len)
                &&& out matches Some(s) ==> s.addr == self.addr + start && s.len == end - start
                    && s.rkey == self.rkey
            }),
    {
        let range = match clip_range_checked(r, self.len) {
            Some(range) => range,
            None => return None,
        };
        if range.start <= range.end && range.end <= self.len {
            Some(
                RemoteMem {
                    addr: self.addr + range.start as u64,
                    len: range.end - range.start,
                    rkey: self.rkey,
                },
            )
        } else {
            None
        }
    }

    /// Get a remote memory region slice that represents a range that lies
    /// within the remote memory area.
    pub fn get_slice_unchecked(&self, r: SliceRange) -> (s: RemoteMem)
        requires
            spec_range_computable(r),
            spec_range_start(r) <= spec_range_end(r, self.len as int) <= self.len,
            self.addr + spec_range_start(r) <= u64::MAX,
        ensures
            s.addr == self.addr + spec_range_start(r),
            s.len == spec_range_end(r, self.len as int) - spec_range_start(r),
            s.rkey == self.rkey,
    {
        let range = clip_range(r, self.len);
        RemoteMem { addr: self.addr + range.start as u64, len: range.end - range.start, rkey: self.rkey }
    }

    /// Get a remote memory region slice from an address inside the remote
    /// memory area and a length; the slice must lie within the area.
    pub fn get_slice_from_ptr(&self, ptr: u64, len: usize) -> (s: RemoteMem)
        requires
            self.addr <= ptr,
            ptr - self.addr + len <= self.len,
        ensures
            s.addr == ptr,
            s.len == len,
            s.rkey == self.rkey,
    {
        let offset = (ptr - self.addr) as usize;
        self.get_slice_unchecked(SliceRange::half_open(offset, offset + len))
    }

    /// The remote-memory part of an RDMA one-sided work request to this
    /// piece of remote memory.
    pub fn as_rdma_t(&self) -> (r: RdmaTarget)
        ensures
            r == (RdmaTarget { remote_addr: self.addr, rkey: self.rkey }),
    {
        RdmaTarget { remote_addr: self.addr, rkey: self.rkey }
    }
}

impl<'a> From<MrSlice<'a>> for RemoteMem {
    fn from(slice: MrSlice<'a>) -> (r: RemoteMem) {
        let m = slice.to_remote();
        RemoteMem { addr: m.addr, len: m.len, rkey: m.rkey }
    }
}

impl<'a> FromSpecImpl<MrSlice<'a>> for RemoteMem {
    open spec fn obeys_from_spec() -> bool {
        true
    }

    open spec fn from_spec(slice: MrSlice<'a>) -> RemoteMem {
        RemoteMem {
            addr: (slice.spec_mr().spec_addr() + slice.spec_offset()) as u64,
            len: slice.spec_len() as usize,
            rkey: slice.spec_mr().spec_rkey(),
        }
    }
}

impl From<Option<RemoteMem>> for RemoteMem {
    /// A dummy `RemoteMem` where the input is `None`.
    fn from(opt: Option<RemoteMem>) -> (r: RemoteMem) {
        match opt {
            Some(m) => m,
            None => RemoteMem::dummy(),
        }
    }
}

impl FromSpecImpl<Option<RemoteMem>> for RemoteMem {
    open spec fn obeys_from_spec() -> bool {
        true
    }

    open spec fn from_spec(opt: Option<RemoteMem>) -> RemoteMem {
        match opt {
            Some(m) => m,
            None => RemoteMem { addr: 0, len: 0, rkey: 0 },
        }
    }
}

} // verus!
