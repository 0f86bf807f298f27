//! Local memory regions, their slices, and remote memory regions.
use vstd::prelude::*;

use core::ops::Range;
use vstd::std_specs::convert::FromSpecImpl;

verus! {

/// One end of a range of offsets, as `std::ops::Bound` has it.
#[derive(Clone, Copy, Debug, PartialEq, Eq, Structural)]
pub enum RangeBound {
    /// The end is in the range.
    Included(usize),
    /// The end is not in the range.
    Excluded(usize),
    /// No bound on this side.
    Unbounded,
}

/// A range of offsets given by its two ends, as `RangeBounds<usize>` has it.
#[derive(Clone, Copy, Debug, PartialEq, Eq, Structural)]
pub struct SliceRange {
    /// The start bound.
    pub start: RangeBound,
    /// The end bound.
    pub end: RangeBound,
}

impl SliceRange {
    /// The range `start..end`.
    pub fn half_open(start: usize, end: usize) -> (r: SliceRange)
        ensures
            r.start == RangeBound::Included(start),
            r.end == RangeBound::Excluded(end),
    {
        SliceRange { start: RangeBound::Included(start), end: RangeBound::Excluded(end) }
    }

    /// The range `start..=end`.
    pub fn inclusive(start: usize, end: usize) -> (r: SliceRange)
        ensures
            r.start == RangeBound::Included(start),
            r.end == RangeBound::Included(end),
    {
        SliceRange { start: RangeBound::Included(start), end: RangeBound::Included(end) }
    }

    /// The range `start..`.
    pub fn from_start(start: usize) -> (r: SliceRange)
        ensures
            r.start == RangeBound::Included(start),
            r.end == RangeBound::Unbounded,
    {
        SliceRange { start: RangeBound::Included(start), end: RangeBound::Unbounded }
    }

    /// The range `..end`.
    pub fn up_to(end: usize) -> (r: SliceRange)
        ensures
            r.start == RangeBound::Unbounded,
            r.end == RangeBound::Excluded(end),
    {
        SliceRange { start: RangeBound::Unbounded, end: RangeBound::Excluded(end) }
    }

    /// The range `..`.
    pub fn full() -> (r: SliceRange)
        ensures
            r.start == RangeBound::Unbounded,
            r.end == RangeBound::Unbounded,
    {
        SliceRange { start: RangeBound::Unbounded, end: RangeBound::Unbounded }
    }
}

/// The first offset in a range.
pub open spec fn spec_range_start(r: SliceRange) -> int {
    match r.start {
        RangeBound::Included(s) => s as int,
        RangeBound::Excluded(s) => s + 1,
        RangeBound::Unbounded => 0,
    }
}

/// The offset just past a range, `upper` where the range has no end.
pub open spec fn spec_range_end(r: SliceRange, upper: int) -> int {
    match r.end {
        RangeBound::Included(e) => e + 1,
        RangeBound::Excluded(e) => e as int,
        RangeBound::Unbounded => upper,
    }
}

/// Whether the ends of the range can be computed in a `usize`: an excluded
/// start or an included end must not be `usize::MAX`.
pub open spec fn spec_range_computable(r: SliceRange) -> bool {
    &&& (r.start matches RangeBound::Excluded(s) ==> s < usize::MAX)
    &&& (r.end matches RangeBound::Included(e) ==> e < usize::MAX)
}

/// Clip a range to the given upper bound: an unbounded end becomes `upper`.
pub fn clip_range(r: SliceRange, upper: usize) -> (out: Range<usize>)
    requires
        spec_range_computable(r),
    ensures
        out.start == spec_range_start(r),
        out.end == spec_range_end(r, upper as int),
{
    let start = match r.start {
        RangeBound::Included(s) => s,
        RangeBound::Excluded(s) => s + 1,
        RangeBound::Unbounded => 0,
    };
    let end = match r.end {
        RangeBound::Included(e) => e + 1,
        RangeBound::Excluded(e) => e,
        RangeBound::Unbounded => upper,
    };
    start..end
}

/// Clip a range to the given upper bound, as [`clip_range`] does; `None`
/// where an end of the range lies past `usize::MAX` (an excluded start or an
/// included end at `usize::MAX`), so that the range reaches past any region.
pub fn clip_range_checked(r: SliceRange, upper: usize) -> (out: Option<Range<usize>>)
    ensures
        out is Some <==> spec_range_computable(r),
        out matches Some(o) ==> o.start == spec_range_start(r) && o.end == spec_range_end(
            r,
            upper as int,
        ),
        out is None ==> spec_range_start(r) > usize::MAX || spec_range_end(r, upper as int)
            > usize::MAX,
{
    let start = match r.start {
        RangeBound::Included(s) => s,
        RangeBound::Excluded(s) => if s < usize::MAX {
            s + 1
        } else {
            return None;
        },
        RangeBound::Unbounded => 0,
    };
    let end = match r.end {
        RangeBound::Included(e) => if e < usize::MAX {
            e + 1
        } else {
            return None;
        },
        RangeBound::Excluded(e) => e,
        RangeBound::Unbounded => upper,
    };
    Some(start..end)
}

/// The number of offsets in `start..end`: `end - start`, or 0 where the range
/// is empty, as `Range::len` counts.
pub open spec fn spec_range_len(start: int, end: int) -> int {
    if start <= end {
        end - start
    } else {
        0
    }
}

/// Whether a slice at `offset` of length `len` can be taken of a region of
/// length `total`: the offset falls inside the region or at its end, and the
/// length fits after it.
pub open spec fn spec_slice_ok(total: int, offset: int, len: int) -> bool {
    0 <= offset <= total && 0 <= len <= total - offset
}

/// Law: where a slice can be taken of a region, and a slice of that slice,
/// the direct slice at the summed offset can be taken too.
pub proof fn lemma_slice_ok_compose(total: int, o1: int, l1: int, o2: int, l2: int)
    requires
        spec_slice_ok(total, o1, l1),
        spec_slice_ok(l1, o2, l2),
    ensures
        spec_slice_ok(total, o1 + o2, l2),
        o1 + o2 + l2 <= o1 + l1,
{
}

/// A slicable memory region, local or remote.
pub trait Slicing<'s>: Sized {
    /// What a slice of this region is.
    type Output;

    /// The starting address of the region.
    spec fn spec_addr(&self) -> int;

    /// The length of the region.
    spec fn spec_len(&self) -> int;

    /// Whether the addresses of the region and of each of its slices can be
    /// computed in a `u64`.
    spec fn spec_wf(&self) -> bool;

    /// Whether `out` stands for the part `[offset, offset + len)` of the
    /// region.
    spec fn spec_slice_of(&self, offset: int, len: int, out: Self::Output) -> bool;

    /// Get the starting address of the memory region.
    fn addr(&'s self) -> (r: u64)
        requires
            self.spec_wf(),
        ensures
            r == self.spec_addr(),
    ;

    /// Get the length of the memory region.
    fn len(&'s self) -> (r: usize)
        ensures
            r == self.spec_len(),
    ;

    /// Get a slice from an offset and a length, within the bounds of the
    /// region.
    fn slice_unchecked(&'s self, offset: usize, len: usize) -> (out: Self::Output)
        requires
            self.spec_wf(),
            offset + len <= self.spec_len(),
        ensures
            self.spec_slice_of(offset as int, len as int, out),
    ;

    /// Get a slice from an offset and a length.
    /// Return `None` if the range is out of bounds: the offset must fall
    /// inside the region or at its end, and the length must fit after it.
    fn slice(&'s self, offset: usize, len: usize) -> (r: Option<Self::Output>)
        requires
            self.spec_wf(),
        ensures
            r is Some <==> (offset <= self.spec_len() && len <= self.spec_len() - offset),
            r matches Some(out) ==> self.spec_slice_of(offset as int, len as int, out),
    {
        let total = self.len();
        if offset <= total && len <= total - offset {
            Some(self.slice_unchecked(offset, len))
        } else {
            None
        }
    }

    /// Get a slice from a range, an unbounded end standing for the end of
    /// the region. Return `None` if the range is out of bounds: unless
    /// `start <= end <= len`.
    fn slice_by_range(&'s self, range: SliceRange) -> (r: Option<Self::Output>)
        requires
            self.spec_wf(),
        ensures
            ({
                let start = spec_range_start(range);
                let end = spec_range_end(range, self.spec_len());
                &&& r is Some <==> (start <= end && end <= self.spec_len())
                &&& r matches Some(out) ==> self.spec_slice_of(start, end - start, out)
            }),
    {
        let total = self.len();
        match clip_range_checked(range, total) {
            Some(r) => if r.start <= r.end && r.end <= total {
                self.slice(r.start, r.end - r.start)
            } else {
                None
            },
            None => None,
        }
    }

    /// Get a slice from an address and a length.
    /// Return `None` if the address lies before the region or the range is
    /// out of bounds.
    fn slice_by_ptr(&'s self, pointer: u64, len: usize) -> (r: Option<Self::Output>)
        requires
            self.spec_wf(),
        ensures
            r is Some <==> (pointer >= self.spec_addr() && pointer - self.spec_addr()
                <= self.spec_len() && len <= self.spec_len() - (pointer - self.spec_addr())),
            r matches Some(out) ==> self.spec_slice_of(pointer - self.spec_addr(), len as int, out),
    {
        let addr = self.addr();
        if pointer >= addr {
            let diff = pointer - addr;
            if diff <= self.len() as u64 {
                self.slice(diff as usize, len)
            } else {
                None
            }
        } else {
            None
        }
    }

    /// Get a slice from a range, within the bounds of the region.
    fn slice_by_range_unchecked(&'s self, range: SliceRange) -> (out: Self::Output)
        requires
            self.spec_wf(),
            spec_range_computable(range),
            spec_range_start(range) <= spec_range_end(range, self.spec_len()) <= self.spec_len(),
        ensures
            self.spec_slice_of(
                spec_range_start(range),
                spec_range_end(range, self.spec_len()) - spec_range_start(range),
                out,
            ),
    {
        let r = clip_range(range, self.len());
        self.slice_unchecked(r.start, r.end - r.start)
    }

    /// Get a slice from an address and a length, within the bounds of the
    /// region.
    fn slice_by_ptr_unchecked(&'s self, pointer: u64, len: usize) -> (out: Self::Output)
        requires
            self.spec_wf(),
            self.spec_addr() <= pointer,
            pointer - self.spec_addr() + len <= self.spec_len(),
        ensures
            self.spec_slice_of(pointer - self.spec_addr(), len as int, out),
    {
        let addr = self.addr();
        let total = self.len();
        assert(pointer - addr <= total);
        let off = (pointer - addr) as usize;
        self.slice_unchecked(off, len)
    }
}


/// A scatter/gather element (`ibv_sge`): a piece of registered local memory.
#[derive(Clone, Copy, Debug, PartialEq, Eq, Structural)]
pub struct Sge {
    /// Start address.
    pub addr: u64,
    /// Length in bytes.
    pub length: u32,
    /// Local key of the memory region.
    pub lkey: u32,
}

/// The remote-memory part of an RDMA read or write work request (`rdma_t`).
#[derive(Clone, Copy, Debug, PartialEq, Eq, Structural)]
pub struct RdmaTarget {
    /// Remote address.
    pub remote_addr: u64,
    /// Remote key.
    pub rkey: u32,
}

/// Local memory region.
///
/// A memory region is a virtual memory area registered to the RDMA device.
/// This type holds what `ibv_reg_mr` reported of the registration: the
/// handle, the registered area, and the keys.
#[derive(Clone, Copy, Debug)]
pub struct Mr {
    handle: u64,
    addr: u64,
    len: usize,
    lkey: u32,
    rkey: u32,
}

impl Mr {
    /// A registered area lies within the address space.
    #[verifier::type_invariant]
    spec fn inv(self) -> bool {
        self.addr + self.len <= u64::MAX
    }

    /// The handle of the registration (the `ibv_mr` pointer).
    pub closed spec fn spec_handle(self) -> u64 {
        self.handle
    }

    /// The start address of the registered area.
    pub closed spec fn spec_addr(self) -> u64 {
        self.addr
    }

    /// The length of the registered area.
    pub closed spec fn spec_len(self) -> usize {
        self.len
    }

    /// The local key.
    pub closed spec fn spec_lkey(self) -> u32 {
        self.lkey
    }

    /// The remote key.
    pub closed spec fn spec_rkey(self) -> u32 {
        self.rkey
    }

    /// Record a registration that `ibv_reg_mr` reported.
    pub fn registered(handle: u64, addr: u64, len: usize, lkey: u32, rkey: u32) -> (mr: Mr)
        requires
            addr + len <= u64::MAX,
        ensures
            mr.spec_handle() == handle,
            mr.spec_addr() == addr,
            mr.spec_len() == len,
            mr.spec_lkey() == lkey,
            mr.spec_rkey() == rkey,
    {
        Mr { handle, addr, len, lkey, rkey }
    }

    /// Get the underlying `ibv_mr` handle.
    pub fn as_raw(&self) -> (r: u64)
        ensures
            r == self.spec_handle(),
    {
        self.handle
    }

    /// Get the local key of the memory region.
    pub fn lkey(&self) -> (r: u32)
        ensures
            r == self.spec_lkey(),
    {
        self.lkey
    }

    /// Get the remote key of the memory region.
    pub fn rkey(&self) -> (r: u32)
        ensures
            r == self.spec_rkey(),
    {
        self.rkey
    }

    /// View this local memory region as a remote memory region for RDMA
    /// access from remote peers.
    pub fn as_remote(&self) -> (r: MrRemote)
        ensures
            r.addr == self.spec_addr(),
            r.len == self.spec_len(),
            r.rkey == self.spec_rkey(),
    {
        MrRemote { addr: self.addr, len: self.len, rkey: self.rkey }
    }

    /// Get a memory region slice that represents the entire memory area.
    pub fn as_slice(&self) -> (s: MrSlice<'_>)
        ensures
            s.spec_mr() == *self,
            s.spec_offset() == 0,
            s.spec_len() == self.spec_len(),
    {
        MrSlice { mr: self, offset: 0, len: self.len }
    }

    /// Get a memory region slice that represents the range `start..end` of
    /// the memory area, an unbounded end standing for the end of the area.
    /// Return `None` unless `start <= end <= len`.
    pub fn get_slice(&self, r: SliceRange) -> (out: Option<MrSlice<'_>>)
        ensures
            ({
                let start = spec_range_start(r);
                let end = spec_range_end(r, self.spec_len() as int);
                &&& out is Some <==> (start <= end && end <= self.spec_len())
                &&& out matches Some(s) ==> s.spec_mr() == *self && s.spec_offset() == start
                    && s.spec_len() == end - start
            }),
    {
        let range = match clip_range_checked(r, self.len) {
            Some(range) => range,
            None => return None,
        };
        if range.start <= range.end && range.end <= self.len {
            Some(MrSlice { mr: self, offset: range.start, len: range.end - range.start })
        } else {
            None
        }
    }

    /// Get a memory region slice that represents the range `start..end` of
    /// the memory area, which must lie within the area.
    pub fn get_slice_unchecked(&self, r: SliceRange) -> (s: MrSlice<'_>)
        requires
            spec_range_computable(r),
            spec_range_start(r) <= spec_range_end(r, self.spec_len() as int) <= self.spec_len(),
        ensures
            s.spec_mr() == *self,
            s.spec_offset() == spec_range_start(r),
            s.spec_len() == spec_range_end(r, self.spec_len() as int) - spec_range_start(r),
    {
        let range = clip_range(r, self.len);
        MrSlice { mr: self, offset: range.start, len: range.end - range.start }
    }

    /// Get a memory region slice from an address inside the memory area and
    /// a length; the slice must lie within the area.
    pub fn get_slice_from_ptr(&self, pointer: u64, len: usize) -> (s: MrSlice<'_>)
        requires
            self.spec_addr() <= pointer,
            pointer - self.spec_addr() + len <= self.spec_len(),
        ensures
            s.spec_mr() == *self,
            s.spec_offset() == pointer - self.spec_addr(),
            s.spec_len() == len,
    {
        let offset = (pointer - self.addr) as usize;
        MrSlice { mr: self, offset, len }
    }
}

impl<'a, 's> Slicing<'s> for Mr where 'a: 's {
    type Output = MrSlice<'s>;

    open spec fn spec_addr(&self) -> int {
        Mr::spec_addr(*self) as int
    }

    open spec fn spec_len(&self) -> int {
        Mr::spec_len(*self) as int
    }

    open spec fn spec_wf(&self) -> bool {
        true
    }

    open spec fn spec_slice_of(&self, offset: int, len: int, out: MrSlice<'s>) -> bool {
        out.spec_mr() == *self && out.spec_offset() == offset && out.spec_len() == len
    }

    fn addr(&'s self) -> (r: u64) {
        self.addr
    }

    fn len(&'s self) -> (r: usize) {
        self.len
    }

    fn slice_unchecked(&'s self, offset: usize, len: usize) -> (out: MrSlice<'s>) {
        MrSlice { mr: self, offset, len }
    }
}

/// Slice of a local memory region.
///
/// A slice corresponds to an RDMA scatter-gather list entry, which can be used
/// in RDMA data-plane verbs.
#[derive(Clone, Copy, Debug)]
pub struct MrSlice<'a> {
    mr: &'a Mr,
    offset: usize,
    len: usize,
}

impl<'a> MrSlice<'a> {
    /// A slice lies within its memory region.
    #[verifier::type_invariant]
    spec fn inv(self) -> bool {
        self.offset + self.len <= self.mr.spec_len()
    }

    /// The memory region that this slice is a part of.
    pub closed spec fn spec_mr(self) -> Mr {
        *self.mr
    }

    /// The offset of this slice within its memory region.
    pub closed spec fn spec_offset(self) -> int {
        self.offset as int
    }

    /// The length of this slice.
    pub closed spec fn spec_len(self) -> int {
        self.len as int
    }

    /// Create a new memory region slice of the given MR, offset, and length,
    /// which must lie within the region.
    pub fn new(mr: &'a Mr, offset: usize, len: usize) -> (s: MrSlice<'a>)
        requires
            offset + len <= mr.spec_len(),
        ensures
            s.spec_mr() == *mr,
            s.spec_offset() == offset,
            s.spec_len() == len,
    {
        MrSlice { mr, offset, len }
    }

    /// Get the underlying `Mr`.
    pub fn mr(&self) -> (r: &Mr)
        ensures
            *r == self.spec_mr(),
    {
        self.mr
    }

    /// Get the local key of the underlying memory region.
    pub fn lkey(&self) -> (r: u32)
        ensures
            r == self.spec_mr().spec_lkey(),
    {
        self.mr.lkey()
    }

    /// Attempt to resize the memory region slice to the specified length.
    /// This attempt has no effect if the desired length is greater than the
    /// largest possible length of the slice, the rest of the region.
    /// Return whether the resize was successful.
    pub fn resize(&mut self, len: usize) -> (ok: bool)
        ensures
            ok == (old(self).spec_offset() + len <= old(self).spec_mr().spec_len()),
            final(self).spec_mr() == old(self).spec_mr(),
            final(self).spec_offset() == old(self).spec_offset(),
            final(self).spec_len() == (if ok {
                len as int
            } else {
                old(self).spec_len()
            }),
    {
        proof {
            use_type_invariant(&*self);
        }
        let max_len = self.mr.len - self.offset;
        if len <= max_len {
            self.len = len;
            true
        } else {
            false
        }
    }

    /// Sub-slice this slice by the range `start..end` (relative to the
    /// slice), an unbounded end standing for the end of the slice. Return
    /// `None` unless `start <= end <= len`.
    pub fn get_slice(&self, r: SliceRange) -> (out: Option<MrSlice<'a>>)
        ensures
            ({
                let start = spec_range_start(r);
                let end = spec_range_end(r, self.spec_len());
                &&& out is Some <==> (start <= end && end <= self.spec_len())
                &&& out matches Some(s) ==> s.spec_mr() == self.spec_mr() && s.spec_offset()
                    == self.spec_offset() + start && s.spec_len() == end - start
            }),
    {
        proof {
            use_type_invariant(self);
        }
        let range = match clip_range_checked(r, self.len) {
            Some(range) => range,
            None => return None,
        };
        if range.start <= range.end && range.end <= self.len {
            Some(MrSlice { mr: self.mr, offset: self.offset + range.start, len: range.end - range.start })
        } else {
            None
        }
    }

    /// Sub-slice this slice by a range that lies within it.
    pub fn get_slice_unchecked(&self, r: SliceRange) -> (s: MrSlice<'a>)
        requires
            spec_range_computable(r),
            spec_range_start(r) <= spec_range_end(r, self.spec_len()) <= self.spec_len(),
        ensures
            s.spec_mr() == self.spec_mr(),
            s.spec_offset() == self.spec_offset() + spec_range_start(r),
            s.spec_len() == spec_range_end(r, self.spec_len()) - spec_range_start(r),
    {
        proof {
            use_type_invariant(self);
        }
        let range = clip_range(r, self.len);
        MrSlice { mr: self.mr, offset: self.offset + range.start, len: range.end - range.start }
    }

    /// Get the scatter/gather element of this slice. The length is taken as
    /// a `u32`, as `ibv_sge` holds it.
    pub fn to_sge(&self) -> (r: Sge)
        ensures
            r.addr == self.spec_mr().spec_addr() + self.spec_offset(),
            r.length == self.spec_len() as u32,
            r.lkey == self.spec_mr().spec_lkey(),
    {
        proof {
            use_type_invariant(self);
            use_type_invariant(self.mr);
        }
        Sge { addr: self.mr.addr + self.offset as u64, length: self.len as u32, lkey: self.mr.lkey }
    }

    /// Pack the information of this slice into a remote memory region that
    /// can be sent to the remote side.
    pub fn to_remote(&self) -> (r: MrRemote)
        ensures
            r.addr == self.spec_mr().spec_addr() + self.spec_offset(),
            r.len == self.spec_len(),
            r.rkey == self.spec_mr().spec_rkey(),
    {
        proof {
            use_type_invariant(self);
            use_type_invariant(self.mr);
        }
        MrRemote { addr: self.mr.addr + self.offset as u64, len: self.len, rkey: self.mr.rkey }
    }
}

impl<'a, 's> Slicing<'s> for MrSlice<'a> where 'a: 's {
    type Output = MrSlice<'s>;

    open spec fn spec_addr(&self) -> int {
        self.spec_mr().spec_addr() + self.spec_offset()
    }

    open spec fn spec_len(&self) -> int {
        MrSlice::spec_len(*self)
    }

    open spec fn spec_wf(&self) -> bool {
        true
    }

    open spec fn spec_slice_of(&self, offset: int, len: int, out: MrSlice<'s>) -> bool {
        out.spec_mr() == self.spec_mr() && out.spec_offset() == self.spec_offset() + offset
            && out.spec_len() == len
    }

    fn addr(&'s self) -> (r: u64) {
        proof {
            use_type_invariant(self);
            use_type_invariant(self.mr);
        }
        self.mr.addr + self.offset as u64
    }

    fn len(&'s self) -> (r: usize) {
        self.len
    }

    fn slice_unchecked(&'s self, offset: usize, len: usize) -> (out: MrSlice<'s>) {
        proof {
            use_type_invariant(self);
        }
        MrSlice { mr: self.mr, offset: self.offset + offset, len }
    }
}

impl<'a> From<MrSlice<'a>> for Sge {
    fn from(slice: MrSlice<'a>) -> (r: Sge) {
        slice.to_sge()
    }
}

impl<'a> FromSpecImpl<MrSlice<'a>> for Sge {
    open spec fn obeys_from_spec() -> bool {
        true
    }

    open spec fn from_spec(slice: MrSlice<'a>) -> Sge {
        Sge {
            addr: (slice.spec_mr().spec_addr() + slice.spec_offset()) as u64,
            length: slice.spec_len() as u32,
            lkey: slice.spec_mr().spec_lkey(),
        }
    }
}

impl<'a> From<MrSlice<'a>> for MrRemote {
    fn from(slice: MrSlice<'a>) -> (r: MrRemote) {
        slice.to_remote()
    }
}

impl<'a> FromSpecImpl<MrSlice<'a>> for MrRemote {
    open spec fn obeys_from_spec() -> bool {
        true
    }

    open spec fn from_spec(slice: MrSlice<'a>) -> MrRemote {
        MrRemote {
            addr: (slice.spec_mr().spec_addr() + slice.spec_offset()) as u64,
            len: slice.spec_len() as usize,
            rkey: slice.spec_mr().spec_rkey(),
        }
    }
}

/// Remote registered memory.
///
/// This structure contains remote memory region information and does not
/// hold any RDMA resources locally. It can represent a remote memory region
/// slice by letting `addr` and `len` correspond to only a part of the entire
/// remote memory region.
#[derive(Clone, Copy, Debug, PartialEq, Eq, Structural)]
pub struct MrRemote {
    /// Start address.
    pub addr: u64,
    /// Length in bytes.
    pub len: usize,
    /// Remote key.
    pub rkey: u32,
}

impl MrRemote {
    /// Create a new piece of remote registered memory data.
    pub fn new(addr: u64, len: usize, rkey: u32) -> (r: MrRemote)
        ensures
            r == (MrRemote { addr, len, rkey }),
    {
        MrRemote { addr, len, rkey }
    }

    /// Create a dummy `MrRemote` with all fields set to zero.
    pub fn dummy() -> (r: MrRemote)
        ensures
            r == (MrRemote { addr: 0, len: 0, rkey: 0 }),
    {
        MrRemote::new(0, 0, 0)
    }

    /// Get the address at the given offset.
    pub fn at(&self, offset: usize) -> (r: u64)
        requires
            self.addr + offset <= u64::MAX,
        ensures
            r == self.addr + offset,
    {
        self.addr + offset as u64
    }

    /// The remote-memory part of an RDMA one-sided work request to this
    /// piece of remote memory.
    pub fn as_rdma_t(&self) -> (r: RdmaTarget)
        ensures
            r == (RdmaTarget { remote_addr: self.addr, rkey: self.rkey }),
    {
        RdmaTarget { remote_addr: self.addr, rkey: self.rkey }
    }
}

impl Default for MrRemote {
    /// Create a dummy `MrRemote` with all fields set to zero.
    fn default() -> (r: MrRemote)
        ensures
            r == (MrRemote { addr: 0, len: 0, rkey: 0 }),
    {
        MrRemote::dummy()
    }
}

impl<'s> Slicing<'s> for MrRemote {
    type Output = MrRemote;

    open spec fn spec_addr(&self) -> int {
        self.addr as int
    }

    open spec fn spec_len(&self) -> int {
        self.len as int
    }

    open spec fn spec_wf(&self) -> bool {
        self.addr + self.len <= u64::MAX
    }

    open spec fn spec_slice_of(&self, offset: int, len: int, out: MrRemote) -> bool {
        out.addr == self.addr + offset && out.len == len && out.rkey == self.rkey
    }

    fn addr(&'s self) -> (r: u64) {
        self.addr
    }

    fn len(&'s self) -> (r: usize) {
        self.len
    }

    fn slice_unchecked(&'s self, offset: usize, len: usize) -> (out: MrRemote) {
        MrRemote::new(self.addr + offset as u64, len, self.rkey)
    }
}

/// Law: a slice of a slice of a remote memory region is the slice of the
/// region at the summed offset.
pub proof fn lemma_remote_slice_compose(
    r: MrRemote,
    a: MrRemote,
    b: MrRemote,
    o1: int,
    l1: int,
    o2: int,
    l2: int,
)
    requires
        spec_slice_ok(r.len as int, o1, l1),
        a.addr == r.addr + o1 && a.len == l1 && a.rkey == r.rkey,
        spec_slice_ok(a.len as int, o2, l2),
        b.addr == a.addr + o2 && b.len == l2 && b.rkey == a.rkey,
    ensures
        spec_slice_ok(r.len as int, o1 + o2, l2),
        b.addr == r.addr + (o1 + o2) && b.len == l2 && b.rkey == r.rkey,
{
}

/// Law: a slice of a slice of a local memory region is the slice of the
/// region at the summed offset.
pub proof fn lemma_local_slice_compose(
    m: Mr,
    a: MrSlice,
    b: MrSlice,
    o1: int,
    l1: int,
    o2: int,
    l2: int,
)
    requires
        spec_slice_ok(m.spec_len() as int, o1, l1),
        a.spec_mr() == m && a.spec_offset() == o1 && a.spec_len() == l1,
        spec_slice_ok(a.spec_len(), o2, l2),
        b.spec_mr() == a.spec_mr() && b.spec_offset() == a.spec_offset() + o2 && b.spec_len()
            == l2,
    ensures
        spec_slice_ok(m.spec_len() as int, o1 + o2, l2),
        b.spec_mr() == m && b.spec_offset() == o1 + o2 && b.spec_len() == l2,
{
}

} // verus!
