//! Owned memory areas registered as RDMA memory regions.
use vstd::prelude::*;

use crate::interop::VerbsError;
use crate::mr::{spec_range_computable, spec_range_end, spec_range_start, Mr, MrSlice, SliceRange, Slicing};

verus! {

/// Why a memory area could not be registered.
#[derive(Clone, Copy, Debug, PartialEq, Eq)]
pub enum RegisterError {
    /// Zero-length memory regions are disallowed.
    ZeroLength,
    /// `ibv_reg_mr` failed with this error.
    Verbs(VerbsError),
}

/// An owned memory area, allocated on the heap, that is registered as an
/// RDMA memory region with full permission. The region covers exactly the
/// area, which is never empty.
pub struct RegisteredMem {
    mr: Mr,
    buf: Vec<u8>,
}

impl RegisteredMem {
    /// The region covers exactly the area, which is not empty.
    pub closed spec fn wf(self) -> bool {
        &&& self.mr.spec_len() == self.buf@.len()
        &&& self.buf@.len() > 0
    }

    /// The memory region.
    pub closed spec fn spec_mr(self) -> Mr {
        self.mr
    }

    /// The content of the memory area.
    pub closed spec fn spec_buf(self) -> Seq<u8> {
        self.buf@
    }

    /// The zeroed area of `len` bytes that [`RegisteredMem`] registers
    /// when asked for a fresh one; [`RegisterError::ZeroLength`] for 0.
    pub fn alloc_zeroed(len: usize) -> (r: Result<Vec<u8>, RegisterError>)
        ensures
            len == 0 <==> r == Err::<Vec<u8>, RegisterError>(RegisterError::ZeroLength),
            r matches Ok(v) ==> v@ == Seq::new(len as nat, |i: int| 0u8),
    {
        if len == 0 {
            return Err(RegisterError::ZeroLength);
        }
        let mut buf: Vec<u8> = Vec::new();
        let mut i: usize = 0;
        while i < len
            invariant
                0 <= i <= len,
                buf@ == Seq::new(i as nat, |k: int| 0u8),
            decreases len - i,
        {
            buf.push(0u8);
            i = i + 1;
            assert(buf@ =~= Seq::new(i as nat, |k: int| 0u8));
        }
        Ok(buf)
    }

    /// The area that holds a copy of `content`, registered when asked for
    /// one with that content; [`RegisterError::ZeroLength`] for an empty
    /// content.
    pub fn alloc_with_content(content: &[u8]) -> (r: Result<Vec<u8>, RegisterError>)
        ensures
            content@.len() == 0 <==> r == Err::<Vec<u8>, RegisterError>(RegisterError::ZeroLength),
            r matches Ok(v) ==> v@ == content@,
    {
        if content.len() == 0 {
            return Err(RegisterError::ZeroLength);
        }
        let mut buf: Vec<u8> = Vec::new();
        let mut i: usize = 0;
        while i < content.len()
            invariant
                0 <= i <= content@.len(),
                buf@ == content@.subrange(0, i as int),
            decreases content@.len() - i,
        {
            buf.push(content[i]);
            i = i + 1;
            assert(buf@ =~= content@.subrange(0, i as int));
        }
        assert(content@.subrange(0, content@.len() as int) =~= content@);
        Ok(buf)
    }

    /// Check an area handed over to be registered: [`RegisterError::ZeroLength`]
    /// where it is empty.
    pub fn check_owned(buf: &[u8]) -> (r: Result<(), RegisterError>)
        ensures
            r is Ok <==> buf@.len() > 0,
            r matches Err(e) ==> e == RegisterError::ZeroLength,
    {
        if buf.len() == 0 {
            Err(RegisterError::ZeroLength)
        } else {
            Ok(())
        }
    }

    /// Keep an area together with the memory region registered on it, which
    /// covers exactly the area.
    pub fn from_registration(mr: Mr, buf: Vec<u8>) -> (m: RegisteredMem)
        requires
            mr.spec_len() == buf@.len(),
            buf@.len() > 0,
        ensures
            m.wf(),
            m.spec_mr() == mr,
            m.spec_buf() == buf@,
    {
        RegisteredMem { mr, buf }
    }

    /// Get the length of the allocated memory.
    pub fn len(&self) -> (r: usize)
        ensures
            r == self.spec_buf().len(),
            self.wf() ==> r == self.spec_mr().spec_len() && r > 0,
    {
        self.buf.len()
    }

    /// Get the underlying memory region.
    pub fn mr(&self) -> (r: &Mr)
        ensures
            *r == self.spec_mr(),
    {
        &self.mr
    }

    /// Get a memory region slice that represents the entire memory area.
    pub fn as_slice(&self) -> (s: MrSlice<'_>)
        ensures
            s.spec_mr() == self.spec_mr(),
            s.spec_offset() == 0,
            s.spec_len() == self.spec_mr().spec_len(),
    {
        self.mr.as_slice()
    }

    /// Get a memory region slice that represents the range `start..end` of
    /// the memory area, an unbounded end standing for the end of the area.
    /// Return `None` unless `start <= end <= len`.
    pub fn get_slice(&self, r: SliceRange) -> (out: Option<MrSlice<'_>>)
        ensures
            ({
                let start = spec_range_start(r);
                let end = spec_range_end(r, self.spec_mr().spec_len() as int);
                &&& out is Some <==> (start <= end && end <= self.spec_mr().spec_len())
                &&& out matches Some(s) ==> s.spec_mr() == self.spec_mr() && s.spec_offset()
                    == start && s.spec_len() == end - start
            }),
    {
        self.mr.get_slice(r)
    }

    /// Get a memory region slice that represents the range `start..end` of
    /// the memory area, which must lie within the area.
    pub fn get_slice_unchecked(&self, r: SliceRange) -> (s: MrSlice<'_>)
        requires
            spec_range_computable(r),
            spec_range_start(r) <= spec_range_end(r, self.spec_mr().spec_len() as int)
                <= self.spec_mr().spec_len(),
        ensures
            s.spec_mr() == self.spec_mr(),
            s.spec_offset() == spec_range_start(r),
            s.spec_len() == spec_range_end(r, self.spec_mr().spec_len() as int) - spec_range_start(r),
    {
        self.mr.get_slice_unchecked(r)
    }

    /// Get a memory region slice from an address inside the memory area and
    /// a length; the slice must lie within the area.
    pub fn get_slice_from_ptr(&self, pointer: u64, len: usize) -> (s: MrSlice<'_>)
        requires
            self.spec_mr().spec_addr() <= pointer,
            pointer - self.spec_mr().spec_addr() + len <= self.spec_mr().spec_len(),
        ensures
            s.spec_mr() == self.spec_mr(),
            s.spec_offset() == pointer - self.spec_mr().spec_addr(),
            s.spec_len() == len,
    {
        self.mr.get_slice_from_ptr(pointer, len)
    }

    /// The content of the allocated memory.
    pub fn as_bytes(&self) -> (r: &[u8])
        ensures
            r@ == self.spec_buf(),
    {
        self.buf.as_slice()
    }

    /// Write `data` into the allocated memory at `offset`; the written part
    /// must lie within the memory.
    pub fn write_at(&mut self, offset: usize, data: &[u8])
        requires
            old(self).wf(),
            offset + data@.len() <= old(self).spec_buf().len(),
        ensures
            final(self).wf(),
            final(self).spec_mr() == old(self).spec_mr(),
            final(self).spec_buf() == old(self).spec_buf().subrange(0, offset as int) + data@
                + old(self).spec_buf().subrange(
                offset + data@.len(),
                old(self).spec_buf().len() as int,
            ),
    {
        let ghost before = self.buf@;
        let ghost mr = self.mr;
        let mut i: usize = 0;
        while i < data.len()
            invariant
                self.mr == mr,
                mr.spec_len() == before.len(),
                before.len() > 0,
                self.buf@.len() == before.len(),
                offset + data@.len() <= before.len(),
                0 <= i <= data@.len(),
                forall|k: int| 0 <= k < offset ==> self.buf@[k] == before[k],
                forall|k: int| offset <= k < offset + i ==> self.buf@[k] == data@[k - offset],
                forall|k: int| offset + i <= k < before.len() ==> self.buf@[k] == before[k],
            decreases data@.len() - i,
        {
            self.buf.set(offset + i, data[i]);
            i = i + 1;
        }
        assert(self.buf@ =~= before.subrange(0, offset as int) + data@ + before.subrange(
            offset + data@.len(),
            before.len() as int,
        ));
    }

    /// Zero the allocated memory.
    pub fn clear(&mut self)
        requires
            old(self).wf(),
        ensures
            final(self).wf(),
            final(self).spec_mr() == old(self).spec_mr(),
            final(self).spec_buf() == Seq::new(old(self).spec_buf().len(), |i: int| 0u8),
    {
        let ghost n = self.buf@.len();
        let ghost mr = self.mr;
        let mut i: usize = 0;
        while i < self.buf.len()
            invariant
                self.mr == mr,
                mr.spec_len() == n,
                n > 0,
                self.buf@.len() == n,
                0 <= i <= n,
                forall|k: int| 0 <= k < i ==> self.buf@[k] == 0u8,
            decreases n - i,
        {
            self.buf.set(i, 0u8);
            i = i + 1;
        }
        assert(self.buf@ =~= Seq::new(n, |i: int| 0u8));
    }
}

impl<'s> Slicing<'s> for RegisteredMem {
    type Output = MrSlice<'s>;

    open spec fn spec_addr(&self) -> int {
        self.spec_mr().spec_addr() as int
    }

    open spec fn spec_len(&self) -> int {
        self.spec_mr().spec_len() as int
    }

    open spec fn spec_wf(&self) -> bool {
        self.wf()
    }

    open spec fn spec_slice_of(&self, offset: int, len: int, out: MrSlice<'s>) -> bool {
        out.spec_mr() == self.spec_mr() && out.spec_offset() == offset && out.spec_len() == len
    }

    fn addr(&'s self) -> (r: u64) {
        self.mr.addr()
    }

    fn len(&'s self) -> (r: usize) {
        self.mr.len()
    }

    fn slice_unchecked(&'s self, offset: usize, len: usize) -> (out: MrSlice<'s>) {
        MrSlice::new(&self.mr, offset, len)
    }
}

} // verus!
