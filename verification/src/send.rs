//! Send work requests built field by field, with a fixed number of
//! scatter/gather slots.
use vstd::prelude::*;

use crate::mr::{MrRemote, MrSlice, RdmaTarget, Sge};
use crate::verbs::{
    IBV_SEND_INLINE, IBV_SEND_SIGNALED, IBV_SEND_SOLICITED, IBV_WR_ATOMIC_CMP_AND_SWP,
    IBV_WR_ATOMIC_FETCH_AND_ADD, IBV_WR_RDMA_READ, IBV_WR_RDMA_WRITE, IBV_WR_RDMA_WRITE_WITH_IMM,
    IBV_WR_SEND, IBV_WR_SEND_WITH_IMM,
};
use crate::wr::{spec_sge, AtomicTarget, RawSendWr, WrUnion};

verus! {

/// A send work request with `N` scatter/gather slots, of which the first
/// `num_sge` are posted.
pub struct SendWr<const N: usize> {
    wr: RawSendWr,
    sgl: Vec<Sge>,
}

/// A zeroed scatter/gather element.
pub open spec fn spec_zero_sge() -> Sge {
    Sge { addr: 0, length: 0, lkey: 0 }
}

/// A zeroed `ibv_send_wr`.
pub open spec fn spec_zero_send_wr() -> RawSendWr {
    RawSendWr { wr_id: 0, num_sge: 0, opcode: 0, send_flags: 0, imm_data: 0, wr: WrUnion::Zeroed }
}

/// The opcode and immediate data of a request that carries immediate data
/// where `imm` is some, keeping the old immediate data where it is none.
pub open spec fn spec_with_imm(wr: RawSendWr, imm: Option<u32>, op: u32, op_with_imm: u32) -> RawSendWr {
    match imm {
        Some(v) => RawSendWr { opcode: op_with_imm, imm_data: v, ..wr },
        None => RawSendWr { opcode: op, ..wr },
    }
}

/// Create a new send work request: zeroed, with `N` zeroed slots.
pub fn send_wr<const N: usize>() -> (w: SendWr<N>)
    requires
        N <= i32::MAX,
    ensures
        w.wf(),
        w.spec_wr() == spec_zero_send_wr(),
        w.spec_sgl() == Seq::new(N as nat, |i: int| spec_zero_sge()),
{
    SendWr::new()
}

impl<const N: usize> SendWr<N> {
    /// The fields of the request.
    pub closed spec fn spec_wr(&self) -> RawSendWr {
        self.wr
    }

    /// The scatter/gather slots.
    pub closed spec fn spec_sgl(&self) -> Seq<Sge> {
        self.sgl@
    }

    /// The request has `N` slots, of which at most all are posted.
    pub open spec fn wf(&self) -> bool {
        &&& self.spec_sgl().len() == N
        &&& 0 <= self.spec_wr().num_sge <= N
        &&& N <= i32::MAX
    }

    /// Create a new send work request: zeroed, with `N` zeroed slots.
    pub fn new() -> (w: SendWr<N>)
        requires
            N <= i32::MAX,
        ensures
            w.wf(),
            w.spec_wr() == spec_zero_send_wr(),
            w.spec_sgl() == Seq::new(N as nat, |i: int| spec_zero_sge()),
    {
        let mut sgl: Vec<Sge> = Vec::new();
        let mut i: usize = 0;
        while i < N
            invariant
                0 <= i <= N,
                sgl@ == Seq::new(i as nat, |k: int| spec_zero_sge()),
            decreases N - i,
        {
            sgl.push(Sge { addr: 0, length: 0, lkey: 0 });
            i = i + 1;
            assert(sgl@ =~= Seq::new(i as nat, |k: int| spec_zero_sge()));
        }
        SendWr {
            wr: RawSendWr {
                wr_id: 0,
                num_sge: 0,
                opcode: 0,
                send_flags: 0,
                imm_data: 0,
                wr: WrUnion::Zeroed,
            },
            sgl,
        }
    }

    /// The fields of the request.
    pub fn raw(&self) -> (r: RawSendWr)
        ensures
            r == self.spec_wr(),
    {
        self.wr
    }

    /// The scatter/gather slots that are posted: the first `num_sge`.
    pub fn posted_sgl(&self) -> (r: &[Sge])
        requires
            self.wf(),
        ensures
            r@ == self.spec_sgl().subrange(0, self.spec_wr().num_sge as int),
    {
        let n = self.wr.num_sge as usize;
        let r = vstd::slice::slice_subrange(self.sgl.as_slice(), 0, n);
        r
    }

    /// Set the work request ID.
    pub fn set_id(&mut self, wr_id: u64) -> (r: &mut Self)
        ensures
            *final(self) == *final(r),
            r.spec_wr() == (RawSendWr { wr_id, ..old(self).spec_wr() }),
            r.spec_sgl() == old(self).spec_sgl(),
    {
        self.wr.wr_id = wr_id;
        self
    }

    /// Set the number of scatter/gather elements that are posted, which
    /// must not exceed `N`.
    pub fn set_sgl_len(&mut self, num_sge: u32) -> (r: &mut Self)
        requires
            old(self).wf(),
            num_sge <= N,
        ensures
            *final(self) == *final(r),
            r.wf(),
            r.spec_wr() == (RawSendWr { num_sge: num_sge as i32, ..old(self).spec_wr() }),
            r.spec_sgl() == old(self).spec_sgl(),
    {
        self.wr.num_sge = num_sge as i32;
        self
    }

    /// Set the slot `index` to the given slice, and post at least the slots
    /// up to it. The index must be below `N`.
    pub fn set_sge(&mut self, index: usize, mr_slice: &MrSlice) -> (r: &mut Self)
        requires
            old(self).wf(),
            index < N,
        ensures
            *final(self) == *final(r),
            r.wf(),
            r.spec_sgl() == old(self).spec_sgl().update(index as int, spec_sge(*mr_slice)),
            r.spec_wr() == (RawSendWr {
                num_sge: if old(self).spec_wr().num_sge >= index + 1 {
                    old(self).spec_wr().num_sge
                } else {
                    (index + 1) as i32
                },
                ..old(self).spec_wr()
            }),
    {
        let sge = mr_slice.to_sge();
        self.sgl.set(index, sge);
        let n = (index + 1) as i32;
        if self.wr.num_sge < n {
            self.wr.num_sge = n;
        }
        self
    }

    /// Set the send flags.
    pub fn set_flags(&mut self, flags: u32) -> (r: &mut Self)
        ensures
            *final(self) == *final(r),
            r.spec_wr() == (RawSendWr { send_flags: flags, ..old(self).spec_wr() }),
            r.spec_sgl() == old(self).spec_sgl(),
    {
        self.wr.send_flags = flags;
        self
    }

    /// Add `IBV_SEND_SIGNALED` to the send flags.
    pub fn set_flag_signaled(&mut self) -> (r: &mut Self)
        ensures
            *final(self) == *final(r),
            r.spec_wr() == (RawSendWr {
                send_flags: old(self).spec_wr().send_flags | IBV_SEND_SIGNALED,
                ..old(self).spec_wr()
            }),
            r.spec_sgl() == old(self).spec_sgl(),
    {
        self.wr.send_flags = self.wr.send_flags | IBV_SEND_SIGNALED;
        self
    }

    /// Add `IBV_SEND_SOLICITED` to the send flags.
    pub fn set_flag_solicited(&mut self) -> (r: &mut Self)
        ensures
            *final(self) == *final(r),
            r.spec_wr() == (RawSendWr {
                send_flags: old(self).spec_wr().send_flags | IBV_SEND_SOLICITED,
                ..old(self).spec_wr()
            }),
            r.spec_sgl() == old(self).spec_sgl(),
    {
        self.wr.send_flags = self.wr.send_flags | IBV_SEND_SOLICITED;
        self
    }

    /// Add `IBV_SEND_INLINE` to the send flags.
    pub fn set_flag_inline(&mut self) -> (r: &mut Self)
        ensures
            *final(self) == *final(r),
            r.spec_wr() == (RawSendWr {
                send_flags: old(self).spec_wr().send_flags | IBV_SEND_INLINE,
                ..old(self).spec_wr()
            }),
            r.spec_sgl() == old(self).spec_sgl(),
    {
        self.wr.send_flags = self.wr.send_flags | IBV_SEND_INLINE;
        self
    }

    /// Make the request an RDMA send, with immediate data where `imm` is
    /// some.
    pub fn set_wr_send(&mut self, imm: Option<u32>) -> (r: &mut Self)
        ensures
            *final(self) == *final(r),
            r.spec_wr() == spec_with_imm(old(self).spec_wr(), imm, IBV_WR_SEND, IBV_WR_SEND_WITH_IMM),
            r.spec_sgl() == old(self).spec_sgl(),
    {
        match imm {
            Some(v) => {
                self.wr.opcode = IBV_WR_SEND_WITH_IMM;
                self.wr.imm_data = v;
            },
            None => {
                self.wr.opcode = IBV_WR_SEND;
            },
        }
        self
    }

    /// Make the request an RDMA read of the given remote memory.
    pub fn set_wr_read(&mut self, remote: MrRemote) -> (r: &mut Self)
        ensures
            *final(self) == *final(r),
            r.spec_wr() == (RawSendWr {
                opcode: IBV_WR_RDMA_READ,
                wr: WrUnion::Rdma(RdmaTarget { remote_addr: remote.addr, rkey: remote.rkey }),
                ..old(self).spec_wr()
            }),
            r.spec_sgl() == old(self).spec_sgl(),
    {
        self.wr.opcode = IBV_WR_RDMA_READ;
        self.wr.wr = WrUnion::Rdma(remote.as_rdma_t());
        self
    }

    /// Make the request an RDMA write to the given remote memory, with
    /// immediate data where `imm` is some.
    pub fn set_wr_write(&mut self, remote: MrRemote, imm: Option<u32>) -> (r: &mut Self)
        ensures
            *final(self) == *final(r),
            r.spec_wr() == spec_with_imm(
                RawSendWr {
                    wr: WrUnion::Rdma(RdmaTarget { remote_addr: remote.addr, rkey: remote.rkey }),
                    ..old(self).spec_wr()
                },
                imm,
                IBV_WR_RDMA_WRITE,
                IBV_WR_RDMA_WRITE_WITH_IMM,
            ),
            r.spec_sgl() == old(self).spec_sgl(),
    {
        self.wr.wr = WrUnion::Rdma(remote.as_rdma_t());
        match imm {
            Some(v) => {
                self.wr.opcode = IBV_WR_RDMA_WRITE_WITH_IMM;
                self.wr.imm_data = v;
            },
            None => {
                self.wr.opcode = IBV_WR_RDMA_WRITE;
            },
        }
        self
    }

    /// Make the request an atomic compare-and-swap on the given remote
    /// memory.
    pub fn set_wr_cas(&mut self, remote: MrRemote, compare: u64, swap: u64) -> (r: &mut Self)
        ensures
            *final(self) == *final(r),
            r.spec_wr() == (RawSendWr {
                opcode: IBV_WR_ATOMIC_CMP_AND_SWP,
                wr: WrUnion::Atomic(
                    AtomicTarget {
                        remote_addr: remote.addr,
                        compare_add: compare,
                        swap,
                        rkey: remote.rkey,
                    },
                ),
                ..old(self).spec_wr()
            }),
            r.spec_sgl() == old(self).spec_sgl(),
    {
        self.wr.opcode = IBV_WR_ATOMIC_CMP_AND_SWP;
        self.wr.wr = WrUnion::Atomic(
            AtomicTarget { remote_addr: remote.addr, compare_add: compare, swap, rkey: remote.rkey },
        );
        self
    }

    /// Make the request an atomic fetch-and-add on the given remote memory.
    pub fn set_wr_faa(&mut self, remote: MrRemote, add: u64) -> (r: &mut Self)
        ensures
            *final(self) == *final(r),
            r.spec_wr() == (RawSendWr {
                opcode: IBV_WR_ATOMIC_FETCH_AND_ADD,
                wr: WrUnion::Atomic(
                    AtomicTarget { remote_addr: remote.addr, compare_add: add, swap: 0, rkey: remote.rkey },
                ),
                ..old(self).spec_wr()
            }),
            r.spec_sgl() == old(self).spec_sgl(),
    {
        self.wr.opcode = IBV_WR_ATOMIC_FETCH_AND_ADD;
        self.wr.wr = WrUnion::Atomic(
            AtomicTarget { remote_addr: remote.addr, compare_add: add, swap: 0, rkey: remote.rkey },
        );
        self
    }
}

} // verus!
