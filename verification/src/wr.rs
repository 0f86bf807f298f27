//! Work requests: what is posted to the send and receive queues.
use vstd::prelude::*;

use crate::mr::{MrSlice, RdmaTarget, Sge};
use crate::qp::{QpPeer, UdTarget};
use crate::remote_mem::RemoteMem;
use crate::verbs::{
    IBV_SEND_INLINE, IBV_SEND_SIGNALED, IBV_WR_ATOMIC_CMP_AND_SWP, IBV_WR_ATOMIC_FETCH_AND_ADD,
    IBV_WR_RDMA_READ, IBV_WR_RDMA_WRITE, IBV_WR_RDMA_WRITE_WITH_IMM, IBV_WR_SEND,
    IBV_WR_SEND_WITH_IMM,
};

verus! {

/// The atomic part of a send work request (`atomic_t`).
#[derive(Clone, Copy, Debug, PartialEq, Eq, Structural)]
pub struct AtomicTarget {
    /// Remote address of the 8-byte word.
    pub remote_addr: u64,
    /// The value to compare against, or the value to add.
    pub compare_add: u64,
    /// The value to swap in.
    pub swap: u64,
    /// Remote key.
    pub rkey: u32,
}

/// The operation-specific part of a send work request (the `wr` union of
/// `ibv_send_wr`).
#[derive(Clone, Copy, Debug, PartialEq, Eq, Structural)]
pub enum WrUnion {
    /// All zero, as a zeroed `ibv_send_wr` has it.
    Zeroed,
    /// RDMA read or write.
    Rdma(RdmaTarget),
    /// Atomic compare-and-swap or fetch-and-add.
    Atomic(AtomicTarget),
    /// UD send.
    Ud(UdTarget),
}

/// The fields of an `ibv_send_wr` that the library fills in; the
/// scatter/gather list pointer and the link to the next request stand
/// outside of it.
#[derive(Clone, Copy, Debug, PartialEq, Eq, Structural)]
pub struct RawSendWr {
    /// Work request ID.
    pub wr_id: u64,
    /// Number of scatter/gather elements.
    pub num_sge: i32,
    /// Opcode (`ibv_wr_opcode`).
    pub opcode: u32,
    /// Send flags (`ibv_send_flags`).
    pub send_flags: u32,
    /// Immediate data.
    pub imm_data: u32,
    /// Operation-specific part.
    pub wr: WrUnion,
}

/// The fields of an `ibv_recv_wr` that the library fills in.
#[derive(Clone, Copy, Debug, PartialEq, Eq, Structural)]
pub struct RawRecvWr {
    /// Work request ID.
    pub wr_id: u64,
    /// Number of scatter/gather elements.
    pub num_sge: i32,
}

/// The scatter/gather element of a memory region slice.
pub open spec fn spec_sge(s: MrSlice) -> Sge {
    Sge {
        addr: (s.spec_mr().spec_addr() + s.spec_offset()) as u64,
        length: s.spec_len() as u32,
        lkey: s.spec_mr().spec_lkey(),
    }
}

/// Lay memory region slices out as a scatter/gather list.
pub fn build_sgl(slices: &[MrSlice]) -> (sgl: Vec<Sge>)
    ensures
        sgl@.len() == slices@.len(),
        forall|i: int| 0 <= i < slices@.len() ==> #[trigger] sgl@[i] == spec_sge(slices@[i]),
{
    let mut sgl: Vec<Sge> = Vec::new();
    let mut i: usize = 0;
    while i < slices.len()
        invariant
            0 <= i <= slices@.len(),
            sgl@.len() == i,
            forall|j: int| 0 <= j < i ==> #[trigger] sgl@[j] == spec_sge(slices@[j]),
        decreases slices@.len() - i,
    {
        let sge = slices[i].to_sge();
        sgl.push(sge);
        i = i + 1;
    }
    sgl
}

/// The send flags of a request: signaled or not.
pub open spec fn spec_signal_flags(signal: bool) -> u32 {
    if signal {
        IBV_SEND_SIGNALED
    } else {
        0
    }
}

/// Add the inline flag where asked.
pub open spec fn spec_inline_flags(flags: u32, inline: bool) -> u32 {
    if inline {
        flags | IBV_SEND_INLINE
    } else {
        flags
    }
}

/// Send work request details: the parameters that each kind of send work
/// request adds to the basic ones.
#[derive(Debug)]
pub enum SendWrDetails<'a> {
    /// Send via RC QP.
    SendRc {
        /// [`Some`] to send with an immediate value, or [`None`] to send without.
        imm: Option<u32>,
        /// Indicate whether to inline the send.
        inline: bool,
    },
    /// Send via UD QP.
    SendUd {
        /// Information of the receiver.
        peer: &'a QpPeer,
        /// [`Some`] to send with an immediate value, or [`None`] to send without.
        imm: Option<u32>,
        /// Indicate whether to inline the send.
        inline: bool,
    },
    /// Read.
    Read {
        /// The remote memory area to read from.
        src: RemoteMem,
    },
    /// Write.
    Write {
        /// The remote memory area to write to.
        dst: RemoteMem,
        /// [`Some`] to write with an immediate value, or [`None`] to write without.
        imm: Option<u32>,
    },
    /// Atomic compare-and-swap.
    CompareSwap {
        /// The remote memory area to operate on (an aligned 8B area).
        dst: RemoteMem,
        /// The value to compare against.
        current: u64,
        /// The value to swap with.
        new: u64,
    },
    /// Atomic fetch-and-add.
    FetchAdd {
        /// The remote memory area to operate on (an aligned 8B area).
        dst: RemoteMem,
        /// The value to add.
        add: u64,
    },
}

/// The opcode and immediate data of a request that may carry an immediate
/// value: `op_with_imm` and the value where there is one, `op` and zero
/// otherwise.
pub open spec fn spec_opcode_imm(imm: Option<u32>, op: u32, op_with_imm: u32) -> (u32, u32) {
    match imm {
        Some(v) => (op_with_imm, v),
        None => (op, 0),
    }
}

fn opcode_with_imm(imm: Option<u32>, op: u32, op_with_imm: u32) -> (r: (u32, u32))
    ensures
        r == spec_opcode_imm(imm, op, op_with_imm),
{
    match imm {
        Some(v) => (op_with_imm, v),
        None => (op, 0),
    }
}

/// The `ibv_send_wr` that a send work request is laid out as.
pub open spec fn spec_send_wr(wr_id: u64, num_sge: int, signal: bool, d: SendWrDetails) -> RawSendWr {
    let flags = spec_signal_flags(signal);
    let base = RawSendWr {
        wr_id,
        num_sge: num_sge as i32,
        opcode: 0,
        send_flags: flags,
        imm_data: 0,
        wr: WrUnion::Zeroed,
    };
    match d {
        SendWrDetails::SendRc { imm, inline } => {
            let (op, v) = spec_opcode_imm(imm, IBV_WR_SEND, IBV_WR_SEND_WITH_IMM);
            RawSendWr { opcode: op, imm_data: v, send_flags: spec_inline_flags(flags, inline), ..base }
        },
        SendWrDetails::SendUd { peer, imm, inline } => {
            let (op, v) = spec_opcode_imm(imm, IBV_WR_SEND, IBV_WR_SEND_WITH_IMM);
            RawSendWr {
                opcode: op,
                imm_data: v,
                send_flags: spec_inline_flags(flags, inline),
                wr: WrUnion::Ud(
                    UdTarget { ah: peer.ah, remote_qpn: peer.ep.qpn, remote_qkey: peer.ep.qkey },
                ),
                ..base
            }
        },
        SendWrDetails::Read { src } => RawSendWr {
            opcode: IBV_WR_RDMA_READ,
            wr: WrUnion::Rdma(RdmaTarget { remote_addr: src.addr, rkey: src.rkey }),
            ..base
        },
        SendWrDetails::Write { dst, imm } => {
            let (op, v) = spec_opcode_imm(imm, IBV_WR_RDMA_WRITE, IBV_WR_RDMA_WRITE_WITH_IMM);
            RawSendWr {
                opcode: op,
                imm_data: v,
                wr: WrUnion::Rdma(RdmaTarget { remote_addr: dst.addr, rkey: dst.rkey }),
                ..base
            }
        },
        SendWrDetails::CompareSwap { dst, current, new } => RawSendWr {
            opcode: IBV_WR_ATOMIC_CMP_AND_SWP,
            wr: WrUnion::Atomic(
                AtomicTarget { remote_addr: dst.addr, compare_add: current, swap: new, rkey: dst.rkey },
            ),
            ..base
        },
        SendWrDetails::FetchAdd { dst, add } => RawSendWr {
            opcode: IBV_WR_ATOMIC_FETCH_AND_ADD,
            wr: WrUnion::Atomic(
                AtomicTarget { remote_addr: dst.addr, compare_add: add, swap: 0, rkey: dst.rkey },
            ),
            ..base
        },
    }
}

/// Law: a send work request is laid out as the operation it stands for, on
/// the remote memory or peer it names: an atomic compare-and-swap compares
/// the remote word against `current` and swaps in `new`; a fetch-and-add
/// adds `add`; reads and writes address their remote area; sends address
/// their peer; an immediate value is carried exactly where one is given.
/// Whatever the operation, the request keeps its ID and its number of
/// scatter/gather elements, and carries the signaled bit exactly where it
/// is signaled and the inline bit exactly where a send is inlined.
pub proof fn lemma_send_wr_layout(wr_id: u64, num_sge: int, signal: bool, d: SendWrDetails)
    requires
        0 <= num_sge <= i32::MAX,
    ensures
        ({
            let w = spec_send_wr(wr_id, num_sge, signal, d);
            &&& w.wr_id == wr_id
            &&& w.num_sge == num_sge
            &&& (w.send_flags & IBV_SEND_SIGNALED != 0) == signal
            &&& (w.send_flags & IBV_SEND_INLINE != 0) == (match d {
                SendWrDetails::SendRc { inline, .. } => inline,
                SendWrDetails::SendUd { inline, .. } => inline,
                _ => false,
            })
            &&& match d {
                SendWrDetails::CompareSwap { dst, current, new } => w.opcode
                    == IBV_WR_ATOMIC_CMP_AND_SWP && w.wr == WrUnion::Atomic(
                    AtomicTarget { remote_addr: dst.addr, compare_add: current, swap: new, rkey: dst.rkey },
                ),
                SendWrDetails::FetchAdd { dst, add } => w.opcode == IBV_WR_ATOMIC_FETCH_AND_ADD
                    && w.wr == WrUnion::Atomic(
                    AtomicTarget { remote_addr: dst.addr, compare_add: add, swap: 0, rkey: dst.rkey },
                ),
                SendWrDetails::Read { src } => w.opcode == IBV_WR_RDMA_READ && w.wr == WrUnion::Rdma(
                    RdmaTarget { remote_addr: src.addr, rkey: src.rkey },
                ),
                SendWrDetails::Write { dst, imm } => w.wr == WrUnion::Rdma(
                    RdmaTarget { remote_addr: dst.addr, rkey: dst.rkey },
                ) && match imm {
                    Some(v) => w.opcode == IBV_WR_RDMA_WRITE_WITH_IMM && w.imm_data == v,
                    None => w.opcode == IBV_WR_RDMA_WRITE && w.imm_data == 0,
                },
                SendWrDetails::SendRc { imm, .. } => w.wr == WrUnion::Zeroed && match imm {
                    Some(v) => w.opcode == IBV_WR_SEND_WITH_IMM && w.imm_data == v,
                    None => w.opcode == IBV_WR_SEND && w.imm_data == 0,
                },
                SendWrDetails::SendUd { peer, imm, .. } => w.wr == WrUnion::Ud(
                    UdTarget { ah: peer.ah, remote_qpn: peer.ep.qpn, remote_qkey: peer.ep.qkey },
                ) && match imm {
                    Some(v) => w.opcode == IBV_WR_SEND_WITH_IMM && w.imm_data == v,
                    None => w.opcode == IBV_WR_SEND && w.imm_data == 0,
                },
            }
        }),
{
    assert(2u32 & 2u32 != 0 && 0u32 & 2u32 == 0 && 2u32 & 8u32 == 0 && 0u32 & 8u32 == 0) by (bit_vector);
    assert((2u32 | 8u32) & 2u32 != 0 && (0u32 | 8u32) & 2u32 == 0 && (2u32 | 8u32) & 8u32 != 0 && (0u32
        | 8u32) & 8u32 != 0) by (bit_vector);
}

/// Send work request: a scatter/gather list, a work request ID, whether to
/// signal, and the details of the operation.
pub struct SendWr<'b> {
    local: Vec<Sge>,
    wr_id: u64,
    signal: bool,
    details: SendWrDetails<'b>,
}

impl<'b> SendWr<'b> {
    /// The scatter/gather list.
    pub closed spec fn spec_sgl(&self) -> Seq<Sge> {
        self.local@
    }

    /// The work request ID.
    pub closed spec fn spec_wr_id(&self) -> u64 {
        self.wr_id
    }

    /// Whether the request is signaled.
    pub closed spec fn spec_signal(&self) -> bool {
        self.signal
    }

    /// The details of the operation.
    pub closed spec fn spec_details(&self) -> SendWrDetails<'b> {
        self.details
    }

    /// Create a new send work request with basic parameters and the details
    /// that specify its concrete type.
    pub fn new(local: &[MrSlice], wr_id: u64, signal: bool, additions: SendWrDetails<'b>) -> (w:
        SendWr<'b>)
        ensures
            w.spec_sgl().len() == local@.len(),
            forall|i: int| 0 <= i < local@.len() ==> #[trigger] w.spec_sgl()[i] == spec_sge(local@[i]),
            w.spec_wr_id() == wr_id,
            w.spec_signal() == signal,
            w.spec_details() == additions,
    {
        SendWr { local: build_sgl(local), wr_id, signal, details: additions }
    }

    /// Set whether this work request is signaled.
    pub fn set_signaled(&mut self, signaled: bool)
        ensures
            final(self).spec_signal() == signaled,
            final(self).spec_sgl() == old(self).spec_sgl(),
            final(self).spec_wr_id() == old(self).spec_wr_id(),
            final(self).spec_details() == old(self).spec_details(),
    {
        self.signal = signaled;
    }

    /// Get whether this work request is signaled.
    pub fn is_signaled(&self) -> (r: bool)
        ensures
            r == self.spec_signal(),
    {
        self.signal
    }

    /// The scatter/gather list of this work request.
    pub fn sgl(&self) -> (r: &[Sge])
        ensures
            r@ == self.spec_sgl(),
    {
        self.local.as_slice()
    }

    /// Lay the work request out as the `ibv_send_wr` fields that
    /// `ibv_post_send` reads.
    pub fn to_wr(&self) -> (r: RawSendWr)
        ensures
            r == spec_send_wr(
                self.spec_wr_id(),
                self.spec_sgl().len() as int,
                self.spec_signal(),
                self.spec_details(),
            ),
            self.spec_details() matches SendWrDetails::CompareSwap { dst, current, new } ==> r.opcode
                == IBV_WR_ATOMIC_CMP_AND_SWP && r.wr == WrUnion::Atomic(
                AtomicTarget { remote_addr: dst.addr, compare_add: current, swap: new, rkey: dst.rkey },
            ),
            self.spec_details() matches SendWrDetails::FetchAdd { dst, add } ==> r.opcode
                == IBV_WR_ATOMIC_FETCH_AND_ADD && r.wr == WrUnion::Atomic(
                AtomicTarget { remote_addr: dst.addr, compare_add: add, swap: 0, rkey: dst.rkey },
            ),
    {
        let flags: u32 = if self.signal {
            IBV_SEND_SIGNALED
        } else {
            0
        };
        let base = RawSendWr {
            wr_id: self.wr_id,
            num_sge: self.local.len() as i32,
            opcode: 0,
            send_flags: flags,
            imm_data: 0,
            wr: WrUnion::Zeroed,
        };
        match &self.details {
            SendWrDetails::SendRc { imm, inline } => {
                let (op, v) = opcode_with_imm(*imm, IBV_WR_SEND, IBV_WR_SEND_WITH_IMM);
                let f = if *inline {
                    flags | IBV_SEND_INLINE
                } else {
                    flags
                };
                RawSendWr { opcode: op, imm_data: v, send_flags: f, ..base }
            },
            SendWrDetails::SendUd { peer, imm, inline } => {
                let (op, v) = opcode_with_imm(*imm, IBV_WR_SEND, IBV_WR_SEND_WITH_IMM);
                let f = if *inline {
                    flags | IBV_SEND_INLINE
                } else {
                    flags
                };
                RawSendWr {
                    opcode: op,
                    imm_data: v,
                    send_flags: f,
                    wr: WrUnion::Ud(peer.as_ud_t()),
                    ..base
                }
            },
            SendWrDetails::Read { src } => RawSendWr {
                opcode: IBV_WR_RDMA_READ,
                wr: WrUnion::Rdma(src.as_rdma_t()),
                ..base
            },
            SendWrDetails::Write { dst, imm } => {
                let (op, v) = opcode_with_imm(*imm, IBV_WR_RDMA_WRITE, IBV_WR_RDMA_WRITE_WITH_IMM);
                RawSendWr { opcode: op, imm_data: v, wr: WrUnion::Rdma(dst.as_rdma_t()), ..base }
            },
            SendWrDetails::CompareSwap { dst, current, new } => RawSendWr {
                opcode: IBV_WR_ATOMIC_CMP_AND_SWP,
                wr: WrUnion::Atomic(
                    AtomicTarget {
                        remote_addr: dst.addr,
                        compare_add: *current,
                        swap: *new,
                        rkey: dst.rkey,
                    },
                ),
                ..base
            },
            SendWrDetails::FetchAdd { dst, add } => RawSendWr {
                opcode: IBV_WR_ATOMIC_FETCH_AND_ADD,
                wr: WrUnion::Atomic(
                    AtomicTarget { remote_addr: dst.addr, compare_add: *add, swap: 0, rkey: dst.rkey },
                ),
                ..base
            },
        }
    }
}

/// Receive work request: a scatter/gather list and a work request ID.
pub struct RecvWr {
    local: Vec<Sge>,
    wr_id: u64,
    signal: bool,
}

impl RecvWr {
    /// The scatter/gather list.
    pub closed spec fn spec_sgl(&self) -> Seq<Sge> {
        self.local@
    }

    /// The work request ID.
    pub closed spec fn spec_wr_id(&self) -> u64 {
        self.wr_id
    }

    /// Create a new receive work request.
    pub fn new(local: &[MrSlice], wr_id: u64) -> (w: RecvWr)
        ensures
            w.spec_sgl().len() == local@.len(),
            forall|i: int| 0 <= i < local@.len() ==> #[trigger] w.spec_sgl()[i] == spec_sge(local@[i]),
            w.spec_wr_id() == wr_id,
    {
        RecvWr { local: build_sgl(local), wr_id, signal: true }
    }

    /// The scatter/gather list of this work request.
    pub fn sgl(&self) -> (r: &[Sge])
        ensures
            r@ == self.spec_sgl(),
    {
        self.local.as_slice()
    }

    /// Lay the work request out as the `ibv_recv_wr` fields that
    /// `ibv_post_recv` reads.
    pub fn to_wr(&self) -> (r: RawRecvWr)
        ensures
            r == (RawRecvWr { wr_id: self.spec_wr_id(), num_sge: self.spec_sgl().len() as i32 }),
    {
        RawRecvWr { wr_id: self.wr_id, num_sge: self.local.len() as i32 }
    }
}

} // verus!
