//! Completion queues and work completions.
use vstd::prelude::*;

use crate::interop::VerbsError;
use crate::verbs::{
    IBV_WC_BIND_MW, IBV_WC_COMP_SWAP, IBV_WC_FETCH_ADD, IBV_WC_RDMA_READ, IBV_WC_RDMA_WRITE,
    IBV_WC_RECV, IBV_WC_RECV_RDMA_WITH_IMM, IBV_WC_SEND, IBV_WC_WITH_IMM,
};

verus! {

/// Opcode of a completion queue entry.
#[derive(Clone, Copy, Debug, PartialEq, Eq, Structural)]
pub enum WcOpcode {
    /// Send request.
    Send,
    /// RDMA write request.
    RdmaWrite,
    /// RDMA read request.
    RdmaRead,
    /// RDMA compare-and-swap request.
    CompSwap,
    /// RDMA fetch-and-add request.
    FetchAdd,
    /// Memory window bind request.
    BindMw,
    /// Receive request.
    Recv,
    /// Receive request with immediate data.
    RecvRdmaImm,
}

/// The `ibv_wc_opcode` code of an opcode.
pub open spec fn spec_wc_opcode_code(op: WcOpcode) -> u32 {
    match op {
        WcOpcode::Send => IBV_WC_SEND,
        WcOpcode::RdmaWrite => IBV_WC_RDMA_WRITE,
        WcOpcode::RdmaRead => IBV_WC_RDMA_READ,
        WcOpcode::CompSwap => IBV_WC_COMP_SWAP,
        WcOpcode::FetchAdd => IBV_WC_FETCH_ADD,
        WcOpcode::BindMw => IBV_WC_BIND_MW,
        WcOpcode::Recv => IBV_WC_RECV,
        WcOpcode::RecvRdmaImm => IBV_WC_RECV_RDMA_WITH_IMM,
    }
}

/// Whether `code` is an `ibv_wc_opcode` code that [`WcOpcode`] covers.
pub open spec fn spec_wc_opcode_known(code: u32) -> bool {
    code <= IBV_WC_BIND_MW || code == IBV_WC_RECV || code == IBV_WC_RECV_RDMA_WITH_IMM
}

impl WcOpcode {
    /// The opcode of an `ibv_wc_opcode` code, which must be one of those
    /// that the library knows.
    pub fn from_code(code: u32) -> (op: WcOpcode)
        requires
            spec_wc_opcode_known(code),
        ensures
            spec_wc_opcode_code(op) == code,
    {
        if code == IBV_WC_SEND {
            WcOpcode::Send
        } else if code == IBV_WC_RDMA_WRITE {
            WcOpcode::RdmaWrite
        } else if code == IBV_WC_RDMA_READ {
            WcOpcode::RdmaRead
        } else if code == IBV_WC_COMP_SWAP {
            WcOpcode::CompSwap
        } else if code == IBV_WC_FETCH_ADD {
            WcOpcode::FetchAdd
        } else if code == IBV_WC_BIND_MW {
            WcOpcode::BindMw
        } else if code == IBV_WC_RECV {
            WcOpcode::Recv
        } else {
            WcOpcode::RecvRdmaImm
        }
    }

    /// The `ibv_wc_opcode` code of this opcode.
    pub fn code(&self) -> (r: u32)
        ensures
            r == spec_wc_opcode_code(*self),
    {
        match self {
            WcOpcode::Send => IBV_WC_SEND,
            WcOpcode::RdmaWrite => IBV_WC_RDMA_WRITE,
            WcOpcode::RdmaRead => IBV_WC_RDMA_READ,
            WcOpcode::CompSwap => IBV_WC_COMP_SWAP,
            WcOpcode::FetchAdd => IBV_WC_FETCH_ADD,
            WcOpcode::BindMw => IBV_WC_BIND_MW,
            WcOpcode::Recv => IBV_WC_RECV,
            WcOpcode::RecvRdmaImm => IBV_WC_RECV_RDMA_WITH_IMM,
        }
    }
}

/// Law: each opcode has a code that `from_code` accepts, and distinct
/// opcodes have distinct codes.
pub proof fn lemma_wc_opcode_code_roundtrip(a: WcOpcode, b: WcOpcode)
    ensures
        spec_wc_opcode_known(spec_wc_opcode_code(a)),
        spec_wc_opcode_code(a) == spec_wc_opcode_code(b) ==> a == b,
{
}

/// Status of a completion queue entry, in the order of the `ibv_wc_status`
/// codes 0 to 23.
#[derive(Clone, Copy, Debug, PartialEq, Eq, Structural)]
pub enum WcStatus {
    /// Operation completed successfully.
    Success,
    /// Local length error.
    LocLenErr,
    /// Local QP operation error.
    LocQpOpErr,
    /// Local EE context operation error.
    LocEecOpErr,
    /// Local protection error.
    LocProtErr,
    /// Work request flushed error.
    WrFlushErr,
    /// Memory window binding error.
    MwBindErr,
    /// Bad response error.
    BadRespErr,
    /// Local access error.
    LocAccessErr,
    /// Remote invalid request error.
    RemInvReqErr,
    /// Remote access error.
    RemAccessErr,
    /// Remote operation error.
    RemOpErr,
    /// Transport retry counter exceeded.
    RetryExcErr,
    /// RNR retry counter exceeded.
    RnrRetryExcErr,
    /// Local RDD violation error.
    LocRddViolErr,
    /// Remote invalid RD request error.
    RemInvRdReqErr,
    /// Remote aborted error.
    RemAbortErr,
    /// Invalid EE context number.
    InvEecnErr,
    /// Invalid EE context state error.
    InvEecStateErr,
    /// Fatal error.
    FatalErr,
    /// Response timeout error.
    RespTimeoutErr,
    /// General error.
    GeneralErr,
    /// Tag matching error.
    TmErr,
    /// Rendezvous request tagged buffer insufficient.
    TmRndvIncomplete,
}

/// The `ibv_wc_status` code of a status.
pub open spec fn spec_wc_status_code(s: WcStatus) -> u32 {
    match s {
        WcStatus::Success => 0,
        WcStatus::LocLenErr => 1,
        WcStatus::LocQpOpErr => 2,
        WcStatus::LocEecOpErr => 3,
        WcStatus::LocProtErr => 4,
        WcStatus::WrFlushErr => 5,
        WcStatus::MwBindErr => 6,
        WcStatus::BadRespErr => 7,
        WcStatus::LocAccessErr => 8,
        WcStatus::RemInvReqErr => 9,
        WcStatus::RemAccessErr => 10,
        WcStatus::RemOpErr => 11,
        WcStatus::RetryExcErr => 12,
        WcStatus::RnrRetryExcErr => 13,
        WcStatus::LocRddViolErr => 14,
        WcStatus::RemInvRdReqErr => 15,
        WcStatus::RemAbortErr => 16,
        WcStatus::InvEecnErr => 17,
        WcStatus::InvEecStateErr => 18,
        WcStatus::FatalErr => 19,
        WcStatus::RespTimeoutErr => 20,
        WcStatus::GeneralErr => 21,
        WcStatus::TmErr => 22,
        WcStatus::TmRndvIncomplete => 23,
    }
}

/// `IBV_WC_SUCCESS`.
pub const IBV_WC_SUCCESS: u32 = 0;

/// `IBV_WC_LOC_LEN_ERR`.
pub const IBV_WC_LOC_LEN_ERR: u32 = 1;

/// `IBV_WC_LOC_QP_OP_ERR`.
pub const IBV_WC_LOC_QP_OP_ERR: u32 = 2;

/// `IBV_WC_LOC_EEC_OP_ERR`.
pub const IBV_WC_LOC_EEC_OP_ERR: u32 = 3;

/// `IBV_WC_LOC_PROT_ERR`.
pub const IBV_WC_LOC_PROT_ERR: u32 = 4;

/// `IBV_WC_WR_FLUSH_ERR`.
pub const IBV_WC_WR_FLUSH_ERR: u32 = 5;

/// `IBV_WC_MW_BIND_ERR`.
pub const IBV_WC_MW_BIND_ERR: u32 = 6;

/// `IBV_WC_BAD_RESP_ERR`.
pub const IBV_WC_BAD_RESP_ERR: u32 = 7;

/// `IBV_WC_LOC_ACCESS_ERR`.
pub const IBV_WC_LOC_ACCESS_ERR: u32 = 8;

/// `IBV_WC_REM_INV_REQ_ERR`.
pub const IBV_WC_REM_INV_REQ_ERR: u32 = 9;

/// `IBV_WC_REM_ACCESS_ERR`.
pub const IBV_WC_REM_ACCESS_ERR: u32 = 10;

/// `IBV_WC_REM_OP_ERR`.
pub const IBV_WC_REM_OP_ERR: u32 = 11;

/// `IBV_WC_RETRY_EXC_ERR`.
pub const IBV_WC_RETRY_EXC_ERR: u32 = 12;

/// `IBV_WC_RNR_RETRY_EXC_ERR`.
pub const IBV_WC_RNR_RETRY_EXC_ERR: u32 = 13;

/// `IBV_WC_LOC_RDD_VIOL_ERR`.
pub const IBV_WC_LOC_RDD_VIOL_ERR: u32 = 14;

/// `IBV_WC_REM_INV_RD_REQ_ERR`.
pub const IBV_WC_REM_INV_RD_REQ_ERR: u32 = 15;

/// `IBV_WC_REM_ABORT_ERR`.
pub const IBV_WC_REM_ABORT_ERR: u32 = 16;

/// `IBV_WC_INV_EECN_ERR`.
pub const IBV_WC_INV_EECN_ERR: u32 = 17;

/// `IBV_WC_INV_EEC_STATE_ERR`.
pub const IBV_WC_INV_EEC_STATE_ERR: u32 = 18;

/// `IBV_WC_FATAL_ERR`.
pub const IBV_WC_FATAL_ERR: u32 = 19;

/// `IBV_WC_RESP_TIMEOUT_ERR`.
pub const IBV_WC_RESP_TIMEOUT_ERR: u32 = 20;

/// `IBV_WC_GENERAL_ERR`.
pub const IBV_WC_GENERAL_ERR: u32 = 21;

/// `IBV_WC_TM_ERR`.
pub const IBV_WC_TM_ERR: u32 = 22;

/// `IBV_WC_TM_RNDV_INCOMPLETE`, the largest `ibv_wc_status` code.
pub const IBV_WC_TM_RNDV_INCOMPLETE: u32 = 23;

/// Law: each status stands for the `ibv_wc_status` code of `libibverbs`
/// that it is named after: its code is that constant (so that, codes being
/// distinct, `WcStatus::from_code` of that constant is the status).
pub proof fn lemma_wc_status_codes()
    ensures
        spec_wc_status_code(WcStatus::Success) == IBV_WC_SUCCESS,
        spec_wc_status_code(WcStatus::LocLenErr) == IBV_WC_LOC_LEN_ERR,
        spec_wc_status_code(WcStatus::LocQpOpErr) == IBV_WC_LOC_QP_OP_ERR,
        spec_wc_status_code(WcStatus::LocEecOpErr) == IBV_WC_LOC_EEC_OP_ERR,
        spec_wc_status_code(WcStatus::LocProtErr) == IBV_WC_LOC_PROT_ERR,
        spec_wc_status_code(WcStatus::WrFlushErr) == IBV_WC_WR_FLUSH_ERR,
        spec_wc_status_code(WcStatus::MwBindErr) == IBV_WC_MW_BIND_ERR,
        spec_wc_status_code(WcStatus::BadRespErr) == IBV_WC_BAD_RESP_ERR,
        spec_wc_status_code(WcStatus::LocAccessErr) == IBV_WC_LOC_ACCESS_ERR,
        spec_wc_status_code(WcStatus::RemInvReqErr) == IBV_WC_REM_INV_REQ_ERR,
        spec_wc_status_code(WcStatus::RemAccessErr) == IBV_WC_REM_ACCESS_ERR,
        spec_wc_status_code(WcStatus::RemOpErr) == IBV_WC_REM_OP_ERR,
        spec_wc_status_code(WcStatus::RetryExcErr) == IBV_WC_RETRY_EXC_ERR,
        spec_wc_status_code(WcStatus::RnrRetryExcErr) == IBV_WC_RNR_RETRY_EXC_ERR,
        spec_wc_status_code(WcStatus::LocRddViolErr) == IBV_WC_LOC_RDD_VIOL_ERR,
        spec_wc_status_code(WcStatus::RemInvRdReqErr) == IBV_WC_REM_INV_RD_REQ_ERR,
        spec_wc_status_code(WcStatus::RemAbortErr) == IBV_WC_REM_ABORT_ERR,
        spec_wc_status_code(WcStatus::InvEecnErr) == IBV_WC_INV_EECN_ERR,
        spec_wc_status_code(WcStatus::InvEecStateErr) == IBV_WC_INV_EEC_STATE_ERR,
        spec_wc_status_code(WcStatus::FatalErr) == IBV_WC_FATAL_ERR,
        spec_wc_status_code(WcStatus::RespTimeoutErr) == IBV_WC_RESP_TIMEOUT_ERR,
        spec_wc_status_code(WcStatus::GeneralErr) == IBV_WC_GENERAL_ERR,
        spec_wc_status_code(WcStatus::TmErr) == IBV_WC_TM_ERR,
        spec_wc_status_code(WcStatus::TmRndvIncomplete) == IBV_WC_TM_RNDV_INCOMPLETE,
{
}

impl WcStatus {
    /// The status of an `ibv_wc_status` code, which must not be above 23.
    pub fn from_code(code: u32) -> (s: WcStatus)
        requires
            code <= IBV_WC_TM_RNDV_INCOMPLETE,
        ensures
            spec_wc_status_code(s) == code,
    {
        match code {
            0 => WcStatus::Success,
            1 => WcStatus::LocLenErr,
            2 => WcStatus::LocQpOpErr,
            3 => WcStatus::LocEecOpErr,
            4 => WcStatus::LocProtErr,
            5 => WcStatus::WrFlushErr,
            6 => WcStatus::MwBindErr,
            7 => WcStatus::BadRespErr,
            8 => WcStatus::LocAccessErr,
            9 => WcStatus::RemInvReqErr,
            10 => WcStatus::RemAccessErr,
            11 => WcStatus::RemOpErr,
            12 => WcStatus::RetryExcErr,
            13 => WcStatus::RnrRetryExcErr,
            14 => WcStatus::LocRddViolErr,
            15 => WcStatus::RemInvRdReqErr,
            16 => WcStatus::RemAbortErr,
            17 => WcStatus::InvEecnErr,
            18 => WcStatus::InvEecStateErr,
            19 => WcStatus::FatalErr,
            20 => WcStatus::RespTimeoutErr,
            21 => WcStatus::GeneralErr,
            22 => WcStatus::TmErr,
            _ => WcStatus::TmRndvIncomplete,
        }
    }

    /// The `ibv_wc_status` code of this status.
    pub fn code(&self) -> (r: u32)
        ensures
            r == spec_wc_status_code(*self),
    {
        match self {
            WcStatus::Success => 0,
            WcStatus::LocLenErr => 1,
            WcStatus::LocQpOpErr => 2,
            WcStatus::LocEecOpErr => 3,
            WcStatus::LocProtErr => 4,
            WcStatus::WrFlushErr => 5,
            WcStatus::MwBindErr => 6,
            WcStatus::BadRespErr => 7,
            WcStatus::LocAccessErr => 8,
            WcStatus::RemInvReqErr => 9,
            WcStatus::RemAccessErr => 10,
            WcStatus::RemOpErr => 11,
            WcStatus::RetryExcErr => 12,
            WcStatus::RnrRetryExcErr => 13,
            WcStatus::LocRddViolErr => 14,
            WcStatus::RemInvRdReqErr => 15,
            WcStatus::RemAbortErr => 16,
            WcStatus::InvEecnErr => 17,
            WcStatus::InvEecStateErr => 18,
            WcStatus::FatalErr => 19,
            WcStatus::RespTimeoutErr => 20,
            WcStatus::GeneralErr => 21,
            WcStatus::TmErr => 22,
            WcStatus::TmRndvIncomplete => 23,
        }
    }
}

/// Law: each status has a code that `from_code` accepts, and distinct
/// statuses have distinct codes.
pub proof fn lemma_wc_status_code_roundtrip(a: WcStatus, b: WcStatus)
    ensures
        spec_wc_status_code(a) <= IBV_WC_TM_RNDV_INCOMPLETE,
        spec_wc_status_code(a) == spec_wc_status_code(b) ==> a == b,
{
}

/// The progress of a blocking poll for `num` work completions: polls go on
/// into the entries `polled..num` until all `num` were polled.
#[derive(Clone, Copy, Debug, PartialEq, Eq, Structural)]
pub struct BlockingPoll {
    /// The number of completions to poll.
    pub num: usize,
    /// The number polled so far.
    pub polled: usize,
}

impl BlockingPoll {
    /// Start a blocking poll for `num` work completions.
    pub fn new(num: usize) -> (p: BlockingPoll)
        ensures
            p == (BlockingPoll { num, polled: 0 }),
    {
        BlockingPoll { num, polled: 0 }
    }

    /// Whether all the completions were polled.
    pub fn done(&self) -> (r: bool)
        ensures
            r == (self.polled >= self.num),
    {
        self.polled >= self.num
    }

    /// The entries that the next poll fills: `polled..num`.
    pub fn next_range(&self) -> (r: core::ops::Range<usize>)
        requires
            self.polled <= self.num,
        ensures
            r.start == self.polled,
            r.end == self.num,
    {
        core::ops::Range { start: self.polled, end: self.num }
    }

    /// After a poll that got `n` completions (at most as many as it was
    /// asked for).
    pub fn after_poll(&mut self, n: usize)
        requires
            old(self).polled + n <= old(self).num,
        ensures
            final(self).num == old(self).num,
            final(self).polled == old(self).polled + n,
    {
        self.polled = self.polled + n;
    }
}

/// Work completion entry: the fields of an `ibv_wc` that the library reads.
#[derive(Clone, Copy, Debug)]
pub struct Wc {
    /// Work request ID.
    pub wr_id: u64,
    /// Status code (`ibv_wc_status`).
    pub status: u32,
    /// Opcode (`ibv_wc_opcode`).
    pub opcode: u32,
    /// Number of bytes transferred.
    pub byte_len: u32,
    /// Immediate data, valid when the flags hold `IBV_WC_WITH_IMM`.
    pub imm_data: u32,
    /// Completion flags (`ibv_wc_flags`).
    pub wc_flags: u32,
}

impl Wc {
    /// Get the work request ID.
    pub fn wr_id(&self) -> (r: u64)
        ensures
            r == self.wr_id,
    {
        self.wr_id
    }

    /// Get the completion status.
    pub fn status(&self) -> (s: WcStatus)
        requires
            self.status <= IBV_WC_TM_RNDV_INCOMPLETE,
        ensures
            spec_wc_status_code(s) == self.status,
    {
        WcStatus::from_code(self.status)
    }

    /// Get the completion status as a `Result`: the number of bytes
    /// processed or transferred on success, the status otherwise.
    pub fn result(&self) -> (r: Result<usize, WcStatus>)
        requires
            self.status <= IBV_WC_TM_RNDV_INCOMPLETE,
        ensures
            r matches Ok(n) ==> self.status == 0 && n == self.byte_len,
            r matches Err(s) ==> self.status != 0 && spec_wc_status_code(s) == self.status,
            r is Ok <==> self.status == 0,
    {
        let s = self.status();
        if s.code() == 0 {
            Ok(self.byte_len as usize)
        } else {
            Err(s)
        }
    }

    /// Get the opcode of the work request.
    pub fn opcode(&self) -> (op: WcOpcode)
        requires
            spec_wc_opcode_known(self.opcode),
        ensures
            spec_wc_opcode_code(op) == self.opcode,
    {
        WcOpcode::from_code(self.opcode)
    }

    /// Get the number of bytes processed or transferred.
    pub fn bytes(&self) -> (r: usize)
        ensures
            r == self.byte_len,
    {
        self.byte_len as usize
    }

    /// Get the immediate data, if the completion carries any.
    pub fn imm(&self) -> (r: Option<u32>)
        ensures
            r == (if self.wc_flags & IBV_WC_WITH_IMM != 0 {
                Some(self.imm_data)
            } else {
                None
            }),
    {
        if self.wc_flags & IBV_WC_WITH_IMM != 0 {
            Some(self.imm_data)
        } else {
            None
        }
    }

    /// Get the immediate data, without checking the validity.
    pub fn imm_unchecked(&self) -> (r: u32)
        ensures
            r == self.imm_data,
    {
        self.imm_data
    }

    /// Check the first `num` polled completions, as a poll that keeps no
    /// entries does: the status of the first one that did not succeed, or
    /// `num` if all succeeded.
    pub fn check_polled(wc: &[Wc], num: usize) -> (r: Result<usize, WcStatus>)
        requires
            num <= wc@.len(),
            forall|i: int| 0 <= i < num ==> #[trigger] wc@[i].status <= IBV_WC_TM_RNDV_INCOMPLETE,
        ensures
            r matches Ok(n) ==> n == num && forall|i: int| 0 <= i < num ==> #[trigger] wc@[i].status
                == 0,
            r matches Err(s) ==> exists|k: int|
                0 <= k < num && wc@[k].status == spec_wc_status_code(s) && wc@[k].status != 0
                    && forall|i: int| 0 <= i < k ==> #[trigger] wc@[i].status == 0,
    {
        let mut i: usize = 0;
        while i < num
            invariant
                0 <= i <= num <= wc@.len(),
                forall|j: int| 0 <= j < num ==> #[trigger] wc@[j].status <= IBV_WC_TM_RNDV_INCOMPLETE,
                forall|j: int| 0 <= j < i ==> #[trigger] wc@[j].status == 0,
            decreases num - i,
        {
            match wc[i].result() {
                Ok(_) => {},
                Err(s) => {
                    return Err(s);
                },
            }
            i = i + 1;
        }
        Ok(num)
    }
}

impl Default for Wc {
    /// A zeroed work completion entry.
    fn default() -> (r: Wc)
        ensures
            r.wr_id == 0 && r.status == 0 && r.opcode == 0 && r.byte_len == 0 && r.imm_data == 0
                && r.wc_flags == 0,
    {
        Wc { wr_id: 0, status: 0, opcode: 0, byte_len: 0, imm_data: 0, wc_flags: 0 }
    }
}

/// Experimental work completion entry: the timestamp that the device may
/// attach to a completion.
#[derive(Clone, Copy, Debug, Default)]
pub struct ExpWc {
    /// Whether the completion flags hold `IBV_EXP_WC_WITH_TIMESTAMP`.
    pub with_timestamp: bool,
    /// The timestamp, valid when `with_timestamp` holds.
    pub timestamp: u64,
}

impl ExpWc {
    /// Read the timestamp of the work completion, if it carries one.
    pub fn timestamp(&self) -> (r: Option<u64>)
        ensures
            r == (if self.with_timestamp {
                Some(self.timestamp)
            } else {
                None
            }),
    {
        if self.with_timestamp {
            Some(self.timestamp)
        } else {
            None
        }
    }
}

/// Experimental completion queue: one whose entries may carry timestamps.
pub trait ExpCq {
    /// Non-blockingly poll into the given buffer. Return the number of work
    /// completions polled, which may be less than `wc.len()` or even zero;
    /// the entries past that number are not to be read. It is the caller's
    /// responsibility to check the status codes of the polled entries.
    fn exp_poll_into(&self, wc: &mut [ExpWc]) -> Result<u32, VerbsError>;
}

/// How an experimental poll into a buffer of `len` entries starts: `None`
/// where the buffer is empty, which gives `Ok(0)` with no poll; otherwise
/// the number of entries to ask `ibv_exp_poll_cq` for, `len` taken as the
/// `i32` it takes.
pub fn exp_poll_request(len: usize) -> (r: Option<i32>)
    ensures
        r is None <==> len == 0,
        r matches Some(n) ==> n == len as i32,
{
    if len == 0 {
        None
    } else {
        Some(len as i32)
    }
}

/// The indices, in order, of the entries among the first `num` of `wc` that
/// carry a timestamp (none where `num` is not positive).
pub open spec fn spec_timestamp_entries(wc: Seq<ExpWc>, num: int) -> Seq<usize>
    decreases num,
{
    if num <= 0 {
        Seq::empty()
    } else {
        let before = spec_timestamp_entries(wc, num - 1);
        if wc[num - 1].with_timestamp {
            before.push((num - 1) as usize)
        } else {
            before
        }
    }
}

/// The entries of an experimental poll that returned `num` whose timestamps
/// are to be converted to nanoseconds (see [`spec_timestamp_entries`]):
/// those polled that carry one; none where the poll failed.
pub fn exp_timestamp_entries(wc: &[ExpWc], num: i32) -> (r: Vec<usize>)
    requires
        num <= wc@.len(),
    ensures
        r@ == spec_timestamp_entries(wc@, num as int),
{
    let mut r: Vec<usize> = Vec::new();
    if num <= 0 {
        return r;
    }
    let n = num as usize;
    let mut i: usize = 0;
    while i < n
        invariant
            0 <= i <= n,
            n == num,
            n <= wc@.len(),
            r@ == spec_timestamp_entries(wc@, i as int),
        decreases n - i,
    {
        if wc[i].with_timestamp {
            r.push(i);
        }
        i = i + 1;
    }
    r
}

/// What an experimental poll that returned `num` gives: that many polled
/// entries where it is not negative, the error code it is otherwise.
pub fn exp_poll_result(num: i32) -> (r: Result<u32, VerbsError>)
    ensures
        num >= 0 ==> r == Ok::<u32, VerbsError>(num as u32),
        num < 0 ==> r == Err::<u32, VerbsError>(VerbsError { code: num, explanation: None }),
{
    if num >= 0 {
        Ok(num as u32)
    } else {
        Err(VerbsError { code: num, explanation: None })
    }
}

/// Completion queue: the `ibv_cq` handle and the handle of the device
/// context that it was created on.
#[derive(Clone, Copy, Debug, PartialEq, Eq, Structural)]
pub struct Cq {
    /// The `ibv_cq` handle.
    pub handle: u64,
    /// The `ibv_context` handle.
    pub context: u64,
}

/// The depth of a completion queue created without one.
pub const DEFAULT_CQ_DEPTH: i32 = 128;

impl Cq {
    /// The depth that a completion queue is created with: the given one, or
    /// [`DEFAULT_CQ_DEPTH`].
    pub fn depth(size: Option<i32>) -> (r: i32)
        ensures
            r == (match size {
                Some(d) => d,
                None => DEFAULT_CQ_DEPTH,
            }),
    {
        match size {
            Some(d) => d,
            None => DEFAULT_CQ_DEPTH,
        }
    }

    /// Get the handle of the device context of the queue.
    pub fn context(&self) -> (r: u64)
        ensures
            r == self.context,
    {
        self.context
    }

    /// Get the underlying `ibv_cq` handle.
    pub fn as_raw(&self) -> (r: u64)
        ensures
            r == self.handle,
    {
        self.handle
    }
}

} // verus!
