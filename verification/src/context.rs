//! Device contexts, protection domains and shared receive queues.
use vstd::prelude::*;

use crate::cq::Cq;
use crate::mr::MrSlice;
use crate::queue_pair::PostRecv;
use crate::wr::{build_sgl, spec_sge, RawRecvWr};

verus! {

/// The device attributes that `ibv_query_device` reports and that the
/// library reads.
#[derive(Clone, Copy, Debug, PartialEq, Eq, Structural)]
pub struct DeviceAttr {
    /// Maximum number of outstanding work requests on any queue.
    pub max_qp_wr: i32,
    /// Maximum number of scatter/gather elements per work request.
    pub max_sge: i32,
    /// Number of physical ports.
    pub phys_port_cnt: u8,
}

/// Device context: the `ibv_context` handle of an opened device and the
/// device attributes.
#[derive(Clone, Copy, Debug, PartialEq, Eq, Structural)]
pub struct Context {
    handle: u64,
    attr: DeviceAttr,
}

impl Context {
    /// The `ibv_context` handle.
    pub closed spec fn spec_handle(self) -> u64 {
        self.handle
    }

    /// The device attributes.
    pub closed spec fn spec_attr(self) -> DeviceAttr {
        self.attr
    }

    /// Create a context from an opened device and its attributes.
    pub fn new(handle: u64, attr: DeviceAttr) -> (c: Context)
        ensures
            c.spec_handle() == handle,
            c.spec_attr() == attr,
    {
        Context { handle, attr }
    }

    /// Get the underlying `ibv_context` handle.
    pub fn as_raw(&self) -> (r: u64)
        ensures
            r == self.spec_handle(),
    {
        self.handle
    }

    /// Get the device attributes.
    pub fn attr(&self) -> (r: &DeviceAttr)
        ensures
            *r == self.spec_attr(),
    {
        &self.attr
    }
}

/// Protection domain: the `ibv_pd` handle and the context it was allocated
/// on.
#[derive(Clone, Copy, Debug, PartialEq, Eq, Structural)]
pub struct Pd {
    handle: u64,
    ctx: Context,
}

impl Pd {
    /// The `ibv_pd` handle.
    pub closed spec fn spec_handle(self) -> u64 {
        self.handle
    }

    /// The context of the protection domain.
    pub closed spec fn spec_context(self) -> Context {
        self.ctx
    }

    /// Record a protection domain allocated on a context.
    pub fn new(ctx: &Context, handle: u64) -> (pd: Pd)
        ensures
            pd.spec_handle() == handle,
            pd.spec_context() == *ctx,
    {
        Pd { handle, ctx: *ctx }
    }

    /// Another handle on the same protection domain.
    pub fn clone(&self) -> (r: Pd)
        ensures
            r == *self,
    {
        *self
    }

    /// Get the underlying `ibv_pd` handle.
    pub fn as_raw(&self) -> (r: u64)
        ensures
            r == self.spec_handle(),
    {
        self.handle
    }

    /// Get the underlying `Context`.
    pub fn context(&self) -> (r: &Context)
        ensures
            *r == self.spec_context(),
    {
        &self.ctx
    }
}

/// The attributes that a shared receive queue is created with
/// (`ibv_srq_init_attr`, and the parts of `ibv_exp_create_srq_attr` that
/// name the protection domain and the completion queue).
#[derive(Clone, Copy, Debug, PartialEq, Eq, Structural)]
pub struct SrqInitAttr {
    /// Maximum number of outstanding work requests.
    pub max_wr: u32,
    /// Maximum number of scatter/gather elements per work request.
    pub max_sge: u32,
    /// The limit value of the SRQ (0: no limit event).
    pub srq_limit: u32,
    /// The `ibv_pd` handle.
    pub pd: u64,
    /// The `ibv_cq` handle, 0 for none.
    pub cq: u64,
}

/// Shared receive queue: the `ibv_srq` handle, the protection domain it was
/// created on, and its number.
#[derive(Clone, Copy, Debug, PartialEq, Eq, Structural)]
pub struct Srq {
    handle: u64,
    pd: Pd,
    num: u32,
}

impl Srq {
    /// The `ibv_srq` handle.
    pub closed spec fn spec_handle(self) -> u64 {
        self.handle
    }

    /// The protection domain of the SRQ.
    pub closed spec fn spec_pd(self) -> Pd {
        self.pd
    }

    /// The SRQ number.
    pub closed spec fn spec_num(self) -> u32 {
        self.num
    }

    /// Record a shared receive queue created on a protection domain, with
    /// the number that `ibv_get_srq_num` reported.
    pub fn new(pd: &Pd, handle: u64, num: u32) -> (s: Srq)
        ensures
            s.spec_handle() == handle,
            s.spec_pd() == *pd,
            s.spec_num() == num,
    {
        Srq { handle, pd: *pd, num }
    }

    /// The attributes that a shared receive queue on `pd` is created with:
    /// the given limits, no limit event, and the completion queue if one is
    /// given.
    pub fn init_attr(pd: &Pd, cq: Option<&Cq>, max_wr: u32, max_sge: u32) -> (a: SrqInitAttr)
        ensures
            a == (SrqInitAttr {
                max_wr,
                max_sge,
                srq_limit: 0,
                pd: pd.spec_handle(),
                cq: match cq {
                    Some(c) => c.handle,
                    None => 0,
                },
            }),
    {
        let cq_handle = match cq {
            Some(c) => c.as_raw(),
            None => 0,
        };
        SrqInitAttr { max_wr, max_sge, srq_limit: 0, pd: pd.as_raw(), cq: cq_handle }
    }

    /// The receive work request that posting `local` with `wr_id` to the SRQ
    /// posts.
    pub fn recv(&self, local: &[MrSlice], wr_id: u64) -> (p: PostRecv)
        ensures
            p.wr == (RawRecvWr { wr_id, num_sge: local@.len() as i32 }),
            p.sgl@.len() == local@.len(),
            forall|i: int| 0 <= i < local@.len() ==> #[trigger] p.sgl@[i] == spec_sge(local@[i]),
    {
        PostRecv { wr: RawRecvWr { wr_id, num_sge: local.len() as i32 }, sgl: build_sgl(local) }
    }

    /// Get the underlying `ibv_srq` handle.
    pub fn as_raw(&self) -> (r: u64)
        ensures
            r == self.spec_handle(),
    {
        self.handle
    }

    /// Get the protection domain of the SRQ.
    pub fn pd(&self) -> (r: &Pd)
        ensures
            *r == self.spec_pd(),
    {
        &self.pd
    }

    /// Get the RDMA device context of the SRQ.
    pub fn context(&self) -> (r: &Context)
        ensures
            *r == self.spec_pd().spec_context(),
    {
        self.pd.context()
    }

    /// Get the SRQ number.
    pub fn srq_num(&self) -> (r: u32)
        ensures
            r == self.spec_num(),
    {
        self.num
    }
}

} // verus!
