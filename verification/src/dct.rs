//! Dynamically-connected targets (DCTs).
use vstd::prelude::*;

use crate::context::{Context, Pd, Srq};
use crate::cq::Cq;
use crate::gid::GidTyped;
use crate::perm::Permission;
use crate::port::{spec_is_recommended, spec_mtu_code, Port, PortAttr};
use crate::qp::{QpCaps, QpEndpoint, GLOBAL_DC_KEY};
use crate::queue_pair::{GLOBAL_INIT_PSN, GLOBAL_QKEY};
use crate::verbs::{IBV_MTU_256, IBV_MTU_4096};

verus! {

/// DCT creation error type.
#[derive(Clone, Copy, Debug, PartialEq, Eq, Structural)]
pub enum DctCreationError {
    /// `libibverbs` interfaces returned this OS error code.
    IoError(i32),
    /// Created DCT has a different DC key than the specified one.
    DifferentDcKey(u64),
    /// DCT state is not active.
    NotActive,
}

/// Check a DCT as `ibv_exp_query_dct` reported it: it must hold the global
/// DC key, then be active.
pub fn check_queried_dct(dc_key: u64, active: bool) -> (r: Result<(), DctCreationError>)
    ensures
        r == (if dc_key != GLOBAL_DC_KEY {
            Err(DctCreationError::DifferentDcKey(dc_key))
        } else if !active {
            Err(DctCreationError::NotActive)
        } else {
            Ok(())
        }),
{
    if dc_key != GLOBAL_DC_KEY {
        return Err(DctCreationError::DifferentDcKey(dc_key));
    }
    if !active {
        return Err(DctCreationError::NotActive);
    }
    Ok(())
}

/// DCT builder.
pub struct DctBuilder<'a> {
    /// Protection domain of this DCT.
    pub pd: Option<&'a Pd>,
    /// Receive completion queue for this DCT.
    pub cq: Option<&'a Cq>,
    /// The local port to use.
    pub port: Option<Port>,
    /// The GID index to use.
    pub gid_index: u8,
    /// The maximum message size (in bytes) that can be inline received.
    pub inline_size: u32,
}

impl<'a> DctBuilder<'a> {
    /// Create a new DCT builder: nothing set.
    pub fn new() -> (b: DctBuilder<'a>)
        ensures
            b.pd is None,
            b.cq is None,
            b.port is None,
            b.gid_index == 0,
            b.inline_size == 0,
    {
        DctBuilder { pd: None, cq: None, port: None, gid_index: 0, inline_size: 0 }
    }

    /// Set the protection domain of this DCT.
    pub fn pd(self, pd: &'a Pd) -> (b: DctBuilder<'a>)
        ensures
            b.pd == Some(pd),
            b.cq == self.cq,
            b.port == self.port,
            b.gid_index == self.gid_index,
            b.inline_size == self.inline_size,
    {
        DctBuilder { pd: Some(pd), ..self }
    }

    /// Set the receive completion queue for this DCT.
    pub fn cq(self, cq: &'a Cq) -> (b: DctBuilder<'a>)
        ensures
            b.pd == self.pd,
            b.cq == Some(cq),
            b.port == self.port,
            b.gid_index == self.gid_index,
            b.inline_size == self.inline_size,
    {
        DctBuilder { cq: Some(cq), ..self }
    }

    /// Set the local port and GID index for this DCT; without an index, the
    /// port's recommended GID, which the port must then have.
    pub fn port(self, port: &Port, gid_index: Option<u8>) -> (b: DctBuilder<'a>)
        requires
            gid_index is None ==> port.spec_gids().len() > 0,
        ensures
            b.pd == self.pd,
            b.cq == self.cq,
            b.port matches Some(p) && p.spec_num() == port.spec_num() && p.spec_attr()
                == port.spec_attr() && p.spec_gids() == port.spec_gids(),
            gid_index matches Some(g) ==> b.gid_index == g,
            gid_index is None ==> exists|k: int|
                #[trigger] spec_is_recommended(port.spec_gids(), k) && b.gid_index == (k as u8),
            b.inline_size == self.inline_size,
    {
        let g = match gid_index {
            Some(g) => g,
            None => port.recommended_gid().1,
        };
        DctBuilder { port: Some(port.clone()), gid_index: g, ..self }
    }

    /// Set the maximum message size (in bytes) that can be inline received.
    pub fn inline_size(self, len: u32) -> (b: DctBuilder<'a>)
        ensures
            b.pd == self.pd,
            b.cq == self.cq,
            b.port == self.port,
            b.gid_index == self.gid_index,
            b.inline_size == len,
    {
        DctBuilder { inline_size: len, ..self }
    }

    /// Unwrap the builder, with the SRQ created for the DCT, into the
    /// initialization attributes. The protection domain, the CQ and the
    /// port must be set.
    pub fn unwrap(self, srq: Srq) -> (a: DctInitAttr)
        requires
            self.pd is Some,
            self.cq is Some,
            self.port is Some,
        ensures
            a.pd == *self.pd.unwrap(),
            a.cq == *self.cq.unwrap(),
            a.srq == srq,
            a.port.spec_num() == self.port.unwrap().spec_num(),
            a.port.spec_attr() == self.port.unwrap().spec_attr(),
            a.port.spec_gids() == self.port.unwrap().spec_gids(),
            a.gid_index == self.gid_index,
            a.inline_size == self.inline_size,
    {
        let gid_index = self.gid_index;
        let inline_size = self.inline_size;
        let pd = *self.pd.unwrap();
        let cq = *self.cq.unwrap();
        let port = self.port.unwrap();
        DctInitAttr { pd, cq, srq, port, gid_index, inline_size }
    }
}

/// The capabilities of the SRQ that each DCT receives on: those of a
/// default QP's receive queue.
pub fn dct_srq_caps() -> (r: (u32, u32))
    ensures
        r == (128u32, 16u32),
{
    let caps = QpCaps::default();
    (caps.max_recv_wr, caps.max_recv_sge)
}

/// Initialization attributes of a DCT endpoint.
pub struct DctInitAttr {
    /// Protection domain.
    pub pd: Pd,
    /// Receive completion queue.
    pub cq: Cq,
    /// Shared receive queue.
    pub srq: Srq,
    /// Local port.
    pub port: Port,
    /// GID index.
    pub gid_index: u8,
    /// Inline receive size.
    pub inline_size: u32,
}

/// The fields of an `ibv_exp_dct_init_attr` that the library fills in; the
/// others are zero.
#[derive(Clone, Copy, Debug, PartialEq, Eq, Structural)]
pub struct RawDctInitAttr {
    /// Protection domain handle.
    pub pd: u64,
    /// CQ handle.
    pub cq: u64,
    /// SRQ handle.
    pub srq: u64,
    /// DC key.
    pub dc_key: u64,
    /// Port number.
    pub port: u8,
    /// Access flags.
    pub access_flags: u32,
    /// Minimum RNR NAK timer.
    pub min_rnr_timer: u8,
    /// MTU code.
    pub mtu: u32,
    /// GID index.
    pub gid_index: u8,
    /// Hop limit.
    pub hop_limit: u8,
    /// Inline receive size.
    pub inline_size: u32,
}

impl DctInitAttr {
    /// The `ibv_exp_dct_init_attr` of these attributes: the global DC key,
    /// the default permissions, the port's MTU, and a hop limit of 0xFF. The
    /// port's MTU code must be one that `libibverbs` defines.
    pub fn to_init_attr(&self) -> (r: RawDctInitAttr)
        requires
            IBV_MTU_256 <= self.port.spec_attr().active_mtu <= IBV_MTU_4096,
        ensures
            r == (RawDctInitAttr {
                pd: self.pd.spec_handle(),
                cq: self.cq.handle,
                srq: self.srq.spec_handle(),
                dc_key: GLOBAL_DC_KEY,
                port: self.port.spec_num(),
                access_flags: 15,
                min_rnr_timer: 12,
                mtu: self.port.spec_attr().active_mtu,
                gid_index: self.gid_index,
                hop_limit: 0xFF,
                inline_size: self.inline_size,
            }),
    {
        let perm = Permission::default();
        let bits = perm.0;
        assert(bits == 15) by (bit_vector)
            requires
                bits == (1u32 | 4u32 | 2u32 | 8u32),
        ;
        RawDctInitAttr {
            pd: self.pd.as_raw(),
            cq: self.cq.as_raw(),
            srq: self.srq.as_raw(),
            dc_key: GLOBAL_DC_KEY,
            port: self.port.num(),
            access_flags: bits,
            min_rnr_timer: 12,
            mtu: self.port.mtu().code(),
            gid_index: self.gid_index,
            hop_limit: 0xFF,
            inline_size: self.inline_size,
        }
    }
}

/// Dynamically-connected target: the `ibv_exp_dct` handle, the context it
/// was created on, its number and its attributes.
pub struct Dct {
    handle: u64,
    ctx: Context,
    num: u32,
    init_attr: DctInitAttr,
}

impl Dct {
    /// The `ibv_exp_dct` handle.
    pub closed spec fn spec_handle(&self) -> u64 {
        self.handle
    }

    /// The DCT number.
    pub closed spec fn spec_num(&self) -> u32 {
        self.num
    }

    /// The context.
    pub closed spec fn spec_context(&self) -> Context {
        self.ctx
    }

    /// The protection domain.
    pub closed spec fn spec_pd(&self) -> Pd {
        self.init_attr.pd
    }

    /// The SRQ.
    pub closed spec fn spec_srq(&self) -> Srq {
        self.init_attr.srq
    }

    /// The CQ.
    pub closed spec fn spec_cq(&self) -> Cq {
        self.init_attr.cq
    }

    /// The GID index.
    pub closed spec fn spec_gid_index(&self) -> u8 {
        self.init_attr.gid_index
    }

    /// The port number.
    pub closed spec fn spec_port_num(&self) -> u8 {
        self.init_attr.port.spec_num()
    }

    /// The port attributes.
    pub closed spec fn spec_port_attr(&self) -> PortAttr {
        self.init_attr.port.spec_attr()
    }

    /// The port's GIDs.
    pub closed spec fn spec_port_gids(&self) -> Seq<GidTyped> {
        self.init_attr.port.spec_gids()
    }

    /// Record a DCT that `ibv_exp_create_dct` created and that passed
    /// [`check_queried_dct`].
    pub fn created(ctx: &Context, handle: u64, num: u32, init_attr: DctInitAttr) -> (d: Dct)
        ensures
            d.spec_handle() == handle,
            d.spec_context() == *ctx,
            d.spec_num() == num,
            d.spec_pd() == init_attr.pd,
            d.spec_srq() == init_attr.srq,
            d.spec_cq() == init_attr.cq,
            d.spec_gid_index() == init_attr.gid_index,
            d.spec_port_num() == init_attr.port.spec_num(),
            d.spec_port_attr() == init_attr.port.spec_attr(),
            d.spec_port_gids() == init_attr.port.spec_gids(),
    {
        Dct { handle, ctx: *ctx, num, init_attr }
    }

    /// Return a new DCT builder.
    pub fn builder<'a>() -> (b: DctBuilder<'a>)
        ensures
            b.pd is None,
            b.cq is None,
            b.port is None,
            b.gid_index == 0,
            b.inline_size == 0,
    {
        DctBuilder::new()
    }

    /// Get the underlying `ibv_exp_dct` handle.
    pub fn as_raw(&self) -> (r: u64)
        ensures
            r == self.spec_handle(),
    {
        self.handle
    }

    /// Get the RDMA device context of the DCT.
    pub fn context(&self) -> (r: &Context)
        ensures
            *r == self.spec_context(),
    {
        &self.ctx
    }

    /// Get the protection domain of the DCT.
    pub fn pd(&self) -> (r: &Pd)
        ensures
            *r == self.spec_pd(),
    {
        &self.init_attr.pd
    }

    /// Get the DCT number.
    pub fn dct_num(&self) -> (r: u32)
        ensures
            r == self.spec_num(),
    {
        self.num
    }

    /// Get the SRQ of this DCT.
    pub fn srq(&self) -> (r: &Srq)
        ensures
            *r == self.spec_srq(),
    {
        &self.init_attr.srq
    }

    /// Get the CQ of this DCT.
    pub fn cq(&self) -> (r: &Cq)
        ensures
            *r == self.spec_cq(),
    {
        &self.init_attr.cq
    }

    /// Get the attributes the DCT was created with.
    pub fn init_attr(&self) -> (r: &DctInitAttr)
        ensures
            r.pd == self.spec_pd(),
            r.cq == self.spec_cq(),
            r.srq == self.spec_srq(),
            r.gid_index == self.spec_gid_index(),
            r.port.spec_num() == self.spec_port_num(),
            r.port.spec_attr() == self.spec_port_attr(),
            r.port.spec_gids() == self.spec_port_gids(),
    {
        &self.init_attr
    }

    /// Get the endpoint information of this DCT: its port's GID at its GID
    /// index, port number, LID, and DCT number. The GID index must lie
    /// within the port's GID table.
    pub fn endpoint(&self) -> (ep: QpEndpoint)
        requires
            self.spec_gid_index() < self.spec_port_gids().len(),
        ensures
            ep == (QpEndpoint {
                gid: self.spec_port_gids()[self.spec_gid_index() as int].gid,
                port_num: self.spec_port_num(),
                lid: self.spec_port_attr().lid,
                qpn: self.spec_num(),
                psn: GLOBAL_INIT_PSN,
                qkey: GLOBAL_QKEY,
            }),
    {
        let port = &self.init_attr.port;
        let gid = port.gids()[self.init_attr.gid_index as usize].gid;
        QpEndpoint {
            gid,
            port_num: port.num(),
            lid: port.lid(),
            qpn: self.num,
            psn: GLOBAL_INIT_PSN,
            qkey: GLOBAL_QKEY,
        }
    }
}

impl QpEndpoint {
    /// The endpoint of a DCT (see [`Dct::endpoint`]). The GID index must lie
    /// within the port's GID table.
    pub fn of_dct(dct: &Dct) -> (ep: QpEndpoint)
        requires
            dct.spec_gid_index() < dct.spec_port_gids().len(),
        ensures
            ep == (QpEndpoint {
                gid: dct.spec_port_gids()[dct.spec_gid_index() as int].gid,
                port_num: dct.spec_port_num(),
                lid: dct.spec_port_attr().lid,
                qpn: dct.spec_num(),
                psn: GLOBAL_INIT_PSN,
                qkey: GLOBAL_QKEY,
            }),
    {
        dct.endpoint()
    }
}

} // verus!
