//! Queue pairs: creation checks, the bring-up through RESET, INIT, RTR and
//! RTS, and the work requests that the data-plane verbs post.
use vstd::prelude::*;

use vstd::std_specs::cmp::PartialEqSpecImpl;

use crate::context::{Context, DeviceAttr, Pd};
use crate::cq::Cq;
use crate::gid::{Gid, GidTyped};
use crate::mr::{MrRemote, MrSlice, RdmaTarget, Sge};
use crate::port::{spec_is_recommended, spec_mtu_code, Port, PortAttr, PortState};
use crate::qp::{
    spec_is_connected, spec_qp_type_code, QpCaps, QpEndpoint, QpPeer, QpState, QpType, UdTarget,
};
use crate::types::{GidIndex, ImmData, Psn, QKey, WrId};
use crate::verbs::{
    EFAULT, EINVAL, ENOMEM, IBV_ACCESS_REMOTE_ATOMIC, IBV_ACCESS_REMOTE_READ,
    IBV_ACCESS_REMOTE_WRITE, IBV_MTU_256, IBV_MTU_4096, IBV_PORT_ACTIVE_DEFER, IBV_PORT_DOWN,
    IBV_QPS_INIT, IBV_QPS_RESET, IBV_QPS_RTR, IBV_QPS_RTS, IBV_QP_ACCESS_FLAGS, IBV_QP_AV,
    IBV_QP_DEST_QPN, IBV_QP_MAX_DEST_RD_ATOMIC, IBV_QP_MAX_QP_RD_ATOMIC, IBV_QP_MIN_RNR_TIMER,
    IBV_QP_PATH_MTU, IBV_QP_PKEY_INDEX, IBV_QP_PORT, IBV_QP_QKEY, IBV_QP_RETRY_CNT,
    IBV_QP_RNR_RETRY, IBV_QP_RQ_PSN, IBV_QP_SQ_PSN, IBV_QP_STATE, IBV_QP_TIMEOUT,
    IBV_SEND_INLINE, IBV_SEND_SIGNALED, IBV_WR_ATOMIC_CMP_AND_SWP, IBV_WR_ATOMIC_FETCH_AND_ADD,
    IBV_WR_RDMA_READ, IBV_WR_RDMA_WRITE, IBV_WR_RDMA_WRITE_WITH_IMM, IBV_WR_SEND,
    IBV_WR_SEND_WITH_IMM,
};
use crate::wr::{build_sgl, spec_sge, AtomicTarget, RawRecvWr, RawSendWr, WrUnion};

verus! {

/// Which capability of a queue pair the device cannot give.
#[derive(Clone, Copy, Debug, PartialEq, Eq, Structural)]
pub enum CapName {
    /// `max_send_wr`.
    MaxSendWr,
    /// `max_recv_wr`.
    MaxRecvWr,
    /// `max_send_sge`.
    MaxSendSge,
    /// `max_recv_sge`.
    MaxRecvSge,
}

impl CapName {
    /// The name of the capability.
    pub fn name(&self) -> (r: &'static str)
        ensures
            r@ == (match *self {
                CapName::MaxSendWr => "max_send_wr"@,
                CapName::MaxRecvWr => "max_recv_wr"@,
                CapName::MaxSendSge => "max_send_sge"@,
                CapName::MaxRecvSge => "max_recv_sge"@,
            }),
    {
        match self {
            CapName::MaxSendWr => "max_send_wr",
            CapName::MaxRecvWr => "max_recv_wr",
            CapName::MaxSendSge => "max_send_sge",
            CapName::MaxRecvSge => "max_recv_sge",
        }
    }
}

/// Queue pair creation error type.
#[derive(Clone, Copy, Debug, PartialEq, Eq)]
pub enum QpCreationError {
    /// `libibverbs` interfaces returned this OS error code.
    IoError(i32),
    /// Specified capabilities are not supported by the device: the
    /// capability, the maximum supported value, and the required value.
    CapabilityNotEnough(CapName, u32, u32),
}

/// The result of checking queue pair capabilities against the device
/// attributes: the first of `max_send_wr`, `max_recv_wr`, `max_send_sge`,
/// `max_recv_sge` that exceeds what the device supports (`max_qp_wr` for the
/// first two, `max_sge` for the others, taken as `u32`).
pub open spec fn spec_check_caps(attr: DeviceAttr, caps: QpCaps) -> Result<(), QpCreationError> {
    let max_wr = attr.max_qp_wr as u32;
    let max_sge = attr.max_sge as u32;
    if caps.max_send_wr > max_wr {
        Err(QpCreationError::CapabilityNotEnough(CapName::MaxSendWr, max_wr, caps.max_send_wr))
    } else if caps.max_recv_wr > max_wr {
        Err(QpCreationError::CapabilityNotEnough(CapName::MaxRecvWr, max_wr, caps.max_recv_wr))
    } else if caps.max_send_sge > max_sge {
        Err(QpCreationError::CapabilityNotEnough(CapName::MaxSendSge, max_sge, caps.max_send_sge))
    } else if caps.max_recv_sge > max_sge {
        Err(QpCreationError::CapabilityNotEnough(CapName::MaxRecvSge, max_sge, caps.max_recv_sge))
    } else {
        Ok(())
    }
}

/// Check whether the given capabilities are supported by the device.
pub fn check_caps(ctx: &Context, caps: &QpCaps) -> (r: Result<(), QpCreationError>)
    ensures
        r == spec_check_caps(ctx.spec_attr(), *caps),
{
    let attr = ctx.attr();
    let max_wr = attr.max_qp_wr as u32;
    let max_sge = attr.max_sge as u32;
    if caps.max_send_wr > max_wr {
        return Err(QpCreationError::CapabilityNotEnough(CapName::MaxSendWr, max_wr, caps.max_send_wr));
    }
    if caps.max_recv_wr > max_wr {
        return Err(QpCreationError::CapabilityNotEnough(CapName::MaxRecvWr, max_wr, caps.max_recv_wr));
    }
    if caps.max_send_sge > max_sge {
        return Err(
            QpCreationError::CapabilityNotEnough(CapName::MaxSendSge, max_sge, caps.max_send_sge),
        );
    }
    if caps.max_recv_sge > max_sge {
        return Err(
            QpCreationError::CapabilityNotEnough(CapName::MaxRecvSge, max_sge, caps.max_recv_sge),
        );
    }
    Ok(())
}

/// Experimental features available in MLNX_OFED v4.x drivers.
#[derive(Clone, Copy, Debug, PartialEq, Eq, Structural)]
pub enum ExpFeature {
    /// Enable extended atomic compare-and-swap and fetch-and-add.
    ExtendedAtomics,
}

/// Whether `n` is an argument size, in bytes, that extended atomics take:
/// 8, 16 or 32.
pub open spec fn spec_ext_atomic_size(n: u32) -> bool {
    n == 8 || n == 16 || n == 32
}

/// Queue pair builder.
#[derive(Clone, Copy)]
pub struct QpBuilder<'a> {
    /// Send completion queue for this QP.
    pub send_cq: Option<&'a Cq>,
    /// Receive completion queue for this QP. Can be the same to send CQ.
    pub recv_cq: Option<&'a Cq>,
    /// Capabilities of this QP.
    pub caps: QpCaps,
    /// Queue pair type.
    pub qp_type: Option<QpType>,
    /// Whether to signal for all send work requests.
    pub sq_sig_all: Option<bool>,
    /// Whether to use global routing.
    pub global_routing: bool,
    /// The argument size, in bytes, of extended atomics where that feature
    /// is enabled (the set of enabled experimental features holds only this
    /// one, or nothing).
    pub extended_atomics: Option<u32>,
}

impl<'a> QpBuilder<'a> {
    /// Create a new queue pair builder: nothing set, zero capabilities, and
    /// global routing.
    pub fn new() -> (b: QpBuilder<'a>)
        ensures
            b.send_cq is None,
            b.recv_cq is None,
            b.caps == QpCaps::spec_zeroed(),
            b.qp_type is None,
            b.sq_sig_all is None,
            b.global_routing,
            b.extended_atomics is None,
    {
        QpBuilder {
            send_cq: None,
            recv_cq: None,
            caps: QpCaps::zeroed(),
            qp_type: None,
            sq_sig_all: None,
            global_routing: true,
            extended_atomics: None,
        }
    }

    /// Set the send completion queue for this QP.
    pub fn send_cq(self, send_cq: &'a Cq) -> (b: QpBuilder<'a>)
        ensures
            b == (QpBuilder { send_cq: Some(send_cq), ..self }),
    {
        QpBuilder { send_cq: Some(send_cq), ..self }
    }

    /// Set the receive completion queue for this QP.
    pub fn recv_cq(self, recv_cq: &'a Cq) -> (b: QpBuilder<'a>)
        ensures
            b == (QpBuilder { recv_cq: Some(recv_cq), ..self }),
    {
        QpBuilder { recv_cq: Some(recv_cq), ..self }
    }

    /// Set the capabilities of this QP.
    pub fn caps(self, caps: QpCaps) -> (b: QpBuilder<'a>)
        ensures
            b == (QpBuilder { caps, ..self }),
    {
        QpBuilder { caps, ..self }
    }

    /// Set the type of this QP.
    pub fn qp_type(self, qp_type: QpType) -> (b: QpBuilder<'a>)
        ensures
            b == (QpBuilder { qp_type: Some(qp_type), ..self }),
    {
        QpBuilder { qp_type: Some(qp_type), ..self }
    }

    /// Set whether to signal for all send work requests.
    pub fn sq_sig_all(self, sq_sig_all: bool) -> (b: QpBuilder<'a>)
        ensures
            b == (QpBuilder { sq_sig_all: Some(sq_sig_all), ..self }),
    {
        QpBuilder { sq_sig_all: Some(sq_sig_all), ..self }
    }

    /// Set whether to use global routing.
    pub fn global_routing(self, global_routing: bool) -> (b: QpBuilder<'a>)
        ensures
            b == (QpBuilder { global_routing, ..self }),
    {
        QpBuilder { global_routing, ..self }
    }

    /// Enable an experimental feature for the QP: extended atomics with
    /// arguments of `arg_size` bytes, which must be 8, 16 or 32.
    pub fn enable_feature(self, feature: ExpFeature, arg_size: u32) -> (b: QpBuilder<'a>)
        requires
            spec_ext_atomic_size(arg_size),
        ensures
            b == (QpBuilder { extended_atomics: Some(arg_size), ..self }),
    {
        match feature {
            ExpFeature::ExtendedAtomics => QpBuilder { extended_atomics: Some(arg_size), ..self },
        }
    }

    /// Disable an experimental feature for the QP.
    pub fn disable_feature(self, feature: ExpFeature) -> (b: QpBuilder<'a>)
        ensures
            b == (QpBuilder { extended_atomics: None, ..self }),
    {
        match feature {
            ExpFeature::ExtendedAtomics => QpBuilder { extended_atomics: None, ..self },
        }
    }

    /// Whether every mandatory field is set.
    pub open spec fn spec_complete(self) -> bool {
        self.send_cq is Some && self.recv_cq is Some && self.qp_type is Some
            && self.sq_sig_all is Some
    }

    /// Unwrap the builder and return the set attributes. The mandatory
    /// fields must be set.
    pub fn unwrap(self) -> (a: QpInitAttr)
        requires
            self.spec_complete(),
        ensures
            a == (QpInitAttr {
                send_cq: *self.send_cq.unwrap(),
                recv_cq: *self.recv_cq.unwrap(),
                caps: self.caps,
                qp_type: self.qp_type.unwrap(),
                sq_sig_all: self.sq_sig_all.unwrap(),
                global_routing: self.global_routing,
                extended_atomics: self.extended_atomics,
            }),
    {
        QpInitAttr {
            send_cq: *self.send_cq.unwrap(),
            recv_cq: *self.recv_cq.unwrap(),
            caps: self.caps,
            qp_type: self.qp_type.unwrap(),
            sq_sig_all: self.sq_sig_all.unwrap(),
            global_routing: self.global_routing,
            extended_atomics: self.extended_atomics,
        }
    }
}

impl QpCaps {
    /// Zero capabilities.
    pub open spec fn spec_zeroed() -> QpCaps {
        QpCaps { max_send_wr: 0, max_recv_wr: 0, max_send_sge: 0, max_recv_sge: 0, max_inline_data: 0 }
    }
}

/// Initialization attributes of a queue pair.
#[derive(Clone, Copy, Debug, PartialEq, Eq, Structural)]
pub struct QpInitAttr {
    /// Send completion queue for this QP.
    pub send_cq: Cq,
    /// Receive completion queue for this QP.
    pub recv_cq: Cq,
    /// Capabilities of this QP.
    pub caps: QpCaps,
    /// Queue pair type.
    pub qp_type: QpType,
    /// Whether to signal for all send work requests.
    pub sq_sig_all: bool,
    /// Whether to use global routing.
    pub global_routing: bool,
    /// The argument size, in bytes, of extended atomics where they are
    /// enabled.
    pub extended_atomics: Option<u32>,
}

/// The fields of an `ibv_qp_init_attr` (or `ibv_qp_init_attr_ex`) that the
/// library fills in; the others are zero.
#[derive(Clone, Copy, Debug, PartialEq, Eq, Structural)]
pub struct RawQpInitAttr {
    /// Send CQ handle.
    pub send_cq: u64,
    /// Receive CQ handle.
    pub recv_cq: u64,
    /// Capabilities.
    pub cap: QpCaps,
    /// `ibv_qp_type` code.
    pub qp_type: u32,
    /// Whether all send work requests are signaled (0 or 1).
    pub sq_sig_all: i32,
    /// Protection domain handle (0 where not given).
    pub pd: u64,
    /// Mask of the extended fields that are set (0 where none is).
    pub comp_mask: u32,
}

/// The fields of an `ibv_exp_qp_init_attr` that the library fills in: those
/// it shares with `ibv_qp_init_attr_ex`, and the largest atomic argument
/// where extended atomics are asked for (`None`: the atomics argument is
/// not set).
#[derive(Clone, Copy, Debug, PartialEq, Eq, Structural)]
pub struct RawExpQpInitAttr {
    /// The shared fields.
    pub base: RawQpInitAttr,
    /// The largest atomic argument.
    pub max_atomic_arg: Option<u32>,
}

/// `IBV_QP_INIT_ATTR_PD`.
pub const IBV_QP_INIT_ATTR_PD: u32 = 1;

/// `IBV_EXP_QP_INIT_ATTR_PD`.
pub const IBV_EXP_QP_INIT_ATTR_PD: u32 = 1;

/// `IBV_EXP_QP_INIT_ATTR_ATOMICS_ARG`.
pub const IBV_EXP_QP_INIT_ATTR_ATOMICS_ARG: u32 = 32;

impl QpInitAttr {
    /// Initialization attributes from their parts, with global routing and
    /// without experimental features.
    pub fn new(send_cq: Cq, recv_cq: Cq, caps: QpCaps, qp_type: QpType, sq_sig_all: bool) -> (a:
        QpInitAttr)
        ensures
            a == (QpInitAttr {
                send_cq,
                recv_cq,
                caps,
                qp_type,
                sq_sig_all,
                global_routing: true,
                extended_atomics: None,
            }),
    {
        QpInitAttr {
            send_cq,
            recv_cq,
            caps,
            qp_type,
            sq_sig_all,
            global_routing: true,
            extended_atomics: None,
        }
    }

    /// Default RC attributes: one CQ for sends and receives, the default
    /// capabilities, and work requests not signaled by default.
    pub fn default_rc(cq: Cq) -> (a: QpInitAttr)
        ensures
            a == (QpInitAttr {
                send_cq: cq,
                recv_cq: cq,
                caps: QpCaps {
                    max_send_wr: 128,
                    max_recv_wr: 128,
                    max_send_sge: 16,
                    max_recv_sge: 16,
                    max_inline_data: 64,
                },
                qp_type: QpType::Rc,
                sq_sig_all: false,
                global_routing: true,
                extended_atomics: None,
            }),
    {
        QpInitAttr::new(cq, cq, QpCaps::default(), QpType::Rc, false)
    }

    /// Default UD attributes: one CQ for sends and receives, the default
    /// capabilities, and work requests not signaled by default.
    pub fn default_ud(cq: Cq) -> (a: QpInitAttr)
        ensures
            a == (QpInitAttr {
                send_cq: cq,
                recv_cq: cq,
                caps: QpCaps {
                    max_send_wr: 128,
                    max_recv_wr: 128,
                    max_send_sge: 16,
                    max_recv_sge: 16,
                    max_inline_data: 64,
                },
                qp_type: QpType::Ud,
                sq_sig_all: false,
                global_routing: true,
                extended_atomics: None,
            }),
    {
        QpInitAttr::new(cq, cq, QpCaps::default(), QpType::Ud, false)
    }

    /// The `ibv_qp_init_attr` of these attributes.
    pub fn to_init_attr(&self) -> (r: RawQpInitAttr)
        ensures
            r == (RawQpInitAttr {
                send_cq: self.send_cq.handle,
                recv_cq: self.recv_cq.handle,
                cap: self.caps,
                qp_type: spec_qp_type_code(self.qp_type),
                sq_sig_all: if self.sq_sig_all {
                    1
                } else {
                    0
                },
                pd: 0,
                comp_mask: 0,
            }),
    {
        RawQpInitAttr {
            send_cq: self.send_cq.handle,
            recv_cq: self.recv_cq.handle,
            cap: self.caps,
            qp_type: self.qp_type.code(),
            sq_sig_all: if self.sq_sig_all {
                1
            } else {
                0
            },
            pd: 0,
            comp_mask: 0,
        }
    }

    /// The `ibv_qp_init_attr_ex` of these attributes on a protection domain.
    pub fn to_init_attr_ex(&self, pd: &Pd) -> (r: RawQpInitAttr)
        ensures
            r == (RawQpInitAttr {
                pd: pd.spec_handle(),
                comp_mask: IBV_QP_INIT_ATTR_PD,
                ..self.spec_init_attr()
            }),
    {
        let base = self.to_init_attr();
        RawQpInitAttr { pd: pd.as_raw(), comp_mask: IBV_QP_INIT_ATTR_PD, ..base }
    }

    /// The `ibv_exp_qp_init_attr` of these attributes on a protection
    /// domain: the fields of [`QpInitAttr::to_init_attr`] with the protection
    /// domain, its mask bit set; where extended atomics are enabled, also the
    /// atomics argument bit and their argument size as the largest atomic
    /// argument.
    pub fn to_exp_init_attr(&self, pd: &Pd) -> (r: RawExpQpInitAttr)
        ensures
            r.base == (RawQpInitAttr {
                pd: pd.spec_handle(),
                comp_mask: if self.extended_atomics is Some {
                    IBV_EXP_QP_INIT_ATTR_PD | IBV_EXP_QP_INIT_ATTR_ATOMICS_ARG
                } else {
                    IBV_EXP_QP_INIT_ATTR_PD
                },
                ..self.spec_init_attr()
            }),
            r.max_atomic_arg == self.extended_atomics,
    {
        let plain = self.to_init_attr();
        match self.extended_atomics {
            Some(n) => {
                let base = RawQpInitAttr {
                    pd: pd.as_raw(),
                    comp_mask: IBV_EXP_QP_INIT_ATTR_PD | IBV_EXP_QP_INIT_ATTR_ATOMICS_ARG,
                    ..plain
                };
                RawExpQpInitAttr { base, max_atomic_arg: Some(n) }
            },
            None => {
                let base = RawQpInitAttr { pd: pd.as_raw(), comp_mask: IBV_EXP_QP_INIT_ATTR_PD, ..plain };
                RawExpQpInitAttr { base, max_atomic_arg: None }
            },
        }
    }

    /// The `ibv_qp_init_attr` of these attributes.
    pub open spec fn spec_init_attr(self) -> RawQpInitAttr {
        RawQpInitAttr {
            send_cq: self.send_cq.handle,
            recv_cq: self.recv_cq.handle,
            cap: self.caps,
            qp_type: spec_qp_type_code(self.qp_type),
            sq_sig_all: if self.sq_sig_all {
                1
            } else {
                0
            },
            pd: 0,
            comp_mask: 0,
        }
    }
}

/// Global initial packet sequence number.
pub const GLOBAL_INIT_PSN: Psn = 0;

/// Global QKey.
pub const GLOBAL_QKEY: QKey = 0x114514;

/// UD header size.
pub const GRH_SIZE: usize = 40;

/// The address vector part of a QP modification (`ibv_ah_attr`).
#[derive(Clone, Copy, Debug, PartialEq, Eq)]
pub struct AhAttr {
    /// Destination GID.
    pub dgid: Gid,
    /// Flow label.
    pub flow_label: u32,
    /// Source GID index.
    pub sgid_index: u8,
    /// Hop limit.
    pub hop_limit: u8,
    /// Traffic class.
    pub traffic_class: u8,
    /// Destination LID.
    pub dlid: u16,
    /// Service level.
    pub sl: u8,
    /// Source path bits.
    pub src_path_bits: u8,
    /// Port number.
    pub port_num: u8,
    /// Whether the global route header is present (0 or 1).
    pub is_global: u8,
}

/// The fields of an `ibv_qp_attr` that the library sets when it modifies a
/// queue pair; the others are zero.
#[derive(Clone, Copy, Debug, PartialEq, Eq)]
pub struct QpAttr {
    /// Target state (`ibv_qp_state`).
    pub qp_state: u32,
    /// P_Key index.
    pub pkey_index: u16,
    /// Port number.
    pub port_num: u8,
    /// Access flags (`ibv_access_flags`).
    pub qp_access_flags: u32,
    /// Q_Key.
    pub qkey: u32,
    /// Path MTU (`ibv_mtu`).
    pub path_mtu: u32,
    /// Destination QP number.
    pub dest_qp_num: u32,
    /// Receive queue PSN.
    pub rq_psn: u32,
    /// Maximum outstanding RDMA reads and atomics as a responder.
    pub max_dest_rd_atomic: u8,
    /// Minimum RNR NAK timer.
    pub min_rnr_timer: u8,
    /// Address vector.
    pub ah_attr: AhAttr,
    /// Send queue PSN.
    pub sq_psn: u32,
    /// Maximum outstanding RDMA reads and atomics as an initiator.
    pub max_rd_atomic: u8,
    /// Local ack timeout.
    pub timeout: u8,
    /// Retry count.
    pub retry_cnt: u8,
    /// RNR retry count.
    pub rnr_retry: u8,
}

/// One modification of a queue pair: the attributes and the mask of the
/// attributes that are set (`ibv_qp_attr_mask`).
#[derive(Clone, Copy, Debug, PartialEq, Eq)]
pub struct QpModify {
    /// The attributes.
    pub attr: QpAttr,
    /// The attribute mask.
    pub mask: u32,
}

/// The address vector of the address handle that reaches the endpoint `ep`
/// from the local GID at `sgid_index`: global routing to the endpoint's
/// GID, LID and port, with a hop limit of 0xFF.
pub open spec fn spec_peer_ah_attr(sgid_index: GidIndex, ep: QpEndpoint) -> AhAttr {
    AhAttr {
        dgid: ep.gid,
        flow_label: 0,
        sgid_index,
        hop_limit: 0xFF,
        traffic_class: 0,
        dlid: ep.lid,
        sl: 0,
        src_path_bits: 0,
        port_num: ep.port_num,
        is_global: 1,
    }
}

/// The address vector that a peer's address handle is created with (see
/// [`spec_peer_ah_attr`]).
pub fn peer_ah_attr(sgid_index: GidIndex, ep: &QpEndpoint) -> (a: AhAttr)
    ensures
        a == spec_peer_ah_attr(sgid_index, *ep),
{
    AhAttr {
        dgid: ep.gid,
        flow_label: 0,
        sgid_index,
        hop_limit: 0xFF,
        traffic_class: 0,
        dlid: ep.lid,
        sl: 0,
        src_path_bits: 0,
        port_num: ep.port_num,
        is_global: 1,
    }
}

/// An all-zero address vector.
pub open spec fn spec_zero_ah() -> AhAttr {
    AhAttr {
        dgid: Gid([0u8, 0u8, 0u8, 0u8, 0u8, 0u8, 0u8, 0u8, 0u8, 0u8, 0u8, 0u8, 0u8, 0u8, 0u8, 0u8]),
        flow_label: 0,
        sgid_index: 0,
        hop_limit: 0,
        traffic_class: 0,
        dlid: 0,
        sl: 0,
        src_path_bits: 0,
        port_num: 0,
        is_global: 0,
    }
}

/// All-zero QP attributes.
pub open spec fn spec_zero_attr() -> QpAttr {
    QpAttr {
        qp_state: 0,
        pkey_index: 0,
        port_num: 0,
        qp_access_flags: 0,
        qkey: 0,
        path_mtu: 0,
        dest_qp_num: 0,
        rq_psn: 0,
        max_dest_rd_atomic: 0,
        min_rnr_timer: 0,
        ah_attr: spec_zero_ah(),
        sq_psn: 0,
        max_rd_atomic: 0,
        timeout: 0,
        retry_cnt: 0,
        rnr_retry: 0,
    }
}

fn zero_attr() -> (a: QpAttr)
    ensures
        a == spec_zero_attr(),
{
    QpAttr {
        qp_state: 0,
        pkey_index: 0,
        port_num: 0,
        qp_access_flags: 0,
        qkey: 0,
        path_mtu: 0,
        dest_qp_num: 0,
        rq_psn: 0,
        max_dest_rd_atomic: 0,
        min_rnr_timer: 0,
        ah_attr: AhAttr {
            dgid: Gid([0u8, 0u8, 0u8, 0u8, 0u8, 0u8, 0u8, 0u8, 0u8, 0u8, 0u8, 0u8, 0u8, 0u8, 0u8, 0u8]),
            flow_label: 0,
            sgid_index: 0,
            hop_limit: 0,
            traffic_class: 0,
            dlid: 0,
            sl: 0,
            src_path_bits: 0,
            port_num: 0,
            is_global: 0,
        },
        sq_psn: 0,
        max_rd_atomic: 0,
        timeout: 0,
        retry_cnt: 0,
        rnr_retry: 0,
    }
}

/// The modification to RESET.
pub open spec fn spec_modify_to_reset() -> QpModify {
    QpModify { attr: QpAttr { qp_state: IBV_QPS_RESET, ..spec_zero_attr() }, mask: IBV_QP_STATE }
}

/// The modification from RESET to INIT of a QP of type `t` bound to port
/// `port_num`: RC queue pairs allow remote read, write and atomics; the
/// others get the global Q_Key.
pub open spec fn spec_modify_reset_to_init(t: QpType, port_num: u8) -> QpModify {
    let base = QpAttr { qp_state: IBV_QPS_INIT, pkey_index: 0, port_num, ..spec_zero_attr() };
    let mask = IBV_QP_STATE | IBV_QP_PKEY_INDEX | IBV_QP_PORT;
    if t == QpType::Rc {
        QpModify {
            attr: QpAttr {
                qp_access_flags: IBV_ACCESS_REMOTE_WRITE | IBV_ACCESS_REMOTE_READ
                    | IBV_ACCESS_REMOTE_ATOMIC,
                ..base
            },
            mask: mask | IBV_QP_ACCESS_FLAGS,
        }
    } else {
        QpModify { attr: QpAttr { qkey: GLOBAL_QKEY, ..base }, mask: mask | IBV_QP_QKEY }
    }
}

/// The modification from INIT to RTR of a QP of type `t`: RC queue pairs
/// set the path to the peer's endpoint through the local port and GID.
pub open spec fn spec_modify_init_to_rtr(
    t: QpType,
    port_num: u8,
    mtu_code: u32,
    gid_idx: u8,
    ep: QpEndpoint,
) -> QpModify {
    if t == QpType::Rc {
        QpModify {
            attr: QpAttr {
                qp_state: IBV_QPS_RTR,
                path_mtu: mtu_code,
                dest_qp_num: ep.qpn,
                rq_psn: GLOBAL_INIT_PSN,
                max_dest_rd_atomic: 16,
                min_rnr_timer: 12,
                ah_attr: AhAttr {
                    dgid: ep.gid,
                    flow_label: 0,
                    sgid_index: gid_idx,
                    hop_limit: 0xFF,
                    traffic_class: 0,
                    dlid: ep.lid,
                    sl: 0,
                    src_path_bits: 0,
                    port_num,
                    is_global: 1,
                },
                ..spec_zero_attr()
            },
            mask: IBV_QP_STATE | IBV_QP_AV | IBV_QP_PATH_MTU | IBV_QP_DEST_QPN | IBV_QP_RQ_PSN
                | IBV_QP_MAX_DEST_RD_ATOMIC | IBV_QP_MIN_RNR_TIMER,
        }
    } else {
        spec_modify_to_rtr()
    }
}

/// The modification to RTR that sets the state alone.
pub open spec fn spec_modify_to_rtr() -> QpModify {
    QpModify { attr: QpAttr { qp_state: IBV_QPS_RTR, ..spec_zero_attr() }, mask: IBV_QP_STATE }
}

/// The modification from RTR to RTS of a QP of type `t`: RC queue pairs set
/// their timeouts and retry counts.
pub open spec fn spec_modify_rtr_to_rts(t: QpType) -> QpModify {
    let base = QpAttr { qp_state: IBV_QPS_RTS, sq_psn: GLOBAL_INIT_PSN, ..spec_zero_attr() };
    let mask = IBV_QP_STATE | IBV_QP_SQ_PSN;
    if t == QpType::Rc {
        QpModify {
            attr: QpAttr { max_rd_atomic: 16, timeout: 14, retry_cnt: 6, rnr_retry: 6, ..base },
            mask: mask | IBV_QP_MAX_QP_RD_ATOMIC | IBV_QP_TIMEOUT | IBV_QP_RETRY_CNT
                | IBV_QP_RNR_RETRY,
        }
    } else {
        QpModify { attr: base, mask }
    }
}

fn modify_to_reset() -> (m: QpModify)
    ensures
        m == spec_modify_to_reset(),
{
    QpModify { attr: QpAttr { qp_state: IBV_QPS_RESET, ..zero_attr() }, mask: IBV_QP_STATE }
}

fn modify_reset_to_init(t: QpType, port_num: u8) -> (m: QpModify)
    ensures
        m == spec_modify_reset_to_init(t, port_num),
{
    let base = QpAttr { qp_state: IBV_QPS_INIT, pkey_index: 0, port_num, ..zero_attr() };
    let mask = IBV_QP_STATE | IBV_QP_PKEY_INDEX | IBV_QP_PORT;
    if t == QpType::Rc {
        QpModify {
            attr: QpAttr {
                qp_access_flags: IBV_ACCESS_REMOTE_WRITE | IBV_ACCESS_REMOTE_READ
                    | IBV_ACCESS_REMOTE_ATOMIC,
                ..base
            },
            mask: mask | IBV_QP_ACCESS_FLAGS,
        }
    } else {
        QpModify { attr: QpAttr { qkey: GLOBAL_QKEY, ..base }, mask: mask | IBV_QP_QKEY }
    }
}

fn modify_init_to_rtr(t: QpType, port_num: u8, mtu_code: u32, gid_idx: u8, ep: &QpEndpoint) -> (m:
    QpModify)
    ensures
        m == spec_modify_init_to_rtr(t, port_num, mtu_code, gid_idx, *ep),
        t == QpType::Rc ==> m.attr.qp_state == IBV_QPS_RTR && m.attr.ah_attr.dlid == ep.lid
            && m.attr.ah_attr.dgid == ep.gid && m.attr.dest_qp_num == ep.qpn
            && m.attr.ah_attr.port_num == port_num && m.attr.ah_attr.sgid_index == gid_idx
            && m.attr.path_mtu == mtu_code,
{
    if t == QpType::Rc {
        QpModify {
            attr: QpAttr {
                qp_state: IBV_QPS_RTR,
                path_mtu: mtu_code,
                dest_qp_num: ep.qpn,
                rq_psn: GLOBAL_INIT_PSN,
                max_dest_rd_atomic: 16,
                min_rnr_timer: 12,
                ah_attr: AhAttr {
                    dgid: ep.gid,
                    flow_label: 0,
                    sgid_index: gid_idx,
                    hop_limit: 0xFF,
                    traffic_class: 0,
                    dlid: ep.lid,
                    sl: 0,
                    src_path_bits: 0,
                    port_num,
                    is_global: 1,
                },
                ..zero_attr()
            },
            mask: IBV_QP_STATE | IBV_QP_AV | IBV_QP_PATH_MTU | IBV_QP_DEST_QPN | IBV_QP_RQ_PSN
                | IBV_QP_MAX_DEST_RD_ATOMIC | IBV_QP_MIN_RNR_TIMER,
        }
    } else {
        QpModify { attr: QpAttr { qp_state: IBV_QPS_RTR, ..zero_attr() }, mask: IBV_QP_STATE }
    }
}

fn modify_to_rtr() -> (m: QpModify)
    ensures
        m == spec_modify_to_rtr(),
{
    QpModify { attr: QpAttr { qp_state: IBV_QPS_RTR, ..zero_attr() }, mask: IBV_QP_STATE }
}

fn modify_rtr_to_rts(t: QpType) -> (m: QpModify)
    ensures
        m == spec_modify_rtr_to_rts(t),
{
    let base = QpAttr { qp_state: IBV_QPS_RTS, sq_psn: GLOBAL_INIT_PSN, ..zero_attr() };
    let mask = IBV_QP_STATE | IBV_QP_SQ_PSN;
    if t == QpType::Rc {
        QpModify {
            attr: QpAttr { max_rd_atomic: 16, timeout: 14, retry_cnt: 6, rnr_retry: 6, ..base },
            mask: mask | IBV_QP_MAX_QP_RD_ATOMIC | IBV_QP_TIMEOUT | IBV_QP_RETRY_CNT
                | IBV_QP_RNR_RETRY,
        }
    } else {
        QpModify { attr: base, mask }
    }
}

/// The modification from RESET to INIT toward the endpoint `ep`, in the
/// bring-up whose port and Q_Key come from the endpoint: RC queue pairs
/// allow remote read, write and atomics; the others take the endpoint's
/// Q_Key.
pub open spec fn spec_modify_reset_to_init_toward(t: QpType, ep: QpEndpoint) -> QpModify {
    let base = QpAttr { qp_state: IBV_QPS_INIT, pkey_index: 0, port_num: ep.port_num, ..spec_zero_attr() };
    let mask = IBV_QP_STATE | IBV_QP_PKEY_INDEX | IBV_QP_PORT;
    if t == QpType::Rc {
        QpModify {
            attr: QpAttr {
                qp_access_flags: IBV_ACCESS_REMOTE_WRITE | IBV_ACCESS_REMOTE_READ
                    | IBV_ACCESS_REMOTE_ATOMIC,
                ..base
            },
            mask: mask | IBV_QP_ACCESS_FLAGS,
        }
    } else {
        QpModify { attr: QpAttr { qkey: ep.qkey, ..base }, mask: mask | IBV_QP_QKEY }
    }
}

/// The modification from INIT to RTR toward the endpoint `ep`, in the
/// bring-up whose receive PSN comes from the endpoint: RC queue pairs set
/// the path to the endpoint through local port `port_num` (of MTU code
/// `mtu_code`) and GID index `gid_idx`; the others set the state alone.
pub open spec fn spec_modify_init_to_rtr_toward(
    t: QpType,
    ep: QpEndpoint,
    port_num: u8,
    mtu_code: u32,
    gid_idx: u8,
) -> QpModify {
    if t == QpType::Rc {
        let m = spec_modify_init_to_rtr(t, port_num, mtu_code, gid_idx, ep);
        QpModify { attr: QpAttr { rq_psn: ep.psn, ..m.attr }, mask: m.mask }
    } else {
        spec_modify_to_rtr()
    }
}

/// The modification from RTR to RTS toward the endpoint `ep`, in the
/// bring-up whose send PSN comes from the endpoint.
pub open spec fn spec_modify_rtr_to_rts_toward(t: QpType, ep: QpEndpoint) -> QpModify {
    let m = spec_modify_rtr_to_rts(t);
    QpModify { attr: QpAttr { sq_psn: ep.psn, ..m.attr }, mask: m.mask }
}

/// The modifications that connecting a queue pair of type `t` in state
/// `state` to the endpoint `ep` applies, in order: from RESET through INIT
/// and RTR to RTS, starting from the state it is in; none from RTS or any
/// other state.
pub open spec fn spec_connect_modifications(
    t: QpType,
    state: QpState,
    ep: QpEndpoint,
    port_num: u8,
    mtu_code: u32,
    gid_idx: u8,
) -> Seq<QpModify> {
    let r2i = spec_modify_reset_to_init_toward(t, ep);
    let i2r = spec_modify_init_to_rtr_toward(t, ep, port_num, mtu_code, gid_idx);
    let r2s = spec_modify_rtr_to_rts_toward(t, ep);
    match state {
        QpState::Reset => seq![r2i, i2r, r2s],
        QpState::Init => seq![i2r, r2s],
        QpState::Rtr => seq![r2s],
        _ => Seq::empty(),
    }
}

/// Law: connecting a queue pair that is in RESET, INIT or RTR takes it to
/// RTS, one state at a time from the one after its own; connecting one in
/// any other state changes nothing.
pub proof fn lemma_connect_reaches_rts(
    t: QpType,
    state: QpState,
    ep: QpEndpoint,
    port_num: u8,
    mtu_code: u32,
    gid_idx: u8,
)
    ensures
        ({
            let mods = spec_connect_modifications(t, state, ep, port_num, mtu_code, gid_idx);
            &&& (state == QpState::Reset || state == QpState::Init || state == QpState::Rtr) ==> {
                &&& mods.len() == 3 - crate::qp::spec_qp_state_code(state)
                &&& mods.last().attr.qp_state == IBV_QPS_RTS
                &&& forall|i: int|
                    0 <= i < mods.len() ==> #[trigger] mods[i].attr.qp_state
                        == crate::qp::spec_qp_state_code(state) + 1 + i
            }
            &&& !(state == QpState::Reset || state == QpState::Init || state == QpState::Rtr)
                ==> mods.len() == 0
        }),
{
}

/// The modifications that connect a queue pair of type `t` in state `state`
/// to the endpoint `ep` (see [`spec_connect_modifications`]), the local
/// port being `port_num` with MTU code `mtu_code` and GID index `gid_idx`.
pub fn connect_modifications(
    t: QpType,
    state: QpState,
    ep: &QpEndpoint,
    port_num: u8,
    mtu_code: u32,
    gid_idx: u8,
) -> (mods: Vec<QpModify>)
    ensures
        mods@ == spec_connect_modifications(t, state, *ep, port_num, mtu_code, gid_idx),
{
    let r2i = {
        let m = modify_reset_to_init(t, ep.port_num);
        if t == QpType::Rc {
            m
        } else {
            QpModify { attr: QpAttr { qkey: ep.qkey, ..m.attr }, mask: m.mask }
        }
    };
    let i2r = if t == QpType::Rc {
        let m = modify_init_to_rtr(t, port_num, mtu_code, gid_idx, ep);
        QpModify { attr: QpAttr { rq_psn: ep.psn, ..m.attr }, mask: m.mask }
    } else {
        modify_to_rtr()
    };
    let r2s = {
        let m = modify_rtr_to_rts(t);
        QpModify { attr: QpAttr { sq_psn: ep.psn, ..m.attr }, mask: m.mask }
    };
    let mut mods: Vec<QpModify> = Vec::new();
    match state {
        QpState::Reset => {
            mods.push(r2i);
            mods.push(i2r);
            mods.push(r2s);
        },
        QpState::Init => {
            mods.push(i2r);
            mods.push(r2s);
        },
        QpState::Rtr => {
            mods.push(r2s);
        },
        _ => {},
    }
    assert(mods@ =~= spec_connect_modifications(t, state, *ep, port_num, mtu_code, gid_idx));
    mods
}

/// The error of binding a queue pair to a port that is not active.
#[derive(Clone, Copy, Debug, PartialEq, Eq, Structural)]
pub struct PortNotActive;

/// The work request that a send-type verb posts, with its scatter/gather
/// list.
pub struct PostSend {
    /// The fields of the `ibv_send_wr`.
    pub wr: RawSendWr,
    /// The scatter/gather list that the request points to.
    pub sgl: Vec<Sge>,
}

/// The work request that a receive verb posts, with its scatter/gather
/// list.
pub struct PostRecv {
    /// The fields of the `ibv_recv_wr`.
    pub wr: RawRecvWr,
    /// The scatter/gather list that the request points to.
    pub sgl: Vec<Sge>,
}

/// Why an atomic verb refuses its buffers.
#[derive(Clone, Copy, Debug, PartialEq, Eq, Structural)]
pub enum AtomicArgError {
    /// The local and remote buffers must both be as long as the argument
    /// (8 bytes for the plain atomic verbs); they are of these lengths.
    Size(usize, usize),
    /// The local and remote buffers must both be aligned to the argument
    /// size; they start at these addresses.
    Alignment(u64, u64),
}

/// The operands of an extended (masked) atomic verb, each as many bytes as
/// the argument.
#[derive(Clone, Debug)]
pub enum ExtAtomicOp {
    /// Masked compare-and-swap: where the remote field equals `compare` in
    /// the bits of `compare_mask`, its bits under `swap_mask` take those of
    /// `swap`.
    CompareSwap { compare: Vec<u8>, swap: Vec<u8>, compare_mask: Vec<u8>, swap_mask: Vec<u8> },
    /// Masked fetch-and-add: `add` is added to the remote field, carries
    /// stopping at the field ends that the set bits of `field_boundary` mark.
    FetchAdd { add: Vec<u8>, field_boundary: Vec<u8> },
}

/// The experimental send work request that an extended atomic verb posts
/// (an `ibv_exp_send_wr` with a masked atomic opcode), with its
/// scatter/gather list: the old value of the remote field lands in the
/// local slice.
pub struct PostExtAtomic {
    /// Work request ID.
    pub wr_id: u64,
    /// Whether a completion is generated.
    pub signaled: bool,
    /// The base-2 logarithm of the argument size.
    pub log_arg_sz: u32,
    /// Remote address of the field.
    pub remote_addr: u64,
    /// Remote key.
    pub rkey: u32,
    /// The operation and its operands.
    pub op: ExtAtomicOp,
    /// The scatter/gather list that the request points to.
    pub sgl: Vec<Sge>,
}

/// The base-2 logarithm of an extended atomic argument size (8, 16 or 32).
pub open spec fn spec_log_arg_size(n: u32) -> u32 {
    if n == 8 {
        3
    } else if n == 16 {
        4
    } else {
        5
    }
}

/// The check that an extended atomic verb with arguments of `n` bytes makes
/// of its buffers: both `n` bytes long, then both `n`-byte aligned.
pub open spec fn spec_ext_atomic_check(n: u32, local_len: int, local_addr: u64, remote: MrRemote) -> Result<
    (),
    AtomicArgError,
> {
    if local_len != n || remote.len != n {
        Err(AtomicArgError::Size(local_len as usize, remote.len))
    } else if local_addr % (n as u64) != 0 || remote.addr % (n as u64) != 0 {
        Err(AtomicArgError::Alignment(local_addr, remote.addr))
    } else {
        Ok(())
    }
}

/// Whether `op` is the masked compare-and-swap with these operands.
pub open spec fn spec_ext_compare_swap_op(
    op: ExtAtomicOp,
    compare: Seq<u8>,
    swap: Seq<u8>,
    compare_mask: Seq<u8>,
    swap_mask: Seq<u8>,
) -> bool {
    match op {
        ExtAtomicOp::CompareSwap { compare: c, swap: w, compare_mask: cm, swap_mask: wm } => c@
            == compare && w@ == swap && cm@ == compare_mask && wm@ == swap_mask,
        ExtAtomicOp::FetchAdd { .. } => false,
    }
}

/// Whether `op` is the masked fetch-and-add with these operands.
pub open spec fn spec_ext_fetch_add_op(op: ExtAtomicOp, add: Seq<u8>, field_boundary: Seq<u8>) -> bool {
    match op {
        ExtAtomicOp::FetchAdd { add: a, field_boundary: b } => a@ == add && b@ == field_boundary,
        ExtAtomicOp::CompareSwap { .. } => false,
    }
}

/// Whether a posted extended atomic request is the one asked for: the
/// fields other than the operation.
pub open spec fn spec_ext_atomic_post(
    p: PostExtAtomic,
    n: u32,
    local: MrSlice,
    remote: MrRemote,
    wr_id: WrId,
    signal: bool,
) -> bool {
    &&& p.wr_id == wr_id
    &&& p.signaled == signal
    &&& p.log_arg_sz == spec_log_arg_size(n)
    &&& p.remote_addr == remote.addr
    &&& p.rkey == remote.rkey
    &&& p.sgl@ == seq![spec_sge(local)]
}

/// The check that an atomic verb makes of its buffers: both 8 bytes long,
/// then both 8-byte aligned.
pub open spec fn spec_atomic_check(local_len: int, local_addr: u64, remote: MrRemote) -> Result<
    (),
    AtomicArgError,
> {
    if local_len != 8 || remote.len != 8 {
        Err(AtomicArgError::Size(local_len as usize, remote.len))
    } else if local_addr % 8 != 0 || remote.addr % 8 != 0 {
        Err(AtomicArgError::Alignment(local_addr, remote.addr))
    } else {
        Ok(())
    }
}

/// The send flags of a request: signaled and inline as asked.
pub open spec fn spec_send_flags(signal: bool, inline: bool) -> u32 {
    (if signal {
        IBV_SEND_SIGNALED
    } else {
        0
    }) | (if inline {
        IBV_SEND_INLINE
    } else {
        0
    })
}

/// Law: the send flags of a request carry the signaled bit exactly where
/// the request is signaled, the inline bit exactly where it is inlined, and
/// no other bit.
pub proof fn lemma_send_flags_bits(signal: bool, inline: bool)
    ensures
        (spec_send_flags(signal, inline) & IBV_SEND_SIGNALED != 0) == signal,
        (spec_send_flags(signal, inline) & IBV_SEND_INLINE != 0) == inline,
        spec_send_flags(signal, inline) & !(IBV_SEND_SIGNALED | IBV_SEND_INLINE) == 0,
{
    assert((2u32 | 8u32) & 2u32 != 0 && (2u32 | 8u32) & 8u32 != 0 && (2u32 | 8u32) & !(2u32 | 8u32)
        == 0) by (bit_vector);
    assert((2u32 | 0u32) & 2u32 != 0 && (2u32 | 0u32) & 8u32 == 0 && (2u32 | 0u32) & !(2u32 | 8u32)
        == 0) by (bit_vector);
    assert((0u32 | 8u32) & 2u32 == 0 && (0u32 | 8u32) & 8u32 != 0 && (0u32 | 8u32) & !(2u32 | 8u32)
        == 0) by (bit_vector);
    assert((0u32 | 0u32) & 2u32 == 0 && (0u32 | 0u32) & 8u32 == 0 && (0u32 | 0u32) & !(2u32 | 8u32)
        == 0) by (bit_vector);
}

fn send_flags(signal: bool, inline: bool) -> (r: u32)
    ensures
        r == spec_send_flags(signal, inline),
        (r & IBV_SEND_SIGNALED != 0) == signal,
        (r & IBV_SEND_INLINE != 0) == inline,
{
    proof {
        lemma_send_flags_bits(signal, inline);
    }
    let a: u32 = if signal {
        IBV_SEND_SIGNALED
    } else {
        0
    };
    let b: u32 = if inline {
        IBV_SEND_INLINE
    } else {
        0
    };
    a | b
}

/// The modifications that bring a queue pair of type `t` from RESET to RTS
/// once it is bound to port `port_num` (of MTU code `mtu_code`) with GID
/// index `gid_idx`, toward the endpoint `ep`.
pub open spec fn spec_bring_up(t: QpType, port_num: u8, mtu_code: u32, gid_idx: u8, ep: QpEndpoint) -> Seq<
    QpModify,
> {
    seq![
        spec_modify_reset_to_init(t, port_num),
        spec_modify_init_to_rtr(t, port_num, mtu_code, gid_idx, ep),
        spec_modify_rtr_to_rts(t),
    ]
}

/// Whether a modification brings an RC queue pair to RTR toward the
/// endpoint `ep`: the destination LID and GID are the endpoint's, the
/// destination QP is the endpoint's QP, and the path leaves through the
/// local port `port_num` with the GID index `gid_idx` and the MTU code
/// `mtu_code`.
pub open spec fn spec_rtr_addresses(m: QpModify, ep: QpEndpoint, port_num: u8, mtu_code: u32, gid_idx: u8) -> bool {
    &&& m.attr.qp_state == IBV_QPS_RTR
    &&& m.attr.ah_attr.dlid == ep.lid
    &&& m.attr.ah_attr.dgid == ep.gid
    &&& m.attr.ah_attr.is_global == 1
    &&& m.attr.dest_qp_num == ep.qpn
    &&& m.attr.ah_attr.port_num == port_num
    &&& m.attr.ah_attr.sgid_index == gid_idx
    &&& m.attr.path_mtu == mtu_code
}

/// Law: the RTR step of bringing an RC queue pair up toward an endpoint,
/// through `bind_peer` or through connecting from RESET or INIT, addresses
/// that endpoint (see [`spec_rtr_addresses`]); connecting also expects the
/// endpoint's PSN.
pub proof fn lemma_rc_rtr_addresses_peer(port_num: u8, mtu_code: u32, gid_idx: u8, ep: QpEndpoint)
    ensures
        spec_rtr_addresses(
            spec_bring_up(QpType::Rc, port_num, mtu_code, gid_idx, ep)[1],
            ep,
            port_num,
            mtu_code,
            gid_idx,
        ),
        spec_rtr_addresses(
            spec_connect_modifications(QpType::Rc, QpState::Reset, ep, port_num, mtu_code, gid_idx)[1],
            ep,
            port_num,
            mtu_code,
            gid_idx,
        ),
        spec_connect_modifications(QpType::Rc, QpState::Reset, ep, port_num, mtu_code, gid_idx)[1].attr.rq_psn
            == ep.psn,
        spec_rtr_addresses(
            spec_connect_modifications(QpType::Rc, QpState::Init, ep, port_num, mtu_code, gid_idx)[0],
            ep,
            port_num,
            mtu_code,
            gid_idx,
        ),
        spec_connect_modifications(QpType::Rc, QpState::Init, ep, port_num, mtu_code, gid_idx)[0].attr.rq_psn
            == ep.psn,
{
}

/// Law: bringing a queue pair up takes it through INIT, RTR and RTS in this
/// order, each modification setting the state.
pub proof fn lemma_bring_up_states(t: QpType, port_num: u8, mtu_code: u32, gid_idx: u8, ep: QpEndpoint)
    ensures
        spec_bring_up(t, port_num, mtu_code, gid_idx, ep).len() == 3,
        spec_bring_up(t, port_num, mtu_code, gid_idx, ep)[0].attr.qp_state == IBV_QPS_INIT,
        spec_bring_up(t, port_num, mtu_code, gid_idx, ep)[1].attr.qp_state == IBV_QPS_RTR,
        spec_bring_up(t, port_num, mtu_code, gid_idx, ep)[2].attr.qp_state == IBV_QPS_RTS,
        forall|i: int|
            0 <= i < 3 ==> #[trigger] spec_bring_up(t, port_num, mtu_code, gid_idx, ep)[i].mask
                & IBV_QP_STATE == IBV_QP_STATE,
        spec_modify_to_reset().attr.qp_state == IBV_QPS_RESET,
{
    let ups = spec_bring_up(t, port_num, mtu_code, gid_idx, ep);
    assert((1u32 | 16u32 | 32u32 | 8u32) & 1u32 == 1u32) by (bit_vector);
    assert((1u32 | 16u32 | 32u32 | 64u32) & 1u32 == 1u32) by (bit_vector);
    assert((1u32 | 128u32 | 256u32 | 1048576u32 | 4096u32 | 131072u32 | 32768u32) & 1u32 == 1u32)
        by (bit_vector);
    assert(1u32 & 1u32 == 1u32) by (bit_vector);
    assert((1u32 | 65536u32) & 1u32 == 1u32) by (bit_vector);
    assert((1u32 | 65536u32 | 8192u32 | 512u32 | 1024u32 | 2048u32) & 1u32 == 1u32)
        by (bit_vector);
    assert forall|i: int| 0 <= i < 3 implies #[trigger] ups[i].mask & IBV_QP_STATE
        == IBV_QP_STATE by {
        if i == 0 {
        } else if i == 1 {
        } else {
        }
    }
}

impl QpEndpoint {
    /// The endpoint of a queue pair (see [`Qp::endpoint`]): `None` if it is
    /// not yet bound to a local port. The GID index must lie within the
    /// port's GID table.
    pub fn of_qp(qp: &Qp) -> (r: Option<QpEndpoint>)
        requires
            qp.spec_port_bound() ==> qp.spec_gid_index() < qp.spec_port_gids().len(),
        ensures
            r is Some <==> qp.spec_port_bound(),
            r matches Some(ep) ==> ep == (QpEndpoint {
                gid: qp.spec_port_gids()[qp.spec_gid_index() as int].gid,
                port_num: qp.spec_port_num(),
                lid: qp.spec_port_attr().lid,
                qpn: qp.spec_qp_num(),
                psn: GLOBAL_INIT_PSN,
                qkey: GLOBAL_QKEY,
            }),
    {
        qp.endpoint()
    }
}

impl QpPeer {
    /// Make a send work request a UD send to this peer.
    pub fn set_ud_peer(&self, wr: &mut RawSendWr)
        ensures
            *final(wr) == (RawSendWr {
                wr: WrUnion::Ud(
                    UdTarget { ah: self.ah, remote_qpn: self.ep.qpn, remote_qkey: GLOBAL_QKEY },
                ),
                ..*old(wr)
            }),
    {
        wr.wr = WrUnion::Ud(self.ud());
    }
}

/// Queue pair: its `ibv_qp` handle, the protection domain and attributes it
/// was created with, its number, and the local port and remote peer it is
/// bound to.
pub struct Qp {
    handle: u64,
    pd: Pd,
    init_attr: QpInitAttr,
    qp_num: u32,
    local_port: Option<(Port, GidIndex)>,
    peer: Option<QpPeer>,
}

impl PartialEq for Qp {
    /// Two queue pairs are the same where their handles are.
    fn eq(&self, other: &Qp) -> (r: bool) {
        self.handle == other.handle
    }
}

impl Eq for Qp {
}

impl PartialEqSpecImpl for Qp {
    open spec fn obeys_eq_spec() -> bool {
        true
    }

    open spec fn eq_spec(&self, other: &Qp) -> bool {
        self.spec_handle() == other.spec_handle()
    }
}

impl Qp {
    /// The `ibv_qp` handle.
    pub closed spec fn spec_handle(&self) -> u64 {
        self.handle
    }

    /// The protection domain.
    pub closed spec fn spec_pd(&self) -> Pd {
        self.pd
    }

    /// The attributes the QP was created with.
    pub closed spec fn spec_init_attr(&self) -> QpInitAttr {
        self.init_attr
    }

    /// The QP number.
    pub closed spec fn spec_qp_num(&self) -> u32 {
        self.qp_num
    }

    /// Whether the QP is bound to a local port.
    pub closed spec fn spec_port_bound(&self) -> bool {
        self.local_port is Some
    }

    /// The number of the local port the QP is bound to.
    pub closed spec fn spec_port_num(&self) -> u8 {
        self.local_port.unwrap().0.spec_num()
    }

    /// The attributes of the local port the QP is bound to.
    pub closed spec fn spec_port_attr(&self) -> PortAttr {
        self.local_port.unwrap().0.spec_attr()
    }

    /// The GIDs of the local port the QP is bound to.
    pub closed spec fn spec_port_gids(&self) -> Seq<GidTyped> {
        self.local_port.unwrap().0.spec_gids()
    }

    /// The GID index the QP is bound to.
    pub closed spec fn spec_gid_index(&self) -> u8 {
        self.local_port.unwrap().1
    }

    /// The remote peer the QP is bound to.
    pub closed spec fn spec_peer(&self) -> Option<QpPeer> {
        self.peer
    }

    /// The type of the QP.
    pub open spec fn spec_qp_type(&self) -> QpType {
        self.spec_init_attr().qp_type
    }

    /// Check the attributes of a queue pair about to be created on a
    /// protection domain: the builder's attributes if the device supports
    /// its capabilities, the first capability it lacks otherwise. The
    /// builder's mandatory fields must be set.
    pub fn prepare(pd: &Pd, builder: QpBuilder) -> (r: Result<QpInitAttr, QpCreationError>)
        requires
            builder.spec_complete(),
        ensures
            match spec_check_caps(pd.spec_context().spec_attr(), builder.caps) {
                Ok(_) => r == Ok::<QpInitAttr, QpCreationError>(
                    QpInitAttr {
                        send_cq: *builder.send_cq.unwrap(),
                        recv_cq: *builder.recv_cq.unwrap(),
                        caps: builder.caps,
                        qp_type: builder.qp_type.unwrap(),
                        sq_sig_all: builder.sq_sig_all.unwrap(),
                        global_routing: builder.global_routing,
                        extended_atomics: builder.extended_atomics,
                    },
                ),
                Err(e) => r == Err::<QpInitAttr, QpCreationError>(e),
            },
    {
        let init_attr = builder.unwrap();
        match check_caps(pd.context(), &init_attr.caps) {
            Ok(()) => Ok(init_attr),
            Err(e) => Err(e),
        }
    }

    /// Record a queue pair that `ibv_create_qp` created with these
    /// attributes; it is bound to nothing yet.
    pub fn created(handle: u64, pd: &Pd, init_attr: QpInitAttr, qp_num: u32) -> (q: Qp)
        ensures
            q.spec_handle() == handle,
            q.spec_pd() == *pd,
            q.spec_init_attr() == init_attr,
            q.spec_qp_num() == qp_num,
            !q.spec_port_bound(),
            q.spec_peer() is None,
    {
        Qp { handle, pd: *pd, init_attr, qp_num, local_port: None, peer: None }
    }

    /// Create a new QP builder.
    pub fn builder<'a>() -> (b: QpBuilder<'a>)
        ensures
            b.send_cq is None,
            b.recv_cq is None,
            b.caps == QpCaps::spec_zeroed(),
            b.qp_type is None,
            b.sq_sig_all is None,
            b.global_routing,
            b.extended_atomics is None,
    {
        QpBuilder::new()
    }

    /// Get the underlying `ibv_qp` handle.
    pub fn as_raw(&self) -> (r: u64)
        ensures
            r == self.spec_handle(),
    {
        self.handle
    }

    /// Get the protection domain of the queue pair.
    pub fn pd(&self) -> (r: &Pd)
        ensures
            *r == self.spec_pd(),
    {
        &self.pd
    }

    /// Get the context of the queue pair.
    pub fn context(&self) -> (r: &Context)
        ensures
            *r == self.spec_pd().spec_context(),
    {
        self.pd.context()
    }

    /// Get the type of the queue pair.
    pub fn qp_type(&self) -> (r: QpType)
        ensures
            r == self.spec_qp_type(),
    {
        self.init_attr.qp_type
    }

    /// Get the queue pair number.
    pub fn qp_num(&self) -> (r: u32)
        ensures
            r == self.spec_qp_num(),
    {
        self.qp_num
    }

    /// Get the capabilities of this QP.
    pub fn caps(&self) -> (r: &QpCaps)
        ensures
            *r == self.spec_init_attr().caps,
    {
        &self.init_attr.caps
    }

    /// Get the associated send completion queue.
    pub fn scq(&self) -> (r: &Cq)
        ensures
            *r == self.spec_init_attr().send_cq,
    {
        &self.init_attr.send_cq
    }

    /// Get the associated receive completion queue.
    pub fn rcq(&self) -> (r: &Cq)
        ensures
            *r == self.spec_init_attr().recv_cq,
    {
        &self.init_attr.recv_cq
    }

    /// Get the local port and GID index that this QP is bound to.
    pub fn port(&self) -> (r: Option<&(Port, GidIndex)>)
        ensures
            r is Some <==> self.spec_port_bound(),
            r matches Some(p) ==> p.0.spec_num() == self.spec_port_num() && p.0.spec_attr()
                == self.spec_port_attr() && p.0.spec_gids() == self.spec_port_gids() && p.1
                == self.spec_gid_index(),
    {
        self.local_port.as_ref()
    }

    /// Get the remote peer that this QP is bound to.
    pub fn peer(&self) -> (r: Option<&QpPeer>)
        ensures
            r == match self.spec_peer() {
                Some(p) => Some(&p),
                None => None,
            },
    {
        self.peer.as_ref()
    }

    /// Get the endpoint information of this QP: its port's GID at the bound
    /// index, port number, LID, and QP number, with the global PSN and
    /// Q_Key. `None` if the QP is not yet bound to a local port. The GID
    /// index must lie within the port's GID table.
    pub fn endpoint(&self) -> (r: Option<QpEndpoint>)
        requires
            self.spec_port_bound() ==> self.spec_gid_index() < self.spec_port_gids().len(),
        ensures
            r is Some <==> self.spec_port_bound(),
            r matches Some(ep) ==> ep == (QpEndpoint {
                gid: self.spec_port_gids()[self.spec_gid_index() as int].gid,
                port_num: self.spec_port_num(),
                lid: self.spec_port_attr().lid,
                qpn: self.spec_qp_num(),
                psn: GLOBAL_INIT_PSN,
                qkey: GLOBAL_QKEY,
            }),
    {
        match &self.local_port {
            Some(pair) => {
                let gid = pair.0.gids()[pair.1 as usize].gid;
                Some(
                    QpEndpoint {
                        gid,
                        port_num: pair.0.num(),
                        lid: pair.0.lid(),
                        qpn: self.qp_num,
                        psn: GLOBAL_INIT_PSN,
                        qkey: GLOBAL_QKEY,
                    },
                )
            },
            None => None,
        }
    }

    /// Bind the queue pair to a local port, with the given GID index or
    /// else the port's recommended one. Refused where the port is not
    /// active. A datagram QP is then brought up to RTS: the result is the
    /// modifications to apply, in order (none for a connected QP).
    ///
    /// The QP must not be bound to a port yet, and where no index is given
    /// the port must have a GID to recommend.
    pub fn bind_local_port(&mut self, port: &Port, gid_index: Option<u8>) -> (r: Result<
        Vec<QpModify>,
        PortNotActive,
    >)
        requires
            !old(self).spec_port_bound(),
            IBV_PORT_DOWN <= port.spec_attr().state <= IBV_PORT_ACTIVE_DEFER,
            gid_index is None ==> port.spec_gids().len() > 0,
        ensures
            r is Err <==> port.spec_attr().state != crate::verbs::IBV_PORT_ACTIVE,
            r is Err ==> *final(self) == *old(self),
            r is Ok ==> {
                &&& final(self).spec_port_bound()
                &&& final(self).spec_port_num() == port.spec_num()
                &&& final(self).spec_port_attr() == port.spec_attr()
                &&& final(self).spec_port_gids() == port.spec_gids()
                &&& (gid_index matches Some(g) ==> final(self).spec_gid_index() == g)
                &&& (gid_index is None ==> exists|b: int|
                    #[trigger] spec_is_recommended(port.spec_gids(), b)
                        && final(self).spec_gid_index() == (b as u8))
                &&& final(self).spec_peer() == old(self).spec_peer()
                &&& final(self).spec_handle() == old(self).spec_handle()
                &&& final(self).spec_pd() == old(self).spec_pd()
                &&& final(self).spec_init_attr() == old(self).spec_init_attr()
                &&& final(self).spec_qp_num() == old(self).spec_qp_num()
            },
            r matches Ok(mods) ==> if spec_is_connected(old(self).spec_qp_type()) {
                mods@ == Seq::<QpModify>::empty()
            } else {
                mods@ == seq![
                    spec_modify_reset_to_init(old(self).spec_qp_type(), port.spec_num()),
                    spec_modify_to_rtr(),
                    spec_modify_rtr_to_rts(old(self).spec_qp_type()),
                ]
            },
    {
        if port.state() != PortState::Active {
            return Err(PortNotActive);
        }
        let gid_index = match gid_index {
            Some(g) => g,
            None => port.recommended_gid().1,
        };
        self.local_port = Some((port.clone(), gid_index));
        let t = self.init_attr.qp_type;
        let mut mods: Vec<QpModify> = Vec::new();
        if !t.is_connected() {
            mods.push(modify_reset_to_init(t, port.num()));
            mods.push(modify_to_rtr());
            mods.push(modify_rtr_to_rts(t));
        }
        Ok(mods)
    }

    /// Bind the queue pair to a remote peer, whose address handle was
    /// created with this QP's GID index. A connected QP is then brought up
    /// from RESET to RTS toward the peer: the result is the modifications to
    /// apply, in order (none for a datagram QP, for which the peer becomes
    /// the default target of sends).
    ///
    /// The QP must be bound to a local port, a connected QP must not be
    /// bound to a peer yet, and the port of an RC QP must report an MTU code
    /// that `libibverbs` defines.
    pub fn bind_peer(&mut self, peer: QpPeer) -> (mods: Vec<QpModify>)
        requires
            old(self).spec_port_bound(),
            !(spec_is_connected(old(self).spec_qp_type()) && old(self).spec_peer() is Some),
            old(self).spec_qp_type() == QpType::Rc ==> IBV_MTU_256 <= old(
                self,
            ).spec_port_attr().active_mtu <= IBV_MTU_4096,
        ensures
            final(self).spec_peer() == Some(peer),
            final(self).spec_port_bound(),
            final(self).spec_port_num() == old(self).spec_port_num(),
            final(self).spec_port_attr() == old(self).spec_port_attr(),
            final(self).spec_port_gids() == old(self).spec_port_gids(),
            final(self).spec_gid_index() == old(self).spec_gid_index(),
            final(self).spec_handle() == old(self).spec_handle(),
            final(self).spec_pd() == old(self).spec_pd(),
            final(self).spec_init_attr() == old(self).spec_init_attr(),
            final(self).spec_qp_num() == old(self).spec_qp_num(),
            mods@ == (if spec_is_connected(old(self).spec_qp_type()) {
                spec_bring_up(
                    old(self).spec_qp_type(),
                    old(self).spec_port_num(),
                    old(self).spec_port_attr().active_mtu,
                    old(self).spec_gid_index(),
                    peer.ep,
                )
            } else {
                Seq::<QpModify>::empty()
            }),
    {
        self.peer = Some(peer);
        let t = self.init_attr.qp_type;
        let mut mods: Vec<QpModify> = Vec::new();
        if t.is_connected() {
            match &self.local_port {
                Some(pair) => {
                    let port_num = pair.0.num();
                    let gid_idx = pair.1;
                    let mtu_code: u32 = if t == QpType::Rc {
                        pair.0.mtu().code()
                    } else {
                        pair.0.attr().active_mtu
                    };
                    mods.push(modify_reset_to_init(t, port_num));
                    mods.push(modify_init_to_rtr(t, port_num, mtu_code, gid_idx, &peer.ep));
                    mods.push(modify_rtr_to_rts(t));
                },
                None => {},
            }
        }
        assert(mods@ =~= (if spec_is_connected(t) {
            spec_bring_up(
                t,
                self.spec_port_num(),
                self.spec_port_attr().active_mtu,
                self.spec_gid_index(),
                peer.ep,
            )
        } else {
            Seq::<QpModify>::empty()
        }));
        mods
    }

    /// The modification that resets the queue pair.
    pub fn reset_modify(&self) -> (m: QpModify)
        ensures
            m == spec_modify_to_reset(),
    {
        modify_to_reset()
    }

    /// Clear the local port and remote peer bindings, once the queue pair
    /// was modified to RESET.
    pub fn reset(&mut self)
        ensures
            !final(self).spec_port_bound(),
            final(self).spec_peer() is None,
            final(self).spec_handle() == old(self).spec_handle(),
            final(self).spec_pd() == old(self).spec_pd(),
            final(self).spec_init_attr() == old(self).spec_init_attr(),
            final(self).spec_qp_num() == old(self).spec_qp_num(),
    {
        self.local_port = None;
        self.peer = None;
    }

    /// The source GID index that a peer reachable from this QP is created
    /// with. The QP must be bound to a local port.
    pub fn make_peer_gid_index(&self) -> (r: GidIndex)
        requires
            self.spec_port_bound(),
        ensures
            r == self.spec_gid_index(),
    {
        match &self.local_port {
            Some(pair) => pair.1,
            None => 0,
        }
    }

    /// The receive work request that `recv` posts.
    pub fn recv(&self, local: &[MrSlice], wr_id: u64) -> (p: PostRecv)
        ensures
            p.wr == (RawRecvWr { wr_id, num_sge: local@.len() as i32 }),
            p.sgl@.len() == local@.len(),
            forall|i: int| 0 <= i < local@.len() ==> #[trigger] p.sgl@[i] == spec_sge(local@[i]),
    {
        PostRecv { wr: RawRecvWr { wr_id, num_sge: local.len() as i32 }, sgl: build_sgl(local) }
    }

    /// The send work request that `send` posts: a send with the immediate
    /// value if one is given; to `peer`, or else to the peer the QP is bound
    /// to, if any (a UD send).
    pub fn send(
        &self,
        local: &[MrSlice],
        peer: Option<&QpPeer>,
        imm: Option<ImmData>,
        wr_id: WrId,
        signal: bool,
        inline: bool,
    ) -> (p: PostSend)
        ensures
            p.wr == (RawSendWr {
                wr_id,
                num_sge: local@.len() as i32,
                opcode: if imm is None {
                    IBV_WR_SEND
                } else {
                    IBV_WR_SEND_WITH_IMM
                },
                send_flags: spec_send_flags(signal, inline),
                imm_data: match imm {
                    Some(v) => v,
                    None => 0,
                },
                wr: match peer {
                    Some(q) => WrUnion::Ud(
                        UdTarget { ah: q.ah, remote_qpn: q.ep.qpn, remote_qkey: GLOBAL_QKEY },
                    ),
                    None => match self.spec_peer() {
                        Some(q) => WrUnion::Ud(
                            UdTarget { ah: q.ah, remote_qpn: q.ep.qpn, remote_qkey: GLOBAL_QKEY },
                        ),
                        None => WrUnion::Zeroed,
                    },
                },
            }),
            p.sgl@.len() == local@.len(),
            forall|i: int| 0 <= i < local@.len() ==> #[trigger] p.sgl@[i] == spec_sge(local@[i]),
    {
        let target = match peer {
            Some(q) => WrUnion::Ud(q.ud()),
            None => match &self.peer {
                Some(q) => WrUnion::Ud(q.ud()),
                None => WrUnion::Zeroed,
            },
        };
        let wr = RawSendWr {
            wr_id,
            num_sge: local.len() as i32,
            opcode: if imm.is_none() {
                IBV_WR_SEND
            } else {
                IBV_WR_SEND_WITH_IMM
            },
            send_flags: send_flags(signal, inline),
            imm_data: match imm {
                Some(v) => v,
                None => 0,
            },
            wr: target,
        };
        PostSend { wr, sgl: build_sgl(local) }
    }

    /// The send work request that `read` posts: an RDMA read of the remote
    /// memory into the local slices.
    pub fn read(&self, local: &[MrSlice], remote: &MrRemote, wr_id: WrId, signal: bool) -> (p:
        PostSend)
        ensures
            p.wr == (RawSendWr {
                wr_id,
                num_sge: local@.len() as i32,
                opcode: IBV_WR_RDMA_READ,
                send_flags: spec_send_flags(signal, false),
                imm_data: 0,
                wr: WrUnion::Rdma(RdmaTarget { remote_addr: remote.addr, rkey: remote.rkey }),
            }),
            p.sgl@.len() == local@.len(),
            forall|i: int| 0 <= i < local@.len() ==> #[trigger] p.sgl@[i] == spec_sge(local@[i]),
    {
        let wr = RawSendWr {
            wr_id,
            num_sge: local.len() as i32,
            opcode: IBV_WR_RDMA_READ,
            send_flags: send_flags(signal, false),
            imm_data: 0,
            wr: WrUnion::Rdma(remote.as_rdma_t()),
        };
        PostSend { wr, sgl: build_sgl(local) }
    }

    /// The send work request that `write` posts: an RDMA write of the local
    /// slices into the remote memory, with the immediate value if one is
    /// given.
    pub fn write(
        &self,
        local: &[MrSlice],
        remote: &MrRemote,
        wr_id: WrId,
        imm: Option<ImmData>,
        signal: bool,
    ) -> (p: PostSend)
        ensures
            p.wr == (RawSendWr {
                wr_id,
                num_sge: local@.len() as i32,
                opcode: if imm is None {
                    IBV_WR_RDMA_WRITE
                } else {
                    IBV_WR_RDMA_WRITE_WITH_IMM
                },
                send_flags: spec_send_flags(signal, false),
                imm_data: match imm {
                    Some(v) => v,
                    None => 0,
                },
                wr: WrUnion::Rdma(RdmaTarget { remote_addr: remote.addr, rkey: remote.rkey }),
            }),
            p.sgl@.len() == local@.len(),
            forall|i: int| 0 <= i < local@.len() ==> #[trigger] p.sgl@[i] == spec_sge(local@[i]),
    {
        let wr = RawSendWr {
            wr_id,
            num_sge: local.len() as i32,
            opcode: if imm.is_none() {
                IBV_WR_RDMA_WRITE
            } else {
                IBV_WR_RDMA_WRITE_WITH_IMM
            },
            send_flags: send_flags(signal, false),
            imm_data: match imm {
                Some(v) => v,
                None => 0,
            },
            wr: WrUnion::Rdma(remote.as_rdma_t()),
        };
        PostSend { wr, sgl: build_sgl(local) }
    }

    /// The check of an atomic verb's buffers (see [`spec_atomic_check`]).
    fn check_atomic_args(local: &MrSlice, remote: &MrRemote) -> (r: Result<(), AtomicArgError>)
        ensures
            r == spec_atomic_check(
                local.spec_len(),
                (local.spec_mr().spec_addr() + local.spec_offset()) as u64,
                *remote,
            ),
    {
        let sge = local.to_sge();
        let len = <MrSlice as crate::mr::Slicing>::len(local);
        if len != 8 || remote.len != 8 {
            return Err(AtomicArgError::Size(len, remote.len));
        }
        if sge.addr % 8 != 0 || remote.addr % 8 != 0 {
            return Err(AtomicArgError::Alignment(sge.addr, remote.addr));
        }
        Ok(())
    }

    /// The send work request that `compare_swap` posts: an atomic
    /// compare-and-swap of the 8-byte remote word, the old value landing in
    /// the 8-byte local slice. Refused unless both buffers are 8 bytes long
    /// and 8-byte aligned.
    pub fn compare_swap(
        &self,
        local: &MrSlice,
        remote: &MrRemote,
        current: u64,
        new: u64,
        wr_id: WrId,
        signal: bool,
    ) -> (r: Result<PostSend, AtomicArgError>)
        ensures
            ({
                let check = spec_atomic_check(
                    local.spec_len(),
                    (local.spec_mr().spec_addr() + local.spec_offset()) as u64,
                    *remote,
                );
                &&& r is Ok <==> check is Ok
                &&& check matches Err(e) ==> r matches Err(e2) && e2 == e
                &&& r matches Ok(p) ==> p.wr == (RawSendWr {
                    wr_id,
                    num_sge: 1,
                    opcode: IBV_WR_ATOMIC_CMP_AND_SWP,
                    send_flags: spec_send_flags(signal, false),
                    imm_data: 0,
                    wr: WrUnion::Atomic(
                        AtomicTarget {
                            remote_addr: remote.addr,
                            compare_add: current,
                            swap: new,
                            rkey: remote.rkey,
                        },
                    ),
                }) && p.sgl@ == seq![spec_sge(*local)]
            }),
    {
        match Self::check_atomic_args(local, remote) {
            Err(e) => Err(e),
            Ok(()) => {
                let mut sgl: Vec<Sge> = Vec::new();
                sgl.push(local.to_sge());
                let wr = RawSendWr {
                    wr_id,
                    num_sge: 1,
                    opcode: IBV_WR_ATOMIC_CMP_AND_SWP,
                    send_flags: send_flags(signal, false),
                    imm_data: 0,
                    wr: WrUnion::Atomic(
                        AtomicTarget {
                            remote_addr: remote.addr,
                            compare_add: current,
                            swap: new,
                            rkey: remote.rkey,
                        },
                    ),
                };
                assert(sgl@ =~= seq![spec_sge(*local)]);
                Ok(PostSend { wr, sgl })
            },
        }
    }

    /// The send work request that `fetch_add` posts: an atomic fetch-and-add
    /// on the 8-byte remote word, the old value landing in the 8-byte local
    /// slice. Refused unless both buffers are 8 bytes long and 8-byte
    /// aligned.
    pub fn fetch_add(
        &self,
        local: &MrSlice,
        remote: &MrRemote,
        add: u64,
        wr_id: WrId,
        signal: bool,
    ) -> (r: Result<PostSend, AtomicArgError>)
        ensures
            ({
                let check = spec_atomic_check(
                    local.spec_len(),
                    (local.spec_mr().spec_addr() + local.spec_offset()) as u64,
                    *remote,
                );
                &&& r is Ok <==> check is Ok
                &&& check matches Err(e) ==> r matches Err(e2) && e2 == e
                &&& r matches Ok(p) ==> p.wr == (RawSendWr {
                    wr_id,
                    num_sge: 1,
                    opcode: IBV_WR_ATOMIC_FETCH_AND_ADD,
                    send_flags: spec_send_flags(signal, false),
                    imm_data: 0,
                    wr: WrUnion::Atomic(
                        AtomicTarget {
                            remote_addr: remote.addr,
                            compare_add: add,
                            swap: 0,
                            rkey: remote.rkey,
                        },
                    ),
                }) && p.sgl@ == seq![spec_sge(*local)]
            }),
    {
        match Self::check_atomic_args(local, remote) {
            Err(e) => Err(e),
            Ok(()) => {
                let mut sgl: Vec<Sge> = Vec::new();
                sgl.push(local.to_sge());
                let wr = RawSendWr {
                    wr_id,
                    num_sge: 1,
                    opcode: IBV_WR_ATOMIC_FETCH_AND_ADD,
                    send_flags: send_flags(signal, false),
                    imm_data: 0,
                    wr: WrUnion::Atomic(
                        AtomicTarget {
                            remote_addr: remote.addr,
                            compare_add: add,
                            swap: 0,
                            rkey: remote.rkey,
                        },
                    ),
                };
                assert(sgl@ =~= seq![spec_sge(*local)]);
                Ok(PostSend { wr, sgl })
            },
        }
    }

    /// The argument size of this QP's extended atomics, which must be
    /// enabled, and the check of an extended atomic verb's buffers (see
    /// [`spec_ext_atomic_check`]).
    fn check_ext_atomic_args(n: u32, local: &MrSlice, remote: &MrRemote) -> (r: Result<
        (),
        AtomicArgError,
    >)
        requires
            spec_ext_atomic_size(n),
        ensures
            r == spec_ext_atomic_check(
                n,
                local.spec_len(),
                (local.spec_mr().spec_addr() + local.spec_offset()) as u64,
                *remote,
            ),
    {
        let sge = local.to_sge();
        let len = <MrSlice as crate::mr::Slicing>::len(local);
        if len != n as usize || remote.len != n as usize {
            return Err(AtomicArgError::Size(len, remote.len));
        }
        let n64 = n as u64;
        if sge.addr % n64 != 0 || remote.addr % n64 != 0 {
            return Err(AtomicArgError::Alignment(sge.addr, remote.addr));
        }
        Ok(())
    }

    /// The base-2 logarithm of an extended atomic argument size.
    fn log_arg_size(n: u32) -> (r: u32)
        requires
            spec_ext_atomic_size(n),
        ensures
            r == spec_log_arg_size(n),
    {
        if n == 8 {
            3
        } else if n == 16 {
            4
        } else {
            5
        }
    }

    /// The experimental send work request that `ext_compare_swap` posts: a
    /// masked compare-and-swap of the remote field, as long as this QP's
    /// extended atomic argument, the old value landing in the local slice.
    /// Extended atomics must be enabled on the QP and each operand must be
    /// as long as the argument; refused unless both buffers are as long as
    /// the argument and aligned to it.
    pub fn ext_compare_swap(
        &self,
        local: &MrSlice,
        remote: &MrRemote,
        compare: &[u8],
        swap: &[u8],
        compare_mask: &[u8],
        swap_mask: &[u8],
        wr_id: WrId,
        signal: bool,
    ) -> (r: Result<PostExtAtomic, AtomicArgError>)
        requires
            self.spec_init_attr().extended_atomics matches Some(n) && spec_ext_atomic_size(n)
                && compare@.len() == n && swap@.len() == n && compare_mask@.len() == n
                && swap_mask@.len() == n,
        ensures
            ({
                let n = self.spec_init_attr().extended_atomics->0;
                let check = spec_ext_atomic_check(
                    n,
                    local.spec_len(),
                    (local.spec_mr().spec_addr() + local.spec_offset()) as u64,
                    *remote,
                );
                &&& r is Ok <==> check is Ok
                &&& check matches Err(e) ==> r matches Err(e2) && e2 == e
                &&& r matches Ok(p) ==> spec_ext_atomic_post(p, n, *local, *remote, wr_id, signal)
                    && spec_ext_compare_swap_op(p.op, compare@, swap@, compare_mask@, swap_mask@)
            }),
    {
        let n = match self.init_attr.extended_atomics {
            Some(n) => n,
            None => 8,
        };
        match Self::check_ext_atomic_args(n, local, remote) {
            Err(e) => Err(e),
            Ok(()) => {
                let mut sgl: Vec<Sge> = Vec::new();
                sgl.push(local.to_sge());
                assert(sgl@ =~= seq![spec_sge(*local)]);
                let op = ExtAtomicOp::CompareSwap {
                    compare: vstd::slice::slice_to_vec(compare),
                    swap: vstd::slice::slice_to_vec(swap),
                    compare_mask: vstd::slice::slice_to_vec(compare_mask),
                    swap_mask: vstd::slice::slice_to_vec(swap_mask),
                };
                Ok(
                    PostExtAtomic {
                        wr_id,
                        signaled: signal,
                        log_arg_sz: Self::log_arg_size(n),
                        remote_addr: remote.addr,
                        rkey: remote.rkey,
                        op,
                        sgl,
                    },
                )
            },
        }
    }

    /// The experimental send work request that `ext_fetch_add` posts: a
    /// masked fetch-and-add on the remote field, as long as this QP's
    /// extended atomic argument, the old value landing in the local slice.
    /// Extended atomics must be enabled on the QP and each operand must be
    /// as long as the argument; refused unless both buffers are as long as
    /// the argument and aligned to it.
    pub fn ext_fetch_add(
        &self,
        local: &MrSlice,
        remote: &MrRemote,
        add: &[u8],
        field_boundary: &[u8],
        wr_id: WrId,
        signal: bool,
    ) -> (r: Result<PostExtAtomic, AtomicArgError>)
        requires
            self.spec_init_attr().extended_atomics matches Some(n) && spec_ext_atomic_size(n)
                && add@.len() == n && field_boundary@.len() == n,
        ensures
            ({
                let n = self.spec_init_attr().extended_atomics->0;
                let check = spec_ext_atomic_check(
                    n,
                    local.spec_len(),
                    (local.spec_mr().spec_addr() + local.spec_offset()) as u64,
                    *remote,
                );
                &&& r is Ok <==> check is Ok
                &&& check matches Err(e) ==> r matches Err(e2) && e2 == e
                &&& r matches Ok(p) ==> spec_ext_atomic_post(p, n, *local, *remote, wr_id, signal)
                    && spec_ext_fetch_add_op(p.op, add@, field_boundary@)
            }),
    {
        let n = match self.init_attr.extended_atomics {
            Some(n) => n,
            None => 8,
        };
        match Self::check_ext_atomic_args(n, local, remote) {
            Err(e) => Err(e),
            Ok(()) => {
                let mut sgl: Vec<Sge> = Vec::new();
                sgl.push(local.to_sge());
                assert(sgl@ =~= seq![spec_sge(*local)]);
                let op = ExtAtomicOp::FetchAdd {
                    add: vstd::slice::slice_to_vec(add),
                    field_boundary: vstd::slice::slice_to_vec(field_boundary),
                };
                Ok(
                    PostExtAtomic {
                        wr_id,
                        signaled: signal,
                        log_arg_sz: Self::log_arg_size(n),
                        remote_addr: remote.addr,
                        rkey: remote.rkey,
                        op,
                        sgl,
                    },
                )
            },
        }
    }

    /// Explain `ibv_post_recv` errors.
    pub fn recv_err_explanation(ret: i32) -> (r: Option<&'static str>)
        ensures
            r == (if ret == EINVAL {
                Some("invalid work request")
            } else if ret == ENOMEM {
                Some("recv queue is full, or not enough resources to complete this operation")
            } else if ret == EFAULT {
                Some("invalid QP")
            } else {
                None
            }),
    {
        if ret == EINVAL {
            Some("invalid work request")
        } else if ret == ENOMEM {
            Some("recv queue is full, or not enough resources to complete this operation")
        } else if ret == EFAULT {
            Some("invalid QP")
        } else {
            None
        }
    }

    /// Explain `ibv_post_send` errors.
    pub fn send_err_explanation(ret: i32) -> (r: Option<&'static str>)
        ensures
            r == (if ret == EINVAL {
                Some("invalid work request")
            } else if ret == ENOMEM {
                Some("send queue is full, or not enough resources to complete this operation")
            } else if ret == EFAULT {
                Some("invalid QP")
            } else {
                None
            }),
    {
        if ret == EINVAL {
            Some("invalid work request")
        } else if ret == ENOMEM {
            Some("send queue is full, or not enough resources to complete this operation")
        } else if ret == EFAULT {
            Some("invalid QP")
        } else {
            None
        }
    }
}

} // verus!
