//! Queue pair types, states, capabilities, endpoints and peers.
use vstd::prelude::*;

use vstd::std_specs::convert::FromSpecImpl;

use crate::gid::Gid;
use crate::queue_pair::GLOBAL_QKEY;
use crate::types::{Lid, PortNum, Psn, QKey, Qpn};
use crate::verbs::{
    IBV_QPS_ERR, IBV_QPS_INIT, IBV_QPS_RESET, IBV_QPS_RTR, IBV_QPS_RTS, IBV_QPS_SQD, IBV_QPS_SQE,
    IBV_QPS_UNKNOWN, IBV_EXP_QPT_DC_INI, IBV_QPT_DRIVER, IBV_QPT_XRC, IBV_QPT_RAW_PACKET, IBV_QPT_RC, IBV_QPT_UC, IBV_QPT_UD,
    IBV_QPT_XRC_RECV, IBV_QPT_XRC_SEND,
};

verus! {

/// Queue pair type.
#[derive(Clone, Copy, Debug, PartialEq, Eq, Structural)]
pub enum QpType {
    /// Reliable connection.
    Rc,
    /// Unreliable connection.
    Uc,
    /// Unreliable datagram.
    Ud,
    /// Extended reliable connection (deprecated; MLNX_OFED v4.x).
    Xrc,
    /// Raw packet (or Raw Ethernet).
    RawPacket,
    /// Extended reliable connection initiator.
    XrcIni,
    /// Extended reliable connection target.
    XrcTgt,
    /// Dynamically-connected QP initiator (MLNX_OFED v4.x).
    DcIni,
    /// Driver-specific QP type.
    Driver,
}

/// The `ibv_qp_type` code of a QP type.
pub open spec fn spec_qp_type_code(t: QpType) -> u32 {
    match t {
        QpType::Rc => IBV_QPT_RC,
        QpType::Uc => IBV_QPT_UC,
        QpType::Ud => IBV_QPT_UD,
        QpType::Xrc => IBV_QPT_XRC,
        QpType::RawPacket => IBV_QPT_RAW_PACKET,
        QpType::XrcIni => IBV_QPT_XRC_SEND,
        QpType::XrcTgt => IBV_QPT_XRC_RECV,
        QpType::DcIni => IBV_EXP_QPT_DC_INI,
        QpType::Driver => IBV_QPT_DRIVER,
    }
}

/// Whether `code` is an `ibv_qp_type` code that [`QpType`] covers.
pub open spec fn spec_qp_type_known(code: u32) -> bool {
    code == IBV_QPT_RC || code == IBV_QPT_UC || code == IBV_QPT_UD || code == IBV_QPT_XRC || code
        == IBV_QPT_RAW_PACKET || code == IBV_QPT_XRC_SEND || code == IBV_QPT_XRC_RECV || code
        == IBV_EXP_QPT_DC_INI || code == IBV_QPT_DRIVER
}

/// Whether the QP type is reliable.
pub open spec fn spec_is_reliable(t: QpType) -> bool {
    t == QpType::Rc || t == QpType::Xrc || t == QpType::XrcIni || t == QpType::XrcTgt
}

/// Whether the QP type is connected (not datagram).
pub open spec fn spec_is_connected(t: QpType) -> bool {
    !(t == QpType::Ud || t == QpType::RawPacket)
}

impl QpType {
    /// Determine whether the QP type is reliable.
    pub fn is_reliable(self) -> (r: bool)
        ensures
            r == spec_is_reliable(self),
    {
        match self {
            QpType::Rc | QpType::Xrc | QpType::XrcIni | QpType::XrcTgt => true,
            _ => false,
        }
    }

    /// Determine whether the QP type is connected, that is, not datagram.
    pub fn is_connected(self) -> (r: bool)
        ensures
            r == spec_is_connected(self),
    {
        match self {
            QpType::Ud | QpType::RawPacket => false,
            _ => true,
        }
    }

    /// Determine whether the QP type can be a transmission initiator.
    pub fn is_initiator(self) -> (r: bool)
        ensures
            r == (self != QpType::XrcTgt),
    {
        match self {
            QpType::XrcTgt => false,
            _ => true,
        }
    }

    /// Determine whether the QP type can be a transmission target.
    pub fn is_target(self) -> (r: bool)
        ensures
            r == (self != QpType::XrcIni && self != QpType::DcIni),
    {
        match self {
            QpType::XrcIni | QpType::DcIni => false,
            _ => true,
        }
    }

    /// The `ibv_qp_type` code of this QP type.
    pub fn code(self) -> (r: u32)
        ensures
            r == spec_qp_type_code(self),
    {
        match self {
            QpType::Rc => IBV_QPT_RC,
            QpType::Uc => IBV_QPT_UC,
            QpType::Ud => IBV_QPT_UD,
            QpType::Xrc => IBV_QPT_XRC,
            QpType::RawPacket => IBV_QPT_RAW_PACKET,
            QpType::XrcIni => IBV_QPT_XRC_SEND,
            QpType::XrcTgt => IBV_QPT_XRC_RECV,
            QpType::DcIni => IBV_EXP_QPT_DC_INI,
            QpType::Driver => IBV_QPT_DRIVER,
        }
    }

    /// The QP type of an `ibv_qp_type` code, which must be one of those
    /// that the library knows.
    pub fn from_code(code: u32) -> (t: QpType)
        requires
            spec_qp_type_known(code),
        ensures
            spec_qp_type_code(t) == code,
    {
        if code == IBV_QPT_RC {
            QpType::Rc
        } else if code == IBV_QPT_UC {
            QpType::Uc
        } else if code == IBV_QPT_UD {
            QpType::Ud
        } else if code == IBV_QPT_XRC {
            QpType::Xrc
        } else if code == IBV_QPT_RAW_PACKET {
            QpType::RawPacket
        } else if code == IBV_QPT_XRC_SEND {
            QpType::XrcIni
        } else if code == IBV_QPT_XRC_RECV {
            QpType::XrcTgt
        } else if code == IBV_EXP_QPT_DC_INI {
            QpType::DcIni
        } else {
            QpType::Driver
        }
    }
}

impl From<QpType> for u32 {
    fn from(t: QpType) -> (r: u32) {
        t.code()
    }
}

impl FromSpecImpl<QpType> for u32 {
    open spec fn obeys_from_spec() -> bool {
        true
    }

    open spec fn from_spec(t: QpType) -> u32 {
        spec_qp_type_code(t)
    }
}

/// Law: each QP type has a code that `from_code` accepts, and distinct types
/// have distinct codes, so decoding the code of a type gives the type back.
pub proof fn lemma_qp_type_code_roundtrip(t: QpType, u: QpType)
    ensures
        spec_qp_type_known(spec_qp_type_code(t)),
        spec_qp_type_code(t) == spec_qp_type_code(u) ==> t == u,
{
}

/// Law: every reliable QP type is connected.
pub proof fn lemma_reliable_is_connected(t: QpType)
    ensures
        spec_is_reliable(t) ==> spec_is_connected(t),
{
}

/// Queue pair state.
#[derive(Clone, Copy, Debug, PartialEq, Eq, Structural)]
pub enum QpState {
    /// Reset.
    Reset,
    /// Initialized.
    Init,
    /// Ready To Receive.
    Rtr,
    /// Ready To Send.
    Rts,
    /// Send Queue Drain.
    Sqd,
    /// Send Queue Error.
    Sqe,
    /// Error.
    Error,
    /// Unknown.
    Unknown,
}

/// The `ibv_qp_state` code of a QP state.
pub open spec fn spec_qp_state_code(s: QpState) -> u32 {
    match s {
        QpState::Reset => IBV_QPS_RESET,
        QpState::Init => IBV_QPS_INIT,
        QpState::Rtr => IBV_QPS_RTR,
        QpState::Rts => IBV_QPS_RTS,
        QpState::Sqd => IBV_QPS_SQD,
        QpState::Sqe => IBV_QPS_SQE,
        QpState::Error => IBV_QPS_ERR,
        QpState::Unknown => IBV_QPS_UNKNOWN,
    }
}

impl QpState {
    /// The QP state of an `ibv_qp_state` code, which must not be above
    /// `IBV_QPS_UNKNOWN`.
    pub fn from_code(code: u32) -> (s: QpState)
        requires
            code <= IBV_QPS_UNKNOWN,
        ensures
            spec_qp_state_code(s) == code,
    {
        if code == IBV_QPS_RESET {
            QpState::Reset
        } else if code == IBV_QPS_INIT {
            QpState::Init
        } else if code == IBV_QPS_RTR {
            QpState::Rtr
        } else if code == IBV_QPS_RTS {
            QpState::Rts
        } else if code == IBV_QPS_SQD {
            QpState::Sqd
        } else if code == IBV_QPS_SQE {
            QpState::Sqe
        } else if code == IBV_QPS_ERR {
            QpState::Error
        } else {
            QpState::Unknown
        }
    }

    /// The `ibv_qp_state` code of this state.
    pub fn code(self) -> (r: u32)
        ensures
            r == spec_qp_state_code(self),
    {
        match self {
            QpState::Reset => IBV_QPS_RESET,
            QpState::Init => IBV_QPS_INIT,
            QpState::Rtr => IBV_QPS_RTR,
            QpState::Rts => IBV_QPS_RTS,
            QpState::Sqd => IBV_QPS_SQD,
            QpState::Sqe => IBV_QPS_SQE,
            QpState::Error => IBV_QPS_ERR,
            QpState::Unknown => IBV_QPS_UNKNOWN,
        }
    }
}

/// Law: each QP state has a code that `from_code` accepts, and distinct
/// states have distinct codes, so decoding the code of a state gives the
/// state back.
pub proof fn lemma_qp_state_code_roundtrip(s: QpState, u: QpState)
    ensures
        spec_qp_state_code(s) <= IBV_QPS_UNKNOWN,
        spec_qp_state_code(s) == spec_qp_state_code(u) ==> s == u,
{
}

/// Queue pair capability attributes (`struct ibv_qp_cap`).
#[derive(Clone, Copy, Debug, PartialEq, Eq, Structural)]
pub struct QpCaps {
    /// The maximum number of outstanding work requests on the send queue.
    pub max_send_wr: u32,
    /// The maximum number of outstanding work requests on the receive queue.
    pub max_recv_wr: u32,
    /// The maximum number of scatter/gather elements in a send work request.
    pub max_send_sge: u32,
    /// The maximum number of scatter/gather elements in a receive work
    /// request.
    pub max_recv_sge: u32,
    /// The maximum message size (in bytes) that can be posted inline.
    pub max_inline_data: u32,
}

impl QpCaps {
    /// Make a set of capabilities from its five values.
    pub fn new(
        max_send_wr: u32,
        max_recv_wr: u32,
        max_send_sge: u32,
        max_recv_sge: u32,
        max_inline_data: u32,
    ) -> (c: QpCaps)
        ensures
            c == (QpCaps { max_send_wr, max_recv_wr, max_send_sge, max_recv_sge, max_inline_data }),
    {
        QpCaps { max_send_wr, max_recv_wr, max_send_sge, max_recv_sge, max_inline_data }
    }

    /// The capabilities for a DC initiator: 128 outstanding send work
    /// requests, 8 SGEs per send work request, 64B inline data, and no
    /// receive queue.
    pub fn for_dc_ini() -> (c: QpCaps)
        ensures
            c == (QpCaps {
                max_send_wr: 128,
                max_recv_wr: 0,
                max_send_sge: 8,
                max_recv_sge: 0,
                max_inline_data: 64,
            }),
    {
        QpCaps::new(128, 0, 8, 0, 64)
    }

    /// The capabilities that every QP is given where none is set: nothing
    /// can be sent or received.
    pub fn zeroed() -> (c: QpCaps)
        ensures
            c == (QpCaps {
                max_send_wr: 0,
                max_recv_wr: 0,
                max_send_sge: 0,
                max_recv_sge: 0,
                max_inline_data: 0,
            }),
    {
        QpCaps::new(0, 0, 0, 0, 0)
    }
}

impl Default for QpCaps {
    /// 128 outstanding send/recv work requests each, 16 SGEs per send/recv
    /// work request, and 64B inline data.
    fn default() -> (c: QpCaps)
        ensures
            c == (QpCaps {
                max_send_wr: 128,
                max_recv_wr: 128,
                max_send_sge: 16,
                max_recv_sge: 16,
                max_inline_data: 64,
            }),
    {
        QpCaps::new(128, 128, 16, 16, 64)
    }
}

/// Endpoint (NIC port and queue pair, or DCT) data.
#[derive(Clone, Copy, Debug, PartialEq, Eq)]
pub struct QpEndpoint {
    /// Endpoint GID.
    pub gid: Gid,
    /// Port index.
    pub port_num: PortNum,
    /// Port LID.
    pub lid: Lid,
    /// QP or DCT number.
    pub qpn: Qpn,
    /// Initial packet sequence number.
    pub psn: Psn,
    /// Q_Key.
    pub qkey: QKey,
}

impl QpEndpoint {
    /// Make an endpoint from its parts.
    pub fn new(gid: Gid, port_num: PortNum, lid: Lid, qpn: Qpn, psn: Psn, qkey: QKey) -> (ep:
        QpEndpoint)
        ensures
            ep == (QpEndpoint { gid, port_num, lid, qpn, psn, qkey }),
    {
        QpEndpoint { gid, port_num, lid, qpn, psn, qkey }
    }
}

/// The UD part of a send work request (`ud_t`).
#[derive(Clone, Copy, Debug, PartialEq, Eq, Structural)]
pub struct UdTarget {
    /// The address handle.
    pub ah: u64,
    /// The remote QP number.
    pub remote_qpn: u32,
    /// The remote Q_Key.
    pub remote_qkey: u32,
}

/// The DC part of an experimental send work request (`dc_t`).
#[derive(Clone, Copy, Debug, PartialEq, Eq, Structural)]
pub struct DcTarget {
    /// The address handle.
    pub ah: u64,
    /// The DCT number.
    pub dct_number: u32,
    /// The DC access key.
    pub dct_access_key: u64,
}

/// Global DC key that every DCT of this library is created with.
pub const GLOBAL_DC_KEY: u64 = 0x1919810;

/// Remote peer information that can be used in sends: the address handle
/// created for the peer's endpoint, and the endpoint.
#[derive(Clone, Copy, Debug)]
pub struct QpPeer {
    /// The `ibv_ah` handle.
    pub ah: u64,
    /// The endpoint of the peer.
    pub ep: QpEndpoint,
}

impl QpPeer {
    /// Record an address handle created for an endpoint.
    pub fn new(ah: u64, ep: QpEndpoint) -> (p: QpPeer)
        ensures
            p.ah == ah,
            p.ep == ep,
    {
        QpPeer { ah, ep }
    }

    /// The handle of a UD send to this peer, with the global Q_Key.
    pub fn ud(&self) -> (r: UdTarget)
        ensures
            r == (UdTarget { ah: self.ah, remote_qpn: self.ep.qpn, remote_qkey: GLOBAL_QKEY }),
    {
        UdTarget { ah: self.ah, remote_qpn: self.ep.qpn, remote_qkey: GLOBAL_QKEY }
    }

    /// The handle of a UD send to this peer, with the Q_Key of its endpoint.
    pub fn as_ud_t(&self) -> (r: UdTarget)
        ensures
            r == (UdTarget { ah: self.ah, remote_qpn: self.ep.qpn, remote_qkey: self.ep.qkey }),
    {
        UdTarget { ah: self.ah, remote_qpn: self.ep.qpn, remote_qkey: self.ep.qkey }
    }

    /// The handle of a DC send to this peer.
    pub fn dc(&self) -> (r: DcTarget)
        ensures
            r == (DcTarget { ah: self.ah, dct_number: self.ep.qpn, dct_access_key: GLOBAL_DC_KEY }),
    {
        DcTarget { ah: self.ah, dct_number: self.ep.qpn, dct_access_key: GLOBAL_DC_KEY }
    }

    /// Get the endpoint data of this peer.
    pub fn endpoint(&self) -> (r: &QpEndpoint)
        ensures
            *r == self.ep,
    {
        &self.ep
    }
}

} // verus!
