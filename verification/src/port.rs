//! Physical ports of RDMA devices.
use vstd::prelude::*;

use crate::gid::{spec_gid_type_rank, spec_holds_ipv4, GidQueryError, GidTyped};
use crate::verbs::{
    IBV_LINK_LAYER_ETHERNET, IBV_LINK_LAYER_INFINIBAND, IBV_LINK_LAYER_UNSPECIFIED,
    IBV_MTU_1024, IBV_MTU_2048, IBV_MTU_256, IBV_MTU_4096, IBV_MTU_512, IBV_PORT_ACTIVE,
    IBV_PORT_ACTIVE_DEFER, IBV_PORT_ARMED, IBV_PORT_DOWN, IBV_PORT_INIT,
};

verus! {

/// The attributes of a port that `ibv_query_port` reports and that the
/// library reads.
#[derive(Clone, Copy, Debug)]
pub struct PortAttr {
    /// Logical port state (`ibv_port_state`).
    pub state: u32,
    /// Active MTU (`ibv_mtu`).
    pub active_mtu: u32,
    /// Length of the source GID table.
    pub gid_tbl_len: i32,
    /// Base port LID.
    pub lid: u16,
    /// Active link width code.
    pub active_width: u8,
    /// Active link speed code.
    pub active_speed: u8,
    /// Link layer protocol code.
    pub link_layer: u8,
}

/// Physical port information.
#[derive(Debug)]
pub struct Port {
    /// Index of this port.
    num: u8,
    /// Port attributes.
    attr: PortAttr,
    /// GIDs of this port.
    gids: Vec<GidTyped>,
}

/// Port query error type.
#[derive(Debug)]
pub enum PortQueryError {
    /// `libibverbs` interfaces returned this OS error code when querying the
    /// port.
    IoError(i32),
    /// Failed to query GID attributes.
    GidQueryError(GidQueryError),
}

/// Port state.
#[derive(Clone, Copy, Debug, PartialEq, Eq, Structural)]
pub enum PortState {
    /// Logical link is down.
    Down,
    /// Logical link is initializing.
    Init,
    /// Logical link is armed.
    Armed,
    /// Logical link is active.
    Active,
    /// Logical link is active but deferred.
    ActiveDefer,
}

/// Port link layer protocol type.
#[derive(Clone, Copy, Debug, PartialEq, Eq, Structural)]
pub enum PortLinkLayer {
    /// Infiniband.
    Infiniband,
    /// Ethernet.
    Ethernet,
}

/// Port MTU size.
#[derive(Clone, Copy, Debug, PartialEq, Eq, PartialOrd, Ord, Structural)]
pub enum PortMtu {
    /// 256 bytes.
    Mtu256,
    /// 512 bytes.
    Mtu512,
    /// 1024 bytes.
    Mtu1024,
    /// 2048 bytes.
    Mtu2048,
    /// 4096 bytes.
    Mtu4096,
}

/// Port speed, in tenths of Gbps.
#[derive(Clone, Copy, Debug, PartialEq, Eq, PartialOrd, Ord, Structural)]
pub struct PortSpeed(pub u32);

/// The `ibv_port_state` code of a port state.
pub open spec fn spec_port_state_code(s: PortState) -> u32 {
    match s {
        PortState::Down => IBV_PORT_DOWN,
        PortState::Init => IBV_PORT_INIT,
        PortState::Armed => IBV_PORT_ARMED,
        PortState::Active => IBV_PORT_ACTIVE,
        PortState::ActiveDefer => IBV_PORT_ACTIVE_DEFER,
    }
}

/// The `ibv_mtu` code of an MTU.
pub open spec fn spec_mtu_code(m: PortMtu) -> u32 {
    match m {
        PortMtu::Mtu256 => IBV_MTU_256,
        PortMtu::Mtu512 => IBV_MTU_512,
        PortMtu::Mtu1024 => IBV_MTU_1024,
        PortMtu::Mtu2048 => IBV_MTU_2048,
        PortMtu::Mtu4096 => IBV_MTU_4096,
    }
}

/// The number of bytes of an MTU.
pub open spec fn spec_mtu_bytes(m: PortMtu) -> u32 {
    match m {
        PortMtu::Mtu256 => 256,
        PortMtu::Mtu512 => 512,
        PortMtu::Mtu1024 => 1024,
        PortMtu::Mtu2048 => 2048,
        PortMtu::Mtu4096 => 4096,
    }
}

/// The number of lanes that an active width code stands for.
pub open spec fn spec_width_lanes(w: u8) -> u32 {
    if w == 1 {
        1
    } else if w == 2 {
        4
    } else if w == 4 {
        8
    } else {
        12
    }
}

/// The per-lane speed, in tenths of Gbps, that an active speed code stands for.
pub open spec fn spec_lane_speed_tenths(s: u8) -> u32 {
    if s == 1 {
        25
    } else if s == 2 {
        50
    } else if s == 4 || s == 8 {
        100
    } else if s == 16 {
        140
    } else if s == 32 {
        250
    } else {
        500
    }
}

/// Law: the lane counts and per-lane rates are those that `libibverbs`
/// defines for its active width codes (1x, 4x, 8x, 12x as codes 1, 2, 4, 8)
/// and active speed codes (SDR 2.5, DDR 5, QDR 10, FDR10 10, FDR 14, EDR 25
/// and HDR 50 Gbps as codes 1, 2, 4, 8, 16, 32, 64), in tenths of Gbps.
pub proof fn lemma_port_speed_codes()
    ensures
        spec_width_lanes(1) == 1,
        spec_width_lanes(2) == 4,
        spec_width_lanes(4) == 8,
        spec_width_lanes(8) == 12,
        spec_lane_speed_tenths(1) == 25,
        spec_lane_speed_tenths(2) == 50,
        spec_lane_speed_tenths(4) == 100,
        spec_lane_speed_tenths(8) == 100,
        spec_lane_speed_tenths(16) == 140,
        spec_lane_speed_tenths(32) == 250,
        spec_lane_speed_tenths(64) == 500,
{
}

/// Law: a QDR lane runs as fast as an FDR10 lane, twice as fast as a DDR
/// lane and four times as fast as an SDR lane, so that ports of the same
/// width at those speed codes compare in that way.
pub proof fn lemma_lane_rates_relate(w: u8)
    requires
        spec_width_known(w),
    ensures
        spec_width_lanes(w) * spec_lane_speed_tenths(4) == spec_width_lanes(w) * spec_lane_speed_tenths(8),
        spec_width_lanes(w) * spec_lane_speed_tenths(4) == 2 * (spec_width_lanes(w) * spec_lane_speed_tenths(2)),
        spec_width_lanes(w) * spec_lane_speed_tenths(4) == 4 * (spec_width_lanes(w) * spec_lane_speed_tenths(1)),
        spec_width_lanes(w) * spec_lane_speed_tenths(4) == 10 * spec_width_lanes(w) * 10,
{
}

/// Whether the active width code is one that `libibverbs` defines.
pub open spec fn spec_width_known(w: u8) -> bool {
    w == 1 || w == 2 || w == 4 || w == 8
}

/// Whether the active speed code is one that `libibverbs` defines.
pub open spec fn spec_speed_known(s: u8) -> bool {
    s == 1 || s == 2 || s == 4 || s == 8 || s == 16 || s == 32 || s == 64
}

/// The order in which GIDs are recommended, as a key: the GID type first,
/// then whether the GID carries an IPv4 address, then the index (taken as a
/// `u8`).
pub open spec fn spec_gid_key(gids: Seq<GidTyped>, i: int) -> (int, int, int) {
    (
        spec_gid_type_rank(gids[i].ty),
        if spec_holds_ipv4(gids[i].gid.0@) { 1int } else { 0int },
        (i as u8) as int,
    )
}

/// Lexicographic `<=` on GID recommendation keys.
pub open spec fn spec_key_le(a: (int, int, int), b: (int, int, int)) -> bool {
    a.0 < b.0 || (a.0 == b.0 && (a.1 < b.1 || (a.1 == b.1 && a.2 <= b.2)))
}

/// Whether index `b` holds a GID that no GID of the table comes after in the
/// recommendation order.
pub open spec fn spec_is_recommended(gids: Seq<GidTyped>, b: int) -> bool {
    &&& 0 <= b < gids.len()
    &&& forall|j: int|
        0 <= j < gids.len() ==> spec_key_le(#[trigger] spec_gid_key(gids, j), spec_gid_key(gids, b))
}

/// Law: a GID table of at most 256 entries has exactly one recommended GID
/// (so the recommended GID of a port is determined by its table).
pub proof fn lemma_recommended_unique(gids: Seq<GidTyped>, b1: int, b2: int)
    requires
        gids.len() <= 256,
        spec_is_recommended(gids, b1),
        spec_is_recommended(gids, b2),
    ensures
        b1 == b2,
{
    let k1 = spec_gid_key(gids, b1);
    let k2 = spec_gid_key(gids, b2);
    assert(spec_key_le(k1, k2));
    assert(spec_key_le(k2, k1));
    assert(k1.2 == k2.2);
    assert(0 <= b1 < 256 && 0 <= b2 < 256);
    assert((b1 as u8) as int == b1);
    assert((b2 as u8) as int == b2);
}

/// Law: each port state and each MTU has a code that the port accepts, and
/// distinct ones have distinct codes.
pub proof fn lemma_port_codes_roundtrip(s: PortState, t: PortState, m: PortMtu, n: PortMtu)
    ensures
        IBV_PORT_DOWN <= spec_port_state_code(s) <= IBV_PORT_ACTIVE_DEFER,
        spec_port_state_code(s) == spec_port_state_code(t) ==> s == t,
        IBV_MTU_256 <= spec_mtu_code(m) <= IBV_MTU_4096,
        spec_mtu_code(m) == spec_mtu_code(n) ==> m == n,
{
}

impl PortMtu {
    /// The `ibv_mtu` code of this MTU.
    pub fn code(&self) -> (r: u32)
        ensures
            r == spec_mtu_code(*self),
    {
        match self {
            PortMtu::Mtu256 => IBV_MTU_256,
            PortMtu::Mtu512 => IBV_MTU_512,
            PortMtu::Mtu1024 => IBV_MTU_1024,
            PortMtu::Mtu2048 => IBV_MTU_2048,
            PortMtu::Mtu4096 => IBV_MTU_4096,
        }
    }

    /// The MTU as text: its number of bytes and `B`, e.g. `1024B`.
    pub fn to_text(&self) -> (r: &'static str)
        ensures
            r@ == (match *self {
                PortMtu::Mtu256 => "256B"@,
                PortMtu::Mtu512 => "512B"@,
                PortMtu::Mtu1024 => "1024B"@,
                PortMtu::Mtu2048 => "2048B"@,
                PortMtu::Mtu4096 => "4096B"@,
            }),
    {
        match self {
            PortMtu::Mtu256 => "256B",
            PortMtu::Mtu512 => "512B",
            PortMtu::Mtu1024 => "1024B",
            PortMtu::Mtu2048 => "2048B",
            PortMtu::Mtu4096 => "4096B",
        }
    }

    /// The number of bytes of this MTU, as it is displayed (`"{bytes}B"`).
    pub fn bytes(&self) -> (r: u32)
        ensures
            r == spec_mtu_bytes(*self),
    {
        match self {
            PortMtu::Mtu256 => 256,
            PortMtu::Mtu512 => 512,
            PortMtu::Mtu1024 => 1024,
            PortMtu::Mtu2048 => 2048,
            PortMtu::Mtu4096 => 4096,
        }
    }
}

impl PortState {
    /// The `ibv_port_state` code of this state.
    pub fn code(&self) -> (r: u32)
        ensures
            r == spec_port_state_code(*self),
    {
        match self {
            PortState::Down => IBV_PORT_DOWN,
            PortState::Init => IBV_PORT_INIT,
            PortState::Armed => IBV_PORT_ARMED,
            PortState::Active => IBV_PORT_ACTIVE,
            PortState::ActiveDefer => IBV_PORT_ACTIVE_DEFER,
        }
    }
}

impl PortSpeed {
    /// The speed in tenths of Gbps (ten times the Gbps figure).
    pub fn gbps_times_ten(&self) -> (r: u32)
        ensures
            r == self.0,
    {
        self.0
    }
}

impl Clone for Port {
    fn clone(&self) -> (r: Port)
        ensures
            r.spec_num() == self.spec_num(),
            r.spec_attr() == self.spec_attr(),
            r.spec_gids() == self.spec_gids(),
    {
        let mut gids: Vec<GidTyped> = Vec::new();
        let mut i: usize = 0;
        while i < self.gids.len()
            invariant
                0 <= i <= self.gids@.len(),
                gids@ == self.gids@.subrange(0, i as int),
            decreases self.gids@.len() - i,
        {
            gids.push(self.gids[i]);
            i = i + 1;
        }
        assert(gids@ =~= self.gids@);
        Port { num: self.num, attr: self.attr, gids }
    }
}

impl Port {
    /// The index of this port, as a spec value.
    pub closed spec fn spec_num(&self) -> u8 {
        self.num
    }

    /// The attributes of this port, as a spec value.
    pub closed spec fn spec_attr(&self) -> PortAttr {
        self.attr
    }

    /// The GIDs of this port, as a spec value.
    pub closed spec fn spec_gids(&self) -> Seq<GidTyped> {
        self.gids@
    }

    /// Gather the information of an RDMA device's physical port from its
    /// queried attributes and GID table.
    pub fn new(num: u8, attr: PortAttr, gids: Vec<GidTyped>) -> (p: Port)
        ensures
            p.spec_num() == num,
            p.spec_attr() == attr,
            p.spec_gids() == gids@,
    {
        Port { num, attr, gids }
    }

    /// Get the index of this port.
    pub fn num(&self) -> (r: u8)
        ensures
            r == self.spec_num(),
    {
        self.num
    }

    /// Get the attributes of this port.
    pub fn attr(&self) -> (r: &PortAttr)
        ensures
            *r == self.spec_attr(),
    {
        &self.attr
    }

    /// Get the LID of this port.
    pub fn lid(&self) -> (r: u16)
        ensures
            r == self.spec_attr().lid,
    {
        self.attr.lid
    }

    /// Get the GIDs of this port.
    pub fn gids(&self) -> (r: &[GidTyped])
        ensures
            r@ == self.spec_gids(),
    {
        self.gids.as_slice()
    }

    /// Get the state of this port.
    pub fn state(&self) -> (r: PortState)
        requires
            IBV_PORT_DOWN <= self.spec_attr().state <= IBV_PORT_ACTIVE_DEFER,
        ensures
            spec_port_state_code(r) == self.spec_attr().state,
    {
        let s = self.attr.state;
        if s == IBV_PORT_DOWN {
            PortState::Down
        } else if s == IBV_PORT_INIT {
            PortState::Init
        } else if s == IBV_PORT_ARMED {
            PortState::Armed
        } else if s == IBV_PORT_ACTIVE {
            PortState::Active
        } else {
            PortState::ActiveDefer
        }
    }

    /// Whether the port's link layer, active width and active speed codes
    /// are ones that `libibverbs` defines, so that [`Port::link_layer`] and
    /// [`Port::speed`] can read them.
    pub fn codes_known(&self) -> (r: bool)
        ensures
            r == (self.spec_attr().link_layer <= IBV_LINK_LAYER_ETHERNET && spec_width_known(
                self.spec_attr().active_width,
            ) && spec_speed_known(self.spec_attr().active_speed)),
    {
        let a = &self.attr;
        let w = a.active_width;
        let sp = a.active_speed;
        a.link_layer <= IBV_LINK_LAYER_ETHERNET && (w == 1 || w == 2 || w == 4 || w == 8) && (sp == 1
            || sp == 2 || sp == 4 || sp == 8 || sp == 16 || sp == 32 || sp == 64)
    }

    /// Get the link layer protocol of this port.
    pub fn link_layer(&self) -> (r: PortLinkLayer)
        requires
            self.spec_attr().link_layer <= IBV_LINK_LAYER_ETHERNET,
        ensures
            r == (if self.spec_attr().link_layer == IBV_LINK_LAYER_ETHERNET {
                PortLinkLayer::Ethernet
            } else {
                PortLinkLayer::Infiniband
            }),
    {
        let l = self.attr.link_layer;
        if l == IBV_LINK_LAYER_UNSPECIFIED || l == IBV_LINK_LAYER_INFINIBAND {
            PortLinkLayer::Infiniband
        } else {
            PortLinkLayer::Ethernet
        }
    }

    /// Get the active MTU of this port.
    pub fn mtu(&self) -> (r: PortMtu)
        requires
            IBV_MTU_256 <= self.spec_attr().active_mtu <= IBV_MTU_4096,
        ensures
            spec_mtu_code(r) == self.spec_attr().active_mtu,
    {
        let m = self.attr.active_mtu;
        if m == IBV_MTU_256 {
            PortMtu::Mtu256
        } else if m == IBV_MTU_512 {
            PortMtu::Mtu512
        } else if m == IBV_MTU_1024 {
            PortMtu::Mtu1024
        } else if m == IBV_MTU_2048 {
            PortMtu::Mtu2048
        } else {
            PortMtu::Mtu4096
        }
    }

    /// Get the active speed of this port: the number of lanes times the
    /// per-lane speed, in tenths of Gbps.
    pub fn speed(&self) -> (r: PortSpeed)
        requires
            spec_width_known(self.spec_attr().active_width),
            spec_speed_known(self.spec_attr().active_speed),
        ensures
            r.0 == spec_width_lanes(self.spec_attr().active_width) * spec_lane_speed_tenths(
                self.spec_attr().active_speed,
            ),
            (self.spec_attr().active_speed == 4 || self.spec_attr().active_speed == 8) ==> r.0
                == spec_width_lanes(self.spec_attr().active_width) * 100,
    {
        let w = self.attr.active_width;
        let width: u32 = if w == 1 {
            1
        } else if w == 2 {
            4
        } else if w == 4 {
            8
        } else {
            12
        };
        let s = self.attr.active_speed;
        let speed10x: u32 = if s == 1 {
            25
        } else if s == 2 {
            50
        } else if s == 4 || s == 8 {
            100
        } else if s == 16 {
            140
        } else if s == 32 {
            250
        } else {
            500
        };
        PortSpeed(width * speed10x)
    }

    /// Get the most recommended GID of this port and its index: Infiniband
    /// is preferred over RoCEv2, then RoCEv1; GIDs that carry an IPv4
    /// address are preferred over those that do not; then GIDs with larger
    /// indexes are preferred.
    ///
    /// The port must have a GID.
    pub fn recommended_gid(&self) -> (r: (GidTyped, u8))
        requires
            self.spec_gids().len() > 0,
        ensures
            exists|b: int|
                #[trigger] spec_is_recommended(self.spec_gids(), b) && r.0 == self.spec_gids()[b]
                    && r.1 == (b as u8),
    {
        let gids = &self.gids;
        let n = gids.len();
        let mut best: usize = 0;
        let mut best_rank: u8 = gids[0].ty.rank();
        let mut best_v4: u8 = if gids[0].gid.to_ipv4().is_some() { 1 } else { 0 };
        let mut i: usize = 1;
        while i < n
            invariant
                n == gids@.len(),
                gids@ == self.spec_gids(),
                0 <= best < i <= n,
                best_rank as int == spec_gid_key(gids@, best as int).0,
                best_v4 as int == spec_gid_key(gids@, best as int).1,
                forall|j: int|
                    0 <= j < i ==> spec_key_le(
                        #[trigger] spec_gid_key(gids@, j),
                        spec_gid_key(gids@, best as int),
                    ),
            decreases n - i,
        {
            let rank = gids[i].ty.rank();
            let v4: u8 = if gids[i].gid.to_ipv4().is_some() { 1 } else { 0 };
            let idx = i as u8;
            let best_idx = best as u8;
            if best_rank < rank || (best_rank == rank && (best_v4 < v4 || (best_v4 == v4
                && best_idx <= idx))) {
                best = i;
                best_rank = rank;
                best_v4 = v4;
            }
            i = i + 1;
        }
        assert(spec_is_recommended(self.spec_gids(), best as int));
        (gids[best], best as u8)
    }
}

} // verus!
