//! RDMA hardware resource discovery: the filters that devices and ports are
//! held to, and what a probe finds.
use vstd::prelude::*;

use crate::context::Context;
use crate::port::{Port, PortLinkLayer, PortQueryError};

verus! {

/// NIC probe result error type.
#[derive(Debug)]
pub enum NicProbeError {
    /// `libibverbs` interfaces returned this OS error code when opening or
    /// querying the device.
    IoError(i32),
    /// Failed to query port attributes.
    PortQueryError(PortQueryError),
    /// No eligible RDMA device found.
    NotFound,
}

/// NIC probe result: an opened RDMA device and a set of port metadata.
pub struct Nic {
    /// Device context.
    pub context: Context,
    /// Port metadata.
    pub ports: Vec<Port>,
}

/// Whether `regex::Regex::new` accepts `pattern`.
pub uninterp spec fn spec_regex_valid(pattern: Seq<char>) -> bool;

/// Whether the regular expression that `pattern` compiles to matches
/// somewhere in `haystack`.
pub uninterp spec fn spec_regex_matches(pattern: Seq<char>, haystack: Seq<char>) -> bool;

/// `regex::Regex::new`: whether the pattern compiles, as the name
/// [`spec_regex_valid`] stands for.
#[verifier::external_body]
fn regex_compiles(pattern: &str) -> (r: bool)
    ensures
        r == spec_regex_valid(pattern@),
{
    regex::Regex::new(pattern).is_ok()
}

/// `regex::Regex::is_match`, on the regular expression that
/// `regex::Regex::new` compiles from `pattern`: whether it matches somewhere
/// in `haystack`, as the name [`spec_regex_matches`] stands for; `None`
/// where the pattern does not compile.
#[verifier::external_body]
fn regex_is_match(pattern: &str, haystack: &str) -> (r: Option<bool>)
    ensures
        r is Some <==> spec_regex_valid(pattern@),
        r matches Some(m) ==> m == spec_regex_matches(pattern@, haystack@),
{
    regex::Regex::new(pattern).ok().map(|re| re.is_match(haystack))
}

/// Whether a device's name passes the device name filters: there are none,
/// or the name was read and one of them matches it.
pub open spec fn spec_name_fits(patterns: Seq<Seq<char>>, name: Option<Seq<char>>) -> bool {
    patterns.len() == 0 || (name is Some && spec_some_pattern_matches(patterns, name->0))
}

/// Whether one of `patterns` matches somewhere in `name`.
pub open spec fn spec_some_pattern_matches(patterns: Seq<Seq<char>>, name: Seq<char>) -> bool {
    exists|i: int|
        0 <= i < patterns.len() && spec_regex_valid(patterns[i]) && #[trigger] spec_regex_matches(
            patterns[i],
            name,
        )
}

/// The filters on device names, port numbers, link layers and NUMA nodes
/// that a NIC probe holds devices and ports to.
#[derive(Clone, Debug)]
pub struct NicFilters {
    /// Device name filters, as regular expressions (match any).
    pub dev_names: Vec<String>,
    /// Port number filter (match any).
    pub port_nums: Vec<u8>,
    /// Port link layer protocol filter.
    pub port_link_layer: Option<PortLinkLayer>,
    /// NUMA node filter (match any).
    pub numa_nodes: Vec<u8>,
}

/// Whether a device passes the filters: if port numbers are asked for, the
/// device was queried and has a port with one of them (as many ports as
/// one of the numbers at least); if NUMA nodes are asked for, the device's
/// NUMA node was read and is one of them.
pub open spec fn spec_device_fits(
    port_nums: Seq<u8>,
    numa_nodes: Seq<u8>,
    phys_port_cnt: Option<u8>,
    numa: Option<u8>,
) -> bool {
    &&& (port_nums.len() == 0 || (phys_port_cnt matches Some(cnt) && exists|i: int|
        0 <= i < port_nums.len() && #[trigger] port_nums[i] <= cnt))
    &&& (numa_nodes.len() == 0 || (numa matches Some(node) && numa_nodes.contains(node)))
}

/// Whether a port passes the filters: its number is one of those asked for
/// (if any are), and its link layer is the one asked for (if one is).
pub open spec fn spec_port_fits(
    port_nums: Seq<u8>,
    link_layer: Option<PortLinkLayer>,
    port_num: u8,
    port_link_layer: PortLinkLayer,
) -> bool {
    &&& (port_nums.len() == 0 || port_nums.contains(port_num))
    &&& (link_layer matches Some(l) ==> l == port_link_layer)
}

fn contains_u8(v: &Vec<u8>, x: u8) -> (r: bool)
    ensures
        r == v@.contains(x),
{
    let mut i: usize = 0;
    while i < v.len()
        invariant
            0 <= i <= v@.len(),
            forall|j: int| 0 <= j < i ==> v@[j] != x,
        decreases v@.len() - i,
    {
        if v[i] == x {
            assert(v@[i as int] == x);
            return true;
        }
        i = i + 1;
    }
    false
}

impl NicFilters {
    /// Filters that let every device and port pass.
    pub fn new() -> (f: NicFilters)
        ensures
            f.dev_names@ == Seq::<String>::empty(),
            f.port_nums@ == Seq::<u8>::empty(),
            f.port_link_layer is None,
            f.numa_nodes@ == Seq::<u8>::empty(),
    {
        NicFilters {
            dev_names: Vec::new(),
            port_nums: Vec::new(),
            port_link_layer: None,
            numa_nodes: Vec::new(),
        }
    }

    /// Permit also devices whose name the regular expression `name`
    /// matches. The pattern must compile (see [`NicFilters::try_dev_name`]
    /// for one that may not).
    pub fn dev_name(self, name: &str) -> (f: NicFilters)
        requires
            spec_regex_valid(name@),
        ensures
            f.dev_names@.len() == self.dev_names@.len() + 1,
            forall|i: int| 0 <= i < self.dev_names@.len() ==> f.dev_names@[i] == self.dev_names@[i],
            f.dev_names@.last()@ == name@,
            f.port_nums@ == self.port_nums@,
            f.port_link_layer == self.port_link_layer,
            f.numa_nodes@ == self.numa_nodes@,
    {
        let mut f = self;
        f.dev_names.push(name.to_owned());
        f
    }

    /// Permit also devices whose name the regular expression `name`
    /// matches, where the pattern compiles; the filters unchanged in `Err`
    /// where it does not.
    pub fn try_dev_name(self, name: &str) -> (r: Result<NicFilters, NicFilters>)
        ensures
            r is Ok <==> spec_regex_valid(name@),
            r matches Err(f) ==> f == self,
            r matches Ok(f) ==> f.dev_names@.len() == self.dev_names@.len() + 1 && (forall|i: int|
                0 <= i < self.dev_names@.len() ==> f.dev_names@[i] == self.dev_names@[i])
                && f.dev_names@.last()@ == name@ && f.port_nums@ == self.port_nums@
                && f.port_link_layer == self.port_link_layer && f.numa_nodes@
                == self.numa_nodes@,
    {
        if regex_compiles(name) {
            Ok(self.dev_name(name))
        } else {
            Err(self)
        }
    }

    /// The device name filters as character sequences.
    pub open spec fn spec_patterns(&self) -> Seq<Seq<char>> {
        self.dev_names@.map_values(|p: String| p@)
    }

    /// Whether a device's name passes the device name filters (see
    /// [`spec_name_fits`]); `None` stands for a name that could not be read.
    /// A pattern that does not compile matches nothing (the builders let
    /// none in).
    pub fn device_name_fits(&self, name: Option<&str>) -> (r: bool)
        ensures
            r == spec_name_fits(
                self.spec_patterns(),
                match name {
                    Some(n) => Some(n@),
                    None => None,
                },
            ),
    {
        if self.dev_names.len() == 0 {
            assert(self.spec_patterns().len() == 0);
            return true;
        }
        let n = match name {
            Some(n) => n,
            None => return false,
        };
        let mut i: usize = 0;
        while i < self.dev_names.len()
            invariant
                name == Some(n),
                self.spec_patterns().len() == self.dev_names@.len(),
                0 <= i <= self.dev_names@.len(),
                forall|k: int|
                    0 <= k < i ==> !(spec_regex_valid(self.spec_patterns()[k])
                        && #[trigger] spec_regex_matches(self.spec_patterns()[k], n@)),
            decreases self.dev_names@.len() - i,
        {
            assert(self.spec_patterns()[i as int] == self.dev_names@[i as int]@);
            if let Some(true) = regex_is_match(self.dev_names[i].as_str(), n) {
                assert(spec_regex_matches(self.spec_patterns()[i as int], n@));
                return true;
            }
            i = i + 1;
        }
        false
    }

    /// Permit also ports with the given number, which must be positive.
    pub fn port_num(self, num: u8) -> (f: NicFilters)
        requires
            num > 0,
        ensures
            f.dev_names@ == self.dev_names@,
            f.port_nums@ == self.port_nums@.push(num),
            f.port_link_layer == self.port_link_layer,
            f.numa_nodes@ == self.numa_nodes@,
    {
        let mut f = self;
        f.port_nums.push(num);
        f
    }

    /// Permit only ports with the given link layer protocol, overriding the
    /// previous link layer filter.
    pub fn port_link_layer(self, link_layer: PortLinkLayer) -> (f: NicFilters)
        ensures
            f.dev_names@ == self.dev_names@,
            f.port_nums@ == self.port_nums@,
            f.port_link_layer == Some(link_layer),
            f.numa_nodes@ == self.numa_nodes@,
    {
        let mut f = self;
        f.port_link_layer = Some(link_layer);
        f
    }

    /// Permit also devices on the given NUMA node.
    pub fn numa_node(self, node: u8) -> (f: NicFilters)
        ensures
            f.dev_names@ == self.dev_names@,
            f.port_nums@ == self.port_nums@,
            f.port_link_layer == self.port_link_layer,
            f.numa_nodes@ == self.numa_nodes@.push(node),
    {
        let mut f = self;
        f.numa_nodes.push(node);
        f
    }

    /// Whether a device passes the filters (see [`spec_device_fits`]); a
    /// `None` stands for a query that failed.
    pub fn device_fits(&self, phys_port_cnt: Option<u8>, numa: Option<u8>) -> (r: bool)
        ensures
            r == spec_device_fits(self.port_nums@, self.numa_nodes@, phys_port_cnt, numa),
    {
        let ports_ok = if self.port_nums.len() == 0 {
            true
        } else {
            match phys_port_cnt {
                None => false,
                Some(cnt) => {
                    let mut ok = false;
                    let mut i: usize = 0;
                    while i < self.port_nums.len()
                        invariant
                            0 <= i <= self.port_nums@.len(),
                            ok == exists|j: int| 0 <= j < i && #[trigger] self.port_nums@[j] <= cnt,
                        decreases self.port_nums@.len() - i,
                    {
                        if self.port_nums[i] <= cnt {
                            assert(self.port_nums@[i as int] <= cnt);
                            ok = true;
                        }
                        i = i + 1;
                    }
                    ok
                },
            }
        };
        let numa_ok = if self.numa_nodes.len() == 0 {
            true
        } else {
            match numa {
                None => false,
                Some(node) => contains_u8(&self.numa_nodes, node),
            }
        };
        ports_ok && numa_ok
    }

    /// Whether a port passes the filters (see [`spec_port_fits`]).
    pub fn port_fits(&self, port_num: u8, link_layer: PortLinkLayer) -> (r: bool)
        ensures
            r == spec_port_fits(self.port_nums@, self.port_link_layer, port_num, link_layer),
    {
        let num_ok = self.port_nums.len() == 0 || contains_u8(&self.port_nums, port_num);
        let ll_ok = match self.port_link_layer {
            None => true,
            Some(l) => l == link_layer,
        };
        num_ok && ll_ok
    }
}

/// Count-down to the `n`-th eligible candidate of a probe.
#[derive(Clone, Copy, Debug, PartialEq, Eq, Structural)]
pub struct NthSelector {
    /// How many eligible candidates are still to be passed over.
    pub remaining: usize,
}

impl NthSelector {
    /// Select the `n`-th eligible candidate, counting from 0.
    pub fn new(n: usize) -> (s: NthSelector)
        ensures
            s.remaining == n,
    {
        NthSelector { remaining: n }
    }

    /// Visit an eligible candidate: it is the one selected iff none remains
    /// to be passed over; otherwise one fewer remains.
    pub fn visit_eligible(&mut self) -> (selected: bool)
        ensures
            selected == (old(self).remaining == 0),
            !selected ==> final(self).remaining == old(self).remaining - 1,
            selected ==> final(self).remaining == 0,
    {
        if self.remaining == 0 {
            true
        } else {
            self.remaining = self.remaining - 1;
            false
        }
    }
}

/// The numbers of the ports that pass the port filters, in order: port
/// `i + 1` where `port_ok[i]` holds.
pub open spec fn spec_eligible_ports(port_ok: Seq<bool>) -> Seq<u8>
    decreases port_ok.len(),
{
    if port_ok.len() == 0 {
        Seq::empty()
    } else {
        let before = spec_eligible_ports(port_ok.drop_last());
        if port_ok.last() {
            before.push(port_ok.len() as u8)
        } else {
            before
        }
    }
}

/// The numbers of all `n` ports of a device, `1..=n`.
pub open spec fn spec_all_ports(n: nat) -> Seq<u8> {
    Seq::new(n, |i: int| (i + 1) as u8)
}

/// How a probe counts devices: by eligible device, or by eligible port.
#[derive(Clone, Copy, Debug, PartialEq, Eq, Structural)]
pub enum ProbeMode {
    /// The `n`-th eligible device, with all its ports.
    NthDevice,
    /// The device of the `n`-th eligible port, with its ports that match
    /// the filters.
    NthPort,
}

/// What a probe does with a device it has opened.
#[derive(Clone, Debug)]
pub enum ProbeAction {
    /// Keep the device open with these of its ports (by number); the probe
    /// is over.
    Take(Vec<u8>),
    /// Close the device and go on to the next one.
    Close,
}

/// A probe for the `n`-th eligible device or port among the devices of the
/// machine, visited in order.
pub struct NicProbe {
    /// How the probe counts.
    pub mode: ProbeMode,
    /// How many eligible devices or ports are still to be passed over.
    pub selector: NthSelector,
}

impl NicProbe {
    /// Start a probe for the `n`-th eligible device or port (from 0).
    pub fn new(mode: ProbeMode, n: usize) -> (p: NicProbe)
        ensures
            p.mode == mode,
            p.selector.remaining == n,
    {
        NicProbe { mode, selector: NthSelector::new(n) }
    }

    /// Decide on the next device: `device_ok` tells whether it passes the
    /// device filters, `port_ok[i]` whether its port `i + 1` passes the port
    /// filters.
    ///
    /// Counting devices, an eligible device (one that passes and has an
    /// eligible port) is taken with all its ports where none remains to be
    /// passed over, and passed over otherwise. Counting ports, the eligible
    /// ports of a device that passes are passed over one by one, and the
    /// device is taken, with its eligible ports, where the port to select is
    /// among them. Any other device is closed.
    pub fn on_device(&mut self, device_ok: bool, port_ok: &[bool]) -> (a: ProbeAction)
        requires
            port_ok@.len() <= 255,
        ensures
            final(self).mode == old(self).mode,
            ({
                let n = old(self).selector.remaining;
                let eligible = spec_eligible_ports(port_ok@);
                match old(self).mode {
                    ProbeMode::NthDevice => if device_ok && eligible.len() > 0 {
                        if n == 0 {
                            a matches ProbeAction::Take(ports) && ports@ == spec_all_ports(
                                port_ok@.len(),
                            ) && final(self).selector.remaining == 0
                        } else {
                            a is Close && final(self).selector.remaining == n - 1
                        }
                    } else {
                        a is Close && final(self).selector.remaining == n
                    },
                    ProbeMode::NthPort => if device_ok && n < eligible.len() {
                        a matches ProbeAction::Take(ports) && ports@ == eligible
                            && final(self).selector.remaining == 0
                    } else if device_ok {
                        a is Close && final(self).selector.remaining == n - eligible.len()
                    } else {
                        a is Close && final(self).selector.remaining == n
                    },
                }
            }),
    {
        let eligible = eligible_ports(port_ok);
        match self.mode {
            ProbeMode::NthDevice => {
                if device_ok && eligible.len() > 0 {
                    if self.selector.visit_eligible() {
                        ProbeAction::Take(all_ports(port_ok.len()))
                    } else {
                        ProbeAction::Close
                    }
                } else {
                    ProbeAction::Close
                }
            },
            ProbeMode::NthPort => {
                if !device_ok {
                    return ProbeAction::Close;
                }
                if self.selector.remaining < eligible.len() {
                    self.selector.remaining = 0;
                    ProbeAction::Take(eligible)
                } else {
                    self.selector.remaining = self.selector.remaining - eligible.len();
                    ProbeAction::Close
                }
            },
        }
    }
}

/// The numbers of the ports that pass the port filters (see
/// [`spec_eligible_ports`]).
fn eligible_ports(port_ok: &[bool]) -> (r: Vec<u8>)
    requires
        port_ok@.len() <= 255,
    ensures
        r@ == spec_eligible_ports(port_ok@),
        r@.len() <= port_ok@.len(),
{
    let mut r: Vec<u8> = Vec::new();
    let mut i: usize = 0;
    while i < port_ok.len()
        invariant
            0 <= i <= port_ok@.len() <= 255,
            r@ == spec_eligible_ports(port_ok@.subrange(0, i as int)),
            r@.len() <= i,
        decreases port_ok@.len() - i,
    {
        assert(port_ok@.subrange(0, i + 1).drop_last() =~= port_ok@.subrange(0, i as int));
        if port_ok[i] {
            r.push((i + 1) as u8);
        }
        i = i + 1;
    }
    assert(port_ok@.subrange(0, port_ok@.len() as int) =~= port_ok@);
    r
}

/// The numbers `1..=n` of all the ports of a device.
fn all_ports(n: usize) -> (r: Vec<u8>)
    requires
        n <= 255,
    ensures
        r@ == spec_all_ports(n as nat),
{
    let mut r: Vec<u8> = Vec::new();
    let mut i: usize = 0;
    while i < n
        invariant
            0 <= i <= n <= 255,
            r@ == spec_all_ports(i as nat),
        decreases n - i,
    {
        r.push((i + 1) as u8);
        assert(r@ =~= spec_all_ports((i + 1) as nat));
        i = i + 1;
    }
    r
}

} // verus!
