//! Clusters of hosts, the schedule by which they connect pairwise, and the
//! plan of each pairwise connection.
use vstd::prelude::*;

use crate::context::Pd;

verus! {

/// An IPv4 address, as the 32-bit big-endian number of its four octets.
#[derive(Clone, Copy, Debug, PartialEq, Eq, Structural)]
pub struct Ipv4(pub u32);

/// Whether a byte is an ASCII decimal digit.
pub open spec fn spec_is_digit(c: u8) -> bool {
    48 <= c <= 57
}

/// The length of the run of ASCII digits that starts at `i`.
pub open spec fn spec_digit_run(s: Seq<u8>, i: int) -> nat
    decreases s.len() - i,
{
    if 0 <= i < s.len() && spec_is_digit(s[i]) {
        1 + spec_digit_run(s, i + 1)
    } else {
        0
    }
}

/// The decimal number that the digits `s[i..j]` write.
pub open spec fn spec_decimal(s: Seq<u8>, i: int, j: int) -> int
    decreases j - i,
{
    if j <= i {
        0
    } else {
        spec_decimal(s, i, j - 1) * 10 + (s[j - 1] - 48)
    }
}

/// The octet written at `i` in dotted-decimal notation, with the index just
/// past it: one to three digits, no leading zero but in `0` itself, a value
/// of at most 255, and no digit after them.
pub open spec fn spec_octet_at(s: Seq<u8>, i: int) -> Option<(u8, int)> {
    let n = spec_digit_run(s, i);
    let v = spec_decimal(s, i, i + n);
    if 1 <= n <= 3 && !(n > 1 && s[i] == 48) && v <= 255 {
        Some((v as u8, i + n))
    } else {
        None
    }
}

/// Whether a dot stands at `i`.
pub open spec fn spec_dot_at(s: Seq<u8>, i: int) -> bool {
    0 <= i < s.len() && s[i] == 46
}

/// The address whose octets are `a.b.c.d`.
pub open spec fn spec_ipv4_of(a: u8, b: u8, c: u8, d: u8) -> Ipv4 {
    Ipv4((a * 16777216 + b * 65536 + c * 256 + d) as u32)
}

/// The address that the whole of `s` writes in dotted-decimal notation
/// (`a.b.c.d`, each octet as [`spec_octet_at`] reads it), if it writes one.
pub open spec fn spec_parse_ipv4(s: Seq<u8>) -> Option<Ipv4> {
    match spec_octet_at(s, 0) {
        None => None,
        Some((a, e1)) => if !spec_dot_at(s, e1) {
            None
        } else {
            match spec_octet_at(s, e1 + 1) {
                None => None,
                Some((b, e2)) => if !spec_dot_at(s, e2) {
                    None
                } else {
                    match spec_octet_at(s, e2 + 1) {
                        None => None,
                        Some((c, e3)) => if !spec_dot_at(s, e3) {
                            None
                        } else {
                            match spec_octet_at(s, e3 + 1) {
                                Some((d, e4)) if e4 == s.len() => Some(spec_ipv4_of(a, b, c, d)),
                                _ => None,
                            }
                        },
                    }
                },
            }
        },
    }
}

proof fn lemma_digit_run_split(s: Seq<u8>, i: int, j: int)
    requires
        0 <= i <= j <= s.len(),
        forall|k: int| i <= k < j ==> spec_is_digit(#[trigger] s[k]),
    ensures
        spec_digit_run(s, i) == (j - i) + spec_digit_run(s, j),
    decreases j - i,
{
    if i < j {
        lemma_digit_run_split(s, i + 1, j);
    }
}

/// Read the octet at `i`, as [`spec_octet_at`] says.
fn read_octet(s: &[u8], i: usize) -> (r: Option<(u8, usize)>)
    requires
        i <= s@.len(),
    ensures
        r matches Some((v, e)) ==> spec_octet_at(s@, i as int) == Some((v, e as int)),
        r is None ==> spec_octet_at(s@, i as int) is None,
        r matches Some((v, e)) ==> i < e <= s@.len(),
{
    let mut j: usize = i;
    let mut v: u32 = 0;
    while j < s.len() && j - i < 4 && 48 <= s[j] && s[j] <= 57
        invariant
            i <= j <= s@.len(),
            j - i <= 4,
            forall|k: int| i <= k < j ==> spec_is_digit(#[trigger] s@[k]),
            v == spec_decimal(s@, i as int, j as int),
            j - i <= 1 ==> v <= 9,
            j - i <= 2 ==> v <= 99,
            j - i <= 3 ==> v <= 999,
            v <= 9999,
        decreases s@.len() - j,
    {
        v = v * 10 + (s[j] - 48) as u32;
        j = j + 1;
    }
    let n = j - i;
    proof {
        lemma_digit_run_split(s@, i as int, j as int);
    }
    if n == 0 || n == 4 {
        return None;
    }
    if n > 1 && s[i] == 48 {
        return None;
    }
    if v > 255 {
        return None;
    }
    Some((v as u8, j))
}

impl Ipv4 {
    /// The address whose octets are `a.b.c.d`.
    pub fn new(a: u8, b: u8, c: u8, d: u8) -> (r: Ipv4)
        ensures
            r == spec_ipv4_of(a, b, c, d),
    {
        Ipv4((a as u32) * 16777216 + (b as u32) * 65536 + (c as u32) * 256 + d as u32)
    }

    /// Parse an address written in dotted-decimal notation, as the standard
    /// library parses one: four octets of one to three digits each, divided
    /// by dots, octal-looking leading zeros refused. `None` where the text is
    /// no such address.
    pub fn parse(s: &[u8]) -> (r: Option<Ipv4>)
        ensures
            r == spec_parse_ipv4(s@),
    {
        let (a, e1) = match read_octet(s, 0) {
            Some(x) => x,
            None => return None,
        };
        if !(e1 < s.len() && s[e1] == 46) {
            return None;
        }
        let (b, e2) = match read_octet(s, e1 + 1) {
            Some(x) => x,
            None => return None,
        };
        if !(e2 < s.len() && s[e2] == 46) {
            return None;
        }
        let (c, e3) = match read_octet(s, e2 + 1) {
            Some(x) => x,
            None => return None,
        };
        if !(e3 < s.len() && s[e3] == 46) {
            return None;
        }
        let (d, e4) = match read_octet(s, e3 + 1) {
            Some(x) => x,
            None => return None,
        };
        if e4 != s.len() {
            return None;
        }
        Some(Ipv4::new(a, b, c, d))
    }
}

/// A cluster of hosts: their addresses, and the index of this host.
#[derive(Clone, Debug)]
pub struct Cluster {
    peers: Vec<Ipv4>,
    id: usize,
}

/// Whether `n` is a power of two.
pub open spec fn spec_is_pow2(n: usize) -> bool {
    n != 0 && n & ((n - 1) as usize) == 0
}

/// The peer that a host meets in a round of the connection schedule: the
/// round number XOR the host's index.
pub open spec fn spec_round_peer(id: usize, round: usize) -> usize {
    round ^ id
}

/// The hosts that host `id` connects to in rounds `from..n` of the
/// schedule, in order: each round's peer that is a host of the cluster (its
/// index below `size`).
pub open spec fn spec_schedule_peers(id: usize, size: int, from: usize, n: usize) -> Seq<usize>
    decreases n - from,
{
    if from >= n {
        Seq::empty()
    } else {
        let rest = spec_schedule_peers(id, size, (from + 1) as usize, n);
        let p = spec_round_peer(id, from);
        if p < size {
            seq![p] + rest
        } else {
            rest
        }
    }
}

/// The index of the first address in `peers` that is one of `local`.
pub open spec fn spec_first_local(peers: Seq<Ipv4>, local: Seq<Ipv4>, i: int) -> bool {
    &&& 0 <= i < peers.len()
    &&& local.contains(peers[i])
    &&& forall|j: int| 0 <= j < i ==> !local.contains(#[trigger] peers[j])
}

proof fn lemma_pow2_double(n: usize, m: usize)
    requires
        spec_is_pow2(n),
        m == n + n,
    ensures
        spec_is_pow2(m),
{
    assert(n != 0 && n & ((n - 1) as usize) == 0 && m == n + n ==> m != 0 && m & ((m - 1) as usize)
        == 0) by (bit_vector);
}

/// Round `x` up to a power of two (1 for 0 and 1).
pub fn pow2_roundup(x: usize) -> (n: usize)
    requires
        x <= usize::MAX / 2 + 1,
    ensures
        spec_is_pow2(n),
        x <= n,
        n == 1 || n / 2 < x,
{
    let mut n: usize = 1;
    assert(spec_is_pow2(1usize)) by (bit_vector);
    while n < x
        invariant
            x <= usize::MAX / 2 + 1,
            1 <= n,
            spec_is_pow2(n),
            n == 1 || n / 2 < x,
        decreases usize::MAX - n,
    {
        let m = n * 2;
        proof {
            lemma_pow2_double(n, m);
        }
        n = m;
    }
    n
}

/// The index of the first of `peers` whose address is one of `local`, or
/// `None` where none is.
pub fn first_local(peers: &[Ipv4], local: &[Ipv4]) -> (r: Option<usize>)
    ensures
        r matches Some(i) ==> spec_first_local(peers@, local@, i as int),
        r is None ==> forall|i: int| 0 <= i < peers@.len() ==> !local@.contains(#[trigger] peers@[i]),
{
    let mut i: usize = 0;
    while i < peers.len()
        invariant
            0 <= i <= peers@.len(),
            forall|j: int| 0 <= j < i ==> !local@.contains(#[trigger] peers@[j]),
        decreases peers@.len() - i,
    {
        let p = peers[i];
        let mut k: usize = 0;
        while k < local.len()
            invariant
                0 <= i < peers@.len(),
                p == peers@[i as int],
                0 <= k <= local@.len(),
                forall|j: int| 0 <= j < i ==> !local@.contains(#[trigger] peers@[j]),
                forall|m: int| 0 <= m < k ==> local@[m] != p,
            decreases local@.len() - k,
        {
            if local[k] == p {
                assert(local@[k as int] == peers@[i as int]);
                return Some(i);
            }
            k = k + 1;
        }
        assert(!local@.contains(p));
        i = i + 1;
    }
    None
}

impl Cluster {
    /// The addresses of the hosts.
    pub closed spec fn spec_peers(&self) -> Seq<Ipv4> {
        self.peers@
    }

    /// The index of this host.
    pub closed spec fn spec_id(&self) -> usize {
        self.id
    }

    /// A cluster of the given hosts, this host being the one at `id`.
    pub fn new_withid(peers: Vec<Ipv4>, id: usize) -> (c: Cluster)
        ensures
            c.spec_peers() == peers@,
            c.spec_id() == id,
    {
        Cluster { peers, id }
    }

    /// A cluster of the given hosts, this host being the first of them whose
    /// address is one of `local`, the addresses of this machine. One of
    /// the hosts must be this machine.
    pub fn new(peers: Vec<Ipv4>, local: &[Ipv4]) -> (c: Cluster)
        requires
            exists|i: int| 0 <= i < peers@.len() && local@.contains(#[trigger] peers@[i]),
        ensures
            c.spec_peers() == peers@,
            spec_first_local(peers@, local@, c.spec_id() as int),
    {
        let id = first_local(&peers, local);
        match id {
            Some(i) => Cluster::new_withid(peers, i),
            None => {
                proof {
                    let i = choose|i: int| 0 <= i < peers@.len() && local@.contains(#[trigger] peers@[i]);
                    assert(!local@.contains(peers@[i]));
                }
                Cluster::new_withid(peers, 0)
            },
        }
    }

    /// Get the addresses of the hosts.
    pub fn peers(&self) -> (r: &Vec<Ipv4>)
        ensures
            r@ == self.spec_peers(),
    {
        &self.peers
    }

    /// Get the index of this host.
    pub fn id(&self) -> (r: usize)
        ensures
            r == self.spec_id(),
    {
        self.id
    }

    /// Get the number of hosts.
    pub fn size(&self) -> (r: usize)
        ensures
            r == self.spec_peers().len(),
    {
        self.peers.len()
    }

    /// Get the address of the host at `id`, if there is one.
    pub fn get(&self, id: usize) -> (r: Option<Ipv4>)
        ensures
            r == (if id < self.spec_peers().len() {
                Some(self.spec_peers()[id as int])
            } else {
                None
            }),
    {
        if id < self.peers.len() {
            Some(self.peers[id])
        } else {
            None
        }
    }

    /// Start the schedule by which this host connects to every other host:
    /// rounds `1..n`, `n` being the number of hosts rounded up to a power of
    /// two; in round `i` this host meets the host `i ^ id`.
    pub fn connect_all<'a, 'b>(&'a self, pd: &'b Pd) -> (it: ConnectionIter<'a, 'b>)
        requires
            self.spec_peers().len() <= usize::MAX / 2 + 1,
        ensures
            it.spec_cluster() == *self,
            it.spec_pd() == *pd,
            it.spec_round() == 1,
            spec_is_pow2(it.spec_rounds()),
            self.spec_peers().len() <= it.spec_rounds(),
            it.spec_rounds() == 1 || it.spec_rounds() / 2 < self.spec_peers().len(),
    {
        ConnectionIter { cluster: self, pd, n: pow2_roundup(self.size()), i: 1 }
    }
}

/// What the connection schedule asks for next.
#[derive(Clone, Copy, Debug, PartialEq, Eq, Structural)]
pub enum ConnectStep {
    /// The schedule is over.
    Done,
    /// This round meets no host (its peer index is past the last host):
    /// wait at the cluster barrier and ask again.
    Skip,
    /// Connect to the host at this index, then wait at the cluster barrier.
    Connect(usize),
}

/// The schedule by which a host connects to every other host of the
/// cluster, one peer per round.
pub struct ConnectionIter<'a, 'b> {
    cluster: &'a Cluster,
    pd: &'b Pd,
    n: usize,
    i: usize,
}

impl<'a, 'b> ConnectionIter<'a, 'b> {
    /// The cluster.
    pub closed spec fn spec_cluster(&self) -> Cluster {
        *self.cluster
    }

    /// The protection domain that the connections are made on.
    pub closed spec fn spec_pd(&self) -> Pd {
        *self.pd
    }

    /// The number of rounds plus one: rounds are `1..n`.
    pub closed spec fn spec_rounds(&self) -> usize {
        self.n
    }

    /// The next round.
    pub closed spec fn spec_round(&self) -> usize {
        self.i
    }

    /// The hosts that the rounds still to come connect to, in order.
    pub open spec fn spec_remaining(&self) -> Seq<usize> {
        spec_schedule_peers(
            self.spec_cluster().spec_id(),
            self.spec_cluster().spec_peers().len() as int,
            self.spec_round(),
            self.spec_rounds(),
        )
    }

    /// The protection domain that the connections are made on.
    pub fn pd(&self) -> (r: &Pd)
        ensures
            *r == self.spec_pd(),
    {
        self.pd
    }

    /// The cluster.
    pub fn cluster(&self) -> (r: &Cluster)
        ensures
            *r == self.spec_cluster(),
    {
        self.cluster
    }

    /// Take the next round: its peer, or `None` when the rounds are over.
    pub fn progress(&mut self) -> (r: Option<usize>)
        ensures
            final(self).spec_cluster() == old(self).spec_cluster(),
            final(self).spec_pd() == old(self).spec_pd(),
            final(self).spec_rounds() == old(self).spec_rounds(),
            old(self).spec_round() >= old(self).spec_rounds() ==> r is None
                && final(self).spec_round() == old(self).spec_round(),
            old(self).spec_round() < old(self).spec_rounds() ==> r == Some(
                spec_round_peer(old(self).spec_cluster().spec_id(), old(self).spec_round()),
            ) && final(self).spec_round() == old(self).spec_round() + 1,
    {
        if self.i >= self.n {
            return None;
        }
        let id = self.cluster.id();
        let peer_id = self.i ^ id;
        self.i = self.i + 1;
        Some(peer_id)
    }

    /// The next step of the schedule: over when the rounds are over; skip
    /// a round whose peer index is past the last host; connect otherwise.
    pub fn next_step(&mut self) -> (step: ConnectStep)
        ensures
            final(self).spec_cluster() == old(self).spec_cluster(),
            final(self).spec_pd() == old(self).spec_pd(),
            final(self).spec_rounds() == old(self).spec_rounds(),
            old(self).spec_round() >= old(self).spec_rounds() ==> step == ConnectStep::Done
                && final(self).spec_round() == old(self).spec_round(),
            old(self).spec_round() < old(self).spec_rounds() ==> final(self).spec_round()
                == old(self).spec_round() + 1 && step == (if spec_round_peer(
                old(self).spec_cluster().spec_id(),
                old(self).spec_round(),
            ) < old(self).spec_cluster().spec_peers().len() {
                ConnectStep::Connect(
                    spec_round_peer(old(self).spec_cluster().spec_id(), old(self).spec_round()),
                )
            } else {
                ConnectStep::Skip
            }),
            step == ConnectStep::Done ==> old(self).spec_remaining() == Seq::<usize>::empty(),
            step matches ConnectStep::Connect(p) ==> old(self).spec_remaining() == seq![p]
                + final(self).spec_remaining(),
            step == ConnectStep::Skip ==> old(self).spec_remaining() == final(self).spec_remaining(),
    {
        match self.progress() {
            None => ConnectStep::Done,
            Some(p) => {
                if p < self.cluster.size() {
                    ConnectStep::Connect(p)
                } else {
                    ConnectStep::Skip
                }
            },
        }
    }
}

/// How a host takes part in the connection with a peer.
#[derive(Clone, Copy, Debug, PartialEq, Eq, Structural)]
pub enum ConnectRole {
    /// No connection: the peer index is past the last host.
    Absent,
    /// Dial the peer at this address and port (the lower index dials).
    Dial(Ipv4, u16),
    /// Listen on this port on all addresses and accept the peer.
    Listen(u16),
}

/// The role of host `id` in the connection with host `with`.
pub open spec fn spec_role(peers: Seq<Ipv4>, id: usize, with: usize, port: u16) -> ConnectRole {
    if with >= peers.len() {
        ConnectRole::Absent
    } else if id < with {
        ConnectRole::Dial(peers[with as int], port)
    } else {
        ConnectRole::Listen(port)
    }
}

/// The default TCP port of pairwise connections.
pub const DEFAULT_PORT: u16 = 13337;

/// The plan of a TCP connection between this host and one peer, over which
/// queue pair endpoints are exchanged.
pub struct Connecter<'a> {
    cluster: &'a Cluster,
    with: usize,
    port: u16,
    role: ConnectRole,
}

impl<'a> Connecter<'a> {
    /// The cluster.
    pub closed spec fn spec_cluster(&self) -> Cluster {
        *self.cluster
    }

    /// The peer index.
    pub closed spec fn spec_with(&self) -> usize {
        self.with
    }

    /// The TCP port.
    pub closed spec fn spec_port(&self) -> u16 {
        self.port
    }

    /// The role of this host.
    pub closed spec fn spec_role(&self) -> ConnectRole {
        self.role
    }

    /// Plan the connection with host `with` on the given port; `with` must
    /// not be this host.
    pub fn new_on_port(cluster: &'a Cluster, with: usize, port: u16) -> (c: Connecter<'a>)
        requires
            with < cluster.spec_peers().len() ==> cluster.spec_id() != with,
        ensures
            c.spec_cluster() == *cluster,
            c.spec_with() == with,
            c.spec_port() == port,
            c.spec_role() == spec_role(cluster.spec_peers(), cluster.spec_id(), with, port),
    {
        let role = if with >= cluster.size() {
            ConnectRole::Absent
        } else if cluster.id() < with {
            ConnectRole::Dial(cluster.peers()[with], port)
        } else {
            ConnectRole::Listen(port)
        };
        Connecter { cluster, with, port, role }
    }

    /// Plan the connection with host `with` on the default port.
    pub fn new(cluster: &'a Cluster, with: usize) -> (c: Connecter<'a>)
        requires
            with < cluster.spec_peers().len() ==> cluster.spec_id() != with,
        ensures
            c.spec_cluster() == *cluster,
            c.spec_with() == with,
            c.spec_port() == DEFAULT_PORT,
            c.spec_role() == spec_role(cluster.spec_peers(), cluster.spec_id(), with, DEFAULT_PORT),
    {
        Connecter::new_on_port(cluster, with, DEFAULT_PORT)
    }

    /// The role of this host in the connection.
    pub fn role(&self) -> (r: ConnectRole)
        ensures
            r == self.spec_role(),
    {
        self.role
    }

    /// Whether this host receives the peer's endpoints before it sends its
    /// own: the host with the lower index does.
    pub fn receives_first(&self) -> (r: bool)
        ensures
            r == (self.spec_cluster().spec_id() < self.spec_with()),
    {
        self.cluster.id() < self.with
    }
}

/// Law: in the schedule of rounds `1..n` (`n` a power of two not below the
/// number of hosts), a host meets every other host, in exactly one round.
pub proof fn lemma_schedule_meets_every_peer(id: usize, size: usize, n: usize, p: usize)
    requires
        id < size <= n,
        spec_is_pow2(n),
        p < size,
        p != id,
    ensures
        1 <= p ^ id < n,
        spec_round_peer(id, p ^ id) == p,
        forall|r: usize| #[trigger] spec_round_peer(id, r) == p ==> r == p ^ id,
{
    assert((p ^ id) ^ id == p) by (bit_vector);
    assert(p != id ==> p ^ id != 0) by (bit_vector);
    assert(n != 0 && n & ((n - 1) as usize) == 0 && p < n && id < n ==> (p ^ id) < n)
        by (bit_vector);
    assert forall|r: usize| #[trigger] spec_round_peer(id, r) == p implies r == p ^ id by {
        assert(r ^ id == p ==> r == p ^ id) by (bit_vector);
    }
}

/// What the hosts met in rounds `from..n` are: each comes from one of those
/// rounds and is a host of the cluster; each round whose peer is a host of
/// the cluster contributes it; none comes twice.
proof fn lemma_schedule_peers_facts(id: usize, size: int, from: usize, n: usize)
    ensures
        forall|i: int|
            0 <= i < spec_schedule_peers(id, size, from, n).len() ==> {
                let x = #[trigger] spec_schedule_peers(id, size, from, n)[i];
                &&& x < size
                &&& exists|r: usize| from <= r < n && spec_round_peer(id, r) == x
            },
        forall|r: usize|
            from <= r < n && spec_round_peer(id, r) < size ==> spec_schedule_peers(
                id,
                size,
                from,
                n,
            ).contains(#[trigger] spec_round_peer(id, r)),
        spec_schedule_peers(id, size, from, n).no_duplicates(),
    decreases n - from,
{
    let s = spec_schedule_peers(id, size, from, n);
    if from < n {
        let next = (from + 1) as usize;
        let rest = spec_schedule_peers(id, size, next, n);
        lemma_schedule_peers_facts(id, size, next, n);
        let p = spec_round_peer(id, from);
        assert forall|r: usize|
            from <= r < n && spec_round_peer(id, r) < size implies s.contains(
            #[trigger] spec_round_peer(id, r),
        ) by {
            if r == from {
                assert(s[0] == p);
            } else {
                let k = choose|k: int| 0 <= k < rest.len() && rest[k] == spec_round_peer(id, r);
                if p < size {
                    assert(s[k + 1] == rest[k]);
                } else {
                    assert(s[k] == rest[k]);
                }
            }
        }
        if p < size {
            assert forall|i: int| 0 <= i < s.len() implies ({
                let x = #[trigger] s[i];
                &&& x < size
                &&& exists|r: usize| from <= r < n && spec_round_peer(id, r) == x
            }) by {
                if i > 0 {
                    assert(s[i] == rest[i - 1]);
                }
            }
            assert(!rest.contains(p)) by {
                if rest.contains(p) {
                    let k = choose|k: int| 0 <= k < rest.len() && rest[k] == p;
                    let r = choose|r: usize| next <= r < n && spec_round_peer(id, r) == rest[k];
                    assert(r ^ id == from ^ id ==> r == from) by (bit_vector);
                }
            }
            assert forall|i: int, j: int| 0 <= i < s.len() && 0 <= j < s.len() && i != j implies s[i]
                != s[j] by {
                if i > 0 && j > 0 {
                    assert(s[i] == rest[i - 1] && s[j] == rest[j - 1]);
                } else if i == 0 {
                    assert(s[j] == rest[j - 1]);
                } else {
                    assert(s[i] == rest[i - 1]);
                }
            }
        }
    }
}

/// Law: over the rounds `1..n` of the schedule (`n` a power of two not
/// below the number of hosts `size`), a host connects to every other host,
/// to each exactly once, and never to itself.
pub proof fn lemma_schedule_connects_each_peer_once(id: usize, size: usize, n: usize)
    requires
        id < size <= n,
        spec_is_pow2(n),
    ensures
        spec_schedule_peers(id, size as int, 1, n).no_duplicates(),
        forall|i: int|
            0 <= i < spec_schedule_peers(id, size as int, 1, n).len() ==> #[trigger] spec_schedule_peers(
                id,
                size as int,
                1,
                n,
            )[i] < size && spec_schedule_peers(id, size as int, 1, n)[i] != id,
        forall|p: usize|
            p < size && p != id ==> #[trigger] spec_schedule_peers(id, size as int, 1, n).contains(p),
{
    let s = spec_schedule_peers(id, size as int, 1, n);
    lemma_schedule_peers_facts(id, size as int, 1, n);
    assert forall|i: int| 0 <= i < s.len() implies #[trigger] s[i] < size && s[i] != id by {
        let r = choose|r: usize| 1 <= r < n && spec_round_peer(id, r) == s[i];
        lemma_schedule_never_self(id, r);
    }
    assert forall|p: usize| p < size && p != id implies #[trigger] s.contains(p) by {
        lemma_schedule_meets_every_peer(id, size, n, p);
        assert(s.contains(spec_round_peer(id, p ^ id)));
    }
}

/// Law: no host meets itself in a round of the schedule.
pub proof fn lemma_schedule_never_self(id: usize, round: usize)
    requires
        1 <= round,
    ensures
        spec_round_peer(id, round) != id,
{
    assert(round != 0 ==> round ^ id != id) by (bit_vector);
}

/// Law: the schedule pairs hosts up: in each round, the host that a host
/// meets meets it back.
pub proof fn lemma_schedule_symmetric(id: usize, round: usize)
    ensures
        spec_round_peer(spec_round_peer(id, round), round) == id,
{
    assert(round ^ (round ^ id) == id) by (bit_vector);
}

/// Law: of two distinct hosts, exactly one dials and the other listens, and
/// exactly one of them receives first.
pub proof fn lemma_roles_complementary(peers: Seq<Ipv4>, a: usize, b: usize, port: u16)
    requires
        a < peers.len(),
        b < peers.len(),
        a != b,
    ensures
        spec_role(peers, a, b, port) is Dial <==> spec_role(peers, b, a, port) is Listen,
        spec_role(peers, a, b, port) is Listen <==> spec_role(peers, b, a, port) is Dial,
        (a < b) != (b < a),
{
}

} // verus!
