//! RDMA device lists and the walk over their active ports.
use vstd::prelude::*;

use crate::verbs::{IBV_PORT_ACTIVE, IBV_PORT_ACTIVE_DEFER};

verus! {

/// An RDMA device: its `ibv_device` handle.
#[derive(Clone, Copy, Debug, PartialEq, Eq, Structural)]
pub struct Device(pub u64);

impl Device {
    /// Get the underlying `ibv_device` handle.
    pub fn as_raw(&self) -> (r: u64)
        ensures
            r == self.0,
    {
        self.0
    }
}

/// A list of available RDMA devices: the handle that
/// `ibv_get_device_list` returned and the number of devices in it.
#[derive(Clone, Copy, Debug, PartialEq, Eq, Structural)]
pub struct DeviceList {
    handle: u64,
    len: usize,
}

impl DeviceList {
    /// The handle of the list.
    pub closed spec fn spec_handle(self) -> u64 {
        self.handle
    }

    /// The number of devices in the list.
    pub closed spec fn spec_len(self) -> usize {
        self.len
    }

    /// Record the device list that `ibv_get_device_list` returned.
    pub fn new(handle: u64, len: usize) -> (l: DeviceList)
        ensures
            l.spec_handle() == handle,
            l.spec_len() == len,
    {
        DeviceList { handle, len }
    }

    /// Get the number of devices in the list.
    pub fn len(&self) -> (r: usize)
        ensures
            r == self.spec_len(),
    {
        self.len
    }

    /// Check if the device list is empty.
    pub fn is_empty(&self) -> (r: bool)
        ensures
            r == (self.spec_len() == 0),
    {
        self.len == 0
    }

    /// Get the handle of the head of the device list.
    pub fn as_raw(&self) -> (r: u64)
        ensures
            r == self.spec_handle(),
    {
        self.handle
    }

    /// Start a walk over all active device-port pairs of the list.
    pub fn iter(&self) -> (it: DevicePortIter)
        ensures
            it == DevicePortIter::spec_new(self.spec_len()),
    {
        DevicePortIter::new(self)
    }
}

/// A device-port pair: an opened device context handle and a port number.
#[derive(Clone, Copy, Debug, PartialEq, Eq, Structural)]
pub struct DevicePort(pub u64, pub u8);

/// What the walk over device-port pairs asks to be done next.
#[derive(Clone, Copy, Debug, PartialEq, Eq, Structural)]
pub enum PortWalkStep {
    /// Close the device context with this handle, then call
    /// [`DevicePortIter::after_close`].
    Close(u64),
    /// Open the device at this index of the list, then call
    /// [`DevicePortIter::after_open`].
    Open(usize),
    /// Query the attributes of the device context with this handle, then
    /// call [`DevicePortIter::after_query_device`].
    QueryDevice(u64),
    /// Query the attributes of this port of the device context with this
    /// handle, then call [`DevicePortIter::after_query_port`].
    QueryPort(u64, u8),
    /// The walk produces this active device-port pair.
    Yield(DevicePort),
    /// The last query failed; the walk produces the error.
    Fail,
    /// The walk is over.
    Finish,
}

/// A walk over a device list that produces all active device-port pairs.
///
/// Each step of the walk is a decision of this type; the device calls that
/// it asks for are made by the caller, who hands back what they returned.
#[derive(Clone, Copy, Debug, PartialEq, Eq, Structural)]
pub struct DevicePortIter {
    /// Number of devices in the list.
    pub list_len: usize,
    /// Index of the current device; -1 before the first.
    pub device_idx: isize,
    /// Handle of the current device context; 0 if none was opened.
    pub device: u64,
    /// Number of ports of the current device.
    pub port_num: u8,
    /// Number of the current port.
    pub port_idx: u8,
}

/// Whether a port state counts as active.
pub open spec fn spec_port_active(state: u32) -> bool {
    state == IBV_PORT_ACTIVE || state == IBV_PORT_ACTIVE_DEFER
}

impl DevicePortIter {
    /// A walk over a list of `len` devices that has not started.
    pub open spec fn spec_new(len: usize) -> DevicePortIter {
        DevicePortIter { list_len: len, device_idx: -1isize, device: 0, port_num: 0, port_idx: 0 }
    }

    /// Move to the next device: the walk is over past the last device, and
    /// asks to open the next device otherwise.
    pub open spec fn spec_advance(self) -> (DevicePortIter, PortWalkStep) {
        let next = DevicePortIter { device_idx: (self.device_idx + 1) as isize, port_idx: 1, ..self };
        if next.device_idx >= self.list_len {
            (next, PortWalkStep::Finish)
        } else {
            (next, PortWalkStep::Open(next.device_idx as usize))
        }
    }

    /// The first step of a call of `next`: where the ports of the current
    /// device are exhausted, close it (if one is open) and move to the next
    /// device; otherwise query the next port.
    pub open spec fn spec_begin(self) -> (DevicePortIter, PortWalkStep) {
        if self.port_idx >= self.port_num {
            if self.device != 0 {
                (self, PortWalkStep::Close(self.device))
            } else {
                self.spec_advance()
            }
        } else {
            let next = DevicePortIter { port_idx: (self.port_idx + 1) as u8, ..self };
            (next, PortWalkStep::QueryPort(next.device, next.port_idx))
        }
    }

    /// Start a walk over the given device list.
    pub fn new(list: &DeviceList) -> (it: DevicePortIter)
        ensures
            it == DevicePortIter::spec_new(list.spec_len()),
    {
        DevicePortIter { list_len: list.len(), device_idx: -1, device: 0, port_num: 0, port_idx: 0 }
    }

    fn advance(&mut self) -> (step: PortWalkStep)
        requires
            old(self).device_idx < isize::MAX,
            -1 <= old(self).device_idx,
        ensures
            (*final(self), step) == old(self).spec_advance(),
    {
        self.device_idx = self.device_idx + 1;
        self.port_idx = 1;
        if self.device_idx >= 0 && (self.device_idx as usize) < self.list_len {
            PortWalkStep::Open(self.device_idx as usize)
        } else {
            PortWalkStep::Finish
        }
    }

    /// The first step of a call of `next` (see [`Self::spec_begin`]).
    pub fn begin(&mut self) -> (step: PortWalkStep)
        requires
            old(self).device_idx < isize::MAX,
            -1 <= old(self).device_idx,
        ensures
            (*final(self), step) == old(self).spec_begin(),
    {
        if self.port_idx >= self.port_num {
            if self.device != 0 {
                PortWalkStep::Close(self.device)
            } else {
                self.advance()
            }
        } else {
            self.port_idx = self.port_idx + 1;
            PortWalkStep::QueryPort(self.device, self.port_idx)
        }
    }

    /// After the current device was closed: move to the next device.
    pub fn after_close(&mut self) -> (step: PortWalkStep)
        requires
            old(self).device_idx < isize::MAX,
            -1 <= old(self).device_idx,
        ensures
            (*final(self), step) == old(self).spec_advance(),
    {
        self.advance()
    }

    /// After the next device was opened (`Some` context handle) or failed to
    /// open (`None`): query its attributes, or produce the error.
    pub fn after_open(&mut self, ctx: Option<u64>) -> (step: PortWalkStep)
        ensures
            match ctx {
                Some(h) => *final(self) == (DevicePortIter { device: h, ..*old(self) }) && step
                    == PortWalkStep::QueryDevice(h),
                None => *final(self) == *old(self) && step == PortWalkStep::Fail,
            },
    {
        match ctx {
            Some(h) => {
                self.device = h;
                PortWalkStep::QueryDevice(h)
            },
            None => PortWalkStep::Fail,
        }
    }

    /// After the device was queried (`Some` number of physical ports) or the
    /// query failed (`None`): query its first port, or produce the error.
    pub fn after_query_device(&mut self, phys_port_cnt: Option<u8>) -> (step: PortWalkStep)
        ensures
            match phys_port_cnt {
                Some(n) => *final(self) == (DevicePortIter { port_num: n, ..*old(self) }) && step
                    == PortWalkStep::QueryPort(old(self).device, old(self).port_idx),
                None => *final(self) == *old(self) && step == PortWalkStep::Fail,
            },
    {
        match phys_port_cnt {
            Some(n) => {
                self.port_num = n;
                PortWalkStep::QueryPort(self.device, self.port_idx)
            },
            None => PortWalkStep::Fail,
        }
    }

    /// After the port was queried (`Some` port state) or the query failed
    /// (`None`): produce the port if it is active, go on to the next port if
    /// it is not, or produce the error.
    pub fn after_query_port(&mut self, state: Option<u32>) -> (step: PortWalkStep)
        requires
            old(self).device_idx < isize::MAX,
            -1 <= old(self).device_idx,
        ensures
            match state {
                Some(s) => if spec_port_active(s) {
                    *final(self) == *old(self) && step == PortWalkStep::Yield(
                        DevicePort(old(self).device, old(self).port_idx),
                    )
                } else {
                    (*final(self), step) == old(self).spec_begin()
                },
                None => *final(self) == *old(self) && step == PortWalkStep::Fail,
            },
    {
        match state {
            Some(s) => {
                if s == IBV_PORT_ACTIVE || s == IBV_PORT_ACTIVE_DEFER {
                    PortWalkStep::Yield(DevicePort(self.device, self.port_idx))
                } else {
                    self.begin()
                }
            },
            None => PortWalkStep::Fail,
        }
    }
}

/// The answer to a step of the walk over a list whose devices open to the
/// context handles `handles` and have ports in the states `states` (every
/// open and query succeeding): the state and the next step that the
/// walk's methods give when handed what those calls return.
pub open spec fn spec_respond(
    it: DevicePortIter,
    step: PortWalkStep,
    handles: Seq<u64>,
    states: Seq<Seq<u32>>,
) -> (DevicePortIter, PortWalkStep) {
    match step {
        PortWalkStep::Close(_) => it.spec_advance(),
        PortWalkStep::Open(i) => (
            DevicePortIter { device: handles[i as int], ..it },
            PortWalkStep::QueryDevice(handles[i as int]),
        ),
        PortWalkStep::QueryDevice(_) => (
            DevicePortIter { port_num: states[it.device_idx as int].len() as u8, ..it },
            PortWalkStep::QueryPort(it.device, it.port_idx),
        ),
        PortWalkStep::QueryPort(_, p) => if spec_port_active(
            states[it.device_idx as int][p - 1],
        ) {
            (it, PortWalkStep::Yield(DevicePort(it.device, it.port_idx)))
        } else {
            it.spec_begin()
        },
        PortWalkStep::Yield(_) => it.spec_begin(),
        _ => (it, step),
    }
}

/// The device-port pairs that the walk produces from a state and a step,
/// in at most `fuel` steps, on the devices of [`spec_respond`].
pub open spec fn spec_walk(
    it: DevicePortIter,
    step: PortWalkStep,
    handles: Seq<u64>,
    states: Seq<Seq<u32>>,
    fuel: nat,
) -> Seq<DevicePort>
    decreases fuel,
{
    if fuel == 0 {
        Seq::empty()
    } else {
        match step {
            PortWalkStep::Finish => Seq::empty(),
            PortWalkStep::Fail => Seq::empty(),
            _ => {
                let next = spec_respond(it, step, handles, states);
                let out = match step {
                    PortWalkStep::Yield(dp) => seq![dp],
                    _ => Seq::empty(),
                };
                out + spec_walk(next.0, next.1, handles, states, (fuel - 1) as nat)
            },
        }
    }
}

/// The active ports of a device with context handle `h` and ports in the
/// states `st`, from port `p` on (ports are numbered from 1).
pub open spec fn spec_active_ports(h: u64, st: Seq<u32>, p: int) -> Seq<DevicePort>
    decreases st.len() + 1 - p,
{
    if p < 1 || p > st.len() {
        Seq::empty()
    } else {
        (if spec_port_active(st[p - 1]) {
            seq![DevicePort(h, p as u8)]
        } else {
            Seq::<DevicePort>::empty()
        }) + spec_active_ports(h, st, p + 1)
    }
}

/// The active device-port pairs of the devices from index `i` on, device by
/// device and port by port.
pub open spec fn spec_active_pairs(handles: Seq<u64>, states: Seq<Seq<u32>>, i: int) -> Seq<
    DevicePort,
>
    decreases states.len() - i,
{
    if i < 0 || i >= states.len() {
        Seq::empty()
    } else {
        spec_active_ports(handles[i], states[i], 1) + spec_active_pairs(handles, states, i + 1)
    }
}

/// The devices that the walk law speaks of: each opens to a context handle
/// (never 0) and has between 1 and 255 ports.
pub open spec fn spec_walk_devices(handles: Seq<u64>, states: Seq<Seq<u32>>) -> bool {
    &&& handles.len() == states.len()
    &&& states.len() < 0x7fff_ffff
    &&& forall|i: int| 0 <= i < states.len() ==> #[trigger] handles[i] != 0
    &&& forall|i: int| 0 <= i < states.len() ==> 1 <= #[trigger] states[i].len() <= 255
}

proof fn lemma_walk_device(
    handles: Seq<u64>,
    states: Seq<Seq<u32>>,
    i: int,
    it: DevicePortIter,
    fuel: nat,
)
    requires
        spec_walk_devices(handles, states),
        0 <= i < states.len(),
        it.list_len == states.len(),
        it.device_idx == i,
        it.port_idx == 1,
        fuel >= 600 * (states.len() - i),
    ensures
        spec_walk(it, PortWalkStep::Open(i as usize), handles, states, fuel) == spec_active_pairs(
            handles,
            states,
            i,
        ),
    decreases states.len() - i, 300int,
{
    let n = states.len();
    let h = handles[i];
    let len = states[i].len();
    let it1 = DevicePortIter { device: h, ..it };
    let it2 = DevicePortIter { port_num: len as u8, ..it1 };
    assert(spec_respond(it, PortWalkStep::Open(i as usize), handles, states) == (
        it1,
        PortWalkStep::QueryDevice(h),
    ));
    assert(spec_respond(it1, PortWalkStep::QueryDevice(h), handles, states) == (
        it2,
        PortWalkStep::QueryPort(h, 1),
    ));
    lemma_walk_ports(handles, states, i, 1, (fuel - 2) as nat);
    assert(it2 == DevicePortIter { list_len: n as usize, device_idx: i as isize, device: h, port_num: len as u8, port_idx: 1 });
    assert(spec_walk(it1, PortWalkStep::QueryDevice(h), handles, states, (fuel - 1) as nat)
        == spec_walk(it2, PortWalkStep::QueryPort(h, 1), handles, states, (fuel - 2) as nat));
    assert(spec_active_pairs(handles, states, i) == spec_active_ports(h, states[i], 1)
        + spec_active_pairs(handles, states, i + 1));
}

proof fn lemma_walk_ports(handles: Seq<u64>, states: Seq<Seq<u32>>, i: int, p: int, fuel: nat)
    requires
        spec_walk_devices(handles, states),
        0 <= i < states.len(),
        1 <= p <= states[i].len(),
        fuel >= 2 * (states[i].len() - p + 1) + 1 + 600 * (states.len() - i - 1),
    ensures
        spec_walk(
            DevicePortIter {
                list_len: states.len() as usize,
                device_idx: i as isize,
                device: handles[i],
                port_num: states[i].len() as u8,
                port_idx: p as u8,
            },
            PortWalkStep::QueryPort(handles[i], p as u8),
            handles,
            states,
            fuel,
        ) == spec_active_ports(handles[i], states[i], p) + spec_active_pairs(handles, states, i + 1),
    decreases states.len() - i, states[i].len() - p + 1,
{
    let n = states.len();
    let h = handles[i];
    let st = states[i];
    let len = st.len();
    let it = DevicePortIter {
        list_len: n as usize,
        device_idx: i as isize,
        device: h,
        port_num: len as u8,
        port_idx: p as u8,
    };
    let active = spec_port_active(st[p - 1]);
    let rest = spec_active_pairs(handles, states, i + 1);
    // What follows the port: the next port, or closing the device.
    let after = it.spec_begin();
    let tail = if p < len {
        spec_active_ports(h, st, p + 1) + rest
    } else {
        rest
    };
    if p < len {
        let next_it = DevicePortIter { port_idx: (p + 1) as u8, ..it };
        assert(after == (next_it, PortWalkStep::QueryPort(h, (p + 1) as u8)));
        lemma_walk_ports(handles, states, i, p + 1, (fuel - 2) as nat);
        lemma_walk_ports(handles, states, i, p + 1, (fuel - 1) as nat);
        assert(spec_walk(after.0, after.1, handles, states, (fuel - 2) as nat) == tail);
        assert(spec_walk(after.0, after.1, handles, states, (fuel - 1) as nat) == tail);
    } else {
        assert(after == (it, PortWalkStep::Close(h)));
        let adv = it.spec_advance();
        assert(spec_respond(it, PortWalkStep::Close(h), handles, states) == adv);
        assert(spec_active_ports(h, st, p + 1) == Seq::<DevicePort>::empty());
        assert(tail == rest);
        if i + 1 < n {
            assert(adv.1 == PortWalkStep::Open((i + 1) as usize));
            lemma_walk_device(handles, states, i + 1, adv.0, (fuel - 3) as nat);
            lemma_walk_device(handles, states, i + 1, adv.0, (fuel - 2) as nat);
            assert(spec_walk(adv.0, adv.1, handles, states, (fuel - 3) as nat) == rest);
            assert(spec_walk(adv.0, adv.1, handles, states, (fuel - 2) as nat) == rest);
        } else {
            assert(adv.1 == PortWalkStep::Finish);
            assert(rest == Seq::<DevicePort>::empty());
            assert(spec_walk(adv.0, adv.1, handles, states, (fuel - 3) as nat) == rest);
            assert(spec_walk(adv.0, adv.1, handles, states, (fuel - 2) as nat) == rest);
        }
        assert(spec_walk(after.0, after.1, handles, states, (fuel - 2) as nat)
            =~= Seq::<DevicePort>::empty() + spec_walk(adv.0, adv.1, handles, states, (fuel - 3) as nat));
        assert(spec_walk(after.0, after.1, handles, states, (fuel - 1) as nat)
            =~= Seq::<DevicePort>::empty() + spec_walk(adv.0, adv.1, handles, states, (fuel - 2) as nat));
        assert(spec_walk(after.0, after.1, handles, states, (fuel - 2) as nat) == tail);
        assert(spec_walk(after.0, after.1, handles, states, (fuel - 1) as nat) == tail);
    }
    if active {
        assert(spec_respond(it, PortWalkStep::QueryPort(h, p as u8), handles, states) == (
            it,
            PortWalkStep::Yield(DevicePort(h, p as u8)),
        ));
        assert(spec_walk(it, PortWalkStep::Yield(DevicePort(h, p as u8)), handles, states, (fuel - 1) as nat)
            == seq![DevicePort(h, p as u8)] + spec_walk(after.0, after.1, handles, states, (fuel - 2) as nat));
        assert(spec_active_ports(h, st, p) == seq![DevicePort(h, p as u8)] + spec_active_ports(h, st, p + 1));
        assert(seq![DevicePort(h, p as u8)] + tail =~= spec_active_ports(h, st, p) + rest);
    } else {
        assert(spec_respond(it, PortWalkStep::QueryPort(h, p as u8), handles, states) == after);
        assert(spec_active_ports(h, st, p) =~= Seq::<DevicePort>::empty() + spec_active_ports(h, st, p + 1));
        assert(tail =~= spec_active_ports(h, st, p) + rest);
    }
}

/// Law: walking a device list with the walk's methods, every open and query
/// succeeding, produces all active device-port pairs, device by device and
/// port by port, and then finishes (for devices of 1 to 255 ports; enough
/// steps being taken: 600 per device).
pub proof fn lemma_walk_yields_active_ports(handles: Seq<u64>, states: Seq<Seq<u32>>, fuel: nat)
    requires
        spec_walk_devices(handles, states),
        fuel >= 600 * states.len() + 1,
    ensures
        ({
            let start = DevicePortIter::spec_new(states.len() as usize).spec_begin();
            spec_walk(start.0, start.1, handles, states, fuel) == spec_active_pairs(handles, states, 0)
        }),
{
    let start = DevicePortIter::spec_new(states.len() as usize).spec_begin();
    if states.len() == 0 {
        assert(start.1 == PortWalkStep::Finish);
    } else {
        assert(start.1 == PortWalkStep::Open(0));
        lemma_walk_device(handles, states, 0, start.0, fuel);
    }
}

} // verus!
