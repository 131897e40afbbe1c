//! The state behind a virtual machine: its life cycle, its configuration and
//! the worker process that runs it.
use std::collections::HashSet;

use vstd::prelude::*;

use crate::config::device::network::{
    law_mac_text_round_trip, mac_of, mac_text, MacAddress, VirtioNetView,
};
use crate::config::device::{devices_view, Device, DeviceView};
use crate::config::platform::{Platform, PlatformView};
use crate::config::vm::{clone_bytes, opt_bytes, VmConfig, VmConfigView};
use crate::error::{outcome, Error, ErrorView};
use crate::text::texts;
use crate::vm::state::VmState;

verus! {

broadcast use vstd::std_specs::hash::group_hash_axioms;

/// Something that can be done to a virtual machine.
#[derive(Debug, Clone, Copy, PartialEq, Eq, Structural)]
pub enum Operation {
    Start,
    Pause,
    Resume,
    Stop,
    RequestStop,
    SaveState,
    RestoreState,
}

impl Operation {
    /// The name of the operation.
    pub open spec fn label(self) -> Seq<char> {
        match self {
            Operation::Start => "start"@,
            Operation::Pause => "pause"@,
            Operation::Resume => "resume"@,
            Operation::Stop => "stop"@,
            Operation::RequestStop => "request_stop"@,
            Operation::SaveState => "save_state"@,
            Operation::RestoreState => "restore_state"@,
        }
    }

    /// The name of the operation.
    pub fn name(&self) -> (r: &'static str)
        ensures
            r@ == self.label(),
    {
        match self {
            Operation::Start => "start",
            Operation::Pause => "pause",
            Operation::Resume => "resume",
            Operation::Stop => "stop",
            Operation::RequestStop => "request_stop",
            Operation::SaveState => "save_state",
            Operation::RestoreState => "restore_state",
        }
    }

    /// The state while the operation is under way. A request to the guest to
    /// shut down changes no state by itself.
    pub open spec fn under_way(self) -> Option<VmState> {
        match self {
            Operation::Start => Some(VmState::Starting),
            Operation::Pause => Some(VmState::Pausing),
            Operation::Resume => Some(VmState::Resuming),
            Operation::Stop => Some(VmState::Stopping),
            Operation::RequestStop => None,
            Operation::SaveState => Some(VmState::Saving),
            Operation::RestoreState => Some(VmState::Restoring),
        }
    }

    /// The state after the operation, where it has one of its own.
    pub open spec fn after(self, ok: bool) -> Option<VmState> {
        match self {
            Operation::Start | Operation::Resume => Some(
                if ok {
                    VmState::Running
                } else {
                    VmState::Error
                },
            ),
            Operation::Pause | Operation::SaveState => Some(
                if ok {
                    VmState::Paused
                } else {
                    VmState::Error
                },
            ),
            Operation::Stop => Some(
                if ok {
                    VmState::Stopped
                } else {
                    VmState::Error
                },
            ),
            Operation::RequestStop => None,
            Operation::RestoreState => Some(
                if ok {
                    VmState::Paused
                } else {
                    VmState::Stopped
                },
            ),
        }
    }

    /// The state while the operation is under way.
    pub fn state_under_way(&self) -> (r: Option<VmState>)
        ensures
            r == self.under_way(),
    {
        match self {
            Operation::Start => Some(VmState::Starting),
            Operation::Pause => Some(VmState::Pausing),
            Operation::Resume => Some(VmState::Resuming),
            Operation::Stop => Some(VmState::Stopping),
            Operation::RequestStop => None,
            Operation::SaveState => Some(VmState::Saving),
            Operation::RestoreState => Some(VmState::Restoring),
        }
    }

    /// The state after the operation.
    pub fn state_after(&self, ok: bool) -> (r: Option<VmState>)
        ensures
            r == self.after(ok),
    {
        match self {
            Operation::Start | Operation::Resume => Some(
                if ok {
                    VmState::Running
                } else {
                    VmState::Error
                },
            ),
            Operation::Pause | Operation::SaveState => Some(
                if ok {
                    VmState::Paused
                } else {
                    VmState::Error
                },
            ),
            Operation::Stop => Some(
                if ok {
                    VmState::Stopped
                } else {
                    VmState::Error
                },
            ),
            Operation::RequestStop => None,
            Operation::RestoreState => Some(
                if ok {
                    VmState::Paused
                } else {
                    VmState::Stopped
                },
            ),
        }
    }
}

/// What tells a worker process apart: its number and the time of its start,
/// because numbers are used again.
#[derive(Debug, Clone, Copy, PartialEq, Eq, Structural)]
pub struct WorkerIdentity {
    pub pid: i32,
    pub start_abstime: u64,
}

/// The workers that belong to some virtual machine of this process.
#[derive(Debug)]
pub struct ClaimedWorkers {
    pids: HashSet<i32>,
}

impl View for ClaimedWorkers {
    type V = Set<i32>;

    closed spec fn view(&self) -> Set<i32> {
        self.pids@
    }
}

impl ClaimedWorkers {
    /// No worker is claimed.
    pub fn new() -> (r: Self)
        ensures
            r@ == Set::<i32>::empty(),
    {
        ClaimedWorkers { pids: HashSet::new() }
    }

    /// The claimed workers.
    pub fn pids(&self) -> (r: &HashSet<i32>)
        ensures
            r@ == self@,
    {
        &self.pids
    }

    /// Claims a worker; `false` where it is claimed already.
    pub fn claim(&mut self, pid: i32) -> (r: bool)
        ensures
            r == !old(self)@.contains(pid),
            final(self)@ == old(self)@.insert(pid),
    {
        let fresh = !self.pids.contains(&pid);
        self.pids.insert(pid);
        fresh
    }

    /// Gives a worker back.
    pub fn release(&mut self, pid: i32)
        ensures
            final(self)@ == old(self)@.remove(pid),
    {
        self.pids.remove(&pid);
        assert(self@ =~= old(self)@.remove(pid));
    }
}

/// What to do while looking for the worker of a VM that has just started.
#[derive(Debug, Clone, Copy, PartialEq, Eq, Structural)]
pub enum SearchStep {
    /// The worker was found.
    Take,
    /// Wait this many milliseconds and look again.
    Wait { millis: u64 },
    /// Stop looking.
    GiveUp,
}

/// How often the worker is looked for.
pub const SEARCH_ATTEMPTS: u32 = 10;

/// The search for a worker. It is launched on its own time, so it may not be
/// there yet when the start completes.
#[derive(Debug, Clone, Copy, PartialEq, Eq, Structural)]
pub struct WorkerSearch {
    pub attempt: u32,
}

impl WorkerSearch {
    /// A search that has not looked yet.
    pub fn new() -> (r: Self)
        ensures
            r.attempt == 0,
    {
        WorkerSearch { attempt: 0 }
    }

    /// Takes whether the worker was there. There are ten looks in all, with
    /// 20 milliseconds between two of them.
    pub fn looked(&mut self, found: bool) -> (r: SearchStep)
        requires
            old(self).attempt < SEARCH_ATTEMPTS,
        ensures
            final(self).attempt == old(self).attempt + 1,
            r == if found {
                SearchStep::Take
            } else if final(self).attempt < SEARCH_ATTEMPTS {
                SearchStep::Wait { millis: 20 }
            } else {
                SearchStep::GiveUp
            },
    {
        self.attempt = self.attempt + 1;
        if found {
            SearchStep::Take
        } else if self.attempt < SEARCH_ATTEMPTS {
            SearchStep::Wait { millis: 20 }
        } else {
            SearchStep::GiveUp
        }
    }
}

/// What the framework tells about a running VM on its own accord.
#[derive(Debug, Clone, Copy, PartialEq, Eq, Structural)]
pub enum DelegateEvent {
    /// The guest has shut down.
    GuestStopped,
    /// The VM stopped because of an error.
    Error,
    /// A network attachment was disconnected.
    NetworkDisconnected,
}

/// The number of network devices before position `i`.
pub open spec fn net_ordinal(devices: Seq<DeviceView>, i: int) -> nat
    decreases i,
{
    if i <= 0 {
        0
    } else if devices[i - 1] is VirtioNet {
        net_ordinal(devices, i - 1) + 1
    } else {
        net_ordinal(devices, i - 1)
    }
}

/// A device with the MAC address that the framework gave it, where it had
/// none: `macs` are the texts of the addresses of the network devices, in
/// order.
pub open spec fn resolved_device(
    device: DeviceView,
    ordinal: nat,
    macs: Seq<Seq<char>>,
) -> DeviceView {
    match device {
        DeviceView::VirtioNet(net) => if net.mac_address is None && ordinal < macs.len() {
            match mac_of(macs[ordinal as int]) {
                Some(mac) => DeviceView::VirtioNet(
                    VirtioNetView { mac_address: Some(mac), ..net },
                ),
                None => device,
            }
        } else {
            device
        },
        _ => device,
    }
}

/// The devices with what the framework made up filled in.
pub open spec fn resolved_devices(devices: Seq<DeviceView>, macs: Seq<Seq<char>>) -> Seq<
    DeviceView,
> {
    Seq::new(
        devices.len(),
        |i: int| resolved_device(devices[i], net_ordinal(devices, i), macs),
    )
}

/// A configuration with everything that the framework made up filled in. Only
/// the Generic platform has a machine identifier of its own.
pub open spec fn resolved(
    config: VmConfigView,
    macs: Seq<Seq<char>>,
    identifier: Option<Seq<u8>>,
) -> VmConfigView {
    VmConfigView {
        devices: resolved_devices(config.devices, macs),
        machine_identifier: match config.machine_identifier {
            Some(id) => Some(id),
            None => if config.platform is Generic {
                identifier
            } else {
                None
            },
        },
        ..config
    }
}

/// The configuration with everything that the framework made up filled in:
/// the MAC addresses of its network devices, in order, and the machine
/// identifier of a Generic platform.
pub fn resolve_snapshot(
    config: &VmConfig,
    macs: &Vec<String>,
    identifier: &Option<Vec<u8>>,
) -> (r: VmConfig)
    ensures
        r@ == resolved(config@, texts(macs@), opt_bytes(*identifier)),
{
    let source = config.devices();
    let ghost from = devices_view(source@);
    let ghost names = texts(macs@);
    let mut devices: Vec<Device> = Vec::new();
    let mut ordinal: usize = 0;
    let mut i: usize = 0;
    while i < source.len()
        invariant
            i <= source@.len(),
            from == devices_view(source@),
            names == texts(macs@),
            ordinal == net_ordinal(from, i as int),
            ordinal <= i,
            devices_view(devices@) =~= resolved_devices(from, names).take(i as int),
        decreases source@.len() - i,
    {
        let ghost before = devices_view(devices@);
        let device = source[i].clone();
        assert(from[i as int] == device@);
        let device = match device {
            Device::VirtioNet(net) => {
                let mut net = net;
                if net.mac_address.is_none() && ordinal < macs.len() {
                    assert(names[ordinal as int] == macs@[ordinal as int]@);
                    if let Some(mac) = MacAddress::parse(macs[ordinal].as_str()) {
                        net.mac_address = Some(mac);
                    }
                }
                ordinal += 1;
                Device::VirtioNet(net)
            },
            other => other,
        };
        assert(device@ == resolved_devices(from, names)[i as int]);
        devices.push(device);
        assert(devices_view(devices@) =~= before.push(device@));
        i += 1;
    }
    assert(devices_view(devices@) =~= resolved_devices(from, names));
    let machine_identifier = match config.machine_identifier() {
        Some(id) => Some(clone_bytes(id)),
        None => match (config.platform(), identifier) {
            (Platform::Generic, Some(id)) => Some(clone_bytes(id)),
            _ => None,
        },
    };
    let snapshot = VmConfig::from_parts(
        config.cpus(),
        config.memory_mib(),
        config.bootloader().clone(),
        config.platform().clone(),
        devices,
        config.nested(),
        machine_identifier,
    );
    snapshot.unwrap()
}

/// What was set explicitly is in the snapshot as it was set.
pub proof fn law_snapshot_keeps_what_was_set(
    config: VmConfigView,
    macs: Seq<Seq<char>>,
    identifier: Option<Seq<u8>>,
)
    ensures
        ({
            let s = resolved(config, macs, identifier);
            &&& s.cpus == config.cpus && s.memory_mib == config.memory_mib
            &&& s.bootloader == config.bootloader && s.platform == config.platform
            &&& s.nested == config.nested
            &&& config.machine_identifier is Some || !(config.platform is Generic)
                ==> s.machine_identifier == config.machine_identifier
            &&& s.devices.len() == config.devices.len()
            &&& forall|i: int|
                0 <= i < config.devices.len() && !(config.devices[i] matches DeviceView::VirtioNet(
                    net,
                ) && net.mac_address is None) ==> #[trigger] s.devices[i] == config.devices[i]
        }),
{
}

/// Whether nothing is left for the framework to make up.
pub open spec fn is_resolved(config: VmConfigView) -> bool {
    &&& config.platform is Generic ==> config.machine_identifier is Some
    &&& forall|i: int|
        0 <= i < config.devices.len() ==> ((#[trigger] config.devices[i]) matches
            DeviceView::VirtioNet(net) ==> net.mac_address is Some)
}

/// A VM that is built from a complete snapshot has exactly that identity,
/// whatever the framework would have made up: a save file can be restored
/// into it.
pub proof fn law_complete_snapshots_are_reproduced(
    config: VmConfigView,
    macs: Seq<Seq<char>>,
    identifier: Option<Seq<u8>>,
)
    requires
        is_resolved(config),
    ensures
        resolved(config, macs, identifier) == config,
{
    assert(resolved_devices(config.devices, macs) =~= config.devices);
}

/// A snapshot is complete where the framework reported a readable address for
/// every network device, and an identifier for a Generic platform.
pub proof fn law_snapshots_are_complete(
    config: VmConfigView,
    macs: Seq<Seq<char>>,
    identifier: Option<Seq<u8>>,
)
    requires
        config.platform is Generic ==> identifier is Some,
        macs.len() >= net_ordinal(config.devices, config.devices.len() as int),
        forall|i: int| 0 <= i < macs.len() ==> mac_of(#[trigger] macs[i]) is Some,
    ensures
        is_resolved(resolved(config, macs, identifier)),
{
    let s = resolved(config, macs, identifier);
    assert forall|i: int| 0 <= i < s.devices.len() implies ((#[trigger] s.devices[i]) matches
        DeviceView::VirtioNet(net) ==> net.mac_address is Some) by {
        if config.devices[i] is VirtioNet {
            lemma_ordinal_grows(config.devices, i + 1, config.devices.len() as int);
            assert(net_ordinal(config.devices, i) < macs.len());
        }
    }
}

proof fn lemma_ordinal_grows(devices: Seq<DeviceView>, i: int, j: int)
    requires
        0 <= i <= j,
    ensures
        net_ordinal(devices, i) <= net_ordinal(devices, j),
    decreases j,
{
    if i < j {
        lemma_ordinal_grows(devices, i, j - 1);
    }
}

/// The state behind one virtual machine.
#[derive(Debug)]
pub struct InnerMachine {
    state: VmState,
    config: VmConfig,
    snapshot: VmConfig,
    worker: Option<WorkerIdentity>,
}

/// An [`InnerMachine`] over views.
pub struct InnerMachineView {
    pub state: VmState,
    pub config: VmConfigView,
    pub snapshot: VmConfigView,
    pub worker: Option<WorkerIdentity>,
}

impl View for InnerMachine {
    type V = InnerMachineView;

    closed spec fn view(&self) -> InnerMachineView {
        InnerMachineView {
            state: self.state,
            config: self.config@,
            snapshot: self.snapshot@,
            worker: self.worker,
        }
    }
}

/// The state once an operation is under way.
pub open spec fn dispatched(m: InnerMachineView, op: Operation) -> InnerMachineView {
    match op.under_way() {
        Some(state) => InnerMachineView { state, ..m },
        None => m,
    }
}

/// The state after a worker process was looked for: it is taken over unless
/// it belongs to another VM.
pub open spec fn populated(
    m: InnerMachineView,
    found: Option<WorkerIdentity>,
    claimed: Set<i32>,
) -> (InnerMachineView, Set<i32>) {
    match found {
        Some(w) => if claimed.contains(w.pid) {
            (m, claimed)
        } else {
            (InnerMachineView { worker: Some(w), ..m }, claimed.insert(w.pid))
        },
        None => (m, claimed),
    }
}

/// The state after the worker process was given up.
pub open spec fn cleared(m: InnerMachineView, claimed: Set<i32>) -> (
    InnerMachineView,
    Set<i32>,
) {
    match m.worker {
        Some(w) => (InnerMachineView { worker: None, ..m }, claimed.remove(w.pid)),
        None => (m, claimed),
    }
}

/// The state after an operation has ended: `found` is the worker process that
/// was found after a start or a restore.
pub open spec fn completed(
    m: InnerMachineView,
    op: Operation,
    ok: bool,
    found: Option<WorkerIdentity>,
    claimed: Set<i32>,
) -> (InnerMachineView, Set<i32>) {
    let (n, c) = if !ok {
        (m, claimed)
    } else {
        match op {
            Operation::Start | Operation::RestoreState => populated(m, found, claimed),
            Operation::Stop => cleared(m, claimed),
            _ => (m, claimed),
        }
    };
    match op.after(ok) {
        Some(state) => (InnerMachineView { state, ..n }, c),
        None => (n, c),
    }
}

/// The state after an event of the framework.
pub open spec fn notified(m: InnerMachineView, event: DelegateEvent, claimed: Set<i32>) -> (
    InnerMachineView,
    Set<i32>,
) {
    match event {
        DelegateEvent::GuestStopped => cleared(
            InnerMachineView { state: VmState::Stopped, ..m },
            claimed,
        ),
        DelegateEvent::Error => cleared(
            InnerMachineView { state: VmState::Error, ..m },
            claimed,
        ),
        DelegateEvent::NetworkDisconnected => (m, claimed),
    }
}

impl InnerMachine {
    /// A machine that is stopped. `macs` and `identifier` are what the
    /// framework made up for it.
    pub fn new(config: VmConfig, macs: &Vec<String>, identifier: &Option<Vec<u8>>) -> (r: Self)
        ensures
            r@ == (InnerMachineView {
                state: VmState::Stopped,
                config: config@,
                snapshot: resolved(config@, texts(macs@), opt_bytes(*identifier)),
                worker: None,
            }),
    {
        let snapshot = resolve_snapshot(&config, macs, identifier);
        InnerMachine { state: VmState::Stopped, config, snapshot, worker: None }
    }

    /// The current state.
    pub fn state(&self) -> (r: VmState)
        ensures
            r == self@.state,
    {
        self.state
    }

    /// The configuration as it was given.
    pub fn config(&self) -> (r: &VmConfig)
        ensures
            r@ == self@.config,
    {
        &self.config
    }

    /// The configuration with everything filled in.
    pub fn snapshot(&self) -> (r: &VmConfig)
        ensures
            r@ == self@.snapshot,
    {
        &self.snapshot
    }

    /// The worker process, where one is known.
    pub fn worker(&self) -> (r: Option<WorkerIdentity>)
        ensures
            r == self@.worker,
    {
        self.worker
    }

    /// Marks an operation as under way, whatever the current state.
    pub fn dispatch(&mut self, op: Operation)
        ensures
            final(self)@ == dispatched(old(self)@, op),
    {
        if let Some(state) = op.state_under_way() {
            self.state = state;
        }
    }

    fn populate_worker_on_success(
        &mut self,
        found: Option<WorkerIdentity>,
        claimed: &mut ClaimedWorkers,
    )
        ensures
            (final(self)@, final(claimed)@) == populated(old(self)@, found, old(claimed)@),
    {
        if let Some(w) = found {
            if claimed.claim(w.pid) {
                self.worker = Some(w);
            } else {
                assert(claimed@ =~= old(claimed)@);
            }
        }
    }

    fn clear_worker(&mut self, claimed: &mut ClaimedWorkers)
        ensures
            (final(self)@, final(claimed)@) == cleared(old(self)@, old(claimed)@),
    {
        if let Some(w) = self.worker {
            self.worker = None;
            claimed.release(w.pid);
        }
    }

    /// Takes how an operation ended. `found` is the worker process that was
    /// found after a start or a restore.
    pub fn complete(
        &mut self,
        op: Operation,
        ok: bool,
        found: Option<WorkerIdentity>,
        claimed: &mut ClaimedWorkers,
    )
        ensures
            (final(self)@, final(claimed)@) == completed(
                old(self)@,
                op,
                ok,
                found,
                old(claimed)@,
            ),
    {
        if ok {
            match op {
                Operation::Start => self.populate_worker_on_success(found, claimed),
                Operation::RestoreState => self.populate_worker_on_success(found, claimed),
                Operation::Stop => self.clear_worker(claimed),
                _ => {},
            }
        }
        if let Some(state) = op.state_after(ok) {
            self.state = state;
        }
    }

    /// Takes an event of the framework.
    pub fn notify(&mut self, event: DelegateEvent, claimed: &mut ClaimedWorkers)
        ensures
            (final(self)@, final(claimed)@) == notified(old(self)@, event, old(claimed)@),
    {
        match event {
            DelegateEvent::GuestStopped => {
                self.state = VmState::Stopped;
                self.clear_worker(claimed);
            },
            DelegateEvent::Error => {
                self.state = VmState::Error;
                self.clear_worker(claimed);
            },
            DelegateEvent::NetworkDisconnected => {},
        }
    }
}

/// What an operation returns: the reply of the framework, or an error where
/// it went away without one.
pub open spec fn reply_outcome(reply: Option<Result<(), Error>>) -> Result<(), ErrorView> {
    match reply {
        Some(result) => outcome(result),
        None => Err(ErrorView::DispatchError("channel closed"@)),
    }
}

/// An operation succeeds exactly where the framework says so, and an error of
/// the framework is handed on as it is.
pub proof fn law_replies_are_handed_on(reply: Option<Result<(), Error>>)
    ensures
        reply_outcome(reply) is Ok <==> (reply matches Some(result) && result is Ok),
        reply matches Some(Err(e)) ==> reply_outcome(reply) == Err::<(), ErrorView>(e@),
        reply is None ==> (reply_outcome(reply) matches Err(e) && e is DispatchError),
{
}

/// What an operation returns: the reply of the framework, or an error where
/// it went away without one.
pub fn operation_reply(reply: Option<Result<(), Error>>) -> (r: Result<(), Error>)
    ensures
        outcome(r) == reply_outcome(reply),
{
    match reply {
        Some(result) => result,
        None => Err(Error::DispatchError("channel closed".to_owned())),
    }
}

/// The worker process stays the same while a VM is paused, resumed or saved,
/// however that ends.
pub proof fn law_worker_is_stable(
    m: InnerMachineView,
    op: Operation,
    ok: bool,
    found: Option<WorkerIdentity>,
    claimed: Set<i32>,
)
    requires
        op == Operation::Pause || op == Operation::Resume || op == Operation::SaveState || op
            == Operation::RequestStop,
    ensures
        dispatched(m, op).worker == m.worker,
        completed(dispatched(m, op), op, ok, found, claimed).0.worker == m.worker,
        completed(dispatched(m, op), op, ok, found, claimed).1 == claimed,
{
}

/// A stopped VM has no worker process, and the one it had can be claimed
/// again.
pub proof fn law_no_worker_after_stop(m: InnerMachineView, claimed: Set<i32>)
    ensures
        ({
            let (n, c) = completed(m, Operation::Stop, true, None, claimed);
            &&& n.state == VmState::Stopped && n.worker is None
            &&& m.worker matches Some(w) ==> !c.contains(w.pid)
        }),
        ({
            let (n, c) = notified(m, DelegateEvent::GuestStopped, claimed);
            &&& n.state == VmState::Stopped && n.worker is None
            &&& m.worker matches Some(w) ==> !c.contains(w.pid)
        }),
        ({
            let (n, c) = notified(m, DelegateEvent::Error, claimed);
            &&& n.state == VmState::Error && n.worker is None
            &&& m.worker matches Some(w) ==> !c.contains(w.pid)
        }),
{
}

/// Whether the claims fit the machines: every worker of a machine is claimed,
/// and no two machines share one.
pub open spec fn claims_fit(machines: Seq<InnerMachineView>, claimed: Set<i32>) -> bool {
    &&& forall|i: int|
        0 <= i < machines.len() ==> ((#[trigger] machines[i]).worker matches Some(w)
            ==> claimed.contains(w.pid))
    &&& forall|i: int, j: int|
        0 <= i < j < machines.len() ==> ((#[trigger] machines[i]).worker matches Some(a) ==> ((
        #[trigger] machines[j]).worker matches Some(b) ==> a.pid != b.pid))
}

/// Machines that run at the same time never share a worker process, whatever
/// happens to one of them.
pub proof fn law_workers_are_distinct(
    machines: Seq<InnerMachineView>,
    claimed: Set<i32>,
    k: int,
    op: Operation,
    ok: bool,
    found: Option<WorkerIdentity>,
    event: DelegateEvent,
)
    requires
        0 <= k < machines.len(),
        claims_fit(machines, claimed),
    ensures
        claims_fit(machines.update(k, dispatched(machines[k], op)), claimed),
        ({
            let (n, c) = completed(machines[k], op, ok, found, claimed);
            claims_fit(machines.update(k, n), c)
        }),
        ({
            let (n, c) = notified(machines[k], event, claimed);
            claims_fit(machines.update(k, n), c)
        }),
{
    lemma_one_machine_changes(machines, claimed, k, dispatched(machines[k], op), claimed);
    let (n, c) = completed(machines[k], op, ok, found, claimed);
    lemma_one_machine_changes(machines, claimed, k, n, c);
    let (n, c) = notified(machines[k], event, claimed);
    lemma_one_machine_changes(machines, claimed, k, n, c);
}

/// The claims still fit after one machine kept its worker, gave it up or took
/// over an unclaimed one.
proof fn lemma_one_machine_changes(
    machines: Seq<InnerMachineView>,
    claimed: Set<i32>,
    k: int,
    n: InnerMachineView,
    c: Set<i32>,
)
    requires
        0 <= k < machines.len(),
        claims_fit(machines, claimed),
        ({
            ||| n.worker == machines[k].worker && c == claimed
            ||| n.worker is None && machines[k].worker is Some && c == claimed.remove(
                machines[k].worker->0.pid,
            )
            ||| n.worker is Some && !claimed.contains(n.worker->0.pid) && c == claimed.insert(
                n.worker->0.pid,
            )
        }),
    ensures
        claims_fit(machines.update(k, n), c),
{
    let after = machines.update(k, n);
    assert forall|i: int| 0 <= i < after.len() implies ((#[trigger] after[i]).worker matches Some(
        w,
    ) ==> c.contains(w.pid)) by {
        if i != k {
            assert(after[i] == machines[i]);
            if i < k {
                assert(machines[i].worker is Some && machines[k].worker is Some
                    ==> machines[i].worker->0.pid != machines[k].worker->0.pid);
            } else {
                assert(machines[k].worker is Some && machines[i].worker is Some
                    ==> machines[k].worker->0.pid != machines[i].worker->0.pid);
            }
        }
    }
    assert forall|i: int, j: int| 0 <= i < j < after.len() implies ((#[trigger] after[i]).worker
        matches Some(a) ==> ((#[trigger] after[j]).worker matches Some(b) ==> a.pid != b.pid)) by {
        if i != k {
            assert(after[i] == machines[i]);
        }
        if j != k {
            assert(after[j] == machines[j]);
        }
    }
}

proof fn lemma_ordinal_counts(devices: Seq<DeviceView>, i: int)
    requires
        0 <= i <= devices.len(),
    ensures
        net_ordinal(devices, i) == devices.take(i).filter(|d: DeviceView| d is VirtioNet).len(),
    decreases i,
{
    reveal(Seq::filter);
    if i > 0 {
        lemma_ordinal_counts(devices, i - 1);
        assert(devices.take(i).drop_last() =~= devices.take(i - 1));
    }
}

/// A snapshot differs from the configuration in the addresses that the
/// framework made up and in nothing else. A network device without an address
/// keeps its attachment as it is and gets the address that the framework
/// reports for it: the first report is for the first network device, the
/// second for the second, whether or not they had an address of their own.
pub proof fn law_snapshot_fills_in_addresses_only(
    config: VmConfigView,
    macs: Seq<Seq<char>>,
    identifier: Option<Seq<u8>>,
    i: int,
)
    requires
        0 <= i < config.devices.len(),
    ensures
        resolved(config, macs, identifier).devices.len() == config.devices.len(),
        match config.devices[i] {
            DeviceView::VirtioNet(net) => {
                let k = config.devices.take(i).filter(|d: DeviceView| d is VirtioNet).len();
                &&& resolved(config, macs, identifier).devices[i] matches DeviceView::VirtioNet(
                    after,
                )
                &&& after.attachment == net.attachment
                &&& net.mac_address is Some ==> after.mac_address == net.mac_address
                &&& net.mac_address is None && k < macs.len() ==> after.mac_address == mac_of(
                    macs[k as int],
                )
                &&& net.mac_address is None && k >= macs.len() ==> after.mac_address is None
            },
            other => resolved(config, macs, identifier).devices[i] == other,
        },
{
    lemma_ordinal_counts(config.devices, i);
}

/// The address that the framework reports for a network device is the one in
/// the snapshot, whatever the address.
pub proof fn law_snapshot_has_the_reported_address(
    config: VmConfigView,
    macs: Seq<Seq<char>>,
    identifier: Option<Seq<u8>>,
    i: int,
    mac: Seq<u8>,
)
    requires
        0 <= i < config.devices.len(),
        mac.len() == 6,
        config.devices[i] matches DeviceView::VirtioNet(net) && net.mac_address is None,
        config.devices.take(i).filter(|d: DeviceView| d is VirtioNet).len() < macs.len(),
        macs[config.devices.take(i).filter(|d: DeviceView| d is VirtioNet).len() as int]
            == mac_text(mac),
    ensures
        resolved(config, macs, identifier).devices[i] matches DeviceView::VirtioNet(after)
            && after.mac_address == Some(mac),
{
    law_snapshot_fills_in_addresses_only(config, macs, identifier, i);
    law_mac_text_round_trip(mac);
}

/// The identifier of a snapshot is the configured one; where there is none, a
/// Generic platform has the one that the framework made up, and a Mac has
/// none. Everything but the devices and the identifier is as it was.
pub proof fn law_snapshot_identity(
    config: VmConfigView,
    macs: Seq<Seq<char>>,
    identifier: Option<Seq<u8>>,
)
    ensures
        ({
            let s = resolved(config, macs, identifier);
            &&& config.machine_identifier is Some ==> s.machine_identifier
                == config.machine_identifier
            &&& config.machine_identifier is None && config.platform == PlatformView::Generic
                ==> s.machine_identifier == identifier
            &&& config.machine_identifier is None && config.platform != PlatformView::Generic
                ==> s.machine_identifier is None
            &&& s.cpus == config.cpus && s.memory_mib == config.memory_mib
            &&& s.bootloader == config.bootloader && s.platform == config.platform
            &&& s.nested == config.nested
        }),
{
}

/// Each operation has a state of its own while it is under way, and nothing
/// else about the machine changes then. A request to the guest changes
/// nothing at all.
pub proof fn law_operations_under_way(m: InnerMachineView)
    ensures
        dispatched(m, Operation::Start).state == VmState::Starting,
        dispatched(m, Operation::Pause).state == VmState::Pausing,
        dispatched(m, Operation::Resume).state == VmState::Resuming,
        dispatched(m, Operation::Stop).state == VmState::Stopping,
        dispatched(m, Operation::SaveState).state == VmState::Saving,
        dispatched(m, Operation::RestoreState).state == VmState::Restoring,
        dispatched(m, Operation::RequestStop) == m,
        forall|op: Operation|
            #![trigger dispatched(m, op)]
            dispatched(m, op).config == m.config && dispatched(m, op).snapshot == m.snapshot
                && dispatched(m, op).worker == m.worker,
{
}

/// An operation that succeeds leads to the state that it is named for: running
/// after a start and a resumption, paused after a pause, a save and a restore,
/// stopped after a stop.
pub proof fn law_operations_that_succeed(
    m: InnerMachineView,
    found: Option<WorkerIdentity>,
    claimed: Set<i32>,
)
    ensures
        completed(m, Operation::Start, true, found, claimed).0.state == VmState::Running,
        completed(m, Operation::Resume, true, found, claimed).0.state == VmState::Running,
        completed(m, Operation::Pause, true, found, claimed).0.state == VmState::Paused,
        completed(m, Operation::SaveState, true, found, claimed).0.state == VmState::Paused,
        completed(m, Operation::RestoreState, true, found, claimed).0.state == VmState::Paused,
        completed(m, Operation::Stop, true, found, claimed).0.state == VmState::Stopped,
        completed(m, Operation::RequestStop, true, found, claimed).0.state == m.state,
        forall|op: Operation, ok: bool|
            #![trigger completed(m, op, ok, found, claimed)]
            completed(m, op, ok, found, claimed).0.config == m.config && completed(
                m,
                op,
                ok,
                found,
                claimed,
            ).0.snapshot == m.snapshot,
{
}

/// An operation that fails leaves an error behind, but for a restore, after
/// which the machine is stopped as it was, and a request to the guest, which
/// changes nothing. No worker process is taken over or given up.
pub proof fn law_operations_that_fail(
    m: InnerMachineView,
    op: Operation,
    found: Option<WorkerIdentity>,
    claimed: Set<i32>,
)
    ensures
        ({
            let (n, c) = completed(m, op, false, found, claimed);
            &&& n.worker == m.worker && c == claimed
            &&& op == Operation::RequestStop ==> n == m
            &&& op == Operation::RestoreState ==> n.state == VmState::Stopped
            &&& op != Operation::RequestStop && op != Operation::RestoreState ==> n.state
                == VmState::Error
        }),
{
}

/// A start or a restore takes over the worker process that was found, unless
/// it belongs to another machine, and claims that one process. Without one
/// nothing changes but the state.
pub proof fn law_started_machines_take_their_worker(
    m: InnerMachineView,
    op: Operation,
    found: Option<WorkerIdentity>,
    claimed: Set<i32>,
)
    requires
        op == Operation::Start || op == Operation::RestoreState,
    ensures
        ({
            let (n, c) = completed(m, op, true, found, claimed);
            match found {
                Some(w) => if claimed.contains(w.pid) {
                    n.worker == m.worker && c == claimed
                } else {
                    n.worker == Some(w) && forall|p: i32| #[trigger]
                        c.contains(p) <==> claimed.contains(p) || p == w.pid
                },
                None => n.worker == m.worker && c == claimed,
            }
        }),
{
}

/// A machine that stops gives up its own worker process and no other. A
/// network that goes away changes nothing.
pub proof fn law_stopped_machines_give_up_their_worker_only(
    m: InnerMachineView,
    found: Option<WorkerIdentity>,
    claimed: Set<i32>,
    p: i32,
)
    ensures
        completed(m, Operation::Stop, true, found, claimed).0.worker is None,
        completed(m, Operation::Stop, true, found, claimed).1.contains(p) <==> claimed.contains(p)
            && !(m.worker matches Some(w) && w.pid == p),
        notified(m, DelegateEvent::GuestStopped, claimed).1.contains(p) <==> claimed.contains(p)
            && !(m.worker matches Some(w) && w.pid == p),
        notified(m, DelegateEvent::Error, claimed).1.contains(p) <==> claimed.contains(p) && !(
        m.worker matches Some(w) && w.pid == p),
        notified(m, DelegateEvent::GuestStopped, claimed).0.config == m.config,
        notified(m, DelegateEvent::GuestStopped, claimed).0.snapshot == m.snapshot,
        notified(m, DelegateEvent::Error, claimed).0.config == m.config,
        notified(m, DelegateEvent::Error, claimed).0.snapshot == m.snapshot,
        notified(m, DelegateEvent::NetworkDisconnected, claimed) == (m, claimed),
{
}

} // verus!
