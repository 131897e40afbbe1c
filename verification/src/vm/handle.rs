//! Control of a virtual machine from any thread.
use vstd::prelude::*;

use super::metrics::ResourceUsage;
use super::network_metrics::{NetworkUsage, VmnetInterface};
use super::state::VmState;
use super::vmnet_proxy::{sample_of, NetworkCounters, VmnetProxy};
use crate::config::vm::{VmConfig, VmConfigView};
use crate::error::{outcome, Error, ErrorView};
use crate::sys::config_builder::path_error;
use crate::sys::machine::{
    dispatched, InnerMachine, InnerMachineView, Operation, WorkerIdentity,
};
use crate::time::Timestamp;

verus! {

/// Whether a handle lets an operation through in a state. Saving and
/// restoring are left for the framework to judge.
pub open spec fn admits(state: VmState, op: Operation) -> bool {
    match op {
        Operation::Start => state == VmState::Stopped,
        Operation::Pause => state == VmState::Running,
        Operation::Resume => state == VmState::Paused,
        Operation::Stop => state == VmState::Running || state == VmState::Paused || state
            == VmState::Error,
        Operation::RequestStop => state == VmState::Running,
        Operation::SaveState | Operation::RestoreState => true,
    }
}

/// What comes of asking for an operation: it is under way, or it is refused
/// and nothing has changed.
pub open spec fn requested(m: InnerMachineView, op: Operation) -> (
    InnerMachineView,
    Result<(), ErrorView>,
) {
    if admits(m.state, op) {
        (dispatched(m, op), Ok(()))
    } else {
        (m, Err(ErrorView::InvalidState { current: m.state, operation: op.label() }))
    }
}

/// Whether a file can be named to the framework: its path has to be text.
pub open spec fn file_outcome(path: Option<&str>) -> Result<(), ErrorView> {
    match path {
        Some(_) => Ok(()),
        None => Err(ErrorView::InvalidConfiguration("path contains invalid UTF-8"@)),
    }
}

/// What comes of asking for an operation on a file: a path that is not text is
/// turned down before anything else happens.
pub open spec fn requested_on_file(
    m: InnerMachineView,
    op: Operation,
    path: Option<&str>,
) -> (InnerMachineView, Result<(), ErrorView>) {
    match file_outcome(path) {
        Ok(_) => requested(m, op),
        Err(e) => (m, Err(e)),
    }
}

/// The counters that the kernel keeps of a process.
#[derive(Debug, Clone, Copy, PartialEq, Eq, Structural)]
pub struct ProcessCounters {
    pub user_time: u64,
    pub system_time: u64,
    pub resident_size: u64,
    pub phys_footprint: u64,
    pub interval_max_phys_footprint: u64,
    pub wired_size: u64,
    pub diskio_bytesread: u64,
    pub diskio_byteswritten: u64,
    pub pageins: u64,
    pub billed_energy: u64,
    pub instructions: u64,
    pub cycles: u64,
}

/// What the kernel says now of the process with the number of a worker.
#[derive(Debug, Clone, Copy, PartialEq, Eq, Structural)]
pub struct WorkerFacts {
    /// When the process started.
    pub start_abstime: Option<u64>,
    /// Whether it is a worker of the framework.
    pub is_vz_worker: bool,
    /// Its counters.
    pub counters: Option<ProcessCounters>,
}

/// A sample of a process.
pub open spec fn usage_of(c: ProcessCounters, now: Timestamp) -> ResourceUsage {
    ResourceUsage {
        sampled_at: now,
        cpu_user_ns: c.user_time,
        cpu_system_ns: c.system_time,
        resident_bytes: c.resident_size,
        phys_footprint_bytes: c.phys_footprint,
        peak_phys_footprint_bytes: c.interval_max_phys_footprint,
        wired_bytes: c.wired_size,
        disk_read_bytes: c.diskio_bytesread,
        disk_write_bytes: c.diskio_byteswritten,
        pageins: c.pageins,
        energy_nj: c.billed_energy,
        instructions: c.instructions,
        cycles: c.cycles,
    }
}

/// Whether a process is still the worker that was found: its number may have
/// been given to another one since.
pub open spec fn is_same_worker(w: WorkerIdentity, facts: WorkerFacts) -> bool {
    facts.start_abstime == Some(w.start_abstime) && facts.is_vz_worker
}

/// The sample of a VM: none without a worker, where the process is another
/// one by now, or where the kernel did not answer.
pub open spec fn sampled(
    worker: Option<WorkerIdentity>,
    facts: WorkerFacts,
    now: Timestamp,
) -> Option<ResourceUsage> {
    match worker {
        Some(w) => if is_same_worker(w, facts) {
            match facts.counters {
                Some(c) => Some(usage_of(c, now)),
                None => None,
            }
        } else {
            None
        },
        None => None,
    }
}

/// A handle to a virtual machine. It can be used from any thread by whoever
/// has exclusive access to the machine for the moment.
#[derive(Debug)]
pub struct VmHandle {
    config: VmConfig,
    snapshot: VmConfig,
}

/// A [`VmHandle`] over views.
pub struct VmHandleView {
    pub config: VmConfigView,
    pub snapshot: VmConfigView,
}

impl View for VmHandle {
    type V = VmHandleView;

    closed spec fn view(&self) -> VmHandleView {
        VmHandleView { config: self.config@, snapshot: self.snapshot@ }
    }
}

impl VmHandle {
    /// A handle to a machine.
    pub fn new(inner: &InnerMachine) -> (r: Self)
        ensures
            r@ == (VmHandleView { config: inner@.config, snapshot: inner@.snapshot }),
    {
        VmHandle { config: inner.config().clone(), snapshot: inner.snapshot().clone() }
    }

    /// The current state of the machine.
    pub fn state(&self, inner: &InnerMachine) -> (r: VmState)
        ensures
            r == inner@.state,
    {
        inner.state()
    }

    /// The configuration as it was given.
    pub fn config(&self) -> (r: &VmConfig)
        ensures
            r@ == self@.config,
    {
        &self.config
    }

    /// The configuration with everything filled in that the framework made
    /// up.
    pub fn snapshot_config(&self) -> (r: &VmConfig)
        ensures
            r@ == self@.snapshot,
    {
        &self.snapshot
    }

    fn refusal(state: VmState, op: Operation) -> (r: Error)
        ensures
            r@ == (ErrorView::InvalidState { current: state, operation: op.label() }),
    {
        Error::InvalidState { current: state, operation: op.name() }
    }

    /// Starts the machine.
    pub fn start(&self, inner: &mut InnerMachine) -> (r: Result<(), Error>)
        ensures
            (final(inner)@, outcome(r)) == requested(old(inner)@, Operation::Start),
    {
        let state = inner.state();
        if !state.can_start() {
            return Err(Self::refusal(state, Operation::Start));
        }
        inner.dispatch(Operation::Start);
        Ok(())
    }

    /// Pauses the machine.
    pub fn pause(&self, inner: &mut InnerMachine) -> (r: Result<(), Error>)
        ensures
            (final(inner)@, outcome(r)) == requested(old(inner)@, Operation::Pause),
    {
        let state = inner.state();
        if !state.can_pause() {
            return Err(Self::refusal(state, Operation::Pause));
        }
        inner.dispatch(Operation::Pause);
        Ok(())
    }

    /// Resumes the machine.
    pub fn resume(&self, inner: &mut InnerMachine) -> (r: Result<(), Error>)
        ensures
            (final(inner)@, outcome(r)) == requested(old(inner)@, Operation::Resume),
    {
        let state = inner.state();
        if !state.can_resume() {
            return Err(Self::refusal(state, Operation::Resume));
        }
        inner.dispatch(Operation::Resume);
        Ok(())
    }

    /// Stops the machine by force.
    pub fn stop(&self, inner: &mut InnerMachine) -> (r: Result<(), Error>)
        ensures
            (final(inner)@, outcome(r)) == requested(old(inner)@, Operation::Stop),
    {
        let state = inner.state();
        if !state.can_stop() {
            return Err(Self::refusal(state, Operation::Stop));
        }
        inner.dispatch(Operation::Stop);
        Ok(())
    }

    /// Asks the guest to shut down.
    pub fn request_stop(&self, inner: &mut InnerMachine) -> (r: Result<(), Error>)
        ensures
            (final(inner)@, outcome(r)) == requested(old(inner)@, Operation::RequestStop),
    {
        let state = inner.state();
        if !state.can_request_stop() {
            return Err(Self::refusal(state, Operation::RequestStop));
        }
        inner.dispatch(Operation::RequestStop);
        Ok(())
    }

    /// Saves the machine to a file, whose path is given where it is text. The
    /// framework refuses that unless the machine is paused.
    pub fn save_state(&self, inner: &mut InnerMachine, path: Option<&str>) -> (r: Result<
        (),
        Error,
    >)
        ensures
            (final(inner)@, outcome(r)) == requested_on_file(
                old(inner)@,
                Operation::SaveState,
                path,
            ),
    {
        if path.is_none() {
            return Err(path_error());
        }
        inner.dispatch(Operation::SaveState);
        Ok(())
    }

    /// Restores the machine from a file, whose path is given where it is text.
    /// The framework refuses that unless the machine is stopped.
    pub fn restore_state(&self, inner: &mut InnerMachine, path: Option<&str>) -> (r: Result<
        (),
        Error,
    >)
        ensures
            (final(inner)@, outcome(r)) == requested_on_file(
                old(inner)@,
                Operation::RestoreState,
                path,
            ),
    {
        if path.is_none() {
            return Err(path_error());
        }
        inner.dispatch(Operation::RestoreState);
        Ok(())
    }

    /// A sample of the worker process, from what the kernel says of the
    /// process with its number.
    pub fn resource_usage(
        &self,
        inner: &InnerMachine,
        facts: &WorkerFacts,
        now: Timestamp,
    ) -> (r: Option<ResourceUsage>)
        ensures
            r == sampled(inner@.worker, *facts, now),
    {
        let w = match inner.worker() {
            Some(w) => w,
            None => {
                return None;
            },
        };
        match facts.start_abstime {
            Some(t) => {
                if t != w.start_abstime || !facts.is_vz_worker {
                    return None;
                }
            },
            None => {
                return None;
            },
        }
        match facts.counters {
            Some(c) => Some(
                ResourceUsage {
                    sampled_at: now,
                    cpu_user_ns: c.user_time,
                    cpu_system_ns: c.system_time,
                    resident_bytes: c.resident_size,
                    phys_footprint_bytes: c.phys_footprint,
                    peak_phys_footprint_bytes: c.interval_max_phys_footprint,
                    wired_bytes: c.wired_size,
                    disk_read_bytes: c.diskio_bytesread,
                    disk_write_bytes: c.diskio_byteswritten,
                    pageins: c.pageins,
                    energy_nj: c.billed_energy,
                    instructions: c.instructions,
                    cycles: c.cycles,
                },
            ),
            None => None,
        }
    }

    /// The number of the worker process.
    pub fn worker_pid(&self, inner: &InnerMachine) -> (r: Option<u32>)
        ensures
            r == match inner@.worker {
                Some(w) => Some(w.pid as u32),
                None => None,
            },
    {
        match inner.worker() {
            Some(w) => Some(
                #[verifier::truncate]
                (w.pid as u32),
            ),
            None => None,
        }
    }

    /// One sample for each `vmnet` device, in order.
    pub fn network_usage(&self, counters: &Vec<NetworkCounters>, now: Timestamp) -> (r: Vec<
        NetworkUsage,
    >)
        ensures
            r@ == counters@.map_values(|c: NetworkCounters| sample_of(c, now)),
    {
        let mut r: Vec<NetworkUsage> = Vec::new();
        let mut i: usize = 0;
        while i < counters.len()
            invariant
                i <= counters@.len(),
                r@ =~= counters@.map_values(|c: NetworkCounters| sample_of(c, now)).take(i as int),
            decreases counters@.len() - i,
        {
            r.push(counters[i].snapshot(now));
            i += 1;
        }
        assert(r@ =~= counters@.map_values(|c: NetworkCounters| sample_of(c, now)));
        r
    }

    /// What `vmnet` assigned to each `vmnet` device, in the order of
    /// [`network_usage`](Self::network_usage).
    pub fn vmnet_interfaces(&self, proxies: &Vec<VmnetProxy>) -> (r: Vec<VmnetInterface>)
        ensures
            r@ == proxies@.map_values(|p: VmnetProxy| p@.info),
    {
        let mut r: Vec<VmnetInterface> = Vec::new();
        let mut i: usize = 0;
        while i < proxies.len()
            invariant
                i <= proxies@.len(),
                r@ =~= proxies@.map_values(|p: VmnetProxy| p@.info).take(i as int),
            decreases proxies@.len() - i,
        {
            r.push(proxies[i].info());
            i += 1;
        }
        assert(r@ =~= proxies@.map_values(|p: VmnetProxy| p@.info));
        r
    }
}

/// While an operation is under way, no other one that a handle checks is let
/// through.
pub proof fn law_transient_states_refuse(state: VmState, op: Operation)
    requires
        state == VmState::Starting || state == VmState::Pausing || state == VmState::Resuming
            || state == VmState::Stopping || state == VmState::Saving || state
            == VmState::Restoring,
        op != Operation::SaveState,
        op != Operation::RestoreState,
    ensures
        !admits(state, op),
{
}

/// A refused operation changes nothing, and its error names the state and the
/// operation.
pub proof fn law_refused_operations_change_nothing(m: InnerMachineView, op: Operation)
    requires
        !admits(m.state, op),
    ensures
        requested(m, op) == (
            m,
            Err::<(), ErrorView>(
                ErrorView::InvalidState { current: m.state, operation: op.label() },
            ),
        ),
{
}

/// A path that is not text changes nothing, in any state.
pub proof fn law_unreadable_paths_change_nothing(m: InnerMachineView, op: Operation)
    ensures
        requested_on_file(m, op, None) == (
            m,
            Err::<(), ErrorView>(
                ErrorView::InvalidConfiguration("path contains invalid UTF-8"@),
            ),
        ),
{
}

/// Starting, pausing, resuming and stopping lead through their own transient
/// state to the state that they are named for.
pub proof fn law_operations_reach_their_state(
    m: InnerMachineView,
    op: Operation,
    found: Option<WorkerIdentity>,
    claimed: Set<i32>,
)
    requires
        admits(m.state, op),
        op != Operation::RequestStop,
    ensures
        Some(requested(m, op).0.state) == op.under_way(),
        crate::sys::machine::completed(
            requested(m, op).0,
            op,
            true,
            found,
            claimed,
        ).0.state == match op {
            Operation::Start | Operation::Resume => VmState::Running,
            Operation::Stop => VmState::Stopped,
            _ => VmState::Paused,
        },
{
}

/// A VM that was stopped can be started again, a paused one resumed, and one
/// that runs paused: every cycle is open.
pub proof fn law_life_cycle_goes_round(
    m: InnerMachineView,
    op: Operation,
    found: Option<WorkerIdentity>,
    claimed: Set<i32>,
)
    requires
        admits(m.state, op),
    ensures
        ({
            let n = crate::sys::machine::completed(
                requested(m, op).0,
                op,
                true,
                found,
                claimed,
            ).0.state;
            match op {
                Operation::Start | Operation::Resume => admits(n, Operation::Pause) && admits(
                    n,
                    Operation::Stop,
                ) && admits(n, Operation::RequestStop),
                Operation::Pause | Operation::SaveState | Operation::RestoreState => admits(
                    n,
                    Operation::Resume,
                ) && admits(n, Operation::Stop),
                Operation::Stop => admits(n, Operation::Start),
                Operation::RequestStop => n == m.state,
            }
        }),
{
}

/// Which operation a handle lets through in which state. A save and a restore
/// are let through in every state: the framework judges them.
pub proof fn law_operations_that_are_admitted(state: VmState)
    ensures
        admits(state, Operation::Start) <==> state == VmState::Stopped,
        admits(state, Operation::Pause) <==> state == VmState::Running,
        admits(state, Operation::Resume) <==> state == VmState::Paused,
        admits(state, Operation::RequestStop) <==> state == VmState::Running,
        admits(state, Operation::Stop) <==> state == VmState::Running || state == VmState::Paused
            || state == VmState::Error,
        admits(state, Operation::SaveState),
        admits(state, Operation::RestoreState),
{
}

/// An operation that is let through puts the machine into the state of that
/// operation and changes nothing else about it.
pub proof fn law_admitted_operations_are_under_way(m: InnerMachineView, op: Operation)
    requires
        admits(m.state, op),
    ensures
        ({
            let (n, r) = requested(m, op);
            &&& r is Ok
            &&& n.config == m.config && n.snapshot == m.snapshot && n.worker == m.worker
            &&& n.state == match op {
                Operation::Start => VmState::Starting,
                Operation::Pause => VmState::Pausing,
                Operation::Resume => VmState::Resuming,
                Operation::Stop => VmState::Stopping,
                Operation::RequestStop => m.state,
                Operation::SaveState => VmState::Saving,
                Operation::RestoreState => VmState::Restoring,
            }
        }),
{
}

/// A sample is taken exactly where the machine has a worker process, the
/// process with its number is a worker that started at the same time, and the
/// kernel knows its counters. Each value is the kernel's counter of that name.
pub proof fn law_samples_are_of_the_worker(
    worker: Option<WorkerIdentity>,
    facts: WorkerFacts,
    now: Timestamp,
)
    ensures
        sampled(worker, facts, now) is Some <==> (worker matches Some(w) && facts.start_abstime
            == Some(w.start_abstime)) && facts.is_vz_worker && facts.counters is Some,
        sampled(worker, facts, now) matches Some(u) ==> {
            let c = facts.counters->0;
            &&& u.sampled_at == now
            &&& u.cpu_user_ns == c.user_time && u.cpu_system_ns == c.system_time
            &&& u.resident_bytes == c.resident_size && u.phys_footprint_bytes == c.phys_footprint
            &&& u.peak_phys_footprint_bytes == c.interval_max_phys_footprint
            &&& u.wired_bytes == c.wired_size
            &&& u.disk_read_bytes == c.diskio_bytesread && u.disk_write_bytes
                == c.diskio_byteswritten
            &&& u.pageins == c.pageins && u.energy_nj == c.billed_energy
            &&& u.instructions == c.instructions && u.cycles == c.cycles
        },
{
}

/// A path that is text has no bearing on whether an operation is let through.
pub proof fn law_readable_paths_change_nothing(m: InnerMachineView, op: Operation, path: &str)
    ensures
        requested_on_file(m, op, Some(path)) == requested(m, op),
        op == Operation::SaveState || op == Operation::RestoreState ==> requested_on_file(
            m,
            op,
            Some(path),
        ).1 is Ok,
{
}

} // verus!
