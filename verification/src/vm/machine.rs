//! A virtual machine.
use vstd::prelude::*;

use super::handle::{file_outcome, VmHandle, VmHandleView, WorkerFacts};
use super::metrics::ResourceUsage;
use super::state::VmState;
use crate::config::vm::{opt_bytes, VmConfig};
use crate::error::{outcome, Error};
use crate::sys::config_builder::path_error;
use crate::sys::machine::{
    completed, dispatched, notified, resolved, ClaimedWorkers, DelegateEvent, InnerMachine,
    InnerMachineView, Operation, WorkerIdentity,
};
use crate::text::texts;
use crate::time::Timestamp;

verus! {

/// A virtual machine. Unlike a [`VmHandle`], it passes every operation on to
/// the framework without a look at its state.
#[derive(Debug)]
pub struct VirtualMachine {
    inner: InnerMachine,
}

impl View for VirtualMachine {
    type V = InnerMachineView;

    closed spec fn view(&self) -> InnerMachineView {
        self.inner@
    }
}

/// How long a machine that goes away waits for the framework to stop it.
pub const DROP_STOP_SECONDS: u64 = 5;

/// How long it waits until the framework has let go of it.
pub const DROP_CLEAR_SECONDS: u64 = 2;

/// What is done, in order, when a machine goes away.
#[derive(Debug, Clone, Copy, PartialEq, Eq, Structural)]
pub enum DropAction {
    /// Stop it by force, and wait at most this many seconds.
    Stop { seconds: u64 },
    /// Take the delegate away, and wait at most this many seconds.
    ClearDelegate { seconds: u64 },
}

/// What is done when a machine in this state goes away: one that is active is
/// stopped first, so that the framework never lets go of a running one.
pub open spec fn drop_plan(state: VmState) -> Seq<DropAction> {
    (if state == VmState::Running || state == VmState::Paused || state == VmState::Error {
        seq![DropAction::Stop { seconds: DROP_STOP_SECONDS }]
    } else {
        Seq::empty()
    }) + seq![DropAction::ClearDelegate { seconds: DROP_CLEAR_SECONDS }]
}

/// How long the actions wait at most, in seconds.
pub open spec fn longest_wait(actions: Seq<DropAction>) -> nat
    decreases actions.len(),
{
    if actions.len() == 0 {
        0
    } else {
        longest_wait(actions.drop_last()) + match actions.last() {
            DropAction::Stop { seconds } => seconds as nat,
            DropAction::ClearDelegate { seconds } => seconds as nat,
        }
    }
}

/// A machine goes away within seven seconds, and within two where it is not
/// active; the delegate is always taken away, and last.
pub proof fn law_machines_go_away_in_time(state: VmState)
    ensures
        longest_wait(drop_plan(state)) == if state == VmState::Running || state
            == VmState::Paused || state == VmState::Error {
            7nat
        } else {
            2
        },
        drop_plan(state).last() is ClearDelegate,
{
    reveal_with_fuel(longest_wait, 3);
    let plan = drop_plan(state);
    let clear = DropAction::ClearDelegate { seconds: DROP_CLEAR_SECONDS };
    let stop = DropAction::Stop { seconds: DROP_STOP_SECONDS };
    if state == VmState::Running || state == VmState::Paused || state == VmState::Error {
        assert(plan =~= seq![stop, clear]);
        assert(plan.drop_last() =~= seq![stop]);
        assert(plan.drop_last().drop_last() =~= Seq::empty());
    } else {
        assert(plan =~= seq![clear]);
        assert(plan.drop_last() =~= Seq::empty());
    }
}

impl VirtualMachine {
    /// A machine from a validated configuration. It is stopped. `macs` and
    /// `identifier` are what the framework made up for it.
    pub fn new(config: VmConfig, macs: &Vec<String>, identifier: &Option<Vec<u8>>) -> (r: Self)
        ensures
            r@ == (InnerMachineView {
                state: VmState::Stopped,
                config: config@,
                snapshot: resolved(config@, texts(macs@), opt_bytes(*identifier)),
                worker: None,
            }),
    {
        VirtualMachine { inner: InnerMachine::new(config, macs, identifier) }
    }

    /// The current state.
    pub fn state(&self) -> (r: VmState)
        ensures
            r == self@.state,
    {
        self.inner.state()
    }

    /// The configuration as it was given. What the framework made up is not
    /// filled in.
    pub fn config(&self) -> (r: &VmConfig)
        ensures
            r@ == self@.config,
    {
        self.inner.config()
    }

    /// The configuration with everything filled in that the framework made
    /// up. Kept beside a save file, it is what the VM that restores the file
    /// is built from.
    pub fn snapshot_config(&self) -> (r: &VmConfig)
        ensures
            r@ == self@.snapshot,
    {
        self.inner.snapshot()
    }

    /// A handle for other threads.
    pub fn handle(&self) -> (r: VmHandle)
        ensures
            r@ == (VmHandleView { config: self@.config, snapshot: self@.snapshot }),
    {
        VmHandle::new(&self.inner)
    }

    /// The state that handles work on.
    pub fn inner(&self) -> (r: &InnerMachine)
        ensures
            r@ == self@,
    {
        &self.inner
    }

    /// The state that handles work on, for the operations of a handle.
    pub fn inner_mut(&mut self) -> (r: &mut InnerMachine)
        ensures
            (*r)@ == old(self)@,
            final(self)@ == (*final(r))@,
    {
        &mut self.inner
    }

    /// Starts the machine.
    pub fn start(&mut self)
        ensures
            final(self)@ == dispatched(old(self)@, Operation::Start),
    {
        self.inner.dispatch(Operation::Start);
    }

    /// Pauses the machine.
    pub fn pause(&mut self)
        ensures
            final(self)@ == dispatched(old(self)@, Operation::Pause),
    {
        self.inner.dispatch(Operation::Pause);
    }

    /// Resumes the machine.
    pub fn resume(&mut self)
        ensures
            final(self)@ == dispatched(old(self)@, Operation::Resume),
    {
        self.inner.dispatch(Operation::Resume);
    }

    /// Stops the machine by force.
    pub fn stop(&mut self)
        ensures
            final(self)@ == dispatched(old(self)@, Operation::Stop),
    {
        self.inner.dispatch(Operation::Stop);
    }

    /// Asks the guest to shut down.
    pub fn request_stop(&mut self)
        ensures
            final(self)@ == dispatched(old(self)@, Operation::RequestStop),
    {
        self.inner.dispatch(Operation::RequestStop);
    }

    /// Saves the machine to a file, whose path is given where it is text.
    /// The operation is under way before the path is looked at.
    pub fn save_state(&mut self, path: Option<&str>) -> (r: Result<(), Error>)
        ensures
            final(self)@ == dispatched(old(self)@, Operation::SaveState),
            outcome(r) == file_outcome(path),
    {
        self.inner.dispatch(Operation::SaveState);
        match path {
            Some(_) => Ok(()),
            None => Err(path_error()),
        }
    }

    /// Restores the machine from a file, whose path is given where it is text.
    /// The operation is under way before the path is looked at.
    pub fn restore_state(&mut self, path: Option<&str>) -> (r: Result<(), Error>)
        ensures
            final(self)@ == dispatched(old(self)@, Operation::RestoreState),
            outcome(r) == file_outcome(path),
    {
        self.inner.dispatch(Operation::RestoreState);
        match path {
            Some(_) => Ok(()),
            None => Err(path_error()),
        }
    }

    /// Takes how an operation ended.
    pub fn complete(
        &mut self,
        op: Operation,
        ok: bool,
        found: Option<WorkerIdentity>,
        claimed: &mut ClaimedWorkers,
    )
        ensures
            (final(self)@, final(claimed)@) == completed(
                old(self)@,
                op,
                ok,
                found,
                old(claimed)@,
            ),
    {
        self.inner.complete(op, ok, found, claimed);
    }

    /// Takes an event of the framework.
    pub fn notify(&mut self, event: DelegateEvent, claimed: &mut ClaimedWorkers)
        ensures
            (final(self)@, final(claimed)@) == notified(old(self)@, event, old(claimed)@),
    {
        self.inner.notify(event, claimed);
    }

    /// A sample of the worker process.
    pub fn resource_usage(&self, facts: &WorkerFacts, now: Timestamp) -> (r: Option<ResourceUsage>)
        ensures
            r == super::handle::sampled(self@.worker, *facts, now),
    {
        self.handle().resource_usage(&self.inner, facts, now)
    }

    /// The number of the worker process.
    pub fn worker_pid(&self) -> (r: Option<u32>)
        ensures
            r == match self@.worker {
                Some(w) => Some(w.pid as u32),
                None => None,
            },
    {
        self.handle().worker_pid(&self.inner)
    }

    /// What is done when the machine goes away.
    pub fn drop_actions(&self) -> (r: Vec<DropAction>)
        ensures
            r@ == drop_plan(self@.state),
    {
        let mut r: Vec<DropAction> = Vec::new();
        if self.inner.state().can_stop() {
            r.push(DropAction::Stop { seconds: DROP_STOP_SECONDS });
        }
        r.push(DropAction::ClearDelegate { seconds: DROP_CLEAR_SECONDS });
        r
    }
}

} // verus!
