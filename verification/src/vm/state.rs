//! The life-cycle state of a virtual machine.
use vstd::prelude::*;

verus! {

/// The state of a virtual machine.
#[derive(Debug, Clone, Copy, PartialEq, Eq, Structural)]
pub enum VmState {
    Stopped,
    Running,
    Paused,
    Error,
    Starting,
    Pausing,
    Resuming,
    Stopping,
    Saving,
    Restoring,
}

impl VmState {
    /// Whether a VM in this state can be started.
    pub fn can_start(&self) -> (r: bool)
        ensures
            r == (*self == VmState::Stopped),
    {
        *self == VmState::Stopped
    }

    /// Whether a VM in this state can be paused.
    pub fn can_pause(&self) -> (r: bool)
        ensures
            r == (*self == VmState::Running),
    {
        *self == VmState::Running
    }

    /// Whether a VM in this state can be resumed.
    pub fn can_resume(&self) -> (r: bool)
        ensures
            r == (*self == VmState::Paused),
    {
        *self == VmState::Paused
    }

    /// Whether a VM in this state can be stopped by force.
    pub fn can_stop(&self) -> (r: bool)
        ensures
            r == (*self == VmState::Running || *self == VmState::Paused || *self
                == VmState::Error),
    {
        matches!(self, VmState::Running | VmState::Paused | VmState::Error)
    }

    /// Whether the guest of a VM in this state can be asked to shut down.
    pub fn can_request_stop(&self) -> (r: bool)
        ensures
            r == (*self == VmState::Running),
    {
        *self == VmState::Running
    }

    /// The name of the state.
    pub open spec fn name(self) -> Seq<char> {
        match self {
            VmState::Stopped => "Stopped"@,
            VmState::Running => "Running"@,
            VmState::Paused => "Paused"@,
            VmState::Error => "Error"@,
            VmState::Starting => "Starting"@,
            VmState::Pausing => "Pausing"@,
            VmState::Resuming => "Resuming"@,
            VmState::Stopping => "Stopping"@,
            VmState::Saving => "Saving"@,
            VmState::Restoring => "Restoring"@,
        }
    }

    /// The name of the state.
    pub fn to_string(&self) -> (r: String)
        ensures
            r@ == self.name(),
    {
        match self {
            VmState::Stopped => "Stopped".to_owned(),
            VmState::Running => "Running".to_owned(),
            VmState::Paused => "Paused".to_owned(),
            VmState::Error => "Error".to_owned(),
            VmState::Starting => "Starting".to_owned(),
            VmState::Pausing => "Pausing".to_owned(),
            VmState::Resuming => "Resuming".to_owned(),
            VmState::Stopping => "Stopping".to_owned(),
            VmState::Saving => "Saving".to_owned(),
            VmState::Restoring => "Restoring".to_owned(),
        }
    }

    /// The framework's number for the state.
    pub open spec fn vz_code(self) -> int {
        match self {
            VmState::Stopped => 0,
            VmState::Running => 1,
            VmState::Paused => 2,
            VmState::Error => 3,
            VmState::Starting => 4,
            VmState::Pausing => 5,
            VmState::Resuming => 6,
            VmState::Stopping => 7,
            VmState::Saving => 8,
            VmState::Restoring => 9,
        }
    }
}

/// The state that a `VZVirtualMachineState` number stands for. A number that
/// the framework does not define counts as an error state.
pub fn vz_state_to_rust(code: isize) -> (r: VmState)
    ensures
        0 <= code <= 9 ==> r.vz_code() == code,
        !(0 <= code <= 9) ==> r == VmState::Error,
{
    match code {
        0 => VmState::Stopped,
        1 => VmState::Running,
        2 => VmState::Paused,
        3 => VmState::Error,
        4 => VmState::Starting,
        5 => VmState::Pausing,
        6 => VmState::Resuming,
        7 => VmState::Stopping,
        8 => VmState::Saving,
        9 => VmState::Restoring,
        _ => VmState::Error,
    }
}

/// Different states have different framework numbers.
pub proof fn law_vz_codes_are_distinct(a: VmState, b: VmState)
    requires
        a.vz_code() == b.vz_code(),
    ensures
        a == b,
{
}

/// The framework's numbers for the states.
pub proof fn law_vz_codes(s: VmState)
    ensures
        s.vz_code() == 0 <==> s == VmState::Stopped,
        s.vz_code() == 1 <==> s == VmState::Running,
        s.vz_code() == 2 <==> s == VmState::Paused,
        s.vz_code() == 3 <==> s == VmState::Error,
        s.vz_code() == 4 <==> s == VmState::Starting,
        s.vz_code() == 5 <==> s == VmState::Pausing,
        s.vz_code() == 6 <==> s == VmState::Resuming,
        s.vz_code() == 7 <==> s == VmState::Stopping,
        s.vz_code() == 8 <==> s == VmState::Saving,
        s.vz_code() == 9 <==> s == VmState::Restoring,
{
}

} // verus!
