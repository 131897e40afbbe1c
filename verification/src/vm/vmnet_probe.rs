//! Whether `vmnet` can be used in this process.
//!
//! The only reliable way to find out is to start a throwaway interface.
//! Callers that can do without `vmnet` probe once and fall back to NAT.
use vstd::prelude::*;

use crate::config::device::network::{default_vmnet_config, VmnetConfig};
use crate::error::Error;
use crate::sys::vmnet::{VmnetError, VmnetReturn};
use crate::text::join2;

verus! {

/// Outcome of [`probe_vmnet`].
#[derive(Debug, Clone, Copy, PartialEq, Eq, Structural)]
pub enum VmnetProbe {
    /// An interface started: `vmnet` works in this process.
    Available,
    /// The process may not use `vmnet`.
    Denied,
    /// `vmnet` failed for another reason.
    Unavailable(VmnetReturn),
}

impl VmnetProbe {
    /// The outcome in words.
    pub open spec fn meaning(self) -> Seq<char> {
        match self {
            VmnetProbe::Available => "vmnet available"@,
            VmnetProbe::Denied =>
                "vmnet denied: run as root or codesign with a Developer ID profile that includes com.apple.vm.networking"@,
            VmnetProbe::Unavailable(code) => "vmnet unavailable: "@ + code.meaning(),
        }
    }

    /// The outcome in words.
    pub fn to_string(&self) -> (r: String)
        ensures
            r@ == self.meaning(),
    {
        match self {
            VmnetProbe::Available => "vmnet available".to_owned(),
            VmnetProbe::Denied =>
                "vmnet denied: run as root or codesign with a Developer ID profile that includes com.apple.vm.networking".to_owned(),
            VmnetProbe::Unavailable(code) => join2(
                "vmnet unavailable: ",
                code.to_string().as_str(),
            ),
        }
    }
}

/// The configuration of the throwaway interface.
pub fn probe_config() -> (r: VmnetConfig)
    ensures
        r@ == default_vmnet_config(),
{
    VmnetConfig::default()
}

/// What starting the throwaway interface says of `vmnet`, from the code of the
/// failure where there is one.
pub open spec fn probed(started: Result<(), VmnetReturn>) -> VmnetProbe {
    match started {
        Ok(_) => VmnetProbe::Available,
        Err(code) => if code == VmnetReturn::InvalidAccess {
            VmnetProbe::Denied
        } else {
            VmnetProbe::Unavailable(code)
        },
    }
}

/// The code of a failure.
pub open spec fn code_of<T>(started: Result<T, VmnetError>) -> Result<(), VmnetReturn> {
    match started {
        Ok(_) => Ok(()),
        Err(e) => Err(e.code),
    }
}

/// What starting the throwaway interface says of `vmnet`. Whether it could be
/// stopped again does not matter.
pub fn probe_vmnet<T>(started: &Result<T, VmnetError>) -> (r: VmnetProbe)
    ensures
        r == probed(code_of(*started)),
{
    match started {
        Ok(_) => VmnetProbe::Available,
        Err(e) => if e.code == VmnetReturn::InvalidAccess {
            VmnetProbe::Denied
        } else {
            VmnetProbe::Unavailable(e.code)
        },
    }
}

/// What a probe does next, or what it found.
#[derive(Debug, Clone, Copy, PartialEq, Eq, Structural)]
pub enum ProbeStage {
    /// Start the throwaway interface.
    Start,
    /// Stop the interface that was started.
    Stop,
    /// Nothing more is done.
    Finished(VmnetProbe),
}

/// What came of a step.
pub enum ProbeEvent {
    /// Whether the interface started, or the code of the failure.
    Started(Result<(), VmnetReturn>),
    /// Whether the interface could be stopped.
    Stopped { ok: bool },
}

/// What a probe does after an event. An event that does not belong to the
/// stage changes nothing.
pub open spec fn probe_step(stage: ProbeStage, event: ProbeEvent) -> ProbeStage {
    match (stage, event) {
        (ProbeStage::Start, ProbeEvent::Started(Ok(_))) => ProbeStage::Stop,
        (ProbeStage::Start, ProbeEvent::Started(Err(code))) => ProbeStage::Finished(
            probed(Err(code)),
        ),
        (ProbeStage::Stop, ProbeEvent::Stopped { .. }) => ProbeStage::Finished(
            VmnetProbe::Available,
        ),
        _ => stage,
    }
}

impl ProbeStage {
    /// Takes what came of starting the interface.
    pub fn started<T>(self, result: &Result<T, VmnetError>) -> (r: ProbeStage)
        ensures
            r == probe_step(self, ProbeEvent::Started(code_of(*result))),
    {
        match self {
            ProbeStage::Start => match result {
                Ok(_) => ProbeStage::Stop,
                Err(_) => ProbeStage::Finished(probe_vmnet(result)),
            },
            _ => self,
        }
    }

    /// Takes what came of stopping the interface, which does not matter.
    pub fn stopped(self, result: &Result<(), Error>) -> (r: ProbeStage)
        ensures
            r == probe_step(self, ProbeEvent::Stopped { ok: *result is Ok }),
    {
        match self {
            ProbeStage::Stop => ProbeStage::Finished(VmnetProbe::Available),
            _ => self,
        }
    }
}

/// A probe after several events.
pub open spec fn probe_run(events: Seq<ProbeEvent>) -> ProbeStage
    decreases events.len(),
{
    if events.len() == 0 {
        ProbeStage::Start
    } else {
        probe_step(probe_run(events.drop_last()), events.last())
    }
}

/// How many interfaces run after several events: one more once the probe has
/// started one, and one less once it was told to stop one.
pub open spec fn interfaces_running(events: Seq<ProbeEvent>) -> int
    decreases events.len(),
{
    if events.len() == 0 {
        0
    } else {
        let before = interfaces_running(events.drop_last());
        match (probe_run(events.drop_last()), events.last()) {
            (ProbeStage::Start, ProbeEvent::Started(Ok(_))) => before + 1,
            (ProbeStage::Stop, ProbeEvent::Stopped { .. }) => before - 1,
            _ => before,
        }
    }
}

/// An interface is stopped exactly where one was started, and none runs once
/// the probe has its answer, whatever came of stopping it.
pub proof fn law_probe_stops_what_it_started(events: Seq<ProbeEvent>)
    ensures
        interfaces_running(events) == if probe_run(events) is Stop {
            1int
        } else {
            0
        },
    decreases events.len(),
{
    if events.len() > 0 {
        law_probe_stops_what_it_started(events.drop_last());
    }
}

/// What came of starting the interface, once that is known.
pub open spec fn start_result(events: Seq<ProbeEvent>) -> Option<Result<(), VmnetReturn>>
    decreases events.len(),
{
    if events.len() == 0 {
        None
    } else {
        match (start_result(events.drop_last()), events.last()) {
            (Some(result), _) => Some(result),
            (None, ProbeEvent::Started(result)) => Some(result),
            (None, _) => None,
        }
    }
}

/// A probe starts one interface. Where that fails, it has the answer at once
/// and stops nothing; otherwise the interface is stopped first, and the answer
/// is [`VmnetProbe::Available`] whether or not that succeeds.
pub proof fn law_probe_answers(events: Seq<ProbeEvent>)
    ensures
        match start_result(events) {
            None => probe_run(events) == ProbeStage::Start,
            Some(Err(code)) => probe_run(events) == ProbeStage::Finished(probed(Err(code))),
            Some(Ok(_)) => probe_run(events) == ProbeStage::Stop || probe_run(events)
                == ProbeStage::Finished(VmnetProbe::Available),
        },
        forall|ok: bool|
            probe_run(events) == ProbeStage::Stop ==> #[trigger] probe_step(
                probe_run(events),
                ProbeEvent::Stopped { ok },
            ) == ProbeStage::Finished(VmnetProbe::Available),
    decreases events.len(),
{
    if events.len() > 0 {
        law_probe_answers(events.drop_last());
    }
}

/// A process that may not use `vmnet` is told so, and never that `vmnet` is
/// unavailable for that reason.
pub proof fn law_denial_is_its_own_answer(started: Result<(), VmnetReturn>)
    ensures
        probed(started) != VmnetProbe::Unavailable(VmnetReturn::InvalidAccess),
        probed(started) == VmnetProbe::Denied <==> started == Err::<(), VmnetReturn>(
            VmnetReturn::InvalidAccess,
        ),
        probed(started) == VmnetProbe::Available <==> started is Ok,
{
}

} // verus!
