//! Setting the guest's clock after the host woke up.
//!
//! The guest agent is told the time over a Virtio socket, once when the
//! watcher starts and each time the host has woken up.
use vstd::prelude::*;

use crate::number::{
    law_signed_decimal_round_trip, lemma_decimal, parse_signed, push_signed_decimal, signed_decimal,
};

verus! {

/// A number of nanoseconds as the guest agent takes it: the low 64 bits,
/// with the highest one as a sign.
pub open spec fn agent_time(nanos: u128) -> int {
    let low = nanos as int % 0x1_0000_0000_0000_0000;
    if low < 0x8000_0000_0000_0000 {
        low
    } else {
        low - 0x1_0000_0000_0000_0000
    }
}

/// The line that sets the guest's clock.
pub open spec fn set_time_line(time: int) -> Seq<char> {
    "{\"execute\": \"guest-set-time\", \"arguments\": {\"time\": "@ + signed_decimal(time)
        + "}}\n"@
}

/// The nanoseconds since the epoch as the guest agent takes them.
pub fn to_agent_time(nanos: u128) -> (r: i64)
    ensures
        r == agent_time(nanos),
        nanos <= i64::MAX ==> r == nanos,
{
    let low: u128 = nanos % 0x1_0000_0000_0000_0000;
    if low < 0x8000_0000_0000_0000 {
        low as i64
    } else {
        (low as i128 - 0x1_0000_0000_0000_0000) as i64
    }
}

/// The line that sets the guest's clock to a number of nanoseconds since the
/// epoch.
pub fn set_time_command(time: i64) -> (r: String)
    ensures
        r@ == set_time_line(time as int),
{
    let mut r = "{\"execute\": \"guest-set-time\", \"arguments\": {\"time\": ".to_owned();
    push_signed_decimal(&mut r, time);
    r.append("}}\n");
    r
}

/// What is done next to set the guest's clock.
#[derive(Debug, Clone, Copy, PartialEq, Eq, Structural)]
pub enum SyncStage {
    /// Read the host's clock.
    ReadClock,
    /// Connect to the guest agent, to tell it this time.
    Connect { time: i64 },
    /// Send the line for this time.
    Send { time: i64 },
    /// Read the answer.
    Receive,
    /// The guest was told the time. Whether its answer could be read does not
    /// matter.
    Synchronized,
    /// The clock could not be read, or the agent could not be reached.
    Abandoned,
}

/// What came of it.
#[derive(Debug, Clone, Copy, PartialEq, Eq, Structural)]
pub enum SyncEvent {
    /// The host's clock, in nanoseconds since the epoch.
    Clock(u128),
    /// The step was done.
    Done,
    /// The step failed.
    Failed,
}

/// What is done after an event. An event that does not belong to the stage
/// changes nothing.
pub open spec fn sync_step(stage: SyncStage, event: SyncEvent) -> SyncStage {
    match (stage, event) {
        (SyncStage::ReadClock, SyncEvent::Clock(nanos)) => SyncStage::Connect {
            time: agent_time(nanos) as i64,
        },
        (SyncStage::ReadClock, SyncEvent::Failed) => SyncStage::Abandoned,
        (SyncStage::Connect { time }, SyncEvent::Done) => SyncStage::Send { time },
        (SyncStage::Connect { .. }, SyncEvent::Failed) => SyncStage::Abandoned,
        (SyncStage::Send { .. }, SyncEvent::Done) => SyncStage::Receive,
        (SyncStage::Send { .. }, SyncEvent::Failed) => SyncStage::Abandoned,
        (SyncStage::Receive, SyncEvent::Done) => SyncStage::Synchronized,
        (SyncStage::Receive, SyncEvent::Failed) => SyncStage::Synchronized,
        _ => stage,
    }
}

impl SyncStage {
    /// Takes an event.
    pub fn advance(self, event: SyncEvent) -> (r: SyncStage)
        ensures
            r == sync_step(self, event),
    {
        match (self, event) {
            (SyncStage::ReadClock, SyncEvent::Clock(nanos)) => SyncStage::Connect {
                time: to_agent_time(nanos),
            },
            (SyncStage::ReadClock, SyncEvent::Failed) => SyncStage::Abandoned,
            (SyncStage::Connect { time }, SyncEvent::Done) => SyncStage::Send { time },
            (SyncStage::Connect { time: _ }, SyncEvent::Failed) => SyncStage::Abandoned,
            (SyncStage::Send { time: _ }, SyncEvent::Done) => SyncStage::Receive,
            (SyncStage::Send { time: _ }, SyncEvent::Failed) => SyncStage::Abandoned,
            (SyncStage::Receive, SyncEvent::Done) => SyncStage::Synchronized,
            (SyncStage::Receive, SyncEvent::Failed) => SyncStage::Synchronized,
            _ => self,
        }
    }
}

/// The time that is sent is the one that was read.
pub proof fn law_guest_gets_the_host_time(nanos: u128)
    ensures
        sync_step(
            sync_step(SyncStage::ReadClock, SyncEvent::Clock(nanos)),
            SyncEvent::Done,
        ) == (SyncStage::Send { time: agent_time(nanos) as i64 }),
        nanos <= i64::MAX ==> agent_time(nanos) == nanos,
{
}

/// What a power message asks for.
#[derive(Debug, Clone, Copy, PartialEq, Eq, Structural)]
pub enum PowerAction {
    /// The host has woken up: set the guest's clock.
    SyncTime,
    /// The host is about to sleep: let it.
    Acknowledge,
    /// Nothing.
    Ignore,
}

/// The host has powered on.
pub const SYSTEM_HAS_POWERED_ON: u32 = 0xe0000300;

/// The host will sleep.
pub const SYSTEM_WILL_SLEEP: u32 = 0xe0000280;

/// The host asks whether it may sleep.
pub const CAN_SYSTEM_SLEEP: u32 = 0xe0000270;

/// What a power message asks for.
pub open spec fn action_of(message: u32) -> PowerAction {
    if message == SYSTEM_HAS_POWERED_ON {
        PowerAction::SyncTime
    } else if message == SYSTEM_WILL_SLEEP || message == CAN_SYSTEM_SLEEP {
        PowerAction::Acknowledge
    } else {
        PowerAction::Ignore
    }
}

/// What a power message asks for.
pub fn power_action(message: u32) -> (r: PowerAction)
    ensures
        r == action_of(message),
{
    if message == SYSTEM_HAS_POWERED_ON {
        PowerAction::SyncTime
    } else if message == SYSTEM_WILL_SLEEP || message == CAN_SYSTEM_SLEEP {
        PowerAction::Acknowledge
    } else {
        PowerAction::Ignore
    }
}

/// What the watcher for power messages does next.
#[derive(Debug, Clone, Copy, PartialEq, Eq, Structural)]
pub enum WatchStage {
    /// Register for power messages, with a context for the callback.
    Register,
    /// Tell the context the port for acknowledgements.
    SetPort { root_port: u32 },
    /// Get the source of messages for a run loop.
    GetSource,
    /// Add the source to the run loop.
    AddSource,
    /// Set the guest's clock once.
    SyncOnce,
    /// Run the loop.
    Run,
    /// Take the registration back.
    Deregister,
    /// Free the context.
    FreeContext,
    /// Nothing more is done.
    Ended,
}

/// What the watcher does after a step: `value` is the port after registering,
/// and whether there is a source (non-zero) after asking for one.
pub open spec fn watch_step(stage: WatchStage, value: u32) -> WatchStage {
    match stage {
        WatchStage::Register => if value == 0 {
            WatchStage::FreeContext
        } else {
            WatchStage::SetPort { root_port: value }
        },
        WatchStage::SetPort { .. } => WatchStage::GetSource,
        WatchStage::GetSource => if value == 0 {
            WatchStage::Deregister
        } else {
            WatchStage::AddSource
        },
        WatchStage::AddSource => WatchStage::SyncOnce,
        WatchStage::SyncOnce => WatchStage::Run,
        WatchStage::Run => WatchStage::Deregister,
        WatchStage::Deregister => WatchStage::FreeContext,
        WatchStage::FreeContext => WatchStage::Ended,
        WatchStage::Ended => WatchStage::Ended,
    }
}

impl WatchStage {
    /// Takes what came of a step.
    pub fn advance(self, value: u32) -> (r: WatchStage)
        ensures
            r == watch_step(self, value),
    {
        match self {
            WatchStage::Register => if value == 0 {
                WatchStage::FreeContext
            } else {
                WatchStage::SetPort { root_port: value }
            },
            WatchStage::SetPort { root_port: _ } => WatchStage::GetSource,
            WatchStage::GetSource => if value == 0 {
                WatchStage::Deregister
            } else {
                WatchStage::AddSource
            },
            WatchStage::AddSource => WatchStage::SyncOnce,
            WatchStage::SyncOnce => WatchStage::Run,
            WatchStage::Run => WatchStage::Deregister,
            WatchStage::Deregister => WatchStage::FreeContext,
            WatchStage::FreeContext => WatchStage::Ended,
            WatchStage::Ended => WatchStage::Ended,
        }
    }
}

/// Whether the watcher is registered at a stage.
pub open spec fn is_registered(stage: WatchStage) -> bool {
    match stage {
        WatchStage::Register | WatchStage::FreeContext | WatchStage::Ended => false,
        _ => true,
    }
}

/// Whether the context is allocated at a stage.
pub open spec fn has_context(stage: WatchStage) -> bool {
    !(stage is Ended)
}

/// A registration is taken back before its context is freed, on every path,
/// and nothing is left at the end.
pub proof fn law_watcher_cleans_up(stage: WatchStage, value: u32)
    ensures
        ({
            let next = watch_step(stage, value);
            &&& is_registered(next) == match stage {
                WatchStage::Register => value != 0,
                WatchStage::Deregister => false,
                _ => is_registered(stage),
            }
            &&& has_context(next) == (has_context(stage) && !(stage is FreeContext))
            &&& stage is FreeContext ==> !is_registered(stage)
            &&& is_registered(next) ==> has_context(next)
        }),
{
}

/// The guest's clock is set exactly when the host has powered on, and the host
/// is kept from sleeping by no message that asks.
pub proof fn law_power_messages(message: u32)
    ensures
        action_of(message) == PowerAction::SyncTime <==> message == 0xe0000300,
        action_of(message) == PowerAction::Acknowledge <==> message == 0xe0000280 || message
            == 0xe0000270,
{
}

/// The guest is told the time exactly where the host's clock was read, the
/// agent was reached and the line was sent; whether it answers does not
/// matter.
pub proof fn law_guest_is_told_the_time(nanos: u128, time: i64, answer: SyncEvent)
    requires
        answer == SyncEvent::Done || answer == SyncEvent::Failed,
    ensures
        sync_step(SyncStage::ReadClock, SyncEvent::Failed) == SyncStage::Abandoned,
        sync_step(SyncStage::ReadClock, SyncEvent::Clock(nanos)) == (SyncStage::Connect {
            time: agent_time(nanos) as i64,
        }),
        sync_step(SyncStage::Connect { time }, SyncEvent::Done) == (SyncStage::Send { time }),
        sync_step(SyncStage::Connect { time }, SyncEvent::Failed) == SyncStage::Abandoned,
        sync_step(SyncStage::Send { time }, SyncEvent::Done) == SyncStage::Receive,
        sync_step(SyncStage::Send { time }, SyncEvent::Failed) == SyncStage::Abandoned,
        sync_step(SyncStage::Receive, answer) == SyncStage::Synchronized,
        sync_step(SyncStage::Synchronized, answer) == SyncStage::Synchronized,
        sync_step(SyncStage::Abandoned, answer) == SyncStage::Abandoned,
{
}

/// The agent's time fits its type and is the host's up to multiples of two to
/// the power of 64.
pub proof fn law_agent_time(nanos: u128)
    ensures
        i64::MIN <= agent_time(nanos) <= i64::MAX,
        (nanos - agent_time(nanos)) % 0x1_0000_0000_0000_0000 == 0,
{
}

/// The watcher listens before it sets the clock, and sets it once before it
/// waits for messages. It waits only where it is registered and has a source,
/// and acknowledges through the port that it was given.
pub proof fn law_watcher_sets_the_clock_before_it_waits(stage: WatchStage, value: u32)
    ensures
        value != 0 ==> watch_step(WatchStage::Register, value) == (WatchStage::SetPort {
            root_port: value,
        }),
        watch_step(stage, value) is Run <==> stage is SyncOnce,
        watch_step(stage, value) is SyncOnce <==> stage is AddSource,
        watch_step(stage, value) is AddSource <==> stage is GetSource && value != 0,
        watch_step(stage, value) is GetSource <==> stage is SetPort,
        stage is Run ==> watch_step(stage, value) is Deregister,
{
}

/// The line for the guest agent is one line that holds the time as a number.
pub proof fn law_line_holds_the_time(time: i64)
    ensures
        ({
            let s = set_time_line(time as int);
            let head = "{\"execute\": \"guest-set-time\", \"arguments\": {\"time\": "@;
            &&& s.len() > head.len() + 3
            &&& s.take(head.len() as int) == head
            &&& parse_signed(
                s.subrange(head.len() as int, s.len() - 3),
                i64::MIN as int,
                i64::MAX as int,
            ) == Some(time as int)
            &&& s.skip(s.len() - 3) == seq!['}', '}', '\n']
        }),
{
    let s = set_time_line(time as int);
    let head = "{\"execute\": \"guest-set-time\", \"arguments\": {\"time\": "@;
    reveal_strlit("}}\n");
    law_signed_decimal_round_trip(time as int, i64::MIN as int, i64::MAX as int);
    if time >= 0 {
        lemma_decimal(time as nat);
    }
    assert(s.take(head.len() as int) =~= head);
    assert(s.subrange(head.len() as int, s.len() - 3) =~= signed_decimal(time as int));
    assert(s.skip(s.len() - 3) =~= seq!['}', '}', '\n']);
}

} // verus!
