//! What a run of the program prints, writes and proxies.
use vstd::prelude::*;

use crate::config::device::{devices_view, Device, DeviceView};
use crate::error::{Error, ErrorView};
use crate::number::{decimal, push_decimal, push_two_digits, two_digits};
use crate::text::join3;
use crate::vm::metrics::{usage_text, ResourceUsage};

verus! {

/// The time of day in UTC, as `HH:MM:SS`.
pub open spec fn time_of_day(secs: nat) -> Seq<char> {
    two_digits(secs / 3600 % 24) + seq![':'] + two_digits(secs / 60 % 60) + seq![':'] + two_digits(
        secs % 60,
    )
}

/// The time of day in UTC, as `HH:MM:SS`, at a number of seconds since the
/// epoch.
pub fn chrono_like_timestamp(secs: u64) -> (r: String)
    ensures
        r@ == time_of_day(secs as nat),
{
    let mut r = String::new();
    push_two_digits(&mut r, secs / 3600 % 24);
    r.push(':');
    push_two_digits(&mut r, secs / 60 % 60);
    r.push(':');
    push_two_digits(&mut r, secs % 60);
    assert(r@ =~= time_of_day(secs as nat));
    r
}

/// The time of day is always eight characters long and comes round after a
/// day.
pub proof fn law_time_of_day(secs: nat)
    ensures
        time_of_day(secs).len() == 8,
        time_of_day(secs + 86_400) == time_of_day(secs),
{
    let later = secs + 86_400;
    let hours = secs / 3600;
    let minutes = secs / 60;
    assert(later / 3600 == hours + 24);
    assert((hours + 24) % 24 == hours % 24);
    assert(later / 60 == minutes + 1440);
    assert((minutes + 1440) % 60 == minutes % 60);
    assert(later % 60 == secs % 60);
}

/// One report of the resource usage.
pub open spec fn metrics_text(secs: nat, pid: u32, usage: ResourceUsage) -> Seq<char> {
    "["@ + time_of_day(secs) + "] pid="@ + decimal(pid as nat) + " "@ + usage_text(usage)
}

/// One report of the resource usage. A worker without a number counts as
/// zero.
pub fn metrics_line(secs: u64, pid: Option<u32>, usage: &ResourceUsage) -> (r: String)
    requires
        usage.cpu_user_ns + usage.cpu_system_ns <= u64::MAX,
    ensures
        r@ == metrics_text(
            secs as nat,
            match pid {
                Some(p) => p,
                None => 0,
            },
            *usage,
        ),
{
    let number: u32 = match pid {
        Some(p) => p,
        None => 0,
    };
    let mut r = join3("[", chrono_like_timestamp(secs).as_str(), "] pid=");
    push_decimal(&mut r, number as u64);
    r.append(" ");
    r.append(usage.to_string().as_str());
    r
}

/// What a PID file holds.
pub fn pid_file_content(pid: u32) -> (r: String)
    ensures
        r@ == decimal(pid as nat),
{
    let mut r = String::new();
    push_decimal(&mut r, pid as u64);
    assert(r@ =~= decimal(pid as nat));
    r
}

/// The message where a PID file could not be written.
pub fn pid_file_error(path: &str, reason: &str) -> (r: String)
    ensures
        r@ == "failed to write PID file '"@ + path@ + "': "@ + reason@,
{
    let mut r = join3("failed to write PID file '", path, "': ");
    r.append(reason);
    r
}

/// A Virtio socket that is proxied to a socket of the host.
#[derive(Debug)]
pub struct VsockProxy {
    pub port: u32,
    pub socket_url: String,
    pub listen: bool,
}

/// A [`VsockProxy`] over sequences of characters.
pub struct VsockProxyView {
    pub port: u32,
    pub socket_url: Seq<char>,
    pub listen: bool,
}

impl View for VsockProxy {
    type V = VsockProxyView;

    open spec fn view(&self) -> VsockProxyView {
        VsockProxyView { port: self.port, socket_url: self.socket_url@, listen: self.listen }
    }
}

/// The views of a list of proxies.
pub open spec fn proxies_view(proxies: Seq<VsockProxy>) -> Seq<VsockProxyView> {
    proxies.map_values(|p: VsockProxy| p@)
}

/// The proxy that a device asks for.
pub open spec fn proxy_of(device: DeviceView) -> Option<VsockProxyView> {
    match device {
        DeviceView::VirtioVsock(v) => match v.socket_url {
            Some(socket_url) => Some(
                VsockProxyView { port: v.port, socket_url, listen: v.listen },
            ),
            None => None,
        },
        _ => None,
    }
}

/// The proxies that the devices ask for, in order.
pub open spec fn proxies_of(devices: Seq<DeviceView>) -> Seq<VsockProxyView>
    decreases devices.len(),
{
    if devices.len() == 0 {
        Seq::empty()
    } else {
        match proxy_of(devices.last()) {
            Some(p) => proxies_of(devices.drop_last()).push(p),
            None => proxies_of(devices.drop_last()),
        }
    }
}

/// The proxies that the devices ask for: one for each Virtio socket with a
/// socket on the host.
pub fn collect_vsock_proxies(devices: &Vec<Device>) -> (r: Vec<VsockProxy>)
    ensures
        proxies_view(r@) == proxies_of(devices_view(devices@)),
{
    let ghost all = devices_view(devices@);
    let mut r: Vec<VsockProxy> = Vec::new();
    let mut i: usize = 0;
    assert(all.take(0) =~= Seq::empty());
    assert(proxies_view(r@) =~= Seq::empty());
    while i < devices.len()
        invariant
            i <= devices@.len(),
            all == devices_view(devices@),
            proxies_view(r@) == proxies_of(all.take(i as int)),
        decreases devices@.len() - i,
    {
        let ghost before = proxies_view(r@);
        proof {
            assert(all.take(i + 1).drop_last() =~= all.take(i as int));
            assert(all.take(i + 1).last() == devices@[i as int]@);
        }
        if let Device::VirtioVsock(v) = &devices[i] {
            if let Some(url) = &v.socket_url {
                let p = VsockProxy { port: v.port, socket_url: url.clone(), listen: v.listen };
                r.push(p);
                assert(proxies_view(r@) =~= before.push(p@));
            }
        }
        i += 1;
    }
    assert(all.take(devices@.len() as int) =~= all);
    r
}

/// What is done next to serve a socket of the host from the guest.
#[derive(Debug, Clone, Copy, PartialEq, Eq, Structural)]
pub enum ConnectProxyStage {
    /// Remove what is left at the path. Whether that succeeds does not matter.
    RemoveStale,
    /// Listen at the path.
    Bind,
    /// Take connections, each with a session of its own.
    Accept,
    /// Nothing is served.
    Failed,
}

impl ConnectProxyStage {
    /// The stage after a step that was done or not. A connection that could
    /// not be taken is passed over.
    pub open spec fn next(self, ok: bool) -> ConnectProxyStage {
        match self {
            ConnectProxyStage::RemoveStale => ConnectProxyStage::Bind,
            ConnectProxyStage::Bind => if ok {
                ConnectProxyStage::Accept
            } else {
                ConnectProxyStage::Failed
            },
            ConnectProxyStage::Accept => ConnectProxyStage::Accept,
            ConnectProxyStage::Failed => ConnectProxyStage::Failed,
        }
    }

    /// Takes whether a step was done.
    pub fn advance(self, ok: bool) -> (r: ConnectProxyStage)
        ensures
            r == self.next(ok),
    {
        match self {
            ConnectProxyStage::RemoveStale => ConnectProxyStage::Bind,
            ConnectProxyStage::Bind => if ok {
                ConnectProxyStage::Accept
            } else {
                ConnectProxyStage::Failed
            },
            ConnectProxyStage::Accept => ConnectProxyStage::Accept,
            ConnectProxyStage::Failed => ConnectProxyStage::Failed,
        }
    }
}

/// The error where nobody can listen at a path.
pub fn bind_error(path: &str, reason: &str) -> (r: Error)
    ensures
        r@ == ErrorView::InvalidDevice(
            "failed to bind unix socket at "@ + path@ + ": "@ + reason@,
        ),
{
    let mut m = join3("failed to bind unix socket at ", path, ": ");
    m.append(reason);
    Error::InvalidDevice(m)
}

/// What is done next for one connection to a served socket.
#[derive(Debug, Clone, Copy, PartialEq, Eq, Structural)]
pub enum SessionStage {
    /// Connect to this port of the guest.
    Connect { port: u32 },
    /// Make a second handle to the host's socket, one for each direction.
    CloneStream,
    /// Relay both directions until each has come to its end.
    Relay,
    /// Nothing more is done.
    Ended,
}

impl SessionStage {
    /// The stage after a step that was done or not.
    pub open spec fn next(self, ok: bool) -> SessionStage {
        match self {
            SessionStage::Connect { .. } => if ok {
                SessionStage::CloneStream
            } else {
                SessionStage::Ended
            },
            SessionStage::CloneStream => if ok {
                SessionStage::Relay
            } else {
                SessionStage::Ended
            },
            SessionStage::Relay => SessionStage::Ended,
            SessionStage::Ended => SessionStage::Ended,
        }
    }

    /// Takes whether a step was done.
    pub fn advance(self, ok: bool) -> (r: SessionStage)
        ensures
            r == self.next(ok),
    {
        match self {
            SessionStage::Connect { port: _ } => if ok {
                SessionStage::CloneStream
            } else {
                SessionStage::Ended
            },
            SessionStage::CloneStream => if ok {
                SessionStage::Relay
            } else {
                SessionStage::Ended
            },
            SessionStage::Relay => SessionStage::Ended,
            SessionStage::Ended => SessionStage::Ended,
        }
    }
}

/// Bytes are relayed only where the guest was reached and both directions
/// have a handle to the host's socket.
pub proof fn law_session_relays_only_when_connected(port: u32, connected: bool, cloned: bool)
    ensures
        (SessionStage::Connect { port }).next(connected).next(cloned) == SessionStage::Relay <==> (
        connected && cloned),
{
}

/// What is done next to shut the machine down.
#[derive(Debug, Clone, Copy, PartialEq, Eq, Structural)]
pub enum ShutdownStage {
    /// Ask the guest.
    RequestStop,
    /// Stop it by force.
    ForceStop,
    /// Nothing more is done.
    Ended,
}

impl ShutdownStage {
    /// The stage after a step that succeeded or not: the guest is stopped by
    /// force only where it could not be asked.
    pub open spec fn next(self, ok: bool) -> ShutdownStage {
        if self == ShutdownStage::RequestStop && !ok {
            ShutdownStage::ForceStop
        } else {
            ShutdownStage::Ended
        }
    }

    /// Takes whether a step succeeded.
    pub fn advance(self, ok: bool) -> (r: ShutdownStage)
        ensures
            r == self.next(ok),
    {
        match self {
            ShutdownStage::RequestStop => if ok {
                ShutdownStage::Ended
            } else {
                ShutdownStage::ForceStop
            },
            ShutdownStage::ForceStop => ShutdownStage::Ended,
            ShutdownStage::Ended => ShutdownStage::Ended,
        }
    }
}

/// The time of day names the hour, the minute and the second, whatever the
/// day.
pub proof fn law_time_of_day_is_read_off(day: nat, hour: nat, minute: nat, second: nat)
    requires
        hour < 24,
        minute < 60,
        second < 60,
    ensures
        time_of_day(day * 86_400 + hour * 3600 + minute * 60 + second) == two_digits(hour)
            + seq![':'] + two_digits(minute) + seq![':'] + two_digits(second),
{
    let secs = day * 86_400 + hour * 3600 + minute * 60 + second;
    assert(secs / 3600 == day * 24 + hour);
    assert((day * 24 + hour) % 24 == hour);
    assert(secs / 60 == day * 1440 + hour * 60 + minute);
    assert((day * 1440 + hour * 60 + minute) % 60 == minute);
    assert(secs % 60 == second);
}

/// Whether a device is a Virtio socket with a socket on the host.
pub open spec fn is_proxied_vsock(d: DeviceView) -> bool {
    d matches DeviceView::VirtioVsock(v) && v.socket_url is Some
}

/// There is one proxy for each Virtio socket with a socket on the host, in the
/// order of the devices, with the port, the socket and the side that listens
/// of that device.
pub proof fn law_proxies_of_the_devices(devices: Seq<DeviceView>)
    ensures
        ({
            let sockets = devices.filter(|d: DeviceView| is_proxied_vsock(d));
            &&& proxies_of(devices).len() == sockets.len()
            &&& forall|k: int|
                0 <= k < sockets.len() ==> ((#[trigger] sockets[k]) matches DeviceView::VirtioVsock(
                    v,
                ) && proxies_of(devices)[k].port == v.port && Some(proxies_of(devices)[k].socket_url)
                    == v.socket_url && proxies_of(devices)[k].listen == v.listen)
        }),
    decreases devices.len(),
{
    reveal(Seq::filter);
    if devices.len() > 0 {
        law_proxies_of_the_devices(devices.drop_last());
    }
}

/// A socket of the host is served exactly where somebody could listen at its
/// path. What was left at the path does not matter, nor does a connection that
/// could not be taken.
pub proof fn law_sockets_that_are_served(removed: bool, bound: bool, taken: bool)
    ensures
        ConnectProxyStage::RemoveStale.next(removed).next(bound) == ConnectProxyStage::Accept
            <==> bound,
        ConnectProxyStage::RemoveStale.next(removed) == ConnectProxyStage::Bind,
        !bound ==> ConnectProxyStage::RemoveStale.next(removed).next(bound).next(taken)
            == ConnectProxyStage::Failed,
        ConnectProxyStage::Accept.next(taken) == ConnectProxyStage::Accept,
{
}

/// A session ends at once where the guest cannot be reached or there is no
/// second handle, and after the relay otherwise; one that has ended stays so.
pub proof fn law_sessions_end(port: u32, ok: bool)
    ensures
        (SessionStage::Connect { port }).next(true) == SessionStage::CloneStream,
        (SessionStage::Connect { port }).next(false) == SessionStage::Ended,
        SessionStage::CloneStream.next(false) == SessionStage::Ended,
        SessionStage::Relay.next(ok) == SessionStage::Ended,
        SessionStage::Ended.next(ok) == SessionStage::Ended,
{
}

/// The guest is asked first. It is stopped by force exactly where it could not
/// be asked, and nothing more is done after that.
pub proof fn law_shutdown_asks_first(asked: bool, forced: bool)
    ensures
        ShutdownStage::RequestStop.next(asked) == ShutdownStage::ForceStop <==> !asked,
        asked ==> ShutdownStage::RequestStop.next(asked) == ShutdownStage::Ended,
        ShutdownStage::ForceStop.next(forced) == ShutdownStage::Ended,
        ShutdownStage::Ended.next(asked) == ShutdownStage::Ended,
{
}

/// A report shows the time of day, the number of the worker and the sample, in
/// this order.
pub proof fn law_report_line(
    day: nat,
    hour: nat,
    minute: nat,
    second: nat,
    pid: u32,
    usage: ResourceUsage,
)
    requires
        hour < 24,
        minute < 60,
        second < 60,
    ensures
        metrics_text(day * 86_400 + hour * 3600 + minute * 60 + second, pid, usage) == "["@
            + two_digits(hour) + seq![':'] + two_digits(minute) + seq![':'] + two_digits(second)
            + "] pid="@ + decimal(pid as nat) + " "@ + usage_text(usage),
{
    law_time_of_day_is_read_off(day, hour, minute, second);
    assert(metrics_text(day * 86_400 + hour * 3600 + minute * 60 + second, pid, usage) =~= "["@
        + two_digits(hour) + seq![':'] + two_digits(minute) + seq![':'] + two_digits(second)
        + "] pid="@ + decimal(pid as nat) + " "@ + usage_text(usage));
}

} // verus!
