//! Connections between host and guest over Virtio sockets.
use vstd::prelude::*;

use crate::error::{outcome, Error, ErrorView};

verus! {

/// How many connections of the guest can wait to be taken.
pub const LISTEN_CHANNEL_CAPACITY: usize = 64;

/// A connection to or from the guest.
///
/// The descriptor is a duplicate of the framework's, so it outlives the
/// framework's connection object and can be used from any thread.
#[derive(Debug)]
pub struct VsockConnection {
    fd: i32,
    source_port: u32,
    destination_port: u32,
}

/// A [`VsockConnection`] without its private fields.
pub struct VsockConnectionView {
    pub fd: i32,
    pub source_port: u32,
    pub destination_port: u32,
}

impl View for VsockConnection {
    type V = VsockConnectionView;

    closed spec fn view(&self) -> VsockConnectionView {
        VsockConnectionView {
            fd: self.fd,
            source_port: self.source_port,
            destination_port: self.destination_port,
        }
    }
}

/// The outcome of making a connection, over views.
pub open spec fn connection_outcome(r: Result<VsockConnection, Error>) -> Result<
    VsockConnectionView,
    ErrorView,
> {
    match r {
        Ok(c) => Ok(c@),
        Err(e) => Err(e@),
    }
}

/// Whether the framework's descriptor can be duplicated.
pub fn check_connection_fd(raw_fd: i32) -> (r: Result<(), Error>)
    ensures
        outcome(r) == if raw_fd < 0 {
            Err::<(), ErrorView>(
                ErrorView::DispatchError("vsock connection has invalid file descriptor (-1)"@),
            )
        } else {
            Ok(())
        },
{
    if raw_fd < 0 {
        return Err(
            Error::DispatchError("vsock connection has invalid file descriptor (-1)".to_owned()),
        );
    }
    Ok(())
}

/// The connection that comes of a descriptor of the framework and of what
/// duplicating it returned.
pub open spec fn duplicated(
    raw_fd: i32,
    duped: i32,
    os_error: Seq<char>,
    source_port: u32,
    destination_port: u32,
) -> Result<VsockConnectionView, ErrorView> {
    if raw_fd < 0 {
        Err(ErrorView::DispatchError("vsock connection has invalid file descriptor (-1)"@))
    } else if duped < 0 {
        Err(ErrorView::Io(os_error))
    } else {
        Ok(VsockConnectionView { fd: duped, source_port, destination_port })
    }
}

impl VsockConnection {
    /// The connection that comes of a descriptor of the framework and of what
    /// duplicating it returned.
    pub fn from_duplicate(
        raw_fd: i32,
        duped: i32,
        os_error: String,
        source_port: u32,
        destination_port: u32,
    ) -> (r: Result<Self, Error>)
        ensures
            connection_outcome(r) == duplicated(
                raw_fd,
                duped,
                os_error@,
                source_port,
                destination_port,
            ),
    {
        match check_connection_fd(raw_fd) {
            Ok(_) => if duped < 0 {
                Err(Error::Io(os_error))
            } else {
                Ok(VsockConnection { fd: duped, source_port, destination_port })
            },
            Err(e) => Err(e),
        }
    }

    /// The descriptor.
    pub fn fd(&self) -> (r: i32)
        ensures
            r == self@.fd,
    {
        self.fd
    }

    /// The port on the side of the host.
    pub fn source_port(&self) -> (r: u32)
        ensures
            r == self@.source_port,
    {
        self.source_port
    }

    /// The port on the side of the guest.
    pub fn destination_port(&self) -> (r: u32)
        ensures
            r == self@.destination_port,
    {
        self.destination_port
    }

    /// What a `read` of the descriptor means: how many bytes it got, or the
    /// system's error.
    pub fn read(&self, ret: isize, os_error: String) -> (r: Result<usize, String>)
        ensures
            io_outcome(r) == transferred(ret, os_error@),
    {
        if ret < 0 {
            Err(os_error)
        } else {
            Ok(ret as usize)
        }
    }

    /// What a `write` to the descriptor means: how many bytes it took, or the
    /// system's error.
    pub fn write(&self, ret: isize, os_error: String) -> (r: Result<usize, String>)
        ensures
            io_outcome(r) == transferred(ret, os_error@),
    {
        if ret < 0 {
            Err(os_error)
        } else {
            Ok(ret as usize)
        }
    }
}

/// What the return value of `read` or `write` means.
pub open spec fn transferred(ret: isize, os_error: Seq<char>) -> Result<usize, Seq<char>> {
    if ret < 0 {
        Err(os_error)
    } else {
        Ok(ret as usize)
    }
}

/// The outcome of a transfer, over views.
pub open spec fn io_outcome(r: Result<usize, String>) -> Result<usize, Seq<char>> {
    match r {
        Ok(n) => Ok(n),
        Err(e) => Err(e@),
    }
}

/// The first socket device of a VM with `count` of them.
pub fn get_first_vsock_device(count: usize) -> (r: Result<usize, Error>)
    ensures
        outcome(r) == if count == 0 {
            Err::<usize, ErrorView>(
                ErrorView::InvalidDevice("VM has no socket devices configured"@),
            )
        } else {
            Ok(0usize)
        },
{
    if count == 0 {
        return Err(Error::InvalidDevice("VM has no socket devices configured".to_owned()));
    }
    Ok(0)
}

/// What the framework answers to a request to connect: an error, a
/// connection that was duplicated or not, or neither.
#[derive(Debug)]
pub enum ConnectAnswer {
    Error(Error),
    Connection(Result<VsockConnection, Error>),
    Nothing,
}

/// What comes of a request to connect to the guest. `answer` is missing where
/// the framework went away without one.
pub open spec fn connected(answer: Option<ConnectAnswer>) -> Result<
    VsockConnectionView,
    ErrorView,
> {
    match answer {
        Some(ConnectAnswer::Error(e)) => Err(e@),
        Some(ConnectAnswer::Nothing) => Err(
            ErrorView::DispatchError(
                "vsock connectToPort returned nil connection without error"@,
            ),
        ),
        Some(ConnectAnswer::Connection(c)) => connection_outcome(c),
        None => Err(ErrorView::DispatchError("vsock connect channel closed"@)),
    }
}

/// What comes of a request to connect to the guest.
pub fn connect_vsock(answer: Option<ConnectAnswer>) -> (r: Result<VsockConnection, Error>)
    ensures
        connection_outcome(r) == connected(answer),
{
    match answer {
        Some(ConnectAnswer::Error(e)) => Err(e),
        Some(ConnectAnswer::Nothing) => Err(
            Error::DispatchError(
                "vsock connectToPort returned nil connection without error".to_owned(),
            ),
        ),
        Some(ConnectAnswer::Connection(c)) => c,
        None => Err(Error::DispatchError("vsock connect channel closed".to_owned())),
    }
}

/// What comes of a request to listen for the guest. `answer` is missing where
/// the framework went away without one.
pub open spec fn listening(answer: Option<Result<(), Error>>) -> Result<(), ErrorView> {
    match answer {
        Some(result) => outcome(result),
        None => Err(ErrorView::DispatchError("vsock listen setup channel closed"@)),
    }
}

/// Somebody listens exactly where the framework says so, and an error of the
/// framework is handed on as it is.
pub proof fn law_listening(answer: Option<Result<(), Error>>)
    ensures
        listening(answer) is Ok <==> (answer matches Some(result) && result is Ok),
        answer matches Some(Err(e)) ==> listening(answer) == Err::<(), ErrorView>(e@),
        answer is None ==> (listening(answer) matches Err(e) && e is DispatchError),
{
}

/// What comes of a request to listen for the guest. `answer` is missing where
/// the framework went away without one.
pub fn listen_vsock(answer: Option<Result<(), Error>>) -> (r: Result<(), Error>)
    ensures
        outcome(r) == listening(answer),
{
    match answer {
        Some(result) => result,
        None => Err(Error::DispatchError("vsock listen setup channel closed".to_owned())),
    }
}

/// What became of a connection that was offered to whoever listens.
#[derive(Debug, Clone, Copy, PartialEq, Eq, Structural)]
pub enum Offer {
    /// It was handed over.
    Taken,
    /// Too many connections wait already.
    Full,
    /// Nobody listens any more.
    Closed,
}

/// Whether a connection of the guest is accepted: somebody listens, its
/// descriptor could be duplicated, and it was handed over.
pub fn listener_should_accept(has_listener: bool, duplicated: bool, offer: Offer) -> (r: bool)
    ensures
        r == (has_listener && duplicated && offer == Offer::Taken),
{
    has_listener && duplicated && match offer {
        Offer::Taken => true,
        Offer::Full => false,
        Offer::Closed => false,
    }
}

/// There is a connection exactly where the framework's descriptor is a good
/// one and could be duplicated; it is the duplicate, with the two ports as
/// they were given.
pub proof fn law_connections_own_a_duplicate(
    raw_fd: i32,
    duped: i32,
    os_error: Seq<char>,
    source_port: u32,
    destination_port: u32,
)
    ensures
        ({
            let r = duplicated(raw_fd, duped, os_error, source_port, destination_port);
            &&& r is Ok <==> raw_fd >= 0 && duped >= 0
            &&& r matches Ok(c) ==> c.fd == duped && c.source_port == source_port
                && c.destination_port == destination_port
            &&& raw_fd >= 0 && duped < 0 ==> r == Err::<VsockConnectionView, ErrorView>(
                ErrorView::Io(os_error),
            )
            &&& raw_fd < 0 ==> (r matches Err(e) && e is DispatchError)
        }),
{
}

/// A request to connect succeeds exactly where the framework answered with a
/// connection that was duplicated, and gives that one. An error of the
/// framework is handed on; no answer is an error too.
pub proof fn law_connect_gives_the_connection(answer: Option<ConnectAnswer>)
    ensures
        connected(answer) is Ok <==> (answer matches Some(ConnectAnswer::Connection(c)) && c is Ok),
        answer matches Some(ConnectAnswer::Connection(Ok(c))) ==> connected(answer) == Ok::<
            VsockConnectionView,
            ErrorView,
        >(c@),
        answer matches Some(ConnectAnswer::Connection(Err(e))) ==> connected(answer) == Err::<
            VsockConnectionView,
            ErrorView,
        >(e@),
        answer matches Some(ConnectAnswer::Error(e)) ==> connected(answer) == Err::<
            VsockConnectionView,
            ErrorView,
        >(e@),
        answer is None || answer == Some(ConnectAnswer::Nothing) ==> (connected(answer) matches Err(
            e,
        ) && e is DispatchError),
{
}

/// A transfer has moved as many bytes as the call returned; a negative number
/// is the system's error.
pub proof fn law_transfers_count_bytes(ret: isize, os_error: Seq<char>)
    ensures
        ret >= 0 ==> (transferred(ret, os_error) matches Ok(n) && n == ret),
        ret < 0 ==> transferred(ret, os_error) == Err::<usize, Seq<char>>(os_error),
{
}

} // verus!
