//! Connecting a network device to a datagram socket.
//!
//! The setup is a sequence of system calls. [`UnixSocketSetup`] says which
//! call comes next and takes its answer; whoever drives it only performs the
//! calls.
use vstd::prelude::*;

use crate::error::{Error, ErrorView};
use crate::number::{
    decimal, law_signed_decimal_round_trip, push_decimal, push_signed_decimal, signed_decimal,
};
use crate::text::{byte_len, byte_length, contains_char, join2};

verus! {

/// The length of `sun_path` in a socket address, which the terminating zero
/// is part of.
pub const SUN_PATH_MAX: usize = 104;

/// The send buffer of the socket, in bytes.
pub const SEND_BUFFER: i32 = 1_048_576;

/// The receive buffer of the socket, in bytes.
pub const RECEIVE_BUFFER: i32 = 4_194_304;

/// The call that comes next, or how the setup ended.
#[derive(Debug, Clone, Copy, PartialEq, Eq, Structural)]
pub enum SocketStage {
    /// Open a datagram socket.
    Create,
    /// Remove what is left at the local path. Whether that succeeds does not
    /// matter.
    Unlink { sock: i32 },
    /// Bind the socket to the local path.
    Bind { sock: i32 },
    /// Connect the socket to the remote path.
    Connect { sock: i32 },
    /// Set the size of the send buffer. Whether that succeeds does not matter.
    SetSendBuffer { sock: i32 },
    /// Set the size of the receive buffer. Whether that succeeds does not
    /// matter.
    SetReceiveBuffer { sock: i32 },
    /// Duplicate the socket.
    Duplicate { sock: i32 },
    /// Close the socket; its duplicate is the result.
    CloseOriginal { sock: i32, duplicate: i32 },
    /// Close the socket; the setup has failed.
    CloseFailed { sock: i32 },
    /// The descriptor to hand to the framework.
    Finished { fd: i32 },
    /// Nothing is left open.
    Failed,
}

/// Sets up a connected datagram socket.
#[derive(Debug)]
pub struct UnixSocketSetup {
    remote: String,
    local: String,
    stage: SocketStage,
    failure: Option<Error>,
}

/// A [`UnixSocketSetup`] over sequences of characters.
pub struct UnixSocketView {
    pub remote: Seq<char>,
    pub local: Seq<char>,
    pub stage: SocketStage,
    pub failure: Option<ErrorView>,
}

impl View for UnixSocketSetup {
    type V = UnixSocketView;

    closed spec fn view(&self) -> UnixSocketView {
        UnixSocketView {
            remote: self.remote@,
            local: self.local@,
            stage: self.stage,
            failure: match self.failure {
                Some(e) => Some(e@),
                None => None,
            },
        }
    }
}

impl UnixSocketView {
    /// The setup once the socket has to be closed because of `message`.
    pub open spec fn fail(self, sock: i32, message: Seq<char>) -> UnixSocketView {
        UnixSocketView {
            stage: SocketStage::CloseFailed { sock },
            failure: Some(ErrorView::InvalidDevice(message)),
            ..self
        }
    }

    /// The setup at another stage.
    pub open spec fn at(self, stage: SocketStage) -> UnixSocketView {
        UnixSocketView { stage, ..self }
    }
}

/// The setup after the call of the current stage returned `ret`; `os_error`
/// is the system's text for the error where it failed.
pub open spec fn socket_step(v: UnixSocketView, ret: i32, os_error: Seq<char>) -> UnixSocketView {
    match v.stage {
        SocketStage::Create => if ret < 0 {
            UnixSocketView {
                stage: SocketStage::Failed,
                failure: Some(
                    ErrorView::InvalidDevice("socket(AF_UNIX, SOCK_DGRAM) failed: "@ + os_error),
                ),
                ..v
            }
        } else if v.local.contains('\0') {
            v.fail(ret, "local socket path contains null bytes"@)
        } else {
            v.at(SocketStage::Unlink { sock: ret })
        },
        SocketStage::Unlink { sock } => if byte_len(v.local) >= SUN_PATH_MAX {
            v.fail(sock, "local ephemeral socket path too long"@)
        } else {
            v.at(SocketStage::Bind { sock })
        },
        SocketStage::Bind { sock } => if ret != 0 {
            v.fail(sock, "bind() failed for unix socket: "@ + os_error)
        } else if v.remote.contains('\0') {
            v.fail(sock, "remote socket path contains null bytes"@)
        } else {
            v.at(SocketStage::Connect { sock })
        },
        SocketStage::Connect { sock } => if ret != 0 {
            v.fail(
                sock,
                "connect() failed for unix socket to "@ + v.remote + ": "@ + os_error,
            )
        } else {
            v.at(SocketStage::SetSendBuffer { sock })
        },
        SocketStage::SetSendBuffer { sock } => v.at(SocketStage::SetReceiveBuffer { sock }),
        SocketStage::SetReceiveBuffer { sock } => v.at(SocketStage::Duplicate { sock }),
        SocketStage::Duplicate { sock } => if ret < 0 {
            v.fail(sock, "dup() failed: "@ + os_error)
        } else {
            v.at(SocketStage::CloseOriginal { sock, duplicate: ret })
        },
        SocketStage::CloseOriginal { duplicate, .. } => v.at(
            SocketStage::Finished { fd: duplicate },
        ),
        SocketStage::CloseFailed { .. } => v.at(SocketStage::Failed),
        SocketStage::Finished { .. } => v,
        SocketStage::Failed => v,
    }
}

/// The setup of a socket before its first call.
pub open spec fn first_call(remote: Seq<char>, local: Seq<char>) -> UnixSocketView {
    UnixSocketView { remote, local, stage: SocketStage::Create, failure: None }
}

/// The setup before its first call, or why there is none.
pub open spec fn socket_setup(remote: Seq<char>, local: Seq<char>) -> Result<
    UnixSocketView,
    ErrorView,
> {
    if byte_len(remote) >= SUN_PATH_MAX {
        Err(
            ErrorView::InvalidDevice(
                "unix socket path too long ("@ + decimal(byte_len(remote)) + " bytes, max 103)"@,
            ),
        )
    } else {
        Ok(first_call(remote, local))
    }
}

/// The name of the local socket of the process `pid`.
pub open spec fn local_name(pid: i32) -> Seq<char> {
    "vfrust-net-"@ + signed_decimal(pid as int)
}

/// The name of the local socket of the process `pid`, in the directory for
/// temporary files.
pub fn local_socket_name(pid: i32) -> (r: String)
    ensures
        r@ == local_name(pid),
{
    let mut r = "vfrust-net-".to_owned();
    push_signed_decimal(&mut r, pid as i64);
    r
}

impl UnixSocketSetup {
    /// Starts the setup of a socket that is bound to `local` and connected to
    /// `remote`.
    pub fn begin(remote: &str, local: &str) -> (r: Result<Self, Error>)
        ensures
            crate::error::result_view(r) == socket_setup(remote@, local@),
    {
        if byte_length(remote) >= SUN_PATH_MAX {
            let mut m = "unix socket path too long (".to_owned();
            push_decimal(&mut m, byte_length(remote) as u64);
            m.append(" bytes, max 103)");
            return Err(Error::InvalidDevice(m));
        }
        Ok(
            UnixSocketSetup {
                remote: remote.to_owned(),
                local: local.to_owned(),
                stage: SocketStage::Create,
                failure: None,
            },
        )
    }

    /// The call that comes next, or how the setup ended.
    pub fn stage(&self) -> (r: SocketStage)
        ensures
            r == self@.stage,
    {
        self.stage
    }

    /// The path to connect to.
    pub fn remote(&self) -> (r: &str)
        ensures
            r@ == self@.remote,
    {
        self.remote.as_str()
    }

    /// The path to bind to.
    pub fn local(&self) -> (r: &str)
        ensures
            r@ == self@.local,
    {
        self.local.as_str()
    }

    /// The error, once the setup has failed.
    pub fn into_failure(self) -> (r: Option<Error>)
        ensures
            self@.failure == match r {
                Some(e) => Some(e@),
                None => None,
            },
    {
        self.failure
    }

    fn fail(&mut self, sock: i32, message: String)
        ensures
            final(self)@ == old(self)@.fail(sock, message@),
    {
        self.stage = SocketStage::CloseFailed { sock };
        self.failure = Some(Error::InvalidDevice(message));
    }

    /// Takes what the call of the current stage returned.
    pub fn advance(&mut self, ret: i32, os_error: &str)
        ensures
            final(self)@ == socket_step(old(self)@, ret, os_error@),
    {
        match self.stage {
            SocketStage::Create => {
                if ret < 0 {
                    self.stage = SocketStage::Failed;
                    self.failure = Some(
                        Error::InvalidDevice(
                            join2("socket(AF_UNIX, SOCK_DGRAM) failed: ", os_error),
                        ),
                    );
                } else if contains_char(self.local.as_str(), '\0') {
                    self.fail(ret, "local socket path contains null bytes".to_owned());
                } else {
                    self.stage = SocketStage::Unlink { sock: ret };
                }
            },
            SocketStage::Unlink { sock } => {
                if byte_length(self.local.as_str()) >= SUN_PATH_MAX {
                    self.fail(sock, "local ephemeral socket path too long".to_owned());
                } else {
                    self.stage = SocketStage::Bind { sock };
                }
            },
            SocketStage::Bind { sock } => {
                if ret != 0 {
                    self.fail(sock, join2("bind() failed for unix socket: ", os_error));
                } else if contains_char(self.remote.as_str(), '\0') {
                    self.fail(sock, "remote socket path contains null bytes".to_owned());
                } else {
                    self.stage = SocketStage::Connect { sock };
                }
            },
            SocketStage::Connect { sock } => {
                if ret != 0 {
                    let mut m = join2("connect() failed for unix socket to ", self.remote.as_str());
                    m.append(": ");
                    m.append(os_error);
                    self.fail(sock, m);
                } else {
                    self.stage = SocketStage::SetSendBuffer { sock };
                }
            },
            SocketStage::SetSendBuffer { sock } => {
                self.stage = SocketStage::SetReceiveBuffer { sock };
            },
            SocketStage::SetReceiveBuffer { sock } => {
                self.stage = SocketStage::Duplicate { sock };
            },
            SocketStage::Duplicate { sock } => {
                if ret < 0 {
                    self.fail(sock, join2("dup() failed: ", os_error));
                } else {
                    self.stage = SocketStage::CloseOriginal { sock, duplicate: ret };
                }
            },
            SocketStage::CloseOriginal { sock: _, duplicate } => {
                self.stage = SocketStage::Finished { fd: duplicate };
            },
            SocketStage::CloseFailed { sock: _ } => {
                self.stage = SocketStage::Failed;
            },
            SocketStage::Finished { fd: _ } => {},
            SocketStage::Failed => {},
        }
    }
}

/// The descriptors that are open at a stage.
pub open spec fn open_descriptors(stage: SocketStage) -> Set<i32> {
    match stage {
        SocketStage::Create | SocketStage::Failed => Set::empty(),
        SocketStage::Unlink { sock } | SocketStage::Bind { sock } | SocketStage::Connect {
            sock,
        } | SocketStage::SetSendBuffer { sock } | SocketStage::SetReceiveBuffer {
            sock,
        } | SocketStage::Duplicate { sock } | SocketStage::CloseFailed { sock } => set![sock],
        SocketStage::CloseOriginal { sock, duplicate } => set![sock, duplicate],
        SocketStage::Finished { fd } => set![fd],
    }
}

/// The open descriptors after the call of a stage, given those before it: a
/// successful `socket` or `dup` opens one, and a close closes one.
pub open spec fn after_call(stage: SocketStage, ret: i32, open: Set<i32>) -> Set<i32> {
    match stage {
        SocketStage::Create | SocketStage::Duplicate { .. } => if ret >= 0 {
            open.insert(ret)
        } else {
            open
        },
        SocketStage::CloseOriginal { sock, .. } | SocketStage::CloseFailed { sock } => open.remove(
            sock,
        ),
        _ => open,
    }
}

/// An answer to a call: what it returned, and the system's text for the error
/// where it failed.
pub type Answer = (i32, Seq<char>);

/// The setup after several calls.
pub open spec fn socket_run(v: UnixSocketView, answers: Seq<Answer>) -> UnixSocketView
    decreases answers.len(),
{
    if answers.len() == 0 {
        v
    } else {
        let m = socket_run(v, answers.drop_last());
        socket_step(m, answers.last().0, answers.last().1)
    }
}

/// The descriptors that are open after several calls.
pub open spec fn descriptors_after(v: UnixSocketView, answers: Seq<Answer>) -> Set<i32>
    decreases answers.len(),
{
    if answers.len() == 0 {
        Set::empty()
    } else {
        let before = answers.drop_last();
        after_call(
            socket_run(v, before).stage,
            answers.last().0,
            descriptors_after(v, before),
        )
    }
}

/// Whether the system hands out a descriptor only while it is not open.
pub open spec fn descriptors_are_fresh(v: UnixSocketView, answers: Seq<Answer>) -> bool
    decreases answers.len(),
{
    if answers.len() == 0 {
        true
    } else {
        let before = answers.drop_last();
        let stage = socket_run(v, before).stage;
        &&& descriptors_are_fresh(v, before)
        &&& (stage is Create || stage is Duplicate) ==> !descriptors_after(v, before).contains(
            answers.last().0,
        )
    }
}

/// No descriptor is lost on any path: at every stage the open descriptors are
/// the ones that the stage knows of. In particular a failed setup leaves none
/// open, and a finished one leaves open its result and nothing else.
pub proof fn law_no_descriptor_is_lost(
    remote: Seq<char>,
    local: Seq<char>,
    answers: Seq<Answer>,
)
    requires
        descriptors_are_fresh(first_call(remote, local), answers),
    ensures
        ({
            let v = first_call(remote, local);
            descriptors_after(v, answers) == open_descriptors(socket_run(v, answers).stage)
        }),
{
    lemma_descriptors(remote, local, answers);
}

/// The duplicate is another descriptor than the original, so that closing one
/// leaves the other open.
proof fn lemma_descriptors(remote: Seq<char>, local: Seq<char>, answers: Seq<Answer>)
    requires
        descriptors_are_fresh(first_call(remote, local), answers),
    ensures
        ({
            let v = first_call(remote, local);
            let stage = socket_run(v, answers).stage;
            &&& descriptors_after(v, answers) == open_descriptors(stage)
            &&& stage matches SocketStage::CloseOriginal { sock, duplicate } ==> sock != duplicate
        }),
    decreases answers.len(),
{
    let v = first_call(remote, local);
    if answers.len() > 0 {
        lemma_descriptors(remote, local, answers.drop_last());
        assert(descriptors_after(v, answers) =~= open_descriptors(socket_run(v, answers).stage));
    }
}

/// How many calls are left at most.
pub open spec fn calls_left(stage: SocketStage) -> nat {
    match stage {
        SocketStage::Create => 8,
        SocketStage::Unlink { .. } => 7,
        SocketStage::Bind { .. } => 6,
        SocketStage::Connect { .. } => 5,
        SocketStage::SetSendBuffer { .. } => 4,
        SocketStage::SetReceiveBuffer { .. } => 3,
        SocketStage::Duplicate { .. } => 2,
        SocketStage::CloseOriginal { .. } | SocketStage::CloseFailed { .. } => 1,
        SocketStage::Finished { .. } | SocketStage::Failed => 0,
    }
}

/// A setup ends after eight calls at the latest, with a descriptor or with an
/// error.
pub proof fn law_setup_ends(remote: Seq<char>, local: Seq<char>, answers: Seq<Answer>)
    ensures
        ({
            let n = socket_run(first_call(remote, local), answers);
            &&& calls_left(n.stage) == 0 || calls_left(n.stage) + answers.len() <= 8
            &&& n.failure is Some <==> (n.stage is CloseFailed || n.stage is Failed)
            &&& answers.len() >= 8 ==> (n.stage is Finished && n.failure is None) || (
            n.stage is Failed && n.failure is Some)
        }),
    decreases answers.len(),
{
    if answers.len() > 0 {
        law_setup_ends(remote, local, answers.drop_last());
    }
}

/// The setup gives a descriptor exactly where the paths can stand in an
/// address and opening, binding, connecting and duplicating the socket
/// succeed; it is the duplicate.
pub proof fn law_good_calls_give_the_duplicate(
    remote: Seq<char>,
    local: Seq<char>,
    answers: Seq<Answer>,
)
    requires
        answers.len() == 8,
    ensures
        ({
            let n = socket_run(first_call(remote, local), answers);
            let good = !local.contains('\0') && byte_len(local) < SUN_PATH_MAX && !remote.contains(
                '\0',
            ) && answers[0].0 >= 0 && answers[2].0 == 0 && answers[3].0 == 0 && answers[6].0 >= 0;
            &&& n.stage is Finished <==> good
            &&& good ==> n.stage == (SocketStage::Finished { fd: answers[6].0 })
        }),
{
    let v = first_call(remote, local);
    lemma_next_call(v, answers, 0);
    lemma_next_call(v, answers, 1);
    lemma_next_call(v, answers, 2);
    lemma_next_call(v, answers, 3);
    lemma_next_call(v, answers, 4);
    lemma_next_call(v, answers, 5);
    lemma_next_call(v, answers, 6);
    lemma_next_call(v, answers, 7);
    assert(answers.take(0) =~= Seq::empty());
    assert(answers.take(8) =~= answers);
}

proof fn lemma_next_call(v: UnixSocketView, answers: Seq<Answer>, i: int)
    requires
        0 <= i < answers.len(),
    ensures
        socket_run(v, answers.take(i + 1)) == socket_step(
            socket_run(v, answers.take(i)),
            answers[i].0,
            answers[i].1,
        ),
{
    assert(answers.take(i + 1).drop_last() =~= answers.take(i));
}

/// A setup begins unless the path to connect to is longer than 103 bytes, and
/// it is for the two paths that were given.
pub proof fn law_socket_setups_that_begin(remote: Seq<char>, local: Seq<char>)
    ensures
        socket_setup(remote, local) is Ok <==> byte_len(remote) <= 103,
        socket_setup(remote, local) matches Ok(v) ==> v.remote == remote && v.local == local
            && v.stage is Create && v.failure is None,
        socket_setup(remote, local) matches Err(e) ==> e is InvalidDevice,
{
}

/// As long as nothing goes wrong, the calls come in this order, all on the
/// socket that was opened: what is left at the local path is removed, the
/// socket is bound, connected, given its buffers and duplicated, and the
/// original is closed.
pub proof fn law_calls_come_in_order(
    remote: Seq<char>,
    local: Seq<char>,
    sock: i32,
    removed: i32,
    sized: i32,
    duplicate: i32,
    text: Seq<char>,
)
    requires
        sock >= 0,
        duplicate >= 0,
        !local.contains('\0'),
        !remote.contains('\0'),
        byte_len(local) <= 103,
    ensures
        ({
            let v0 = first_call(remote, local);
            let v1 = socket_step(v0, sock, text);
            let v2 = socket_step(v1, removed, text);
            let v3 = socket_step(v2, 0, text);
            let v4 = socket_step(v3, 0, text);
            let v5 = socket_step(v4, sized, text);
            let v6 = socket_step(v5, sized, text);
            let v7 = socket_step(v6, duplicate, text);
            &&& v0.stage == SocketStage::Create
            &&& v1.stage == (SocketStage::Unlink { sock })
            &&& v2.stage == (SocketStage::Bind { sock })
            &&& v3.stage == (SocketStage::Connect { sock })
            &&& v4.stage == (SocketStage::SetSendBuffer { sock })
            &&& v5.stage == (SocketStage::SetReceiveBuffer { sock })
            &&& v6.stage == (SocketStage::Duplicate { sock })
            &&& v7.stage == (SocketStage::CloseOriginal { sock, duplicate })
            &&& v7.remote == remote && v7.local == local
        }),
{
}

/// A call that fails has the socket closed, and the error says which call it
/// was and what the system said.
pub proof fn law_failed_calls_close_the_socket(v: UnixSocketView, ret: i32, text: Seq<char>)
    requires
        ret < 0,
    ensures
        v.stage is Create ==> socket_step(v, ret, text).stage is Failed && socket_step(
            v,
            ret,
            text,
        ).failure == Some(
            ErrorView::InvalidDevice("socket(AF_UNIX, SOCK_DGRAM) failed: "@ + text),
        ),
        v.stage matches SocketStage::Bind { sock } ==> socket_step(v, ret, text).stage == (
        SocketStage::CloseFailed { sock }) && socket_step(v, ret, text).failure == Some(
            ErrorView::InvalidDevice("bind() failed for unix socket: "@ + text),
        ),
        v.stage matches SocketStage::Connect { sock } ==> socket_step(v, ret, text).stage == (
        SocketStage::CloseFailed { sock }) && socket_step(v, ret, text).failure == Some(
            ErrorView::InvalidDevice(
                "connect() failed for unix socket to "@ + v.remote + ": "@ + text,
            ),
        ),
        v.stage matches SocketStage::Duplicate { sock } ==> socket_step(v, ret, text).stage == (
        SocketStage::CloseFailed { sock }) && socket_step(v, ret, text).failure == Some(
            ErrorView::InvalidDevice("dup() failed: "@ + text),
        ),
{
}

/// Different processes have different local sockets.
pub proof fn law_local_names_differ(a: i32, b: i32)
    requires
        a != b,
    ensures
        local_name(a) != local_name(b),
{
    if local_name(a) == local_name(b) {
        let prefix = "vfrust-net-"@;
        let n = prefix.len() as int;
        assert(local_name(a).skip(n) =~= signed_decimal(a as int));
        assert(local_name(b).skip(n) =~= signed_decimal(b as int));
        law_signed_decimal_round_trip(a as int, i32::MIN as int, i32::MAX as int);
        law_signed_decimal_round_trip(b as int, i32::MIN as int, i32::MAX as int);
    }
}

/// The socket can send one MiB and receive four at once.
pub proof fn law_socket_buffers()
    ensures
        SEND_BUFFER == 1024 * 1024,
        RECEIVE_BUFFER == 4 * SEND_BUFFER,
{
}

} // verus!
