//! Connections that perform one operation at a time: a thread owns the session, and futures send it
//! the operations and wait for their results.
use vstd::prelude::*;
#[allow(unused_imports)]
use vstd::string::*;
use vstd::utf8::*;
use crate::commons::{ExitStatus, Output};
#[allow(unused_imports)]
use crate::commons::OutputView;
#[allow(unused_imports)]
use crate::ssh::all_refused;
use crate::ssh::{HostCheck, authenticate_local};
#[allow(unused_imports)]
use crate::text::{path_in, path_join, texts};
use crate::{KNOWN_HOSTS_RPATH, PROFILES_FOLDER_RPATH};

verus! {

//---------------------------------------------------------------------------------------- ERRORS
#[derive(Clone, Copy, Debug, PartialEq, Eq, Structural)]
pub enum Error {
    ProxySocketNotFound,
    ProxyCommandReturned,
    NoSuchFile,
    ConnectionFailed,
    PreferenceSettingFailed,
    HandshakeFailed,
    HomeNotFound,
    KnownHostsUnreachable,
    CouldntRegisterHost,
    CouldntSaveKnownHosts,
    HostKeyMismatch,
    HostNotKnown,
    HostCheckFailed,
    SshAgentUnavailable,
    ClientAuthFailed,
    ReceiverCalledOnEmptyChannel,
    ChannelClosed,
    ExecutionFailed,
    ScpSendFailed,
    ScpFetchFailed,
    Unknown,
}

impl Error {
    /// The characters of the text of the error.
    pub open spec fn text(&self) -> Seq<char> {
        match self {
            Error::ProxySocketNotFound => "Failed to find a socket to bind the proxy command on."@,
            Error::ProxyCommandReturned => "The proxy command returned. Check command and connection"@,
            Error::NoSuchFile => "The given file could not be found"@,
            Error::ConnectionFailed => "Failed to connect to the provided host."@,
            Error::PreferenceSettingFailed => "Failed to set ssh preferences for handshake"@,
            Error::HandshakeFailed => "Failed to handshake with remote host."@,
            Error::HomeNotFound => "Home folder could not be found through the $HOME variable"@,
            Error::KnownHostsUnreachable => "Failed to read runaway known_hosts file."@,
            Error::CouldntRegisterHost => "Failed to register host"@,
            Error::CouldntSaveKnownHosts => "Failed to save the runaway known_hosts file"@,
            Error::HostKeyMismatch => "Host was found but the key does not match!"@,
            Error::HostNotKnown => "Host was not found in the known hosts."@,
            Error::HostCheckFailed => "Host key check failed somehow."@,
            Error::SshAgentUnavailable => "Ssh Agent could not be found. Is there an ssh agent on $SSH_AUTH_SOCK ?"@,
            Error::ClientAuthFailed => "Client authentication failed. Is the necessary identity available in the ssh agent ?"@,
            Error::ReceiverCalledOnEmptyChannel => "A receiver was called on an empty channel"@,
            Error::ChannelClosed => "A channel was used but was closed"@,
            Error::ExecutionFailed => "The execution of a command failed"@,
            Error::ScpSendFailed => "The sending of the file failed."@,
            Error::ScpFetchFailed => "The fetching of the file failed."@,
            Error::Unknown => "Unknown error occured"@,
        }
    }

    /// The text of the error.
    pub fn message(&self) -> (res: String)
        ensures
            res@ == self.text(),
    {
        match self {
            Error::ProxySocketNotFound => "Failed to find a socket to bind the proxy command on.".to_owned(),
            Error::ProxyCommandReturned => "The proxy command returned. Check command and connection".to_owned(),
            Error::NoSuchFile => "The given file could not be found".to_owned(),
            Error::ConnectionFailed => "Failed to connect to the provided host.".to_owned(),
            Error::PreferenceSettingFailed => "Failed to set ssh preferences for handshake".to_owned(),
            Error::HandshakeFailed => "Failed to handshake with remote host.".to_owned(),
            Error::HomeNotFound => "Home folder could not be found through the $HOME variable".to_owned(),
            Error::KnownHostsUnreachable => "Failed to read runaway known_hosts file.".to_owned(),
            Error::CouldntRegisterHost => "Failed to register host".to_owned(),
            Error::CouldntSaveKnownHosts => "Failed to save the runaway known_hosts file".to_owned(),
            Error::HostKeyMismatch => "Host was found but the key does not match!".to_owned(),
            Error::HostNotKnown => "Host was not found in the known hosts.".to_owned(),
            Error::HostCheckFailed => "Host key check failed somehow.".to_owned(),
            Error::SshAgentUnavailable => "Ssh Agent could not be found. Is there an ssh agent on $SSH_AUTH_SOCK ?".to_owned(),
            Error::ClientAuthFailed => "Client authentication failed. Is the necessary identity available in the ssh agent ?".to_owned(),
            Error::ReceiverCalledOnEmptyChannel => "A receiver was called on an empty channel".to_owned(),
            Error::ChannelClosed => "A channel was used but was closed".to_owned(),
            Error::ExecutionFailed => "The execution of a command failed".to_owned(),
            Error::ScpSendFailed => "The sending of the file failed.".to_owned(),
            Error::ScpFetchFailed => "The fetching of the file failed.".to_owned(),
            Error::Unknown => "Unknown error occured".to_owned(),
        }
    }
}

//--------------------------------------------------------------------------------------- SESSION
/// What has to be done to start a session, in this order.
#[derive(Clone, Copy, Debug, PartialEq, Eq, Structural)]
pub enum SessionStage {
    /// Set the preferences.
    Preferences,
    /// Perform the handshake.
    Handshake,
    /// Find the home directory.
    Home,
    /// Read the known hosts.
    KnownHosts,
    /// Get the key of the host.
    HostKey,
    /// Check the key against the known ones.
    Check,
    /// Add the key to the known ones.
    Register,
    /// Write the known hosts.
    Save,
    /// Connect to the ssh agent.
    Agent,
    /// List its identities.
    Identities,
    /// Try to authenticate with the identities, one after the other.
    Authenticate,
    Over,
}

/// What came of the last action.
pub enum SessionEvent {
    Done,
    Failed,
    /// The key was checked.
    Checked(HostCheck),
    /// The comments of the identities, of which the given number of the first ones were refused and
    /// the next one, if any, was accepted.
    Tried(Vec<String>, usize),
}

/// What has to be done next: a stage, or to return.
pub enum SessionStep {
    Do(SessionStage),
    Return(Result<(), Error>),
}

impl SessionStage {
    /// The error of the stage.
    pub open spec fn error(self) -> Error {
        match self {
            SessionStage::Preferences => Error::PreferenceSettingFailed,
            SessionStage::Handshake => Error::HandshakeFailed,
            SessionStage::Home => Error::HomeNotFound,
            SessionStage::KnownHosts => Error::KnownHostsUnreachable,
            SessionStage::Register => Error::CouldntRegisterHost,
            SessionStage::Save => Error::CouldntSaveKnownHosts,
            SessionStage::Agent => Error::SshAgentUnavailable,
            _ => Error::Unknown,
        }
    }

    /// The stage that follows.
    pub open spec fn following(self) -> SessionStage {
        match self {
            SessionStage::Preferences => SessionStage::Handshake,
            SessionStage::Handshake => SessionStage::Home,
            SessionStage::Home => SessionStage::KnownHosts,
            SessionStage::KnownHosts => SessionStage::HostKey,
            SessionStage::HostKey => SessionStage::Check,
            SessionStage::Register => SessionStage::Save,
            SessionStage::Save => SessionStage::Agent,
            SessionStage::Agent => SessionStage::Identities,
            SessionStage::Identities => SessionStage::Authenticate,
            _ => SessionStage::Over,
        }
    }
}

/// Whether the event can come of a stage.
pub open spec fn session_accepts(stage: SessionStage, event: SessionEvent) -> bool {
    match stage {
        SessionStage::Over => false,
        SessionStage::Check => event is Checked,
        SessionStage::Authenticate => match event {
            SessionEvent::Tried(identities, failed) => failed <= identities.len(),
            _ => false,
        },
        _ => event is Done || event is Failed,
    }
}

/// What a step of the start of a session does. A host that is not known yet is registered, and one
/// whose key is not the known one is refused. We are authenticated, unless the comment of each
/// identity is that of one that was refused.
pub open spec fn session_step(stage: SessionStage, event: SessionEvent, step: SessionStep) -> bool {
    match event {
        SessionEvent::Done => step == SessionStep::Do(stage.following()),
        SessionEvent::Failed => step == SessionStep::Return(Err(stage.error())),
        SessionEvent::Checked(check) => step == match check {
            HostCheck::Match => SessionStep::Do(SessionStage::Agent),
            HostCheck::Mismatch => SessionStep::Return(Err(Error::HostKeyMismatch)),
            HostCheck::NotFound => SessionStep::Do(SessionStage::Register),
            HostCheck::Failure => SessionStep::Return(Err(Error::HostCheckFailed)),
        },
        SessionEvent::Tried(identities, failed) => {
            &&& step is Return
            &&& step->Return_0 is Err ==> step->Return_0->Err_0 == Error::ClientAuthFailed
            &&& step->Return_0 is Err <==> all_refused(identities@, failed as int)
        },
    }
}

/// Goes on with the start of a session.
pub fn start_session(stage: SessionStage, event: SessionEvent) -> (res: SessionStep)
    requires
        session_accepts(stage, event),
    ensures
        session_step(stage, event, res),
{
    match event {
        SessionEvent::Done => {
            let next = match stage {
                SessionStage::Preferences => SessionStage::Handshake,
                SessionStage::Handshake => SessionStage::Home,
                SessionStage::Home => SessionStage::KnownHosts,
                SessionStage::KnownHosts => SessionStage::HostKey,
                SessionStage::HostKey => SessionStage::Check,
                SessionStage::Register => SessionStage::Save,
                SessionStage::Save => SessionStage::Agent,
                SessionStage::Agent => SessionStage::Identities,
                SessionStage::Identities => SessionStage::Authenticate,
                _ => SessionStage::Over,
            };
            SessionStep::Do(next)
        },
        SessionEvent::Failed => {
            let error = match stage {
                SessionStage::Preferences => Error::PreferenceSettingFailed,
                SessionStage::Handshake => Error::HandshakeFailed,
                SessionStage::Home => Error::HomeNotFound,
                SessionStage::KnownHosts => Error::KnownHostsUnreachable,
                SessionStage::Register => Error::CouldntRegisterHost,
                SessionStage::Save => Error::CouldntSaveKnownHosts,
                SessionStage::Agent => Error::SshAgentUnavailable,
                _ => Error::Unknown,
            };
            SessionStep::Return(Err(error))
        },
        SessionEvent::Checked(check) => match check {
            HostCheck::Match => SessionStep::Do(SessionStage::Agent),
            HostCheck::Mismatch => SessionStep::Return(Err(Error::HostKeyMismatch)),
            HostCheck::NotFound => SessionStep::Do(SessionStage::Register),
            HostCheck::Failure => SessionStep::Return(Err(Error::HostCheckFailed)),
        },
        SessionEvent::Tried(identities, failed) => match authenticate_local(&identities, failed) {
            Ok(_) => SessionStep::Return(Ok(())),
            Err(_) => SessionStep::Return(Err(Error::ClientAuthFailed)),
        },
    }
}

/// The path of the known hosts, given the home directory.
pub fn known_hosts_path(home: &str) -> (res: String)
    ensures
        res@ == path_in(path_in(home@, PROFILES_FOLDER_RPATH@), KNOWN_HOSTS_RPATH@),
{
    path_join(path_join(home, PROFILES_FOLDER_RPATH).as_str(), KNOWN_HOSTS_RPATH)
}

/// No host is trusted whose key is not the known one: the session goes on to our own authentication
/// only where the key matches, or where the host was not known and its key was written down. And a
/// session is started only once we were authenticated.
pub proof fn only_checked_hosts_are_used(
    stage: SessionStage,
    event: SessionEvent,
    step: SessionStep,
)
    requires
        session_accepts(stage, event),
        session_step(stage, event, step),
    ensures
        step == SessionStep::Do(SessionStage::Agent) ==> stage == SessionStage::Save || event
            == SessionEvent::Checked(HostCheck::Match),
        step == SessionStep::Do(SessionStage::Save) ==> stage == SessionStage::Register,
        step == SessionStep::Do(SessionStage::Register) ==> event == SessionEvent::Checked(
            HostCheck::NotFound,
        ),
        step == SessionStep::Do(SessionStage::Identities) ==> stage == SessionStage::Agent,
        step == SessionStep::Do(SessionStage::Authenticate) ==> stage == SessionStage::Identities,
        step is Return && step->Return_0 is Ok ==> stage == SessionStage::Authenticate,
{
}

//------------------------------------------------------------------------------------ OPERATIONS
/// The different operations that can be made by a connection.
#[derive(Debug)]
pub enum RemoteOperations {
    /// Sends a local file to a remote path.
    ScpSend(String, String),
    /// Fetches a remote file to a local path.
    ScpFetch(String, String),
    Exec(String),
}

/// What the execution of a command gives, out of what it wrote and its exit code.
pub fn handle_exec_operation(executed: Option<(String, String, i32)>) -> (res: Result<Output, Error>)
    ensures
        match executed {
            Some((stdout, stderr, code)) => {
                &&& res is Ok
                &&& res->Ok_0@ == OutputView {
                    status: code,
                    stdout: encode_utf8(stdout@),
                    stderr: encode_utf8(stderr@),
                }
            },
            None => res == Err::<Output, Error>(Error::ExecutionFailed),
        },
{
    match executed {
        Some((stdout, stderr, code)) => Ok(
            Output {
                status: ExitStatus::from_raw(code),
                stdout: stdout.as_str().as_bytes_vec(),
                stderr: stderr.as_str().as_bytes_vec(),
            },
        ),
        None => Err(Error::ExecutionFailed),
    }
}

/// What came of the transfer of a file.
pub enum Transfer {
    /// The local file could not be opened.
    Unopened,
    /// The transfer failed.
    Failed,
    /// The given number of bytes were moved, of a file of the given size.
    Moved(u64, u64),
}

/// What the sending of a file gives: it succeeded where all bytes were moved.
pub fn handle_scp_send_operation(transfer: Transfer) -> (res: Result<(), Error>)
    ensures
        res == match transfer {
            Transfer::Unopened => Err::<(), Error>(Error::NoSuchFile),
            Transfer::Failed => Err::<(), Error>(Error::ScpSendFailed),
            Transfer::Moved(moved, size) => if moved == size {
                Ok::<(), Error>(())
            } else {
                Err::<(), Error>(Error::ScpSendFailed)
            },
        },
{
    match transfer {
        Transfer::Unopened => Err(Error::NoSuchFile),
        Transfer::Failed => Err(Error::ScpSendFailed),
        Transfer::Moved(moved, size) => {
            if moved == size {
                Ok(())
            } else {
                Err(Error::ScpSendFailed)
            }
        },
    }
}

/// What the fetching of a file gives: it succeeded where all bytes were moved.
pub fn handle_scp_fetch_operation(transfer: Transfer) -> (res: Result<(), Error>)
    ensures
        res == match transfer {
            Transfer::Unopened => Err::<(), Error>(Error::NoSuchFile),
            Transfer::Failed => Err::<(), Error>(Error::ScpFetchFailed),
            Transfer::Moved(moved, size) => if moved == size {
                Ok::<(), Error>(())
            } else {
                Err::<(), Error>(Error::ScpFetchFailed)
            },
        },
{
    match transfer {
        Transfer::Unopened => Err(Error::NoSuchFile),
        Transfer::Failed => Err(Error::ScpFetchFailed),
        Transfer::Moved(moved, size) => {
            if moved == size {
                Ok(())
            } else {
                Err(Error::ScpFetchFailed)
            }
        },
    }
}

//--------------------------------------------------------------------------------------- FUTURES
/// Where a future stands.
pub enum FutureState {
    /// The operation is to be sent.
    Starting(RemoteOperations),
    /// The result is waited for.
    Waiting,
    /// The future is resolved.
    Finished,
}

/// What comes from the channel of the results.
pub enum Received<T> {
    Result(Result<T, Error>),
    /// Nothing is there.
    Empty,
    /// The channel is closed.
    Disconnected,
}

/// What a poll gives.
pub enum Polled<T> {
    /// The future is resolved. The connection is given back where it succeeded.
    Ready(Result<T, Error>),
    Pending,
}

/// A future that waits for an operation of a connection.
pub struct RemoteFuture {
    pub state: FutureState,
}

/// A future for a command. See `RemoteFuture::poll_exec`.
pub type RemoteExecFuture = RemoteFuture;

/// A future for the sending of a file. See `RemoteFuture::poll_scp`.
pub type ScpSendFuture = RemoteFuture;

/// A future for the fetching of a file. See `RemoteFuture::poll_scp`.
pub type ScpFetchFuture = RemoteFuture;

/// The result that came from the channel.
pub open spec fn received_result<T>(received: Received<T>) -> Result<T, Error> {
    match received {
        Received::Result(result) => result,
        Received::Empty => Err(Error::ReceiverCalledOnEmptyChannel),
        Received::Disconnected => Err(Error::ChannelClosed),
    }
}

impl RemoteFuture {
    /// A future for a command.
    pub fn async_exec(command: &str) -> (res: RemoteExecFuture)
        ensures
            res.state is Starting,
            res.state->Starting_0 is Exec,
            res.state->Starting_0->Exec_0@ == command@,
    {
        RemoteFuture { state: FutureState::Starting(RemoteOperations::Exec(command.to_owned())) }
    }

    /// A future for the sending of a file.
    pub fn async_scp_send(local_path: &str, remote_path: &str) -> (res: ScpSendFuture)
        ensures
            res.state is Starting,
            res.state->Starting_0 is ScpSend,
            res.state->Starting_0->ScpSend_0@ == local_path@,
            res.state->Starting_0->ScpSend_1@ == remote_path@,
    {
        RemoteFuture {
            state: FutureState::Starting(
                RemoteOperations::ScpSend(local_path.to_owned(), remote_path.to_owned()),
            ),
        }
    }

    /// A future for the fetching of a file.
    pub fn async_scp_fetch(remote_path: &str, local_path: &str) -> (res: ScpFetchFuture)
        ensures
            res.state is Starting,
            res.state->Starting_0 is ScpFetch,
            res.state->Starting_0->ScpFetch_0@ == remote_path@,
            res.state->Starting_0->ScpFetch_1@ == local_path@,
    {
        RemoteFuture {
            state: FutureState::Starting(
                RemoteOperations::ScpFetch(remote_path.to_owned(), local_path.to_owned()),
            ),
        }
    }

    /// Goes on once the operation was sent, or could not be.
    pub fn poll_start<T>(&mut self, sent: bool) -> (res: Polled<T>)
        requires
            old(self).state is Starting,
        ensures
            if sent {
                final(self).state is Waiting && res is Pending
            } else {
                final(self).state is Finished && res == Polled::<T>::Ready(
                    Err(Error::ChannelClosed),
                )
            },
    {
        if sent {
            self.state = FutureState::Waiting;
            Polled::Pending
        } else {
            self.state = FutureState::Finished;
            Polled::Ready(Err(Error::ChannelClosed))
        }
    }

    /// Resolves a future for a command, once it was woken. Whatever failed, the execution did.
    pub fn poll_exec(&mut self, received: Received<Output>) -> (res: Result<Output, Error>)
        requires
            old(self).state is Waiting,
        ensures
            final(self).state is Finished,
            res == match received_result(received) {
                Ok(output) => Ok::<Output, Error>(output),
                Err(_) => Err::<Output, Error>(Error::ExecutionFailed),
            },
    {
        self.state = FutureState::Finished;
        match received {
            Received::Result(Ok(output)) => Ok(output),
            _ => Err(Error::ExecutionFailed),
        }
    }

    /// Resolves a future for the transfer of a file, once it was woken.
    pub fn poll_scp(&mut self, received: Received<()>) -> (res: Result<(), Error>)
        requires
            old(self).state is Waiting,
        ensures
            final(self).state is Finished,
            res == received_result(received),
    {
        self.state = FutureState::Finished;
        match received {
            Received::Result(result) => result,
            Received::Empty => Err(Error::ReceiverCalledOnEmptyChannel),
            Received::Disconnected => Err(Error::ChannelClosed),
        }
    }
}

//------------------------------------------------------------------------------------------ LAWS
/// A session is started stage by stage: each that is done is followed by the next one, and the first
/// one that fails ends it.
pub proof fn session_goes_through_its_stages(
    stage: SessionStage,
    done: SessionStep,
    failed: SessionStep,
)
    requires
        call_ensures(start_session, (stage, SessionEvent::Done), done),
        call_ensures(start_session, (stage, SessionEvent::Failed), failed),
    ensures
        stage is Preferences ==> done == SessionStep::Do(SessionStage::Handshake),
        stage is Handshake ==> done == SessionStep::Do(SessionStage::Home),
        stage is Home ==> done == SessionStep::Do(SessionStage::KnownHosts),
        stage is KnownHosts ==> done == SessionStep::Do(SessionStage::HostKey),
        stage is HostKey ==> done == SessionStep::Do(SessionStage::Check),
        stage is Register ==> done == SessionStep::Do(SessionStage::Save),
        stage is Save ==> done == SessionStep::Do(SessionStage::Agent),
        stage is Agent ==> done == SessionStep::Do(SessionStage::Identities),
        stage is Identities ==> done == SessionStep::Do(SessionStage::Authenticate),
        failed is Return && failed->Return_0 is Err,
        stage is Preferences ==> failed->Return_0->Err_0 is PreferenceSettingFailed,
        stage is Handshake ==> failed->Return_0->Err_0 is HandshakeFailed,
        stage is Home ==> failed->Return_0->Err_0 is HomeNotFound,
        stage is KnownHosts ==> failed->Return_0->Err_0 is KnownHostsUnreachable,
        stage is Register ==> failed->Return_0->Err_0 is CouldntRegisterHost,
        stage is Save ==> failed->Return_0->Err_0 is CouldntSaveKnownHosts,
        stage is Agent ==> failed->Return_0->Err_0 is SshAgentUnavailable,
        stage is HostKey || stage is Identities ==> failed->Return_0->Err_0 is Unknown,
{
}

/// A host goes through where its key is the known one, is registered where it is not known, and is
/// refused in any other case.
pub proof fn unknown_keys_are_registered(stage: SessionStage, check: HostCheck, res: SessionStep)
    requires
        call_ensures(start_session, (stage, SessionEvent::Checked(check)), res),
    ensures
        check is Match ==> res == SessionStep::Do(SessionStage::Agent),
        check is NotFound ==> res == SessionStep::Do(SessionStage::Register),
        check is Mismatch ==> res == SessionStep::Return(Err(Error::HostKeyMismatch)),
        check is Failure ==> res == SessionStep::Return(Err(Error::HostCheckFailed)),
{
}

/// A session is started where an identity was accepted that has a comment of its own, and is not where
/// all identities were refused.
pub proof fn one_accepted_identity_is_enough(
    stage: SessionStage,
    identities: Vec<String>,
    failed: usize,
    res: SessionStep,
)
    requires
        call_ensures(start_session, (stage, SessionEvent::Tried(identities, failed)), res),
        failed <= identities.len(),
    ensures
        res is Return,
        failed == identities.len() ==> res == SessionStep::Return(Err(Error::ClientAuthFailed)),
        failed < identities.len() && (forall|i: int|
            0 <= i < failed ==> (#[trigger] identities@[i])@ != identities@[failed as int]@)
            ==> res->Return_0 is Ok,
{
    let refused = texts(identities@.take(failed as int));
    if failed == identities.len() {
        assert forall|i: int| 0 <= i < identities.len() implies refused.contains(
            (#[trigger] identities@[i])@,
        ) by {
            assert(refused[i] == identities@[i]@);
        }
    } else if forall|i: int|
        0 <= i < failed ==> (#[trigger] identities@[i])@ != identities@[failed as int]@ {
        assert(!refused.contains(identities@[failed as int]@)) by {
            if refused.contains(identities@[failed as int]@) {
                let k = choose|k: int|
                    0 <= k < refused.len() && refused[k] == identities@[failed as int]@;
                assert(identities@[k]@ == identities@[failed as int]@);
            }
        }
    }
}

/// What a command wrote is what is given, with the code that it exited with, whatever the code is.
pub proof fn executed_commands_give_their_output(
    stdout: String,
    stderr: String,
    code: i32,
    res: Result<Output, Error>,
    failed: Result<Output, Error>,
)
    requires
        call_ensures(handle_exec_operation, (Some((stdout, stderr, code)),), res),
        call_ensures(handle_exec_operation, (None::<(String, String, i32)>,), failed),
    ensures
        res is Ok,
        res->Ok_0.status.raw == code,
        res->Ok_0.stdout@ == encode_utf8(stdout@),
        res->Ok_0.stderr@ == encode_utf8(stderr@),
        failed == Err::<Output, Error>(Error::ExecutionFailed),
{
    assert(res->Ok_0@.status == code);
    assert(res->Ok_0@.stdout == encode_utf8(stdout@));
    assert(res->Ok_0@.stderr == encode_utf8(stderr@));
}

/// A transfer succeeds if and only if as many bytes were moved as the file holds.
pub proof fn transfers_succeed_when_whole(
    transfer: Transfer,
    sent: Result<(), Error>,
    fetched: Result<(), Error>,
)
    requires
        call_ensures(handle_scp_send_operation, (transfer,), sent),
        call_ensures(handle_scp_fetch_operation, (transfer,), fetched),
    ensures
        sent is Ok <==> transfer is Moved && transfer->Moved_0 == transfer->Moved_1,
        fetched is Ok <==> transfer is Moved && transfer->Moved_0 == transfer->Moved_1,
        transfer is Unopened ==> sent->Err_0 is NoSuchFile && fetched->Err_0 is NoSuchFile,
        sent is Err && !(transfer is Unopened) ==> sent->Err_0 is ScpSendFailed,
        fetched is Err && !(transfer is Unopened) ==> fetched->Err_0 is ScpFetchFailed,
{
}

/// A future carries the operation that it was made for.
pub proof fn futures_carry_their_operation(
    first: &str,
    second: &str,
    exec: RemoteFuture,
    send: RemoteFuture,
    fetch: RemoteFuture,
)
    requires
        call_ensures(RemoteFuture::async_exec, (first,), exec),
        call_ensures(RemoteFuture::async_scp_send, (first, second), send),
        call_ensures(RemoteFuture::async_scp_fetch, (first, second), fetch),
    ensures
        exec.state is Starting && exec.state->Starting_0 is Exec && exec.state->Starting_0->Exec_0@
            == first@,
        send.state is Starting && send.state->Starting_0 is ScpSend
            && send.state->Starting_0->ScpSend_0@ == first@ && send.state->Starting_0->ScpSend_1@
            == second@,
        fetch.state is Starting && fetch.state->Starting_0 is ScpFetch
            && fetch.state->Starting_0->ScpFetch_0@ == first@ && fetch.state->Starting_0->ScpFetch_1@
            == second@,
{
}

/// A future is resolved once, with the result that came: an output that came is given, and where the
/// channel fails the future does.
pub proof fn futures_give_the_result(
    exec: &mut RemoteFuture,
    scp: &mut RemoteFuture,
    output: Received<Output>,
    moved: Received<()>,
    res: Result<Output, Error>,
    res_scp: Result<(), Error>,
)
    requires
        call_ensures(RemoteFuture::poll_exec, (exec, output), res),
        call_ensures(RemoteFuture::poll_scp, (scp, moved), res_scp),
    ensures
        final(exec).state is Finished && final(scp).state is Finished,
        output is Result && output->Result_0 is Ok ==> res == Ok::<Output, Error>(
            output->Result_0->Ok_0,
        ),
        !(output is Result && output->Result_0 is Ok) ==> res == Err::<Output, Error>(
            Error::ExecutionFailed,
        ),
        moved is Result ==> res_scp == moved->Result_0,
        moved is Empty ==> res_scp == Err::<(), Error>(Error::ReceiverCalledOnEmptyChannel),
        moved is Disconnected ==> res_scp == Err::<(), Error>(Error::ChannelClosed),
{
}

/// The known hosts stand in the folder of the profiles in the home directory.
pub proof fn known_hosts_stand_in_profiles(home: &str, res: String)
    requires
        call_ensures(known_hosts_path, (home,), res),
        home@.len() > 0,
        home@.last() != '/',
    ensures
        res@ == home@ + "/.orchestra/.orchestra/known_hosts"@,
{
    reveal_strlit(".orchestra");
    reveal_strlit(".orchestra/known_hosts");
    reveal_strlit("/.orchestra/.orchestra/known_hosts");
    let folder = home@ + seq!['/'] + ".orchestra"@;
    crate::text::paths_are_joined(home@, ".orchestra"@);
    crate::text::paths_are_joined(folder, ".orchestra/known_hosts"@);
    assert(res@ =~= home@ + "/.orchestra/.orchestra/known_hosts"@);
}

/// What an error says: what failed, and the reason that it holds.
pub proof fn errors_say_what_failed(error: Error, said: String)
    requires
        call_ensures(Error::message, (&error,), said),
    ensures
        error is ProxySocketNotFound ==> said@ == "Failed to find a socket to bind the proxy command on."@,
        error is ProxyCommandReturned ==> said@ == "The proxy command returned. Check command and connection"@,
        error is NoSuchFile ==> said@ == "The given file could not be found"@,
        error is ConnectionFailed ==> said@ == "Failed to connect to the provided host."@,
        error is PreferenceSettingFailed ==> said@ == "Failed to set ssh preferences for handshake"@,
        error is HandshakeFailed ==> said@ == "Failed to handshake with remote host."@,
        error is HomeNotFound ==> said@ == "Home folder could not be found through the $HOME variable"@,
        error is KnownHostsUnreachable ==> said@ == "Failed to read runaway known_hosts file."@,
        error is CouldntRegisterHost ==> said@ == "Failed to register host"@,
        error is CouldntSaveKnownHosts ==> said@ == "Failed to save the runaway known_hosts file"@,
        error is HostKeyMismatch ==> said@ == "Host was found but the key does not match!"@,
        error is HostNotKnown ==> said@ == "Host was not found in the known hosts."@,
        error is HostCheckFailed ==> said@ == "Host key check failed somehow."@,
        error is SshAgentUnavailable ==> said@ == "Ssh Agent could not be found. Is there an ssh agent on $SSH_AUTH_SOCK ?"@,
        error is ClientAuthFailed ==> said@ == "Client authentication failed. Is the necessary identity available in the ssh agent ?"@,
        error is ReceiverCalledOnEmptyChannel ==> said@ == "A receiver was called on an empty channel"@,
        error is ChannelClosed ==> said@ == "A channel was used but was closed"@,
        error is ExecutionFailed ==> said@ == "The execution of a command failed"@,
        error is ScpSendFailed ==> said@ == "The sending of the file failed."@,
        error is ScpFetchFailed ==> said@ == "The fetching of the file failed."@,
        error is Unknown ==> said@ == "Unknown error occured"@,
{
}

/// A future whose operation was sent waits for its result; one whose operation could not be sent is
/// resolved with an error.
pub proof fn sent_futures_wait<T>(
    sent: &mut RemoteFuture,
    unsent: &mut RemoteFuture,
    res: Polled<T>,
    res_unsent: Polled<T>,
)
    requires
        call_ensures(RemoteFuture::poll_start::<T>, (sent, true), res),
        call_ensures(RemoteFuture::poll_start::<T>, (unsent, false), res_unsent),
    ensures
        final(sent).state is Waiting && res is Pending,
        final(unsent).state is Finished && res_unsent is Ready && res_unsent->Ready_0 is Err
            && res_unsent->Ready_0->Err_0 is ChannelClosed,
{
}

} // verus!
