//! The start of a session on a remote host, step by step.
use vstd::prelude::*;
#[allow(unused_imports)]
use vstd::string::*;
#[allow(unused_imports)]
use crate::ssh::all_refused;
use crate::ssh::{Error, HostCheck, HostDecision, authenticate_host, authenticate_local};
#[allow(unused_imports)]
use crate::text::{cat, path_in, path_join, texts};
use crate::KNOWN_HOSTS_RPATH;

verus! {

/// What has to be done to start a session, in this order.
#[derive(Clone, Copy, Debug, PartialEq, Eq, Structural)]
pub enum SessionStage {
    /// Connect to the address.
    Connect,
    /// Set the preferences.
    Preferences,
    /// Perform the handshake.
    Handshake,
    /// Find the home directory.
    Home,
    /// Create the file of the known hosts, where there is none.
    KnownHostsFile,
    /// Read the known hosts.
    KnownHosts,
    /// Get the key of the host.
    HostKey,
    /// Check the key against the known ones.
    Check,
    /// Add the key to the known ones.
    Register,
    /// Write the known hosts.
    Save,
    /// Connect to the ssh agent.
    Agent,
    /// List its identities.
    Identities,
    /// Try to authenticate with the identities, one after the other.
    Authenticate,
    Over,
}

/// What came of the last action.
pub enum SessionEvent {
    Done,
    /// It failed, for the given reason.
    Failed(String),
    /// The key was checked.
    Checked(HostCheck),
    /// The comments of the identities, of which the given number of the first ones were refused and
    /// the next one, if any, was accepted.
    Tried(Vec<String>, usize),
}

/// What has to be done next: a stage, or to return.
pub enum SessionStep {
    Do(SessionStage),
    Return(Result<(), Error>),
}

impl SessionStage {
    /// The stage that follows.
    pub open spec fn following(self) -> SessionStage {
        match self {
            SessionStage::Connect => SessionStage::Preferences,
            SessionStage::Preferences => SessionStage::Handshake,
            SessionStage::Handshake => SessionStage::Home,
            SessionStage::Home => SessionStage::KnownHostsFile,
            SessionStage::KnownHostsFile => SessionStage::KnownHosts,
            SessionStage::KnownHosts => SessionStage::HostKey,
            SessionStage::HostKey => SessionStage::Check,
            SessionStage::Register => SessionStage::Save,
            SessionStage::Save => SessionStage::Agent,
            SessionStage::Agent => SessionStage::Identities,
            SessionStage::Identities => SessionStage::Authenticate,
            _ => SessionStage::Over,
        }
    }

    /// What is said where the stage fails.
    pub open spec fn failure(self, address: Seq<char>, reason: Seq<char>) -> Seq<char> {
        match self {
            SessionStage::Connect => "Failed to connect to address "@ + address,
            SessionStage::Preferences => "Failed to set preferences"@,
            SessionStage::Handshake => "Failed to perform handshake: \n"@ + reason,
            SessionStage::Home => "Failed to find the local home directory"@,
            SessionStage::KnownHostsFile => "Failed to create knownhost file: "@ + reason,
            SessionStage::KnownHosts => "Failed to reach knownhost file:\n"@ + reason,
            SessionStage::HostKey => "Host did not provide a key."@,
            SessionStage::Register => "Failed to add the host key in the registry"@,
            SessionStage::Save => "Failed to write the knownhost file"@,
            SessionStage::Agent => "Ssh Agent was unavailable: \n"@ + reason,
            _ => "Couldn't list identities: \n"@ + reason,
        }
    }
}

/// Whether the event can come of a stage.
pub open spec fn session_accepts(stage: SessionStage, event: SessionEvent) -> bool {
    match stage {
        SessionStage::Over => false,
        SessionStage::Check => event is Checked,
        SessionStage::Authenticate => match event {
            SessionEvent::Tried(identities, failed) => failed <= identities.len(),
            _ => false,
        },
        _ => event is Done || event is Failed,
    }
}

/// The connection is refused with the given text.
pub open spec fn refuses(step: SessionStep, text: Seq<char>) -> bool {
    &&& step is Return
    &&& step->Return_0 is Err
    &&& step->Return_0->Err_0 is ConnectionFailed
    &&& step->Return_0->Err_0->ConnectionFailed_0@ == text
}

/// What a step of the start of a session does. The stages follow each other until one fails. A host
/// that is not known yet is registered, and one whose key is not the known one is refused. We are
/// authenticated, unless the comment of each identity is that of one that was refused.
pub open spec fn session_step(
    stage: SessionStage,
    address: Seq<char>,
    event: SessionEvent,
    step: SessionStep,
) -> bool {
    match event {
        SessionEvent::Done => step == SessionStep::Do(stage.following()),
        SessionEvent::Failed(reason) => refuses(step, stage.failure(address, reason@)),
        SessionEvent::Checked(check) => match check {
            HostCheck::Match => step == SessionStep::Do(SessionStage::Agent),
            HostCheck::NotFound => step == SessionStep::Do(SessionStage::Register),
            HostCheck::Mismatch => refuses(
                step,
                "The key presented by the host mismatches the one we know. "@,
            ),
            HostCheck::Failure => refuses(step, "Failed to check the host."@),
        },
        SessionEvent::Tried(identities, failed) => if all_refused(identities@, failed as int) {
            refuses(step, "No identities registered in the ssh agent allowed to connect."@)
        } else {
            step == SessionStep::Return(Ok(()))
        },
    }
}

/// Goes on with the start of a session at an address.
pub fn start_session(stage: SessionStage, address: &str, event: SessionEvent) -> (res: SessionStep)
    requires
        session_accepts(stage, event),
    ensures
        session_step(stage, address@, event, res),
{
    match event {
        SessionEvent::Done => {
            let next = match stage {
                SessionStage::Connect => SessionStage::Preferences,
                SessionStage::Preferences => SessionStage::Handshake,
                SessionStage::Handshake => SessionStage::Home,
                SessionStage::Home => SessionStage::KnownHostsFile,
                SessionStage::KnownHostsFile => SessionStage::KnownHosts,
                SessionStage::KnownHosts => SessionStage::HostKey,
                SessionStage::HostKey => SessionStage::Check,
                SessionStage::Register => SessionStage::Save,
                SessionStage::Save => SessionStage::Agent,
                SessionStage::Agent => SessionStage::Identities,
                SessionStage::Identities => SessionStage::Authenticate,
                _ => SessionStage::Over,
            };
            SessionStep::Do(next)
        },
        SessionEvent::Failed(reason) => {
            let reason = reason.as_str();
            let text = match stage {
                SessionStage::Connect => cat("Failed to connect to address ", address),
                SessionStage::Preferences => "Failed to set preferences".to_owned(),
                SessionStage::Handshake => cat("Failed to perform handshake: \n", reason),
                SessionStage::Home => "Failed to find the local home directory".to_owned(),
                SessionStage::KnownHostsFile => cat("Failed to create knownhost file: ", reason),
                SessionStage::KnownHosts => cat("Failed to reach knownhost file:\n", reason),
                SessionStage::HostKey => "Host did not provide a key.".to_owned(),
                SessionStage::Register => "Failed to add the host key in the registry".to_owned(),
                SessionStage::Save => "Failed to write the knownhost file".to_owned(),
                SessionStage::Agent => cat("Ssh Agent was unavailable: \n", reason),
                _ => cat("Couldn't list identities: \n", reason),
            };
            SessionStep::Return(Err(Error::ConnectionFailed(text)))
        },
        SessionEvent::Checked(check) => match authenticate_host(check) {
            HostDecision::Accept => SessionStep::Do(SessionStage::Agent),
            HostDecision::Register => SessionStep::Do(SessionStage::Register),
            HostDecision::Refuse(e) => SessionStep::Return(Err(e)),
        },
        SessionEvent::Tried(identities, failed) => match authenticate_local(&identities, failed) {
            Ok(_) => SessionStep::Return(Ok(())),
            Err(e) => SessionStep::Return(Err(e)),
        },
    }
}

/// The path of the known hosts, given the home directory.
pub fn known_hosts_path(home: &str) -> (res: String)
    ensures
        res@ == path_in(home@, KNOWN_HOSTS_RPATH@),
{
    path_join(home, KNOWN_HOSTS_RPATH)
}

/// No host is trusted whose key is not the known one: the session goes on to our own authentication
/// only where the key matches, or where the host was not known and its key was written down. And a
/// session is started only once we were authenticated.
pub proof fn only_checked_hosts_are_used(
    stage: SessionStage,
    address: Seq<char>,
    event: SessionEvent,
    step: SessionStep,
)
    requires
        session_accepts(stage, event),
        session_step(stage, address, event, step),
    ensures
        step == SessionStep::Do(SessionStage::Agent) ==> stage == SessionStage::Save || event
            == SessionEvent::Checked(HostCheck::Match),
        step == SessionStep::Do(SessionStage::Save) ==> stage == SessionStage::Register,
        step == SessionStep::Do(SessionStage::Register) ==> event == SessionEvent::Checked(
            HostCheck::NotFound,
        ),
        step == SessionStep::Do(SessionStage::Identities) ==> stage == SessionStage::Agent,
        step == SessionStep::Do(SessionStage::Authenticate) ==> stage == SessionStage::Identities,
        step is Return && step->Return_0 is Ok ==> stage == SessionStage::Authenticate,
{
}

//------------------------------------------------------------------------------------------ LAWS
/// A session is started stage by stage: each that is done is followed by the next one, and the first
/// one that fails ends it.
pub proof fn session_goes_through_its_stages(
    stage: SessionStage,
    address: &str,
    done: SessionStep,
    failed: SessionStep,
    reason: String,
)
    requires
        call_ensures(start_session, (stage, address, SessionEvent::Done), done),
        call_ensures(start_session, (stage, address, SessionEvent::Failed(reason)), failed),
    ensures
        stage is Connect ==> done == SessionStep::Do(SessionStage::Preferences),
        stage is Preferences ==> done == SessionStep::Do(SessionStage::Handshake),
        stage is Handshake ==> done == SessionStep::Do(SessionStage::Home),
        stage is Home ==> done == SessionStep::Do(SessionStage::KnownHostsFile),
        stage is KnownHostsFile ==> done == SessionStep::Do(SessionStage::KnownHosts),
        stage is KnownHosts ==> done == SessionStep::Do(SessionStage::HostKey),
        stage is HostKey ==> done == SessionStep::Do(SessionStage::Check),
        stage is Register ==> done == SessionStep::Do(SessionStage::Save),
        stage is Save ==> done == SessionStep::Do(SessionStage::Agent),
        stage is Agent ==> done == SessionStep::Do(SessionStage::Identities),
        stage is Identities ==> done == SessionStep::Do(SessionStage::Authenticate),
        failed is Return && failed->Return_0 is Err,
        failed->Return_0->Err_0 is ConnectionFailed,
        ({
            let text = failed->Return_0->Err_0->ConnectionFailed_0@;
            &&& stage is Connect ==> text == "Failed to connect to address "@ + address@
            &&& stage is Preferences ==> text == "Failed to set preferences"@
            &&& stage is Handshake ==> text == "Failed to perform handshake: \n"@ + reason@
            &&& stage is Home ==> text == "Failed to find the local home directory"@
            &&& stage is KnownHostsFile ==> text == "Failed to create knownhost file: "@ + reason@
            &&& stage is KnownHosts ==> text == "Failed to reach knownhost file:\n"@ + reason@
            &&& stage is HostKey ==> text == "Host did not provide a key."@
            &&& stage is Register ==> text == "Failed to add the host key in the registry"@
            &&& stage is Save ==> text == "Failed to write the knownhost file"@
            &&& stage is Agent ==> text == "Ssh Agent was unavailable: \n"@ + reason@
            &&& stage is Identities ==> text == "Couldn't list identities: \n"@ + reason@
        }),
{
}

/// A host goes through where its key is the known one, is registered where it is not known, and is
/// refused in any other case.
pub proof fn unknown_keys_are_registered(
    stage: SessionStage,
    address: &str,
    check: HostCheck,
    res: SessionStep,
)
    requires
        call_ensures(start_session, (stage, address, SessionEvent::Checked(check)), res),
    ensures
        check is Match ==> res == SessionStep::Do(SessionStage::Agent),
        check is NotFound ==> res == SessionStep::Do(SessionStage::Register),
        check is Mismatch || check is Failure ==> res is Return && res->Return_0 is Err,
{
}

/// A session is started where an identity was accepted that has a comment of its own, and is not where
/// all identities were refused.
pub proof fn one_accepted_identity_is_enough(
    stage: SessionStage,
    address: &str,
    identities: Vec<String>,
    failed: usize,
    res: SessionStep,
)
    requires
        call_ensures(
            start_session,
            (stage, address, SessionEvent::Tried(identities, failed)),
            res,
        ),
        failed <= identities.len(),
    ensures
        res is Return,
        failed == identities.len() ==> res->Return_0 is Err,
        failed < identities.len() && (forall|i: int|
            0 <= i < failed ==> (#[trigger] identities@[i])@ != identities@[failed as int]@)
            ==> res->Return_0 is Ok,
{
    let refused = texts(identities@.take(failed as int));
    if failed == identities.len() {
        assert forall|i: int| 0 <= i < identities.len() implies refused.contains(
            (#[trigger] identities@[i])@,
        ) by {
            assert(refused[i] == identities@[i]@);
        }
    } else if forall|i: int|
        0 <= i < failed ==> (#[trigger] identities@[i])@ != identities@[failed as int]@ {
        assert(!refused.contains(identities@[failed as int]@)) by {
            if refused.contains(identities@[failed as int]@) {
                let k = choose|k: int|
                    0 <= k < refused.len() && refused[k] == identities@[failed as int]@;
                assert(identities@[k]@ == identities@[failed as int]@);
            }
        }
    }
}

/// The known hosts stand in the home directory.
pub proof fn known_hosts_stand_in_home(home: &str, res: String)
    requires
        call_ensures(known_hosts_path, (home,), res),
        home@.len() > 0,
        home@.last() != '/',
    ensures
        res@ == home@ + "/.orchestra/known_hosts"@,
{
    reveal_strlit(".orchestra/known_hosts");
    reveal_strlit("/.orchestra/known_hosts");
    crate::text::paths_are_joined(home@, ".orchestra/known_hosts"@);
    assert(res@ =~= home@ + "/.orchestra/known_hosts"@);
}

} // verus!
