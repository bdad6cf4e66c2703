//! Connections to remote hosts: how a connection is made, and the operations that are run on it.
//!
//! An operation alternates work on the network and decisions. The decisions are taken here, step by
//! step: a step takes what came of the last action and says what has to be done next.
use vstd::prelude::*;
#[allow(unused_imports)]
use vstd::string::*;
#[allow(unused_imports)]
use crate::commons::{Output, TerminalContext};
use crate::ssh::config::SshProfile;
use crate::misc::debug;
#[allow(unused_imports)]
use crate::misc::debug_text;
use crate::primitives;
#[allow(unused_imports)]
use crate::text::{cat, cat3, decimal, decimal_of, same, split_whitespace, texts, words_of};

pub mod config;
pub mod connection;
pub mod exec;
pub mod pty;
pub mod remote;
pub mod scp;
pub mod session;

verus! {

//---------------------------------------------------------------------------------------- ERRORS
#[derive(Debug)]
pub enum Error {
    WouldBlock,
    ConnectionFailed(String),
    ProxyCommandStartup(String),
    ExecutionFailed(String),
    ScpSendFailed(String),
    ScpFetchFailed(String),
    PollExecutionFailed(String),
    FuturePoll(String),
    SpawnThread(String),
    Channel(String),
    OperationFetch(String),
    ChannelNotAvailable,
    Config(String),
}

impl Error {
    /// The characters of the text of the error.
    pub open spec fn text(&self) -> Seq<char> {
        match self {
            Error::WouldBlock => "Blocking operation."@,
            Error::ConnectionFailed(s) =>
                "An error occurred while trying to connect to connect to a remote host: \n"@ + s@,
            Error::ProxyCommandStartup(s) =>
                "An error occurred when starting a proxycommand: \n"@ + s@,
            Error::ExecutionFailed(s) =>
                "An error occurred while running a command on a remote host: \n"@ + s@,
            Error::ScpSendFailed(s) =>
                "An error occurred while sending a file to a remote host: \n"@ + s@,
            Error::ScpFetchFailed(s) =>
                "An error occurred while fetching a file from a remote host: \n"@ + s@,
            Error::PollExecutionFailed(s) => "An error occurred while polling a command: \n"@ + s@,
            Error::FuturePoll(s) => "An error occurred while polling a future: \n"@ + s@,
            Error::SpawnThread(s) => "An error occured while spawning the thread: \n"@ + s@,
            Error::ChannelNotAvailable => "Channel is not yet available"@,
            Error::Channel(s) => "A channel related error occured: "@ + s@,
            Error::OperationFetch(s) => "Failed to fetch the operation.: "@ + s@,
            Error::Config(s) => "An ssh config-related error occurred: "@ + s@,
        }
    }

    /// The text of the error.
    pub fn message(&self) -> (res: String)
        ensures
            res@ == self.text(),
    {
        match self {
            Error::WouldBlock => "Blocking operation.".to_owned(),
            Error::ConnectionFailed(s) => cat(
                "An error occurred while trying to connect to connect to a remote host: \n",
                s.as_str(),
            ),
            Error::ProxyCommandStartup(s) => cat(
                "An error occurred when starting a proxycommand: \n",
                s.as_str(),
            ),
            Error::ExecutionFailed(s) => cat(
                "An error occurred while running a command on a remote host: \n",
                s.as_str(),
            ),
            Error::ScpSendFailed(s) => cat(
                "An error occurred while sending a file to a remote host: \n",
                s.as_str(),
            ),
            Error::ScpFetchFailed(s) => cat(
                "An error occurred while fetching a file from a remote host: \n",
                s.as_str(),
            ),
            Error::PollExecutionFailed(s) => cat(
                "An error occurred while polling a command: \n",
                s.as_str(),
            ),
            Error::FuturePoll(s) => cat("An error occurred while polling a future: \n", s.as_str()),
            Error::SpawnThread(s) => cat(
                "An error occured while spawning the thread: \n",
                s.as_str(),
            ),
            Error::ChannelNotAvailable => "Channel is not yet available".to_owned(),
            Error::Channel(s) => cat("A channel related error occured: ", s.as_str()),
            Error::OperationFetch(s) => cat("Failed to fetch the operation.: ", s.as_str()),
            Error::Config(s) => cat("An ssh config-related error occurred: ", s.as_str()),
        }
    }

    /// How the error is shown: the variant, and what it holds.
    pub open spec fn shown(&self) -> Seq<char> {
        match self {
            Error::WouldBlock => "WouldBlock"@,
            Error::ConnectionFailed(s) => "ConnectionFailed("@ + debug_text(s@) + ")"@,
            Error::ProxyCommandStartup(s) => "ProxyCommandStartup("@ + debug_text(s@) + ")"@,
            Error::ExecutionFailed(s) => "ExecutionFailed("@ + debug_text(s@) + ")"@,
            Error::ScpSendFailed(s) => "ScpSendFailed("@ + debug_text(s@) + ")"@,
            Error::ScpFetchFailed(s) => "ScpFetchFailed("@ + debug_text(s@) + ")"@,
            Error::PollExecutionFailed(s) => "PollExecutionFailed("@ + debug_text(s@) + ")"@,
            Error::FuturePoll(s) => "FuturePoll("@ + debug_text(s@) + ")"@,
            Error::SpawnThread(s) => "SpawnThread("@ + debug_text(s@) + ")"@,
            Error::Channel(s) => "Channel("@ + debug_text(s@) + ")"@,
            Error::OperationFetch(s) => "OperationFetch("@ + debug_text(s@) + ")"@,
            Error::ChannelNotAvailable => "ChannelNotAvailable"@,
            Error::Config(s) => "Config("@ + debug_text(s@) + ")"@,
        }
    }

    /// Shows the error.
    pub fn show(&self) -> (res: String)
        ensures
            res@ == self.shown(),
    {
        match self {
            Error::WouldBlock => "WouldBlock".to_owned(),
            Error::ConnectionFailed(s) => cat3("ConnectionFailed(", debug(s.as_str()).as_str(), ")"),
            Error::ProxyCommandStartup(s) => cat3("ProxyCommandStartup(", debug(s.as_str()).as_str(), ")"),
            Error::ExecutionFailed(s) => cat3("ExecutionFailed(", debug(s.as_str()).as_str(), ")"),
            Error::ScpSendFailed(s) => cat3("ScpSendFailed(", debug(s.as_str()).as_str(), ")"),
            Error::ScpFetchFailed(s) => cat3("ScpFetchFailed(", debug(s.as_str()).as_str(), ")"),
            Error::PollExecutionFailed(s) => cat3("PollExecutionFailed(", debug(s.as_str()).as_str(), ")"),
            Error::FuturePoll(s) => cat3("FuturePoll(", debug(s.as_str()).as_str(), ")"),
            Error::SpawnThread(s) => cat3("SpawnThread(", debug(s.as_str()).as_str(), ")"),
            Error::Channel(s) => cat3("Channel(", debug(s.as_str()).as_str(), ")"),
            Error::OperationFetch(s) => cat3("OperationFetch(", debug(s.as_str()).as_str(), ")"),
            Error::ChannelNotAvailable => "ChannelNotAvailable".to_owned(),
            Error::Config(s) => cat3("Config(", debug(s.as_str()).as_str(), ")"),
        }
    }

    /// The error as that of an operation, which holds its text.
    pub fn to_operation(&self) -> (res: primitives::Error)
        ensures
            res is Operation,
            res->Operation_0@ == self.text(),
    {
        primitives::Error::Operation(self.message())
    }
}

impl Clone for Error {
    fn clone(&self) -> (res: Error)
        ensures
            res == *self,
    {
        match self {
            Error::WouldBlock => Error::WouldBlock,
            Error::ConnectionFailed(s) => Error::ConnectionFailed(s.clone()),
            Error::ProxyCommandStartup(s) => Error::ProxyCommandStartup(s.clone()),
            Error::ExecutionFailed(s) => Error::ExecutionFailed(s.clone()),
            Error::ScpSendFailed(s) => Error::ScpSendFailed(s.clone()),
            Error::ScpFetchFailed(s) => Error::ScpFetchFailed(s.clone()),
            Error::PollExecutionFailed(s) => Error::PollExecutionFailed(s.clone()),
            Error::FuturePoll(s) => Error::FuturePoll(s.clone()),
            Error::SpawnThread(s) => Error::SpawnThread(s.clone()),
            Error::ChannelNotAvailable => Error::ChannelNotAvailable,
            Error::Channel(s) => Error::Channel(s.clone()),
            Error::OperationFetch(s) => Error::OperationFetch(s.clone()),
            Error::Config(s) => Error::Config(s.clone()),
        }
    }
}

//--------------------------------------------------------------------------------- PROXY-COMMAND
/// The program of a proxy command, and its arguments.
pub fn proxy_program(command: &str) -> (res: (String, Vec<String>))
    requires
        words_of(command@).len() > 0,
    ensures
        seq![res.0@] + texts(res.1@) == words_of(command@),
{
    let mut words = split_whitespace(command);
    let ghost all = texts(words@);
    let program = words.remove(0);
    assert(seq![program@] + texts(words@) =~= all);
    (program, words)
}

/// Tells whether there is a program in a proxy command.
pub fn has_proxy_program(command: &str) -> (res: bool)
    ensures
        res == (words_of(command@).len() > 0),
{
    let words = split_whitespace(command);
    assert(texts(words@).len() == words.len());
    words.len() > 0
}

//------------------------------------------------------------------------------------ CONNECTION
/// How the host of a profile is reached.
#[derive(Debug)]
pub enum Connection {
    /// Through a proxy command, as a user of a host.
    ProxyCommand { command: String, host: String, user: String },
    /// At an address, as a user of a host.
    Address { address: String, host: String, user: String },
}

impl Connection {
    /// The way to reach the host of a profile. It needs a host name and a user, and either a
    /// proxy command or a port; the proxy command comes first.
    pub fn from_profile(profile: &SshProfile) -> (res: Result<Connection, Error>)
        ensures
            match (profile.hostname, profile.user, profile.proxycommand, profile.port) {
                (Some(h), Some(u), Some(c), _) => {
                    &&& res is Ok
                    &&& res->Ok_0 == (Connection::ProxyCommand { command: c, host: h, user: u })
                },
                (Some(h), Some(u), None, Some(p)) => {
                    &&& res is Ok
                    &&& res->Ok_0 is Address
                    &&& res->Ok_0->Address_address@ == h@ + ":"@ + decimal_of(p as nat)
                    &&& res->Ok_0->Address_host == h
                    &&& res->Ok_0->Address_user == u
                },
                _ => {
                    &&& res is Err
                    &&& res->Err_0 is ConnectionFailed
                    &&& res->Err_0->ConnectionFailed_0@ == "The encountered profile is invalid: \n"@
                        + profile.shown()
                        + "\nIt should either provide a proxycommand or a port"@
                },
            },
    {
        match (&profile.hostname, &profile.user, &profile.proxycommand, profile.port) {
            (Some(host), Some(user), Some(command), _) => Ok(
                Connection::ProxyCommand {
                    command: command.clone(),
                    host: host.clone(),
                    user: user.clone(),
                },
            ),
            (Some(host), Some(user), None, Some(port)) => Ok(
                Connection::Address {
                    address: cat3(host.as_str(), ":", decimal(port).as_str()),
                    host: host.clone(),
                    user: user.clone(),
                },
            ),
            _ => Err(
                Error::ConnectionFailed(
                    cat3(
                        "The encountered profile is invalid: \n",
                        profile.show().as_str(),
                        "\nIt should either provide a proxycommand or a port",
                    ),
                ),
            ),
        }
    }
}

/// What a check of the key of a host against the known ones gives.
#[derive(Clone, Copy, Debug, PartialEq, Eq, Structural)]
pub enum HostCheck {
    /// The host is recognized.
    Match,
    /// The host is different.
    Mismatch,
    /// The host is not in the database.
    NotFound,
    /// The check failed.
    Failure,
}

/// What is done with a host whose key was checked.
pub enum HostDecision {
    /// Go on.
    Accept,
    /// Write the key in the registry, and go on.
    Register,
    /// Refuse the connection.
    Refuse(Error),
}

/// Decides what is done with a host: a host that is not known yet is registered, and one whose key
/// is not the known one is refused.
pub fn authenticate_host(check: HostCheck) -> (res: HostDecision)
    ensures
        match check {
            HostCheck::Match => res is Accept,
            HostCheck::NotFound => res is Register,
            HostCheck::Mismatch => {
                &&& res is Refuse
                &&& res->Refuse_0 is ConnectionFailed
                &&& res->Refuse_0->ConnectionFailed_0@
                    == "The key presented by the host mismatches the one we know. "@
            },
            HostCheck::Failure => {
                &&& res is Refuse
                &&& res->Refuse_0 is ConnectionFailed
                &&& res->Refuse_0->ConnectionFailed_0@ == "Failed to check the host."@
            },
        },
{
    match check {
        HostCheck::Match => HostDecision::Accept,
        HostCheck::NotFound => HostDecision::Register,
        HostCheck::Mismatch => HostDecision::Refuse(
            Error::ConnectionFailed(
                "The key presented by the host mismatches the one we know. ".to_owned(),
            ),
        ),
        HostCheck::Failure => HostDecision::Refuse(
            Error::ConnectionFailed("Failed to check the host.".to_owned()),
        ),
    }
}

/// Whether the comment of each identity is that of one of the first ones, which were refused.
pub open spec fn all_refused(identities: Seq<String>, failed: int) -> bool {
    forall|i: int|
        0 <= i < identities.len() ==> texts(identities.take(failed)).contains(
            (#[trigger] identities[i])@,
        )
}

/// Decides whether we are authenticated. `identities` holds the comments of the identities of the
/// agent, of which the first `failed` ones were tried and refused: we are, unless each comment is
/// that of an identity that was refused.
pub fn authenticate_local(identities: &Vec<String>, failed: usize) -> (res: Result<(), Error>)
    requires
        failed <= identities.len(),
    ensures
        res is Err <==> all_refused(identities@, failed as int),
        res is Err ==> res->Err_0 is ConnectionFailed && res->Err_0->ConnectionFailed_0@
            == "No identities registered in the ssh agent allowed to connect."@,
{
    let ghost refused = texts(identities@.take(failed as int));
    let mut i: usize = 0;
    while i < identities.len()
        invariant
            i <= identities.len(),
            failed <= identities.len(),
            refused == texts(identities@.take(failed as int)),
            forall|j: int| 0 <= j < i ==> refused.contains((#[trigger] identities@[j])@),
        decreases identities.len() - i,
    {
        let mut found: bool = false;
        let mut k: usize = 0;
        while k < failed
            invariant
                k <= failed <= identities.len(),
                i < identities.len(),
                refused == texts(identities@.take(failed as int)),
                found ==> refused.contains(identities@[i as int]@),
                !found ==> forall|j: int|
                    0 <= j < k ==> (#[trigger] identities@[j])@ != identities@[i as int]@,
            decreases failed - k,
        {
            if same(identities[k].as_str(), identities[i].as_str()) {
                assert(refused[k as int] == identities@[k as int]@);
                found = true;
            }
            k = k + 1;
        }
        if !found {
            assert(!refused.contains(identities@[i as int]@)) by {
                if refused.contains(identities@[i as int]@) {
                    let j = choose|j: int|
                        0 <= j < refused.len() && refused[j] == identities@[i as int]@;
                    assert(identities@[j]@ == identities@[i as int]@);
                }
            }
            return Ok(());
        }
        i = i + 1;
    }
    Err(
        Error::ConnectionFailed(
            "No identities registered in the ssh agent allowed to connect.".to_owned(),
        ),
    )
}

/// Where each identity has its own comment, we are authenticated exactly when one of them was
/// accepted.
pub proof fn authenticated_when_one_accepted(identities: Seq<Seq<char>>, failed: int)
    requires
        0 <= failed <= identities.len(),
        identities.no_duplicates(),
    ensures
        (forall|i: int|
            0 <= i < identities.len() ==> identities.take(failed).contains(
                #[trigger] identities[i],
            )) <==> failed == identities.len(),
{
    if failed == identities.len() {
        assert forall|i: int| 0 <= i < identities.len() implies identities.take(failed).contains(
            #[trigger] identities[i],
        ) by {
            assert(identities.take(failed)[i] == identities[i]);
        }
    } else {
        if identities.take(failed).contains(identities[failed]) {
            let j = choose|j: int|
                0 <= j < failed && identities.take(failed)[j] == identities[failed];
            assert(identities[j] == identities[failed]);
        }
    }
}

//------------------------------------------------------------------------------------ OPERATIONS
/// The operations that can be asked for on a remote.
#[derive(Debug)]
pub enum OperationInput {
    Exec(String),
    Pty(TerminalContext, Vec<String>),
    /// Sends a local file to a remote path.
    ScpSend(String, String),
    /// Fetches a remote file to a local path.
    ScpFetch(String, String),
}

/// What is answered.
#[derive(Debug)]
pub enum OperationOutput {
    Exec(Result<Output, Error>),
    Pty(Result<(TerminalContext, Vec<Output>), Error>),
    ScpSend(Result<(), Error>),
    ScpFetch(Result<(), Error>),
}

/// How a result without a value is shown.
pub open spec fn shown_unit(result: Result<(), Error>) -> Seq<char> {
    match result {
        Ok(_) => "Ok(())"@,
        Err(e) => "Err("@ + e.shown() + ")"@,
    }
}

fn show_unit(result: &Result<(), Error>) -> (res: String)
    ensures
        res@ == shown_unit(*result),
{
    match result {
        Ok(_) => "Ok(())".to_owned(),
        Err(e) => cat3("Err(", e.show().as_str(), ")"),
    }
}

/// How a result with a value is shown, where the value is shown as given.
pub open spec fn shown_value<T>(result: Result<T, Error>, value: Seq<char>) -> Seq<char> {
    match result {
        Ok(_) => "Ok("@ + value + ")"@,
        Err(e) => "Err("@ + e.shown() + ")"@,
    }
}

fn show_value<T>(result: &Result<T, Error>, value: &str) -> (res: String)
    ensures
        res@ == shown_value(*result, value@),
{
    match result {
        Ok(_) => cat3("Ok(", value, ")"),
        Err(e) => cat3("Err(", e.show().as_str(), ")"),
    }
}

impl OperationOutput {
    /// How the answer is shown: the operation that is answered, and its result, where the value of
    /// the result is shown as given.
    pub open spec fn shown(&self, value: Seq<char>) -> Seq<char> {
        match self {
            OperationOutput::Exec(result) => "Exec("@ + shown_value(*result, value) + ")"@,
            OperationOutput::Pty(result) => "Pty("@ + shown_value(*result, value) + ")"@,
            OperationOutput::ScpSend(result) => "ScpSend("@ + shown_unit(*result) + ")"@,
            OperationOutput::ScpFetch(result) => "ScpFetch("@ + shown_unit(*result) + ")"@,
        }
    }

    /// Shows the answer.
    pub fn show(&self, value: &str) -> (res: String)
        ensures
            res@ == self.shown(value@),
    {
        match self {
            OperationOutput::Exec(result) => cat3("Exec(", show_value(result, value).as_str(), ")"),
            OperationOutput::Pty(result) => cat3("Pty(", show_value(result, value).as_str(), ")"),
            OperationOutput::ScpSend(result) => cat3("ScpSend(", show_unit(result).as_str(), ")"),
            OperationOutput::ScpFetch(result) => cat3("ScpFetch(", show_unit(result).as_str(), ")"),
        }
    }
}

/// The error for an answer that is not to the operation that was asked for.
pub open spec fn is_unexpected(expected: Seq<char>, found: Seq<char>, error: Error) -> bool {
    error is OperationFetch && error->OperationFetch_0@ == "Expected "@ + expected + ", found "@
        + found
}

fn unexpected(expected: &str, found: &OperationOutput, value: &str) -> (res: Error)
    ensures
        is_unexpected(expected@, found.shown(value@), res),
{
    let mut text = cat3("Expected ", expected, ", found ");
    text.append(found.show(value).as_str());
    Error::OperationFetch(text)
}

/// What the answer to an execution gives. An answer that never came is an error, and so is one to another
/// operation, which is shown with its value as given.
pub fn exec_reply(answer: Result<OperationOutput, String>, value: &str) -> (res: Result<Output, Error>)
    ensures
        match answer {
            Ok(OperationOutput::Exec(result)) => res == result,
            Ok(other) => res is Err && is_unexpected("Exec"@, other.shown(value@), res->Err_0),
            Err(reason) => res == Err::<Output, Error>(Error::OperationFetch(reason)),
        },
{
    match answer {
        Ok(OperationOutput::Exec(result)) => result,
        Ok(other) => Err(unexpected("Exec", &other, value)),
        Err(reason) => Err(Error::OperationFetch(reason)),
    }
}

/// What the answer to interactive commands gives. An answer that never came is an error, and so is one to another
/// operation, which is shown with its value as given.
pub fn pty_reply(answer: Result<OperationOutput, String>, value: &str) -> (res: Result<
    (TerminalContext, Vec<Output>),
    Error,
>)
    ensures
        match answer {
            Ok(OperationOutput::Pty(result)) => res == result,
            Ok(other) => res is Err && is_unexpected("Pty"@, other.shown(value@), res->Err_0),
            Err(reason) => res == Err::<(TerminalContext, Vec<Output>), Error>(
                Error::OperationFetch(reason),
            ),
        },
{
    match answer {
        Ok(OperationOutput::Pty(result)) => result,
        Ok(other) => Err(unexpected("Pty", &other, value)),
        Err(reason) => Err(Error::OperationFetch(reason)),
    }
}

/// What the answer to a sending gives. An answer that never came is an error, and so is one to another
/// operation, which is shown with its value as given.
pub fn scp_send_reply(answer: Result<OperationOutput, String>, value: &str) -> (res: Result<(), Error>)
    ensures
        match answer {
            Ok(OperationOutput::ScpSend(result)) => res == result,
            Ok(other) => res is Err && is_unexpected("ScpSend"@, other.shown(value@), res->Err_0),
            Err(reason) => res == Err::<(), Error>(Error::OperationFetch(reason)),
        },
{
    match answer {
        Ok(OperationOutput::ScpSend(result)) => result,
        Ok(other) => Err(unexpected("ScpSend", &other, value)),
        Err(reason) => Err(Error::OperationFetch(reason)),
    }
}

/// What the answer to a fetching gives. An answer that never came is an error, and so is one to another
/// operation, which is shown with its value as given.
pub fn scp_fetch_reply(answer: Result<OperationOutput, String>, value: &str) -> (res: Result<(), Error>)
    ensures
        match answer {
            Ok(OperationOutput::ScpFetch(result)) => res == result,
            Ok(other) => res is Err && is_unexpected("ScpFetch"@, other.shown(value@), res->Err_0),
            Err(reason) => res == Err::<(), Error>(Error::OperationFetch(reason)),
        },
{
    match answer {
        Ok(OperationOutput::ScpFetch(result)) => result,
        Ok(other) => Err(unexpected("ScpFetch", &other, value)),
        Err(reason) => Err(Error::OperationFetch(reason)),
    }
}

/// How a remote is shown: by its host name, or else by its proxy command.
pub fn show_remote(profile: &SshProfile) -> (res: String)
    ensures
        res@ == "RemoteHandle<"@ + (match (profile.hostname, profile.proxycommand) {
            (Some(host), _) => host@,
            (None, Some(command)) => command@,
            (None, None) => "Unknown"@,
        }) + ">"@,
{
    match (&profile.hostname, &profile.proxycommand) {
        (Some(host), _) => cat3("RemoteHandle<", host.as_str(), ">"),
        (None, Some(command)) => cat3("RemoteHandle<", command.as_str(), ">"),
        (None, None) => cat3("RemoteHandle<", "Unknown", ">"),
    }
}

//------------------------------------------------------------------------------------------ LAWS
/// The program of a proxy command is its first word, and its arguments are the others.
pub proof fn proxy_program_is_first_word(command: &str, has: bool, res: (String, Vec<String>))
    requires
        call_ensures(has_proxy_program, (command,), has),
        call_ensures(proxy_program, (command,), res),
    ensures
        has <==> words_of(command@).len() > 0,
        res.0@ == words_of(command@)[0],
        texts(res.1@) == words_of(command@).skip(1),
{
    let all = words_of(command@);
    let parts = seq![res.0@] + texts(res.1@);
    assert(parts == all);
    assert(parts[0] == res.0@);
    assert(parts.skip(1) =~= texts(res.1@));
}

/// A host is reached as the user of its profile, through its proxy command where it has one, and else
/// at the address that is made of its host name and its port. A profile without a host name or a user,
/// or with neither a proxy command nor a port, is refused.
pub proof fn profile_says_how_to_connect(profile: &SshProfile, res: Result<Connection, Error>)
    requires
        call_ensures(Connection::from_profile, (profile,), res),
    ensures
        res is Ok <==> profile.hostname is Some && profile.user is Some && (
        profile.proxycommand is Some || profile.port is Some),
        res is Ok && profile.proxycommand is Some ==> {
            &&& res->Ok_0 is ProxyCommand
            &&& res->Ok_0->command == profile.proxycommand->Some_0
            &&& res->Ok_0->ProxyCommand_host == profile.hostname->Some_0
            &&& res->Ok_0->ProxyCommand_user == profile.user->Some_0
        },
        res is Ok && profile.proxycommand is None ==> {
            &&& res->Ok_0 is Address
            &&& res->Ok_0->address@ == profile.hostname->Some_0@ + seq![':'] + decimal_of(
                profile.port->Some_0 as nat,
            )
            &&& res->Ok_0->Address_host == profile.hostname->Some_0
            &&& res->Ok_0->Address_user == profile.user->Some_0
        },
{
    reveal_strlit(":");
    assert(":"@ =~= seq![':']);
}

/// A host whose key is the known one is accepted, one that is not known is registered, and any other
/// is refused.
pub proof fn hosts_are_authenticated_by_their_key(check: HostCheck, res: HostDecision)
    requires
        call_ensures(authenticate_host, (check,), res),
    ensures
        res is Accept <==> check is Match,
        res is Register <==> check is NotFound,
        res is Refuse <==> check is Mismatch || check is Failure,
{
}

/// Where each identity has a comment of its own, we are authenticated if and only if not all of them
/// were refused.
pub proof fn one_accepted_identity_is_enough(
    identities: &Vec<String>,
    failed: usize,
    res: Result<(), Error>,
)
    requires
        call_ensures(authenticate_local, (identities, failed), res),
        failed <= identities.len(),
        texts(identities@).no_duplicates(),
    ensures
        res is Ok <==> failed < identities.len(),
{
    let all = texts(identities@);
    authenticated_when_one_accepted(all, failed as int);
    assert(texts(identities@.take(failed as int)) =~= all.take(failed as int));
    if res is Err {
        assert forall|i: int| 0 <= i < all.len() implies all.take(failed as int).contains(
            #[trigger] all[i],
        ) by {
            assert(all[i] == identities@[i]@);
        }
    }
    if failed == identities.len() {
        assert forall|i: int| 0 <= i < identities.len() implies texts(
            identities@.take(failed as int),
        ).contains((#[trigger] identities@[i])@) by {
            assert(all[i] == identities@[i]@);
            assert(all.take(failed as int).contains(all[i]));
        }
    }
}

/// The answers go back to those who asked: each gets the result of its operation, and an answer to
/// another operation, or one that never came, is an error.
pub proof fn answers_go_back(
    answer: Result<OperationOutput, String>,
    value: &str,
    executed: Result<Output, Error>,
    ran: Result<(TerminalContext, Vec<Output>), Error>,
    sent: Result<(), Error>,
    fetched: Result<(), Error>,
)
    requires
        call_ensures(exec_reply, (answer, value), executed),
        call_ensures(pty_reply, (answer, value), ran),
        call_ensures(scp_send_reply, (answer, value), sent),
        call_ensures(scp_fetch_reply, (answer, value), fetched),
    ensures
        answer is Ok && answer->Ok_0 is Exec ==> executed == answer->Ok_0->Exec_0,
        answer is Ok && answer->Ok_0 is Pty ==> ran == answer->Ok_0->Pty_0,
        answer is Ok && answer->Ok_0 is ScpSend ==> sent == answer->Ok_0->ScpSend_0,
        answer is Ok && answer->Ok_0 is ScpFetch ==> fetched == answer->Ok_0->ScpFetch_0,
        answer is Ok && !(answer->Ok_0 is Exec) ==> executed is Err,
        answer is Ok && !(answer->Ok_0 is Pty) ==> ran is Err,
        answer is Ok && !(answer->Ok_0 is ScpSend) ==> sent is Err,
        answer is Ok && !(answer->Ok_0 is ScpFetch) ==> fetched is Err,
        answer is Err ==> executed is Err && executed->Err_0 == Error::OperationFetch(answer->Err_0)
            && ran is Err && ran->Err_0 == Error::OperationFetch(answer->Err_0) && sent == Err::<
            (),
            Error,
        >(Error::OperationFetch(answer->Err_0)) && fetched == Err::<(), Error>(
            Error::OperationFetch(answer->Err_0),
        ),
{
}

/// A remote is shown by its host name, or else by its proxy command.
pub proof fn remote_is_shown_by_its_host(profile: &SshProfile, res: String)
    requires
        call_ensures(show_remote, (profile,), res),
    ensures
        profile.hostname is Some ==> res@ == "RemoteHandle<"@ + profile.hostname->Some_0@ + ">"@,
        profile.hostname is None && profile.proxycommand is Some ==> res@ == "RemoteHandle<"@
            + profile.proxycommand->Some_0@ + ">"@,
        profile.hostname is None && profile.proxycommand is None ==> res@ == "RemoteHandle<"@
            + "Unknown"@ + ">"@,
{
}

/// What an error says: what failed, and the reason that it holds.
pub proof fn errors_say_what_failed(error: Error, said: String, shown: String)
    requires
        call_ensures(Error::message, (&error,), said),
        call_ensures(Error::show, (&error,), shown),
    ensures
        error is WouldBlock ==> said@ == "Blocking operation."@,
        error is ConnectionFailed ==> said@ == "An error occurred while trying to connect to connect to a remote host: \n"@ + error->ConnectionFailed_0@,
        error is ProxyCommandStartup ==> said@ == "An error occurred when starting a proxycommand: \n"@ + error->ProxyCommandStartup_0@,
        error is ExecutionFailed ==> said@ == "An error occurred while running a command on a remote host: \n"@ + error->ExecutionFailed_0@,
        error is ScpSendFailed ==> said@ == "An error occurred while sending a file to a remote host: \n"@ + error->ScpSendFailed_0@,
        error is ScpFetchFailed ==> said@ == "An error occurred while fetching a file from a remote host: \n"@ + error->ScpFetchFailed_0@,
        error is PollExecutionFailed ==> said@ == "An error occurred while polling a command: \n"@ + error->PollExecutionFailed_0@,
        error is FuturePoll ==> said@ == "An error occurred while polling a future: \n"@ + error->FuturePoll_0@,
        error is SpawnThread ==> said@ == "An error occured while spawning the thread: \n"@ + error->SpawnThread_0@,
        error is ChannelNotAvailable ==> said@ == "Channel is not yet available"@,
        error is Channel ==> said@ == "A channel related error occured: "@ + error->Channel_0@,
        error is OperationFetch ==> said@ == "Failed to fetch the operation.: "@ + error->OperationFetch_0@,
        error is Config ==> said@ == "An ssh config-related error occurred: "@ + error->Config_0@,
        error is WouldBlock ==> shown@ == "WouldBlock"@,
        error is ConnectionFailed ==> shown@ == "ConnectionFailed("@ + debug_text(error->ConnectionFailed_0@) + ")"@,
        error is ProxyCommandStartup ==> shown@ == "ProxyCommandStartup("@ + debug_text(error->ProxyCommandStartup_0@) + ")"@,
        error is ExecutionFailed ==> shown@ == "ExecutionFailed("@ + debug_text(error->ExecutionFailed_0@) + ")"@,
        error is ScpSendFailed ==> shown@ == "ScpSendFailed("@ + debug_text(error->ScpSendFailed_0@) + ")"@,
        error is ScpFetchFailed ==> shown@ == "ScpFetchFailed("@ + debug_text(error->ScpFetchFailed_0@) + ")"@,
        error is PollExecutionFailed ==> shown@ == "PollExecutionFailed("@ + debug_text(error->PollExecutionFailed_0@) + ")"@,
        error is FuturePoll ==> shown@ == "FuturePoll("@ + debug_text(error->FuturePoll_0@) + ")"@,
        error is SpawnThread ==> shown@ == "SpawnThread("@ + debug_text(error->SpawnThread_0@) + ")"@,
        error is Channel ==> shown@ == "Channel("@ + debug_text(error->Channel_0@) + ")"@,
        error is OperationFetch ==> shown@ == "OperationFetch("@ + debug_text(error->OperationFetch_0@) + ")"@,
        error is ChannelNotAvailable ==> shown@ == "ChannelNotAvailable"@,
        error is Config ==> shown@ == "Config("@ + debug_text(error->Config_0@) + ")"@,
{
}

/// An answer is shown by its operation and its result, and where another one was expected, the error
/// says which one, and shows the answer.
pub proof fn unexpected_answers_are_shown(
    answer: OperationOutput,
    value: &str,
    text: String,
    executed: Result<Output, Error>,
    ran: Result<(TerminalContext, Vec<Output>), Error>,
    sent: Result<(), Error>,
    fetched: Result<(), Error>,
)
    requires
        call_ensures(OperationOutput::show, (&answer, value), text),
        call_ensures(
            exec_reply,
            (Ok::<OperationOutput, String>(answer), value),
            executed,
        ),
        call_ensures(
            pty_reply,
            (Ok::<OperationOutput, String>(answer), value),
            ran,
        ),
        call_ensures(
            scp_send_reply,
            (Ok::<OperationOutput, String>(answer), value),
            sent,
        ),
        call_ensures(
            scp_fetch_reply,
            (Ok::<OperationOutput, String>(answer), value),
            fetched,
        ),
    ensures
        !(answer is Exec) ==> executed->Err_0 is OperationFetch && executed->Err_0->OperationFetch_0@
            == "Expected "@ + "Exec"@ + ", found "@ + text@,
        answer is Exec && answer->Exec_0 is Err ==> text@ == "Exec("@ + ("Err("@ + answer->Exec_0->Err_0.shown()
            + ")"@) + ")"@,
        answer is Exec && answer->Exec_0 is Ok ==> text@ == "Exec("@ + ("Ok("@ + value@ + ")"@) + ")"@,
        !(answer is Pty) ==> ran->Err_0 is OperationFetch && ran->Err_0->OperationFetch_0@
            == "Expected "@ + "Pty"@ + ", found "@ + text@,
        answer is Pty && answer->Pty_0 is Err ==> text@ == "Pty("@ + ("Err("@ + answer->Pty_0->Err_0.shown()
            + ")"@) + ")"@,
        answer is Pty && answer->Pty_0 is Ok ==> text@ == "Pty("@ + ("Ok("@ + value@ + ")"@) + ")"@,
        !(answer is ScpSend) ==> sent->Err_0 is OperationFetch && sent->Err_0->OperationFetch_0@
            == "Expected "@ + "ScpSend"@ + ", found "@ + text@,
        answer is ScpSend && answer->ScpSend_0 is Err ==> text@ == "ScpSend("@ + ("Err("@ + answer->ScpSend_0->Err_0.shown()
            + ")"@) + ")"@,
        answer is ScpSend && answer->ScpSend_0 is Ok ==> text@ == "ScpSend("@ + "Ok(())"@ + ")"@,
        !(answer is ScpFetch) ==> fetched->Err_0 is OperationFetch && fetched->Err_0->OperationFetch_0@
            == "Expected "@ + "ScpFetch"@ + ", found "@ + text@,
        answer is ScpFetch && answer->ScpFetch_0 is Err ==> text@ == "ScpFetch("@ + ("Err("@ + answer->ScpFetch_0->Err_0.shown()
            + ")"@) + ")"@,
        answer is ScpFetch && answer->ScpFetch_0 is Ok ==> text@ == "ScpFetch("@ + "Ok(())"@ + ")"@,
{
}

/// What is refused is told: a profile that says too little is shown, and so is why a host or we
/// ourselves are not authenticated.
pub proof fn refusals_are_told(
    profile: &SshProfile,
    shown: String,
    connection: Result<Connection, Error>,
    mismatch: HostDecision,
    failure: HostDecision,
    identities: &Vec<String>,
    failed: usize,
    local: Result<(), Error>,
)
    requires
        call_ensures(SshProfile::show, (profile,), shown),
        call_ensures(Connection::from_profile, (profile,), connection),
        call_ensures(authenticate_host, (HostCheck::Mismatch,), mismatch),
        call_ensures(authenticate_host, (HostCheck::Failure,), failure),
        call_ensures(authenticate_local, (identities, failed), local),
    ensures
        connection is Err ==> connection->Err_0 is ConnectionFailed
            && connection->Err_0->ConnectionFailed_0@ == "The encountered profile is invalid: \n"@
            + shown@ + "\nIt should either provide a proxycommand or a port"@,
        mismatch->Refuse_0 is ConnectionFailed && mismatch->Refuse_0->ConnectionFailed_0@
            == "The key presented by the host mismatches the one we know. "@,
        failure->Refuse_0 is ConnectionFailed && failure->Refuse_0->ConnectionFailed_0@
            == "Failed to check the host."@,
        local is Err ==> local->Err_0 is ConnectionFailed && local->Err_0->ConnectionFailed_0@
            == "No identities registered in the ssh agent allowed to connect."@,
{
}

} // verus!
