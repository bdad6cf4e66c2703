//! Hosts allocations. Given a host configuration, a host provides nodes: a node is waited for until
//! it is available for computation, given the restrictions of the configuration. The allocations
//! are started and revoked automatically.
use vstd::prelude::*;
#[allow(unused_imports)]
use vstd::string::*;
#[allow(unused_imports)]
use vstd::utf8::*;
#[allow(unused_imports)]
use crate::commons::{Loaded, Output, OutputView, Stored, TerminalContext, output_views};
#[allow(unused_imports)]
use crate::misc::{compact_outputs, compacted, debug, debug_text};
use crate::primitives;
#[allow(unused_imports)]
use crate::primitives::{AsResult, output_result};
use crate::ssh;
use crate::ssh::config::SshProfile;
#[allow(unused_imports)]
use crate::text::{cat, cat3, cat4, copies, replace, replaced, same, split, split_on, texts};
#[allow(unused_imports)]
use crate::text::{is_absent, joined, placeholder_is_replaced, split_then_join};

pub mod cluster;
pub mod host;
pub mod provider;

verus! {

//---------------------------------------------------------------------------------------- ERRORS
#[derive(Debug)]
pub enum Error {
    SshProfile(String),
    ReadingHost(String),
    WritingHost(String),
    AllocationFailed(String),
    HostResourceCrashed(String),
    AcquireNodeFailed(String),
    ConnectingNodes(String),
    SpawningThread(String),
    Channel(String),
    OperationFetch(String),
    Aborted,
    Shutdown,
    Ssh(ssh::Error),
    SshConfigParse(String),
}

impl Error {
    /// The characters of the text of the error.
    pub open spec fn text(&self) -> Seq<char> {
        match self {
            Error::SshProfile(s) => "An error occurred while reading the ssh config: \n"@ + s@,
            Error::ReadingHost(s) => "An error occurred while reading the host: \n"@ + s@,
            Error::WritingHost(s) => "An error occurred while writing the host: \n"@ + s@,
            Error::AllocationFailed(s) => "Failed to allocate: \n"@ + s@,
            Error::HostResourceCrashed(s) => "Host resource crash caused from error: \n"@ + s@,
            Error::AcquireNodeFailed(s) => "Node acquisition failed: \n"@ + s@,
            Error::ConnectingNodes(s) => "Failed to connect to nodes: \n"@ + s@,
            Error::Ssh(e) => "An ssh-related error occurred: \n"@ + e.text(),
            Error::SshConfigParse(s) => "A ssh config parsing-related error occurred: \n"@ + s@,
            Error::SpawningThread(s) => "Failed to spawn host: \n"@ + s@,
            Error::Channel(s) => "A channel related error occurred: \n "@ + s@,
            Error::OperationFetch(s) => "Failed to fetch an operation: \n"@ + s@,
            Error::Aborted => "Execution Aborted."@,
            Error::Shutdown => "Host Shutdown."@,
        }
    }

    /// The text of the error.
    pub fn message(&self) -> (res: String)
        ensures
            res@ == self.text(),
    {
        match self {
            Error::SshProfile(s) => cat(
                "An error occurred while reading the ssh config: \n",
                s.as_str(),
            ),
            Error::ReadingHost(s) => cat("An error occurred while reading the host: \n", s.as_str()),
            Error::WritingHost(s) => cat("An error occurred while writing the host: \n", s.as_str()),
            Error::AllocationFailed(s) => cat("Failed to allocate: \n", s.as_str()),
            Error::HostResourceCrashed(s) => cat(
                "Host resource crash caused from error: \n",
                s.as_str(),
            ),
            Error::AcquireNodeFailed(s) => cat("Node acquisition failed: \n", s.as_str()),
            Error::ConnectingNodes(s) => cat("Failed to connect to nodes: \n", s.as_str()),
            Error::Ssh(e) => cat("An ssh-related error occurred: \n", e.message().as_str()),
            Error::SshConfigParse(s) => cat(
                "A ssh config parsing-related error occurred: \n",
                s.as_str(),
            ),
            Error::SpawningThread(s) => cat("Failed to spawn host: \n", s.as_str()),
            Error::Channel(s) => cat("A channel related error occurred: \n ", s.as_str()),
            Error::OperationFetch(s) => cat("Failed to fetch an operation: \n", s.as_str()),
            Error::Aborted => "Execution Aborted.".to_owned(),
            Error::Shutdown => "Host Shutdown.".to_owned(),
        }
    }

    /// How the error is shown: the variant, and what it holds.
    pub open spec fn shown(&self) -> Seq<char> {
        match self {
            Error::SshProfile(s) => "SshProfile("@ + debug_text(s@) + ")"@,
            Error::ReadingHost(s) => "ReadingHost("@ + debug_text(s@) + ")"@,
            Error::WritingHost(s) => "WritingHost("@ + debug_text(s@) + ")"@,
            Error::AllocationFailed(s) => "AllocationFailed("@ + debug_text(s@) + ")"@,
            Error::HostResourceCrashed(s) => "HostResourceCrashed("@ + debug_text(s@) + ")"@,
            Error::AcquireNodeFailed(s) => "AcquireNodeFailed("@ + debug_text(s@) + ")"@,
            Error::ConnectingNodes(s) => "ConnectingNodes("@ + debug_text(s@) + ")"@,
            Error::SpawningThread(s) => "SpawningThread("@ + debug_text(s@) + ")"@,
            Error::Channel(s) => "Channel("@ + debug_text(s@) + ")"@,
            Error::OperationFetch(s) => "OperationFetch("@ + debug_text(s@) + ")"@,
            Error::Aborted => "Aborted"@,
            Error::Shutdown => "Shutdown"@,
            Error::Ssh(e) => "Ssh("@ + e.shown() + ")"@,
            Error::SshConfigParse(s) => "SshConfigParse("@ + debug_text(s@) + ")"@,
        }
    }

    /// Shows the error.
    pub fn show(&self) -> (res: String)
        ensures
            res@ == self.shown(),
    {
        match self {
            Error::SshProfile(s) => cat3("SshProfile(", debug(s.as_str()).as_str(), ")"),
            Error::ReadingHost(s) => cat3("ReadingHost(", debug(s.as_str()).as_str(), ")"),
            Error::WritingHost(s) => cat3("WritingHost(", debug(s.as_str()).as_str(), ")"),
            Error::AllocationFailed(s) => cat3("AllocationFailed(", debug(s.as_str()).as_str(), ")"),
            Error::HostResourceCrashed(s) => cat3("HostResourceCrashed(", debug(s.as_str()).as_str(), ")"),
            Error::AcquireNodeFailed(s) => cat3("AcquireNodeFailed(", debug(s.as_str()).as_str(), ")"),
            Error::ConnectingNodes(s) => cat3("ConnectingNodes(", debug(s.as_str()).as_str(), ")"),
            Error::SpawningThread(s) => cat3("SpawningThread(", debug(s.as_str()).as_str(), ")"),
            Error::Channel(s) => cat3("Channel(", debug(s.as_str()).as_str(), ")"),
            Error::OperationFetch(s) => cat3("OperationFetch(", debug(s.as_str()).as_str(), ")"),
            Error::Aborted => "Aborted".to_owned(),
            Error::Shutdown => "Shutdown".to_owned(),
            Error::Ssh(e) => cat3("Ssh(", e.show().as_str(), ")"),
            Error::SshConfigParse(s) => cat3("SshConfigParse(", debug(s.as_str()).as_str(), ")"),
        }
    }

    /// The error as that of an operation, which holds its text.
    pub fn to_operation(&self) -> (res: primitives::Error)
        ensures
            res is Operation,
            res->Operation_0@ == self.text(),
    {
        primitives::Error::Operation(self.message())
    }
}

impl From<ssh::Error> for Error {
    fn from(err: ssh::Error) -> (res: Error) {
        Error::Ssh(err)
    }
}

impl vstd::std_specs::convert::FromSpecImpl<ssh::Error> for Error {
    open spec fn obeys_from_spec() -> bool {
        true
    }

    open spec fn from_spec(err: ssh::Error) -> Error {
        Error::Ssh(err)
    }
}

impl Clone for Error {
    fn clone(&self) -> (res: Error)
        ensures
            res == *self,
    {
        match self {
            Error::SshProfile(s) => Error::SshProfile(s.clone()),
            Error::ReadingHost(s) => Error::ReadingHost(s.clone()),
            Error::WritingHost(s) => Error::WritingHost(s.clone()),
            Error::AllocationFailed(s) => Error::AllocationFailed(s.clone()),
            Error::HostResourceCrashed(s) => Error::HostResourceCrashed(s.clone()),
            Error::AcquireNodeFailed(s) => Error::AcquireNodeFailed(s.clone()),
            Error::ConnectingNodes(s) => Error::ConnectingNodes(s.clone()),
            Error::Ssh(e) => Error::Ssh(e.clone()),
            Error::SshConfigParse(s) => Error::SshConfigParse(s.clone()),
            Error::SpawningThread(s) => Error::SpawningThread(s.clone()),
            Error::Channel(s) => Error::Channel(s.clone()),
            Error::OperationFetch(s) => Error::OperationFetch(s.clone()),
            Error::Aborted => Error::Aborted,
            Error::Shutdown => Error::Shutdown,
        }
    }
}

/// Whether an error says that an allocation failed, with the given explanation.
pub open spec fn is_failed_allocation(error: Error, text: Seq<char>) -> bool {
    error is AllocationFailed && error->AllocationFailed_0@ == text
}

//--------------------------------------------------------------------------------- CONFIGURATION
/// A host configuration represents the implementation of the (imaginary) orchestra host interface
/// for a given host. The fields have the following meaning:
/// + name: The name of the configuration
/// + ssh_configuration: The name of the ssh config used
/// + node_proxycommand: The proxycommand used to access the nodes
/// + start_allocation: Commands to start an allocation
/// + cancel_allocation: Commands to cancel _this_ allocation
/// + allocation_duration: Number of minutes after which nodes will no longer be issued
/// + get_node_handles: Commands to get the handles of a node
/// + directory: The directory where to put the executions
/// + execution: Commands to execute the script
#[derive(Debug)]
pub struct HostConf {
    pub name: String,
    pub ssh_configuration: String,
    pub node_proxycommand: String,
    pub start_allocation: Vec<String>,
    pub cancel_allocation: Vec<String>,
    pub allocation_duration: usize,
    pub get_node_handles: Vec<String>,
    pub directory: String,
    pub execution: Vec<String>,
}

impl Clone for HostConf {
    fn clone(&self) -> (res: HostConf)
        ensures
            res.name == self.name,
            res.ssh_configuration == self.ssh_configuration,
            res.node_proxycommand == self.node_proxycommand,
            res.start_allocation@ == self.start_allocation@,
            res.cancel_allocation@ == self.cancel_allocation@,
            res.allocation_duration == self.allocation_duration,
            res.get_node_handles@ == self.get_node_handles@,
            res.directory == self.directory,
            res.execution@ == self.execution@,
    {
        HostConf {
            name: self.name.clone(),
            ssh_configuration: self.ssh_configuration.clone(),
            node_proxycommand: self.node_proxycommand.clone(),
            start_allocation: copies(&self.start_allocation),
            cancel_allocation: copies(&self.cancel_allocation),
            allocation_duration: self.allocation_duration,
            get_node_handles: copies(&self.get_node_handles),
            directory: self.directory.clone(),
            execution: copies(&self.execution),
        }
    }
}

impl HostConf {
    /// The configuration that was read from a file, or what is said of a failure.
    pub fn from_file(host_path: &str, read: Loaded<HostConf>) -> (res: Result<HostConf, Error>)
        ensures
            match read {
                Loaded::Value(conf) => res == Ok::<HostConf, Error>(conf),
                Loaded::Unopened => {
                    &&& res is Err
                    &&& res->Err_0 is ReadingHost
                    &&& res->Err_0->ReadingHost_0@ == "Failed to open host configuration file "@
                        + host_path@
                },
                Loaded::Unparsed(reason) => {
                    &&& res is Err
                    &&& res->Err_0 is ReadingHost
                    &&& res->Err_0->ReadingHost_0@ == "Failed to parse host configuration file "@
                        + host_path@ + ": \n"@ + reason@
                },
            },
    {
        match read {
            Loaded::Value(conf) => Ok(conf),
            Loaded::Unopened => Err(
                Error::ReadingHost(cat("Failed to open host configuration file ", host_path)),
            ),
            Loaded::Unparsed(reason) => Err(
                Error::ReadingHost(
                    cat4(
                        "Failed to parse host configuration file ",
                        host_path,
                        ": \n",
                        reason.as_str(),
                    ),
                ),
            ),
        }
    }

    /// What writing the configuration to a file gives.
    pub fn to_file(&self, conf_path: &str, written: Stored) -> (res: Result<(), Error>)
        ensures
            match written {
                Stored::Done => res == Ok::<(), Error>(()),
                Stored::Unopened => {
                    &&& res is Err
                    &&& res->Err_0 is WritingHost
                    &&& res->Err_0->WritingHost_0@ == "Failed to open host configuration file "@
                        + conf_path@
                },
                Stored::Unwritten => {
                    &&& res is Err
                    &&& res->Err_0 is WritingHost
                    &&& res->Err_0->WritingHost_0@ == "Failed to write host configuration file "@
                        + conf_path@
                },
            },
    {
        match written {
            Stored::Done => Ok(()),
            Stored::Unopened => Err(
                Error::WritingHost(cat("Failed to open host configuration file ", conf_path)),
            ),
            Stored::Unwritten => Err(
                Error::WritingHost(cat("Failed to write host configuration file ", conf_path)),
            ),
        }
    }

    /// The directory that contains the executions.
    pub fn get_host_directory(&self) -> (res: String)
        ensures
            res@ == self.directory@,
    {
        self.directory.clone()
    }

    /// The name of the host.
    pub fn get_name(&self) -> (res: String)
        ensures
            res@ == self.name@,
    {
        self.name.clone()
    }

    /// The execution commands.
    pub fn get_execution_procedure(&self) -> (res: Vec<String>)
        ensures
            res@ == self.execution@,
    {
        copies(&self.execution)
    }
}

/// What should be kept on the host once the execution is done.
#[derive(Clone, Copy, Debug, PartialEq, Eq, Structural)]
pub enum LeaveConfig {
    Nothing,
    Code,
    Everything,
}

impl LeaveConfig {
    /// The word for the configuration.
    pub open spec fn word(self) -> Seq<char> {
        match self {
            LeaveConfig::Nothing => "nothing"@,
            LeaveConfig::Code => "code"@,
            LeaveConfig::Everything => "everything"@,
        }
    }

    /// Whether a word stands for a configuration.
    pub open spec fn is_word(word: Seq<char>) -> bool {
        word == "nothing"@ || word == "code"@ || word == "everything"@
    }

    /// Tells whether a word stands for a configuration.
    pub fn is_known(word: &str) -> (res: bool)
        ensures
            res == LeaveConfig::is_word(word@),
    {
        same(word, "nothing") || same(word, "code") || same(word, "everything")
    }

    /// The configuration that a word stands for.
    pub fn from_word(word: &str) -> (res: LeaveConfig)
        requires
            LeaveConfig::is_word(word@),
        ensures
            res.word() == word@,
    {
        if same(word, "nothing") {
            LeaveConfig::Nothing
        } else if same(word, "code") {
            LeaveConfig::Code
        } else {
            LeaveConfig::Everything
        }
    }

    /// The word for the configuration.
    pub fn to_word(&self) -> (res: String)
        ensures
            res@ == self.word(),
    {
        match self {
            LeaveConfig::Nothing => "nothing".to_owned(),
            LeaveConfig::Code => "code".to_owned(),
            LeaveConfig::Everything => "everything".to_owned(),
        }
    }
}

/// Each configuration has a word of its own: writing the word and reading it back gives the
/// configuration.
pub proof fn leave_config_words(a: LeaveConfig, b: LeaveConfig)
    ensures
        LeaveConfig::is_word(a.word()),
        a.word() == b.word() ==> a == b,
{
    reveal_strlit("nothing");
    reveal_strlit("code");
    reveal_strlit("everything");
    assert("nothing"@.len() == 7 && "code"@.len() == 4 && "everything"@.len() == 10);
}

//------------------------------------------------------------------------------------ PROCEDURES
/// What a procedure, that is a list of commands, gave: the context that it left and the outputs of
/// its commands, or the reason why it could not be run.
pub type Ran = Result<(TerminalContext, Vec<Output>), String>;

/// The outputs of a procedure, in one.
pub open spec fn ran_output(ran: Ran) -> OutputView {
    compacted(output_views(ran->Ok_0.1@))
}

/// Whether what came of a procedure can be made sense of: it left no variable twice, it ran no
/// more commands than it has, and what it wrote is text.
pub open spec fn is_sound(ran: Ran, commands: nat) -> bool {
    ran is Ok ==> {
        &&& ran->Ok_0.0.wf()
        &&& ran->Ok_0.1.len() <= commands
        &&& valid_utf8(ran_output(ran).stdout)
        &&& valid_utf8(ran_output(ran).stderr)
    }
}

/// The result of the commands of a procedure: that of their outputs in one.
fn procedure_result(outputs: Vec<Output>) -> (res: Result<(), String>)
    requires
        valid_utf8(compacted(output_views(outputs@)).stdout),
        valid_utf8(compacted(output_views(outputs@)).stderr),
    ensures
        match output_result(compacted(output_views(outputs@))) {
            Ok(_) => res is Ok,
            Err(text) => res is Err && res->Err_0@ == text,
        },
{
    let output = compact_outputs(outputs);
    match output.result() {
        Ok(_) => Ok(()),
        Err(text) => Err(text),
    }
}

/// What comes of allocating nodes on the host: the context that the procedure left.
pub fn allocate_nodes(commands: &Vec<String>, ran: Ran) -> (res: Result<TerminalContext, Error>)
    requires
        is_sound(ran, commands.len() as nat),
    ensures
        match ran {
            Err(reason) => res is Err && is_failed_allocation(
                res->Err_0,
                "Failed to allocate: "@ + reason@,
            ),
            Ok((context, outputs)) => match output_result(ran_output(ran)) {
                Ok(_) => res == Ok::<TerminalContext, Error>(context),
                Err(text) => res is Err && is_failed_allocation(
                    res->Err_0,
                    "Failed to allocate on command "@ + debug_text(
                        commands@[outputs.len() - 1]@,
                    ) + ": "@ + text,
                ),
            },
        },
{
    match ran {
        Err(reason) => Err(Error::AllocationFailed(cat("Failed to allocate: ", reason.as_str()))),
        Ok((context, outputs)) => {
            let count: usize = outputs.len();
            assert(count == 0 ==> output_views(outputs@).len() == 0);
            match procedure_result(outputs) {
                Ok(_) => Ok(context),
                Err(text) => {
                    let command = debug(commands[count - 1].as_str());
                    Err(
                        Error::AllocationFailed(
                            cat4(
                                "Failed to allocate on command ",
                                command.as_str(),
                                ": ",
                                text.as_str(),
                            ),
                        ),
                    )
                },
            }
        },
    }
}

/// The words of a variable, which are separated by spaces, or what is said where it is not set.
fn extract_words(context: &TerminalContext, key: &str, unset: &str) -> (res: Result<
    Vec<String>,
    Error,
>)
    requires
        context.wf(),
    ensures
        if context.envs@.contains_key(key@) {
            &&& res is Ok
            &&& texts(res->Ok_0@) == split_on(context.envs@[key@], ' ')
            &&& res->Ok_0.len() >= 1
        } else {
            res is Err && is_failed_allocation(res->Err_0, unset@)
        },
{
    match context.envs.get(key) {
        Some(value) => Ok(split(value.as_str(), ' ')),
        None => Err(Error::AllocationFailed(unset.to_owned())),
    }
}

/// Extracts the node ids from the context that an allocation left.
pub fn extract_nodes(context: &TerminalContext) -> (res: Result<Vec<String>, Error>)
    requires
        context.wf(),
    ensures
        if context.envs@.contains_key("RUNAWAY_NODES"@) {
            &&& res is Ok
            &&& texts(res->Ok_0@) == split_on(context.envs@["RUNAWAY_NODES"@], ' ')
            &&& res->Ok_0.len() >= 1
        } else {
            res is Err && is_failed_allocation(res->Err_0, "RUNAWAY_NODES was not set."@)
        },
{
    extract_words(context, "RUNAWAY_NODES", "RUNAWAY_NODES was not set.")
}

/// Extracts the handle ids from the context that a query of handles left.
pub fn extract_handles(context: &TerminalContext) -> (res: Result<Vec<String>, Error>)
    requires
        context.wf(),
    ensures
        if context.envs@.contains_key("RUNAWAY_HANDLES"@) {
            &&& res is Ok
            &&& texts(res->Ok_0@) == split_on(context.envs@["RUNAWAY_HANDLES"@], ' ')
            &&& res->Ok_0.len() >= 1
        } else {
            res is Err && is_failed_allocation(res->Err_0, "RUNAWAY_HANDLES was not set."@)
        },
{
    extract_words(context, "RUNAWAY_HANDLES", "RUNAWAY_HANDLES was not set.")
}

/// A context that differs from `from` in one variable.
pub open spec fn is_context_with(
    context: TerminalContext,
    from: TerminalContext,
    key: Seq<char>,
    value: Seq<char>,
) -> bool {
    &&& context.wf()
    &&& context.cwd@ == from.cwd@
    &&& context.envs@ == from.envs@.insert(key, value)
}

/// Turns a frontend context to a node context.
pub fn front_to_node_context(node: &str, context: &TerminalContext) -> (res: TerminalContext)
    requires
        context.wf(),
    ensures
        is_context_with(res, *context, "RUNAWAY_NODE_ID"@, node@),
{
    let mut res = context.clone();
    res.envs.insert("RUNAWAY_NODE_ID".to_owned(), node.to_owned());
    res
}

/// Turns a node context to a handle context.
pub fn node_to_handle_context(handle: &str, context: &TerminalContext) -> (res: TerminalContext)
    requires
        context.wf(),
    ensures
        is_context_with(res, *context, "RUNAWAY_HANDLE_ID"@, handle@),
{
    let mut res = context.clone();
    res.envs.insert("RUNAWAY_HANDLE_ID".to_owned(), handle.to_owned());
    res
}

/// Whether a profile reaches the node: through the proxy command with the id of the node in it,
/// under a host name made of the two names, and without a port.
pub open spec fn is_node_profile(
    res: SshProfile,
    node: Seq<char>,
    frontend: SshProfile,
    proxycommand: Seq<char>,
) -> bool {
    &&& res.name == frontend.name
    &&& res.user == frontend.user
    &&& res.hostname is Some
    &&& res.hostname->Some_0@ == frontend.name@ + "::"@ + node
    &&& res.port is None
    &&& res.proxycommand is Some
    &&& res.proxycommand->Some_0@ == replaced(proxycommand, "$RUNAWAY_NODE_ID"@, node)
}

/// The profile that reaches a node.
pub fn node_profile(node: &str, frontend: &SshProfile, proxycommand: &str) -> (res: SshProfile)
    ensures
        is_node_profile(res, node@, *frontend, proxycommand@),
{
    let mut profile = frontend.clone();
    profile.proxycommand = Some(replace(proxycommand, "$RUNAWAY_NODE_ID", node));
    profile.hostname = Some(cat3(frontend.name.as_str(), "::", node));
    profile.port = None;
    profile
}

/// A handle to a node: the connection to the node, by its number, and the context of the handle.
#[derive(Debug)]
pub struct NodeHandle {
    pub node: u64,
    pub context: TerminalContext,
}

/// Whether the handles are those of a node: one for each id, in order.
pub open spec fn are_node_handles(
    handles: Seq<NodeHandle>,
    node: u64,
    ids: Seq<Seq<char>>,
    context: TerminalContext,
) -> bool {
    &&& handles.len() == ids.len()
    &&& forall|i: int|
        0 <= i < handles.len() ==> (#[trigger] handles[i]).node == node && is_context_with(
            handles[i].context,
            context,
            "RUNAWAY_HANDLE_ID"@,
            ids[i],
        )
}

/// What comes of a query of the handles of a node.
pub open spec fn spawned_handles(ran: Ran, node: u64, res: Result<Vec<NodeHandle>, Error>) -> bool {
    match ran {
        Err(reason) => res is Err && is_failed_allocation(
            res->Err_0,
            "Failed to get handles: "@ + reason@,
        ),
        Ok((context, _)) => match output_result(ran_output(ran)) {
            Err(text) => res is Err && is_failed_allocation(
                res->Err_0,
                "Handles query command failed: "@ + text,
            ),
            Ok(_) => if context.envs@.contains_key("RUNAWAY_HANDLES"@) {
                &&& res is Ok
                &&& are_node_handles(
                    res->Ok_0@,
                    node,
                    split_on(context.envs@["RUNAWAY_HANDLES"@], ' '),
                    context,
                )
            } else {
                res is Err && is_failed_allocation(res->Err_0, "RUNAWAY_HANDLES was not set."@)
            },
        },
    }
}

/// The handles of a node, out of what the query of the handles gave.
pub fn spawn_handles(ran: Ran, node: u64) -> (res: Result<Vec<NodeHandle>, Error>)
    requires
        ran is Ok ==> ran->Ok_0.0.wf() && valid_utf8(ran_output(ran).stdout) && valid_utf8(
            ran_output(ran).stderr,
        ),
    ensures
        spawned_handles(ran, node, res),
{
    match ran {
        Err(reason) => Err(
            Error::AllocationFailed(cat("Failed to get handles: ", reason.as_str())),
        ),
        Ok((context, outputs)) => match procedure_result(outputs) {
            Err(text) => Err(
                Error::AllocationFailed(cat("Handles query command failed: ", text.as_str())),
            ),
            Ok(_) => match extract_handles(&context) {
                Err(e) => Err(e),
                Ok(ids) => {
                    let mut handles: Vec<NodeHandle> = Vec::new();
                    let mut i: usize = 0;
                    while i < ids.len()
                        invariant
                            i <= ids.len(),
                            context.wf(),
                            handles.len() == i,
                            forall|j: int|
                                0 <= j < i ==> (#[trigger] handles@[j]).node == node
                                    && is_context_with(
                                    handles@[j].context,
                                    context,
                                    "RUNAWAY_HANDLE_ID"@,
                                    ids@[j]@,
                                ),
                        decreases ids.len() - i,
                    {
                        let own = node_to_handle_context(ids[i].as_str(), &context);
                        handles.push(NodeHandle { node, context: own });
                        i = i + 1;
                    }
                    let ghost words = split_on(context.envs@["RUNAWAY_HANDLES"@], ' ');
                    assert(forall|j: int| 0 <= j < ids.len() ==> ids@[j]@ == #[trigger] words[j]);
                    Ok(handles)
                },
            },
        },
    }
}

/// What comes of cancelling the allocation on the host: the context that the procedure left.
pub fn cancel_allocation(ran: Ran) -> (res: Result<TerminalContext, Error>)
    requires
        ran is Ok ==> valid_utf8(ran_output(ran).stdout) && valid_utf8(ran_output(ran).stderr),
    ensures
        match ran {
            Err(reason) => res is Err && is_failed_allocation(
                res->Err_0,
                "Failed to cancel allocation: "@ + reason@,
            ),
            Ok((context, _)) => match output_result(ran_output(ran)) {
                Ok(_) => res == Ok::<TerminalContext, Error>(context),
                Err(text) => res is Err && is_failed_allocation(
                    res->Err_0,
                    "Cancel allocation command failed: "@ + text,
                ),
            },
        },
{
    match ran {
        Err(reason) => Err(
            Error::AllocationFailed(cat("Failed to cancel allocation: ", reason.as_str())),
        ),
        Ok((context, outputs)) => match procedure_result(outputs) {
            Ok(_) => Ok(context),
            Err(text) => Err(
                Error::AllocationFailed(cat("Cancel allocation command failed: ", text.as_str())),
            ),
        },
    }
}

//------------------------------------------------------------------------------------------ LAWS
/// The profile that a node is reached with has the name and the user of the frontend profile, whatever
/// the node and the proxy command are, and is named after the frontend and the node. Where the proxy
/// command holds `$RUNAWAY_NODE_ID` once, the profile holds it with the id of the node in that place.
pub proof fn node_profile_keeps_the_user(
    node: &str,
    frontend: &SshProfile,
    proxycommand: &str,
    a: Seq<char>,
    b: Seq<char>,
    res: SshProfile,
)
    requires
        call_ensures(node_profile, (node, frontend, proxycommand), res),
    ensures
        res.user == frontend.user,
        res.name == frontend.name,
        res.hostname is Some,
        res.hostname->Some_0@ == frontend.name@ + "::"@ + node@,
        res.port is None,
        res.proxycommand is Some,
        is_absent(a, "$RUNAWAY_NODE_ID"@) && is_absent(b, "$RUNAWAY_NODE_ID"@) && proxycommand@ == a
            + "$RUNAWAY_NODE_ID"@ + b ==> res.proxycommand->Some_0@ == a + node@ + b,
        is_absent(proxycommand@, "$RUNAWAY_NODE_ID"@) ==> res.proxycommand->Some_0@
            == proxycommand@,
{
    reveal_strlit("$RUNAWAY_NODE_ID");
    if is_absent(a, "$RUNAWAY_NODE_ID"@) && is_absent(b, "$RUNAWAY_NODE_ID"@) {
        placeholder_is_replaced(a, "$RUNAWAY_NODE_ID"@, b, node@);
    }
    if is_absent(proxycommand@, "$RUNAWAY_NODE_ID"@) {
        placeholder_is_replaced(proxycommand@, "$RUNAWAY_NODE_ID"@, Seq::empty(), node@);
    }
}

/// Different nodes of a host are reached under different host names.
pub proof fn different_nodes_have_different_names(
    node: &str,
    other: &str,
    frontend: &SshProfile,
    proxycommand: &str,
    res: SshProfile,
    res_other: SshProfile,
)
    requires
        call_ensures(node_profile, (node, frontend, proxycommand), res),
        call_ensures(node_profile, (other, frontend, proxycommand), res_other),
        node@ != other@,
    ensures
        res.hostname->Some_0@ != res_other.hostname->Some_0@,
{
    let start = frontend.name@ + "::"@;
    let n = start.len() as int;
    assert((start + node@).skip(n) =~= node@);
    assert((start + other@).skip(n) =~= other@);
}

/// An allocation succeeds if and only if its procedure could be run and its outputs, taken as one, say
/// success; it then gives the context that the procedure left.
pub proof fn allocation_follows_its_procedure(
    commands: &Vec<String>,
    ran: Ran,
    allocated: Result<TerminalContext, Error>,
    cancelled: Result<TerminalContext, Error>,
)
    requires
        call_ensures(allocate_nodes, (commands, ran), allocated),
        call_ensures(cancel_allocation, (ran,), cancelled),
    ensures
        allocated is Ok <==> ran is Ok && compacted(output_views(ran->Ok_0.1@)).status == 0,
        cancelled is Ok <==> ran is Ok && compacted(output_views(ran->Ok_0.1@)).status == 0,
        allocated is Ok ==> allocated->Ok_0 == ran->Ok_0.0,
        cancelled is Ok ==> cancelled->Ok_0 == ran->Ok_0.0,
        ran is Err ==> allocated->Err_0.text() == "Failed to allocate: \n"@ + (
        "Failed to allocate: "@ + ran->Err_0@),
        ran is Err ==> cancelled->Err_0.text() == "Failed to allocate: \n"@ + (
        "Failed to cancel allocation: "@ + ran->Err_0@),
{
}

/// The nodes and the handles are the words of the variables that the procedures set, in their order.
pub proof fn nodes_and_handles_are_words(
    context: &TerminalContext,
    nodes: Result<Vec<String>, Error>,
    handles: Result<Vec<String>, Error>,
)
    requires
        call_ensures(extract_nodes, (context,), nodes),
        call_ensures(extract_handles, (context,), handles),
    ensures
        nodes is Ok <==> context.envs@.contains_key("RUNAWAY_NODES"@),
        handles is Ok <==> context.envs@.contains_key("RUNAWAY_HANDLES"@),
        nodes is Ok ==> joined(texts(nodes->Ok_0@), seq![' ']) == context.envs@["RUNAWAY_NODES"@]
            && forall|i: int|
            0 <= i < nodes->Ok_0.len() ==> !(#[trigger] texts(nodes->Ok_0@)[i]).contains(' '),
        handles is Ok ==> joined(texts(handles->Ok_0@), seq![' '])
            == context.envs@["RUNAWAY_HANDLES"@] && forall|i: int|
            0 <= i < handles->Ok_0.len() ==> !(#[trigger] texts(handles->Ok_0@)[i]).contains(' '),
{
    if nodes is Ok {
        split_then_join(context.envs@["RUNAWAY_NODES"@], ' ');
    }
    if handles is Ok {
        split_then_join(context.envs@["RUNAWAY_HANDLES"@], ' ');
    }
}

/// The context of a node has the id of the node in it, and that of a handle the id of the handle; the
/// directory and the other variables are those of the context that it was made of.
pub proof fn contexts_name_node_and_handle(
    id: &str,
    context: &TerminalContext,
    key: Seq<char>,
    node: TerminalContext,
    handle: TerminalContext,
)
    requires
        call_ensures(front_to_node_context, (id, context), node),
        call_ensures(node_to_handle_context, (id, context), handle),
    ensures
        node.cwd@ == context.cwd@ && handle.cwd@ == context.cwd@,
        node.envs@.contains_key("RUNAWAY_NODE_ID"@) && node.envs@["RUNAWAY_NODE_ID"@] == id@,
        handle.envs@.contains_key("RUNAWAY_HANDLE_ID"@) && handle.envs@["RUNAWAY_HANDLE_ID"@]
            == id@,
        key != "RUNAWAY_NODE_ID"@ ==> (node.envs@.contains_key(key) <==> context.envs@.contains_key(
            key,
        )) && node.envs@[key] == context.envs@[key],
        key != "RUNAWAY_HANDLE_ID"@ ==> (handle.envs@.contains_key(key)
            <==> context.envs@.contains_key(key)) && handle.envs@[key] == context.envs@[key],
{
}

/// A node has a handle for each of the words of `RUNAWAY_HANDLES`, in their order: each goes to the
/// node, and its context is that of the query with the id of the handle in it.
pub proof fn node_has_a_handle_for_each_word(
    ran: Ran,
    node: u64,
    i: int,
    res: Result<Vec<NodeHandle>, Error>,
)
    requires
        call_ensures(spawn_handles, (ran, node), res),
        res is Ok,
    ensures
        ran is Ok,
        compacted(output_views(ran->Ok_0.1@)).status == 0,
        ran->Ok_0.0.envs@.contains_key("RUNAWAY_HANDLES"@),
        res->Ok_0.len() == split_on(ran->Ok_0.0.envs@["RUNAWAY_HANDLES"@], ' ').len(),
        0 <= i < res->Ok_0.len() ==> {
            &&& res->Ok_0@[i].node == node
            &&& res->Ok_0@[i].context.cwd@ == ran->Ok_0.0.cwd@
            &&& res->Ok_0@[i].context.envs@ == ran->Ok_0.0.envs@.insert(
                "RUNAWAY_HANDLE_ID"@,
                split_on(ran->Ok_0.0.envs@["RUNAWAY_HANDLES"@], ' ')[i],
            )
        },
{
}

/// The handles of a node are there if the query could be run, succeeded and set `RUNAWAY_HANDLES`.
pub proof fn handles_are_owed(ran: Ran, node: u64, res: Result<Vec<NodeHandle>, Error>)
    requires
        call_ensures(spawn_handles, (ran, node), res),
        ran is Ok,
        compacted(output_views(ran->Ok_0.1@)).status == 0,
        ran->Ok_0.0.envs@.contains_key("RUNAWAY_HANDLES"@),
    ensures
        res is Ok,
{
}

/// A configuration of what is left is written as one word and read back from it.
pub proof fn leave_config_is_read_back(
    leave: LeaveConfig,
    text: String,
    word: &str,
    known: bool,
    res: LeaveConfig,
)
    requires
        call_ensures(LeaveConfig::to_word, (&leave,), text),
        call_ensures(LeaveConfig::is_known, (word,), known),
        call_ensures(LeaveConfig::from_word, (word,), res),
    ensures
        leave is Nothing ==> text@ == "nothing"@,
        leave is Code ==> text@ == "code"@,
        leave is Everything ==> text@ == "everything"@,
        word@ == text@ ==> known && res == leave,
        known <==> word@ == "nothing"@ || word@ == "code"@ || word@ == "everything"@,
{
    leave_config_words(leave, res);
}

/// A host configuration is read as it stands in the file, and says what it is asked for.
pub proof fn host_configuration_is_as_read(
    path: &str,
    conf: HostConf,
    read: Result<HostConf, Error>,
    name: String,
    directory: String,
    execution: Vec<String>,
)
    requires
        call_ensures(HostConf::from_file, (path, Loaded::Value(conf)), read),
        call_ensures(HostConf::get_name, (&conf,), name),
        call_ensures(HostConf::get_host_directory, (&conf,), directory),
        call_ensures(HostConf::get_execution_procedure, (&conf,), execution),
    ensures
        read == Ok::<HostConf, Error>(conf),
        name@ == conf.name@,
        directory@ == conf.directory@,
        execution@ == conf.execution@,
{
}

/// What an error says: what failed, and the reason that it holds.
pub proof fn errors_say_what_failed(error: Error, said: String, shown: String)
    requires
        call_ensures(Error::message, (&error,), said),
        call_ensures(Error::show, (&error,), shown),
    ensures
        error is SshProfile ==> said@ == "An error occurred while reading the ssh config: \n"@ + error->SshProfile_0@,
        error is ReadingHost ==> said@ == "An error occurred while reading the host: \n"@ + error->ReadingHost_0@,
        error is WritingHost ==> said@ == "An error occurred while writing the host: \n"@ + error->WritingHost_0@,
        error is AllocationFailed ==> said@ == "Failed to allocate: \n"@ + error->AllocationFailed_0@,
        error is HostResourceCrashed ==> said@ == "Host resource crash caused from error: \n"@ + error->HostResourceCrashed_0@,
        error is AcquireNodeFailed ==> said@ == "Node acquisition failed: \n"@ + error->AcquireNodeFailed_0@,
        error is ConnectingNodes ==> said@ == "Failed to connect to nodes: \n"@ + error->ConnectingNodes_0@,
        error is Ssh ==> said@ == "An ssh-related error occurred: \n"@ + error->Ssh_0.text(),
        error is SshConfigParse ==> said@ == "A ssh config parsing-related error occurred: \n"@ + error->SshConfigParse_0@,
        error is SpawningThread ==> said@ == "Failed to spawn host: \n"@ + error->SpawningThread_0@,
        error is Channel ==> said@ == "A channel related error occurred: \n "@ + error->Channel_0@,
        error is OperationFetch ==> said@ == "Failed to fetch an operation: \n"@ + error->OperationFetch_0@,
        error is Aborted ==> said@ == "Execution Aborted."@,
        error is Shutdown ==> said@ == "Host Shutdown."@,
        error is SshProfile ==> shown@ == "SshProfile("@ + debug_text(error->SshProfile_0@) + ")"@,
        error is ReadingHost ==> shown@ == "ReadingHost("@ + debug_text(error->ReadingHost_0@) + ")"@,
        error is WritingHost ==> shown@ == "WritingHost("@ + debug_text(error->WritingHost_0@) + ")"@,
        error is AllocationFailed ==> shown@ == "AllocationFailed("@ + debug_text(error->AllocationFailed_0@) + ")"@,
        error is HostResourceCrashed ==> shown@ == "HostResourceCrashed("@ + debug_text(error->HostResourceCrashed_0@) + ")"@,
        error is AcquireNodeFailed ==> shown@ == "AcquireNodeFailed("@ + debug_text(error->AcquireNodeFailed_0@) + ")"@,
        error is ConnectingNodes ==> shown@ == "ConnectingNodes("@ + debug_text(error->ConnectingNodes_0@) + ")"@,
        error is SpawningThread ==> shown@ == "SpawningThread("@ + debug_text(error->SpawningThread_0@) + ")"@,
        error is Channel ==> shown@ == "Channel("@ + debug_text(error->Channel_0@) + ")"@,
        error is OperationFetch ==> shown@ == "OperationFetch("@ + debug_text(error->OperationFetch_0@) + ")"@,
        error is Aborted ==> shown@ == "Aborted"@,
        error is Shutdown ==> shown@ == "Shutdown"@,
        error is Ssh ==> shown@ == "Ssh("@ + error->Ssh_0.shown() + ")"@,
        error is SshConfigParse ==> shown@ == "SshConfigParse("@ + debug_text(error->SshConfigParse_0@) + ")"@,
{
}

/// A host configuration that could not be read or written is an error that names the file.
pub proof fn lost_configurations_are_told(
    conf: HostConf,
    path: &str,
    reason: String,
    unopened: Result<HostConf, Error>,
    unparsed: Result<HostConf, Error>,
    written: Stored,
    stored: Result<(), Error>,
)
    requires
        call_ensures(HostConf::from_file, (path, Loaded::<HostConf>::Unopened), unopened),
        call_ensures(HostConf::from_file, (path, Loaded::<HostConf>::Unparsed(reason)), unparsed),
        call_ensures(HostConf::to_file, (&conf, path, written), stored),
    ensures
        unopened is Err && unopened->Err_0.text() == "An error occurred while reading the host: \n"@
            + ("Failed to open host configuration file "@ + path@),
        unparsed is Err && unparsed->Err_0.text() == "An error occurred while reading the host: \n"@
            + ("Failed to parse host configuration file "@ + path@ + ": \n"@ + reason@),
        stored is Ok <==> written is Done,
        written is Unopened ==> stored->Err_0.text()
            == "An error occurred while writing the host: \n"@ + (
        "Failed to open host configuration file "@ + path@),
        written is Unwritten ==> stored->Err_0.text()
            == "An error occurred while writing the host: \n"@ + (
        "Failed to write host configuration file "@ + path@),
{
}

/// What fails in a procedure is told: the command that failed and its output, or the reason why the
/// procedure could not be run.
pub proof fn failed_procedures_are_told(
    commands: &Vec<String>,
    ran: Ran,
    node: u64,
    failure: Seq<char>,
    context: &TerminalContext,
    allocated: Result<TerminalContext, Error>,
    cancelled: Result<TerminalContext, Error>,
    handles: Result<Vec<NodeHandle>, Error>,
    nodes: Result<Vec<String>, Error>,
)
    requires
        call_ensures(allocate_nodes, (commands, ran), allocated),
        call_ensures(cancel_allocation, (ran,), cancelled),
        call_ensures(spawn_handles, (ran, node), handles),
        call_ensures(extract_nodes, (context,), nodes),
        ran is Ok ==> output_result(compacted(output_views(ran->Ok_0.1@))) == Err::<
            Seq<char>,
            Seq<char>,
        >(failure),
        !context.envs@.contains_key("RUNAWAY_NODES"@),
    ensures
        allocated is Err && allocated->Err_0 is AllocationFailed,
        cancelled is Err && cancelled->Err_0 is AllocationFailed,
        handles is Err && handles->Err_0 is AllocationFailed,
        nodes is Err && nodes->Err_0 is AllocationFailed,
        nodes->Err_0->AllocationFailed_0@ == "RUNAWAY_NODES was not set."@,
        ran is Ok ==> {
            &&& allocated->Err_0->AllocationFailed_0@ == "Failed to allocate on command "@
                + debug_text(commands@[ran->Ok_0.1.len() - 1]@) + ": "@ + failure
            &&& cancelled->Err_0->AllocationFailed_0@ == "Cancel allocation command failed: "@
                + failure
            &&& handles->Err_0->AllocationFailed_0@ == "Handles query command failed: "@ + failure
        },
        ran is Err ==> handles->Err_0->AllocationFailed_0@ == "Failed to get handles: "@
            + ran->Err_0@,
{
}

/// A copy of a host configuration holds what the configuration holds.
pub proof fn copied_configuration_is_the_same(conf: HostConf, res: HostConf)
    requires
        call_ensures(HostConf::clone, (&conf,), res),
    ensures
        res.name == conf.name,
        res.ssh_configuration == conf.ssh_configuration,
        res.node_proxycommand == conf.node_proxycommand,
        res.start_allocation@ == conf.start_allocation@,
        res.cancel_allocation@ == conf.cancel_allocation@,
        res.allocation_duration == conf.allocation_duration,
        res.get_node_handles@ == conf.get_node_handles@,
        res.directory == conf.directory,
        res.execution@ == conf.execution@,
{
}

/// Whatever the proxy command is, the profile of a node holds it with the id of the node in the place of
/// every `$RUNAWAY_NODE_ID`.
pub proof fn every_node_id_is_put_in(
    node: &str,
    frontend: &SshProfile,
    proxycommand: &str,
    res: SshProfile,
)
    requires
        call_ensures(node_profile, (node, frontend, proxycommand), res),
    ensures
        res.proxycommand is Some,
        res.proxycommand->Some_0@ == replaced(proxycommand@, "$RUNAWAY_NODE_ID"@, node@),
{
}

} // verus!
