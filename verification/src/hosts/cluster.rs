//! Hosts that are driven by single commands: one starts an allocation, one lists its nodes, one
//! cancels it. The nodes are split in slots, which are given to the executions.
//!
//! All the scheduling is implemented around a channel of messages. It carries the slots when they are
//! made available, as long as the allocation did not expire, followed by a message that asks for a
//! new allocation.
use vstd::prelude::*;
#[allow(unused_imports)]
use vstd::string::*;
use vstd::utf8::*;
#[allow(unused_imports)]
use crate::commons::{EnvironmentStore, Loaded, Output, Stored, exit_code, pairs, utf8_text};
use crate::hosts::Error;
#[allow(unused_imports)]
use crate::hosts::is_failed_allocation;
#[allow(unused_imports)]
use crate::primitives::{DropBack, Expire, LAST_SECOND, Timestamp};
use crate::ssh::config::SshProfile;
#[allow(unused_imports)]
use crate::text::{
    cat, cat3, cat4, copies, decimal, decimal_of, join, joined, parse_u64, parsed_u64, replace, replaced,
    split, split_on, texts, trim_newlines, without_final_newlines,
};
#[allow(unused_imports)]
use crate::text::{is_absent, is_placeholder, placeholder_is_replaced};

verus! {

//------------------------------------------------------------------------- ENVIRONMENT VARIABLES
/// Environment variables, which are substituted in strings.
#[derive(Debug)]
pub struct EnvironmentVariables(pub EnvironmentStore);

/// The text with each variable replaced by its value, one variable after the other.
pub open spec fn substituted(entries: Seq<(Seq<char>, Seq<char>)>, text: Seq<char>) -> Seq<char>
    decreases entries.len(),
{
    if entries.len() == 0 {
        text
    } else {
        replaced(substituted(entries.drop_last(), text), entries.last().0, entries.last().1)
    }
}

impl View for EnvironmentVariables {
    type V = Map<Seq<char>, Seq<char>>;

    open spec fn view(&self) -> Map<Seq<char>, Seq<char>> {
        self.0@
    }
}

impl EnvironmentVariables {
    /// No variable is set twice.
    pub open spec fn wf(&self) -> bool {
        self.0.wf()
    }

    /// Creates a new one.
    pub fn new() -> (res: EnvironmentVariables)
        ensures
            res.wf(),
            res@ == Map::<Seq<char>, Seq<char>>::empty(),
    {
        EnvironmentVariables(EnvironmentStore::new())
    }

    /// Inserts a variable. The value that it had is given back.
    pub fn insert(&mut self, k: String, v: String) -> (res: Option<String>)
        requires
            old(self).wf(),
        ensures
            final(self).wf(),
            final(self)@ == old(self)@.insert(k@, v@),
            match res {
                Some(before) => old(self)@.contains_pair(k@, before@),
                None => !old(self)@.contains_key(k@),
            },
    {
        let before = match self.0.get(k.as_str()) {
            Some(value) => Some(value.clone()),
            None => None,
        };
        self.0.insert(k, v);
        before
    }

    /// Clears all variables.
    pub fn clear(&mut self)
        ensures
            final(self).wf(),
            final(self)@ == Map::<Seq<char>, Seq<char>>::empty(),
    {
        self.0 = EnvironmentStore::new();
    }

    /// Substitutes the variables in a string.
    pub fn substitute(&self, string: &str) -> (res: String)
        ensures
            res@ == substituted(pairs(self.0.entries@), string@),
    {
        let ghost all = pairs(self.0.entries@);
        let mut res = string.to_owned();
        let mut i: usize = 0;
        while i < self.0.entries.len()
            invariant
                i <= self.0.entries.len(),
                all == pairs(self.0.entries@),
                res@ == substituted(all.take(i as int), string@),
            decreases self.0.entries.len() - i,
        {
            assert(all.take(i + 1).drop_last() =~= all.take(i as int));
            res = replace(
                res.as_str(),
                self.0.entries[i].0.as_str(),
                self.0.entries[i].1.as_str(),
            );
            i = i + 1;
        }
        assert(all.take(i as int) =~= all);
        res
    }
}

/// Without variables a text is left as it is; with one, the text has its value in the place of it.
pub proof fn substitution_laws(text: Seq<char>, key: Seq<char>, value: Seq<char>)
    ensures
        substituted(Seq::empty(), text) == text,
        substituted(seq![(key, value)], text) == replaced(text, key, value),
{
    assert(seq![(key, value)].drop_last() =~= Seq::<(Seq<char>, Seq<char>)>::empty());
    assert(substituted(Seq::<(Seq<char>, Seq<char>)>::empty(), text) == text);
}

//--------------------------------------------------------------------------------- CONFIGURATION
/// A host configuration represents the implementation of the (imaginary) orchestra host interface
/// for a given host. The fields have the following meaning:
/// + name: The name of the configuration
/// + ssh_config: The name of the ssh config used
/// + node_proxy_command: The proxycommand used to access the nodes
/// + start_alloc: Command to start allocation. Should return an identifier kept in $ALLOCRET
/// + get_alloc_nodes: Command to get nodes of _this_ allocation. Use $ALLOCRET
/// + cancel_alloc: Command to cancel _this_ allocation. Use $ALLOCRET
/// + alloc_duration: Number of minutes after which nodes will no longer be issued
/// + executions_per_nodes: Number of parallel executions on a node
/// + directory: The directory where to put the executions
/// + before_execution: Commands to execute before the execution
/// + execution: Command to execute the script
/// + after_execution: Commands to execute after the execution
#[derive(Debug)]
pub struct HostConf {
    pub name: String,
    pub ssh_config: String,
    pub node_proxy_command: String,
    pub start_alloc: Vec<String>,
    pub get_alloc_nodes: Vec<String>,
    pub cancel_alloc: Vec<String>,
    pub alloc_duration: usize,
    pub executions_per_nodes: Vec<String>,
    pub directory: String,
    pub before_execution: Vec<String>,
    pub execution: String,
    pub after_execution: Vec<String>,
}

impl Clone for HostConf {
    fn clone(&self) -> (res: HostConf)
        ensures
            res.name == self.name,
            res.ssh_config == self.ssh_config,
            res.node_proxy_command == self.node_proxy_command,
            res.start_alloc@ == self.start_alloc@,
            res.get_alloc_nodes@ == self.get_alloc_nodes@,
            res.cancel_alloc@ == self.cancel_alloc@,
            res.alloc_duration == self.alloc_duration,
            res.executions_per_nodes@ == self.executions_per_nodes@,
            res.directory == self.directory,
            res.before_execution@ == self.before_execution@,
            res.execution == self.execution,
            res.after_execution@ == self.after_execution@,
    {
        HostConf {
            name: self.name.clone(),
            ssh_config: self.ssh_config.clone(),
            node_proxy_command: self.node_proxy_command.clone(),
            start_alloc: copies(&self.start_alloc),
            get_alloc_nodes: copies(&self.get_alloc_nodes),
            cancel_alloc: copies(&self.cancel_alloc),
            alloc_duration: self.alloc_duration,
            executions_per_nodes: copies(&self.executions_per_nodes),
            directory: self.directory.clone(),
            before_execution: copies(&self.before_execution),
            execution: self.execution.clone(),
            after_execution: copies(&self.after_execution),
        }
    }
}

/// Commands that are executed one after the other, as long as they succeed.
pub open spec fn chained(commands: Seq<String>) -> Seq<char> {
    joined(texts(commands), " && "@)
}

impl HostConf {
    /// The configuration that was read from a file, or what is said of a failure.
    pub fn from_file(host_path: &str, read: Loaded<HostConf>) -> (res: Result<HostConf, Error>)
        ensures
            match read {
                Loaded::Value(conf) => res == Ok::<HostConf, Error>(conf),
                Loaded::Unopened => {
                    &&& res is Err
                    &&& res->Err_0 is ReadingHost
                    &&& res->Err_0->ReadingHost_0@ == "Failed to open host configuration file "@
                        + host_path@
                },
                Loaded::Unparsed(reason) => {
                    &&& res is Err
                    &&& res->Err_0 is ReadingHost
                    &&& res->Err_0->ReadingHost_0@ == "Failed to parse host configuration file "@
                        + host_path@ + ": \n"@ + reason@
                },
            },
    {
        match read {
            Loaded::Value(conf) => Ok(conf),
            Loaded::Unopened => Err(
                Error::ReadingHost(cat("Failed to open host configuration file ", host_path)),
            ),
            Loaded::Unparsed(reason) => Err(
                Error::ReadingHost(
                    cat4(
                        "Failed to parse host configuration file ",
                        host_path,
                        ": \n",
                        reason.as_str(),
                    ),
                ),
            ),
        }
    }

    /// What writing the configuration to a file gives.
    pub fn to_file(&self, conf_path: &str, written: Stored) -> (res: Result<(), Error>)
        ensures
            match written {
                Stored::Done => res == Ok::<(), Error>(()),
                Stored::Unopened => {
                    &&& res is Err
                    &&& res->Err_0 is WritingHost
                    &&& res->Err_0->WritingHost_0@ == "Failed to open host configuration file "@
                        + conf_path@
                },
                Stored::Unwritten => {
                    &&& res is Err
                    &&& res->Err_0 is WritingHost
                    &&& res->Err_0->WritingHost_0@ == "Failed to write host configuration file "@
                        + conf_path@
                },
            },
    {
        match written {
            Stored::Done => Ok(()),
            Stored::Unopened => Err(
                Error::WritingHost(cat("Failed to open host configuration file ", conf_path)),
            ),
            Stored::Unwritten => Err(
                Error::WritingHost(cat("Failed to write host configuration file ", conf_path)),
            ),
        }
    }

    /// Returns the start_alloc string.
    pub fn start_alloc(&self) -> (res: String)
        ensures
            res@ == chained(self.start_alloc@),
    {
        join(&self.start_alloc, " && ")
    }

    /// Returns the get_alloc_nodes string.
    pub fn get_alloc_nodes(&self) -> (res: String)
        ensures
            res@ == chained(self.get_alloc_nodes@),
    {
        join(&self.get_alloc_nodes, " && ")
    }

    /// Returns the cancel_alloc string.
    pub fn cancel_alloc(&self) -> (res: String)
        ensures
            res@ == chained(self.cancel_alloc@),
    {
        join(&self.cancel_alloc, " && ")
    }

    /// Returns the executions_per_nodes string.
    pub fn executions_per_nodes(&self) -> (res: String)
        ensures
            res@ == chained(self.executions_per_nodes@),
    {
        join(&self.executions_per_nodes, " && ")
    }

    /// Returns the before_execution string.
    pub fn before_execution(&self) -> (res: String)
        ensures
            res@ == chained(self.before_execution@),
    {
        join(&self.before_execution, " && ")
    }

    /// Returns the execution string.
    pub fn execution(&self) -> (res: String)
        ensures
            res@ == self.execution@,
    {
        self.execution.clone()
    }

    /// Returns the after_execution string.
    pub fn after_execution(&self) -> (res: String)
        ensures
            res@ == chained(self.after_execution@),
    {
        join(&self.after_execution, " && ")
    }

    /// Returns the directory that contains the executions.
    pub fn get_host_directory(&self) -> (res: String)
        ensures
            res@ == self.directory@,
    {
        self.directory.clone()
    }

    /// Returns the name of the host.
    pub fn get_name(&self) -> (res: String)
        ensures
            res@ == self.name@,
    {
        self.name.clone()
    }
}

//----------------------------------------------------------------------------------------- NODES
/// A slot of a node: the connection to the node, by its number, and the commands of the execution.
#[derive(Debug)]
pub struct NodeHandle {
    pub node: u64,
    pub before_execution: String,
    pub execution: String,
    pub after_execution: String,
}

/// Whether a handle is the slot of the given number of a node.
pub open spec fn is_slot(handle: NodeHandle, conf: HostConf, node: u64, number: nat) -> bool {
    &&& handle.node == node
    &&& handle.before_execution@ == replaced(
        chained(conf.before_execution@),
        "$RUNAWAY_EID"@,
        decimal_of(number),
    )
    &&& handle.execution@ == replaced(conf.execution@, "$RUNAWAY_EID"@, decimal_of(number))
    &&& handle.after_execution@ == replaced(
        chained(conf.after_execution@),
        "$RUNAWAY_EID"@,
        decimal_of(number),
    )
}

/// The slots of a node, which are numbered from one on.
pub fn node_slots(conf: &HostConf, node: u64, count: u64) -> (res: Vec<NodeHandle>)
    ensures
        res.len() == count,
        forall|i: int| 0 <= i < count ==> is_slot(#[trigger] res@[i], *conf, node, (i + 1) as nat),
{
    let mut res: Vec<NodeHandle> = Vec::new();
    let mut i: u64 = 0;
    while i < count
        invariant
            i <= count,
            res.len() == i,
            forall|j: int| 0 <= j < i ==> is_slot(#[trigger] res@[j], *conf, node, (j + 1) as nat),
        decreases count - i,
    {
        i = i + 1;
        let number = decimal(i);
        let handle = NodeHandle {
            node,
            before_execution: replace(
                conf.before_execution().as_str(),
                "$RUNAWAY_EID",
                number.as_str(),
            ),
            execution: replace(conf.execution().as_str(), "$RUNAWAY_EID", number.as_str()),
            after_execution: replace(
                conf.after_execution().as_str(),
                "$RUNAWAY_EID",
                number.as_str(),
            ),
        };
        res.push(handle);
    }
    res
}

//--------------------------------------------------------------------------------------- CHANNEL
/// The messages in the channel.
pub enum ChannelMessages {
    NoAllocationsMade,
    Node(Expire<NodeHandle>),
    NoNodesLeft,
    WaitForNodes,
    Abort,
    Shutdown,
    /// Nothing is there yet: every slot is held by an execution.
    Pending,
}

/// What the channel carries behind the abort message.
#[derive(Clone, Copy, Debug, PartialEq, Eq, Structural)]
pub enum Phase {
    /// No allocation was made.
    New,
    /// The slots of an allocation.
    Serving,
    /// Nothing: an allocation is going on.
    Allocating,
    /// The host was shut down.
    Shutdown,
}

/// The channel of the messages.
pub struct SlotChannel {
    /// Whether an abort message comes first.
    pub aborted: bool,
    pub phase: Phase,
    /// The slots that wait for an execution.
    pub queue: Vec<Expire<NodeHandle>>,
    /// How many slots are held by executions.
    pub held: usize,
}

/// What the channel holds.
pub ghost struct ChannelView {
    pub aborted: bool,
    pub phase: Phase,
    pub queue: Seq<Expire<NodeHandle>>,
    pub held: nat,
}

impl View for SlotChannel {
    type V = ChannelView;

    open spec fn view(&self) -> ChannelView {
        ChannelView {
            aborted: self.aborted,
            phase: self.phase,
            queue: self.queue@,
            held: self.held as nat,
        }
    }
}

impl ChannelView {
    /// The message that comes next.
    pub open spec fn first(self) -> ChannelMessages {
        if self.aborted {
            ChannelMessages::Abort
        } else {
            match self.phase {
                Phase::New => ChannelMessages::NoAllocationsMade,
                Phase::Allocating => ChannelMessages::WaitForNodes,
                Phase::Shutdown => ChannelMessages::Shutdown,
                Phase::Serving => if self.queue.len() > 0 {
                    ChannelMessages::Node(self.queue[0])
                } else if self.held > 0 {
                    ChannelMessages::Pending
                } else {
                    ChannelMessages::NoNodesLeft
                },
            }
        }
    }

    /// The channel once that message was taken.
    pub open spec fn rest(self) -> ChannelView {
        if self.aborted {
            ChannelView { aborted: false, ..self }
        } else {
            match self.first() {
                ChannelMessages::NoAllocationsMade => ChannelView {
                    phase: Phase::Allocating,
                    ..self
                },
                ChannelMessages::NoNodesLeft => ChannelView { phase: Phase::Allocating, ..self },
                ChannelMessages::Node(_) => ChannelView { queue: self.queue.skip(1), ..self },
                _ => self,
            }
        }
    }

    /// The channel after an abort.
    pub open spec fn after_abort(self) -> ChannelView {
        ChannelView { aborted: true, ..self }
    }

    /// The channel after a shutdown: what it carried is gone.
    pub open spec fn shut(self) -> ChannelView {
        ChannelView { aborted: false, phase: Phase::Shutdown, queue: Seq::empty(), held: 0 }
    }

    /// The channel with the slots of a new allocation. One that was aborted meanwhile stays so, and
    /// one that was shut down takes no slots.
    pub open spec fn filled(self, slots: Seq<Expire<NodeHandle>>) -> ChannelView {
        if self.phase == Phase::Shutdown {
            self
        } else {
            ChannelView { aborted: self.aborted, phase: Phase::Serving, queue: slots, held: 0 }
        }
    }

    /// Whether executions still hold slots, which have to be waited for before the host is closed.
    pub open spec fn waits(self) -> bool {
        self.phase == Phase::Serving && self.held > 0
    }

    /// The channel after it was drained: no abort message is left, and the slots that waited for an
    /// execution are consumed. Slots that are still held are accounted for as before.
    pub open spec fn drained(self) -> ChannelView {
        match self.phase {
            Phase::Serving => ChannelView {
                aborted: false,
                phase: if self.held > 0 {
                    Phase::Serving
                } else {
                    Phase::Allocating
                },
                queue: Seq::empty(),
                held: self.held,
            },
            Phase::New => ChannelView { aborted: false, phase: Phase::Allocating, ..self },
            _ => ChannelView { aborted: false, ..self },
        }
    }

    /// The channel after a slot that an execution held was dropped.
    pub open spec fn after_drop(self, slot: DropBack<Expire<NodeHandle>>) -> ChannelView {
        if self.phase == Phase::Serving && self.held > 0 {
            ChannelView {
                queue: match slot.inner {
                    Some(inner) => self.queue.push(inner),
                    None => self.queue,
                },
                held: (self.held - 1) as nat,
                ..self
            }
        } else {
            self
        }
    }
}

/// What is left of the channel once the expired slots are taken off its beginning.
pub open spec fn without_expired(channel: ChannelView, now: Timestamp) -> ChannelView
    decreases channel.queue.len(),
{
    match channel.first() {
        ChannelMessages::Node(slot) => if slot.expired(now) && channel.queue.len() > 0 {
            without_expired(channel.rest(), now)
        } else {
            channel
        },
        _ => channel,
    }
}

impl SlotChannel {
    /// The channel does not account for more slots than it can queue.
    pub open spec fn wf(&self) -> bool {
        self.queue.len() + self.held <= usize::MAX
    }

    /// The channel of a host on which no allocation was made.
    pub fn new() -> (res: SlotChannel)
        ensures
            res.wf(),
            res@ == (ChannelView { aborted: false, phase: Phase::New, queue: Seq::empty(), held: 0 }),
    {
        SlotChannel { aborted: false, phase: Phase::New, queue: Vec::new(), held: 0 }
    }

    /// Takes the message that comes next.
    pub fn next(&mut self) -> (res: ChannelMessages)
        requires
            old(self).wf(),
        ensures
            final(self).wf(),
            res == old(self)@.first(),
            final(self)@ == old(self)@.rest(),
    {
        if self.aborted {
            self.aborted = false;
            return ChannelMessages::Abort;
        }
        match self.phase {
            Phase::New => {
                self.phase = Phase::Allocating;
                ChannelMessages::NoAllocationsMade
            },
            Phase::Allocating => ChannelMessages::WaitForNodes,
            Phase::Shutdown => ChannelMessages::Shutdown,
            Phase::Serving => {
                if self.queue.len() > 0 {
                    let slot = self.queue.remove(0);
                    assert(self.queue@ =~= old(self)@.queue.skip(1));
                    ChannelMessages::Node(slot)
                } else if self.held > 0 {
                    ChannelMessages::Pending
                } else {
                    self.phase = Phase::Allocating;
                    ChannelMessages::NoNodesLeft
                }
            },
        }
    }

    /// Takes a slot back that an execution dropped. One that was consumed is gone for good.
    pub fn give_back(&mut self, slot: DropBack<Expire<NodeHandle>>)
        requires
            old(self).wf(),
        ensures
            final(self).wf(),
            final(self)@ == old(self)@.after_drop(slot),
    {
        if self.phase == Phase::Serving && self.held > 0 {
            self.held = self.held - 1;
            match slot.at_drop() {
                Some(inner) => {
                    self.queue.push(inner);
                },
                None => {},
            }
        }
        assert(self.queue@ =~= old(self)@.after_drop(slot).queue);
    }
}

//------------------------------------------------------------------------------------------ HOST
/// The executor of a host configuration. It provides execution slots.
pub struct Host {
    pub conf: HostConf,
    pub chan: SlotChannel,
    pub vars: EnvironmentVariables,
}

/// What came of a command: its output and how the output is shown, or why it could not be executed.
pub type Executed = Result<(Output, String), String>;

/// Whether a command exited with code zero.
pub open spec fn exited_well(executed: Executed) -> bool {
    executed is Ok && exit_code(executed->Ok_0.0.status.raw) == Some(0i32)
}

/// What a command wrote, without the line feeds at the end.
pub open spec fn written(executed: Executed) -> Seq<char> {
    without_final_newlines(decode_utf8(executed->Ok_0.0.stdout@))
}

impl Host {
    /// The channel and the variables are well formed.
    pub open spec fn wf(&self) -> bool {
        self.chan.wf() && self.vars.wf()
    }

    /// Whether slots that are allocated at the given time expire before the end of the calendar.
    pub open spec fn can_expire(&self, now: Timestamp) -> bool {
        now.secs + self.conf.alloc_duration * 60 <= LAST_SECOND
    }

    /// Tells whether slots that are allocated at the given time expire before the end of the
    /// calendar.
    pub fn expires(&self, now: Timestamp) -> (res: bool)
        ensures
            res == self.can_expire(now),
    {
        let end: i128 = now.secs as i128 + self.conf.alloc_duration as i128 * 60;
        end <= LAST_SECOND as i128
    }

    /// Builds a host from a configuration.
    pub fn from_conf(conf: HostConf) -> (res: Host)
        ensures
            res.wf(),
            res.conf == conf,
            res.chan@ == (ChannelView {
                aborted: false,
                phase: Phase::New,
                queue: Seq::empty(),
                held: 0,
            }),
            res.vars@ == Map::<Seq<char>, Seq<char>>::empty(),
    {
        Host { conf, chan: SlotChannel::new(), vars: EnvironmentVariables::new() }
    }

    /// Triggers abort. Every node acquisition will return an error after that.
    pub fn abort(&mut self) -> (res: Result<(), Error>)
        requires
            old(self).wf(),
        ensures
            final(self).wf(),
            final(self).conf == old(self).conf,
            final(self).vars == old(self).vars,
            final(self).chan@ == old(self).chan@.after_abort(),
            res == Ok::<(), Error>(()),
    {
        self.chan.aborted = true;
        Ok(())
    }

    /// The command that cancels the current allocation.
    pub fn cancel_command(&self) -> (res: String)
        ensures
            res@ == substituted(pairs(self.vars.0.entries@), chained(self.conf.cancel_alloc@)),
    {
        self.vars.substitute(self.conf.cancel_alloc().as_str())
    }

    /// Ends the cancellation of the allocation. The variables are cleared once it succeeded.
    pub fn cancelled(&mut self, executed: Executed) -> (res: Result<(), Error>)
        requires
            old(self).wf(),
        ensures
            final(self).wf(),
            final(self).conf == old(self).conf,
            final(self).chan == old(self).chan,
            cancel_result(old(self).conf, executed, res),
            if res is Ok {
                final(self).vars@ == Map::<Seq<char>, Seq<char>>::empty()
            } else {
                final(self).vars == old(self).vars
            },
    {
        match executed {
            Err(reason) => Err(
                Error::AllocationFailed(cat("Failed to cancel allocation: ", reason.as_str())),
            ),
            Ok((output, shown)) => match output.status.code() {
                Some(0) => {
                    self.vars.clear();
                    Ok(())
                },
                _ => Err(
                    Error::AllocationFailed(
                        cat4(
                            "Failed to cancel allocation on profile ",
                            self.conf.name.as_str(),
                            ": ",
                            shown.as_str(),
                        ),
                    ),
                ),
            },
        }
    }

    /// Ends a shutdown, which started with the cancellation of the allocation. Once that succeeded,
    /// every node acquisition returns an error.
    pub fn shutdown(&mut self, executed: Executed) -> (res: Result<(), Error>)
        requires
            old(self).wf(),
        ensures
            final(self).wf(),
            final(self).conf == old(self).conf,
            cancel_result(old(self).conf, executed, res),
            if res is Ok {
                &&& final(self).vars@ == Map::<Seq<char>, Seq<char>>::empty()
                &&& final(self).chan@ == old(self).chan@.shut()
            } else {
                &&& final(self).vars == old(self).vars
                &&& final(self).chan == old(self).chan
            },
    {
        match self.cancelled(executed) {
            Ok(_) => {
                self.chan = SlotChannel {
                    aborted: false,
                    phase: Phase::Shutdown,
                    queue: Vec::new(),
                    held: 0,
                };
                Ok(())
            },
            Err(e) => Err(e),
        }
    }

    /// Goes on with closing the host, once its last user is gone: the slots come back and are
    /// consumed. Then the allocation is to be cancelled, unless the shutdown of the host cancelled
    /// it and none was started since.
    pub fn drain(&mut self) -> (res: Drained)
        requires
            old(self).wf(),
        ensures
            final(self).wf(),
            final(self).conf == old(self).conf,
            final(self).vars == old(self).vars,
            final(self).chan@ == old(self).chan@.drained(),
            if old(self).chan@.waits() {
                res is Wait
            } else if old(self).chan@.phase == Phase::Shutdown && old(self).vars.0.entries.len() == 0 {
                res is Done
            } else {
                res is Cancel
            },
            res is Cancel ==> res->Cancel_0@ == substituted(
                pairs(old(self).vars.0.entries@),
                chained(old(self).conf.cancel_alloc@),
            ),
    {
        loop
            invariant
                self.wf(),
                self.conf == old(self).conf,
                self.vars == old(self).vars,
                self.chan@.phase == old(self).chan@.phase,
                self.chan@.held == old(self).chan@.held,
                self.chan@.phase == Phase::Serving || self.chan@.queue == old(self).chan@.queue,
            decreases
                    self.chan@.queue.len() + if self.chan@.aborted {
                        1nat
                    } else {
                        0nat
                    },
        {
            let message = self.chan.next();
            assert(message !is Abort && message !is Node ==> self.chan@.queue =~= old(
                self,
            ).chan@.drained().queue);
            match message {
                ChannelMessages::Abort => {},
                ChannelMessages::Node(_) => {},
                ChannelMessages::Shutdown => {
                    if self.vars.0.entries.len() == 0 {
                        return Drained::Done;
                    }
                    return Drained::Cancel(self.cancel_command());
                },
                ChannelMessages::Pending => {
                    return Drained::Wait;
                },
                _ => {
                    return Drained::Cancel(self.cancel_command());
                },
            }
        }
    }
}

/// What has to be done to close a host.
pub enum Drained {
    /// Wait for a slot to be dropped, and drain again.
    Wait,
    /// Execute the command that cancels the allocation.
    Cancel(String),
    /// Nothing: the allocation was cancelled already.
    Done,
}

/// What the cancellation of the allocation gives.
pub open spec fn cancel_result(conf: HostConf, executed: Executed, res: Result<(), Error>) -> bool {
    match executed {
        Err(reason) => res is Err && is_failed_allocation(
            res->Err_0,
            "Failed to cancel allocation: "@ + reason@,
        ),
        Ok((_, shown)) => if exited_well(executed) {
            res == Ok::<(), Error>(())
        } else {
            res is Err && is_failed_allocation(
                res->Err_0,
                "Failed to cancel allocation on profile "@ + conf.name@ + ": "@ + shown@,
            )
        },
    }
}

//----------------------------------------------------------------------------------- ACQUISITION
/// Where the acquisition of a slot stands.
pub enum AcquireStage {
    /// A message is taken from the channel, or waited for.
    Next,
    /// The allocation is cancelled.
    Cancel,
    /// An allocation is started.
    Start,
    /// The nodes of the allocation are listed.
    Nodes,
    /// The ssh profile is read.
    Profile(Vec<String>),
    /// The connections to the nodes are made, one after the other.
    Connect(Connecting),
    /// The number of executions on a node is asked for, on the connection of the given number.
    Count(Connecting, u64),
    Over,
}

/// The nodes that are connected to.
pub struct Connecting {
    pub profile: SshProfile,
    pub expiration: Timestamp,
    /// The names of the nodes.
    pub names: Vec<String>,
    /// How many nodes were handled.
    pub done: usize,
    /// How often the connection to the next one failed.
    pub failures: usize,
    /// The slots of the nodes that were handled, node by node.
    pub slots: Vec<NodeHandle>,
}

/// How often the connection to a node is tried.
pub const ATTEMPTS: usize = 9;

/// What came of the last action.
pub enum AcquireEvent {
    /// A slot is asked for; or a slot was dropped, or some time passed, while one was waited for.
    Wake,
    /// A command was executed.
    Executed(Executed),
    /// The ssh profile was read, or not.
    Profile(Result<SshProfile, String>),
    /// The connection to a node was made, under the given number, or not.
    Connected(Option<u64>),
}

/// What has to be done next.
pub enum AcquireAction {
    /// Wait for a slot to be dropped.
    Wait,
    /// Wait for half a second, since an allocation is going on.
    Sleep,
    /// Execute the command that cancels the allocation on the frontend.
    Cancel(String),
    /// Execute the command that starts an allocation on the frontend.
    Start(String),
    /// Execute the command that lists the nodes on the frontend.
    Nodes(String),
    /// Read the ssh profile of the given name.
    Profile(String),
    /// Connect to a node.
    Connect(SshProfile),
    /// Wait for two seconds, and try again to connect to the node.
    Retry(SshProfile),
    /// Execute the command that counts the executions on the node of the given number.
    Count(u64, String),
    Return(Result<DropBack<Expire<NodeHandle>>, Error>),
}

impl Connecting {
    pub open spec fn wf(&self) -> bool {
        self.done < self.names.len() && self.failures < ATTEMPTS
    }
}

/// The action ends the acquisition with a failed allocation.
pub open spec fn fails(stage: AcquireStage, action: AcquireAction, text: Seq<char>) -> bool {
    &&& stage is Over
    &&& action is Return
    &&& action->Return_0 is Err
    &&& is_failed_allocation(action->Return_0->Err_0, text)
}

/// What is done with the next message of the channel. The expired slots are consumed. A message that
/// says abort is put back before the acquisition is aborted.
pub open spec fn after_next(before: Host, now: Timestamp, after: Host, stage: AcquireStage, action: AcquireAction) -> bool {
    let channel = without_expired(before.chan@, now);
    match channel.first() {
        ChannelMessages::Node(slot) => {
            &&& after.chan@ == ChannelView { held: channel.held + 1, ..channel.rest() }
            &&& stage is Over
            &&& action == AcquireAction::Return(Ok(DropBack { inner: Some(slot) }))
        },
        ChannelMessages::NoAllocationsMade => {
            &&& after.chan@ == channel.rest()
            &&& stage is Start
            &&& action is Start
            &&& action->Start_0@ == chained(before.conf.start_alloc@)
        },
        ChannelMessages::NoNodesLeft => {
            &&& after.chan@ == channel.rest()
            &&& stage is Cancel
            &&& action is Cancel
            &&& action->Cancel_0@ == substituted(
                pairs(before.vars.0.entries@),
                chained(before.conf.cancel_alloc@),
            )
        },
        ChannelMessages::WaitForNodes => {
            &&& after.chan@ == channel
            &&& stage is Next
            &&& action is Sleep
        },
        ChannelMessages::Pending => {
            &&& after.chan@ == channel
            &&& stage is Next
            &&& action is Wait
        },
        ChannelMessages::Abort => {
            &&& after.chan@ == channel
            &&& stage is Over
            &&& action == AcquireAction::Return(Err(Error::Aborted))
        },
        ChannelMessages::Shutdown => {
            &&& after.chan@ == channel
            &&& stage is Over
            &&& action == AcquireAction::Return(Err(Error::Shutdown))
        },
    }
}

/// The action connects to the next node, or tries to do so again.
pub open spec fn is_next_profile(profile: SshProfile, conf: HostConf, connecting: Connecting) -> bool {
    let name = connecting.names@[connecting.done as int]@;
    &&& profile.name == connecting.profile.name
    &&& profile.user == connecting.profile.user
    &&& profile.port == connecting.profile.port
    &&& profile.hostname is Some
    &&& profile.hostname->Some_0@ == connecting.profile.name@ + "::"@ + name
    &&& profile.proxycommand is Some
    &&& profile.proxycommand->Some_0@ == replaced(conf.node_proxy_command@, "$NODENAME"@, name)
}

/// The slots, each with its expiration date.
pub open spec fn expiring(slots: Seq<NodeHandle>, expiration: Timestamp) -> Seq<Expire<NodeHandle>> {
    Seq::new(slots.len(), |i: int| Expire { inner: slots[i], expiration })
}

/// Whether the slots are those of the given number of executions on a node.
pub open spec fn are_slots(slots: Seq<NodeHandle>, conf: HostConf, node: u64, count: u64) -> bool {
    &&& slots.len() == count
    &&& forall|i: int| 0 <= i < count ==> is_slot(#[trigger] slots[i], conf, node, (i + 1) as nat)
}

/// What is done once the executions on a node were counted: the next node is connected to. After the
/// last one, the channel carries the slots of all nodes, and a slot is taken from it.
pub open spec fn after_count(
    before: Host,
    connecting: Connecting,
    node: u64,
    executed: Executed,
    now: Timestamp,
    after: Host,
    stage: AcquireStage,
    action: AcquireAction,
) -> bool {
    exists|slots: Seq<NodeHandle>| #[trigger]
        are_slots(slots, before.conf, node, parsed_u64(written(executed))->Some_0) && {
            if connecting.done + 1 < connecting.names.len() {
                &&& after.chan@ == before.chan@
                &&& stage is Connect
                &&& stage->Connect_0.profile == connecting.profile
                &&& stage->Connect_0.expiration == connecting.expiration
                &&& stage->Connect_0.names@ == connecting.names@
                &&& stage->Connect_0.done == connecting.done + 1
                &&& stage->Connect_0.failures == 0
                &&& stage->Connect_0.slots@ == connecting.slots@ + slots
                &&& action is Connect
                &&& is_next_profile(action->Connect_0, before.conf, stage->Connect_0)
            } else {
                let channel = before.chan@.filled(
                    expiring(connecting.slots@ + slots, connecting.expiration),
                );
                exists|filled: Host|
                    filled.conf == before.conf && filled.vars == before.vars && filled.chan@
                        == channel && #[trigger] after_next(filled, now, after, stage, action)
            }
        }
}

/// What a step of an acquisition does: how the host and the acquisition go on, and what has to be
/// done next.
pub open spec fn acquire_step(
    before: Host,
    stage: AcquireStage,
    event: AcquireEvent,
    now: Timestamp,
    after: Host,
    next: AcquireStage,
    action: AcquireAction,
) -> bool {
    &&& after.conf == before.conf
    &&& match (stage, event) {
        (AcquireStage::Next, AcquireEvent::Wake) => {
            &&& after.vars == before.vars
            &&& after_next(before, now, after, next, action)
        },
        (AcquireStage::Cancel, AcquireEvent::Executed(executed)) => {
            &&& after.chan@ == before.chan@
            &&& exists|res: Result<(), Error>| #[trigger]
                cancel_result(before.conf, executed, res) && match res {
                    Ok(_) => {
                        &&& after.vars@ == Map::<Seq<char>, Seq<char>>::empty()
                        &&& next is Start
                        &&& action is Start
                        &&& action->Start_0@ == chained(before.conf.start_alloc@)
                    },
                    Err(e) => {
                        &&& after.vars == before.vars
                        &&& next is Over
                        &&& action == AcquireAction::Return(Err(e))
                    },
                }
        },
        (AcquireStage::Start, AcquireEvent::Executed(executed)) => {
            &&& after.chan@ == before.chan@
            &&& match executed {
                Err(reason) => {
                    &&& after.vars == before.vars
                    &&& fails(next, action, "Failed to allocate: "@ + reason@)
                },
                Ok((_, shown)) => if exited_well(executed) {
                    &&& after.vars@ == before.vars@.insert("$ALLOCRET"@, written(executed))
                    &&& next is Nodes
                    &&& action is Nodes
                    &&& action->Nodes_0@ == substituted(
                        pairs(after.vars.0.entries@),
                        chained(before.conf.get_alloc_nodes@),
                    )
                } else {
                    &&& after.vars == before.vars
                    &&& fails(
                        next,
                        action,
                        "Failed to obtain allocation on profile "@ + before.conf.name@ + ": "@
                            + shown@,
                    )
                },
            }
        },
        (AcquireStage::Nodes, AcquireEvent::Executed(executed)) => {
            &&& after.chan@ == before.chan@
            &&& after.vars == before.vars
            &&& match executed {
                Err(reason) => fails(next, action, "Failed to get nodes: "@ + reason@),
                Ok((_, shown)) => if exited_well(executed) {
                    &&& next is Profile
                    &&& texts(next->Profile_0@) == split_on(written(executed), '\n')
                    &&& action is Profile
                    &&& action->Profile_0@ == before.conf.ssh_config@
                } else {
                    fails(
                        next,
                        action,
                        "Failed to get node on profile "@ + before.conf.name@ + ": "@ + shown@,
                    )
                },
            }
        },
        (AcquireStage::Profile(names), AcquireEvent::Profile(read)) => {
            &&& after.chan@ == before.chan@
            &&& after.vars == before.vars
            &&& match read {
                Err(reason) => {
                    &&& next is Over
                    &&& action == AcquireAction::Return(Err(Error::SshConfigParse(reason)))
                },
                Ok(profile) => {
                    &&& next is Connect
                    &&& next->Connect_0.profile == profile
                    &&& next->Connect_0.expiration.secs == now.secs + before.conf.alloc_duration
                        * 60
                    &&& next->Connect_0.expiration.nanos == now.nanos
                    &&& next->Connect_0.names@ == names@
                    &&& next->Connect_0.done == 0
                    &&& next->Connect_0.failures == 0
                    &&& next->Connect_0.slots.len() == 0
                    &&& action is Connect
                    &&& is_next_profile(action->Connect_0, before.conf, next->Connect_0)
                },
            }
        },
        (AcquireStage::Connect(connecting), AcquireEvent::Connected(connected)) => {
            &&& after.chan@ == before.chan@
            &&& after.vars == before.vars
            &&& match connected {
                Some(node) => {
                    &&& next == AcquireStage::Count(connecting, node)
                    &&& action is Count
                    &&& action->Count_0 == node
                    &&& action->Count_1@ == chained(before.conf.executions_per_nodes@)
                },
                None => if connecting.failures + 1 == ATTEMPTS {
                    &&& next is Over
                    &&& action is Return
                    &&& action->Return_0 is Err
                    &&& action->Return_0->Err_0 is ConnectingNodes
                    &&& action->Return_0->Err_0->ConnectingNodes_0@ == "Failed to connect nodes"@
                } else {
                    &&& next is Connect
                    &&& next->Connect_0 == Connecting {
                        failures: (connecting.failures + 1) as usize,
                        ..connecting
                    }
                    &&& action is Retry
                    &&& is_next_profile(action->Retry_0, before.conf, connecting)
                },
            }
        },
        (AcquireStage::Count(connecting, node), AcquireEvent::Executed(executed)) => {
            &&& after.vars == before.vars
            &&& after_count(before, connecting, node, executed, now, after, next, action)
        },
        _ => false,
    }
}

/// The acquisition of a slot.
pub struct Acquisition {
    pub stage: AcquireStage,
}

impl Acquisition {
    pub open spec fn wf(&self) -> bool {
        match self.stage {
            AcquireStage::Profile(names) => names.len() > 0,
            AcquireStage::Connect(connecting) => connecting.wf(),
            AcquireStage::Count(connecting, _) => connecting.wf(),
            _ => true,
        }
    }

    /// Whether the event can come of what was asked for. What a command that exits well writes is
    /// text, and the number of executions on a node can be asked for and is one.
    pub open spec fn accepts(&self, event: AcquireEvent) -> bool {
        match (self.stage, event) {
            (AcquireStage::Next, AcquireEvent::Wake) => true,
            (AcquireStage::Cancel, AcquireEvent::Executed(_)) => true,
            (AcquireStage::Start, AcquireEvent::Executed(executed)) => exited_well(executed)
                ==> valid_utf8(executed->Ok_0.0.stdout@),
            (AcquireStage::Nodes, AcquireEvent::Executed(executed)) => exited_well(executed)
                ==> valid_utf8(executed->Ok_0.0.stdout@),
            (AcquireStage::Profile(_), AcquireEvent::Profile(_)) => true,
            (AcquireStage::Connect(_), AcquireEvent::Connected(_)) => true,
            (AcquireStage::Count(_, _), AcquireEvent::Executed(executed)) => {
                &&& executed is Ok
                &&& valid_utf8(executed->Ok_0.0.stdout@)
                &&& parsed_u64(written(executed)) is Some
            },
            _ => false,
        }
    }

    /// An acquisition, of which a message is to be taken first.
    pub fn start() -> (res: Acquisition)
        ensures
            res.wf(),
            res.stage == AcquireStage::Next,
    {
        Acquisition { stage: AcquireStage::Next }
    }

    /// Takes messages from the channel, and says what has to be done next.
    fn next(&mut self, host: &mut Host, now: Timestamp) -> (res: AcquireAction)
        requires
            old(host).wf(),
        ensures
            final(host).wf(),
            final(host).conf == old(host).conf,
            final(host).vars == old(host).vars,
            final(self).wf(),
            after_next(*old(host), now, *final(host), final(self).stage, res),
    {
        loop
            invariant
                host.wf(),
                host.conf == old(host).conf,
                host.vars == old(host).vars,
                without_expired(host.chan@, now) == without_expired(old(host).chan@, now),
            decreases host.chan@.queue.len(),
        {
            match host.chan.next() {
                ChannelMessages::Node(slot) => {
                    if !slot.is_expired_at(now) {
                        host.chan.held = host.chan.held + 1;
                        self.stage = AcquireStage::Over;
                        return AcquireAction::Return(Ok(DropBack::new(slot)));
                    }
                },
                ChannelMessages::NoAllocationsMade => {
                    self.stage = AcquireStage::Start;
                    return AcquireAction::Start(host.conf.start_alloc());
                },
                ChannelMessages::NoNodesLeft => {
                    self.stage = AcquireStage::Cancel;
                    return AcquireAction::Cancel(host.cancel_command());
                },
                ChannelMessages::WaitForNodes => {
                    self.stage = AcquireStage::Next;
                    return AcquireAction::Sleep;
                },
                ChannelMessages::Pending => {
                    self.stage = AcquireStage::Next;
                    return AcquireAction::Wait;
                },
                ChannelMessages::Abort => {
                    host.chan.aborted = true;
                    self.stage = AcquireStage::Over;
                    return AcquireAction::Return(Err(Error::Aborted));
                },
                ChannelMessages::Shutdown => {
                    self.stage = AcquireStage::Over;
                    return AcquireAction::Return(Err(Error::Shutdown));
                },
            }
        }
    }

    /// The profile that reaches the next node.
    fn next_profile(conf: &HostConf, connecting: &Connecting) -> (res: SshProfile)
        requires
            connecting.done < connecting.names.len(),
        ensures
            is_next_profile(res, *conf, *connecting),
    {
        let name = connecting.names[connecting.done].as_str();
        let mut profile = connecting.profile.clone();
        profile.proxycommand = Some(
            replace(conf.node_proxy_command.as_str(), "$NODENAME", name),
        );
        profile.hostname = Some(cat3(connecting.profile.name.as_str(), "::", name));
        profile
    }

    /// Goes on once an allocation was started.
    fn started(&mut self, host: &mut Host, executed: Executed, now: Timestamp) -> (res: AcquireAction)
        requires
            old(host).wf(),
            exited_well(executed) ==> valid_utf8(executed->Ok_0.0.stdout@),
        ensures
            final(host).wf(),
            final(self).wf(),
            acquire_step(
                *old(host),
                AcquireStage::Start,
                AcquireEvent::Executed(executed),
                now,
                *final(host),
                final(self).stage,
                res,
            ),
    {
        match executed {
            Err(reason) => {
                self.stage = AcquireStage::Over;
                let text = cat("Failed to allocate: ", reason.as_str());
                AcquireAction::Return(Err(Error::AllocationFailed(text)))
            },
            Ok((output, shown)) => match output.status.code() {
                Some(0) => {
                    let stdout = utf8_text(&output.stdout);
                    let id = trim_newlines(stdout.unwrap().as_str());
                    host.vars.insert("$ALLOCRET".to_owned(), id);
                    self.stage = AcquireStage::Nodes;
                    AcquireAction::Nodes(
                        host.vars.substitute(host.conf.get_alloc_nodes().as_str()),
                    )
                },
                _ => {
                    self.stage = AcquireStage::Over;
                    let text = cat4(
                        "Failed to obtain allocation on profile ",
                        host.conf.name.as_str(),
                        ": ",
                        shown.as_str(),
                    );
                    AcquireAction::Return(Err(Error::AllocationFailed(text)))
                },
            },
        }
    }

    /// Goes on once the nodes were listed.
    fn listed(&mut self, host: &mut Host, executed: Executed, now: Timestamp) -> (res: AcquireAction)
        requires
            old(host).wf(),
            exited_well(executed) ==> valid_utf8(executed->Ok_0.0.stdout@),
        ensures
            final(host).wf(),
            final(self).wf(),
            acquire_step(
                *old(host),
                AcquireStage::Nodes,
                AcquireEvent::Executed(executed),
                now,
                *final(host),
                final(self).stage,
                res,
            ),
    {
        match executed {
            Err(reason) => {
                self.stage = AcquireStage::Over;
                let text = cat("Failed to get nodes: ", reason.as_str());
                AcquireAction::Return(Err(Error::AllocationFailed(text)))
            },
            Ok((output, shown)) => match output.status.code() {
                Some(0) => {
                    let stdout = utf8_text(&output.stdout);
                    let nodes = trim_newlines(stdout.unwrap().as_str());
                    self.stage = AcquireStage::Profile(split(nodes.as_str(), '\n'));
                    AcquireAction::Profile(host.conf.ssh_config.clone())
                },
                _ => {
                    self.stage = AcquireStage::Over;
                    let text = cat4(
                        "Failed to get node on profile ",
                        host.conf.name.as_str(),
                        ": ",
                        shown.as_str(),
                    );
                    AcquireAction::Return(Err(Error::AllocationFailed(text)))
                },
            },
        }
    }

    /// Goes on once the executions on a node were counted.
    fn counted(
        &mut self,
        host: &mut Host,
        connecting: Connecting,
        node: u64,
        executed: Executed,
        now: Timestamp,
    ) -> (res: AcquireAction)
        requires
            old(host).wf(),
            connecting.wf(),
            executed is Ok,
            valid_utf8(executed->Ok_0.0.stdout@),
            parsed_u64(written(executed)) is Some,
        ensures
            final(host).wf(),
            final(host).conf == old(host).conf,
            final(host).vars == old(host).vars,
            final(self).wf(),
            after_count(
                *old(host),
                connecting,
                node,
                executed,
                now,
                *final(host),
                final(self).stage,
                res,
            ),
    {
        let count: u64 = match executed {
            Ok((output, _)) => {
                let stdout = utf8_text(&output.stdout);
                let text = trim_newlines(stdout.unwrap().as_str());
                parse_u64(text.as_str()).unwrap()
            },
            Err(_) => vstd::pervasive::unreached(),
        };
        let mut slots = node_slots(&host.conf, node, count);
        let ghost added = slots@;
        assert(are_slots(added, host.conf, node, count));
        let mut after = connecting;
        after.slots.append(&mut slots);
        after.done = after.done + 1;
        after.failures = 0;
        if after.done < after.names.len() {
            let profile = Acquisition::next_profile(&host.conf, &after);
            self.stage = AcquireStage::Connect(after);
            AcquireAction::Connect(profile)
        } else {
            let ghost all = after.slots@;
            let expiration = after.expiration;
            let mut queue: Vec<Expire<NodeHandle>> = Vec::new();
            let mut rest = after.slots;
            while rest.len() > 0
                invariant
                    rest@.len() + queue@.len() == all.len(),
                    forall|i: int|
                        0 <= i < rest@.len() ==> #[trigger] rest@[i] == all[i + queue@.len()],
                    forall|i: int|
                        0 <= i < queue@.len() ==> (#[trigger] queue@[i]).inner == all[i]
                            && queue@[i].expiration == expiration,
                decreases rest.len(),
            {
                let ghost before = rest@;
                let slot = rest.remove(0);
                assert(before[0] == slot);
                queue.push(Expire::new(slot, expiration));
            }
            assert(queue@ =~= expiring(all, expiration));
            if host.chan.phase != Phase::Shutdown {
                host.chan = SlotChannel {
                    aborted: host.chan.aborted,
                    phase: Phase::Serving,
                    queue,
                    held: 0,
                };
            }
            self.next(host, now)
        }
    }

    /// Takes what came of the last action into account at the given time, and says what has to be
    /// done next.
    pub fn step_at(&mut self, host: &mut Host, event: AcquireEvent, now: Timestamp) -> (res:
        AcquireAction)
        requires
            old(self).wf(),
            old(host).wf(),
            old(self).stage is Profile ==> old(host).can_expire(now),
            old(self).accepts(event),
        ensures
            final(self).wf(),
            final(host).wf(),
            acquire_step(
                *old(host),
                old(self).stage,
                event,
                now,
                *final(host),
                final(self).stage,
                res,
            ),
    {
        let mut stage = AcquireStage::Over;
        core::mem::swap(&mut self.stage, &mut stage);
        match (stage, event) {
            (AcquireStage::Next, AcquireEvent::Wake) => self.next(host, now),
            (AcquireStage::Cancel, AcquireEvent::Executed(executed)) => {
                let cancelled = host.cancelled(executed);
                match cancelled {
                    Ok(_) => {
                        assert(cancel_result(old(host).conf, executed, cancelled));
                        self.stage = AcquireStage::Start;
                        AcquireAction::Start(host.conf.start_alloc())
                    },
                    Err(e) => {
                        assert(cancel_result(old(host).conf, executed, cancelled));
                        self.stage = AcquireStage::Over;
                        AcquireAction::Return(Err(e))
                    },
                }
            },
            (AcquireStage::Start, AcquireEvent::Executed(executed)) => self.started(
                host,
                executed,
                now,
            ),
            (AcquireStage::Nodes, AcquireEvent::Executed(executed)) => self.listed(
                host,
                executed,
                now,
            ),
            (AcquireStage::Profile(names), AcquireEvent::Profile(read)) => match read {
                Err(reason) => {
                    self.stage = AcquireStage::Over;
                    AcquireAction::Return(Err(Error::SshConfigParse(reason)))
                },
                Ok(profile) => {
                    let connecting = Connecting {
                        profile,
                        expiration: now.plus_minutes(host.conf.alloc_duration as u64),
                        names,
                        done: 0,
                        failures: 0,
                        slots: Vec::new(),
                    };
                    let next = Acquisition::next_profile(&host.conf, &connecting);
                    self.stage = AcquireStage::Connect(connecting);
                    AcquireAction::Connect(next)
                },
            },
            (AcquireStage::Connect(connecting), AcquireEvent::Connected(connected)) => {
                match connected {
                    Some(node) => {
                        self.stage = AcquireStage::Count(connecting, node);
                        AcquireAction::Count(node, host.conf.executions_per_nodes())
                    },
                    None => {
                        if connecting.failures + 1 == ATTEMPTS {
                            self.stage = AcquireStage::Over;
                            AcquireAction::Return(
                                Err(Error::ConnectingNodes("Failed to connect nodes".to_owned())),
                            )
                        } else {
                            let profile = Acquisition::next_profile(&host.conf, &connecting);
                            let mut connecting = connecting;
                            connecting.failures = connecting.failures + 1;
                            self.stage = AcquireStage::Connect(connecting);
                            AcquireAction::Retry(profile)
                        }
                    },
                }
            },
            (AcquireStage::Count(connecting, node), AcquireEvent::Executed(executed)) => {
                self.counted(host, connecting, node, executed, now)
            },
            _ => vstd::pervasive::unreached(),
        }
    }
}

//------------------------------------------------------------------------------------ OPERATIONS
/// The operations that can be asked for on a host.
#[derive(Clone, Copy, Debug, PartialEq, Eq, Structural)]
pub enum OperationInput {
    AcquireNode,
    Abort,
    Shutdown,
}

/// What is answered.
pub enum OperationOutput {
    AcquireNode(Result<DropBack<Expire<NodeHandle>>, Error>),
    Abort(Result<(), Error>),
    Shutdown(Result<(), Error>),
}

/// How a result without a value is shown.
pub open spec fn shown_unit(result: Result<(), Error>) -> Seq<char> {
    match result {
        Ok(_) => "Ok(())"@,
        Err(e) => "Err("@ + e.shown() + ")"@,
    }
}

fn show_unit(result: &Result<(), Error>) -> (res: String)
    ensures
        res@ == shown_unit(*result),
{
    match result {
        Ok(_) => "Ok(())".to_owned(),
        Err(e) => cat3("Err(", e.show().as_str(), ")"),
    }
}

/// How a result with a value is shown, where the value is shown as given.
pub open spec fn shown_value<T>(result: Result<T, Error>, value: Seq<char>) -> Seq<char> {
    match result {
        Ok(_) => "Ok("@ + value + ")"@,
        Err(e) => "Err("@ + e.shown() + ")"@,
    }
}

fn show_value<T>(result: &Result<T, Error>, value: &str) -> (res: String)
    ensures
        res@ == shown_value(*result, value@),
{
    match result {
        Ok(_) => cat3("Ok(", value, ")"),
        Err(e) => cat3("Err(", e.show().as_str(), ")"),
    }
}

impl OperationOutput {
    /// How the answer is shown: the operation that is answered, and its result, where the value of
    /// the result is shown as given.
    pub open spec fn shown(&self, value: Seq<char>) -> Seq<char> {
        match self {
            OperationOutput::AcquireNode(result) => "AcquireNode("@ + shown_value(*result, value) + ")"@,
            OperationOutput::Abort(result) => "Abort("@ + shown_unit(*result) + ")"@,
            OperationOutput::Shutdown(result) => "Shutdown("@ + shown_unit(*result) + ")"@,
        }
    }

    /// Shows the answer.
    pub fn show(&self, value: &str) -> (res: String)
        ensures
            res@ == self.shown(value@),
    {
        match self {
            OperationOutput::AcquireNode(result) => cat3("AcquireNode(", show_value(result, value).as_str(), ")"),
            OperationOutput::Abort(result) => cat3("Abort(", show_unit(result).as_str(), ")"),
            OperationOutput::Shutdown(result) => cat3("Shutdown(", show_unit(result).as_str(), ")"),
        }
    }
}

/// An operation that was asked for, and runs.
pub enum HostTask {
    Acquire(Acquisition),
    /// The allocation is cancelled.
    Shutdown,
    Over,
}

/// What came of the last action of a task.
pub enum HostEvent {
    Acquire(AcquireEvent),
    Cancelled(Executed),
}

/// What has to be done next for a task.
pub enum HostAction {
    Acquire(AcquireAction),
    /// Execute the command that cancels the allocation on the frontend.
    Cancel(String),
    /// The operation is over: the answer is sent.
    Answer(OperationOutput),
}

/// What has to be done for the task that acquires a slot: what its acquisition asks for, or the
/// answer with what it returns.
pub open spec fn relayed(action: AcquireAction) -> HostAction {
    match action {
        AcquireAction::Return(result) => HostAction::Answer(OperationOutput::AcquireNode(result)),
        next => HostAction::Acquire(next),
    }
}

fn relay(action: AcquireAction) -> (res: HostAction)
    ensures
        res == relayed(action),
{
    match action {
        AcquireAction::Return(result) => HostAction::Answer(OperationOutput::AcquireNode(result)),
        next => HostAction::Acquire(next),
    }
}

impl HostTask {
    pub open spec fn wf(&self) -> bool {
        match self {
            HostTask::Acquire(acquisition) => acquisition.wf(),
            _ => true,
        }
    }

    /// Whether the event can come of what was asked for.
    pub open spec fn accepts(&self, event: HostEvent) -> bool {
        match (self, event) {
            (HostTask::Acquire(acquisition), HostEvent::Acquire(e)) => acquisition.accepts(e),
            (HostTask::Shutdown, HostEvent::Cancelled(_)) => true,
            _ => false,
        }
    }

    /// Starts the operation that is asked for.
    pub fn start(operation: OperationInput, host: &mut Host, now: Timestamp) -> (res: (
        HostTask,
        HostAction,
    ))
        requires
            old(host).wf(),
        ensures
            final(host).wf(),
            res.0.wf(),
            match operation {
                OperationInput::AcquireNode => exists|action: AcquireAction|
                    {
                        &&& res.0 is Acquire
                        &&& #[trigger] acquire_step(
                            *old(host),
                            AcquireStage::Next,
                            AcquireEvent::Wake,
                            now,
                            *final(host),
                            res.0->Acquire_0.stage,
                            action,
                        )
                        &&& res.1 == relayed(action)
                    },
                OperationInput::Abort => {
                    &&& final(host).conf == old(host).conf
                    &&& final(host).vars == old(host).vars
                    &&& final(host).chan@ == old(host).chan@.after_abort()
                    &&& res.0 is Over
                    &&& res.1 == HostAction::Answer(OperationOutput::Abort(Ok(())))
                },
                OperationInput::Shutdown => {
                    &&& *final(host) == *old(host)
                    &&& res.0 is Shutdown
                    &&& res.1 is Cancel
                    &&& res.1->Cancel_0@ == substituted(
                        pairs(old(host).vars.0.entries@),
                        chained(old(host).conf.cancel_alloc@),
                    )
                },
            },
    {
        match operation {
            OperationInput::AcquireNode => {
                let mut acquisition = Acquisition::start();
                let action = acquisition.step_at(host, AcquireEvent::Wake, now);
                (HostTask::Acquire(acquisition), relay(action))
            },
            OperationInput::Abort => {
                let result = host.abort();
                (HostTask::Over, HostAction::Answer(OperationOutput::Abort(result)))
            },
            OperationInput::Shutdown => (HostTask::Shutdown, HostAction::Cancel(host.cancel_command())),
        }
    }

    /// Takes what came of the last action into account at the given time, and says what has to be
    /// done next.
    pub fn step(self, host: &mut Host, event: HostEvent, now: Timestamp) -> (res: (
        HostTask,
        HostAction,
    ))
        requires
            self.wf(),
            old(host).wf(),
            self is Acquire && self->Acquire_0.stage is Profile ==> old(host).can_expire(now),
            self.accepts(event),
        ensures
            final(host).wf(),
            res.0.wf(),
            match (self, event) {
                (HostTask::Acquire(acquisition), HostEvent::Acquire(e)) => exists|
                    action: AcquireAction,
                |
                    {
                        &&& res.0 is Acquire
                        &&& #[trigger] acquire_step(
                            *old(host),
                            acquisition.stage,
                            e,
                            now,
                            *final(host),
                            res.0->Acquire_0.stage,
                            action,
                        )
                        &&& res.1 == relayed(action)
                    },
                (HostTask::Shutdown, HostEvent::Cancelled(executed)) => {
                    &&& final(host).conf == old(host).conf
                    &&& res.0 is Over
                    &&& res.1 is Answer
                    &&& res.1->Answer_0 is Shutdown
                    &&& cancel_result(old(host).conf, executed, res.1->Answer_0->Shutdown_0)
                    &&& if res.1->Answer_0->Shutdown_0 is Ok {
                        &&& final(host).vars@ == Map::<Seq<char>, Seq<char>>::empty()
                        &&& final(host).chan@ == old(host).chan@.shut()
                    } else {
                        &&& final(host).vars == old(host).vars
                        &&& final(host).chan == old(host).chan
                    }
                },
                _ => false,
            },
    {
        match (self, event) {
            (HostTask::Acquire(acquisition), HostEvent::Acquire(e)) => {
                let mut acquisition = acquisition;
                let action = acquisition.step_at(host, e, now);
                (HostTask::Acquire(acquisition), relay(action))
            },
            (HostTask::Shutdown, HostEvent::Cancelled(executed)) => {
                let result = host.shutdown(executed);
                (HostTask::Over, HostAction::Answer(OperationOutput::Shutdown(result)))
            },
            _ => vstd::pervasive::unreached(),
        }
    }
}

/// The error for an answer that is not to the operation that was asked for.
pub open spec fn is_unexpected(expected: Seq<char>, found: Seq<char>, error: Error) -> bool {
    error is OperationFetch && error->OperationFetch_0@ == "Expected "@ + expected + ", found "@
        + found
}

fn unexpected(expected: &str, found: &OperationOutput, value: &str) -> (res: Error)
    ensures
        is_unexpected(expected@, found.shown(value@), res),
{
    let mut text = cat3("Expected ", expected, ", found ");
    text.append(found.show(value).as_str());
    Error::OperationFetch(text)
}

/// What the answer to an acquisition gives. An answer that never came is an error too.
pub fn acquire_reply(answer: Result<OperationOutput, String>) -> (res: Result<
    DropBack<Expire<NodeHandle>>,
    Error,
>)
    ensures
        match answer {
            Ok(OperationOutput::AcquireNode(result)) => res == result,
            Ok(other) => res is Err && is_unexpected("AcquireNode"@, other.shown(""@), res->Err_0),
            Err(reason) => res == Err::<DropBack<Expire<NodeHandle>>, Error>(
                Error::OperationFetch(reason),
            ),
        },
{
    match answer {
        Ok(OperationOutput::AcquireNode(result)) => result,
        Ok(other) => Err(unexpected("AcquireNode", &other, "")),
        Err(reason) => Err(Error::OperationFetch(reason)),
    }
}

/// What the answer to an abort gives. An answer that never came is an error, and so is one to another
/// operation, which is shown with its value as given.
pub fn abort_reply(answer: Result<OperationOutput, String>, value: &str) -> (res: Result<(), Error>)
    ensures
        match answer {
            Ok(OperationOutput::Abort(result)) => res == result,
            Ok(other) => res is Err && is_unexpected("Abort"@, other.shown(value@), res->Err_0),
            Err(reason) => res == Err::<(), Error>(Error::OperationFetch(reason)),
        },
{
    match answer {
        Ok(OperationOutput::Abort(result)) => result,
        Ok(other) => Err(unexpected("Abort", &other, value)),
        Err(reason) => Err(Error::OperationFetch(reason)),
    }
}

/// What the answer to a shutdown gives. An answer that never came is an error, and so is one to another
/// operation, which is shown with its value as given.
pub fn shutdown_reply(answer: Result<OperationOutput, String>, value: &str) -> (res: Result<(), Error>)
    ensures
        match answer {
            Ok(OperationOutput::Shutdown(result)) => res == result,
            Ok(other) => res is Err && is_unexpected("Shutdown"@, other.shown(value@), res->Err_0),
            Err(reason) => res == Err::<(), Error>(Error::OperationFetch(reason)),
        },
{
    match answer {
        Ok(OperationOutput::Shutdown(result)) => result,
        Ok(other) => Err(unexpected("Shutdown", &other, value)),
        Err(reason) => Err(Error::OperationFetch(reason)),
    }
}

//------------------------------------------------------------------------------------------ LAWS
/// What happens to the channel of a host that is closed.
pub ghost enum Closing {
    /// It is drained.
    Drain,
    /// A slot that an execution held was dropped.
    Dropped(DropBack<Expire<NodeHandle>>),
}

/// The channel after what happened to it.
pub open spec fn after_closing(channel: ChannelView, events: Seq<Closing>) -> ChannelView
    decreases events.len(),
{
    if events.len() == 0 {
        channel
    } else {
        let before = after_closing(channel, events.drop_last());
        match events.last() {
            Closing::Drain => before.drained(),
            Closing::Dropped(slot) => before.after_drop(slot),
        }
    }
}

/// How many slots were dropped.
pub open spec fn dropped_slots(events: Seq<Closing>) -> nat
    decreases events.len(),
{
    if events.len() == 0 {
        0
    } else {
        dropped_slots(events.drop_last()) + match events.last() {
            Closing::Drain => 0nat,
            Closing::Dropped(_) => 1nat,
        }
    }
}

/// No execution is cut while the host closes: however often the channel is drained, and in whatever
/// order slots come back, the closing waits exactly as long as fewer slots were dropped than were held
/// when it began.
pub proof fn closing_waits_for_all_slots(channel: ChannelView, events: Seq<Closing>)
    requires
        channel.phase == Phase::Serving,
    ensures
        after_closing(channel, events).waits() <==> dropped_slots(events) < channel.held,
        after_closing(channel, events).held == if dropped_slots(events) < channel.held {
            (channel.held - dropped_slots(events)) as nat
        } else {
            0nat
        },
    decreases events.len(),
{
    if events.len() > 0 {
        closing_waits_for_all_slots(channel, events.drop_last());
    }
}

/// Once the host was aborted, no acquisition gives a slot any more, at whatever stage it stands, and
/// the host stays aborted. One that asks for a slot is told so.
pub proof fn aborted_for_good(
    before: Host,
    stage: AcquireStage,
    event: AcquireEvent,
    now: Timestamp,
    after: Host,
    next: AcquireStage,
    action: AcquireAction,
    slot: DropBack<Expire<NodeHandle>>,
)
    requires
        before.chan@.aborted,
        acquire_step(before, stage, event, now, after, next, action),
    ensures
        after.chan@.aborted,
        !(action is Return && action->Return_0 is Ok),
        stage is Next ==> action == AcquireAction::Return(Err(Error::Aborted)),
        before.chan@.after_drop(slot).aborted,
        before.chan@.after_abort().aborted,
        before.chan@.shut().phase == Phase::Shutdown,
{
}

/// Once the host was shut down, no acquisition gives a slot any more, at whatever stage it stands,
/// and the host stays shut down. One that asks for a slot is refused.
pub proof fn shut_down_for_good(
    before: Host,
    stage: AcquireStage,
    event: AcquireEvent,
    now: Timestamp,
    after: Host,
    next: AcquireStage,
    action: AcquireAction,
    slot: DropBack<Expire<NodeHandle>>,
)
    requires
        before.chan@.phase == Phase::Shutdown,
        acquire_step(before, stage, event, now, after, next, action),
    ensures
        after.chan@.phase == Phase::Shutdown,
        !(action is Return && action->Return_0 is Ok),
        stage is Next ==> action == AcquireAction::Return(
            Err(
                if before.chan@.aborted {
                    Error::Aborted
                } else {
                    Error::Shutdown
                },
            ),
        ),
        before.chan@.after_drop(slot).phase == Phase::Shutdown,
        before.chan@.after_abort().phase == Phase::Shutdown,
        before.chan@.shut().phase == Phase::Shutdown,
{
}

proof fn without_expired_first(channel: ChannelView, now: Timestamp)
    ensures
        match without_expired(channel, now).first() {
            ChannelMessages::Node(slot) => !slot.expired(now),
            _ => true,
        },
        without_expired(channel, now).aborted == channel.aborted,
        without_expired(channel, now).phase == channel.phase,
        without_expired(channel, now).held == channel.held,
        without_expired(channel, now).queue.len() <= channel.queue.len(),
    decreases channel.queue.len(),
{
    match channel.first() {
        ChannelMessages::Node(slot) => {
            if slot.expired(now) && channel.queue.len() > 0 {
                without_expired_first(channel.rest(), now);
            }
        },
        _ => {},
    }
}

/// A slot is given before it expires, and no slot is given twice: it leaves the channel and counts
/// as held.
pub proof fn slots_are_given_before_expiration(
    before: Host,
    now: Timestamp,
    after: Host,
    next: AcquireStage,
    action: AcquireAction,
)
    requires
        after_next(before, now, after, next, action),
        action is Return,
        action->Return_0 is Ok,
    ensures
        action->Return_0->Ok_0.inner is Some,
        !action->Return_0->Ok_0.inner->Some_0.expired(now),
        after.chan@.held == before.chan@.held + 1,
        after.chan@.queue.len() < before.chan@.queue.len(),
{
    without_expired_first(before.chan@, now);
}

/// A new allocation is started only where none was made, or where the last one was cancelled, which
/// happens only once no slot of it is left.
pub proof fn allocations_follow_each_other(
    before: Host,
    now: Timestamp,
    after: Host,
    next: AcquireStage,
    action: AcquireAction,
)
    requires
        after_next(before, now, after, next, action),
    ensures
        action is Start ==> before.chan@.phase == Phase::New,
        action is Cancel ==> before.chan@.phase == Phase::Serving && before.chan@.held == 0
            && after.chan@.queue.len() == 0,
        action is Start || action is Cancel ==> after.chan@.phase == Phase::Allocating,
{
    without_expired_first(before.chan@, now);
}

/// The variables have the values that they were set to last, and are gone once they are cleared.
pub proof fn variables_are_set_and_cleared(
    vars: &mut EnvironmentVariables,
    cleared: &mut EnvironmentVariables,
    key: String,
    value: String,
    other: Seq<char>,
    res: Option<String>,
)
    requires
        call_ensures(EnvironmentVariables::insert, (vars, key, value), res),
        call_ensures(EnvironmentVariables::clear, (cleared,), ()),
    ensures
        final(vars)@.contains_key(key@) && final(vars)@[key@] == value@,
        other != key@ ==> (final(vars)@.contains_key(other) <==> old(vars)@.contains_key(other))
            && final(vars)@[other] == old(vars)@[other],
        res is Some <==> old(vars)@.contains_key(key@),
        res is Some ==> res->Some_0@ == old(vars)@[key@],
        !final(cleared)@.contains_key(other),
{
}

/// A variable that is set stands for its value: where a text holds it once, the value is in its place
/// and nothing else changed. Several variables are put in one after the other.
pub proof fn variables_stand_for_their_values(
    vars: EnvironmentVariables,
    one: EnvironmentVariables,
    more: EnvironmentVariables,
    key: String,
    value: String,
    text: &str,
    a: Seq<char>,
    b: Seq<char>,
    res: String,
    res_one: String,
    res_more: String,
)
    requires
        call_ensures(EnvironmentVariables::substitute, (&vars, text), res),
        call_ensures(EnvironmentVariables::substitute, (&one, text), res_one),
        call_ensures(EnvironmentVariables::substitute, (&more, text), res_more),
        one.0.entries@ == seq![(key, value)],
        more.0.entries@ == vars.0.entries@.push((key, value)),
    ensures
        vars.0.entries.len() == 0 ==> res@ == text@,
        res_more@ == replaced(res@, key@, value@),
        is_placeholder(key@) && is_absent(a, key@) && is_absent(b, key@) && text@ == a + key@ + b
            ==> res_one@ == a + value@ + b,
{
    assert(pairs(more.0.entries@).drop_last() =~= pairs(vars.0.entries@));
    assert(pairs(one.0.entries@) =~= seq![(key@, value@)]);
    substitution_laws(text@, key@, value@);
    if is_placeholder(key@) && is_absent(a, key@) && is_absent(b, key@) {
        placeholder_is_replaced(a, key@, b, value@);
    }
}

/// The commands of a configuration are chained: each is executed where those before it succeeded.
pub proof fn commands_are_chained(
    conf: HostConf,
    start: String,
    nodes: String,
    cancel: String,
    count: String,
    before: String,
    execution: String,
    after: String,
)
    requires
        call_ensures(HostConf::start_alloc, (&conf,), start),
        call_ensures(HostConf::get_alloc_nodes, (&conf,), nodes),
        call_ensures(HostConf::cancel_alloc, (&conf,), cancel),
        call_ensures(HostConf::executions_per_nodes, (&conf,), count),
        call_ensures(HostConf::before_execution, (&conf,), before),
        call_ensures(HostConf::execution, (&conf,), execution),
        call_ensures(HostConf::after_execution, (&conf,), after),
    ensures
        start@ == joined(texts(conf.start_alloc@), " && "@),
        nodes@ == joined(texts(conf.get_alloc_nodes@), " && "@),
        cancel@ == joined(texts(conf.cancel_alloc@), " && "@),
        count@ == joined(texts(conf.executions_per_nodes@), " && "@),
        before@ == joined(texts(conf.before_execution@), " && "@),
        execution@ == conf.execution@,
        after@ == joined(texts(conf.after_execution@), " && "@),
{
}

/// A host configuration is read as it stands in the file, and says what it is asked for.
pub proof fn host_configuration_is_as_read(
    path: &str,
    conf: HostConf,
    read: Result<HostConf, Error>,
    name: String,
    directory: String,
)
    requires
        call_ensures(HostConf::from_file, (path, Loaded::Value(conf)), read),
        call_ensures(HostConf::get_name, (&conf,), name),
        call_ensures(HostConf::get_host_directory, (&conf,), directory),
    ensures
        read == Ok::<HostConf, Error>(conf),
        name@ == conf.name@,
        directory@ == conf.directory@,
{
}

/// A node has as many slots as were asked for. They are numbered from one on: where the execution
/// command holds `$RUNAWAY_EID` once, that of a slot holds its number in that place.
pub proof fn slots_are_numbered_from_one(
    conf: &HostConf,
    node: u64,
    count: u64,
    i: int,
    a: Seq<char>,
    b: Seq<char>,
    res: Vec<NodeHandle>,
)
    requires
        call_ensures(node_slots, (conf, node, count), res),
        0 <= i < count,
    ensures
        res.len() == count,
        res@[i].node == node,
        is_absent(a, "$RUNAWAY_EID"@) && is_absent(b, "$RUNAWAY_EID"@) ==> {
            &&& conf.execution@ == a + "$RUNAWAY_EID"@ + b ==> res@[i].execution@ == a + decimal_of(
                (i + 1) as nat,
            ) + b
            &&& joined(texts(conf.before_execution@), " && "@) == a + "$RUNAWAY_EID"@ + b
                ==> res@[i].before_execution@ == a + decimal_of((i + 1) as nat) + b
            &&& joined(texts(conf.after_execution@), " && "@) == a + "$RUNAWAY_EID"@ + b
                ==> res@[i].after_execution@ == a + decimal_of((i + 1) as nat) + b
        },
        is_absent(conf.execution@, "$RUNAWAY_EID"@) ==> res@[i].execution@ == conf.execution@,
{
    reveal_strlit("$RUNAWAY_EID");
    assert(is_slot(res@[i], *conf, node, (i + 1) as nat));
    if is_absent(a, "$RUNAWAY_EID"@) && is_absent(b, "$RUNAWAY_EID"@) {
        placeholder_is_replaced(a, "$RUNAWAY_EID"@, b, decimal_of((i + 1) as nat));
    }
    if is_absent(conf.execution@, "$RUNAWAY_EID"@) {
        placeholder_is_replaced(
            conf.execution@,
            "$RUNAWAY_EID"@,
            Seq::empty(),
            decimal_of((i + 1) as nat),
        );
    }
}

/// An abort message comes before all others. Then the channel of a new host says that no allocation
/// was made, one on which an allocation goes on that nodes are to be waited for, one that was shut
/// down that it was; and one that serves gives its slots, first come first.
pub proof fn messages_of_the_channel(channel: &mut SlotChannel, res: ChannelMessages)
    requires
        call_ensures(SlotChannel::next, (channel,), res),
    ensures
        old(channel).aborted ==> res is Abort && !final(channel).aborted && final(channel).queue@
            == old(channel).queue@ && final(channel).phase == old(channel).phase,
        !old(channel).aborted ==> {
            &&& !final(channel).aborted
            &&& old(channel).phase is New ==> res is NoAllocationsMade
                && final(channel).phase is Allocating
            &&& old(channel).phase is Allocating ==> res is WaitForNodes
                && final(channel).phase is Allocating
            &&& old(channel).phase is Shutdown ==> res is Shutdown && final(channel).phase is Shutdown
            &&& old(channel).phase is Serving && old(channel).queue.len() > 0 ==> {
                &&& res == ChannelMessages::Node(old(channel).queue@[0])
                &&& final(channel).queue@ == old(channel).queue@.skip(1)
                &&& final(channel).phase is Serving
            }
            &&& old(channel).phase is Serving && old(channel).queue.len() == 0
                && old(channel).held > 0 ==> res is Pending && final(channel).phase is Serving
            &&& old(channel).phase is Serving && old(channel).queue.len() == 0
                && old(channel).held == 0 ==> res is NoNodesLeft && final(channel).phase is Allocating
        },
        final(channel).held == old(channel).held,
{
}

/// A slot that is dropped goes behind those of the channel, unless it was consumed; one less is held.
pub proof fn slots_are_taken_back(
    channel: &mut SlotChannel,
    other: &mut SlotChannel,
    slot: Expire<NodeHandle>,
)
    requires
        call_ensures(
            SlotChannel::give_back,
            (channel, (DropBack::<Expire<NodeHandle>> { inner: Some(slot) })),
            (),
        ),
        call_ensures(
            SlotChannel::give_back,
            (other, (DropBack::<Expire<NodeHandle>> { inner: None })),
            (),
        ),
        old(channel).phase is Serving && old(channel).held > 0,
        old(other).phase is Serving && old(other).held > 0,
    ensures
        final(channel).queue@ == old(channel).queue@.push(slot),
        final(channel).held == old(channel).held - 1,
        final(channel).phase is Serving && final(channel).aborted == old(channel).aborted,
        final(other).queue@ == old(other).queue@,
        final(other).held == old(other).held - 1,
{
}

proof fn expired_are_skipped(channel: ChannelView, now: Timestamp, i: int)
    requires
        !channel.aborted,
        channel.phase is Serving,
        0 <= i <= channel.queue.len(),
        forall|j: int| 0 <= j < i ==> (#[trigger] channel.queue[j]).expired(now),
        i < channel.queue.len() ==> !channel.queue[i].expired(now),
    ensures
        without_expired(channel, now) == (ChannelView { queue: channel.queue.skip(i), ..channel }),
    decreases channel.queue.len(),
{
    if i == 0 {
        assert(channel.queue.skip(0) =~= channel.queue);
    } else {
        assert(channel.queue[0].expired(now));
        let rest = channel.rest();
        assert forall|j: int| 0 <= j < i - 1 implies (#[trigger] rest.queue[j]).expired(now) by {
            assert(rest.queue[j] == channel.queue[j + 1]);
        }
        expired_are_skipped(rest, now, i - 1);
        assert(rest.queue.skip(i - 1) =~= channel.queue.skip(i));
    }
}

/// One that asks for a slot gets the first one that has not expired, where there is one. Those before
/// it are gone, those behind it stay, and one more is held.
pub proof fn first_live_slot_is_given(
    acquisition: &mut Acquisition,
    host: &mut Host,
    now: Timestamp,
    i: int,
    res: AcquireAction,
)
    requires
        call_ensures(Acquisition::step_at, (acquisition, host, AcquireEvent::Wake, now), res),
        old(acquisition).stage is Next,
        !old(host).chan.aborted,
        old(host).chan.phase is Serving,
        0 <= i < old(host).chan.queue.len(),
        !old(host).chan.queue@[i].expired(now),
        forall|j: int| 0 <= j < i ==> (#[trigger] old(host).chan.queue@[j]).expired(now),
    ensures
        res is Return,
        res->Return_0 is Ok,
        res->Return_0->Ok_0.inner == Some(old(host).chan.queue@[i]),
        final(host).chan.queue@ == old(host).chan.queue@.skip(i + 1),
        final(host).chan.held == old(host).chan.held + 1,
{
    let queue = old(host).chan.queue@;
    expired_are_skipped(old(host).chan@, now, i);
    assert(queue.skip(i)[0] == queue[i]);
    assert(queue.skip(i).skip(1) =~= queue.skip(i + 1));
    assert(final(host).chan@.queue == queue.skip(i + 1));
}

/// Where every slot has expired, one that asks for a slot waits as long as others hold some; then the
/// allocation is cancelled. On a new host an allocation is started.
pub proof fn allocations_are_made_anew(
    acquisition: &mut Acquisition,
    host: &mut Host,
    now: Timestamp,
    res: AcquireAction,
)
    requires
        call_ensures(Acquisition::step_at, (acquisition, host, AcquireEvent::Wake, now), res),
        old(acquisition).stage is Next,
        !old(host).chan.aborted,
        forall|j: int|
            0 <= j < old(host).chan.queue.len() ==> (#[trigger] old(host).chan.queue@[j]).expired(
                now,
            ),
    ensures
        old(host).chan.phase is Serving && old(host).chan.held > 0 ==> res is Wait
            && final(acquisition).stage is Next,
        old(host).chan.phase is Serving && old(host).chan.held == 0 ==> res is Cancel
            && final(acquisition).stage is Cancel && res->Cancel_0@ == substituted(
            pairs(old(host).vars.0.entries@),
            joined(texts(old(host).conf.cancel_alloc@), " && "@),
        ),
        old(host).chan.phase is New ==> res is Start && final(acquisition).stage is Start
            && res->Start_0@ == joined(texts(old(host).conf.start_alloc@), " && "@),
        old(host).chan.phase is Allocating ==> res is Sleep && final(acquisition).stage is Next,
        old(host).chan.phase is Shutdown ==> res == AcquireAction::Return(Err(Error::Shutdown)),
{
    if old(host).chan.phase is Serving {
        expired_are_skipped(old(host).chan@, now, old(host).chan.queue.len() as int);
    }
}

/// What a started allocation wrote is kept as `$ALLOCRET`, without line feeds at its end, and the
/// nodes are then asked for. An allocation that did not exit well is an error.
pub proof fn allocation_is_kept(
    acquisition: &mut Acquisition,
    host: &mut Host,
    output: Output,
    shown: String,
    now: Timestamp,
    s: Seq<char>,
    n: nat,
    res: AcquireAction,
)
    requires
        call_ensures(
            Acquisition::step_at,
            (acquisition, host, AcquireEvent::Executed(Ok((output, shown))), now),
            res,
        ),
        old(acquisition).stage is Start,
        decode_utf8(output.stdout@) == s + Seq::new(n, |i: int| '\n'),
        s.len() == 0 || s.last() != '\n',
    ensures
        output.status.raw == 0 ==> {
            &&& res is Nodes
            &&& final(host).vars@ == old(host).vars@.insert("$ALLOCRET"@, s)
            &&& res->Nodes_0@ == substituted(
                pairs(final(host).vars.0.entries@),
                joined(texts(old(host).conf.get_alloc_nodes@), " && "@),
            )
        },
        exit_code(output.status.raw) != Some(0i32) ==> res is Return && res->Return_0 is Err
            && final(host).vars == old(host).vars,
{
    crate::text::final_newlines_are_taken_off(s, n);
    assert((0i32 & 0x7f) == 0 && ((0i32 >> 8) & 0xff) == 0) by (bit_vector);
}

/// The nodes are the lines that the command wrote, and the ssh profile of the configuration is asked
/// for.
pub proof fn nodes_are_the_lines(
    acquisition: &mut Acquisition,
    host: &mut Host,
    output: Output,
    shown: String,
    now: Timestamp,
    s: Seq<char>,
    n: nat,
    res: AcquireAction,
)
    requires
        call_ensures(
            Acquisition::step_at,
            (acquisition, host, AcquireEvent::Executed(Ok((output, shown))), now),
            res,
        ),
        old(acquisition).stage is Nodes,
        decode_utf8(output.stdout@) == s + Seq::new(n, |i: int| '\n'),
        s.len() == 0 || s.last() != '\n',
    ensures
        output.status.raw == 0 ==> {
            &&& res is Profile
            &&& res->Profile_0@ == old(host).conf.ssh_config@
            &&& final(acquisition).stage is Profile
            &&& joined(texts(final(acquisition).stage->Profile_0@), seq!['\n']) == s
            &&& forall|i: int|
                0 <= i < final(acquisition).stage->Profile_0.len() ==> !(#[trigger] texts(
                    final(acquisition).stage->Profile_0@,
                )[i]).contains('\n')
        },
        exit_code(output.status.raw) != Some(0i32) ==> res is Return && res->Return_0 is Err,
        final(host).vars == old(host).vars,
{
    crate::text::final_newlines_are_taken_off(s, n);
    crate::text::split_then_join(s, '\n');
    assert((0i32 & 0x7f) == 0 && ((0i32 >> 8) & 0xff) == 0) by (bit_vector);
}

/// Every node is connected to as the user and on the port of the ssh profile, under a name that is
/// made of the name of the profile and that of the node.
pub proof fn nodes_are_connected_to_as_the_user(
    acquisition: &mut Acquisition,
    host: &mut Host,
    event: AcquireEvent,
    now: Timestamp,
    a: Seq<char>,
    b: Seq<char>,
    res: AcquireAction,
)
    requires
        call_ensures(Acquisition::step_at, (acquisition, host, event, now), res),
        res is Connect || res is Retry,
    ensures
        final(acquisition).stage is Connect,
        ({
            let connecting = final(acquisition).stage->Connect_0;
            let node = connecting.names@[connecting.done as int]@;
            let profile = if res is Connect {
                res->Connect_0
            } else {
                res->Retry_0
            };
            &&& profile.user == connecting.profile.user
            &&& profile.port == connecting.profile.port
            &&& profile.name == connecting.profile.name
            &&& profile.hostname is Some
            &&& profile.hostname->Some_0@ == connecting.profile.name@ + "::"@ + node
            &&& profile.proxycommand is Some
            &&& is_absent(a, "$NODENAME"@) && is_absent(b, "$NODENAME"@)
                && old(host).conf.node_proxy_command@ == a + "$NODENAME"@ + b
                ==> profile.proxycommand->Some_0@ == a + node + b
        }),
        event is Profile ==> final(acquisition).stage->Connect_0.profile == event->Profile_0->Ok_0,
        old(acquisition).stage is Connect ==> final(acquisition).stage->Connect_0.profile == old(
            acquisition,
        ).stage->Connect_0.profile,
        old(acquisition).stage is Count ==> final(acquisition).stage->Connect_0.profile == old(
            acquisition,
        ).stage->Count_0.profile,
{
    reveal_strlit("$NODENAME");
    let connecting = final(acquisition).stage->Connect_0;
    if is_absent(a, "$NODENAME"@) && is_absent(b, "$NODENAME"@) {
        placeholder_is_replaced(
            a,
            "$NODENAME"@,
            b,
            connecting.names@[connecting.done as int]@,
        );
    }
}

/// The slots of an allocation expire once its duration is over, counted from the moment at which the
/// ssh profile was read; the nodes that were listed are connected to from the first one on.
pub proof fn slots_expire_after_the_duration(
    acquisition: &mut Acquisition,
    host: &mut Host,
    profile: SshProfile,
    now: Timestamp,
    res: AcquireAction,
)
    requires
        call_ensures(
            Acquisition::step_at,
            (acquisition, host, AcquireEvent::Profile(Ok(profile)), now),
            res,
        ),
        old(acquisition).stage is Profile,
    ensures
        res is Connect,
        final(acquisition).stage is Connect,
        final(acquisition).stage->Connect_0.expiration.secs == now.secs
            + old(host).conf.alloc_duration * 60,
        final(acquisition).stage->Connect_0.expiration.nanos == now.nanos,
        final(acquisition).stage->Connect_0.names@ == old(acquisition).stage->Profile_0@,
        final(acquisition).stage->Connect_0.done == 0,
        final(acquisition).stage->Connect_0.slots.len() == 0,
{
}

/// A node is tried nine times. Once it is connected to, its executions are counted on it.
pub proof fn connections_are_tried_nine_times(
    acquisition: &mut Acquisition,
    host: &mut Host,
    connected: Option<u64>,
    now: Timestamp,
    res: AcquireAction,
)
    requires
        call_ensures(
            Acquisition::step_at,
            (acquisition, host, AcquireEvent::Connected(connected), now),
            res,
        ),
        old(acquisition).stage is Connect,
        old(acquisition).wf(),
    ensures
        ({
            let before = old(acquisition).stage->Connect_0;
            &&& connected is Some ==> {
                &&& res is Count
                &&& res->Count_0 == connected->Some_0
                &&& res->Count_1@ == joined(
                    texts(old(host).conf.executions_per_nodes@),
                    " && "@,
                )
                &&& final(acquisition).stage == AcquireStage::Count(before, connected->Some_0)
            }
            &&& connected is None && before.failures < 8 ==> {
                &&& res is Retry
                &&& final(acquisition).stage is Connect
                &&& final(acquisition).stage->Connect_0.failures == before.failures + 1
                &&& final(acquisition).stage->Connect_0.done == before.done
                &&& final(acquisition).stage->Connect_0.names == before.names
                &&& final(acquisition).stage->Connect_0.slots == before.slots
            }
            &&& connected is None && before.failures == 8 ==> res is Return && res->Return_0 is Err
        }),
{
}

/// A node has as many slots as its count says; they are put behind those of the nodes before it, and
/// the next node is connected to.
pub proof fn slots_are_gathered_node_by_node(
    acquisition: &mut Acquisition,
    host: &mut Host,
    output: Output,
    shown: String,
    count: u64,
    now: Timestamp,
    i: int,
    res: AcquireAction,
)
    requires
        call_ensures(
            Acquisition::step_at,
            (acquisition, host, AcquireEvent::Executed(Ok((output, shown))), now),
            res,
        ),
        old(acquisition).stage is Count,
        old(acquisition).stage->Count_0.done + 1 < old(acquisition).stage->Count_0.names.len(),
        decode_utf8(output.stdout@) == decimal_of(count as nat).push('\n'),
    ensures
        res is Connect,
        final(acquisition).stage is Connect,
        ({
            let before = old(acquisition).stage->Count_0;
            let after = final(acquisition).stage->Connect_0;
            let n = before.slots.len() as int;
            &&& after.slots.len() == n + count
            &&& after.slots@.take(n) == before.slots@
            &&& 0 <= i < count ==> {
                &&& after.slots@[n + i].node == old(acquisition).stage->Count_1
                &&& after.slots@[n + i].execution@ == replaced(
                    old(host).conf.execution@,
                    "$RUNAWAY_EID"@,
                    decimal_of((i + 1) as nat),
                )
            }
            &&& after.done == before.done + 1
            &&& after.names@ == before.names@
            &&& after.expiration == before.expiration
            &&& after.failures == 0
        }),
{
    let before = old(acquisition).stage->Count_0;
    let after = final(acquisition).stage->Connect_0;
    let digits = decimal_of(count as nat);
    counted_is_parsed(digits, count);
    let executed: Executed = Ok((output, shown));
    assert(written(executed) == digits);
    let n = before.slots.len() as int;
    let slots = choose|slots: Seq<NodeHandle>| #[trigger]
        are_slots(slots, old(host).conf, old(acquisition).stage->Count_1, count)
            && after.slots@ == before.slots@ + slots;
    assert(after.slots@.take(n) =~= before.slots@);
    if 0 <= i < count {
        assert(after.slots@[n + i] == slots[i]);
        assert(is_slot(slots[i], old(host).conf, old(acquisition).stage->Count_1, (i + 1) as nat));
    }
}

proof fn counted_is_parsed(digits: Seq<char>, count: u64)
    requires
        digits == decimal_of(count as nat),
    ensures
        without_final_newlines(digits.push('\n')) == digits,
        parsed_u64(digits) == Some(count),
{
    crate::text::decimal_then_parse(count);
    crate::text::numbers_hold_digits_only(count as int, '\n');
    assert(digits.push('\n').drop_last() =~= digits);
    if digits.len() > 0 {
        assert(digits.contains(digits.last()));
    }
    assert(without_final_newlines(digits) == digits);
}

/// A cancellation succeeds if and only if its command exited with code zero: the variables are then
/// cleared. A host that is shut down by it has no slots left.
pub proof fn cancellation_clears_the_variables(
    host: &mut Host,
    stopped: &mut Host,
    executed: Executed,
    res: Result<(), Error>,
    res_stopped: Result<(), Error>,
)
    requires
        call_ensures(Host::cancelled, (host, executed), res),
        call_ensures(Host::shutdown, (stopped, executed), res_stopped),
    ensures
        res is Ok <==> executed is Ok && exit_code(executed->Ok_0.0.status.raw) == Some(0i32),
        res_stopped is Ok <==> executed is Ok && exit_code(executed->Ok_0.0.status.raw) == Some(0i32),
        res is Ok ==> final(host).vars@ == Map::<Seq<char>, Seq<char>>::empty(),
        res is Err ==> final(host).vars == old(host).vars,
        final(host).chan == old(host).chan,
        res_stopped is Ok ==> final(stopped).chan.phase is Shutdown && !final(stopped).chan.aborted
            && final(stopped).chan.queue.len() == 0,
        res_stopped is Err ==> final(stopped).chan == old(stopped).chan && final(stopped).vars == old(
            stopped,
        ).vars,
{
}

/// An abort puts its message before all others and changes nothing else. The command that cancels the
/// allocation is that of the configuration, with the variables in it. A new host has neither slots nor
/// variables.
pub proof fn host_is_aborted_and_cancelled(
    host: &mut Host,
    conf: HostConf,
    fresh: Host,
    aborted: Result<(), Error>,
    cancel: String,
    now: Timestamp,
    expires: bool,
)
    requires
        call_ensures(Host::abort, (host,), aborted),
        call_ensures(Host::from_conf, (conf,), fresh),
        call_ensures(Host::cancel_command, (old(host),), cancel),
        call_ensures(Host::expires, (&fresh, now), expires),
    ensures
        aborted is Ok,
        final(host).chan.aborted,
        final(host).chan.phase == old(host).chan.phase,
        final(host).chan.queue@ == old(host).chan.queue@,
        final(host).chan.held == old(host).chan.held,
        final(host).vars == old(host).vars,
        fresh.conf == conf && fresh.chan.phase is New && !fresh.chan.aborted,
        fresh.chan.queue.len() == 0 && fresh.chan.held == 0,
        fresh.vars@ == Map::<Seq<char>, Seq<char>>::empty(),
        cancel@ == substituted(
            pairs(old(host).vars.0.entries@),
            joined(texts(old(host).conf.cancel_alloc@), " && "@),
        ),
        expires <==> now.secs + conf.alloc_duration * 60 <= 8_210_266_876_799,
{
    assert(final(host).chan@.aborted);
    assert(final(host).chan@.queue == old(host).chan@.queue);
    assert(final(host).chan@.held == old(host).chan@.held);
}

/// A host that closes waits for the slots that are held, and then cancels its allocation, unless it
/// was shut down and no allocation was started since.
pub proof fn closing_host_cancels_its_allocation(host: &mut Host, res: Drained)
    requires
        call_ensures(Host::drain, (host,), res),
    ensures
        res is Wait <==> old(host).chan.phase is Serving && old(host).chan.held > 0,
        res is Done <==> old(host).chan.phase is Shutdown && old(host).vars.0.entries.len() == 0,
        res is Cancel ==> res->Cancel_0@ == substituted(
            pairs(old(host).vars.0.entries@),
            joined(texts(old(host).conf.cancel_alloc@), " && "@),
        ),
        old(host).chan.phase is Serving ==> final(host).chan.queue.len() == 0
            && final(host).chan.held == old(host).chan.held,
        !final(host).chan.aborted,
        final(host).vars == old(host).vars,
{
    assert(final(host).chan@.held == old(host).chan@.drained().held);
    assert(final(host).chan@.queue == old(host).chan@.drained().queue);
}

/// An operation on a host does what was asked for: an abort aborts it, a shutdown cancels the
/// allocation first, and a slot that is there is answered at once.
pub proof fn operations_on_a_host(
    aborted: &mut Host,
    stopped: &mut Host,
    asked: &mut Host,
    now: Timestamp,
    abort: (HostTask, HostAction),
    stop: (HostTask, HostAction),
    slot: (HostTask, HostAction),
)
    requires
        call_ensures(HostTask::start, (OperationInput::Abort, aborted, now), abort),
        call_ensures(HostTask::start, (OperationInput::Shutdown, stopped, now), stop),
        call_ensures(HostTask::start, (OperationInput::AcquireNode, asked, now), slot),
        !old(asked).chan.aborted,
        old(asked).chan.phase is Serving,
        old(asked).chan.queue.len() > 0,
        !old(asked).chan.queue@[0].expired(now),
    ensures
        final(aborted).chan.aborted,
        abort.0 is Over && abort.1 is Answer && abort.1->Answer_0 is Abort
            && abort.1->Answer_0->Abort_0 is Ok,
        *final(stopped) == *old(stopped),
        stop.0 is Shutdown && stop.1 is Cancel,
        slot.1 is Answer,
        slot.1->Answer_0 is AcquireNode,
        slot.1->Answer_0->AcquireNode_0 is Ok,
        slot.1->Answer_0->AcquireNode_0->Ok_0.inner == Some(old(asked).chan.queue@[0]),
{
    assert(final(aborted).chan@.aborted);
    expired_are_skipped(old(asked).chan@, now, 0);
}

/// The end of a shutdown is answered as its cancellation went, and the host is shut down where it
/// succeeded.
pub proof fn shutdown_is_answered(
    host: &mut Host,
    executed: Executed,
    now: Timestamp,
    res: (HostTask, HostAction),
)
    requires
        call_ensures(
            HostTask::step,
            (HostTask::Shutdown, host, HostEvent::Cancelled(executed), now),
            res,
        ),
    ensures
        res.0 is Over,
        res.1 is Answer,
        res.1->Answer_0 is Shutdown,
        res.1->Answer_0->Shutdown_0 is Ok <==> executed is Ok && exit_code(
            executed->Ok_0.0.status.raw,
        ) == Some(0i32),
        res.1->Answer_0->Shutdown_0 is Ok ==> final(host).chan.phase is Shutdown,
{
    if res.1->Answer_0->Shutdown_0 is Ok {
        assert(final(host).chan@.phase is Shutdown);
    }
}

/// The answers go back to those who asked: each gets the result of its operation, and an answer to
/// another operation, or one that never came, is an error.
pub proof fn answers_go_back(
    answer: Result<OperationOutput, String>,
    value: &str,
    acquired: Result<DropBack<Expire<NodeHandle>>, Error>,
    aborted: Result<(), Error>,
    stopped: Result<(), Error>,
)
    requires
        call_ensures(acquire_reply, (answer,), acquired),
        call_ensures(abort_reply, (answer, value), aborted),
        call_ensures(shutdown_reply, (answer, value), stopped),
    ensures
        answer is Ok && answer->Ok_0 is AcquireNode ==> acquired == answer->Ok_0->AcquireNode_0,
        answer is Ok && answer->Ok_0 is Abort ==> aborted == answer->Ok_0->Abort_0,
        answer is Ok && answer->Ok_0 is Shutdown ==> stopped == answer->Ok_0->Shutdown_0,
        answer is Ok && !(answer->Ok_0 is AcquireNode) ==> acquired is Err,
        answer is Ok && !(answer->Ok_0 is Abort) ==> aborted is Err,
        answer is Ok && !(answer->Ok_0 is Shutdown) ==> stopped is Err,
        answer is Err ==> acquired is Err && acquired->Err_0 == Error::OperationFetch(answer->Err_0)
            && aborted == Err::<(), Error>(Error::OperationFetch(answer->Err_0)) && stopped == Err::<
            (),
            Error,
        >(Error::OperationFetch(answer->Err_0)),
{
}

/// An answer is shown by its operation and its result, and where another one was expected, the error
/// says which one, and shows the answer.
pub proof fn unexpected_answers_are_shown(
    answer: OperationOutput,
    value: &str,
    text: String,
    acquired: Result<DropBack<Expire<NodeHandle>>, Error>,
    aborted: Result<(), Error>,
    stopped: Result<(), Error>,
)
    requires
        call_ensures(OperationOutput::show, (&answer, value), text),
        call_ensures(
            acquire_reply,
            (Ok::<OperationOutput, String>(answer),),
            acquired,
        ),
        call_ensures(
            abort_reply,
            (Ok::<OperationOutput, String>(answer), value),
            aborted,
        ),
        call_ensures(
            shutdown_reply,
            (Ok::<OperationOutput, String>(answer), value),
            stopped,
        ),
    ensures
        !(answer is AcquireNode) ==> acquired->Err_0 is OperationFetch && acquired->Err_0->OperationFetch_0@
            == "Expected "@ + "AcquireNode"@ + ", found "@ + answer.shown(""@),
        answer is AcquireNode && answer->AcquireNode_0 is Err ==> text@ == "AcquireNode("@ + ("Err("@ + answer->AcquireNode_0->Err_0.shown()
            + ")"@) + ")"@,
        answer is AcquireNode && answer->AcquireNode_0 is Ok ==> text@ == "AcquireNode("@ + ("Ok("@ + value@ + ")"@) + ")"@,
        !(answer is Abort) ==> aborted->Err_0 is OperationFetch && aborted->Err_0->OperationFetch_0@
            == "Expected "@ + "Abort"@ + ", found "@ + text@,
        answer is Abort && answer->Abort_0 is Err ==> text@ == "Abort("@ + ("Err("@ + answer->Abort_0->Err_0.shown()
            + ")"@) + ")"@,
        answer is Abort && answer->Abort_0 is Ok ==> text@ == "Abort("@ + "Ok(())"@ + ")"@,
        !(answer is Shutdown) ==> stopped->Err_0 is OperationFetch && stopped->Err_0->OperationFetch_0@
            == "Expected "@ + "Shutdown"@ + ", found "@ + text@,
        answer is Shutdown && answer->Shutdown_0 is Err ==> text@ == "Shutdown("@ + ("Err("@ + answer->Shutdown_0->Err_0.shown()
            + ")"@) + ")"@,
        answer is Shutdown && answer->Shutdown_0 is Ok ==> text@ == "Shutdown("@ + "Ok(())"@ + ")"@,
{
}

/// A host configuration that could not be read or written is an error that names the file.
pub proof fn lost_configurations_are_told(
    conf: HostConf,
    path: &str,
    reason: String,
    unopened: Result<HostConf, Error>,
    unparsed: Result<HostConf, Error>,
    written: Stored,
    stored: Result<(), Error>,
)
    requires
        call_ensures(HostConf::from_file, (path, Loaded::<HostConf>::Unopened), unopened),
        call_ensures(HostConf::from_file, (path, Loaded::<HostConf>::Unparsed(reason)), unparsed),
        call_ensures(HostConf::to_file, (&conf, path, written), stored),
    ensures
        unopened is Err && unopened->Err_0.text() == "An error occurred while reading the host: \n"@
            + ("Failed to open host configuration file "@ + path@),
        unparsed is Err && unparsed->Err_0.text() == "An error occurred while reading the host: \n"@
            + ("Failed to parse host configuration file "@ + path@ + ": \n"@ + reason@),
        stored is Ok <==> written is Done,
        written is Unopened ==> stored->Err_0.text()
            == "An error occurred while writing the host: \n"@ + (
        "Failed to open host configuration file "@ + path@),
        written is Unwritten ==> stored->Err_0.text()
            == "An error occurred while writing the host: \n"@ + (
        "Failed to write host configuration file "@ + path@),
{
}

/// A command of an acquisition that fails ends it: the error says what failed on which profile, and
/// shows the output, or gives the reason why the command could not be executed.
pub proof fn failed_commands_are_told(
    acquisition: &mut Acquisition,
    host: &mut Host,
    executed: Executed,
    now: Timestamp,
    res: AcquireAction,
)
    requires
        call_ensures(
            Acquisition::step_at,
            (acquisition, host, AcquireEvent::Executed(executed), now),
            res,
        ),
        old(acquisition).stage is Cancel || old(acquisition).stage is Start
            || old(acquisition).stage is Nodes,
        executed is Ok ==> exit_code(executed->Ok_0.0.status.raw) != Some(0i32),
    ensures
        res is Return && res->Return_0 is Err && res->Return_0->Err_0 is AllocationFailed,
        ({
            let text = res->Return_0->Err_0->AllocationFailed_0@;
            let name = old(host).conf.name@;
            let shown = executed->Ok_0.1@;
            let reason = executed->Err_0@;
            &&& old(acquisition).stage is Cancel && executed is Ok ==> text
                == "Failed to cancel allocation on profile "@ + name + ": "@ + shown
            &&& old(acquisition).stage is Start && executed is Ok ==> text
                == "Failed to obtain allocation on profile "@ + name + ": "@ + shown
            &&& old(acquisition).stage is Nodes && executed is Ok ==> text
                == "Failed to get node on profile "@ + name + ": "@ + shown
            &&& old(acquisition).stage is Cancel && executed is Err ==> text
                == "Failed to cancel allocation: "@ + reason
            &&& old(acquisition).stage is Start && executed is Err ==> text
                == "Failed to allocate: "@ + reason
            &&& old(acquisition).stage is Nodes && executed is Err ==> text
                == "Failed to get nodes: "@ + reason
        }),
{
}

/// A copy of a host configuration holds what the configuration holds.
pub proof fn copied_configuration_is_the_same(conf: HostConf, res: HostConf)
    requires
        call_ensures(HostConf::clone, (&conf,), res),
    ensures
        res.name == conf.name,
        res.ssh_config == conf.ssh_config,
        res.node_proxy_command == conf.node_proxy_command,
        res.start_alloc@ == conf.start_alloc@,
        res.get_alloc_nodes@ == conf.get_alloc_nodes@,
        res.cancel_alloc@ == conf.cancel_alloc@,
        res.alloc_duration == conf.alloc_duration,
        res.executions_per_nodes@ == conf.executions_per_nodes@,
        res.directory == conf.directory,
        res.before_execution@ == conf.before_execution@,
        res.execution == conf.execution,
        res.after_execution@ == conf.after_execution@,
{
}

/// Once the last node was counted, the slots of all nodes are with the channel, but for the first one,
/// which is given to the one who asked: none is lost, and their order is kept.
pub proof fn every_slot_is_provided(
    acquisition: &mut Acquisition,
    host: &mut Host,
    output: Output,
    shown: String,
    count: u64,
    now: Timestamp,
    i: int,
    res: AcquireAction,
)
    requires
        call_ensures(
            Acquisition::step_at,
            (acquisition, host, AcquireEvent::Executed(Ok((output, shown))), now),
            res,
        ),
        old(acquisition).stage is Count,
        old(acquisition).stage->Count_0.done + 1 == old(acquisition).stage->Count_0.names.len(),
        old(acquisition).stage->Count_0.slots.len() > 0,
        decode_utf8(output.stdout@) == decimal_of(count as nat).push('\n'),
        !old(host).chan.aborted,
        !(old(host).chan.phase is Shutdown),
        !now.is_after(old(acquisition).stage->Count_0.expiration),
    ensures
        ({
            let before = old(acquisition).stage->Count_0.slots@;
            let queue = final(host).chan.queue@;
            let n = before.len() as int;
            &&& res is Return
            &&& res->Return_0 is Ok
            &&& res->Return_0->Ok_0.inner is Some
            &&& res->Return_0->Ok_0.inner->Some_0.inner == before[0]
            &&& res->Return_0->Ok_0.inner->Some_0.expiration
                == old(acquisition).stage->Count_0.expiration
            &&& queue.len() == n - 1 + count
            &&& final(host).chan.held == 1
            &&& final(host).chan.phase is Serving
            &&& 0 <= i < queue.len() ==> queue[i].expiration
                == old(acquisition).stage->Count_0.expiration
            &&& 0 <= i < n - 1 ==> queue[i].inner == before[i + 1]
            &&& n - 1 <= i < queue.len() ==> {
                &&& queue[i].inner.node == old(acquisition).stage->Count_1
                &&& queue[i].inner.execution@ == replaced(
                    old(host).conf.execution@,
                    "$RUNAWAY_EID"@,
                    decimal_of((i - (n - 1) + 1) as nat),
                )
            }
        }),
{
    let connecting = old(acquisition).stage->Count_0;
    let node = old(acquisition).stage->Count_1;
    let before = connecting.slots@;
    let n = before.len() as int;
    let digits = decimal_of(count as nat);
    counted_is_parsed(digits, count);
    let executed: Executed = Ok((output, shown));
    assert(written(executed) == digits);
    let slots = choose|slots: Seq<NodeHandle>| #[trigger]
        are_slots(slots, old(host).conf, node, count) && exists|filled: Host|
            filled.conf == old(host).conf && filled.vars == old(host).vars && filled.chan@
                == old(host).chan@.filled(expiring(before + slots, connecting.expiration))
                && #[trigger] after_next(
                filled,
                now,
                *final(host),
                final(acquisition).stage,
                res,
            );
    let filled = choose|filled: Host|
        filled.conf == old(host).conf && filled.vars == old(host).vars && filled.chan@
            == old(host).chan@.filled(expiring(before + slots, connecting.expiration))
            && #[trigger] after_next(filled, now, *final(host), final(acquisition).stage, res);
    let all = before + slots;
    let queue = expiring(all, connecting.expiration);
    assert(filled.chan@.queue == queue);
    assert(!queue[0].expired(now));
    expired_are_skipped(filled.chan@, now, 0);
    assert(queue.skip(0) =~= queue);
    let left = final(host).chan.queue@;
    assert(final(host).chan@.queue == queue.skip(1));
    assert(final(host).chan@.held == 1);
    if 0 <= i < left.len() {
        assert(left[i] == queue[i + 1]);
        assert(left[i].inner == all[i + 1]);
        if i >= n - 1 {
            assert(all[i + 1] == slots[i + 1 - n]);
            assert(is_slot(slots[i + 1 - n], old(host).conf, node, (i + 1 - n + 1) as nat));
        }
    }
}

/// What an acquisition asks for is handed on by its task.
pub proof fn tasks_hand_on_what_is_asked(
    acquisition: Acquisition,
    host: &mut Host,
    event: AcquireEvent,
    now: Timestamp,
    res: (HostTask, HostAction),
)
    requires
        call_ensures(
            HostTask::step,
            (HostTask::Acquire(acquisition), host, HostEvent::Acquire(event), now),
            res,
        ),
    ensures
        res.0 is Acquire,
        res.1 is Answer ==> res.1->Answer_0 is AcquireNode,
        res.1 is Acquire ==> !(res.1->Acquire_0 is Return),
        acquisition.stage is Connect && event is Connected && event->Connected_0 is Some ==> {
            &&& res.1 is Acquire
            &&& res.1->Acquire_0 is Count
            &&& res.1->Acquire_0->Count_0 == event->Connected_0->Some_0
        },
        acquisition.stage is Next && event is Wake && old(host).chan.aborted ==> {
            &&& res.1 is Answer
            &&& res.1->Answer_0->AcquireNode_0 is Err
            &&& res.1->Answer_0->AcquireNode_0->Err_0 is Aborted
        },
{
}

/// Whatever the commands are, those of a slot hold its number in the place of every `$RUNAWAY_EID`.
pub proof fn every_slot_number_is_put_in(
    conf: &HostConf,
    node: u64,
    count: u64,
    i: int,
    res: Vec<NodeHandle>,
)
    requires
        call_ensures(node_slots, (conf, node, count), res),
        0 <= i < count,
    ensures
        res@[i].before_execution@ == replaced(
            joined(texts(conf.before_execution@), " && "@),
            "$RUNAWAY_EID"@,
            decimal_of((i + 1) as nat),
        ),
        res@[i].execution@ == replaced(
            conf.execution@,
            "$RUNAWAY_EID"@,
            decimal_of((i + 1) as nat),
        ),
        res@[i].after_execution@ == replaced(
            joined(texts(conf.after_execution@), " && "@),
            "$RUNAWAY_EID"@,
            decimal_of((i + 1) as nat),
        ),
{
    assert(is_slot(res@[i], *conf, node, (i + 1) as nat));
}

} // verus!
