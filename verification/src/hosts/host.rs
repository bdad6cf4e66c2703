//! The host: how nodes are acquired on it, and how it is aborted and shut down.
//!
//! A host is responsible for a few key scheduling aspects:
//!     + Expiration of the allocation. When every handle of an allocation has expired and came
//!       back, the allocation is cancelled and a new one is started, provided that a node is asked
//!       for.
//!     + Management of the limited slots of the nodes. A handle is held by one user at a time.
//!     + Management of abort. Once aborted, a host delivers no more handles.
//!     + Management of shutdown. The allocation is cancelled right away.
use vstd::prelude::*;
#[allow(unused_imports)]
use vstd::string::*;
#[allow(unused_imports)]
use crate::commons::TerminalContext;
use crate::hosts::provider::{self, Provider, Pulled, Pushed};
#[allow(unused_imports)]
use crate::hosts::provider::{ProviderView, expiring};
use crate::hosts::{
    Error, HostConf, NodeHandle, Ran, allocate_nodes, cancel_allocation, extract_nodes,
    front_to_node_context, node_profile, spawn_handles,
};
#[allow(unused_imports)]
use crate::hosts::{
    is_context_with, is_failed_allocation, is_node_profile, is_sound, ran_output, spawned_handles,
};
#[allow(unused_imports)]
use crate::commons::{Output, output_views};
#[allow(unused_imports)]
use crate::misc::{compacted, debug_text, retry_n};
#[allow(unused_imports)]
use crate::primitives::{DropBack, Expire, LAST_SECOND, Timestamp, output_result};
use crate::ssh::config::SshProfile;
#[allow(unused_imports)]
use crate::text::{cat, cat3, copies, split_on, texts};

verus! {

/// How often the connection to a node is tried.
pub const SPAWN_ATTEMPTS: usize = 10;

//------------------------------------------------------------------------------------------ HOST
/// The executor of a host configuration. It provides handles to the nodes of the host.
pub struct Host {
    pub conf: HostConf,
    pub profile: SshProfile,
    pub provider: Provider<NodeHandle>,
    /// The context on the frontend, as the last procedure left it.
    pub context: TerminalContext,
}

impl Host {
    /// The provider and the context are well formed.
    pub open spec fn wf(&self) -> bool {
        self.provider.wf() && self.context.wf()
    }

    /// Whether handles that are allocated at the given time expire before the end of the calendar.
    pub open spec fn can_expire(&self, now: Timestamp) -> bool {
        now.secs + self.conf.allocation_duration * 60 <= LAST_SECOND
    }

    /// Tells whether handles that are allocated at the given time expire before the end of the
    /// calendar.
    pub fn expires(&self, now: Timestamp) -> (res: bool)
        ensures
            res == self.can_expire(now),
    {
        let end: i128 = now.secs as i128 + self.conf.allocation_duration as i128 * 60;
        end <= LAST_SECOND as i128
    }

    /// Whether nothing but the provider and the context changed.
    pub open spec fn same_setup(&self, other: &Host) -> bool {
        self.conf == other.conf && self.profile == other.profile
    }

    /// Builds a host from a configuration. The path of the executions is set in the context.
    pub fn from_conf(conf: HostConf, profile: SshProfile, context: TerminalContext) -> (res: Host)
        requires
            context.wf(),
        ensures
            res.wf(),
            res.conf == conf,
            res.profile == profile,
            is_context_with(res.context, context, "RUNAWAY_PATH"@, conf.directory@),
            res.provider@ == (ProviderView::<NodeHandle> {
                fresh: true,
                shut: false,
                queue: Seq::empty(),
                held: 0,
            }),
    {
        let mut context = context;
        context.envs.insert("RUNAWAY_PATH".to_owned(), conf.directory.clone());
        Host { conf, profile, provider: Provider::new(), context }
    }

    /// Triggers abort. Every node acquisition will return an error after that.
    pub fn abort(&mut self) -> (res: Result<(), Error>)
        requires
            old(self).wf(),
        ensures
            final(self).wf(),
            final(self).same_setup(old(self)),
            final(self).context == old(self).context,
            final(self).provider@ == old(self).provider@.after_shutdown(),
            res == Ok::<(), Error>(()),
    {
        self.provider.shutdown();
        Ok(())
    }

    /// Triggers shutdown. Every node acquisition will return an error after that, and the
    /// allocation is to be cancelled right away, by the procedure that is given back.
    pub fn shutdown(&mut self) -> (res: (TerminalContext, Vec<String>))
        requires
            old(self).wf(),
        ensures
            final(self).wf(),
            final(self).same_setup(old(self)),
            final(self).context == old(self).context,
            final(self).provider@ == old(self).provider@.after_shutdown(),
            res.0.same_as(&old(self).context),
            res.1@ == old(self).conf.cancel_allocation@,
    {
        self.provider.shutdown();
        (self.context.clone(), copies(&self.conf.cancel_allocation))
    }

    /// Ends a cancellation of the allocation, whatever it was started for.
    pub fn cancelled(&mut self, ran: Ran) -> (res: Result<(), Error>)
        requires
            old(self).wf(),
            is_sound(ran, old(self).conf.cancel_allocation.len() as nat),
        ensures
            final(self).wf(),
            final(self).same_setup(old(self)),
            final(self).provider == old(self).provider,
            match ran {
                Err(reason) => res is Err && is_failed_allocation(
                    res->Err_0,
                    "Failed to cancel allocation: "@ + reason@,
                ) && final(self).context == old(self).context,
                Ok((context, _)) => match output_result(ran_output(ran)) {
                    Ok(_) => res is Ok && final(self).context == context,
                    Err(text) => res is Err && is_failed_allocation(
                        res->Err_0,
                        "Cancel allocation command failed: "@ + text,
                    ) && final(self).context == old(self).context,
                },
            },
    {
        match cancel_allocation(ran) {
            Ok(context) => {
                self.context = context;
                Ok(())
            },
            Err(e) => Err(e),
        }
    }

    /// Whether the host that closes cancels the allocation: its users dropped all handles.
    pub open spec fn closes(&self) -> bool {
        self.provider@.held == 0
    }

    /// Closes the host when its last user is gone: the handles are collected. Once the users
    /// dropped them all, the procedure that cancels the allocation is given back.
    pub fn close(&mut self) -> (res: Option<(TerminalContext, Vec<String>)>)
        requires
            old(self).wf(),
        ensures
            final(self).wf(),
            final(self).same_setup(old(self)),
            final(self).context == old(self).context,
            final(self).provider@ == (ProviderView {
                shut: true,
                queue: Seq::empty(),
                ..old(self).provider@
            }),
            res is Some <==> old(self).closes(),
            res is Some ==> res->Some_0.0.same_as(&old(self).context) && res->Some_0.1@ == old(
                self,
            ).conf.cancel_allocation@,
    {
        self.provider.shutdown();
        let all = self.provider.collect();
        if all {
            Some((self.context.clone(), copies(&self.conf.cancel_allocation)))
        } else {
            None
        }
    }
}

//----------------------------------------------------------------------------------- ACQUISITION
/// Where the acquisition of a node stands.
pub enum AcquireStage {
    /// A handle is pulled, or waited for.
    Pull,
    /// The last allocation is cancelled.
    Cancel,
    /// An allocation is started.
    Start,
    /// The connections to the nodes are made, one after the other.
    Spawn(Spawning),
    /// The handles of the nodes are queried, one after the other.
    Query(Querying),
    /// The handles, which expire at the given time, wait to be pushed to the provider.
    Push(Vec<NodeHandle>, Timestamp),
    Over,
}

/// The nodes that are connected to.
pub struct Spawning {
    /// The ids of the nodes.
    pub ids: Vec<String>,
    /// The nodes that were handled: the connection, or why there is none.
    pub nodes: Vec<u64>,
    /// How many nodes were handled.
    pub done: usize,
    /// Which attempt is made for the next one, counted from one.
    pub attempt: usize,
    /// The first failure.
    pub failure: Option<Error>,
}

/// The nodes whose handles are queried.
pub struct Querying {
    pub ids: Vec<String>,
    pub nodes: Vec<u64>,
    /// How many nodes were handled.
    pub done: usize,
    /// The handles of the nodes that were handled, node by node.
    pub handles: Vec<NodeHandle>,
    /// The first failure.
    pub failure: Option<Error>,
}

/// What came of the last action.
pub enum AcquireEvent {
    /// A node is asked for, or a handle was dropped while one was waited for.
    Wake,
    /// A procedure was run.
    Ran(Ran),
    /// The connection to a node was made, under the given number, or not.
    Spawned(Result<u64, String>),
}

/// What has to be done next.
pub enum AcquireAction {
    /// Wait for a handle to be dropped.
    Wait,
    /// Run the commands that cancel the allocation on the frontend, in the given context.
    Cancel(TerminalContext, Vec<String>),
    /// Run the commands that start an allocation on the frontend, in the given context.
    Start(TerminalContext, Vec<String>),
    /// Connect to a node.
    Spawn(SshProfile),
    /// Run the commands that get the handles of a node on it, in the given context.
    Query(u64, TerminalContext, Vec<String>),
    Return(Result<DropBack<Expire<NodeHandle>>, Error>),
}

impl Spawning {
    pub open spec fn wf(&self) -> bool {
        &&& self.done < self.ids.len()
        &&& 1 <= self.attempt <= SPAWN_ATTEMPTS
        &&& self.failure is None ==> self.nodes.len() == self.done
    }
}

impl Querying {
    pub open spec fn wf(&self) -> bool {
        &&& self.done < self.ids.len()
        &&& self.nodes.len() == self.ids.len()
    }
}

/// What is done where a pull gave `pulled`.
pub open spec fn after_pull(host: Host, pulled: Pulled<NodeHandle>, stage: AcquireStage, action: AcquireAction) -> bool {
    match pulled {
        Pulled::Ready(handle) => stage is Over && action == AcquireAction::Return(Ok(handle)),
        Pulled::Pending => stage is Pull && action is Wait,
        Pulled::Failed(provider::Error::New) => stage is Start && starts(host, action),
        Pulled::Failed(provider::Error::Empty) => stage is Cancel && cancels(host, action),
        Pulled::Failed(e) => stage is Over && fails(
            action,
            "Failed to acquire node: "@ + e.text(),
        ),
    }
}

/// The action starts an allocation.
pub open spec fn starts(host: Host, action: AcquireAction) -> bool {
    &&& action is Start
    &&& action->Start_0.same_as(&host.context)
    &&& action->Start_1@ == host.conf.start_allocation@
}

/// The action cancels the allocation.
pub open spec fn cancels(host: Host, action: AcquireAction) -> bool {
    &&& action is Cancel
    &&& action->Cancel_0.same_as(&host.context)
    &&& action->Cancel_1@ == host.conf.cancel_allocation@
}

/// The action ends the acquisition with a failed allocation.
pub open spec fn fails(action: AcquireAction, text: Seq<char>) -> bool {
    &&& action is Return
    &&& action->Return_0 is Err
    &&& is_failed_allocation(action->Return_0->Err_0, text)
}

/// The action connects to the next node.
pub open spec fn spawns(host: Host, spawning: Spawning, action: AcquireAction) -> bool {
    &&& action is Spawn
    &&& is_node_profile(
        action->Spawn_0,
        spawning.ids@[spawning.done as int]@,
        host.profile,
        host.conf.node_proxycommand@,
    )
}

/// The action queries the handles of the next node.
pub open spec fn queries(host: Host, querying: Querying, action: AcquireAction) -> bool {
    &&& action is Query
    &&& action->Query_0 == querying.nodes@[querying.done as int]
    &&& is_context_with(
        action->Query_1,
        host.context,
        "RUNAWAY_NODE_ID"@,
        querying.ids@[querying.done as int]@,
    )
    &&& action->Query_2@ == host.conf.get_node_handles@
}

/// What is done once an allocation was started: the context is that of the procedure, and the first
/// node is connected to.
pub open spec fn after_start(before: Host, ran: Ran, after: Host, stage: AcquireStage, action: AcquireAction) -> bool {
    match ran {
        Err(reason) => {
            &&& after.context == before.context
            &&& stage is Over
            &&& fails(action, "Failed to allocate: "@ + reason@)
        },
        Ok((context, outputs)) => match output_result(ran_output(ran)) {
            Err(text) => {
                &&& after.context == before.context
                &&& stage is Over
                &&& fails(
                    action,
                    "Failed to allocate on command "@ + debug_text(
                        before.conf.start_allocation@[outputs.len() - 1]@,
                    ) + ": "@ + text,
                )
            },
            Ok(_) => {
                &&& after.context.same_as(&context)
                &&& if context.envs@.contains_key("RUNAWAY_NODES"@) {
                    &&& stage is Spawn
                    &&& texts(stage->Spawn_0.ids@) == split_on(context.envs@["RUNAWAY_NODES"@], ' ')
                    &&& stage->Spawn_0.nodes.len() == 0
                    &&& stage->Spawn_0.done == 0
                    &&& stage->Spawn_0.attempt == 1
                    &&& stage->Spawn_0.failure is None
                    &&& spawns(after, stage->Spawn_0, action)
                } else {
                    stage is Over && fails(action, "RUNAWAY_NODES was not set."@)
                }
            },
        },
    }
}

/// The spawning once a node was handled for good.
pub open spec fn spawned(before: Spawning, result: Result<u64, String>, after: Spawning) -> bool {
    &&& after.ids@ == before.ids@
    &&& after.done == before.done + 1
    &&& after.attempt == 1
    &&& match result {
        Ok(node) => after.nodes@ == before.nodes@.push(node) && after.failure == before.failure,
        Err(reason) => {
            &&& after.nodes@ == before.nodes@
            &&& match before.failure {
                Some(_) => after.failure == before.failure,
                None => after.failure is Some && is_failed_allocation(
                    after.failure->Some_0,
                    "Failed to spawn node: "@ + reason@,
                ),
            }
        },
    }
}

/// What is done once the connection to a node was tried: it is tried again, up to ten times in
/// all; then the next node is connected to. Once all were handled, the first failure ends the
/// acquisition; without one, the handles of the first node are queried.
pub open spec fn after_spawn(
    host: Host,
    before: Spawning,
    result: Result<u64, String>,
    stage: AcquireStage,
    action: AcquireAction,
) -> bool {
    if result is Err && before.attempt != SPAWN_ATTEMPTS {
        &&& stage is Spawn
        &&& stage->Spawn_0 == Spawning { attempt: (before.attempt + 1) as usize, ..before }
        &&& spawns(host, before, action)
    } else {
        exists|after: Spawning| #[trigger]
            spawned(before, result, after) && if after.done < after.ids.len() {
                stage == AcquireStage::Spawn(after) && spawns(host, after, action)
            } else if after.failure is Some {
                &&& stage is Over
                &&& action == AcquireAction::Return(Err(after.failure->Some_0))
            } else {
                &&& stage is Query
                &&& stage->Query_0.ids@ == after.ids@
                &&& stage->Query_0.nodes@ == after.nodes@
                &&& stage->Query_0.done == 0
                &&& stage->Query_0.handles.len() == 0
                &&& stage->Query_0.failure is None
                &&& queries(host, stage->Query_0, action)
            }
    }
}

/// The querying once the handles of a node were queried.
pub open spec fn queried(before: Querying, ran: Ran, after: Querying) -> bool {
    exists|result: Result<Vec<NodeHandle>, Error>| #[trigger]
        spawned_handles(ran, before.nodes@[before.done as int], result) && {
            &&& after.ids@ == before.ids@
            &&& after.nodes@ == before.nodes@
            &&& after.done == before.done + 1
            &&& match result {
                Ok(handles) => after.handles@ == before.handles@ + handles@ && after.failure
                    == before.failure,
                Err(e) => after.handles@ == before.handles@ && after.failure == match before.failure {
                    Some(first) => Some(first),
                    None => Some(e),
                },
            }
        }
}

/// What is done once the handles of a node were queried: those of the next node are. Once all were
/// queried, the first failure ends the acquisition; without one, the handles are pushed to the
/// provider, to be issued until the duration of the allocation is over.
pub open spec fn after_query(
    before: Host,
    querying: Querying,
    ran: Ran,
    now: Timestamp,
    met: Seq<char>,
    after: Host,
    stage: AcquireStage,
    action: AcquireAction,
) -> bool {
    exists|next: Querying| #[trigger]
        queried(querying, ran, next) && if next.done < next.ids.len() {
            &&& after.provider@ == before.provider@
            &&& stage == AcquireStage::Query(next)
            &&& queries(before, next, action)
        } else if next.failure is Some {
            &&& after.provider@ == before.provider@
            &&& stage is Over
            &&& action == AcquireAction::Return(Err(next.failure->Some_0))
        } else {
            after_push(
                before,
                next.handles,
                expiration_of(before.conf, now),
                now,
                met,
                after,
                stage,
                action,
            )
        }
}

/// When the handles of an allocation that is made now expire.
pub open spec fn expiration_of(conf: HostConf, now: Timestamp) -> Timestamp {
    Timestamp { secs: (now.secs + conf.allocation_duration * 60) as i64, nanos: now.nanos }
}

/// What is done where handles are pushed to the provider. If it takes them, a handle is pulled
/// right away. If handles of the last allocation are still held, it is waited for them. A handle that
/// is met instead is an error, which shows it.
pub open spec fn after_push(
    before: Host,
    handles: Vec<NodeHandle>,
    expiration: Timestamp,
    now: Timestamp,
    met: Seq<char>,
    after: Host,
    stage: AcquireStage,
    action: AcquireAction,
) -> bool {
    let provider = before.provider@;
    if provider.queue.len() > 0 {
        &&& after.provider@ == ProviderView {
            queue: provider.queue.skip(1).push(provider.queue[0]),
            ..provider
        }
        &&& stage is Over
        &&& fails(
            action,
            "Failed to push nodes: "@ + "Provider encountered an unexpected message.\n"@
                + if provider.shut {
                "Some(ToConsume(DropBack<Some("@ + met + ")>))"@
            } else {
                "Some(Handle(DropBack<Some("@ + met + ")>))"@
            },
        )
    } else if provider.held > 0 {
        &&& after.provider@ == provider
        &&& stage == AcquireStage::Push(handles, expiration)
        &&& action is Wait
    } else if provider.shut {
        &&& after.provider@ == provider
        &&& stage is Over
        &&& fails(
            action,
            "Failed to push nodes: "@ + "Provider encountered an unexpected message.\n"@
                + "Some(Closed)"@,
        )
    } else {
        let filled = ProviderView {
            fresh: false,
            queue: expiring(handles@, expiration),
            ..provider
        };
        &&& after.provider@ == filled.after_pull(now)
        &&& after_pull(before, filled.pulled(now), stage, action)
    }
}

/// What a step of an acquisition does: how the host and the acquisition go on, and what has to be
/// done next. `met` is how the first handle of the provider is shown.
pub open spec fn acquire_step(
    before: Host,
    stage: AcquireStage,
    event: AcquireEvent,
    now: Timestamp,
    met: Seq<char>,
    after: Host,
    next: AcquireStage,
    action: AcquireAction,
) -> bool {
    &&& after.same_setup(&before)
    &&& match (stage, event) {
        (AcquireStage::Pull, AcquireEvent::Wake) => {
            &&& after.context == before.context
            &&& after.provider@ == before.provider@.after_pull(now)
            &&& after_pull(before, before.provider@.pulled(now), next, action)
        },
        (AcquireStage::Cancel, AcquireEvent::Ran(ran)) => {
            &&& after.provider@ == before.provider@
            &&& match ran {
                Err(reason) => {
                    &&& after.context == before.context
                    &&& next is Over
                    &&& fails(action, "Failed to cancel allocation: "@ + reason@)
                },
                Ok((context, _)) => match output_result(ran_output(ran)) {
                    Err(text) => {
                        &&& after.context == before.context
                        &&& next is Over
                        &&& fails(action, "Cancel allocation command failed: "@ + text)
                    },
                    Ok(_) => {
                        &&& after.context == context
                        &&& next is Start
                        &&& starts(after, action)
                    },
                },
            }
        },
        (AcquireStage::Start, AcquireEvent::Ran(ran)) => {
            &&& after.provider@ == before.provider@
            &&& after_start(before, ran, after, next, action)
        },
        (AcquireStage::Spawn(spawning), AcquireEvent::Spawned(result)) => {
            &&& after.context == before.context
            &&& after.provider@ == before.provider@
            &&& after_spawn(before, spawning, result, next, action)
        },
        (AcquireStage::Query(querying), AcquireEvent::Ran(ran)) => {
            &&& after.context == before.context
            &&& after_query(before, querying, ran, now, met, after, next, action)
        },
        (AcquireStage::Push(handles, expiration), AcquireEvent::Wake) => {
            &&& after.context == before.context
            &&& after_push(before, handles, expiration, now, met, after, next, action)
        },
        _ => false,
    }
}

/// The acquisition of a node.
pub struct Acquisition {
    pub stage: AcquireStage,
}

impl Acquisition {
    pub open spec fn wf(&self) -> bool {
        match self.stage {
            AcquireStage::Spawn(spawning) => spawning.wf(),
            AcquireStage::Query(querying) => querying.wf(),
            _ => true,
        }
    }

    /// Whether the event can come of what was asked for.
    pub open spec fn accepts(&self, host: &Host, event: AcquireEvent) -> bool {
        match (self.stage, event) {
            (AcquireStage::Pull, AcquireEvent::Wake) => true,
            (AcquireStage::Push(_, _), AcquireEvent::Wake) => true,
            (AcquireStage::Cancel, AcquireEvent::Ran(ran)) => is_sound(
                ran,
                host.conf.cancel_allocation.len() as nat,
            ),
            (AcquireStage::Start, AcquireEvent::Ran(ran)) => is_sound(
                ran,
                host.conf.start_allocation.len() as nat,
            ),
            (AcquireStage::Query(_), AcquireEvent::Ran(ran)) => is_sound(
                ran,
                host.conf.get_node_handles.len() as nat,
            ),
            (AcquireStage::Spawn(_), AcquireEvent::Spawned(_)) => true,
            _ => false,
        }
    }

    /// An acquisition, of which a handle is to be pulled first.
    pub fn start() -> (res: Acquisition)
        ensures
            res.wf(),
            res.stage == AcquireStage::Pull,
    {
        Acquisition { stage: AcquireStage::Pull }
    }

    /// Pulls a handle, and says what has to be done next.
    fn pull(&mut self, host: &mut Host, now: Timestamp) -> (res: AcquireAction)
        requires
            old(host).wf(),
        ensures
            final(host).wf(),
            final(host).same_setup(old(host)),
            final(host).context == old(host).context,
            final(host).provider@ == old(host).provider@.after_pull(now),
            final(self).wf(),
            after_pull(*old(host), old(host).provider@.pulled(now), final(self).stage, res),
    {
        match host.provider.pull_at(now) {
            Pulled::Ready(handle) => {
                self.stage = AcquireStage::Over;
                AcquireAction::Return(Ok(handle))
            },
            Pulled::Pending => {
                self.stage = AcquireStage::Pull;
                AcquireAction::Wait
            },
            Pulled::Failed(provider::Error::New) => {
                self.stage = AcquireStage::Start;
                AcquireAction::Start(host.context.clone(), copies(&host.conf.start_allocation))
            },
            Pulled::Failed(provider::Error::Empty) => {
                self.stage = AcquireStage::Cancel;
                AcquireAction::Cancel(host.context.clone(), copies(&host.conf.cancel_allocation))
            },
            Pulled::Failed(e) => {
                self.stage = AcquireStage::Over;
                let text = cat("Failed to acquire node: ", e.message().as_str());
                AcquireAction::Return(Err(Error::AllocationFailed(text)))
            },
        }
    }

    /// Pushes the handles to the provider, and says what has to be done next.
    fn push(
        &mut self,
        host: &mut Host,
        handles: Vec<NodeHandle>,
        expiration: Timestamp,
        now: Timestamp,
        met: &str,
    ) -> (res: AcquireAction)
        requires
            old(host).wf(),
        ensures
            final(host).wf(),
            final(host).same_setup(old(host)),
            final(host).context == old(host).context,
            final(self).wf(),
            after_push(
                *old(host),
                handles,
                expiration,
                now,
                met@,
                *final(host),
                final(self).stage,
                res,
            ),
    {
        match host.provider.push(handles, expiration, met) {
            Pushed::Done => self.pull(host, now),
            Pushed::Pending(handles) => {
                self.stage = AcquireStage::Push(handles, expiration);
                AcquireAction::Wait
            },
            Pushed::Failed(e) => {
                self.stage = AcquireStage::Over;
                let text = cat("Failed to push nodes: ", e.message().as_str());
                assert(text@ =~= "Failed to push nodes: "@
                    + "Provider encountered an unexpected message.\n"@
                    + e->UnexpectedMessage_0@);
                AcquireAction::Return(Err(Error::AllocationFailed(text)))
            },
        }
    }

    /// Connects to the next node.
    fn spawn(host: &Host, spawning: &Spawning) -> (res: AcquireAction)
        requires
            spawning.done < spawning.ids.len(),
        ensures
            spawns(*host, *spawning, res),
    {
        AcquireAction::Spawn(
            node_profile(
                spawning.ids[spawning.done].as_str(),
                &host.profile,
                host.conf.node_proxycommand.as_str(),
            ),
        )
    }

    /// Queries the handles of the next node.
    fn query(host: &Host, querying: &Querying) -> (res: AcquireAction)
        requires
            host.wf(),
            querying.wf(),
        ensures
            queries(*host, *querying, res),
    {
        AcquireAction::Query(
            querying.nodes[querying.done],
            front_to_node_context(querying.ids[querying.done].as_str(), &host.context),
            copies(&host.conf.get_node_handles),
        )
    }

    /// Goes on once an allocation was started.
    fn started(&mut self, host: &mut Host, ran: Ran) -> (res: AcquireAction)
        requires
            old(host).wf(),
            is_sound(ran, old(host).conf.start_allocation.len() as nat),
        ensures
            final(host).wf(),
            final(host).same_setup(old(host)),
            final(host).provider@ == old(host).provider@,
            final(self).wf(),
            after_start(*old(host), ran, *final(host), final(self).stage, res),
    {
        match allocate_nodes(&host.conf.start_allocation, ran) {
            Err(e) => {
                self.stage = AcquireStage::Over;
                AcquireAction::Return(Err(e))
            },
            Ok(context) => {
                host.context = context;
                match extract_nodes(&host.context) {
                    Err(e) => {
                        self.stage = AcquireStage::Over;
                        AcquireAction::Return(Err(e))
                    },
                    Ok(ids) => {
                        let spawning = Spawning {
                            ids,
                            nodes: Vec::new(),
                            done: 0,
                            attempt: 1,
                            failure: None,
                        };
                        let action = Acquisition::spawn(host, &spawning);
                        self.stage = AcquireStage::Spawn(spawning);
                        action
                    },
                }
            },
        }
    }

    /// Goes on once the connection to a node was tried.
    fn connected(
        &mut self,
        host: &Host,
        spawning: Spawning,
        result: Result<u64, String>,
    ) -> (res: AcquireAction)
        requires
            host.wf(),
            spawning.wf(),
        ensures
            final(self).wf(),
            after_spawn(*host, spawning, result, final(self).stage, res),
    {
        let mut next = spawning;
        match result {
            Ok(node) => {
                next.nodes.push(node);
            },
            Err(reason) => {
                if retry_n(next.attempt, SPAWN_ATTEMPTS) {
                    let action = Acquisition::spawn(host, &next);
                    next.attempt = next.attempt + 1;
                    self.stage = AcquireStage::Spawn(next);
                    return action;
                }
                if next.failure.is_none() {
                    next.failure = Some(
                        Error::AllocationFailed(cat("Failed to spawn node: ", reason.as_str())),
                    );
                }
            },
        }
        next.done = next.done + 1;
        next.attempt = 1;
        assert(spawned(spawning, result, next));
        if next.done < next.ids.len() {
            let action = Acquisition::spawn(host, &next);
            self.stage = AcquireStage::Spawn(next);
            action
        } else {
            match next.failure {
                Some(e) => {
                    self.stage = AcquireStage::Over;
                    AcquireAction::Return(Err(e))
                },
                None => {
                    let querying = Querying {
                        ids: next.ids,
                        nodes: next.nodes,
                        done: 0,
                        handles: Vec::new(),
                        failure: None,
                    };
                    let action = Acquisition::query(host, &querying);
                    self.stage = AcquireStage::Query(querying);
                    action
                },
            }
        }
    }

    /// Goes on once the handles of a node were queried.
    fn queried(
        &mut self,
        host: &mut Host,
        querying: Querying,
        ran: Ran,
        now: Timestamp,
        met: &str,
    ) -> (res: AcquireAction)
        requires
            old(host).wf(),
            querying.wf(),
            is_sound(ran, old(host).conf.get_node_handles.len() as nat),
            old(host).can_expire(now),
        ensures
            final(host).wf(),
            final(host).same_setup(old(host)),
            final(host).context == old(host).context,
            final(self).wf(),
            after_query(*old(host), querying, ran, now, met@, *final(host), final(self).stage, res),
    {
        let mut next = querying;
        let node: u64 = next.nodes[next.done];
        let handled = spawn_handles(ran, node);
        let ghost result = handled;
        match handled {
            Ok(handles) => {
                let mut handles = handles;
                next.handles.append(&mut handles);
            },
            Err(e) => {
                if next.failure.is_none() {
                    next.failure = Some(e);
                }
            },
        }
        next.done = next.done + 1;
        assert(spawned_handles(ran, querying.nodes@[querying.done as int], result));
        assert(crate::hosts::host::queried(querying, ran, next));
        if next.done < next.ids.len() {
            let action = Acquisition::query(host, &next);
            self.stage = AcquireStage::Query(next);
            action
        } else {
            match next.failure {
                Some(e) => {
                    self.stage = AcquireStage::Over;
                    AcquireAction::Return(Err(e))
                },
                None => {
                    let expiration = now.plus_minutes(host.conf.allocation_duration as u64);
                    self.push(host, next.handles, expiration, now, met)
                },
            }
        }
    }

    /// Takes what came of the last action into account at the given time, and says what has to be
    /// done next. `met` is how the first handle of the provider is shown, which an error tells.
    pub fn step_at(
        &mut self,
        host: &mut Host,
        event: AcquireEvent,
        now: Timestamp,
        met: &str,
    ) -> (res: AcquireAction)
        requires
            old(self).wf(),
            old(host).wf(),
            old(self).accepts(old(host), event),
            old(self).stage is Query ==> old(host).can_expire(now),
        ensures
            final(self).wf(),
            final(host).wf(),
            acquire_step(
                *old(host),
                old(self).stage,
                event,
                now,
                met@,
                *final(host),
                final(self).stage,
                res,
            ),
    {
        let mut stage = AcquireStage::Over;
        core::mem::swap(&mut self.stage, &mut stage);
        match (stage, event) {
            (AcquireStage::Pull, AcquireEvent::Wake) => self.pull(host, now),
            (AcquireStage::Cancel, AcquireEvent::Ran(ran)) => match host.cancelled(ran) {
                Ok(_) => {
                    self.stage = AcquireStage::Start;
                    AcquireAction::Start(host.context.clone(), copies(&host.conf.start_allocation))
                },
                Err(e) => {
                    self.stage = AcquireStage::Over;
                    AcquireAction::Return(Err(e))
                },
            },
            (AcquireStage::Start, AcquireEvent::Ran(ran)) => self.started(host, ran),
            (AcquireStage::Spawn(spawning), AcquireEvent::Spawned(result)) => self.connected(
                host,
                spawning,
                result,
            ),
            (AcquireStage::Query(querying), AcquireEvent::Ran(ran)) => self.queried(
                host,
                querying,
                ran,
                now,
                met,
            ),
            (AcquireStage::Push(handles, expiration), AcquireEvent::Wake) => self.push(
                host,
                handles,
                expiration,
                now,
                met,
            ),
            _ => vstd::pervasive::unreached(),
        }
    }
}

//------------------------------------------------------------------------------------------ LAWS
/// Once the host was aborted or shut down, no acquisition gives a handle any more, and that stays
/// so.
pub proof fn no_handle_once_shut(
    before: Host,
    stage: AcquireStage,
    event: AcquireEvent,
    now: Timestamp,
    met: Seq<char>,
    after: Host,
    next: AcquireStage,
    action: AcquireAction,
)
    requires
        acquire_step(before, stage, event, now, met, after, next, action),
        before.provider@.shut,
    ensures
        after.provider@.shut,
        !(action is Return && action->Return_0 is Ok),
        stage is Pull ==> next is Pull || (action is Return && action->Return_0 is Err),
{
}

/// A handle is given before it expires.
pub proof fn handles_are_given_before_expiration(
    before: Host,
    stage: AcquireStage,
    event: AcquireEvent,
    now: Timestamp,
    met: Seq<char>,
    after: Host,
    next: AcquireStage,
    action: AcquireAction,
)
    requires
        acquire_step(before, stage, event, now, met, after, next, action),
        action is Return,
        action->Return_0 is Ok,
    ensures
        action->Return_0->Ok_0.inner is Some,
        !action->Return_0->Ok_0.inner->Some_0.expired(now),
{
    provider::issued_in_order_before_expiration(before.provider@, now);
    match (stage, event) {
        (AcquireStage::Push(handles, expiration), AcquireEvent::Wake) => {
            let filled = ProviderView {
                fresh: false,
                queue: expiring(handles@, expiration),
                ..before.provider@
            };
            provider::issued_in_order_before_expiration(filled, now);
        },
        (AcquireStage::Query(querying), AcquireEvent::Ran(ran)) => {
            let last = choose|last: Querying| #[trigger]
                queried(querying, ran, last) && if last.done < last.ids.len() {
                    &&& after.provider@ == before.provider@
                    &&& next == AcquireStage::Query(last)
                    &&& queries(before, last, action)
                } else if last.failure is Some {
                    &&& after.provider@ == before.provider@
                    &&& next is Over
                    &&& action == AcquireAction::Return(Err(last.failure->Some_0))
                } else {
                    after_push(
                        before,
                        last.handles,
                        expiration_of(before.conf, now),
                        now,
                        met,
                        after,
                        next,
                        action,
                    )
                };
            let filled = ProviderView {
                fresh: false,
                queue: expiring(last.handles@, expiration_of(before.conf, now)),
                ..before.provider@
            };
            provider::issued_in_order_before_expiration(filled, now);
        },
        _ => {},
    }
}

/// How many allocations are open on the host at a stage.
pub open spec fn open_allocations(stage: AcquireStage, provider: ProviderView<NodeHandle>) -> int {
    match stage {
        AcquireStage::Pull | AcquireStage::Over => if provider.fresh {
            0
        } else {
            1
        },
        AcquireStage::Start => 0,
        _ => 1,
    }
}

/// Allocations are balanced: as long as nothing fails, each allocation that is started is cancelled
/// before the next one is, and none is cancelled twice. So a host that has issued handles has
/// exactly one allocation to cancel when it closes.
pub proof fn allocations_are_balanced(
    before: Host,
    stage: AcquireStage,
    event: AcquireEvent,
    now: Timestamp,
    met: Seq<char>,
    after: Host,
    next: AcquireStage,
    action: AcquireAction,
)
    requires
        before.wf(),
        acquire_step(before, stage, event, now, met, after, next, action),
        !(action is Return && action->Return_0 is Err),
    ensures
        open_allocations(next, after.provider@) == open_allocations(stage, before.provider@) + (
        if stage is Start {
            1int
        } else {
            0int
        }) - (if stage is Cancel {
            1int
        } else {
            0int
        }),
        action is Start ==> stage is Cancel || (stage is Pull && before.provider@.fresh),
        action is Cancel ==> after.provider@.held == 0 && after.provider@.queue.len() == 0
            && !after.provider@.fresh,
{
    provider::fresh_holds_nothing(&before.provider);
}

/// What happens to a host that is neither aborted nor shut down.
pub ghost enum HostLife {
    /// A step of an acquisition: what came of the last action at which time, how the first handle of
    /// the provider is shown, where the acquisition then stands, and what has to be done next.
    Step(AcquireEvent, Timestamp, Seq<char>, AcquireStage, AcquireAction),
    /// A handle was dropped.
    Dropped(DropBack<Expire<NodeHandle>>),
}

/// Whether this is the life of a host, from its beginning on, in which nothing failed. The
/// acquisitions take turns: one that has made the host cancel or start an allocation goes on until
/// it returns. `hosts[i]` and `stages[i]` are the host, and where the acquisition stands whose turn it
/// is, before `events[i]`.
pub open spec fn is_life(
    hosts: Seq<Host>,
    stages: Seq<AcquireStage>,
    events: Seq<HostLife>,
) -> bool {
    &&& hosts.len() > events.len()
    &&& stages.len() > events.len()
    &&& hosts[0].wf()
    &&& hosts[0].provider@.fresh
    &&& stages[0] is Pull
    &&& forall|i: int| 0 <= i < events.len() ==> #[trigger] lives_on(hosts, stages, events, i)
}

/// Whether an event of the life of a host does what it does.
pub open spec fn lives_on(
    hosts: Seq<Host>,
    stages: Seq<AcquireStage>,
    events: Seq<HostLife>,
    i: int,
) -> bool {
    &&& hosts[i + 1].wf()
    &&& match events[i] {
        HostLife::Step(event, now, met, next, action) => {
            &&& acquire_step(hosts[i], stages[i], event, now, met, hosts[i + 1], next, action)
            &&& !(action is Return && action->Return_0 is Err)
            &&& stages[i + 1] == if next is Over {
                AcquireStage::Pull
            } else {
                next
            }
        },
        HostLife::Dropped(handle) => {
            &&& hosts[i + 1].same_setup(&hosts[i])
            &&& hosts[i + 1].context == hosts[i].context
            &&& hosts[i + 1].provider@ == hosts[i].provider@.after_drop(handle)
            &&& stages[i + 1] == stages[i]
        },
    }
}

/// How often the procedure that starts an allocation was run.
pub open spec fn starts_run(stages: Seq<AcquireStage>, events: Seq<HostLife>) -> int
    decreases events.len(),
{
    if events.len() == 0 {
        0
    } else {
        starts_run(stages, events.drop_last()) + if events.last() is Step && stages[events.len() - 1]
            is Start {
            1int
        } else {
            0int
        }
    }
}

/// How often the procedure that cancels the allocation was run.
pub open spec fn cancels_run(stages: Seq<AcquireStage>, events: Seq<HostLife>) -> int
    decreases events.len(),
{
    if events.len() == 0 {
        0
    } else {
        cancels_run(stages, events.drop_last()) + if events.last() is Step && stages[events.len()
            - 1] is Cancel {
            1int
        } else {
            0int
        }
    }
}

proof fn life_of_prefix(hosts: Seq<Host>, stages: Seq<AcquireStage>, events: Seq<HostLife>)
    requires
        is_life(hosts, stages, events),
        events.len() > 0,
    ensures
        is_life(hosts, stages, events.drop_last()),
        lives_on(hosts, stages, events, events.len() - 1),
{
    let init = events.drop_last();
    assert forall|i: int| 0 <= i < init.len() implies #[trigger] lives_on(
        hosts,
        stages,
        init,
        i,
    ) by {
        assert(lives_on(hosts, stages, events, i));
        assert(init[i] == events[i]);
    }
    assert(lives_on(hosts, stages, events, events.len() - 1));
}

/// At every moment of its life, the allocations that a host started and did not cancel are those that
/// are open: one or none.
pub proof fn open_allocations_are_counted(
    hosts: Seq<Host>,
    stages: Seq<AcquireStage>,
    events: Seq<HostLife>,
)
    requires
        is_life(hosts, stages, events),
    ensures
        starts_run(stages, events) - cancels_run(stages, events) == open_allocations(
            stages[events.len() as int],
            hosts[events.len() as int].provider@,
        ),
        0 <= starts_run(stages, events) - cancels_run(stages, events) <= 1,
    decreases events.len(),
{
    if events.len() > 0 {
        let last = events.len() - 1;
        life_of_prefix(hosts, stages, events);
        open_allocations_are_counted(hosts, stages, events.drop_last());
        if last > 0 {
            assert(lives_on(hosts, stages, events, last - 1));
        }
        match events.last() {
            HostLife::Step(event, now, met, next, action) => {
                allocations_are_balanced(
                    hosts[last],
                    stages[last],
                    event,
                    now,
                    met,
                    hosts[last + 1],
                    next,
                    action,
                );
            },
            HostLife::Dropped(_) => {},
        }
    }
}

proof fn used_for_good(
    hosts: Seq<Host>,
    stages: Seq<AcquireStage>,
    events: Seq<HostLife>,
    i: int,
)
    requires
        is_life(hosts, stages, events),
        0 <= i < events.len(),
        gives_node(events[i]),
    ensures
        !hosts[events.len() as int].provider@.fresh,
    decreases events.len(),
{
    let last = events.len() - 1;
    life_of_prefix(hosts, stages, events);
    if last > 0 {
        assert(lives_on(hosts, stages, events, last - 1));
    }
    if i < last {
        assert(events.drop_last()[i] == events[i]);
        used_for_good(hosts, stages, events.drop_last(), i);
    } else {
        match events[i] {
            HostLife::Step(event, now, met, next, action) => {
                provider::fresh_holds_nothing(&hosts[last].provider);
                provider::issued_in_order_before_expiration(hosts[last].provider@, now);
            },
            HostLife::Dropped(_) => {},
        }
    }
}

/// Whether a node is given to a user.
pub open spec fn gives_node(event: HostLife) -> bool {
    match event {
        HostLife::Step(_, _, _, _, action) => action is Return && action->Return_0 is Ok,
        HostLife::Dropped(_) => false,
    }
}

/// Over the life of a host, as many allocations are cancelled as were started: where nodes were given,
/// all of them came back and no acquisition goes on, the host that closes cancels the one allocation
/// that is open.
pub proof fn as_many_cancelled_as_started(
    hosts: Seq<Host>,
    stages: Seq<AcquireStage>,
    events: Seq<HostLife>,
    given: int,
)
    requires
        is_life(hosts, stages, events),
        0 <= given < events.len(),
        gives_node(events[given]),
        hosts[events.len() as int].provider@.held == 0,
        stages[events.len() as int] is Pull,
    ensures
        hosts[events.len() as int].closes(),
        cancels_run(stages, events) + 1 == starts_run(stages, events),
{
    open_allocations_are_counted(hosts, stages, events);
    used_for_good(hosts, stages, events, given);
}

//------------------------------------------------------------------------------------ OPERATIONS
/// The operations that can be asked for on a host.
#[derive(Clone, Copy, Debug, PartialEq, Eq, Structural)]
pub enum OperationInput {
    AcquireNode,
    Abort,
    Shutdown,
}

/// What is answered.
pub enum OperationOutput {
    AcquireNode(Result<DropBack<Expire<NodeHandle>>, Error>),
    Abort(Result<(), Error>),
    Shutdown(Result<(), Error>),
}

/// How a result without a value is shown.
pub open spec fn shown_unit(result: Result<(), Error>) -> Seq<char> {
    match result {
        Ok(_) => "Ok(())"@,
        Err(e) => "Err("@ + e.shown() + ")"@,
    }
}

fn show_unit(result: &Result<(), Error>) -> (res: String)
    ensures
        res@ == shown_unit(*result),
{
    match result {
        Ok(_) => "Ok(())".to_owned(),
        Err(e) => cat3("Err(", e.show().as_str(), ")"),
    }
}

/// How a result with a value is shown, where the value is shown as given.
pub open spec fn shown_value<T>(result: Result<T, Error>, value: Seq<char>) -> Seq<char> {
    match result {
        Ok(_) => "Ok("@ + value + ")"@,
        Err(e) => "Err("@ + e.shown() + ")"@,
    }
}

fn show_value<T>(result: &Result<T, Error>, value: &str) -> (res: String)
    ensures
        res@ == shown_value(*result, value@),
{
    match result {
        Ok(_) => cat3("Ok(", value, ")"),
        Err(e) => cat3("Err(", e.show().as_str(), ")"),
    }
}

impl OperationOutput {
    /// How the answer is shown: the operation that is answered, and its result, where the value of
    /// the result is shown as given.
    pub open spec fn shown(&self, value: Seq<char>) -> Seq<char> {
        match self {
            OperationOutput::AcquireNode(result) => "AcquireNode("@ + shown_value(*result, value) + ")"@,
            OperationOutput::Abort(result) => "Abort("@ + shown_unit(*result) + ")"@,
            OperationOutput::Shutdown(result) => "Shutdown("@ + shown_unit(*result) + ")"@,
        }
    }

    /// Shows the answer.
    pub fn show(&self, value: &str) -> (res: String)
        ensures
            res@ == self.shown(value@),
    {
        match self {
            OperationOutput::AcquireNode(result) => cat3("AcquireNode(", show_value(result, value).as_str(), ")"),
            OperationOutput::Abort(result) => cat3("Abort(", show_unit(result).as_str(), ")"),
            OperationOutput::Shutdown(result) => cat3("Shutdown(", show_unit(result).as_str(), ")"),
        }
    }
}

/// An operation that was asked for, and runs.
pub enum HostTask {
    Acquire(Acquisition),
    /// The allocation is cancelled.
    Shutdown,
    Over,
}

/// What came of the last action of a task.
pub enum HostEvent {
    Acquire(AcquireEvent),
    Cancelled(Ran),
}

/// What has to be done next for a task.
pub enum HostAction {
    Acquire(AcquireAction),
    /// Run the commands that cancel the allocation on the frontend, in the given context.
    Cancel(TerminalContext, Vec<String>),
    /// The operation is over: the answer is sent.
    Answer(OperationOutput),
}

/// What has to be done for the task that acquires a node: what its acquisition asks for, or the
/// answer with what it returns.
pub open spec fn relayed(action: AcquireAction) -> HostAction {
    match action {
        AcquireAction::Return(result) => HostAction::Answer(OperationOutput::AcquireNode(result)),
        next => HostAction::Acquire(next),
    }
}

fn relay(action: AcquireAction) -> (res: HostAction)
    ensures
        res == relayed(action),
{
    match action {
        AcquireAction::Return(result) => HostAction::Answer(OperationOutput::AcquireNode(result)),
        next => HostAction::Acquire(next),
    }
}

impl HostTask {
    pub open spec fn wf(&self) -> bool {
        match self {
            HostTask::Acquire(acquisition) => acquisition.wf(),
            _ => true,
        }
    }

    /// Whether the event can come of what was asked for.
    pub open spec fn accepts(&self, host: &Host, event: HostEvent) -> bool {
        match (self, event) {
            (HostTask::Acquire(acquisition), HostEvent::Acquire(e)) => acquisition.accepts(host, e),
            (HostTask::Shutdown, HostEvent::Cancelled(ran)) => is_sound(
                ran,
                host.conf.cancel_allocation.len() as nat,
            ),
            _ => false,
        }
    }

    /// Starts the operation that is asked for.
    pub fn start(operation: OperationInput, host: &mut Host, now: Timestamp) -> (res: (
        HostTask,
        HostAction,
    ))
        requires
            old(host).wf(),
        ensures
            final(host).wf(),
            res.0.wf(),
            match operation {
                OperationInput::AcquireNode => exists|action: AcquireAction|
                    {
                        &&& res.0 is Acquire
                        &&& #[trigger] acquire_step(
                            *old(host),
                            AcquireStage::Pull,
                            AcquireEvent::Wake,
                            now,
                            ""@,
                            *final(host),
                            res.0->Acquire_0.stage,
                            action,
                        )
                        &&& res.1 == relayed(action)
                    },
                OperationInput::Abort => {
                    &&& final(host).same_setup(old(host))
                    &&& final(host).context == old(host).context
                    &&& final(host).provider@ == old(host).provider@.after_shutdown()
                    &&& res.0 is Over
                    &&& res.1 == HostAction::Answer(OperationOutput::Abort(Ok(())))
                },
                OperationInput::Shutdown => {
                    &&& final(host).same_setup(old(host))
                    &&& final(host).context == old(host).context
                    &&& final(host).provider@ == old(host).provider@.after_shutdown()
                    &&& res.0 is Shutdown
                    &&& res.1 is Cancel
                    &&& res.1->Cancel_0.same_as(&old(host).context)
                    &&& res.1->Cancel_1@ == old(host).conf.cancel_allocation@
                },
            },
    {
        match operation {
            OperationInput::AcquireNode => {
                let mut acquisition = Acquisition::start();
                let action = acquisition.step_at(host, AcquireEvent::Wake, now, "");
                (HostTask::Acquire(acquisition), relay(action))
            },
            OperationInput::Abort => {
                let result = host.abort();
                (HostTask::Over, HostAction::Answer(OperationOutput::Abort(result)))
            },
            OperationInput::Shutdown => {
                let (context, commands) = host.shutdown();
                (HostTask::Shutdown, HostAction::Cancel(context, commands))
            },
        }
    }

    /// Takes what came of the last action into account at the given time, and says what has to be
    /// done next. `met` is how the first handle of the provider is shown, which an error tells.
    pub fn step(self, host: &mut Host, event: HostEvent, now: Timestamp, met: &str) -> (res: (
        HostTask,
        HostAction,
    ))
        requires
            self.wf(),
            old(host).wf(),
            self is Acquire && self->Acquire_0.stage is Query ==> old(host).can_expire(now),
            self.accepts(old(host), event),
        ensures
            final(host).wf(),
            res.0.wf(),
            match (self, event) {
                (HostTask::Acquire(acquisition), HostEvent::Acquire(e)) => exists|
                    action: AcquireAction,
                |
                    {
                        &&& res.0 is Acquire
                        &&& #[trigger] acquire_step(
                            *old(host),
                            acquisition.stage,
                            e,
                            now,
                            met@,
                            *final(host),
                            res.0->Acquire_0.stage,
                            action,
                        )
                        &&& res.1 == relayed(action)
                    },
                (HostTask::Shutdown, HostEvent::Cancelled(ran)) => {
                    &&& final(host).same_setup(old(host))
                    &&& final(host).provider == old(host).provider
                    &&& res.0 is Over
                    &&& res.1 is Answer
                    &&& res.1->Answer_0 is Shutdown
                    &&& ({
                        let result = res.1->Answer_0->Shutdown_0;
                        match ran {
                            Err(reason) => result is Err && is_failed_allocation(
                                result->Err_0,
                                "Failed to cancel allocation: "@ + reason@,
                            ) && final(host).context == old(host).context,
                            Ok((context, _)) => match output_result(ran_output(ran)) {
                                Ok(_) => result is Ok && final(host).context == context,
                                Err(text) => result is Err && is_failed_allocation(
                                    result->Err_0,
                                    "Cancel allocation command failed: "@ + text,
                                ) && final(host).context == old(host).context,
                            },
                        }
                    })
                },
                _ => false,
            },
    {
        match (self, event) {
            (HostTask::Acquire(acquisition), HostEvent::Acquire(e)) => {
                let mut acquisition = acquisition;
                let action = acquisition.step_at(host, e, now, met);
                (HostTask::Acquire(acquisition), relay(action))
            },
            (HostTask::Shutdown, HostEvent::Cancelled(ran)) => {
                let result = host.cancelled(ran);
                (HostTask::Over, HostAction::Answer(OperationOutput::Shutdown(result)))
            },
            _ => vstd::pervasive::unreached(),
        }
    }
}

/// The error for an answer that is not to the operation that was asked for.
pub open spec fn is_unexpected(expected: Seq<char>, found: Seq<char>, error: Error) -> bool {
    error is OperationFetch && error->OperationFetch_0@ == "Expected "@ + expected + ", found "@
        + found
}

fn unexpected(expected: &str, found: &OperationOutput, value: &str) -> (res: Error)
    ensures
        is_unexpected(expected@, found.shown(value@), res),
{
    let mut text = cat3("Expected ", expected, ", found ");
    text.append(found.show(value).as_str());
    Error::OperationFetch(text)
}

/// What the answer to an acquisition gives. An answer that never came is an error too.
pub fn acquire_reply(answer: Result<OperationOutput, String>) -> (res: Result<
    DropBack<Expire<NodeHandle>>,
    Error,
>)
    ensures
        match answer {
            Ok(OperationOutput::AcquireNode(result)) => res == result,
            Ok(other) => res is Err && is_unexpected("AcquireNode"@, other.shown(""@), res->Err_0),
            Err(reason) => res == Err::<DropBack<Expire<NodeHandle>>, Error>(
                Error::OperationFetch(reason),
            ),
        },
{
    match answer {
        Ok(OperationOutput::AcquireNode(result)) => result,
        Ok(other) => Err(unexpected("AcquireNode", &other, "")),
        Err(reason) => Err(Error::OperationFetch(reason)),
    }
}

/// What the answer to an abort gives. An answer that never came is an error, and so is one to another
/// operation, which is shown with its value as given.
pub fn abort_reply(answer: Result<OperationOutput, String>, value: &str) -> (res: Result<(), Error>)
    ensures
        match answer {
            Ok(OperationOutput::Abort(result)) => res == result,
            Ok(other) => res is Err && is_unexpected("Abort"@, other.shown(value@), res->Err_0),
            Err(reason) => res == Err::<(), Error>(Error::OperationFetch(reason)),
        },
{
    match answer {
        Ok(OperationOutput::Abort(result)) => result,
        Ok(other) => Err(unexpected("Abort", &other, value)),
        Err(reason) => Err(Error::OperationFetch(reason)),
    }
}

/// What the answer to a shutdown gives. An answer that never came is an error, and so is one to another
/// operation, which is shown with its value as given.
pub fn shutdown_reply(answer: Result<OperationOutput, String>, value: &str) -> (res: Result<(), Error>)
    ensures
        match answer {
            Ok(OperationOutput::Shutdown(result)) => res == result,
            Ok(other) => res is Err && is_unexpected("Shutdown"@, other.shown(value@), res->Err_0),
            Err(reason) => res == Err::<(), Error>(Error::OperationFetch(reason)),
        },
{
    match answer {
        Ok(OperationOutput::Shutdown(result)) => result,
        Ok(other) => Err(unexpected("Shutdown", &other, value)),
        Err(reason) => Err(Error::OperationFetch(reason)),
    }
}

//----------------------------------------------------------------------------- LAWS OF THE STEPS
/// Every node is connected to as the user of the frontend profile of the host, under a name that is
/// made of the name of the profile and the id of the node.
pub proof fn nodes_are_connected_to_as_the_user(
    acquisition: &mut Acquisition,
    host: &mut Host,
    event: AcquireEvent,
    now: Timestamp,
    met: &str,
    res: AcquireAction,
)
    requires
        call_ensures(Acquisition::step_at, (acquisition, host, event, now, met), res),
        res is Spawn,
    ensures
        final(acquisition).stage is Spawn,
        ({
            let spawning = final(acquisition).stage->Spawn_0;
            let profile = res->Spawn_0;
            &&& profile.user == old(host).profile.user
            &&& profile.name == old(host).profile.name
            &&& profile.port is None
            &&& profile.hostname is Some
            &&& profile.hostname->Some_0@ == old(host).profile.name@ + "::"@
                + spawning.ids@[spawning.done as int]@
        }),
{
}

/// A node is asked for of the provider first. A new one makes the host start an allocation, an empty
/// one makes it cancel the last one; either is done by the procedure of the configuration, in the
/// context of the host.
pub proof fn allocations_follow_the_configuration(
    acquisition: &mut Acquisition,
    host: &mut Host,
    event: AcquireEvent,
    now: Timestamp,
    met: &str,
    res: AcquireAction,
)
    requires
        call_ensures(Acquisition::step_at, (acquisition, host, event, now, met), res),
    ensures
        res is Start ==> {
            &&& final(acquisition).stage is Start
            &&& res->Start_1@ == old(host).conf.start_allocation@
            &&& res->Start_0.cwd@ == final(host).context.cwd@
            &&& res->Start_0.envs@ == final(host).context.envs@
        },
        res is Cancel ==> {
            &&& final(acquisition).stage is Cancel
            &&& res->Cancel_1@ == old(host).conf.cancel_allocation@
            &&& res->Cancel_0.cwd@ == final(host).context.cwd@
            &&& res->Cancel_0.envs@ == final(host).context.envs@
        },
        old(acquisition).stage is Pull && old(host).provider@.queue.len() == 0
            && old(host).provider@.held == 0 && !old(host).provider@.shut ==> (res is Start
            <==> old(host).provider@.fresh) && (res is Cancel <==> !old(host).provider@.fresh),
        final(host).conf == old(host).conf && final(host).profile == old(host).profile,
{
}

/// Once an allocation was started with success, the context of the host is that of the procedure, and
/// the nodes are the words of `RUNAWAY_NODES`, which are connected to from the first one on. A
/// cancellation that succeeded leaves its context too, and is followed by a start.
pub proof fn procedures_leave_their_context(
    acquisition: &mut Acquisition,
    host: &mut Host,
    context: TerminalContext,
    outputs: Vec<Output>,
    now: Timestamp,
    met: &str,
    res: AcquireAction,
)
    requires
        call_ensures(
            Acquisition::step_at,
            (acquisition, host, AcquireEvent::Ran(Ok((context, outputs))), now, met),
            res,
        ),
        compacted(output_views(outputs@)).status == 0,
        old(acquisition).stage is Start || old(acquisition).stage is Cancel,
    ensures
        final(host).context.cwd@ == context.cwd@,
        final(host).context.envs@ == context.envs@,
        final(host).provider@ == old(host).provider@,
        old(acquisition).stage is Cancel ==> res is Start && final(acquisition).stage is Start,
        old(acquisition).stage is Start && context.envs@.contains_key("RUNAWAY_NODES"@) ==> {
            &&& res is Spawn
            &&& final(acquisition).stage is Spawn
            &&& texts(final(acquisition).stage->Spawn_0.ids@) == split_on(
                context.envs@["RUNAWAY_NODES"@],
                ' ',
            )
            &&& final(acquisition).stage->Spawn_0.done == 0
            &&& final(acquisition).stage->Spawn_0.nodes.len() == 0
        },
        old(acquisition).stage is Start && !context.envs@.contains_key("RUNAWAY_NODES"@) ==> res
            is Return && res->Return_0 is Err,
{
}

/// A connection that fails is tried again, ten times in all.
pub proof fn connections_are_tried_ten_times(
    acquisition: &mut Acquisition,
    host: &mut Host,
    result: Result<u64, String>,
    now: Timestamp,
    met: &str,
    res: AcquireAction,
)
    requires
        call_ensures(
            Acquisition::step_at,
            (acquisition, host, AcquireEvent::Spawned(result), now, met),
            res,
        ),
        old(acquisition).wf(),
        old(acquisition).stage is Spawn,
        result is Err,
        old(acquisition).stage->Spawn_0.attempt < 10,
    ensures
        res is Spawn,
        final(acquisition).stage is Spawn,
        final(acquisition).stage->Spawn_0.attempt == old(acquisition).stage->Spawn_0.attempt + 1,
        final(acquisition).stage->Spawn_0.done == old(acquisition).stage->Spawn_0.done,
        final(acquisition).stage->Spawn_0.ids@ == old(acquisition).stage->Spawn_0.ids@,
        final(acquisition).stage->Spawn_0.nodes@ == old(acquisition).stage->Spawn_0.nodes@,
        final(acquisition).stage->Spawn_0.failure == old(acquisition).stage->Spawn_0.failure,
{
}

/// Each node is connected to, one after the other, and the connections are kept in the order of the
/// nodes. Once all are there, their handles are queried; the first failure ends the acquisition, but
/// only once every node was tried.
pub proof fn every_node_is_connected_to(
    acquisition: &mut Acquisition,
    host: &mut Host,
    result: Result<u64, String>,
    now: Timestamp,
    met: &str,
    res: AcquireAction,
)
    requires
        call_ensures(
            Acquisition::step_at,
            (acquisition, host, AcquireEvent::Spawned(result), now, met),
            res,
        ),
        old(acquisition).wf(),
        old(acquisition).stage is Spawn,
        result is Ok || old(acquisition).stage->Spawn_0.attempt == 10,
    ensures
        ({
            let before = old(acquisition).stage->Spawn_0;
            let nodes = if result is Ok {
                before.nodes@.push(result->Ok_0)
            } else {
                before.nodes@
            };
            if before.done + 1 < before.ids.len() {
                &&& res is Spawn
                &&& final(acquisition).stage is Spawn
                &&& final(acquisition).stage->Spawn_0.ids@ == before.ids@
                &&& final(acquisition).stage->Spawn_0.done == before.done + 1
                &&& final(acquisition).stage->Spawn_0.attempt == 1
                &&& final(acquisition).stage->Spawn_0.nodes@ == nodes
                &&& final(acquisition).stage->Spawn_0.failure is Some <==> before.failure is Some
                    || result is Err
            } else if before.failure is None && result is Ok {
                &&& res is Query
                &&& res->Query_0 == nodes[0]
                &&& final(acquisition).stage is Query
                &&& final(acquisition).stage->Query_0.ids@ == before.ids@
                &&& final(acquisition).stage->Query_0.nodes@ == nodes
                &&& final(acquisition).stage->Query_0.done == 0
                &&& final(acquisition).stage->Query_0.handles.len() == 0
            } else {
                &&& res is Return
                &&& res->Return_0 is Err
                &&& before.failure is Some ==> res->Return_0->Err_0 == before.failure->Some_0
                &&& before.failure is None ==> res->Return_0->Err_0.text()
                    == "Failed to allocate: \n"@ + ("Failed to spawn node: "@ + result->Err_0@)
            }
        }),
        final(host).provider@ == old(host).provider@,
        final(host).context == old(host).context,
{
}

/// The handles of a node are queried on this node, by the procedure of the configuration, in the
/// context of the host with the id of the node in it.
pub proof fn handles_are_queried_on_their_node(
    acquisition: &mut Acquisition,
    host: &mut Host,
    event: AcquireEvent,
    now: Timestamp,
    met: &str,
    res: AcquireAction,
)
    requires
        call_ensures(Acquisition::step_at, (acquisition, host, event, now, met), res),
        res is Query,
    ensures
        final(acquisition).stage is Query,
        ({
            let querying = final(acquisition).stage->Query_0;
            &&& res->Query_0 == querying.nodes@[querying.done as int]
            &&& res->Query_1.cwd@ == old(host).context.cwd@
            &&& res->Query_1.envs@ == old(host).context.envs@.insert(
                "RUNAWAY_NODE_ID"@,
                querying.ids@[querying.done as int]@,
            )
            &&& res->Query_2@ == old(host).conf.get_node_handles@
        }),
{
}

/// The handles of each node are put behind those of the nodes before it, one for each word of
/// `RUNAWAY_HANDLES`, and the nodes are queried one after the other.
pub proof fn handles_are_gathered_node_by_node(
    acquisition: &mut Acquisition,
    host: &mut Host,
    context: TerminalContext,
    outputs: Vec<Output>,
    now: Timestamp,
    met: &str,
    i: int,
    res: AcquireAction,
)
    requires
        call_ensures(
            Acquisition::step_at,
            (acquisition, host, AcquireEvent::Ran(Ok((context, outputs))), now, met),
            res,
        ),
        old(acquisition).wf(),
        old(acquisition).stage is Query,
        compacted(output_views(outputs@)).status == 0,
        context.envs@.contains_key("RUNAWAY_HANDLES"@),
        old(acquisition).stage->Query_0.done + 1 < old(acquisition).stage->Query_0.ids.len(),
    ensures
        res is Query,
        final(acquisition).stage is Query,
        ({
            let before = old(acquisition).stage->Query_0;
            let after = final(acquisition).stage->Query_0;
            let words = split_on(context.envs@["RUNAWAY_HANDLES"@], ' ');
            let n = before.handles.len() as int;
            &&& after.ids@ == before.ids@ && after.nodes@ == before.nodes@
            &&& after.done == before.done + 1
            &&& after.handles.len() == n + words.len()
            &&& after.handles@.take(n) == before.handles@
            &&& 0 <= i < words.len() ==> {
                &&& after.handles@[n + i].node == before.nodes@[before.done as int]
                &&& after.handles@[n + i].context.cwd@ == context.cwd@
                &&& after.handles@[n + i].context.envs@ == context.envs@.insert(
                    "RUNAWAY_HANDLE_ID"@,
                    words[i],
                )
            }
            &&& after.failure == before.failure
        }),
{
    let before = old(acquisition).stage->Query_0;
    let after = final(acquisition).stage->Query_0;
    let ran: Ran = Ok((context, outputs));
    let result = choose|result: Result<Vec<NodeHandle>, Error>| #[trigger]
        spawned_handles(ran, before.nodes@[before.done as int], result) && {
            &&& after.ids@ == before.ids@
            &&& after.nodes@ == before.nodes@
            &&& after.done == before.done + 1
            &&& match result {
                Ok(handles) => after.handles@ == before.handles@ + handles@ && after.failure
                    == before.failure,
                Err(e) => after.handles@ == before.handles@ && after.failure == match before.failure {
                    Some(first) => Some(first),
                    None => Some(e),
                },
            }
        };
    assert(after.handles@.take(before.handles.len() as int) =~= before.handles@);
    if 0 <= i < result->Ok_0.len() {
        assert(after.handles@[before.handles.len() + i] == result->Ok_0@[i]);
    }
}

/// The handles of an allocation expire once its duration is over, counted from the moment at which the
/// last node was queried.
pub proof fn handles_expire_after_the_duration(
    acquisition: &mut Acquisition,
    host: &mut Host,
    event: AcquireEvent,
    now: Timestamp,
    met: &str,
    i: int,
    res: AcquireAction,
)
    requires
        call_ensures(Acquisition::step_at, (acquisition, host, event, now, met), res),
        old(acquisition).stage is Query,
        old(host).can_expire(now),
        now.is_clock_time(),
        res is Return && res->Return_0 is Ok,
        0 <= i < final(host).provider@.queue.len(),
    ensures
        res->Return_0->Ok_0.inner is Some,
        res->Return_0->Ok_0.inner->Some_0.expiration.secs == now.secs
            + old(host).conf.allocation_duration * 60,
        res->Return_0->Ok_0.inner->Some_0.expiration.nanos == now.nanos,
        final(host).provider@.queue[i].expiration == res->Return_0->Ok_0.inner->Some_0.expiration,
{
    let expiration = expiration_of(old(host).conf, now);
    live_handles_have_the_date(expiration, now, *final(host), res);
    assert(final(host).provider@.queue[i].expiration == expiration);
    let secs = now.secs + old(host).conf.allocation_duration * 60;
    assert(0 <= secs <= LAST_SECOND);
}

proof fn live_handles_have_the_date(
    expiration: Timestamp,
    now: Timestamp,
    after: Host,
    res: AcquireAction,
)
    requires
        res is Return && res->Return_0 is Ok,
        exists|handles: Seq<NodeHandle>, provider: ProviderView<NodeHandle>|
            #![trigger expiring(handles, expiration), provider.after_pull(now)]
            {
                &&& provider.queue == expiring(handles, expiration)
                &&& !provider.shut
                &&& after.provider@ == provider.after_pull(now)
                &&& provider.pulled(now) is Ready
                &&& res->Return_0->Ok_0 == provider.pulled(now)->Ready_0
            },
    ensures
        res->Return_0->Ok_0.inner is Some,
        res->Return_0->Ok_0.inner->Some_0.expiration == expiration,
        forall|i: int|
            0 <= i < after.provider@.queue.len() ==> (#[trigger] after.provider@.queue[i]).expiration
                == expiration,
{
    let (handles, provider) = choose|
        handles: Seq<NodeHandle>,
        provider: ProviderView<NodeHandle>,
    |
        #![trigger expiring(handles, expiration), provider.after_pull(now)]
        {
            &&& provider.queue == expiring(handles, expiration)
            &&& !provider.shut
            &&& after.provider@ == provider.after_pull(now)
            &&& provider.pulled(now) is Ready
            &&& res->Return_0->Ok_0 == provider.pulled(now)->Ready_0
        };
    crate::hosts::provider::issued_in_order_before_expiration(provider, now);
    let k = choose|i: int|
        #![trigger provider.queue[i]]
        {
            &&& 0 <= i < provider.queue.len()
            &&& provider.pulled(now)->Ready_0.inner == Some(provider.queue[i])
            &&& provider.after_pull(now).queue == provider.queue.skip(i + 1)
        };
    assert(provider.queue[k].expiration == expiration);
    assert forall|i: int| 0 <= i < after.provider@.queue.len() implies (
    #[trigger] after.provider@.queue[i]).expiration == expiration by {
        assert(after.provider@.queue[i] == provider.queue[k + 1 + i]);
    }
}

/// A host starts from its configuration, with the path of its executions in its context and without
/// handles.
pub proof fn host_starts_from_its_configuration(
    conf: HostConf,
    profile: SshProfile,
    context: TerminalContext,
    res: Host,
)
    requires
        call_ensures(Host::from_conf, (conf, profile, context), res),
    ensures
        res.conf == conf && res.profile == profile,
        res.context.cwd@ == context.cwd@,
        res.context.envs@ == context.envs@.insert("RUNAWAY_PATH"@, conf.directory@),
        res.provider@.fresh && !res.provider@.shut,
        res.provider@.queue.len() == 0 && res.provider@.held == 0,
{
}

/// A host that is aborted, shut down or closed gives no handle any more. Shutting it down and closing
/// it cancel the allocation in its context, closing only once the users dropped all handles.
pub proof fn ended_hosts_cancel_their_allocation(
    aborted: &mut Host,
    stopped: &mut Host,
    closed: &mut Host,
    abort: Result<(), Error>,
    stop: (TerminalContext, Vec<String>),
    close: Option<(TerminalContext, Vec<String>)>,
)
    requires
        call_ensures(Host::abort, (aborted,), abort),
        call_ensures(Host::shutdown, (stopped,), stop),
        call_ensures(Host::close, (closed,), close),
    ensures
        abort is Ok,
        final(aborted).provider@.shut && final(stopped).provider@.shut
            && final(closed).provider@.shut,
        final(aborted).provider@.queue == old(aborted).provider@.queue,
        final(aborted).provider@.held == old(aborted).provider@.held,
        final(stopped).provider@.queue == old(stopped).provider@.queue,
        final(stopped).provider@.held == old(stopped).provider@.held,
        final(closed).provider@.queue.len() == 0,
        final(closed).provider@.held == old(closed).provider@.held,
        stop.1@ == old(stopped).conf.cancel_allocation@,
        stop.0.cwd@ == old(stopped).context.cwd@ && stop.0.envs@ == old(stopped).context.envs@,
        close is Some <==> old(closed).provider@.held == 0,
        close is Some ==> close->Some_0.1@ == old(closed).conf.cancel_allocation@
            && close->Some_0.0.cwd@ == old(closed).context.cwd@ && close->Some_0.0.envs@
            == old(closed).context.envs@,
{
}

/// A cancellation succeeds if and only if its procedure could be run and succeeded; the host then has
/// the context that it left, and else the one that it had.
pub proof fn cancellation_follows_its_procedure(host: &mut Host, ran: Ran, res: Result<(), Error>)
    requires
        call_ensures(Host::cancelled, (host, ran), res),
    ensures
        res is Ok <==> ran is Ok && compacted(
            output_views(ran->Ok_0.1@),
        ).status == 0,
        res is Ok ==> final(host).context == ran->Ok_0.0,
        res is Err ==> final(host).context == old(host).context,
        final(host).provider == old(host).provider,
        final(host).conf == old(host).conf && final(host).profile == old(host).profile,
{
}

/// Whether the handles that are allocated now expire within the calendar is what is told.
pub proof fn calendar_bounds_the_duration(host: Host, now: Timestamp, res: bool)
    requires
        call_ensures(Host::expires, (&host, now), res),
    ensures
        res <==> now.secs + host.conf.allocation_duration * 60 <= 8_210_266_876_799,
{
}

/// An operation on a host does what was asked for: an abort and a shutdown close the provider, a
/// shutdown cancels the allocation, and an acquisition is answered with what it returned.
pub proof fn operations_on_a_host(
    aborted: &mut Host,
    stopped: &mut Host,
    now: Timestamp,
    abort: (HostTask, HostAction),
    stop: (HostTask, HostAction),
)
    requires
        call_ensures(HostTask::start, (OperationInput::Abort, aborted, now), abort),
        call_ensures(HostTask::start, (OperationInput::Shutdown, stopped, now), stop),
    ensures
        final(aborted).provider@.shut && final(stopped).provider@.shut,
        abort.0 is Over && abort.1 is Answer && abort.1->Answer_0 is Abort
            && abort.1->Answer_0->Abort_0 is Ok,
        stop.0 is Shutdown && stop.1 is Cancel && stop.1->Cancel_1@
            == old(stopped).conf.cancel_allocation@,
        stop.1->Cancel_0.cwd@ == old(stopped).context.cwd@ && stop.1->Cancel_0.envs@
            == old(stopped).context.envs@,
{
}

/// A node that is there is given at once: the task answers with it.
pub proof fn waiting_node_is_answered(
    host: &mut Host,
    now: Timestamp,
    res: (HostTask, HostAction),
)
    requires
        call_ensures(HostTask::start, (OperationInput::AcquireNode, host, now), res),
        !old(host).provider@.shut,
        old(host).provider@.queue.len() > 0,
        !old(host).provider@.queue[0].expired(now),
    ensures
        res.1 is Answer,
        res.1->Answer_0 is AcquireNode,
        res.1->Answer_0->AcquireNode_0 is Ok,
        res.1->Answer_0->AcquireNode_0->Ok_0.inner == Some(old(host).provider@.queue[0]),
        final(host).provider@.queue == old(host).provider@.queue.skip(1),
        final(host).provider@.held == old(host).provider@.held + 1,
{
    let queue = old(host).provider@.queue;
    assert(crate::hosts::provider::unexpired(queue, now) == queue);
}

/// The end of a shutdown is answered as its cancellation went.
pub proof fn shutdown_is_answered(
    host: &mut Host,
    ran: Ran,
    now: Timestamp,
    met: &str,
    res: (HostTask, HostAction),
)
    requires
        call_ensures(
            HostTask::step,
            (HostTask::Shutdown, host, HostEvent::Cancelled(ran), now, met),
            res,
        ),
    ensures
        res.0 is Over,
        res.1 is Answer,
        res.1->Answer_0 is Shutdown,
        res.1->Answer_0->Shutdown_0 is Ok <==> ran is Ok && compacted(
            output_views(ran->Ok_0.1@),
        ).status == 0,
        res.1->Answer_0->Shutdown_0 is Ok ==> final(host).context == ran->Ok_0.0,
{
}

/// The answers go back to those who asked: each gets the result of its operation.
pub proof fn answers_go_back(
    node: Result<DropBack<Expire<NodeHandle>>, Error>,
    done: Result<(), Error>,
    value: &str,
    acquired: Result<DropBack<Expire<NodeHandle>>, Error>,
    aborted: Result<(), Error>,
    stopped: Result<(), Error>,
)
    requires
        call_ensures(
            acquire_reply,
            (Ok::<OperationOutput, String>(OperationOutput::AcquireNode(node)),),
            acquired,
        ),
        call_ensures(
            abort_reply,
            (Ok::<OperationOutput, String>(OperationOutput::Abort(done)), value),
            aborted,
        ),
        call_ensures(
            shutdown_reply,
            (Ok::<OperationOutput, String>(OperationOutput::Shutdown(done)), value),
            stopped,
        ),
    ensures
        acquired == node,
        aborted == done,
        stopped == done,
{
}

/// An answer to another operation, or one that never came, is an error.
pub proof fn other_answers_are_errors(
    answer: Result<OperationOutput, String>,
    value: &str,
    acquired: Result<DropBack<Expire<NodeHandle>>, Error>,
    aborted: Result<(), Error>,
    stopped: Result<(), Error>,
)
    requires
        call_ensures(acquire_reply, (answer,), acquired),
        call_ensures(abort_reply, (answer, value), aborted),
        call_ensures(shutdown_reply, (answer, value), stopped),
    ensures
        answer is Err ==> acquired is Err && acquired->Err_0 == Error::OperationFetch(answer->Err_0)
            && aborted == Err::<(), Error>(Error::OperationFetch(answer->Err_0)) && stopped == Err::<
            (),
            Error,
        >(Error::OperationFetch(answer->Err_0)),
        answer is Ok && !(answer->Ok_0 is AcquireNode) ==> acquired is Err,
        answer is Ok && !(answer->Ok_0 is Abort) ==> aborted is Err,
        answer is Ok && !(answer->Ok_0 is Shutdown) ==> stopped is Err,
{
}

/// An answer is shown by its operation and its result, and where another one was expected, the error
/// says which one, and shows the answer.
pub proof fn unexpected_answers_are_shown(
    answer: OperationOutput,
    value: &str,
    text: String,
    acquired: Result<DropBack<Expire<NodeHandle>>, Error>,
    aborted: Result<(), Error>,
    stopped: Result<(), Error>,
)
    requires
        call_ensures(OperationOutput::show, (&answer, value), text),
        call_ensures(
            acquire_reply,
            (Ok::<OperationOutput, String>(answer),),
            acquired,
        ),
        call_ensures(
            abort_reply,
            (Ok::<OperationOutput, String>(answer), value),
            aborted,
        ),
        call_ensures(
            shutdown_reply,
            (Ok::<OperationOutput, String>(answer), value),
            stopped,
        ),
    ensures
        !(answer is AcquireNode) ==> acquired->Err_0 is OperationFetch && acquired->Err_0->OperationFetch_0@
            == "Expected "@ + "AcquireNode"@ + ", found "@ + answer.shown(""@),
        answer is AcquireNode && answer->AcquireNode_0 is Err ==> text@ == "AcquireNode("@ + ("Err("@ + answer->AcquireNode_0->Err_0.shown()
            + ")"@) + ")"@,
        answer is AcquireNode && answer->AcquireNode_0 is Ok ==> text@ == "AcquireNode("@ + ("Ok("@ + value@ + ")"@) + ")"@,
        !(answer is Abort) ==> aborted->Err_0 is OperationFetch && aborted->Err_0->OperationFetch_0@
            == "Expected "@ + "Abort"@ + ", found "@ + text@,
        answer is Abort && answer->Abort_0 is Err ==> text@ == "Abort("@ + ("Err("@ + answer->Abort_0->Err_0.shown()
            + ")"@) + ")"@,
        answer is Abort && answer->Abort_0 is Ok ==> text@ == "Abort("@ + "Ok(())"@ + ")"@,
        !(answer is Shutdown) ==> stopped->Err_0 is OperationFetch && stopped->Err_0->OperationFetch_0@
            == "Expected "@ + "Shutdown"@ + ", found "@ + text@,
        answer is Shutdown && answer->Shutdown_0 is Err ==> text@ == "Shutdown("@ + ("Err("@ + answer->Shutdown_0->Err_0.shown()
            + ")"@) + ")"@,
        answer is Shutdown && answer->Shutdown_0 is Ok ==> text@ == "Shutdown("@ + "Ok(())"@ + ")"@,
{
}

/// A procedure of an acquisition that could not be run ends it with the reason, and a provider that
/// takes no handles ends it too.
pub proof fn failed_procedures_end_the_acquisition(
    acquisition: &mut Acquisition,
    host: &mut Host,
    reason: String,
    now: Timestamp,
    met: &str,
    res: AcquireAction,
)
    requires
        call_ensures(
            Acquisition::step_at,
            (acquisition, host, AcquireEvent::Ran(Err(reason)), now, met),
            res,
        ),
        old(acquisition).stage is Start || old(acquisition).stage is Cancel,
    ensures
        res is Return && res->Return_0 is Err && res->Return_0->Err_0 is AllocationFailed,
        old(acquisition).stage is Start ==> res->Return_0->Err_0->AllocationFailed_0@
            == "Failed to allocate: "@ + reason@,
        old(acquisition).stage is Cancel ==> res->Return_0->Err_0->AllocationFailed_0@
            == "Failed to cancel allocation: "@ + reason@,
        final(acquisition).stage is Over,
        final(host).context == old(host).context,
{
}

/// Handles that wait for those of the last allocation are pushed once users dropped them all; a
/// provider that was shut meanwhile takes none, and a handle that is met instead is shown.
pub proof fn waiting_handles_are_pushed(
    acquisition: &mut Acquisition,
    host: &mut Host,
    now: Timestamp,
    met: &str,
    res: AcquireAction,
)
    requires
        call_ensures(Acquisition::step_at, (acquisition, host, AcquireEvent::Wake, now, met), res),
        old(acquisition).stage is Push,
    ensures
        ({
            let provider = old(host).provider@;
            let text = res->Return_0->Err_0->AllocationFailed_0@;
            let start = "Failed to push nodes: "@ + "Provider encountered an unexpected message.\n"@;
            &&& provider.queue.len() > 0 ==> {
                &&& res is Return && res->Return_0 is Err && res->Return_0->Err_0 is AllocationFailed
                &&& provider.shut ==> text == start + ("Some(ToConsume(DropBack<Some("@ + met@
                    + ")>))"@)
                &&& !provider.shut ==> text == start + ("Some(Handle(DropBack<Some("@ + met@
                    + ")>))"@)
            }
            &&& provider.queue.len() == 0 && provider.held > 0 ==> res is Wait
                && final(acquisition).stage == old(acquisition).stage
            &&& provider.queue.len() == 0 && provider.held == 0 && provider.shut ==> {
                &&& res is Return && res->Return_0 is Err && res->Return_0->Err_0 is AllocationFailed
                &&& text == start + "Some(Closed)"@
            }
            &&& provider.queue.len() == 0 && provider.held == 0 && !provider.shut
                && old(acquisition).stage->Push_0.len() > 0 && !now.is_after(
                old(acquisition).stage->Push_1,
            ) ==> {
                &&& res is Return && res->Return_0 is Ok
                &&& res->Return_0->Ok_0.inner is Some
                &&& res->Return_0->Ok_0.inner->Some_0.inner == old(acquisition).stage->Push_0@[0]
                &&& res->Return_0->Ok_0.inner->Some_0.expiration == old(acquisition).stage->Push_1
                &&& final(host).provider@.held == 1
                &&& final(host).provider@.queue.len() == old(acquisition).stage->Push_0.len() - 1
            }
        }),
{
    let handles = old(acquisition).stage->Push_0@;
    let date = old(acquisition).stage->Push_1;
    if handles.len() > 0 && !now.is_after(date) {
        let queue = expiring(handles, date);
        assert(queue[0].expiration == date);
        assert(crate::hosts::provider::unexpired(queue, now) == queue);
    }
}

/// Once the last node was queried, the handles of all nodes are with the provider, but for the first
/// one, which is given to the one who asked: none is lost, and their order is kept.
pub proof fn every_handle_is_provided(
    acquisition: &mut Acquisition,
    host: &mut Host,
    context: TerminalContext,
    outputs: Vec<Output>,
    now: Timestamp,
    met: &str,
    i: int,
    res: AcquireAction,
)
    requires
        call_ensures(
            Acquisition::step_at,
            (acquisition, host, AcquireEvent::Ran(Ok((context, outputs))), now, met),
            res,
        ),
        old(acquisition).wf(),
        old(acquisition).stage is Query,
        compacted(output_views(outputs@)).status == 0,
        context.envs@.contains_key("RUNAWAY_HANDLES"@),
        old(acquisition).stage->Query_0.done + 1 == old(acquisition).stage->Query_0.ids.len(),
        old(acquisition).stage->Query_0.failure is None,
        old(acquisition).stage->Query_0.handles.len() > 0,
        old(host).can_expire(now),
        now.is_clock_time(),
        !old(host).provider@.shut,
        old(host).provider@.queue.len() == 0,
        old(host).provider@.held == 0,
    ensures
        ({
            let before = old(acquisition).stage->Query_0.handles@;
            let words = split_on(context.envs@["RUNAWAY_HANDLES"@], ' ');
            let queue = final(host).provider@.queue;
            let n = before.len() as int;
            &&& res is Return
            &&& res->Return_0 is Ok
            &&& res->Return_0->Ok_0.inner is Some
            &&& res->Return_0->Ok_0.inner->Some_0.inner == before[0]
            &&& queue.len() == n - 1 + words.len()
            &&& final(host).provider@.held == 1
            &&& 0 <= i < n - 1 ==> queue[i].inner == before[i + 1]
            &&& n - 1 <= i < queue.len() ==> {
                &&& queue[i].inner.node == old(acquisition).stage->Query_0.nodes@[old(
                    acquisition,
                ).stage->Query_0.done as int]
                &&& queue[i].inner.context.envs@ == context.envs@.insert(
                    "RUNAWAY_HANDLE_ID"@,
                    words[i - (n - 1)],
                )
            }
        }),
{
    let querying = old(acquisition).stage->Query_0;
    let ran: Ran = Ok((context, outputs));
    let before = querying.handles@;
    let next = choose|next: Querying| #[trigger]
        queried(querying, ran, next) && after_push(
            *old(host),
            next.handles,
            expiration_of(old(host).conf, now),
            now,
            met@,
            *final(host),
            final(acquisition).stage,
            res,
        );
    let result = choose|result: Result<Vec<NodeHandle>, Error>| #[trigger]
        spawned_handles(ran, querying.nodes@[querying.done as int], result) && {
            &&& next.ids@ == querying.ids@
            &&& next.nodes@ == querying.nodes@
            &&& next.done == querying.done + 1
            &&& match result {
                Ok(handles) => next.handles@ == querying.handles@ + handles@ && next.failure
                    == querying.failure,
                Err(e) => next.handles@ == querying.handles@ && next.failure
                    == match querying.failure {
                    Some(first) => Some(first),
                    None => Some(e),
                },
            }
        };
    let all = next.handles@;
    assert(all == before + result->Ok_0@);
    let date = expiration_of(old(host).conf, now);
    let secs = now.secs + old(host).conf.allocation_duration * 60;
    assert(0 <= secs <= LAST_SECOND);
    let queue = expiring(all, date);
    assert(!queue[0].expired(now));
    assert(crate::hosts::provider::unexpired(queue, now) == queue);
    let left = final(host).provider@.queue;
    assert(left == queue.skip(1));
    if 0 <= i < left.len() {
        assert(left[i].inner == all[i + 1]);
        if i >= before.len() - 1 {
            assert(all[i + 1] == result->Ok_0@[i + 1 - before.len()]);
        }
    }
}

/// What an acquisition asks for is handed on by its task: a node that is to be connected to is.
pub proof fn tasks_hand_on_what_is_asked(
    acquisition: Acquisition,
    host: &mut Host,
    event: AcquireEvent,
    now: Timestamp,
    met: &str,
    res: (HostTask, HostAction),
)
    requires
        call_ensures(
            HostTask::step,
            (HostTask::Acquire(acquisition), host, HostEvent::Acquire(event), now, met),
            res,
        ),
    ensures
        res.0 is Acquire,
        res.1 is Answer ==> res.1->Answer_0 is AcquireNode,
        res.1 is Acquire ==> !(res.1->Acquire_0 is Return),
        acquisition.stage is Spawn && event is Spawned && event->Spawned_0 is Err
            && acquisition.stage->Spawn_0.attempt < 10 ==> {
            &&& res.1 is Acquire
            &&& res.1->Acquire_0 is Spawn
            &&& res.1->Acquire_0->Spawn_0.user == old(host).profile.user
            &&& res.0->Acquire_0.stage->Spawn_0.attempt == acquisition.stage->Spawn_0.attempt + 1
        },
        acquisition.stage is Pull && event is Wake && old(host).provider@.queue.len() == 0
            && old(host).provider@.held == 0 && !old(host).provider@.shut
            && old(host).provider@.fresh ==> {
            &&& res.1 is Acquire
            &&& res.1->Acquire_0 is Start
            &&& res.1->Acquire_0->Start_1@ == old(host).conf.start_allocation@
        },
{
}

} // verus!
