//! The application: jobs are submitted to it, and it handles their post-processing.
use vstd::prelude::*;
#[allow(unused_imports)]
use vstd::string::*;
use crate::application::job::Job;
#[allow(unused_imports)]
use crate::application::job::JobStage;
use crate::commons::Table;
use crate::repository::{
    ExecutionConf, ExecutionParameters, ExecutionState, ExecutionTag, ExperimentCommit,
};
use crate::ssh::config::show_option;
#[allow(unused_imports)]
use crate::ssh::config::shown_option;
use crate::misc::debug;
#[allow(unused_imports)]
use crate::misc::debug_text;
#[allow(unused_imports)]
use crate::text::{cat, cat3};

pub mod job;

verus! {

//---------------------------------------------------------------------------------------- ERRORS
#[derive(Debug)]
pub enum Error {
    PerformExecFailed(String),
    PostProcessExecFailed(String),
    ExecutionFailed(String),
    UnknownHost(String),
    OperationFetch(String),
    Channel(String),
    AcquireLock(String),
}

impl Error {
    /// The characters of the text of the error.
    pub open spec fn text(&self) -> Seq<char> {
        match self {
            Error::PerformExecFailed(s) => "Execution failed: \n"@ + s@,
            Error::PostProcessExecFailed(s) => "Post processing of execution failed: \n"@ + s@,
            Error::ExecutionFailed(s) => "Remote command failed: \n"@ + s@,
            Error::UnknownHost(s) => "Unknown host: \n"@ + s@,
            Error::OperationFetch(s) => "Failed to fetch operation: \n"@ + s@,
            Error::Channel(s) => "Failed to send operation to channel: \n"@ + s@,
            Error::AcquireLock(s) => "Failed to acquire lock: \n"@ + s@,
        }
    }

    /// The text of the error.
    pub fn message(&self) -> (res: String)
        ensures
            res@ == self.text(),
    {
        match self {
            Error::PerformExecFailed(s) => cat("Execution failed: \n", s.as_str()),
            Error::PostProcessExecFailed(s) => cat("Post processing of execution failed: \n", s.as_str()),
            Error::ExecutionFailed(s) => cat("Remote command failed: \n", s.as_str()),
            Error::UnknownHost(s) => cat("Unknown host: \n", s.as_str()),
            Error::OperationFetch(s) => cat("Failed to fetch operation: \n", s.as_str()),
            Error::Channel(s) => cat("Failed to send operation to channel: \n", s.as_str()),
            Error::AcquireLock(s) => cat("Failed to acquire lock: \n", s.as_str()),
        }
    }

    /// How the error is shown: the variant, and what it holds.
    pub open spec fn shown(&self) -> Seq<char> {
        match self {
            Error::PerformExecFailed(s) => "PerformExecFailed("@ + debug_text(s@) + ")"@,
            Error::PostProcessExecFailed(s) => "PostProcessExecFailed("@ + debug_text(s@) + ")"@,
            Error::ExecutionFailed(s) => "ExecutionFailed("@ + debug_text(s@) + ")"@,
            Error::UnknownHost(s) => "UnknownHost("@ + debug_text(s@) + ")"@,
            Error::OperationFetch(s) => "OperationFetch("@ + debug_text(s@) + ")"@,
            Error::Channel(s) => "Channel("@ + debug_text(s@) + ")"@,
            Error::AcquireLock(s) => "AcquireLock("@ + debug_text(s@) + ")"@,
        }
    }

    /// Shows the error.
    pub fn show(&self) -> (res: String)
        ensures
            res@ == self.shown(),
    {
        match self {
            Error::PerformExecFailed(s) => cat3("PerformExecFailed(", debug(s.as_str()).as_str(), ")"),
            Error::PostProcessExecFailed(s) => cat3("PostProcessExecFailed(", debug(s.as_str()).as_str(), ")"),
            Error::ExecutionFailed(s) => cat3("ExecutionFailed(", debug(s.as_str()).as_str(), ")"),
            Error::UnknownHost(s) => cat3("UnknownHost(", debug(s.as_str()).as_str(), ")"),
            Error::OperationFetch(s) => cat3("OperationFetch(", debug(s.as_str()).as_str(), ")"),
            Error::Channel(s) => cat3("Channel(", debug(s.as_str()).as_str(), ")"),
            Error::AcquireLock(s) => cat3("AcquireLock(", debug(s.as_str()).as_str(), ")"),
        }
    }
}

impl Clone for Error {
    fn clone(&self) -> (res: Error)
        ensures
            res == *self,
    {
        match self {
            Error::PerformExecFailed(s) => Error::PerformExecFailed(s.clone()),
            Error::PostProcessExecFailed(s) => Error::PostProcessExecFailed(s.clone()),
            Error::ExecutionFailed(s) => Error::ExecutionFailed(s.clone()),
            Error::UnknownHost(s) => Error::UnknownHost(s.clone()),
            Error::OperationFetch(s) => Error::OperationFetch(s.clone()),
            Error::Channel(s) => Error::Channel(s.clone()),
            Error::AcquireLock(s) => Error::AcquireLock(s.clone()),
        }
    }
}

//----------------------------------------------------------------------------------- APPLICATION
/// A host that was registered: its connection, by its number, and the directory that contains the
/// executions on it.
#[derive(Debug)]
pub struct HostEntry {
    pub handle: u64,
    pub name: String,
    pub directory: String,
}

impl Clone for HostEntry {
    fn clone(&self) -> (res: HostEntry)
        ensures
            res == *self,
    {
        HostEntry {
            handle: self.handle,
            name: self.name.clone(),
            directory: self.directory.clone(),
        }
    }
}

/// The inner application resource: the known hosts by name, and whether the executions that did not
/// complete are scheduled again.
///
/// A submission does not wait for the job, but only makes it. The job calls for a post-processing of
/// its execution once it is over, which gives the control back.
pub struct Application {
    pub hosts: Table<HostEntry>,
    pub reschedule: bool,
}

/// Whether a job is a new one, for the given execution on the given host.
pub open spec fn is_new_job(
    job: Job,
    host: HostEntry,
    commit: ExperimentCommit,
    parameters: ExecutionParameters,
    tags: Seq<ExecutionTag>,
) -> bool {
    &&& job.host == host
    &&& job.commit == commit
    &&& job.parameters == parameters
    &&& job.tags@ == tags
    &&& job.execution is None
}

/// What the submission of an execution gives: a job that is to be started with the creation of the
/// execution, where the host is known.
pub open spec fn submitted(
    hosts: Map<Seq<char>, HostEntry>,
    commit: ExperimentCommit,
    parameters: ExecutionParameters,
    tags: Seq<ExecutionTag>,
    host: Seq<char>,
    res: Result<Job, Error>,
) -> bool {
    if hosts.contains_key(host) {
        &&& res is Ok
        &&& is_new_job(res->Ok_0, hosts[host], commit, parameters, tags)
        &&& res->Ok_0.stage == JobStage::Create
    } else {
        &&& res is Err
        &&& res->Err_0 is UnknownHost
        &&& res->Err_0->UnknownHost_0@ == "Unknown host "@ + host
    }
}

/// What the post-processing of an execution gives. One that completed is done with. Another one is
/// scheduled again on the host that ran it, if rescheduling is active: the job starts with the
/// deletion of the execution.
pub open spec fn post_processed(
    app: Application,
    exec: ExecutionConf,
    res: Result<Option<Job>, Error>,
) -> bool {
    if exec.state == ExecutionState::Completed || !app.reschedule {
        res == Ok::<Option<Job>, Error>(None)
    } else {
        match exec.executor {
            None => {
                &&& res is Err
                &&& res->Err_0 is UnknownHost
                &&& res->Err_0->UnknownHost_0@ == "No host provided"@
            },
            Some(host) => if app.hosts@.contains_key(host@) {
                &&& res is Ok
                &&& res->Ok_0 is Some
                &&& is_new_job(
                    res->Ok_0->Some_0,
                    app.hosts@[host@],
                    exec.commit,
                    exec.parameters,
                    exec.tags@,
                )
                &&& res->Ok_0->Some_0.stage == JobStage::Delete(exec.identifier)
            } else {
                &&& res is Err
                &&& res->Err_0 is UnknownHost
                &&& res->Err_0->UnknownHost_0@ == "Unknown host "@ + shown_option(Some(host@))
            },
        }
    }
}

impl Application {
    /// No two hosts have the same name.
    pub open spec fn wf(&self) -> bool {
        self.hosts.wf()
    }

    /// An application without hosts, and without rescheduling.
    pub fn new() -> (res: Application)
        ensures
            res.wf(),
            res.hosts@ == Map::<Seq<char>, HostEntry>::empty(),
            !res.reschedule,
    {
        Application { hosts: Table::new(), reschedule: false }
    }

    /// Submits an execution.
    pub fn submit_exec(
        &self,
        commit: ExperimentCommit,
        parameters: ExecutionParameters,
        tags: Vec<ExecutionTag>,
        host: &str,
    ) -> (res: Result<Job, Error>)
        requires
            self.wf(),
        ensures
            submitted(self.hosts@, commit, parameters, tags@, host@, res),
    {
        match self.hosts.get(host) {
            Some(entry) => Ok(
                Job {
                    host: entry.clone(),
                    commit,
                    parameters,
                    tags,
                    execution: None,
                    hash: 0,
                    stage: JobStage::Create,
                },
            ),
            None => Err(Error::UnknownHost(cat("Unknown host ", host))),
        }
    }

    /// Post-processes an execution.
    pub fn post_process_exec(&self, exec: ExecutionConf) -> (res: Result<Option<Job>, Error>)
        requires
            self.wf(),
        ensures
            post_processed(*self, exec, res),
    {
        match (exec.state, self.reschedule) {
            (ExecutionState::Completed, _) => Ok(None),
            (_, false) => Ok(None),
            (_, true) => match &exec.executor {
                None => Err(Error::UnknownHost("No host provided".to_owned())),
                Some(host) => match self.hosts.get(host.as_str()) {
                    None => Err(
                        Error::UnknownHost(
                            cat("Unknown host ", show_option(&exec.executor).as_str()),
                        ),
                    ),
                    Some(entry) => Ok(
                        Some(
                            Job {
                                host: entry.clone(),
                                commit: exec.commit,
                                parameters: exec.parameters,
                                tags: exec.tags,
                                execution: None,
                                hash: 0,
                                stage: JobStage::Delete(exec.identifier),
                            },
                        ),
                    ),
                },
            },
        }
    }

    /// Registers a host, in the place of one with the same name.
    pub fn register_host(&mut self, host: HostEntry) -> (res: Result<(), Error>)
        requires
            old(self).wf(),
        ensures
            final(self).wf(),
            final(self).hosts@ == old(self).hosts@.insert(host.name@, host),
            final(self).reschedule == old(self).reschedule,
            res == Ok::<(), Error>(()),
    {
        self.hosts.insert(host.name.clone(), host);
        Ok(())
    }

    /// Unregisters a host.
    pub fn unregister_host(&mut self, host: &str) -> (res: Result<(), Error>)
        requires
            old(self).wf(),
        ensures
            final(self).wf(),
            final(self).hosts@ == old(self).hosts@.remove(host@),
            final(self).reschedule == old(self).reschedule,
            res == Ok::<(), Error>(()),
    {
        self.hosts.remove(host);
        Ok(())
    }

    /// Activates rescheduling.
    pub fn activate_rescheduling(&mut self) -> (res: Result<(), Error>)
        ensures
            final(self).hosts == old(self).hosts,
            final(self).reschedule,
            res == Ok::<(), Error>(()),
    {
        self.reschedule = true;
        Ok(())
    }

    /// Deactivates rescheduling.
    pub fn deactivate_rescheduling(&mut self) -> (res: Result<(), Error>)
        ensures
            final(self).hosts == old(self).hosts,
            !final(self).reschedule,
            res == Ok::<(), Error>(()),
    {
        self.reschedule = false;
        Ok(())
    }
}

//------------------------------------------------------------------------------------ OPERATIONS
/// The operations that can be asked for on the application.
#[derive(Debug)]
pub enum OperationInput {
    SubmitExec(ExperimentCommit, ExecutionParameters, Vec<ExecutionTag>, String),
    PostProcessExec(ExecutionConf),
    RegisterHost(HostEntry),
    UnregisterHost(String),
    ActivateRescheduling,
    DeactivateRescheduling,
}

/// What is answered.
#[derive(Debug)]
pub enum OperationOutput {
    SubmitExec(Result<(), Error>),
    PostProcessExec(Result<(), Error>),
    RegisterHost(Result<(), Error>),
    UnregisterHost(Result<(), Error>),
    ActivateRescheduling(Result<(), Error>),
    DeactivateRescheduling(Result<(), Error>),
}

/// How a result without a value is shown.
pub open spec fn shown_unit(result: Result<(), Error>) -> Seq<char> {
    match result {
        Ok(_) => "Ok(())"@,
        Err(e) => "Err("@ + e.shown() + ")"@,
    }
}

fn show_unit(result: &Result<(), Error>) -> (res: String)
    ensures
        res@ == shown_unit(*result),
{
    match result {
        Ok(_) => "Ok(())".to_owned(),
        Err(e) => cat3("Err(", e.show().as_str(), ")"),
    }
}

impl OperationOutput {
    /// How the answer is shown: the operation that is answered, and its result.
    pub open spec fn shown(&self) -> Seq<char> {
        match self {
            OperationOutput::SubmitExec(result) => "SubmitExec("@ + shown_unit(*result) + ")"@,
            OperationOutput::PostProcessExec(result) => "PostProcessExec("@ + shown_unit(*result) + ")"@,
            OperationOutput::RegisterHost(result) => "RegisterHost("@ + shown_unit(*result) + ")"@,
            OperationOutput::UnregisterHost(result) => "UnregisterHost("@ + shown_unit(*result) + ")"@,
            OperationOutput::ActivateRescheduling(result) => "ActivateRescheduling("@ + shown_unit(*result) + ")"@,
            OperationOutput::DeactivateRescheduling(result) => "DeactivateRescheduling("@ + shown_unit(*result) + ")"@,
        }
    }

    /// Shows the answer.
    pub fn show(&self) -> (res: String)
        ensures
            res@ == self.shown(),
    {
        match self {
            OperationOutput::SubmitExec(result) => cat3("SubmitExec(", show_unit(result).as_str(), ")"),
            OperationOutput::PostProcessExec(result) => cat3("PostProcessExec(", show_unit(result).as_str(), ")"),
            OperationOutput::RegisterHost(result) => cat3("RegisterHost(", show_unit(result).as_str(), ")"),
            OperationOutput::UnregisterHost(result) => cat3("UnregisterHost(", show_unit(result).as_str(), ")"),
            OperationOutput::ActivateRescheduling(result) => cat3("ActivateRescheduling(", show_unit(result).as_str(), ")"),
            OperationOutput::DeactivateRescheduling(result) => cat3("DeactivateRescheduling(", show_unit(result).as_str(), ")"),
        }
    }
}

/// What an operation does: how the application goes on, what is answered, and the job that is to be
/// started, if any.
pub open spec fn performed(
    before: Application,
    operation: OperationInput,
    after: Application,
    answer: OperationOutput,
    job: Option<Job>,
) -> bool {
    match operation {
        OperationInput::SubmitExec(commit, parameters, tags, host) => {
            &&& after == before
            &&& answer is SubmitExec
            &&& match answer->SubmitExec_0 {
                Ok(_) => job is Some && submitted(
                    before.hosts@,
                    commit,
                    parameters,
                    tags@,
                    host@,
                    Ok(job->Some_0),
                ),
                Err(e) => job is None && submitted(
                    before.hosts@,
                    commit,
                    parameters,
                    tags@,
                    host@,
                    Err(e),
                ),
            }
        },
        OperationInput::PostProcessExec(exec) => {
            &&& after == before
            &&& answer is PostProcessExec
            &&& match answer->PostProcessExec_0 {
                Ok(_) => post_processed(before, exec, Ok(job)),
                Err(e) => job is None && post_processed(before, exec, Err(e)),
            }
        },
        OperationInput::RegisterHost(host) => {
            &&& after.hosts@ == before.hosts@.insert(host.name@, host)
            &&& after.reschedule == before.reschedule
            &&& answer == OperationOutput::RegisterHost(Ok(()))
            &&& job is None
        },
        OperationInput::UnregisterHost(host) => {
            &&& after.hosts@ == before.hosts@.remove(host@)
            &&& after.reschedule == before.reschedule
            &&& answer == OperationOutput::UnregisterHost(Ok(()))
            &&& job is None
        },
        OperationInput::ActivateRescheduling => {
            &&& after.hosts == before.hosts
            &&& after.reschedule
            &&& answer == OperationOutput::ActivateRescheduling(Ok(()))
            &&& job is None
        },
        OperationInput::DeactivateRescheduling => {
            &&& after.hosts == before.hosts
            &&& !after.reschedule
            &&& answer == OperationOutput::DeactivateRescheduling(Ok(()))
            &&& job is None
        },
    }
}

impl Application {
    /// Performs the operation that is asked for: the answer to it, and the job that is to be
    /// started, if any.
    pub fn perform(&mut self, operation: OperationInput) -> (res: (OperationOutput, Option<Job>))
        requires
            old(self).wf(),
        ensures
            final(self).wf(),
            performed(*old(self), operation, *final(self), res.0, res.1),
    {
        match operation {
            OperationInput::SubmitExec(commit, parameters, tags, host) => {
                match self.submit_exec(commit, parameters, tags, host.as_str()) {
                    Ok(job) => (OperationOutput::SubmitExec(Ok(())), Some(job)),
                    Err(e) => (OperationOutput::SubmitExec(Err(e)), None),
                }
            },
            OperationInput::PostProcessExec(exec) => match self.post_process_exec(exec) {
                Ok(job) => (OperationOutput::PostProcessExec(Ok(())), job),
                Err(e) => (OperationOutput::PostProcessExec(Err(e)), None),
            },
            OperationInput::RegisterHost(host) => {
                let result = self.register_host(host);
                (OperationOutput::RegisterHost(result), None)
            },
            OperationInput::UnregisterHost(host) => {
                let result = self.unregister_host(host.as_str());
                (OperationOutput::UnregisterHost(result), None)
            },
            OperationInput::ActivateRescheduling => {
                let result = self.activate_rescheduling();
                (OperationOutput::ActivateRescheduling(result), None)
            },
            OperationInput::DeactivateRescheduling => {
                let result = self.deactivate_rescheduling();
                (OperationOutput::DeactivateRescheduling(result), None)
            },
        }
    }
}

/// The error for an answer that is not to the operation that was asked for.
pub open spec fn is_unexpected(expected: Seq<char>, found: Seq<char>, error: Error) -> bool {
    error is OperationFetch && error->OperationFetch_0@ == "Exepected "@ + expected + ", found "@
        + found
}

fn unexpected(expected: &str, found: &OperationOutput) -> (res: Error)
    ensures
        is_unexpected(expected@, found.shown(), res),
{
    let mut text = cat3("Exepected ", expected, ", found ");
    text.append(found.show().as_str());
    Error::OperationFetch(text)
}

/// What the answer to a submission gives. An answer that never came is an error too.
pub fn submit_exec_reply(answer: Result<OperationOutput, String>) -> (res: Result<(), Error>)
    ensures
        match answer {
            Ok(OperationOutput::SubmitExec(result)) => res == result,
            Ok(other) => res is Err && is_unexpected("SubmitExec"@, other.shown(), res->Err_0),
            Err(reason) => res == Err::<(), Error>(Error::OperationFetch(reason)),
        },
{
    match answer {
        Ok(OperationOutput::SubmitExec(result)) => result,
        Ok(other) => Err(unexpected("SubmitExec", &other)),
        Err(reason) => Err(Error::OperationFetch(reason)),
    }
}

/// What the answer to a post-processing gives. An answer that never came is an error too.
pub fn post_process_exec_reply(answer: Result<OperationOutput, String>) -> (res: Result<(), Error>)
    ensures
        match answer {
            Ok(OperationOutput::PostProcessExec(result)) => res == result,
            Ok(other) => res is Err && is_unexpected("PostProcessExec"@, other.shown(), res->Err_0),
            Err(reason) => res == Err::<(), Error>(Error::OperationFetch(reason)),
        },
{
    match answer {
        Ok(OperationOutput::PostProcessExec(result)) => result,
        Ok(other) => Err(unexpected("PostProcessExec", &other)),
        Err(reason) => Err(Error::OperationFetch(reason)),
    }
}

/// What the answer to a registration gives. An answer that never came is an error too.
pub fn register_host_reply(answer: Result<OperationOutput, String>) -> (res: Result<(), Error>)
    ensures
        match answer {
            Ok(OperationOutput::RegisterHost(result)) => res == result,
            Ok(other) => res is Err && is_unexpected("RegisterHost"@, other.shown(), res->Err_0),
            Err(reason) => res == Err::<(), Error>(Error::OperationFetch(reason)),
        },
{
    match answer {
        Ok(OperationOutput::RegisterHost(result)) => result,
        Ok(other) => Err(unexpected("RegisterHost", &other)),
        Err(reason) => Err(Error::OperationFetch(reason)),
    }
}

/// What the answer to an unregistration gives. An answer that never came is an error too.
pub fn unregister_host_reply(answer: Result<OperationOutput, String>) -> (res: Result<(), Error>)
    ensures
        match answer {
            Ok(OperationOutput::UnregisterHost(result)) => res == result,
            Ok(other) => res is Err && is_unexpected("UnregisterHost"@, other.shown(), res->Err_0),
            Err(reason) => res == Err::<(), Error>(Error::OperationFetch(reason)),
        },
{
    match answer {
        Ok(OperationOutput::UnregisterHost(result)) => result,
        Ok(other) => Err(unexpected("UnregisterHost", &other)),
        Err(reason) => Err(Error::OperationFetch(reason)),
    }
}

/// What the answer to an activation of the rescheduling gives. An answer that never came is an error too.
pub fn activate_rescheduling_reply(answer: Result<OperationOutput, String>) -> (res: Result<(), Error>)
    ensures
        match answer {
            Ok(OperationOutput::ActivateRescheduling(result)) => res == result,
            Ok(other) => res is Err && is_unexpected("ActivateRescheduling"@, other.shown(), res->Err_0),
            Err(reason) => res == Err::<(), Error>(Error::OperationFetch(reason)),
        },
{
    match answer {
        Ok(OperationOutput::ActivateRescheduling(result)) => result,
        Ok(other) => Err(unexpected("ActivateRescheduling", &other)),
        Err(reason) => Err(Error::OperationFetch(reason)),
    }
}

/// What the answer to a deactivation of the rescheduling gives. An answer that never came is an error too.
pub fn deactivate_rescheduling_reply(answer: Result<OperationOutput, String>) -> (res: Result<(), Error>)
    ensures
        match answer {
            Ok(OperationOutput::DeactivateRescheduling(result)) => res == result,
            Ok(other) => res is Err && is_unexpected("DeactivateRescheduling"@, other.shown(), res->Err_0),
            Err(reason) => res == Err::<(), Error>(Error::OperationFetch(reason)),
        },
{
    match answer {
        Ok(OperationOutput::DeactivateRescheduling(result)) => result,
        Ok(other) => Err(unexpected("DeactivateRescheduling", &other)),
        Err(reason) => Err(Error::OperationFetch(reason)),
    }
}

//------------------------------------------------------------------------------------------ LAWS
/// A host can be submitted to as soon as it is registered, until it is unregistered.
pub proof fn registered_hosts_are_known(
    before: Application,
    host: HostEntry,
    registered: Application,
    answer: OperationOutput,
    job: Option<Job>,
    unregistered: Application,
    name: String,
    last_answer: OperationOutput,
    last_job: Option<Job>,
)
    requires
        performed(before, OperationInput::RegisterHost(host), registered, answer, job),
        name@ == host.name@,
        performed(
            registered,
            OperationInput::UnregisterHost(name),
            unregistered,
            last_answer,
            last_job,
        ),
    ensures
        registered.hosts@.contains_pair(host.name@, host),
        !unregistered.hosts@.contains_key(host.name@),
        unregistered.hosts@ == before.hosts@.remove(host.name@),
{
    assert(unregistered.hosts@ =~= before.hosts@.remove(host.name@));
}

/// An execution is scheduled again only if rescheduling is active and it did not complete, and then
/// only with what it was made from.
pub proof fn rescheduled_only_if_wanted(
    app: Application,
    exec: ExecutionConf,
    after: Application,
    answer: OperationOutput,
    job: Option<Job>,
)
    requires
        performed(app, OperationInput::PostProcessExec(exec), after, answer, job),
    ensures
        job is Some ==> {
            &&& app.reschedule
            &&& exec.state != ExecutionState::Completed
            &&& job->Some_0.commit == exec.commit
            &&& job->Some_0.parameters == exec.parameters
            &&& job->Some_0.tags@ == exec.tags@
            &&& job->Some_0.stage == JobStage::Delete(exec.identifier)
        },
        after == app,
{
}

/// A submission makes a job of what was submitted, on the host that has the name; a host that is not
/// known is an error.
pub proof fn submission_makes_a_job(
    app: Application,
    commit: ExperimentCommit,
    parameters: ExecutionParameters,
    tags: Vec<ExecutionTag>,
    host: &str,
    res: Result<Job, Error>,
)
    requires
        call_ensures(Application::submit_exec, (&app, commit, parameters, tags, host), res),
    ensures
        res is Ok <==> app.hosts@.contains_key(host@),
        res is Ok ==> {
            &&& res->Ok_0.host == app.hosts@[host@]
            &&& res->Ok_0.commit == commit
            &&& res->Ok_0.parameters == parameters
            &&& res->Ok_0.tags@ == tags@
            &&& res->Ok_0.execution is None
            &&& res->Ok_0.stage is Create
        },
        res is Err ==> res->Err_0.text() == "Unknown host: \n"@ + ("Unknown host "@ + host@),
{
}

/// An execution that did not complete is scheduled again where rescheduling is active, on the host that
/// ran it, with what it was made from, and its old self is deleted first. One that completed, or any
/// one where rescheduling is not active, is done with.
pub proof fn incomplete_executions_are_scheduled_again(
    app: Application,
    exec: ExecutionConf,
    res: Result<Option<Job>, Error>,
)
    requires
        call_ensures(Application::post_process_exec, (&app, exec), res),
    ensures
        exec.state is Completed || !app.reschedule ==> res == Ok::<Option<Job>, Error>(None),
        !(exec.state is Completed) && app.reschedule && exec.executor is Some
            && app.hosts@.contains_key(exec.executor->Some_0@) ==> {
            &&& res is Ok
            &&& res->Ok_0 is Some
            &&& res->Ok_0->Some_0.host == app.hosts@[exec.executor->Some_0@]
            &&& res->Ok_0->Some_0.commit == exec.commit
            &&& res->Ok_0->Some_0.parameters == exec.parameters
            &&& res->Ok_0->Some_0.tags@ == exec.tags@
            &&& res->Ok_0->Some_0.execution is None
            &&& res->Ok_0->Some_0.stage == JobStage::Delete(exec.identifier)
        },
        !(exec.state is Completed) && app.reschedule && (exec.executor is None
            || !app.hosts@.contains_key(exec.executor->Some_0@)) ==> res is Err,
{
}

/// A host that is registered is known by its name, in the place of one with the same name, until it is
/// unregistered; the other hosts stay as they are.
pub proof fn hosts_are_known_by_their_names(
    registered: &mut Application,
    unregistered: &mut Application,
    host: HostEntry,
    name: &str,
    other: Seq<char>,
    res: Result<(), Error>,
    res_un: Result<(), Error>,
)
    requires
        call_ensures(Application::register_host, (registered, host), res),
        call_ensures(Application::unregister_host, (unregistered, name), res_un),
    ensures
        res is Ok && res_un is Ok,
        final(registered).hosts@.contains_key(host.name@),
        final(registered).hosts@[host.name@] == host,
        other != host.name@ ==> (final(registered).hosts@.contains_key(other)
            <==> old(registered).hosts@.contains_key(other)) && final(registered).hosts@[other]
            == old(registered).hosts@[other],
        !final(unregistered).hosts@.contains_key(name@),
        other != name@ ==> (final(unregistered).hosts@.contains_key(other)
            <==> old(unregistered).hosts@.contains_key(other)) && final(unregistered).hosts@[other]
            == old(unregistered).hosts@[other],
        final(registered).reschedule == old(registered).reschedule,
        final(unregistered).reschedule == old(unregistered).reschedule,
{
}

/// Rescheduling is off until it is activated, and then on until it is deactivated.
pub proof fn rescheduling_is_switched(
    fresh: Application,
    on: &mut Application,
    off: &mut Application,
    res: Result<(), Error>,
)
    requires
        call_ensures(Application::new, (), fresh),
        call_ensures(Application::activate_rescheduling, (on,), res),
        call_ensures(Application::deactivate_rescheduling, (off,), res),
    ensures
        !fresh.reschedule,
        fresh.hosts@ == Map::<Seq<char>, HostEntry>::empty(),
        final(on).reschedule && !final(off).reschedule,
        final(on).hosts == old(on).hosts && final(off).hosts == old(off).hosts,
        res is Ok,
{
}

/// What is asked for is what is done: a submission is answered with success and gives a job exactly
/// where the host is known, a post-processing gives a job where one is wanted, and the others give none.
pub proof fn operations_are_performed(
    app: &mut Application,
    operation: OperationInput,
    other: Seq<char>,
    res: (OperationOutput, Option<Job>),
)
    requires
        call_ensures(Application::perform, (app, operation), res),
    ensures
        operation is SubmitExec ==> {
            let host = operation->SubmitExec_3@;
            &&& res.0 is SubmitExec
            &&& res.0->SubmitExec_0 is Ok <==> old(app).hosts@.contains_key(host)
            &&& res.1 is Some <==> old(app).hosts@.contains_key(host)
            &&& res.1 is Some ==> res.1->Some_0.host == old(app).hosts@[host]
                && res.1->Some_0.commit == operation->SubmitExec_0 && res.1->Some_0.parameters
                == operation->SubmitExec_1 && res.1->Some_0.tags@ == operation->SubmitExec_2@
                && res.1->Some_0.stage is Create
            &&& *final(app) == *old(app)
        },
        operation is PostProcessExec ==> {
            let exec = operation->PostProcessExec_0;
            &&& res.0 is PostProcessExec
            &&& exec.state is Completed || !old(app).reschedule ==> res.1 is None
                && res.0->PostProcessExec_0 is Ok
            &&& !(exec.state is Completed) && old(app).reschedule && exec.executor is Some
                && old(app).hosts@.contains_key(exec.executor->Some_0@) ==> res.1 is Some
                && res.1->Some_0.parameters == exec.parameters && res.1->Some_0.stage
                == JobStage::Delete(exec.identifier)
            &&& *final(app) == *old(app)
        },
        operation is RegisterHost ==> {
            &&& res.0 == OperationOutput::RegisterHost(Ok(()))
            &&& res.1 is None
            &&& final(app).hosts@.contains_key(operation->RegisterHost_0.name@)
            &&& final(app).hosts@[operation->RegisterHost_0.name@] == operation->RegisterHost_0
            &&& other != operation->RegisterHost_0.name@ ==> (final(app).hosts@.contains_key(other)
                <==> old(app).hosts@.contains_key(other)) && final(app).hosts@[other] == old(
                app,
            ).hosts@[other]
        },
        operation is UnregisterHost ==> {
            &&& res.0 == OperationOutput::UnregisterHost(Ok(()))
            &&& res.1 is None
            &&& !final(app).hosts@.contains_key(operation->UnregisterHost_0@)
        },
        operation is ActivateRescheduling ==> final(app).reschedule && res.1 is None,
        operation is DeactivateRescheduling ==> !final(app).reschedule && res.1 is None,
{
}

/// The answers go back to those who asked: each gets the result of its operation, and an answer to
/// another operation, or one that never came, is an error.
pub proof fn answers_go_back(
    answer: Result<OperationOutput, String>,
    submitted: Result<(), Error>,
    processed: Result<(), Error>,
    registered: Result<(), Error>,
    unregistered: Result<(), Error>,
    activated: Result<(), Error>,
    deactivated: Result<(), Error>,
)
    requires
        call_ensures(submit_exec_reply, (answer,), submitted),
        call_ensures(post_process_exec_reply, (answer,), processed),
        call_ensures(register_host_reply, (answer,), registered),
        call_ensures(unregister_host_reply, (answer,), unregistered),
        call_ensures(activate_rescheduling_reply, (answer,), activated),
        call_ensures(deactivate_rescheduling_reply, (answer,), deactivated),
    ensures
        answer is Ok && answer->Ok_0 is SubmitExec ==> submitted == answer->Ok_0->SubmitExec_0,
        answer is Ok && !(answer->Ok_0 is SubmitExec) ==> submitted is Err,
        answer is Err ==> submitted == Err::<(), Error>(Error::OperationFetch(answer->Err_0)),
        answer is Ok && answer->Ok_0 is PostProcessExec ==> processed == answer->Ok_0->PostProcessExec_0,
        answer is Ok && !(answer->Ok_0 is PostProcessExec) ==> processed is Err,
        answer is Err ==> processed == Err::<(), Error>(Error::OperationFetch(answer->Err_0)),
        answer is Ok && answer->Ok_0 is RegisterHost ==> registered == answer->Ok_0->RegisterHost_0,
        answer is Ok && !(answer->Ok_0 is RegisterHost) ==> registered is Err,
        answer is Err ==> registered == Err::<(), Error>(Error::OperationFetch(answer->Err_0)),
        answer is Ok && answer->Ok_0 is UnregisterHost ==> unregistered == answer->Ok_0->UnregisterHost_0,
        answer is Ok && !(answer->Ok_0 is UnregisterHost) ==> unregistered is Err,
        answer is Err ==> unregistered == Err::<(), Error>(Error::OperationFetch(answer->Err_0)),
        answer is Ok && answer->Ok_0 is ActivateRescheduling ==> activated == answer->Ok_0->ActivateRescheduling_0,
        answer is Ok && !(answer->Ok_0 is ActivateRescheduling) ==> activated is Err,
        answer is Err ==> activated == Err::<(), Error>(Error::OperationFetch(answer->Err_0)),
        answer is Ok && answer->Ok_0 is DeactivateRescheduling ==> deactivated == answer->Ok_0->DeactivateRescheduling_0,
        answer is Ok && !(answer->Ok_0 is DeactivateRescheduling) ==> deactivated is Err,
        answer is Err ==> deactivated == Err::<(), Error>(Error::OperationFetch(answer->Err_0)),
{
}

/// What an error says: what failed, and the reason that it holds.
pub proof fn errors_say_what_failed(error: Error, said: String, shown: String)
    requires
        call_ensures(Error::message, (&error,), said),
        call_ensures(Error::show, (&error,), shown),
    ensures
        error is PerformExecFailed ==> said@ == "Execution failed: \n"@ + error->PerformExecFailed_0@,
        error is PostProcessExecFailed ==> said@ == "Post processing of execution failed: \n"@ + error->PostProcessExecFailed_0@,
        error is ExecutionFailed ==> said@ == "Remote command failed: \n"@ + error->ExecutionFailed_0@,
        error is UnknownHost ==> said@ == "Unknown host: \n"@ + error->UnknownHost_0@,
        error is OperationFetch ==> said@ == "Failed to fetch operation: \n"@ + error->OperationFetch_0@,
        error is Channel ==> said@ == "Failed to send operation to channel: \n"@ + error->Channel_0@,
        error is AcquireLock ==> said@ == "Failed to acquire lock: \n"@ + error->AcquireLock_0@,
        error is PerformExecFailed ==> shown@ == "PerformExecFailed("@ + debug_text(error->PerformExecFailed_0@) + ")"@,
        error is PostProcessExecFailed ==> shown@ == "PostProcessExecFailed("@ + debug_text(error->PostProcessExecFailed_0@) + ")"@,
        error is ExecutionFailed ==> shown@ == "ExecutionFailed("@ + debug_text(error->ExecutionFailed_0@) + ")"@,
        error is UnknownHost ==> shown@ == "UnknownHost("@ + debug_text(error->UnknownHost_0@) + ")"@,
        error is OperationFetch ==> shown@ == "OperationFetch("@ + debug_text(error->OperationFetch_0@) + ")"@,
        error is Channel ==> shown@ == "Channel("@ + debug_text(error->Channel_0@) + ")"@,
        error is AcquireLock ==> shown@ == "AcquireLock("@ + debug_text(error->AcquireLock_0@) + ")"@,
{
}

/// An answer is shown by its operation and its result, and where another one was expected, the error
/// says which one, and shows the answer.
pub proof fn unexpected_answers_are_shown(
    answer: OperationOutput,
    text: String,
    submitted: Result<(), Error>,
    processed: Result<(), Error>,
    registered: Result<(), Error>,
    unregistered: Result<(), Error>,
    activated: Result<(), Error>,
    deactivated: Result<(), Error>,
)
    requires
        call_ensures(OperationOutput::show, (&answer,), text),
        call_ensures(
            submit_exec_reply,
            (Ok::<OperationOutput, String>(answer),),
            submitted,
        ),
        call_ensures(
            post_process_exec_reply,
            (Ok::<OperationOutput, String>(answer),),
            processed,
        ),
        call_ensures(
            register_host_reply,
            (Ok::<OperationOutput, String>(answer),),
            registered,
        ),
        call_ensures(
            unregister_host_reply,
            (Ok::<OperationOutput, String>(answer),),
            unregistered,
        ),
        call_ensures(
            activate_rescheduling_reply,
            (Ok::<OperationOutput, String>(answer),),
            activated,
        ),
        call_ensures(
            deactivate_rescheduling_reply,
            (Ok::<OperationOutput, String>(answer),),
            deactivated,
        ),
    ensures
        !(answer is SubmitExec) ==> submitted->Err_0 is OperationFetch && submitted->Err_0->OperationFetch_0@
            == "Exepected "@ + "SubmitExec"@ + ", found "@ + text@,
        answer is SubmitExec && answer->SubmitExec_0 is Err ==> text@ == "SubmitExec("@ + ("Err("@ + answer->SubmitExec_0->Err_0.shown()
            + ")"@) + ")"@,
        answer is SubmitExec && answer->SubmitExec_0 is Ok ==> text@ == "SubmitExec("@ + "Ok(())"@ + ")"@,
        !(answer is PostProcessExec) ==> processed->Err_0 is OperationFetch && processed->Err_0->OperationFetch_0@
            == "Exepected "@ + "PostProcessExec"@ + ", found "@ + text@,
        answer is PostProcessExec && answer->PostProcessExec_0 is Err ==> text@ == "PostProcessExec("@ + ("Err("@ + answer->PostProcessExec_0->Err_0.shown()
            + ")"@) + ")"@,
        answer is PostProcessExec && answer->PostProcessExec_0 is Ok ==> text@ == "PostProcessExec("@ + "Ok(())"@ + ")"@,
        !(answer is RegisterHost) ==> registered->Err_0 is OperationFetch && registered->Err_0->OperationFetch_0@
            == "Exepected "@ + "RegisterHost"@ + ", found "@ + text@,
        answer is RegisterHost && answer->RegisterHost_0 is Err ==> text@ == "RegisterHost("@ + ("Err("@ + answer->RegisterHost_0->Err_0.shown()
            + ")"@) + ")"@,
        answer is RegisterHost && answer->RegisterHost_0 is Ok ==> text@ == "RegisterHost("@ + "Ok(())"@ + ")"@,
        !(answer is UnregisterHost) ==> unregistered->Err_0 is OperationFetch && unregistered->Err_0->OperationFetch_0@
            == "Exepected "@ + "UnregisterHost"@ + ", found "@ + text@,
        answer is UnregisterHost && answer->UnregisterHost_0 is Err ==> text@ == "UnregisterHost("@ + ("Err("@ + answer->UnregisterHost_0->Err_0.shown()
            + ")"@) + ")"@,
        answer is UnregisterHost && answer->UnregisterHost_0 is Ok ==> text@ == "UnregisterHost("@ + "Ok(())"@ + ")"@,
        !(answer is ActivateRescheduling) ==> activated->Err_0 is OperationFetch && activated->Err_0->OperationFetch_0@
            == "Exepected "@ + "ActivateRescheduling"@ + ", found "@ + text@,
        answer is ActivateRescheduling && answer->ActivateRescheduling_0 is Err ==> text@ == "ActivateRescheduling("@ + ("Err("@ + answer->ActivateRescheduling_0->Err_0.shown()
            + ")"@) + ")"@,
        answer is ActivateRescheduling && answer->ActivateRescheduling_0 is Ok ==> text@ == "ActivateRescheduling("@ + "Ok(())"@ + ")"@,
        !(answer is DeactivateRescheduling) ==> deactivated->Err_0 is OperationFetch && deactivated->Err_0->OperationFetch_0@
            == "Exepected "@ + "DeactivateRescheduling"@ + ", found "@ + text@,
        answer is DeactivateRescheduling && answer->DeactivateRescheduling_0 is Err ==> text@ == "DeactivateRescheduling("@ + ("Err("@ + answer->DeactivateRescheduling_0->Err_0.shown()
            + ")"@) + ")"@,
        answer is DeactivateRescheduling && answer->DeactivateRescheduling_0 is Ok ==> text@ == "DeactivateRescheduling("@ + "Ok(())"@ + ")"@,
{
}

/// A copy of a host is the same, and an execution that is to be scheduled again without a host is
/// refused.
pub proof fn hosts_are_copied_and_needed(
    host: HostEntry,
    copied: HostEntry,
    app: Application,
    exec: ExecutionConf,
    res: Result<Option<Job>, Error>,
)
    requires
        call_ensures(HostEntry::clone, (&host,), copied),
        call_ensures(Application::post_process_exec, (&app, exec), res),
        !(exec.state is Completed),
        app.reschedule,
        exec.executor is None,
    ensures
        copied == host,
        res is Err && res->Err_0.text() == "Unknown host: \n"@ + "No host provided"@,
{
}

} // verus!
