//! The operations of a campaign, from the request to the answer.
use vstd::prelude::*;
#[allow(unused_imports)]
use vstd::string::*;
#[allow(unused_imports)]
use crate::commons::Stored;
use crate::misc::debug;
#[allow(unused_imports)]
use crate::misc::debug_text;
#[allow(unused_imports)]
use crate::primitives::Timestamp;
use crate::repository::campaign::{
    Campaign, ChangeEvent, ChangeExecution, ChangeStage, CreateEvent, CreateExecution, CreateStage,
    DeleteEvent, DeleteExecution, DeleteStage, FetchEvent, FetchExecutions, FetchExecutionsEvent,
    FetchExecutionsStage, FetchExperiment, FetchStage, Step,
};
#[allow(unused_imports)]
use crate::repository::campaign::{
    change_step, create_step, created_execution, delete_step, fetch_executions_step,
    fetch_experiment_step, finishes, is_not_cached,
};
use crate::repository::{
    CampaignConf, Error, ExecutionConf, ExecutionId, ExecutionParameters, ExecutionTag,
    ExecutionUpdate, ExperimentCommit,
};
#[allow(unused_imports)]
use crate::repository::{ExecutionState, ExecutionView, UpdateView, is_random_id, tag_texts};
use crate::ssh::config::show_option;
#[allow(unused_imports)]
use crate::ssh::config::shown_option;
#[allow(unused_imports)]
use crate::text::{cat3, opt_text};

verus! {

/// The operations that can be asked for on a campaign.
#[derive(Debug)]
pub enum OperationInput {
    FetchExperiment,
    CreateExecution(ExperimentCommit, ExecutionParameters, Vec<ExecutionTag>),
    UpdateExecution(ExecutionId, ExecutionUpdate),
    FinishExecution(ExecutionId),
    DeleteExecution(ExecutionId),
    FetchExecutions,
    GetExecutions,
}

/// What is answered.
#[derive(Debug)]
pub enum OperationOutput {
    FetchExperiment(Result<CampaignConf, Error>),
    CreateExecution(Result<ExecutionConf, Error>),
    UpdateExecution(Result<ExecutionConf, Error>),
    FinishExecution(Result<ExecutionConf, Error>),
    DeleteExecution(Result<(), Error>),
    FetchExecutions(Result<Vec<ExecutionConf>, Error>),
    GetExecutions(Result<Vec<ExecutionConf>, Error>),
}

/// How a result without a value is shown.
pub open spec fn shown_unit(result: Result<(), Error>) -> Seq<char> {
    match result {
        Ok(_) => "Ok(())"@,
        Err(e) => "Err("@ + e.shown() + ")"@,
    }
}

fn show_unit(result: &Result<(), Error>) -> (res: String)
    ensures
        res@ == shown_unit(*result),
{
    match result {
        Ok(_) => "Ok(())".to_owned(),
        Err(e) => cat3("Err(", e.show().as_str(), ")"),
    }
}

/// How a result with a value is shown, where the value is shown as given.
pub open spec fn shown_value<T>(result: Result<T, Error>, value: Seq<char>) -> Seq<char> {
    match result {
        Ok(_) => "Ok("@ + value + ")"@,
        Err(e) => "Err("@ + e.shown() + ")"@,
    }
}

fn show_value<T>(result: &Result<T, Error>, value: &str) -> (res: String)
    ensures
        res@ == shown_value(*result, value@),
{
    match result {
        Ok(_) => cat3("Ok(", value, ")"),
        Err(e) => cat3("Err(", e.show().as_str(), ")"),
    }
}

/// How a result with the configuration of a campaign is shown.
pub open spec fn shown_campaign(result: Result<CampaignConf, Error>) -> Seq<char> {
    match result {
        Ok(conf) => "Ok(CampaignConf { path: "@ + shown_option(opt_text(conf.path))
            + ", synchro: Null(NullSynchronizer), version: "@ + debug_text(conf.version@) + " })"@,
        Err(e) => "Err("@ + e.shown() + ")"@,
    }
}

fn show_campaign(result: &Result<CampaignConf, Error>) -> (res: String)
    ensures
        res@ == shown_campaign(*result),
{
    match result {
        Ok(conf) => {
            let mut text = cat3(
                "Ok(CampaignConf { path: ",
                show_option(&conf.path).as_str(),
                ", synchro: Null(NullSynchronizer), version: ",
            );
            text.append(debug(conf.version.as_str()).as_str());
            text.append(" })");
            text
        },
        Err(e) => cat3("Err(", e.show().as_str(), ")"),
    }
}

impl OperationOutput {
    /// How the answer is shown: the operation that is answered, and its result, where the value of
    /// the result is shown as given.
    pub open spec fn shown(&self, value: Seq<char>) -> Seq<char> {
        match self {
            OperationOutput::FetchExperiment(result) => "FetchExperiment("@ + shown_campaign(*result) + ")"@,
            OperationOutput::CreateExecution(result) => "CreateExecution("@ + shown_value(*result, value) + ")"@,
            OperationOutput::UpdateExecution(result) => "UpdateExecution("@ + shown_value(*result, value) + ")"@,
            OperationOutput::FinishExecution(result) => "FinishExecution("@ + shown_value(*result, value) + ")"@,
            OperationOutput::DeleteExecution(result) => "DeleteExecution("@ + shown_unit(*result) + ")"@,
            OperationOutput::FetchExecutions(result) => "FetchExecutions("@ + shown_value(*result, value) + ")"@,
            OperationOutput::GetExecutions(result) => "GetExecutions("@ + shown_value(*result, value) + ")"@,
        }
    }

    /// Shows the answer.
    pub fn show(&self, value: &str) -> (res: String)
        ensures
            res@ == self.shown(value@),
    {
        match self {
            OperationOutput::FetchExperiment(result) => cat3("FetchExperiment(", show_campaign(result).as_str(), ")"),
            OperationOutput::CreateExecution(result) => cat3("CreateExecution(", show_value(result, value).as_str(), ")"),
            OperationOutput::UpdateExecution(result) => cat3("UpdateExecution(", show_value(result, value).as_str(), ")"),
            OperationOutput::FinishExecution(result) => cat3("FinishExecution(", show_value(result, value).as_str(), ")"),
            OperationOutput::DeleteExecution(result) => cat3("DeleteExecution(", show_unit(result).as_str(), ")"),
            OperationOutput::FetchExecutions(result) => cat3("FetchExecutions(", show_value(result, value).as_str(), ")"),
            OperationOutput::GetExecutions(result) => cat3("GetExecutions(", show_value(result, value).as_str(), ")"),
        }
    }
}

//------------------------------------------------------------------------------------------ TASKS
/// An operation that was asked for, and runs.
pub enum CampaignTask {
    FetchExperiment(FetchExperiment),
    CreateExecution(CreateExecution),
    UpdateExecution(ChangeExecution),
    FinishExecution(ChangeExecution),
    DeleteExecution(DeleteExecution),
    FetchExecutions(FetchExecutions),
    Over,
}

/// What came of the last action of a task.
pub enum CampaignEvent {
    FetchExperiment(FetchEvent),
    CreateExecution(CreateEvent),
    ChangeExecution(ChangeEvent),
    DeleteExecution(DeleteEvent),
    FetchExecutions(FetchExecutionsEvent),
}

/// What has to be done next for a task.
pub enum CampaignAction {
    FetchExperiment(FetchStage),
    CreateExecution(CreateStage),
    ChangeExecution(ChangeStage),
    DeleteExecution(DeleteStage),
    FetchExecutions(FetchExecutionsStage),
    /// The operation is over: the answer is sent.
    Answer(OperationOutput),
}

/// Whether the answer to a listing holds each execution of the campaign once.
pub open spec fn lists_all(
    executions: Map<u128, ExecutionView>,
    listed: Seq<ExecutionConf>,
) -> bool {
    &&& listed.len() == executions.dom().len()
    &&& forall|i: int|
        0 <= i < listed.len() ==> executions.contains_pair(
            (#[trigger] listed[i]).identifier.0,
            listed[i]@,
        )
    &&& forall|id: u128| #[trigger]
        executions.contains_key(id) ==> exists|i: int|
            0 <= i < listed.len() && (#[trigger] listed[i])@ == executions[id]
}

/// What the start of an operation does: the task that runs it, and what has to be done first. An
/// operation on an execution that the campaign does not have is answered right away, and so is a
/// listing.
pub open spec fn task_start(
    conf: CampaignConf,
    executions: Map<u128, ExecutionView>,
    operation: OperationInput,
    generator: Seq<char>,
    executions_after: Map<u128, ExecutionView>,
    task: CampaignTask,
    action: CampaignAction,
) -> bool {
    match operation {
        OperationInput::FetchExperiment => {
            &&& executions_after == executions
            &&& task is FetchExperiment
            &&& task->FetchExperiment_0.stage == FetchStage::Remote
            &&& action == CampaignAction::FetchExperiment(FetchStage::Remote)
        },
        OperationInput::CreateExecution(commit, parameters, tags) => {
            &&& executions_after == executions
            &&& task is CreateExecution
            &&& task->CreateExecution_0.stage == CreateStage::Folder
            &&& exists|now: Timestamp, id: u128|
                now.is_clock_time() && is_random_id(id) && #[trigger] created_execution(
                    conf,
                    commit.0@,
                    parameters.0@,
                    tag_texts(tags@),
                    generator,
                    now,
                    id,
                ) == task->CreateExecution_0.conf@
            &&& action == CampaignAction::CreateExecution(CreateStage::Folder)
        },
        OperationInput::UpdateExecution(id, update) => if executions.contains_key(id.0) {
            &&& executions_after == executions.remove(id.0)
            &&& task is UpdateExecution
            &&& task->UpdateExecution_0.stage == ChangeStage::Write
            &&& task->UpdateExecution_0.conf@ == update@.applied(executions[id.0])
            &&& action == CampaignAction::ChangeExecution(ChangeStage::Write)
        } else {
            &&& executions_after == executions
            &&& task is Over
            &&& action is Answer
            &&& action->Answer_0 is UpdateExecution
            &&& action->Answer_0->UpdateExecution_0 is Err
            &&& is_not_cached(action->Answer_0->UpdateExecution_0->Err_0, id.0)
        },
        OperationInput::FinishExecution(id) => if executions.contains_key(id.0) {
            &&& executions_after == executions.remove(id.0)
            &&& task is FinishExecution
            &&& finishes(executions[id.0], 0, task->FinishExecution_0)
            &&& action == CampaignAction::ChangeExecution(task->FinishExecution_0.stage)
        } else {
            &&& executions_after == executions
            &&& task is Over
            &&& action is Answer
            &&& action->Answer_0 is FinishExecution
            &&& action->Answer_0->FinishExecution_0 is Err
            &&& is_not_cached(action->Answer_0->FinishExecution_0->Err_0, id.0)
        },
        OperationInput::DeleteExecution(id) => if executions.contains_key(id.0) {
            &&& executions_after == executions.remove(id.0)
            &&& task is DeleteExecution
            &&& task->DeleteExecution_0.stage == DeleteStage::Remove
            &&& task->DeleteExecution_0.conf@ == executions[id.0]
            &&& action == CampaignAction::DeleteExecution(DeleteStage::Remove)
        } else {
            &&& executions_after == executions
            &&& task is Over
            &&& action is Answer
            &&& action->Answer_0 is DeleteExecution
            &&& action->Answer_0->DeleteExecution_0 is Err
            &&& is_not_cached(action->Answer_0->DeleteExecution_0->Err_0, id.0)
        },
        OperationInput::FetchExecutions => {
            &&& executions_after == executions
            &&& task is FetchExecutions
            &&& task->FetchExecutions_0.stage == FetchExecutionsStage::Before
            &&& task->FetchExecutions_0.before.len() == 0
            &&& task->FetchExecutions_0.added.len() == 0
            &&& task->FetchExecutions_0.fetched.len() == 0
            &&& action == CampaignAction::FetchExecutions(FetchExecutionsStage::Before)
        },
        OperationInput::GetExecutions => {
            &&& executions_after == executions
            &&& task is Over
            &&& action is Answer
            &&& action->Answer_0 is GetExecutions
            &&& action->Answer_0->GetExecutions_0 is Ok
            &&& lists_all(executions, action->Answer_0->GetExecutions_0->Ok_0@)
        },
    }
}

/// What a step of a task does: it is a step of the operation that runs, and what the operation
/// returns is the answer to it.
pub open spec fn task_step(
    conf: CampaignConf,
    executions: Map<u128, ExecutionView>,
    before: CampaignTask,
    event: CampaignEvent,
    executions_after: Map<u128, ExecutionView>,
    after: CampaignTask,
    action: CampaignAction,
) -> bool {
    match (before, event, after) {
        (
            CampaignTask::FetchExperiment(b),
            CampaignEvent::FetchExperiment(e),
            CampaignTask::FetchExperiment(a),
        ) => {
            &&& executions_after == executions
            &&& match action {
                CampaignAction::FetchExperiment(stage) => fetch_experiment_step(
                    conf,
                    b.stage,
                    e,
                    a.stage,
                    Step::Do(stage),
                ),
                CampaignAction::Answer(OperationOutput::FetchExperiment(result)) =>
                fetch_experiment_step(conf, b.stage, e, a.stage, Step::Return(result)),
                _ => false,
            }
        },
        (
            CampaignTask::CreateExecution(b),
            CampaignEvent::CreateExecution(e),
            CampaignTask::CreateExecution(a),
        ) => match action {
            CampaignAction::CreateExecution(stage) => create_step(
                executions,
                b,
                e,
                executions_after,
                a,
                Step::Do(stage),
            ),
            CampaignAction::Answer(OperationOutput::CreateExecution(result)) => create_step(
                executions,
                b,
                e,
                executions_after,
                a,
                Step::Return(result),
            ),
            _ => false,
        },
        (
            CampaignTask::UpdateExecution(b),
            CampaignEvent::ChangeExecution(e),
            CampaignTask::UpdateExecution(a),
        ) => match action {
            CampaignAction::ChangeExecution(stage) => change_step(
                executions,
                b,
                e,
                executions_after,
                a,
                Step::Do(stage),
            ),
            CampaignAction::Answer(OperationOutput::UpdateExecution(result)) => change_step(
                executions,
                b,
                e,
                executions_after,
                a,
                Step::Return(result),
            ),
            _ => false,
        },
        (
            CampaignTask::FinishExecution(b),
            CampaignEvent::ChangeExecution(e),
            CampaignTask::FinishExecution(a),
        ) => match action {
            CampaignAction::ChangeExecution(stage) => change_step(
                executions,
                b,
                e,
                executions_after,
                a,
                Step::Do(stage),
            ),
            CampaignAction::Answer(OperationOutput::FinishExecution(result)) => change_step(
                executions,
                b,
                e,
                executions_after,
                a,
                Step::Return(result),
            ),
            _ => false,
        },
        (
            CampaignTask::DeleteExecution(b),
            CampaignEvent::DeleteExecution(e),
            CampaignTask::DeleteExecution(a),
        ) => {
            &&& executions_after == executions
            &&& match action {
                CampaignAction::DeleteExecution(stage) => delete_step(b, e, a, Step::Do(stage)),
                CampaignAction::Answer(OperationOutput::DeleteExecution(result)) => delete_step(
                    b,
                    e,
                    a,
                    Step::Return(result),
                ),
                _ => false,
            }
        },
        (
            CampaignTask::FetchExecutions(b),
            CampaignEvent::FetchExecutions(e),
            CampaignTask::FetchExecutions(a),
        ) => {
            &&& executions_after == executions
            &&& match action {
                CampaignAction::FetchExecutions(stage) => fetch_executions_step(
                    b,
                    e,
                    a,
                    Step::Do(stage),
                ),
                CampaignAction::Answer(OperationOutput::FetchExecutions(result)) =>
                fetch_executions_step(b, e, a, Step::Return(result)),
                _ => false,
            }
        },
        _ => false,
    }
}

impl CampaignTask {
    pub open spec fn wf(&self) -> bool {
        match self {
            CampaignTask::CreateExecution(task) => task.wf(),
            CampaignTask::UpdateExecution(task) => task.wf(),
            CampaignTask::FinishExecution(task) => task.wf(),
            CampaignTask::FetchExecutions(task) => task.wf(),
            _ => true,
        }
    }

    /// Whether the event can come of what was asked for.
    pub open spec fn accepts(&self, event: CampaignEvent) -> bool {
        match (self, event) {
            (CampaignTask::FetchExperiment(t), CampaignEvent::FetchExperiment(e)) => t.accepts(e),
            (CampaignTask::CreateExecution(t), CampaignEvent::CreateExecution(e)) => t.accepts(e),
            (CampaignTask::UpdateExecution(t), CampaignEvent::ChangeExecution(e)) => t.accepts(e),
            (CampaignTask::FinishExecution(t), CampaignEvent::ChangeExecution(e)) => t.accepts(e),
            (CampaignTask::DeleteExecution(t), CampaignEvent::DeleteExecution(e)) => t.accepts(e),
            (CampaignTask::FetchExecutions(t), CampaignEvent::FetchExecutions(e)) => t.accepts(e),
            _ => false,
        }
    }

    /// Starts the operation that is asked for. Executions are generated by `generator`.
    pub fn start(campaign: &mut Campaign, operation: OperationInput, generator: String) -> (res: (
        CampaignTask,
        CampaignAction,
    ))
        requires
            old(campaign).wf(),
        ensures
            final(campaign).wf(),
            final(campaign).conf == old(campaign).conf,
            res.0.wf(),
            task_start(
                old(campaign).conf,
                old(campaign)@,
                operation,
                generator@,
                final(campaign)@,
                res.0,
                res.1,
            ),
    {
        match operation {
            OperationInput::FetchExperiment => (
                CampaignTask::FetchExperiment(FetchExperiment::start()),
                CampaignAction::FetchExperiment(FetchStage::Remote),
            ),
            OperationInput::CreateExecution(commit, parameters, tags) => {
                let task = CreateExecution::start(campaign, commit, parameters, tags, generator);
                (
                    CampaignTask::CreateExecution(task),
                    CampaignAction::CreateExecution(CreateStage::Folder),
                )
            },
            OperationInput::UpdateExecution(id, update) => {
                match ChangeExecution::update(campaign, id, update) {
                    Ok(task) => (
                        CampaignTask::UpdateExecution(task),
                        CampaignAction::ChangeExecution(ChangeStage::Write),
                    ),
                    Err(e) => (
                        CampaignTask::Over,
                        CampaignAction::Answer(OperationOutput::UpdateExecution(Err(e))),
                    ),
                }
            },
            OperationInput::FinishExecution(id) => {
                match ChangeExecution::finish(campaign, id) {
                    Ok(task) => {
                        let stage = task.stage;
                        (
                            CampaignTask::FinishExecution(task),
                            CampaignAction::ChangeExecution(stage),
                        )
                    },
                    Err(e) => (
                        CampaignTask::Over,
                        CampaignAction::Answer(OperationOutput::FinishExecution(Err(e))),
                    ),
                }
            },
            OperationInput::DeleteExecution(id) => {
                match DeleteExecution::start(campaign, id) {
                    Ok(task) => (
                        CampaignTask::DeleteExecution(task),
                        CampaignAction::DeleteExecution(DeleteStage::Remove),
                    ),
                    Err(e) => (
                        CampaignTask::Over,
                        CampaignAction::Answer(OperationOutput::DeleteExecution(Err(e))),
                    ),
                }
            },
            OperationInput::FetchExecutions => (
                CampaignTask::FetchExecutions(FetchExecutions::start()),
                CampaignAction::FetchExecutions(FetchExecutionsStage::Before),
            ),
            OperationInput::GetExecutions => {
                let listed = campaign.get_executions();
                (
                    CampaignTask::Over,
                    CampaignAction::Answer(OperationOutput::GetExecutions(Ok(listed))),
                )
            },
        }
    }

    /// Takes what came of the last action into account, and says what has to be done next.
    pub fn step(&mut self, campaign: &mut Campaign, event: CampaignEvent) -> (res: CampaignAction)
        requires
            old(self).wf(),
            old(campaign).wf(),
            old(self).accepts(event),
        ensures
            final(self).wf(),
            final(campaign).wf(),
            final(campaign).conf == old(campaign).conf,
            task_step(
                old(campaign).conf,
                old(campaign)@,
                *old(self),
                event,
                final(campaign)@,
                *final(self),
                res,
            ),
    {
        match (self, event) {
            (CampaignTask::FetchExperiment(task), CampaignEvent::FetchExperiment(e)) => {
                match task.step(campaign, e) {
                    Step::Do(stage) => CampaignAction::FetchExperiment(stage),
                    Step::Return(r) => CampaignAction::Answer(OperationOutput::FetchExperiment(r)),
                }
            },
            (CampaignTask::CreateExecution(task), CampaignEvent::CreateExecution(e)) => {
                match task.step(campaign, e) {
                    Step::Do(stage) => CampaignAction::CreateExecution(stage),
                    Step::Return(r) => CampaignAction::Answer(OperationOutput::CreateExecution(r)),
                }
            },
            (CampaignTask::UpdateExecution(task), CampaignEvent::ChangeExecution(e)) => {
                match task.step(campaign, e) {
                    Step::Do(stage) => CampaignAction::ChangeExecution(stage),
                    Step::Return(r) => CampaignAction::Answer(OperationOutput::UpdateExecution(r)),
                }
            },
            (CampaignTask::FinishExecution(task), CampaignEvent::ChangeExecution(e)) => {
                match task.step(campaign, e) {
                    Step::Do(stage) => CampaignAction::ChangeExecution(stage),
                    Step::Return(r) => CampaignAction::Answer(OperationOutput::FinishExecution(r)),
                }
            },
            (CampaignTask::DeleteExecution(task), CampaignEvent::DeleteExecution(e)) => {
                match task.step(e) {
                    Step::Do(stage) => CampaignAction::DeleteExecution(stage),
                    Step::Return(r) => CampaignAction::Answer(OperationOutput::DeleteExecution(r)),
                }
            },
            (CampaignTask::FetchExecutions(task), CampaignEvent::FetchExecutions(e)) => {
                match task.step(e) {
                    Step::Do(stage) => CampaignAction::FetchExecutions(stage),
                    Step::Return(r) => CampaignAction::Answer(OperationOutput::FetchExecutions(r)),
                }
            },
            _ => vstd::pervasive::unreached(),
        }
    }
}

//----------------------------------------------------------------------------------------- REPLIES
/// The error for an answer that is not to the operation that was asked for.
pub open spec fn is_unexpected(expected: Seq<char>, found: Seq<char>, error: Error) -> bool {
    error is OperationFetch && error->OperationFetch_0@ == "Exepected "@ + expected + ", found "@
        + found
}

fn unexpected(expected: &str, found: &OperationOutput, value: &str) -> (res: Error)
    ensures
        is_unexpected(expected@, found.shown(value@), res),
{
    let mut text = cat3("Exepected ", expected, ", found ");
    text.append(found.show(value).as_str());
    Error::OperationFetch(text)
}

/// What the answer to a fetching of the experiment gives. An answer that never came is an error, and so is one to another
/// operation, which is shown with its value as given.
pub fn fetch_experiment_reply(answer: Result<OperationOutput, String>, value: &str) -> (res: Result<
    CampaignConf,
    Error,
>)
    ensures
        match answer {
            Ok(OperationOutput::FetchExperiment(result)) => res == result,
            Ok(other) => res is Err && is_unexpected("FetchExperiment"@, other.shown(value@), res->Err_0),
            Err(reason) => res == Err::<CampaignConf, Error>(Error::OperationFetch(reason)),
        },
{
    match answer {
        Ok(OperationOutput::FetchExperiment(result)) => result,
        Ok(other) => Err(unexpected("FetchExperiment", &other, value)),
        Err(reason) => Err(Error::OperationFetch(reason)),
    }
}

/// What the answer to a creation gives. An answer that never came is an error, and so is one to another
/// operation, which is shown with its value as given.
pub fn create_execution_reply(answer: Result<OperationOutput, String>, value: &str) -> (res: Result<
    ExecutionConf,
    Error,
>)
    ensures
        match answer {
            Ok(OperationOutput::CreateExecution(result)) => res == result,
            Ok(other) => res is Err && is_unexpected("CreateExecution"@, other.shown(value@), res->Err_0),
            Err(reason) => res == Err::<ExecutionConf, Error>(Error::OperationFetch(reason)),
        },
{
    match answer {
        Ok(OperationOutput::CreateExecution(result)) => result,
        Ok(other) => Err(unexpected("CreateExecution", &other, value)),
        Err(reason) => Err(Error::OperationFetch(reason)),
    }
}

/// What the answer to an update gives. An answer that never came is an error, and so is one to another
/// operation, which is shown with its value as given.
pub fn update_execution_reply(answer: Result<OperationOutput, String>, value: &str) -> (res: Result<
    ExecutionConf,
    Error,
>)
    ensures
        match answer {
            Ok(OperationOutput::UpdateExecution(result)) => res == result,
            Ok(other) => res is Err && is_unexpected("UpdateExecution"@, other.shown(value@), res->Err_0),
            Err(reason) => res == Err::<ExecutionConf, Error>(Error::OperationFetch(reason)),
        },
{
    match answer {
        Ok(OperationOutput::UpdateExecution(result)) => result,
        Ok(other) => Err(unexpected("UpdateExecution", &other, value)),
        Err(reason) => Err(Error::OperationFetch(reason)),
    }
}

/// What the answer to a finishing gives. An answer that never came is an error, and so is one to another
/// operation, which is shown with its value as given.
pub fn finish_execution_reply(answer: Result<OperationOutput, String>, value: &str) -> (res: Result<
    ExecutionConf,
    Error,
>)
    ensures
        match answer {
            Ok(OperationOutput::FinishExecution(result)) => res == result,
            Ok(other) => res is Err && is_unexpected("FinishExecution"@, other.shown(value@), res->Err_0),
            Err(reason) => res == Err::<ExecutionConf, Error>(Error::OperationFetch(reason)),
        },
{
    match answer {
        Ok(OperationOutput::FinishExecution(result)) => result,
        Ok(other) => Err(unexpected("FinishExecution", &other, value)),
        Err(reason) => Err(Error::OperationFetch(reason)),
    }
}

/// What the answer to a deletion gives. An answer that never came is an error, and so is one to another
/// operation, which is shown with its value as given.
pub fn delete_execution_reply(answer: Result<OperationOutput, String>, value: &str) -> (res: Result<
    (),
    Error,
>)
    ensures
        match answer {
            Ok(OperationOutput::DeleteExecution(result)) => res == result,
            Ok(other) => res is Err && is_unexpected("DeleteExecution"@, other.shown(value@), res->Err_0),
            Err(reason) => res == Err::<(), Error>(Error::OperationFetch(reason)),
        },
{
    match answer {
        Ok(OperationOutput::DeleteExecution(result)) => result,
        Ok(other) => Err(unexpected("DeleteExecution", &other, value)),
        Err(reason) => Err(Error::OperationFetch(reason)),
    }
}

/// What the answer to a fetching of executions gives. An answer that never came is an error, and so is one to another
/// operation, which is shown with its value as given.
pub fn fetch_executions_reply(answer: Result<OperationOutput, String>, value: &str) -> (res: Result<
    Vec<ExecutionConf>,
    Error,
>)
    ensures
        match answer {
            Ok(OperationOutput::FetchExecutions(result)) => res == result,
            Ok(other) => res is Err && is_unexpected("FetchExecutions"@, other.shown(value@), res->Err_0),
            Err(reason) => res == Err::<Vec<ExecutionConf>, Error>(Error::OperationFetch(reason)),
        },
{
    match answer {
        Ok(OperationOutput::FetchExecutions(result)) => result,
        Ok(other) => Err(unexpected("FetchExecutions", &other, value)),
        Err(reason) => Err(Error::OperationFetch(reason)),
    }
}

/// What the answer to a listing of the executions gives. An answer that never came is an error, and so is one to another
/// operation, which is shown with its value as given.
pub fn get_executions_reply(answer: Result<OperationOutput, String>, value: &str) -> (res: Result<
    Vec<ExecutionConf>,
    Error,
>)
    ensures
        match answer {
            Ok(OperationOutput::GetExecutions(result)) => res == result,
            Ok(other) => res is Err && is_unexpected("GetExecutions"@, other.shown(value@), res->Err_0),
            Err(reason) => res == Err::<Vec<ExecutionConf>, Error>(Error::OperationFetch(reason)),
        },
{
    match answer {
        Ok(OperationOutput::GetExecutions(result)) => result,
        Ok(other) => Err(unexpected("GetExecutions", &other, value)),
        Err(reason) => Err(Error::OperationFetch(reason)),
    }
}

//-------------------------------------------------------------------------------------------- LAWS
/// Whether a task is one for the operation.
pub open spec fn serves(task: CampaignTask, operation: OperationInput) -> bool {
    match operation {
        OperationInput::FetchExperiment => task is FetchExperiment,
        OperationInput::CreateExecution(_, _, _) => task is CreateExecution,
        OperationInput::UpdateExecution(_, _) => task is UpdateExecution,
        OperationInput::FinishExecution(_) => task is FinishExecution,
        OperationInput::DeleteExecution(_) => task is DeleteExecution,
        OperationInput::FetchExecutions => task is FetchExecutions,
        OperationInput::GetExecutions => false,
    }
}

/// Whether an answer is one to the operation.
pub open spec fn answers(answer: OperationOutput, operation: OperationInput) -> bool {
    match operation {
        OperationInput::FetchExperiment => answer is FetchExperiment,
        OperationInput::CreateExecution(_, _, _) => answer is CreateExecution,
        OperationInput::UpdateExecution(_, _) => answer is UpdateExecution,
        OperationInput::FinishExecution(_) => answer is FinishExecution,
        OperationInput::DeleteExecution(_) => answer is DeleteExecution,
        OperationInput::FetchExecutions => answer is FetchExecutions,
        OperationInput::GetExecutions => answer is GetExecutions,
    }
}

/// An operation is answered by an answer to it: right away, or by the task that runs it.
pub proof fn started_operations_are_answered(
    conf: CampaignConf,
    executions: Map<u128, ExecutionView>,
    operation: OperationInput,
    generator: Seq<char>,
    executions_after: Map<u128, ExecutionView>,
    task: CampaignTask,
    action: CampaignAction,
)
    requires
        task_start(conf, executions, operation, generator, executions_after, task, action),
    ensures
        if action is Answer {
            answers(action->Answer_0, operation)
        } else {
            serves(task, operation)
        },
{
}

/// A task stays one for its operation, and answers it.
pub proof fn running_operations_are_answered(
    conf: CampaignConf,
    executions: Map<u128, ExecutionView>,
    operation: OperationInput,
    before: CampaignTask,
    event: CampaignEvent,
    executions_after: Map<u128, ExecutionView>,
    after: CampaignTask,
    action: CampaignAction,
)
    requires
        serves(before, operation),
        task_step(conf, executions, before, event, executions_after, after, action),
    ensures
        serves(after, operation),
        action is Answer ==> answers(action->Answer_0, operation),
{
}

/// An execution that was created is there, as it was returned, and the others are as they were.
pub proof fn created_execution_is_kept(
    executions: Map<u128, ExecutionView>,
    before: CreateExecution,
    event: CreateEvent,
    executions_after: Map<u128, ExecutionView>,
    after: CreateExecution,
    step: Step<CreateStage, ExecutionConf>,
    other: u128,
)
    requires
        create_step(executions, before, event, executions_after, after, step),
    ensures
        step is Return && step->Return_0 is Ok ==> executions_after.contains_pair(
            before.conf@.identifier,
            step->Return_0->Ok_0@,
        ),
        !(step is Return && step->Return_0 is Ok) ==> executions_after == executions,
        other != before.conf@.identifier ==> executions_after.contains_key(other)
            == executions.contains_key(other) && (executions.contains_key(other)
            ==> executions_after[other] == executions[other]),
{
}

/// An update that succeeds replaces the execution by the updated one under the same identifier, and
/// leaves the others as they were.
pub proof fn updated_execution_is_kept(
    executions: Map<u128, ExecutionView>,
    id: u128,
    update: UpdateView,
    started: ChangeExecution,
    written: ChangeExecution,
    executions_after: Map<u128, ExecutionView>,
    over: ChangeExecution,
    step: Step<ChangeStage, ExecutionConf>,
)
    requires
        executions.contains_key(id),
        executions[id].identifier == id,
        started.stage == ChangeStage::Write,
        started.conf@ == update.applied(executions[id]),
        change_step(
            executions.remove(id),
            started,
            ChangeEvent::Written(Stored::Done),
            executions.remove(id),
            written,
            Step::Do(ChangeStage::Hook),
        ),
        change_step(
            executions.remove(id),
            written,
            ChangeEvent::Hooked(Ok(())),
            executions_after,
            over,
            step,
        ),
    ensures
        step is Return,
        step->Return_0 is Ok,
        step->Return_0->Ok_0@ == update.applied(executions[id]),
        executions_after == executions.insert(id, update.applied(executions[id])),
{
    assert(executions_after =~= executions.insert(id, update.applied(executions[id])));
}

/// A finishing that succeeds completes the execution, and changes nothing else of it nor of the
/// others.
pub proof fn finished_execution_is_completed(
    executions: Map<u128, ExecutionView>,
    id: u128,
    ready: ChangeExecution,
    written: ChangeExecution,
    executions_after: Map<u128, ExecutionView>,
    over: ChangeExecution,
    step: Step<ChangeStage, ExecutionConf>,
)
    requires
        executions.contains_key(id),
        executions[id].identifier == id,
        finishes(executions[id], executions[id].experiment_elements.len() as int, ready),
        change_step(
            executions.remove(id),
            ready,
            ChangeEvent::Written(Stored::Done),
            executions.remove(id),
            written,
            Step::Do(ChangeStage::Hook),
        ),
        change_step(
            executions.remove(id),
            written,
            ChangeEvent::Hooked(Ok(())),
            executions_after,
            over,
            step,
        ),
    ensures
        step is Return,
        step->Return_0 is Ok,
        step->Return_0->Ok_0@.state == ExecutionState::Completed,
        executions_after == executions.insert(
            id,
            ExecutionView { state: ExecutionState::Completed, ..executions[id] },
        ),
{
    assert(executions_after =~= executions.insert(
        id,
        ExecutionView { state: ExecutionState::Completed, ..executions[id] },
    ));
}

/// An execution that was deleted is gone, even if its files could not be removed, and the others
/// are as they were.
pub proof fn deleted_execution_is_gone(
    conf: CampaignConf,
    executions: Map<u128, ExecutionView>,
    id: ExecutionId,
    generator: Seq<char>,
    executions_after: Map<u128, ExecutionView>,
    task: CampaignTask,
    action: CampaignAction,
    other: u128,
)
    requires
        task_start(
            conf,
            executions,
            OperationInput::DeleteExecution(id),
            generator,
            executions_after,
            task,
            action,
        ),
    ensures
        !executions_after.contains_key(id.0),
        other != id.0 ==> executions_after.contains_key(other) == executions.contains_key(other)
            && (executions.contains_key(other) ==> executions_after[other] == executions[other]),
{
}

/// The answers go back to those who asked: each gets the result of its operation, and an answer to
/// another operation, or one that never came, is an error.
pub proof fn answers_go_back(
    answer: Result<OperationOutput, String>,
    value: &str,
    fetched: Result<CampaignConf, Error>,
    created: Result<ExecutionConf, Error>,
    updated: Result<ExecutionConf, Error>,
    finished: Result<ExecutionConf, Error>,
    deleted: Result<(), Error>,
    brought: Result<Vec<ExecutionConf>, Error>,
    listed: Result<Vec<ExecutionConf>, Error>,
)
    requires
        call_ensures(fetch_experiment_reply, (answer, value), fetched),
        call_ensures(create_execution_reply, (answer, value), created),
        call_ensures(update_execution_reply, (answer, value), updated),
        call_ensures(finish_execution_reply, (answer, value), finished),
        call_ensures(delete_execution_reply, (answer, value), deleted),
        call_ensures(fetch_executions_reply, (answer, value), brought),
        call_ensures(get_executions_reply, (answer, value), listed),
    ensures
        answer is Ok && answer->Ok_0 is FetchExperiment ==> fetched == answer->Ok_0->FetchExperiment_0,
        answer is Ok && !(answer->Ok_0 is FetchExperiment) ==> fetched is Err,
        answer is Err ==> fetched is Err && fetched->Err_0 == Error::OperationFetch(answer->Err_0),
        answer is Ok && answer->Ok_0 is CreateExecution ==> created == answer->Ok_0->CreateExecution_0,
        answer is Ok && !(answer->Ok_0 is CreateExecution) ==> created is Err,
        answer is Err ==> created is Err && created->Err_0 == Error::OperationFetch(answer->Err_0),
        answer is Ok && answer->Ok_0 is UpdateExecution ==> updated == answer->Ok_0->UpdateExecution_0,
        answer is Ok && !(answer->Ok_0 is UpdateExecution) ==> updated is Err,
        answer is Err ==> updated is Err && updated->Err_0 == Error::OperationFetch(answer->Err_0),
        answer is Ok && answer->Ok_0 is FinishExecution ==> finished == answer->Ok_0->FinishExecution_0,
        answer is Ok && !(answer->Ok_0 is FinishExecution) ==> finished is Err,
        answer is Err ==> finished is Err && finished->Err_0 == Error::OperationFetch(answer->Err_0),
        answer is Ok && answer->Ok_0 is DeleteExecution ==> deleted == answer->Ok_0->DeleteExecution_0,
        answer is Ok && !(answer->Ok_0 is DeleteExecution) ==> deleted is Err,
        answer is Err ==> deleted is Err && deleted->Err_0 == Error::OperationFetch(answer->Err_0),
        answer is Ok && answer->Ok_0 is FetchExecutions ==> brought == answer->Ok_0->FetchExecutions_0,
        answer is Ok && !(answer->Ok_0 is FetchExecutions) ==> brought is Err,
        answer is Err ==> brought is Err && brought->Err_0 == Error::OperationFetch(answer->Err_0),
        answer is Ok && answer->Ok_0 is GetExecutions ==> listed == answer->Ok_0->GetExecutions_0,
        answer is Ok && !(answer->Ok_0 is GetExecutions) ==> listed is Err,
        answer is Err ==> listed is Err && listed->Err_0 == Error::OperationFetch(answer->Err_0),
{
}

/// An execution is created out of the commit, the parameters and the tags that were given, by the
/// generator, under a random identifier.
pub proof fn creation_is_started(
    campaign: &mut Campaign,
    commit: ExperimentCommit,
    parameters: ExecutionParameters,
    tags: Vec<ExecutionTag>,
    generator: String,
    res: (CampaignTask, CampaignAction),
)
    requires
        call_ensures(
            CampaignTask::start,
            (campaign, OperationInput::CreateExecution(commit, parameters, tags), generator),
            res,
        ),
    ensures
        final(campaign)@ == old(campaign)@,
        res.0 is CreateExecution,
        res.1 == CampaignAction::CreateExecution(CreateStage::Folder),
        ({
            let conf = res.0->CreateExecution_0.conf;
            &&& conf.commit.0@ == commit.0@
            &&& conf.parameters.0@ == parameters.0@
            &&& tag_texts(conf.tags@) == tag_texts(tags@)
            &&& conf.generator@ == generator@
            &&& conf.state is Initialized
            &&& conf.execution_exit_code is None
            &&& is_random_id(conf.identifier.0)
        }),
{
    let view = res.0->CreateExecution_0.conf@;
    assert(view.commit == commit.0@ && view.parameters == parameters.0@);
    assert(view.tags == tag_texts(tags@) && view.generator == generator@);
    assert(view.state is Initialized && view.execution_exit_code is None);
    assert(is_random_id(view.identifier));
}

/// An update and a finishing are started on the execution that has the identifier; where there is none,
/// the error is answered and nothing changes.
pub proof fn changes_are_started_on_known_executions(
    campaign: &mut Campaign,
    other: &mut Campaign,
    id: ExecutionId,
    update: ExecutionUpdate,
    generator: String,
    res: (CampaignTask, CampaignAction),
    res_other: (CampaignTask, CampaignAction),
)
    requires
        call_ensures(
            CampaignTask::start,
            (campaign, OperationInput::UpdateExecution(id, update), generator),
            res,
        ),
        call_ensures(
            CampaignTask::start,
            (other, OperationInput::FinishExecution(id), generator),
            res_other,
        ),
    ensures
        old(campaign)@.contains_key(id.0) ==> {
            &&& res.0 is UpdateExecution
            &&& res.1 == CampaignAction::ChangeExecution(ChangeStage::Write)
            &&& res.0->UpdateExecution_0.conf@ == update@.applied(old(campaign)@[id.0])
            &&& update.execution_exit_code is Some
                ==> res.0->UpdateExecution_0.conf.execution_exit_code == update.execution_exit_code
        },
        !old(campaign)@.contains_key(id.0) ==> {
            &&& res.1 is Answer
            &&& res.1->Answer_0 is UpdateExecution
            &&& res.1->Answer_0->UpdateExecution_0 is Err
            &&& final(campaign)@ == old(campaign)@
        },
        old(other)@.contains_key(id.0) ==> {
            &&& res_other.0 is FinishExecution
            &&& res_other.1 is ChangeExecution
            &&& old(other)@[id.0].experiment_elements.len() > 0
                ==> res_other.1->ChangeExecution_0 == ChangeStage::Remove(0)
            &&& old(other)@[id.0].experiment_elements.len() == 0
                ==> res_other.1->ChangeExecution_0 is Write
                && res_other.0->FinishExecution_0.conf.state is Completed
        },
        !old(other)@.contains_key(id.0) ==> {
            &&& res_other.1 is Answer
            &&& res_other.1->Answer_0 is FinishExecution
            &&& res_other.1->Answer_0->FinishExecution_0 is Err
            &&& final(other)@ == old(other)@
        },
{
    let conf = res.0->UpdateExecution_0.conf;
    assert(conf@.execution_exit_code == conf.execution_exit_code);
    assert(res_other.0->FinishExecution_0.conf@.state == res_other.0->FinishExecution_0.conf.state);
}

/// A deletion takes the execution out of the campaign and removes its files; a listing answers every
/// execution of the campaign; the fetchings start with their first stage.
pub proof fn other_operations_are_started(
    deleted: &mut Campaign,
    listed: &mut Campaign,
    fetched: &mut Campaign,
    brought: &mut Campaign,
    id: ExecutionId,
    generator: String,
    key: u128,
    res_deleted: (CampaignTask, CampaignAction),
    res_listed: (CampaignTask, CampaignAction),
    res_fetched: (CampaignTask, CampaignAction),
    res_brought: (CampaignTask, CampaignAction),
)
    requires
        call_ensures(
            CampaignTask::start,
            (deleted, OperationInput::DeleteExecution(id), generator),
            res_deleted,
        ),
        call_ensures(
            CampaignTask::start,
            (listed, OperationInput::GetExecutions, generator),
            res_listed,
        ),
        call_ensures(
            CampaignTask::start,
            (fetched, OperationInput::FetchExperiment, generator),
            res_fetched,
        ),
        call_ensures(
            CampaignTask::start,
            (brought, OperationInput::FetchExecutions, generator),
            res_brought,
        ),
    ensures
        !final(deleted)@.contains_key(id.0),
        old(deleted)@.contains_key(id.0) ==> res_deleted.0 is DeleteExecution && res_deleted.1
            == CampaignAction::DeleteExecution(DeleteStage::Remove)
            && res_deleted.0->DeleteExecution_0.conf@ == old(deleted)@[id.0],
        !old(deleted)@.contains_key(id.0) ==> res_deleted.1 is Answer
            && res_deleted.1->Answer_0 is DeleteExecution
            && res_deleted.1->Answer_0->DeleteExecution_0 is Err,
        res_listed.1 is Answer && res_listed.1->Answer_0 is GetExecutions,
        res_listed.1->Answer_0->GetExecutions_0 is Ok,
        res_listed.1->Answer_0->GetExecutions_0->Ok_0.len() == old(listed)@.dom().len(),
        old(listed)@.contains_key(key) ==> exists|i: int|
            0 <= i < res_listed.1->Answer_0->GetExecutions_0->Ok_0.len() && (
            #[trigger] res_listed.1->Answer_0->GetExecutions_0->Ok_0@[i])@ == old(listed)@[key],
        final(listed)@ == old(listed)@,
        res_fetched.1 == CampaignAction::FetchExperiment(FetchStage::Remote),
        res_brought.1 == CampaignAction::FetchExecutions(FetchExecutionsStage::Before),
{
}

/// What an operation returns is what is answered: an execution that was created, updated or finished is
/// answered as the campaign now has it.
pub proof fn changed_executions_are_answered(
    create: &mut CampaignTask,
    update: &mut CampaignTask,
    finish: &mut CampaignTask,
    first: &mut Campaign,
    second: &mut Campaign,
    third: &mut Campaign,
    res_create: CampaignAction,
    res_update: CampaignAction,
    res_finish: CampaignAction,
)
    requires
        call_ensures(
            CampaignTask::step,
            (create, first, CampaignEvent::CreateExecution(CreateEvent::Hooked(Ok(())))),
            res_create,
        ),
        call_ensures(
            CampaignTask::step,
            (update, second, CampaignEvent::ChangeExecution(ChangeEvent::Hooked(Ok(())))),
            res_update,
        ),
        call_ensures(
            CampaignTask::step,
            (finish, third, CampaignEvent::ChangeExecution(ChangeEvent::Hooked(Ok(())))),
            res_finish,
        ),
        *old(create) is CreateExecution,
        *old(update) is UpdateExecution,
        *old(finish) is FinishExecution,
    ensures
        ({
            let conf = (*old(create))->CreateExecution_0.conf;
            &&& res_create is Answer && res_create->Answer_0 is CreateExecution
            &&& res_create->Answer_0->CreateExecution_0 is Ok
            &&& res_create->Answer_0->CreateExecution_0->Ok_0@ == conf@
            &&& final(first)@ == old(first)@.insert(conf.identifier.0, conf@)
        }),
        ({
            let conf = (*old(update))->UpdateExecution_0.conf;
            &&& res_update is Answer && res_update->Answer_0 is UpdateExecution
            &&& res_update->Answer_0->UpdateExecution_0 is Ok
            &&& res_update->Answer_0->UpdateExecution_0->Ok_0@ == conf@
            &&& final(second)@ == old(second)@.insert(conf.identifier.0, conf@)
        }),
        ({
            let conf = (*old(finish))->FinishExecution_0.conf;
            &&& res_finish is Answer && res_finish->Answer_0 is FinishExecution
            &&& res_finish->Answer_0->FinishExecution_0 is Ok
            &&& res_finish->Answer_0->FinishExecution_0->Ok_0@ == conf@
            &&& final(third)@ == old(third)@.insert(conf.identifier.0, conf@)
        }),
{
}

/// An answer is shown by its operation and its result, and where another one was expected, the error
/// says which one, and shows the answer.
pub proof fn unexpected_answers_are_shown(
    answer: OperationOutput,
    value: &str,
    text: String,
    fetched: Result<CampaignConf, Error>,
    created: Result<ExecutionConf, Error>,
    updated: Result<ExecutionConf, Error>,
    finished: Result<ExecutionConf, Error>,
    deleted: Result<(), Error>,
    brought: Result<Vec<ExecutionConf>, Error>,
    listed: Result<Vec<ExecutionConf>, Error>,
)
    requires
        call_ensures(OperationOutput::show, (&answer, value), text),
        call_ensures(
            fetch_experiment_reply,
            (Ok::<OperationOutput, String>(answer), value),
            fetched,
        ),
        call_ensures(
            create_execution_reply,
            (Ok::<OperationOutput, String>(answer), value),
            created,
        ),
        call_ensures(
            update_execution_reply,
            (Ok::<OperationOutput, String>(answer), value),
            updated,
        ),
        call_ensures(
            finish_execution_reply,
            (Ok::<OperationOutput, String>(answer), value),
            finished,
        ),
        call_ensures(
            delete_execution_reply,
            (Ok::<OperationOutput, String>(answer), value),
            deleted,
        ),
        call_ensures(
            fetch_executions_reply,
            (Ok::<OperationOutput, String>(answer), value),
            brought,
        ),
        call_ensures(
            get_executions_reply,
            (Ok::<OperationOutput, String>(answer), value),
            listed,
        ),
    ensures
        !(answer is FetchExperiment) ==> fetched->Err_0 is OperationFetch && fetched->Err_0->OperationFetch_0@
            == "Exepected "@ + "FetchExperiment"@ + ", found "@ + text@,
        answer is FetchExperiment && answer->FetchExperiment_0 is Err ==> text@ == "FetchExperiment("@ + ("Err("@ + answer->FetchExperiment_0->Err_0.shown()
            + ")"@) + ")"@,
        answer is FetchExperiment && answer->FetchExperiment_0 is Ok ==> text@ == "FetchExperiment("@ + ("Ok(CampaignConf { path: "@ + shown_option(opt_text(answer->FetchExperiment_0->Ok_0.path))
            + ", synchro: Null(NullSynchronizer), version: "@ + debug_text(answer->FetchExperiment_0->Ok_0.version@)
            + " })"@) + ")"@,
        !(answer is CreateExecution) ==> created->Err_0 is OperationFetch && created->Err_0->OperationFetch_0@
            == "Exepected "@ + "CreateExecution"@ + ", found "@ + text@,
        answer is CreateExecution && answer->CreateExecution_0 is Err ==> text@ == "CreateExecution("@ + ("Err("@ + answer->CreateExecution_0->Err_0.shown()
            + ")"@) + ")"@,
        answer is CreateExecution && answer->CreateExecution_0 is Ok ==> text@ == "CreateExecution("@ + ("Ok("@ + value@ + ")"@) + ")"@,
        !(answer is UpdateExecution) ==> updated->Err_0 is OperationFetch && updated->Err_0->OperationFetch_0@
            == "Exepected "@ + "UpdateExecution"@ + ", found "@ + text@,
        answer is UpdateExecution && answer->UpdateExecution_0 is Err ==> text@ == "UpdateExecution("@ + ("Err("@ + answer->UpdateExecution_0->Err_0.shown()
            + ")"@) + ")"@,
        answer is UpdateExecution && answer->UpdateExecution_0 is Ok ==> text@ == "UpdateExecution("@ + ("Ok("@ + value@ + ")"@) + ")"@,
        !(answer is FinishExecution) ==> finished->Err_0 is OperationFetch && finished->Err_0->OperationFetch_0@
            == "Exepected "@ + "FinishExecution"@ + ", found "@ + text@,
        answer is FinishExecution && answer->FinishExecution_0 is Err ==> text@ == "FinishExecution("@ + ("Err("@ + answer->FinishExecution_0->Err_0.shown()
            + ")"@) + ")"@,
        answer is FinishExecution && answer->FinishExecution_0 is Ok ==> text@ == "FinishExecution("@ + ("Ok("@ + value@ + ")"@) + ")"@,
        !(answer is DeleteExecution) ==> deleted->Err_0 is OperationFetch && deleted->Err_0->OperationFetch_0@
            == "Exepected "@ + "DeleteExecution"@ + ", found "@ + text@,
        answer is DeleteExecution && answer->DeleteExecution_0 is Err ==> text@ == "DeleteExecution("@ + ("Err("@ + answer->DeleteExecution_0->Err_0.shown()
            + ")"@) + ")"@,
        answer is DeleteExecution && answer->DeleteExecution_0 is Ok ==> text@ == "DeleteExecution("@ + "Ok(())"@ + ")"@,
        !(answer is FetchExecutions) ==> brought->Err_0 is OperationFetch && brought->Err_0->OperationFetch_0@
            == "Exepected "@ + "FetchExecutions"@ + ", found "@ + text@,
        answer is FetchExecutions && answer->FetchExecutions_0 is Err ==> text@ == "FetchExecutions("@ + ("Err("@ + answer->FetchExecutions_0->Err_0.shown()
            + ")"@) + ")"@,
        answer is FetchExecutions && answer->FetchExecutions_0 is Ok ==> text@ == "FetchExecutions("@ + ("Ok("@ + value@ + ")"@) + ")"@,
        !(answer is GetExecutions) ==> listed->Err_0 is OperationFetch && listed->Err_0->OperationFetch_0@
            == "Exepected "@ + "GetExecutions"@ + ", found "@ + text@,
        answer is GetExecutions && answer->GetExecutions_0 is Err ==> text@ == "GetExecutions("@ + ("Err("@ + answer->GetExecutions_0->Err_0.shown()
            + ")"@) + ")"@,
        answer is GetExecutions && answer->GetExecutions_0 is Ok ==> text@ == "GetExecutions("@ + ("Ok("@ + value@ + ")"@) + ")"@,
{
}

/// A deletion is answered as it went, the experiment that was fetched with the configuration of the
/// campaign, and a change goes on to its next stage.
pub proof fn other_operations_are_answered(
    delete: &mut CampaignTask,
    fetch: &mut CampaignTask,
    update: &mut CampaignTask,
    first: &mut Campaign,
    second: &mut Campaign,
    third: &mut Campaign,
    hooked: Result<(), Error>,
    res_delete: CampaignAction,
    res_fetch: CampaignAction,
    res_update: CampaignAction,
)
    requires
        call_ensures(
            CampaignTask::step,
            (delete, first, CampaignEvent::DeleteExecution(DeleteEvent::Hooked(hooked))),
            res_delete,
        ),
        call_ensures(
            CampaignTask::step,
            (fetch, second, CampaignEvent::FetchExperiment(FetchEvent::Hooked(Ok(())))),
            res_fetch,
        ),
        call_ensures(
            CampaignTask::step,
            (update, third, CampaignEvent::ChangeExecution(ChangeEvent::Written(Stored::Done))),
            res_update,
        ),
        *old(update) is UpdateExecution,
    ensures
        res_delete is Answer && res_delete->Answer_0 is DeleteExecution,
        res_delete->Answer_0->DeleteExecution_0 == hooked,
        res_fetch is Answer && res_fetch->Answer_0 is FetchExperiment,
        res_fetch->Answer_0->FetchExperiment_0 == Ok::<CampaignConf, Error>(old(second).conf),
        res_update is ChangeExecution && res_update->ChangeExecution_0 is Hook,
        *final(update) is UpdateExecution,
        (*final(update))->UpdateExecution_0.conf@ == (*old(update))->UpdateExecution_0.conf@,
        final(first)@ == old(first)@ && final(second)@ == old(second)@ && final(third)@ == old(
            third,
        )@,
{
}

} // verus!
