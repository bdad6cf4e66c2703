//! The worker of a repository service: how each operation is performed, step by step, where its
//! result is kept, and how the future that waits for the result is resolved.
use vstd::prelude::*;
#[allow(unused_imports)]
use vstd::string::*;
use crate::commons::{Loaded, Stored};
use crate::primitives::{Timestamp, utc_now};
#[allow(unused_imports)]
use crate::primitives::LAST_SECOND;
use crate::repository::campaign::{CreateStage, FetchStage, keeps_all, oid_from_str, select_new};
#[allow(unused_imports)]
use crate::repository::campaign::{all_kept, is_commit_id, new_folders};
use crate::repository::service::{
    CampaignConf, Error, ExecutionConf, ExecutionState, ExecutionUpdate, ExecutionsCache,
    ExecutionsCacheMessage,
};
#[allow(unused_imports)]
use crate::repository::service::{ExecutionView, by_identifier, lists_each};
use crate::repository::{
    ExecutionId, ExecutionParameters, ExecutionTag, ExperimentCommit, uuid_new_v4,
};
#[allow(unused_imports)]
use crate::repository::{is_random_id, tag_texts, uuid_text};
use crate::stateful::{Machine, State, Stateful, TransitionsTo};
#[allow(unused_imports)]
use crate::text::{cat, path_in, path_join, texts};
#[allow(unused_imports)]
use crate::{EXCCONF_RPATH, EXCS_RPATH, XPRP_RPATH};

verus! {

//------------------------------------------------------------------------------------ OPERATIONS
/// An operation of fetch of the experiment.
#[derive(Debug)]
pub struct FetchExperimentOp {
    pub output: Option<Result<(), Error>>,
}

/// An operation of creation of an execution.
#[derive(Debug)]
pub struct CreateExecutionOp {
    pub input: (ExperimentCommit, ExecutionParameters, Vec<ExecutionTag>),
    pub output: Option<Result<ExecutionConf, Error>>,
}

/// An operation of update of an execution.
#[derive(Debug)]
pub struct UpdateExecutionOp {
    pub input: (ExecutionId, ExecutionUpdate),
    pub output: Option<Result<ExecutionConf, Error>>,
}

/// An operation of finish of an execution.
#[derive(Debug)]
pub struct FinishExecutionOp {
    pub input: ExecutionId,
    pub output: Option<Result<ExecutionConf, Error>>,
}

/// An operation of removal of an execution.
#[derive(Debug)]
pub struct DeleteExecutionOp {
    pub input: ExecutionId,
    pub output: Option<Result<(), Error>>,
}

/// An operation of a fetch of executions.
#[derive(Debug)]
pub struct FetchExecutionsOp {
    pub output: Option<Result<Vec<ExecutionConf>, Error>>,
}

/// The different operations that can be performed on a repository.
#[derive(Debug)]
pub enum RepositoryOperation {
    FetchExperiment(FetchExperimentOp),
    CreateExecution(CreateExecutionOp),
    UpdateExecution(UpdateExecutionOp),
    FinishExecution(FinishExecutionOp),
    DeleteExecution(DeleteExecutionOp),
    FetchExecutions(FetchExecutionsOp),
}

/// What has to be done next: a stage of the operation, or to end it with a result.
pub enum Work<S, T> {
    Do(S),
    Return(Result<T, Error>),
}

//------------------------------------------------------------------------------ FETCH EXPERIMENT
/// What came of the last action.
pub enum FetchEvent {
    Done,
    Failed,
    /// The merge was analysed: it is a fast-forward, or not.
    Analysed(bool),
    /// The hook was called.
    Hooked(Result<(), Error>),
}

/// Whether the event can come of a stage.
pub open spec fn fetch_accepts(stage: FetchStage, event: FetchEvent) -> bool {
    match stage {
        FetchStage::Over => false,
        FetchStage::Analysis => event is Analysed || event is Failed,
        FetchStage::Hook => event is Hooked,
        _ => event is Done || event is Failed,
    }
}

/// Goes on with the fetching of the experiment: the stages follow each other until one fails. A
/// merge that is no fast-forward is refused.
pub fn handle_fetch_experiment(stage: FetchStage, event: FetchEvent) -> (res: Work<FetchStage, ()>)
    requires
        fetch_accepts(stage, event),
    ensures
        match event {
            FetchEvent::Done => res == Work::<FetchStage, ()>::Do(stage.following()),
            FetchEvent::Analysed(true) => res == Work::<FetchStage, ()>::Do(FetchStage::Commit),
            FetchEvent::Analysed(false) => res == Work::<FetchStage, ()>::Return(
                Err(Error::NoFFPossible),
            ),
            FetchEvent::Hooked(result) => res == Work::<FetchStage, ()>::Return(result),
            FetchEvent::Failed => {
                &&& res is Return
                &&& res->Return_0 is Err
                &&& if stage == FetchStage::Analysis {
                    res->Return_0->Err_0 is Unknown
                } else {
                    &&& res->Return_0->Err_0 is FetchExperiment
                    &&& res->Return_0->Err_0->FetchExperiment_0@ == stage.failure()
                }
            },
        },
{
    match event {
        FetchEvent::Done => Work::Do(stage.next()),
        FetchEvent::Analysed(fast_forward) => {
            if fast_forward {
                Work::Do(FetchStage::Commit)
            } else {
                Work::Return(Err(Error::NoFFPossible))
            }
        },
        FetchEvent::Hooked(result) => Work::Return(result),
        FetchEvent::Failed => match stage {
            FetchStage::Analysis => Work::Return(Err(Error::Unknown)),
            _ => Work::Return(Err(Error::FetchExperiment(stage.fail()))),
        },
    }
}

//------------------------------------------------------------------------------ CREATE EXECUTION
/// How the date of a generation is written.
pub const DATE_FORMAT: &'static str = "%Y-%m-%d %H:%M:%S";

/// The text of a date in a format.
pub uninterp spec fn date_text(secs: i64, nanos: u32, format: Seq<char>) -> Seq<char>;

/// Writes a date, by `chrono::DateTime::from_timestamp` and `chrono::DateTime::format`. What the text
/// is, is left to its name.
#[verifier::external_body]
fn format_date(at: Timestamp, format: &str) -> (res: String)
    requires
        0 <= at.secs <= LAST_SECOND,
        at.nanos < 1_000_000_000,
        format@ == DATE_FORMAT@,
    ensures
        res@ == date_text(at.secs, at.nanos, format@),
{
    chrono::DateTime::from_timestamp(at.secs, at.nanos).unwrap().format(format).to_string()
}

/// What came of the last action.
pub enum CreateEvent {
    Done,
    Failed,
    /// The paths that are in the folder.
    Gathered(Vec<String>),
    /// The hook was called.
    Hooked(Result<(), Error>),
}

/// The creation of an execution.
pub struct CreateWork {
    pub conf: ExecutionConf,
    pub stage: CreateStage,
}

/// An execution as it is created: initialized, with nothing executed yet, in the folder of its
/// identifier.
pub open spec fn created_execution(
    campaign: CampaignConf,
    commit: Seq<char>,
    parameters: Seq<char>,
    tags: Seq<Seq<char>>,
    generator: Seq<char>,
    date: Seq<char>,
    id: u128,
) -> ExecutionView {
    ExecutionView {
        identifier: id,
        path: Some(campaign.execution_folder(id)),
        commit,
        parameters,
        state: ExecutionState::Initialized,
        experiment_elements: Seq::empty(),
        executor: None,
        execution_date: None,
        execution_duration: None,
        execution_stdout: None,
        execution_stderr: None,
        execution_exit_code: None,
        execution_fitness: None,
        generator,
        generation_date: date,
        tags,
    }
}

/// What a step of the creation does: the stages follow each other until one fails. Between the clone
/// and the search of the commit, the identifier of the commit is checked. What the folder holds once
/// the commit was checked out are the elements of the experiment.
pub open spec fn create_step(
    before: CreateWork,
    event: CreateEvent,
    after: CreateWork,
    work: Work<CreateStage, ExecutionConf>,
) -> bool {
    match event {
        CreateEvent::Done => {
            &&& after.conf@ == before.conf@
            &&& if before.stage == CreateStage::Clone && !is_commit_id(before.conf@.commit) {
                &&& after.stage == CreateStage::Over
                &&& work is Return
                &&& work->Return_0 is Err
                &&& work->Return_0->Err_0 is CreateExecution
                &&& work->Return_0->Err_0->CreateExecution_0@ == "Ill formed commit"@
            } else {
                &&& after.stage == before.stage.following()
                &&& work == Work::<CreateStage, ExecutionConf>::Do(before.stage.following())
            }
        },
        CreateEvent::Gathered(paths) => {
            &&& after.stage == CreateStage::DataFolder
            &&& after.conf@ == ExecutionView {
                experiment_elements: before.conf@.experiment_elements + texts(paths@),
                ..before.conf@
            }
            &&& work == Work::<CreateStage, ExecutionConf>::Do(CreateStage::DataFolder)
        },
        CreateEvent::Hooked(Ok(_)) => {
            &&& after.stage == CreateStage::Over
            &&& after.conf@ == before.conf@
            &&& work is Return
            &&& work->Return_0 is Ok
            &&& work->Return_0->Ok_0@ == before.conf@
        },
        CreateEvent::Hooked(Err(e)) => {
            &&& after.stage == CreateStage::Over
            &&& after.conf@ == before.conf@
            &&& work == Work::<CreateStage, ExecutionConf>::Return(Err(e))
        },
        CreateEvent::Failed => {
            &&& after.stage == CreateStage::Over
            &&& after.conf@ == before.conf@
            &&& work is Return
            &&& work->Return_0 is Err
            &&& work->Return_0->Err_0 is CreateExecution
            &&& work->Return_0->Err_0->CreateExecution_0@ == if before.stage == CreateStage::Walk {
                "Failed in elements gathering"@
            } else {
                before.stage.failure()
            }
        },
    }
}

impl CreateWork {
    /// The execution has a folder.
    pub open spec fn wf(&self) -> bool {
        self.conf.path is Some
    }

    /// Whether the event can come of what was asked for.
    pub open spec fn accepts(&self, event: CreateEvent) -> bool {
        match self.stage {
            CreateStage::Over => false,
            CreateStage::Walk => event is Gathered || event is Failed,
            CreateStage::Hook => event is Hooked,
            _ => event is Done || event is Failed,
        }
    }

    /// The creation of an execution at the given time, under the given identifier. Its folder is to
    /// be made first.
    pub fn start_at(
        campaign: &CampaignConf,
        commit: ExperimentCommit,
        parameters: ExecutionParameters,
        tags: Vec<ExecutionTag>,
        generator: String,
        now: Timestamp,
        id: ExecutionId,
    ) -> (res: CreateWork)
        requires
            campaign.path is Some,
            0 <= now.secs <= LAST_SECOND,
            now.nanos < 1_000_000_000,
        ensures
            res.wf(),
            res.stage == CreateStage::Folder,
            res.conf@ == created_execution(
                *campaign,
                commit.0@,
                parameters.0@,
                tag_texts(tags@),
                generator@,
                date_text(now.secs, now.nanos, DATE_FORMAT@),
                id.0,
            ),
    {
        let path = campaign.get_execution_path(id);
        let elements: Vec<String> = Vec::new();
        assert(texts(elements@) =~= Seq::<Seq<char>>::empty());
        let conf = ExecutionConf {
            identifier: id,
            path: Some(path),
            commit,
            parameters,
            state: ExecutionState::Initialized,
            experiment_elements: elements,
            executor: None,
            execution_date: None,
            execution_duration: None,
            execution_stdout: None,
            execution_stderr: None,
            execution_exit_code: None,
            execution_fitness: None,
            generator,
            generation_date: format_date(now, DATE_FORMAT),
            tags,
        };
        CreateWork { conf, stage: CreateStage::Folder }
    }

    /// The creation of an execution now, under a random identifier.
    pub fn start(
        campaign: &CampaignConf,
        commit: ExperimentCommit,
        parameters: ExecutionParameters,
        tags: Vec<ExecutionTag>,
        generator: String,
    ) -> (res: CreateWork)
        requires
            campaign.path is Some,
        ensures
            res.wf(),
            res.stage == CreateStage::Folder,
            exists|now: Timestamp, id: u128|
                now.is_clock_time() && is_random_id(id) && #[trigger] created_execution(
                    *campaign,
                    commit.0@,
                    parameters.0@,
                    tag_texts(tags@),
                    generator@,
                    date_text(now.secs, now.nanos, DATE_FORMAT@),
                    id,
                ) == res.conf@,
    {
        let now = utc_now();
        let id = ExecutionId(uuid_new_v4());
        CreateWork::start_at(campaign, commit, parameters, tags, generator, now, id)
    }

    /// The address that the experiment repository is cloned from.
    pub fn experiment_url(campaign: &CampaignConf) -> (res: String)
        requires
            campaign.path is Some,
        ensures
            res@ == "file://"@ + path_in(campaign.root(), XPRP_RPATH@),
    {
        cat("file://", campaign.get_experiment_path().as_str())
    }

    /// Takes what came of the last action into account, and says what has to be done next.
    pub fn step(&mut self, event: CreateEvent) -> (res: Work<CreateStage, ExecutionConf>)
        requires
            old(self).wf(),
            old(self).accepts(event),
        ensures
            final(self).wf(),
            create_step(*old(self), event, *final(self), res),
    {
        match event {
            CreateEvent::Done => {
                let stage = self.stage;
                if stage == CreateStage::Clone && !oid_from_str(self.conf.commit.0.as_str()) {
                    self.stage = CreateStage::Over;
                    Work::Return(Err(Error::CreateExecution("Ill formed commit".to_owned())))
                } else {
                    self.stage = stage.next();
                    Work::Do(self.stage)
                }
            },
            CreateEvent::Gathered(paths) => {
                let ghost before = self.conf@;
                let ghost added = texts(paths@);
                let mut paths = paths;
                self.conf.experiment_elements.append(&mut paths);
                assert(texts(self.conf.experiment_elements@) =~= before.experiment_elements
                    + added);
                self.stage = CreateStage::DataFolder;
                Work::Do(self.stage)
            },
            CreateEvent::Hooked(result) => {
                self.stage = CreateStage::Over;
                match result {
                    Ok(_) => Work::Return(Ok(self.conf.clone())),
                    Err(e) => Work::Return(Err(e)),
                }
            },
            CreateEvent::Failed => {
                let stage = self.stage;
                self.stage = CreateStage::Over;
                match stage {
                    CreateStage::Walk => Work::Return(
                        Err(Error::CreateExecution("Failed in elements gathering".to_owned())),
                    ),
                    _ => Work::Return(Err(Error::CreateExecution(stage.fail()))),
                }
            },
        }
    }
}

//------------------------------------------------------------------- UPDATE AND FINISH EXECUTION
/// What is done to an execution.
pub enum Change {
    Update(ExecutionUpdate),
    Finish,
}

/// What has to be done to change an execution.
#[derive(Clone, Copy, Debug, PartialEq, Eq, Structural)]
pub enum ChangeStage {
    /// Read the configuration file.
    Read,
    /// Remove the element of the experiment with the given number.
    Remove(usize),
    /// Write the configuration file.
    Write,
    /// Call the hook of the synchronizer.
    Hook,
    Over,
}

/// What came of the last action.
pub enum ChangeEvent {
    Read(Loaded<ExecutionConf>),
    Removed(bool),
    Written(Stored),
    Hooked(Result<(), Error>),
}

/// The change of an execution.
pub struct ChangeWork {
    pub id: ExecutionId,
    pub change: Change,
    /// The execution, once it was read.
    pub conf: Option<ExecutionConf>,
    pub stage: ChangeStage,
}

/// Where the finishing of an execution stands once `removed` of its elements were removed.
pub open spec fn finishes(conf: ExecutionView, removed: int, work: ChangeWork) -> bool {
    &&& work.conf is Some
    &&& if removed < conf.experiment_elements.len() {
        work.stage == ChangeStage::Remove(removed as usize) && work.conf->Some_0@ == conf
    } else {
        &&& work.stage == ChangeStage::Write
        &&& work.conf->Some_0@ == ExecutionView { state: ExecutionState::Finished, ..conf }
    }
}

/// What a step does. The configuration is read. An update is applied to it; to finish the execution,
/// the elements of the experiment are removed one after the other. Then the configuration is
/// written, and the hook is called. The first failure ends the change.
pub open spec fn change_step(
    folder: Seq<char>,
    before: ChangeWork,
    event: ChangeEvent,
    after: ChangeWork,
    work: Work<ChangeStage, ExecutionConf>,
) -> bool {
    &&& after.id == before.id
    &&& after.change == before.change
    &&& match (before.stage, event) {
        (ChangeStage::Read, ChangeEvent::Read(read)) => match read {
            Loaded::Value(conf) => {
                let found = ExecutionView { path: Some(folder), ..conf@ };
                &&& match before.change {
                    Change::Update(update) => {
                        &&& after.conf is Some
                        &&& after.conf->Some_0@ == update.applied(found)
                        &&& after.stage == ChangeStage::Write
                    },
                    Change::Finish => finishes(found, 0, after),
                }
                &&& work == Work::<ChangeStage, ExecutionConf>::Do(after.stage)
            },
            _ => {
                &&& after.stage == ChangeStage::Over
                &&& work == Work::<ChangeStage, ExecutionConf>::Return(Err(Error::ReadExecution))
            },
        },
        (ChangeStage::Remove(i), ChangeEvent::Removed(done)) => if done {
            &&& finishes(before.conf->Some_0@, i + 1, after)
            &&& work == Work::<ChangeStage, ExecutionConf>::Do(after.stage)
        } else {
            &&& after.stage == ChangeStage::Over
            &&& work is Return
            &&& work->Return_0 is Err
            &&& work->Return_0->Err_0 is FinishExecution
            &&& work->Return_0->Err_0->FinishExecution_0@
                == "Failed to remote one experiment element"@
        },
        (ChangeStage::Write, ChangeEvent::Written(written)) => {
            &&& after.conf == before.conf
            &&& if written == Stored::Done {
                &&& after.stage == ChangeStage::Hook
                &&& work == Work::<ChangeStage, ExecutionConf>::Do(ChangeStage::Hook)
            } else {
                &&& after.stage == ChangeStage::Over
                &&& work == Work::<ChangeStage, ExecutionConf>::Return(Err(Error::WriteExecution))
            }
        },
        (ChangeStage::Hook, ChangeEvent::Hooked(result)) => {
            &&& after.stage == ChangeStage::Over
            &&& match result {
                Ok(_) => {
                    &&& work is Return
                    &&& work->Return_0 is Ok
                    &&& work->Return_0->Ok_0@ == before.conf->Some_0@
                },
                Err(e) => work == Work::<ChangeStage, ExecutionConf>::Return(Err(e)),
            }
        },
        _ => false,
    }
}

impl ChangeWork {
    /// Once it was read, the execution is there and has a folder; the element that is removed
    /// exists.
    pub open spec fn wf(&self) -> bool {
        &&& !(self.stage is Read) && !(self.stage is Over) ==> {
            &&& self.conf is Some
            &&& self.conf->Some_0.path is Some
        }
        &&& self.stage is Remove ==> self.stage->Remove_0
            < self.conf->Some_0.experiment_elements.len()
    }

    /// Whether the event can come of what was asked for.
    pub open spec fn accepts(&self, event: ChangeEvent) -> bool {
        match self.stage {
            ChangeStage::Read => event is Read,
            ChangeStage::Remove(_) => event is Removed,
            ChangeStage::Write => event is Written,
            ChangeStage::Hook => event is Hooked,
            ChangeStage::Over => false,
        }
    }

    /// The change of an execution, of which the configuration is to be read first.
    pub fn start(id: ExecutionId, change: Change) -> (res: ChangeWork)
        ensures
            res.wf(),
            res.id == id,
            res.change == change,
            res.conf is None,
            res.stage == ChangeStage::Read,
    {
        ChangeWork { id, change, conf: None, stage: ChangeStage::Read }
    }

    /// The path of the configuration that is read and written.
    pub fn conf_path(&self, campaign: &CampaignConf) -> (res: String)
        requires
            campaign.path is Some,
        ensures
            res@ == campaign.execution_file(self.id.0),
    {
        campaign.get_execution_conf_path(self.id)
    }

    /// The path of the element that is to be removed.
    pub fn element(&self) -> (res: String)
        requires
            self.wf(),
            self.stage is Remove,
        ensures
            res@ == path_in(
                self.conf->Some_0@.path->Some_0,
                self.conf->Some_0@.experiment_elements[self.stage->Remove_0 as int],
            ),
    {
        match (&self.conf, self.stage) {
            (Some(conf), ChangeStage::Remove(i)) => path_join(
                conf.get_path().as_str(),
                conf.experiment_elements[i].as_str(),
            ),
            _ => vstd::pervasive::unreached(),
        }
    }

    /// Goes on with a finishing once some elements were removed.
    fn go_on(&mut self, conf: ExecutionConf, removed: usize)
        requires
            conf.path is Some,
        ensures
            final(self).wf(),
            final(self).id == old(self).id,
            final(self).change == old(self).change,
            finishes(conf@, removed as int, *final(self)),
    {
        if removed < conf.experiment_elements.len() {
            self.conf = Some(conf);
            self.stage = ChangeStage::Remove(removed);
        } else {
            let mut conf = conf;
            conf.state = ExecutionState::Finished;
            self.conf = Some(conf);
            self.stage = ChangeStage::Write;
        }
    }

    /// Takes what came of the last action into account, and says what has to be done next.
    pub fn step(&mut self, campaign: &CampaignConf, event: ChangeEvent) -> (res: Work<
        ChangeStage,
        ExecutionConf,
    >)
        requires
            old(self).wf(),
            old(self).accepts(event),
            campaign.path is Some,
        ensures
            final(self).wf(),
            change_step(
                campaign.execution_folder(old(self).id.0),
                *old(self),
                event,
                *final(self),
                res,
            ),
    {
        match (self.stage, event) {
            (ChangeStage::Read, ChangeEvent::Read(read)) => {
                let folder = campaign.get_execution_path(self.id);
                match ExecutionConf::from_file(folder.as_str(), read) {
                    Ok(conf) => {
                        assert(conf@.path is Some);
                        let update = match &self.change {
                            Change::Update(update) => Some(update.clone()),
                            Change::Finish => None,
                        };
                        match update {
                            Some(update) => {
                                let conf = update.apply(conf);
                                assert(conf@.path is Some);
                                self.conf = Some(conf);
                                self.stage = ChangeStage::Write;
                            },
                            None => {
                                assert(conf@.experiment_elements.len()
                                    == conf.experiment_elements.len());
                                self.go_on(conf, 0);
                            },
                        }
                        Work::Do(self.stage)
                    },
                    Err(e) => {
                        self.stage = ChangeStage::Over;
                        Work::Return(Err(e))
                    },
                }
            },
            (ChangeStage::Remove(i), ChangeEvent::Removed(done)) => {
                if done {
                    let conf = match &self.conf {
                        Some(conf) => conf.clone(),
                        None => vstd::pervasive::unreached(),
                    };
                    assert(conf@.path is Some);
                    assert(conf@.experiment_elements.len() == conf.experiment_elements.len());
                    self.go_on(conf, i + 1);
                    Work::Do(self.stage)
                } else {
                    self.stage = ChangeStage::Over;
                    Work::Return(
                        Err(
                            Error::FinishExecution(
                                "Failed to remote one experiment element".to_owned(),
                            ),
                        ),
                    )
                }
            },
            (ChangeStage::Write, ChangeEvent::Written(written)) => match written {
                Stored::Done => {
                    self.stage = ChangeStage::Hook;
                    Work::Do(ChangeStage::Hook)
                },
                _ => {
                    self.stage = ChangeStage::Over;
                    Work::Return(Err(Error::WriteExecution))
                },
            },
            (ChangeStage::Hook, ChangeEvent::Hooked(result)) => {
                self.stage = ChangeStage::Over;
                match (result, &self.conf) {
                    (Ok(_), Some(conf)) => Work::Return(Ok(conf.clone())),
                    (Ok(_), None) => vstd::pervasive::unreached(),
                    (Err(e), _) => Work::Return(Err(e)),
                }
            },
            _ => vstd::pervasive::unreached(),
        }
    }
}

//------------------------------------------------------------------------------ DELETE EXECUTION
/// What the removal of the folder of an execution gives.
pub fn handle_delete_execution(removed: bool) -> (res: Result<(), Error>)
    ensures
        if removed {
            res == Ok::<(), Error>(())
        } else {
            &&& res is Err
            &&& res->Err_0 is DeleteExecution
            &&& res->Err_0->DeleteExecution_0@ == "Failed to remove execution files"@
        },
{
    if removed {
        Ok(())
    } else {
        Err(Error::DeleteExecution("Failed to remove execution files".to_owned()))
    }
}

//------------------------------------------------------------------------------ FETCH EXECUTIONS
/// Compares the folders that hold an execution before and after a fetch: the configuration files that
/// are to be read, one for each new folder. It is an error if a folder vanished.
pub fn fetched_folders(campaign: &CampaignConf, before: &Vec<String>, after: &Vec<String>) -> (res:
    Result<Vec<String>, Error>)
    requires
        campaign.path is Some,
    ensures
        if all_kept(texts(before@), texts(after@)) {
            &&& res is Ok
            &&& ({
                let added = new_folders(texts(before@), texts(after@));
                &&& res->Ok_0.len() == added.len()
                &&& forall|i: int|
                    0 <= i < added.len() ==> (#[trigger] res->Ok_0@[i])@ == path_in(
                        path_in(path_in(campaign.root(), EXCS_RPATH@), added[i]),
                        EXCCONF_RPATH@,
                    )
            })
        } else {
            &&& res is Err
            &&& res->Err_0 is FetchExecutions
            &&& res->Err_0->FetchExecutions_0@
                == "Some executions existed before fetch but not after"@
        },
{
    if !keeps_all(before, after) {
        return Err(
            Error::FetchExecutions(
                "Some executions existed before fetch but not after".to_owned(),
            ),
        );
    }
    let folder = campaign.get_executions_path();
    let added = select_new(before, after);
    let ghost all = texts(added@);
    let mut res: Vec<String> = Vec::new();
    let mut i: usize = 0;
    while i < added.len()
        invariant
            i <= added.len(),
            all == texts(added@),
            folder@ == path_in(campaign.root(), EXCS_RPATH@),
            res.len() == i,
            forall|j: int|
                0 <= j < i ==> (#[trigger] res@[j])@ == path_in(
                    path_in(folder@, all[j]),
                    EXCCONF_RPATH@,
                ),
        decreases added.len() - i,
    {
        assert(all[i as int] == added@[i as int]@);
        let path = path_join(folder.as_str(), added[i].as_str());
        res.push(path_join(path.as_str(), EXCCONF_RPATH));
        i = i + 1;
    }
    Ok(res)
}

//----------------------------------------------------------------------------------------- CACHE
/// What the cache is told of an operation that was performed.
pub open spec fn is_message(message: ExecutionsCacheMessage, id: u128, conf: ExecutionView, new: bool) -> bool {
    match message {
        ExecutionsCacheMessage::New(i, c) => new && i.0 == id && c@ == conf,
        ExecutionsCacheMessage::Update(i, c) => !new && i.0 == id && c@ == conf,
        ExecutionsCacheMessage::Delete(_) => false,
    }
}

/// What the cache is told of an operation that was performed. An operation that failed changes
/// nothing.
pub open spec fn are_messages(operation: RepositoryOperation, messages: Seq<ExecutionsCacheMessage>) -> bool {
    match operation {
        RepositoryOperation::CreateExecution(CreateExecutionOp { output: Some(Ok(conf)), .. }) => {
            &&& messages.len() == 1
            &&& is_message(messages[0], conf.identifier.0, conf@, true)
        },
        RepositoryOperation::UpdateExecution(UpdateExecutionOp { output: Some(Ok(conf)), .. }) => {
            &&& messages.len() == 1
            &&& is_message(messages[0], conf.identifier.0, conf@, false)
        },
        RepositoryOperation::FinishExecution(FinishExecutionOp { output: Some(Ok(conf)), .. }) => {
            &&& messages.len() == 1
            &&& is_message(messages[0], conf.identifier.0, conf@, false)
        },
        RepositoryOperation::DeleteExecution(DeleteExecutionOp { output: Some(Ok(_)), input }) => {
            messages == seq![ExecutionsCacheMessage::Delete(input)]
        },
        RepositoryOperation::FetchExecutions(FetchExecutionsOp { output: Some(Ok(confs)) }) => {
            &&& messages.len() == confs.len()
            &&& forall|i: int|
                0 <= i < messages.len() ==> is_message(
                    #[trigger] messages[i],
                    confs@[i].identifier.0,
                    confs@[i]@,
                    true,
                )
        },
        _ => messages.len() == 0,
    }
}

/// What the cache has to be told of an operation that was performed.
pub fn cache_messages(operation: &RepositoryOperation) -> (res: Vec<ExecutionsCacheMessage>)
    ensures
        are_messages(*operation, res@),
{
    let mut res: Vec<ExecutionsCacheMessage> = Vec::new();
    match operation {
        RepositoryOperation::FetchExperiment(_) => {},
        RepositoryOperation::CreateExecution(ope) => match &ope.output {
            Some(Ok(conf)) => {
                res.push(ExecutionsCacheMessage::New(conf.identifier, conf.clone()));
            },
            _ => {},
        },
        RepositoryOperation::UpdateExecution(ope) => match &ope.output {
            Some(Ok(conf)) => {
                res.push(ExecutionsCacheMessage::Update(conf.identifier, conf.clone()));
            },
            _ => {},
        },
        RepositoryOperation::FinishExecution(ope) => match &ope.output {
            Some(Ok(conf)) => {
                res.push(ExecutionsCacheMessage::Update(conf.identifier, conf.clone()));
            },
            _ => {},
        },
        RepositoryOperation::DeleteExecution(ope) => match &ope.output {
            Some(Ok(_)) => {
                res.push(ExecutionsCacheMessage::Delete(ope.input));
                assert(res@ =~= seq![ExecutionsCacheMessage::Delete(ope.input)]);
            },
            _ => {},
        },
        RepositoryOperation::FetchExecutions(ope) => match &ope.output {
            Some(Ok(confs)) => {
                let mut i: usize = 0;
                while i < confs.len()
                    invariant
                        i <= confs.len(),
                        res.len() == i,
                        forall|j: int|
                            0 <= j < i ==> is_message(
                                #[trigger] res@[j],
                                confs@[j].identifier.0,
                                confs@[j]@,
                                true,
                            ),
                    decreases confs.len() - i,
                {
                    res.push(ExecutionsCacheMessage::New(confs[i].identifier, confs[i].clone()));
                    i = i + 1;
                }
            },
            _ => {},
        },
    }
    res
}

//--------------------------------------------------------------------------------------- RESULTS
/// A concurrent map.
#[verifier::external_type_specification]
#[verifier::external_body]
#[verifier::reject_recursive_types(K)]
#[verifier::reject_recursive_types(V)]
pub struct ExCHashMap<K, V>(chashmap::CHashMap<K, V>);

/// The operations that a concurrent map holds.
pub uninterp spec fn held_operations(map: chashmap::CHashMap<u128, RepositoryOperation>) -> Map<
    u128,
    RepositoryOperation,
>;

/// How many buckets of a concurrent map were never used since its table was made. A search goes on
/// until it meets the key or such a bucket.
pub uninterp spec fn untouched_buckets(map: chashmap::CHashMap<u128, RepositoryOperation>) -> nat;

/// A map without entries, by `chashmap::CHashMap::new`. Its table has 256 buckets.
#[verifier::external_body]
fn chashmap_new() -> (res: chashmap::CHashMap<u128, RepositoryOperation>)
    ensures
        held_operations(res) == (Map::<u128, RepositoryOperation>::empty()),
        untouched_buckets(res) == 256,
{
    chashmap::CHashMap::new()
}

/// Whether the map has an entry for the key, by `chashmap::CHashMap::contains_key`. Where the key has
/// none, the search ends at an untouched bucket, so there has to be one.
#[verifier::external_body]
fn chashmap_contains_key(
    map: &chashmap::CHashMap<u128, RepositoryOperation>,
    key: u128,
) -> (res: bool)
    requires
        untouched_buckets(*map) > 0,
    ensures
        res == held_operations(*map).contains_key(key),
{
    map.contains_key(&key)
}

/// Adds an entry for a key that has none, by `chashmap::CHashMap::insert_new`, which may search for
/// the key first. The entry takes one bucket, and a table that gets too full is replaced by a larger
/// one.
#[verifier::external_body]
fn chashmap_insert_new(
    map: &mut chashmap::CHashMap<u128, RepositoryOperation>,
    key: u128,
    val: RepositoryOperation,
)
    requires
        !held_operations(*old(map)).contains_key(key),
        untouched_buckets(*old(map)) > 0,
    ensures
        held_operations(*final(map)) == held_operations(*old(map)).insert(key, val),
        untouched_buckets(*final(map)) + 1 >= untouched_buckets(*old(map)),
{
    map.insert_new(key, val)
}

/// Removes the entry of a key, which is given back, by `chashmap::CHashMap::remove`. Where the key has
/// none, the search ends at an untouched bucket, so there has to be one. The bucket of the entry does
/// not become untouched again.
#[verifier::external_body]
fn chashmap_remove(
    map: &mut chashmap::CHashMap<u128, RepositoryOperation>,
    key: u128,
) -> (res: Option<RepositoryOperation>)
    requires
        untouched_buckets(*old(map)) > 0,
    ensures
        held_operations(*final(map)) == held_operations(*old(map)).remove(key),
        untouched_buckets(*final(map)) == untouched_buckets(*old(map)),
        match res {
            Some(val) => held_operations(*old(map)).contains_pair(key, val),
            None => !held_operations(*old(map)).contains_key(key),
        },
{
    map.remove(&key)
}

/// Moves the entries to a new table, by `chashmap::CHashMap::shrink_to_fit`. The table has at least
/// eight buckets, and four for each entry, so at least six of them are untouched.
#[verifier::external_body]
fn chashmap_shrink_to_fit(map: &mut chashmap::CHashMap<u128, RepositoryOperation>)
    ensures
        held_operations(*final(map)) == held_operations(*old(map)),
        untouched_buckets(*final(map)) >= 6,
{
    map.shrink_to_fit()
}

/// The operations that were performed and whose futures were not polled yet, by the number of the
/// future.
pub struct OperationsResults {
    map: chashmap::CHashMap<u128, RepositoryOperation>,
}

impl View for OperationsResults {
    type V = Map<u128, RepositoryOperation>;

    closed spec fn view(&self) -> Map<u128, RepositoryOperation> {
        held_operations(self.map)
    }
}

impl OperationsResults {
    /// A search for a result comes to an end.
    pub closed spec fn wf(&self) -> bool {
        untouched_buckets(self.map) > 0
    }

    /// No operation was performed.
    pub fn new() -> (res: OperationsResults)
        ensures
            res.wf(),
            res@ == Map::<u128, RepositoryOperation>::empty(),
    {
        OperationsResults { map: chashmap_new() }
    }

    /// Whether the result of a future is there.
    pub fn contains(&self, future: u128) -> (res: bool)
        requires
            self.wf(),
        ensures
            res == self@.contains_key(future),
    {
        chashmap_contains_key(&self.map, future)
    }

    /// Keeps the operation that was performed for a future. There must be none for it yet. The
    /// results move to a new table first, since the buckets of those that were taken are not free
    /// for searches.
    pub fn insert_new(&mut self, future: u128, operation: RepositoryOperation)
        requires
            old(self).wf(),
            !old(self)@.contains_key(future),
        ensures
            final(self).wf(),
            final(self)@ == old(self)@.insert(future, operation),
    {
        chashmap_shrink_to_fit(&mut self.map);
        chashmap_insert_new(&mut self.map, future, operation);
    }

    /// Takes the operation that was performed for a future.
    pub fn remove(&mut self, future: u128) -> (res: Option<RepositoryOperation>)
        requires
            old(self).wf(),
        ensures
            final(self).wf(),
            final(self)@ == old(self)@.remove(future),
            match res {
                Some(operation) => old(self)@.contains_pair(future, operation),
                None => !old(self)@.contains_key(future),
            },
    {
        chashmap_remove(&mut self.map, future)
    }
}

//--------------------------------------------------------------------------------------- FUTURES
/// Where a future stands.
#[derive(Clone, Copy, Debug, PartialEq, Eq, Structural)]
pub enum FutureState {
    Starting,
    Waiting,
    Finished,
}

impl Machine for FutureState {
    open spec fn state_id(&self) -> u64 {
        match self {
            FutureState::Starting => 0,
            FutureState::Waiting => 1,
            FutureState::Finished => 2,
        }
    }
}

/// The operation was not sent yet.
#[derive(Clone, Copy, Debug, PartialEq, Eq, Structural)]
pub struct Starting;

/// The operation was sent, and its result is waited for.
#[derive(Clone, Copy, Debug, PartialEq, Eq, Structural)]
pub struct Waiting;

/// The future is resolved.
#[derive(Clone, Copy, Debug, PartialEq, Eq, Structural)]
pub struct Finished;

impl State<FutureState> for Starting {
    open spec fn type_id() -> u64 {
        0
    }

    open spec fn any(&self) -> FutureState {
        FutureState::Starting
    }

    open spec fn cast(any: FutureState) -> Option<Self> {
        if any == FutureState::Starting {
            Some(Starting)
        } else {
            None
        }
    }

    fn as_any(&self) -> (res: FutureState) {
        FutureState::Starting
    }

    fn from_any(any: &FutureState) -> (res: Option<Self>) {
        match any {
            FutureState::Starting => Some(Starting),
            _ => None,
        }
    }

    proof fn cast_any(&self) {
    }

    proof fn cast_some(any: FutureState) {
    }
}

impl State<FutureState> for Waiting {
    open spec fn type_id() -> u64 {
        1
    }

    open spec fn any(&self) -> FutureState {
        FutureState::Waiting
    }

    open spec fn cast(any: FutureState) -> Option<Self> {
        if any == FutureState::Waiting {
            Some(Waiting)
        } else {
            None
        }
    }

    fn as_any(&self) -> (res: FutureState) {
        FutureState::Waiting
    }

    fn from_any(any: &FutureState) -> (res: Option<Self>) {
        match any {
            FutureState::Waiting => Some(Waiting),
            _ => None,
        }
    }

    proof fn cast_any(&self) {
    }

    proof fn cast_some(any: FutureState) {
    }
}

impl State<FutureState> for Finished {
    open spec fn type_id() -> u64 {
        2
    }

    open spec fn any(&self) -> FutureState {
        FutureState::Finished
    }

    open spec fn cast(any: FutureState) -> Option<Self> {
        if any == FutureState::Finished {
            Some(Finished)
        } else {
            None
        }
    }

    fn as_any(&self) -> (res: FutureState) {
        FutureState::Finished
    }

    fn from_any(any: &FutureState) -> (res: Option<Self>) {
        match any {
            FutureState::Finished => Some(Finished),
            _ => None,
        }
    }

    proof fn cast_any(&self) {
    }

    proof fn cast_some(any: FutureState) {
    }
}

impl TransitionsTo<Waiting> for Starting {

}

impl TransitionsTo<Finished> for Starting {

}

impl TransitionsTo<Finished> for Waiting {

}

/// What a poll gives.
pub enum Polled<T> {
    /// The future is resolved.
    Ready(Result<T, Error>),
    /// The future is to be polled again once it is woken.
    Pending,
}

/// A future that waits for an operation of a repository.
pub struct OperationFuture {
    pub state: Stateful<FutureState>,
    /// The number under which the result of the operation is kept.
    pub uuid: u128,
}

/// A future for a fetch of the experiment. See `OperationFuture::poll_fetch_experiment`.
pub type FetchExperimentFuture = OperationFuture;

/// A future for the creation of an execution. See `OperationFuture::poll_create_execution`.
pub type CreateExecutionFuture = OperationFuture;

/// A future for the update of an execution. See `OperationFuture::poll_update_execution`.
pub type UpdateExecutionFuture = OperationFuture;

/// A future for the finishing of an execution. See `OperationFuture::poll_finish_execution`.
pub type FinishExecutionFuture = OperationFuture;

/// A future for the removal of an execution. See `OperationFuture::poll_delete_execution`.
pub type DeleteExecutionFuture = OperationFuture;

/// A future for a fetch of executions. See `OperationFuture::poll_fetch_executions`.
pub type FetchExecutionsFuture = OperationFuture;

impl OperationFuture {
    /// A future whose operation is to be sent, under a random number.
    pub fn new() -> (res: OperationFuture)
        ensures
            res.state@ == FutureState::Starting,
            is_random_id(res.uuid),
    {
        OperationFuture { state: Stateful::from(Starting), uuid: uuid_new_v4() }
    }

    /// Goes on once the operation was sent, or could not be.
    pub fn poll_start<T>(&mut self, sent: bool) -> (res: Polled<T>)
        requires
            old(self).state@ == FutureState::Starting,
        ensures
            final(self).uuid == old(self).uuid,
            if sent {
                final(self).state@ == FutureState::Waiting && res is Pending
            } else {
                &&& final(self).state@ == FutureState::Finished
                &&& res is Ready
                &&& res->Ready_0 is Err
                &&& res->Ready_0->Err_0 is ChannelBroken
                &&& res->Ready_0->Err_0->ChannelBroken_0@ == "repository operations sender"@
            },
    {
        if sent {
            self.state.transition::<Starting, Waiting>(Waiting);
            Polled::Pending
        } else {
            self.state.transition::<Starting, Finished>(Finished);
            Polled::Ready(
                Err(Error::ChannelBroken("repository operations sender".to_owned())),
            )
        }
    }

    /// Goes on once the future was woken: takes the operation that was performed for it.
    fn take(&mut self, results: &mut OperationsResults) -> (res: Option<RepositoryOperation>)
        requires
            old(self).state@ == FutureState::Waiting,
            old(results).wf(),
        ensures
            final(results).wf(),
            final(self).state@ == FutureState::Finished,
            final(self).uuid == old(self).uuid,
            final(results)@ == old(results)@.remove(old(self).uuid),
            match res {
                Some(operation) => old(results)@.contains_pair(old(self).uuid, operation),
                None => !old(results)@.contains_key(old(self).uuid),
            },
    {
        self.state.transition::<Waiting, Finished>(Finished);
        results.remove(self.uuid)
    }
}

/// What is said where no result is there.
pub const NO_RESULT: &'static str = "Future woken but result not available";

/// What is said where the result is that of another operation.
pub const OTHER_RESULT: &'static str = "Unexpected result type";

/// What is said where the operation was not performed.
pub const NO_OUTPUT: &'static str = "Operation gathered, output is None";

/// Whether a future for a fetch of the experiment resolves to `res`, given the operation that was performed for it.
pub open spec fn fetch_experiment_resolves(
    operation: Option<RepositoryOperation>,
    res: Result<(), Error>,
) -> bool {
    match operation {
        Some(RepositoryOperation::FetchExperiment(ope)) => match ope.output {
            Some(result) => res == result,
            None => {
                &&& res is Err
                &&& res->Err_0 is CreateExecution
                &&& res->Err_0->CreateExecution_0@ == NO_OUTPUT@
            },
        },
        None => {
            &&& res is Err
            &&& res->Err_0 is FetchExperiment
            &&& res->Err_0->FetchExperiment_0@ == NO_RESULT@
        },
        Some(_) => {
            &&& res is Err
            &&& res->Err_0 is FetchExperiment
            &&& res->Err_0->FetchExperiment_0@ == OTHER_RESULT@
        },
    }
}

/// Whether a future for a creation resolves to `res`, given the operation that was performed for it.
pub open spec fn create_execution_resolves(
    operation: Option<RepositoryOperation>,
    res: Result<ExecutionConf, Error>,
) -> bool {
    match operation {
        Some(RepositoryOperation::CreateExecution(ope)) => match ope.output {
            Some(result) => res == result,
            None => {
                &&& res is Err
                &&& res->Err_0 is CreateExecution
                &&& res->Err_0->CreateExecution_0@ == NO_OUTPUT@
            },
        },
        None => {
            &&& res is Err
            &&& res->Err_0 is CreateExecution
            &&& res->Err_0->CreateExecution_0@ == NO_RESULT@
        },
        Some(_) => {
            &&& res is Err
            &&& res->Err_0 is CreateExecution
            &&& res->Err_0->CreateExecution_0@ == OTHER_RESULT@
        },
    }
}

/// Whether a future for an update resolves to `res`, given the operation that was performed for it.
pub open spec fn update_execution_resolves(
    operation: Option<RepositoryOperation>,
    res: Result<ExecutionConf, Error>,
) -> bool {
    match operation {
        Some(RepositoryOperation::UpdateExecution(ope)) => match ope.output {
            Some(result) => res == result,
            None => {
                &&& res is Err
                &&& res->Err_0 is UpdateExecution
                &&& res->Err_0->UpdateExecution_0@ == NO_OUTPUT@
            },
        },
        None => {
            &&& res is Err
            &&& res->Err_0 is UpdateExecution
            &&& res->Err_0->UpdateExecution_0@ == NO_RESULT@
        },
        Some(_) => {
            &&& res is Err
            &&& res->Err_0 is UpdateExecution
            &&& res->Err_0->UpdateExecution_0@ == OTHER_RESULT@
        },
    }
}

/// Whether a future for a finishing resolves to `res`, given the operation that was performed for it.
pub open spec fn finish_execution_resolves(
    operation: Option<RepositoryOperation>,
    res: Result<ExecutionConf, Error>,
) -> bool {
    match operation {
        Some(RepositoryOperation::FinishExecution(ope)) => match ope.output {
            Some(result) => res == result,
            None => {
                &&& res is Err
                &&& res->Err_0 is FinishExecution
                &&& res->Err_0->FinishExecution_0@ == NO_OUTPUT@
            },
        },
        None => {
            &&& res is Err
            &&& res->Err_0 is FinishExecution
            &&& res->Err_0->FinishExecution_0@ == NO_RESULT@
        },
        Some(_) => {
            &&& res is Err
            &&& res->Err_0 is FinishExecution
            &&& res->Err_0->FinishExecution_0@ == OTHER_RESULT@
        },
    }
}

/// Whether a future for a removal resolves to `res`, given the operation that was performed for it.
pub open spec fn delete_execution_resolves(
    operation: Option<RepositoryOperation>,
    res: Result<(), Error>,
) -> bool {
    match operation {
        Some(RepositoryOperation::DeleteExecution(ope)) => match ope.output {
            Some(result) => res == result,
            None => {
                &&& res is Err
                &&& res->Err_0 is DeleteExecution
                &&& res->Err_0->DeleteExecution_0@ == NO_OUTPUT@
            },
        },
        None => {
            &&& res is Err
            &&& res->Err_0 is DeleteExecution
            &&& res->Err_0->DeleteExecution_0@ == NO_RESULT@
        },
        Some(_) => {
            &&& res is Err
            &&& res->Err_0 is DeleteExecution
            &&& res->Err_0->DeleteExecution_0@ == OTHER_RESULT@
        },
    }
}

/// Whether a future for a fetch of executions resolves to `res`, given the operation that was performed for it.
pub open spec fn fetch_executions_resolves(
    operation: Option<RepositoryOperation>,
    res: Result<Vec<ExecutionConf>, Error>,
) -> bool {
    match operation {
        Some(RepositoryOperation::FetchExecutions(ope)) => match ope.output {
            Some(result) => res == result,
            None => {
                &&& res is Err
                &&& res->Err_0 is FetchExecutions
                &&& res->Err_0->FetchExecutions_0@ == NO_OUTPUT@
            },
        },
        None => {
            &&& res is Err
            &&& res->Err_0 is FetchExecutions
            &&& res->Err_0->FetchExecutions_0@ == NO_RESULT@
        },
        Some(_) => {
            &&& res is Err
            &&& res->Err_0 is FetchExecutions
            &&& res->Err_0->FetchExecutions_0@ == OTHER_RESULT@
        },
    }
}

/// What the results hold for a future.
pub open spec fn result_for(
    results: Map<u128, RepositoryOperation>,
    future: u128,
) -> Option<RepositoryOperation> {
    if results.contains_key(future) {
        Some(results[future])
    } else {
        None
    }
}

impl OperationFuture {
    /// Resolves a future for a fetch of the experiment, once it was woken.
    pub fn poll_fetch_experiment(&mut self, results: &mut OperationsResults) -> (res: Result<
        (),
        Error,
    >)
        requires
            old(self).state@ == FutureState::Waiting,
            old(results).wf(),
        ensures
            final(results).wf(),
            final(self).state@ == FutureState::Finished,
            final(self).uuid == old(self).uuid,
            final(results)@ == old(results)@.remove(old(self).uuid),
            fetch_experiment_resolves(result_for(old(results)@, old(self).uuid), res),
    {
        match self.take(results) {
            Some(RepositoryOperation::FetchExperiment(ope)) => match ope.output {
                Some(result) => result,
                None => Err(Error::CreateExecution(NO_OUTPUT.to_owned())),
            },
            None => Err(Error::FetchExperiment(NO_RESULT.to_owned())),
            Some(_) => Err(Error::FetchExperiment(OTHER_RESULT.to_owned())),
        }
    }

    /// Resolves a future for a creation, once it was woken.
    pub fn poll_create_execution(&mut self, results: &mut OperationsResults) -> (res: Result<
        ExecutionConf,
        Error,
    >)
        requires
            old(self).state@ == FutureState::Waiting,
            old(results).wf(),
        ensures
            final(results).wf(),
            final(self).state@ == FutureState::Finished,
            final(self).uuid == old(self).uuid,
            final(results)@ == old(results)@.remove(old(self).uuid),
            create_execution_resolves(result_for(old(results)@, old(self).uuid), res),
    {
        match self.take(results) {
            Some(RepositoryOperation::CreateExecution(ope)) => match ope.output {
                Some(result) => result,
                None => Err(Error::CreateExecution(NO_OUTPUT.to_owned())),
            },
            None => Err(Error::CreateExecution(NO_RESULT.to_owned())),
            Some(_) => Err(Error::CreateExecution(OTHER_RESULT.to_owned())),
        }
    }

    /// Resolves a future for an update, once it was woken.
    pub fn poll_update_execution(&mut self, results: &mut OperationsResults) -> (res: Result<
        ExecutionConf,
        Error,
    >)
        requires
            old(self).state@ == FutureState::Waiting,
            old(results).wf(),
        ensures
            final(results).wf(),
            final(self).state@ == FutureState::Finished,
            final(self).uuid == old(self).uuid,
            final(results)@ == old(results)@.remove(old(self).uuid),
            update_execution_resolves(result_for(old(results)@, old(self).uuid), res),
    {
        match self.take(results) {
            Some(RepositoryOperation::UpdateExecution(ope)) => match ope.output {
                Some(result) => result,
                None => Err(Error::UpdateExecution(NO_OUTPUT.to_owned())),
            },
            None => Err(Error::UpdateExecution(NO_RESULT.to_owned())),
            Some(_) => Err(Error::UpdateExecution(OTHER_RESULT.to_owned())),
        }
    }

    /// Resolves a future for a finishing, once it was woken.
    pub fn poll_finish_execution(&mut self, results: &mut OperationsResults) -> (res: Result<
        ExecutionConf,
        Error,
    >)
        requires
            old(self).state@ == FutureState::Waiting,
            old(results).wf(),
        ensures
            final(results).wf(),
            final(self).state@ == FutureState::Finished,
            final(self).uuid == old(self).uuid,
            final(results)@ == old(results)@.remove(old(self).uuid),
            finish_execution_resolves(result_for(old(results)@, old(self).uuid), res),
    {
        match self.take(results) {
            Some(RepositoryOperation::FinishExecution(ope)) => match ope.output {
                Some(result) => result,
                None => Err(Error::FinishExecution(NO_OUTPUT.to_owned())),
            },
            None => Err(Error::FinishExecution(NO_RESULT.to_owned())),
            Some(_) => Err(Error::FinishExecution(OTHER_RESULT.to_owned())),
        }
    }

    /// Resolves a future for a removal, once it was woken.
    pub fn poll_delete_execution(&mut self, results: &mut OperationsResults) -> (res: Result<
        (),
        Error,
    >)
        requires
            old(self).state@ == FutureState::Waiting,
            old(results).wf(),
        ensures
            final(results).wf(),
            final(self).state@ == FutureState::Finished,
            final(self).uuid == old(self).uuid,
            final(results)@ == old(results)@.remove(old(self).uuid),
            delete_execution_resolves(result_for(old(results)@, old(self).uuid), res),
    {
        match self.take(results) {
            Some(RepositoryOperation::DeleteExecution(ope)) => match ope.output {
                Some(result) => result,
                None => Err(Error::DeleteExecution(NO_OUTPUT.to_owned())),
            },
            None => Err(Error::DeleteExecution(NO_RESULT.to_owned())),
            Some(_) => Err(Error::DeleteExecution(OTHER_RESULT.to_owned())),
        }
    }

    /// Resolves a future for a fetch of executions, once it was woken.
    pub fn poll_fetch_executions(&mut self, results: &mut OperationsResults) -> (res: Result<
        Vec<ExecutionConf>,
        Error,
    >)
        requires
            old(self).state@ == FutureState::Waiting,
            old(results).wf(),
        ensures
            final(results).wf(),
            final(self).state@ == FutureState::Finished,
            final(self).uuid == old(self).uuid,
            final(results)@ == old(results)@.remove(old(self).uuid),
            fetch_executions_resolves(result_for(old(results)@, old(self).uuid), res),
    {
        match self.take(results) {
            Some(RepositoryOperation::FetchExecutions(ope)) => match ope.output {
                Some(result) => result,
                None => Err(Error::FetchExecutions(NO_OUTPUT.to_owned())),
            },
            None => Err(Error::FetchExecutions(NO_RESULT.to_owned())),
            Some(_) => Err(Error::FetchExecutions(OTHER_RESULT.to_owned())),
        }
    }
}

/// A future resolves to the result of the operation that was performed for it, which it takes, and
/// the results of other futures are not touched.
pub proof fn future_gets_its_own_result(
    results: Map<u128, RepositoryOperation>,
    future: u128,
    performed: RepositoryOperation,
    other: u128,
)
    requires
        other != future,
    ensures
        ({
            let kept = results.insert(future, performed);
            &&& match performed {
                RepositoryOperation::FetchExperiment(ope) => ope.output is Some
                    ==> fetch_experiment_resolves(result_for(kept, future), ope.output->Some_0),
                RepositoryOperation::CreateExecution(ope) => ope.output is Some
                    ==> create_execution_resolves(result_for(kept, future), ope.output->Some_0),
                RepositoryOperation::UpdateExecution(ope) => ope.output is Some
                    ==> update_execution_resolves(result_for(kept, future), ope.output->Some_0),
                RepositoryOperation::FinishExecution(ope) => ope.output is Some
                    ==> finish_execution_resolves(result_for(kept, future), ope.output->Some_0),
                RepositoryOperation::DeleteExecution(ope) => ope.output is Some
                    ==> delete_execution_resolves(result_for(kept, future), ope.output->Some_0),
                RepositoryOperation::FetchExecutions(ope) => ope.output is Some
                    ==> fetch_executions_resolves(result_for(kept, future), ope.output->Some_0),
            }
            &&& result_for(kept.remove(future), other) == result_for(results, other)
            &&& result_for(kept.remove(future), future) is None
        }),
{
}

//------------------------------------------------------------------------------------ REPOSITORY
/// The executions with those of a sequence added to them, by identifier.
pub open spec fn with_all(
    executions: Map<u128, ExecutionView>,
    added: Seq<ExecutionConf>,
) -> Map<u128, ExecutionView>
    decreases added.len(),
{
    if added.len() == 0 {
        executions
    } else {
        with_all(executions, added.drop_last()).insert(
            added.last().identifier.0,
            added.last()@,
        )
    }
}

/// The executions after an operation was performed. An operation that failed changes nothing.
pub open spec fn after_operation(
    executions: Map<u128, ExecutionView>,
    operation: RepositoryOperation,
) -> Map<u128, ExecutionView> {
    match operation {
        RepositoryOperation::CreateExecution(CreateExecutionOp { output: Some(Ok(conf)), .. }) =>
            executions.insert(conf.identifier.0, conf@),
        RepositoryOperation::UpdateExecution(UpdateExecutionOp { output: Some(Ok(conf)), .. }) =>
            executions.insert(conf.identifier.0, conf@),
        RepositoryOperation::FinishExecution(FinishExecutionOp { output: Some(Ok(conf)), .. }) =>
            executions.insert(conf.identifier.0, conf@),
        RepositoryOperation::DeleteExecution(DeleteExecutionOp { output: Some(Ok(_)), input }) =>
            executions.remove(input.0),
        RepositoryOperation::FetchExecutions(FetchExecutionsOp { output: Some(Ok(confs)) }) =>
            with_all(executions, confs@),
        _ => executions,
    }
}

/// Whether the executions that an operation changed or removed are known.
pub open spec fn is_known(
    executions: Map<u128, ExecutionView>,
    operation: RepositoryOperation,
) -> bool {
    match operation {
        RepositoryOperation::UpdateExecution(UpdateExecutionOp { output: Some(Ok(conf)), .. }) =>
            executions.contains_key(conf.identifier.0),
        RepositoryOperation::FinishExecution(FinishExecutionOp { output: Some(Ok(conf)), .. }) =>
            executions.contains_key(conf.identifier.0),
        RepositoryOperation::DeleteExecution(DeleteExecutionOp { output: Some(Ok(_)), input }) =>
            executions.contains_key(input.0),
        _ => true,
    }
}

/// A repository, with the executions that it holds and the results that are waited for.
pub struct Repository {
    pub campaign: CampaignConf,
    pub executions: ExecutionsCache,
    pub results: OperationsResults,
}

impl Repository {
    /// Opens a repository whose files hold the executions.
    pub fn new(campaign: CampaignConf, existing_executions: Vec<ExecutionConf>) -> (res: Repository)
        ensures
            res.campaign == campaign,
            res.executions@ == by_identifier(existing_executions@),
            res.results.wf(),
            res.results@ == Map::<u128, RepositoryOperation>::empty(),
    {
        Repository {
            campaign,
            executions: ExecutionsCache::new(existing_executions),
            results: OperationsResults::new(),
        }
    }

    /// Asks for a fetch of the experiment.
    pub fn fetch_experiment(&self) -> (res: (FetchExperimentFuture, RepositoryOperation))
        ensures
            res.0.state@ == FutureState::Starting,
            is_random_id(res.0.uuid),
            res.1 == RepositoryOperation::FetchExperiment(FetchExperimentOp { output: None }),
    {
        (
            OperationFuture::new(),
            RepositoryOperation::FetchExperiment(FetchExperimentOp { output: None }),
        )
    }

    /// Asks for the creation of an execution.
    pub fn create_execution(&self, commit: &str, parameters: &str, tags: &Vec<String>) -> (res: (
        CreateExecutionFuture,
        RepositoryOperation,
    ))
        ensures
            res.0.state@ == FutureState::Starting,
            is_random_id(res.0.uuid),
            res.1 is CreateExecution,
            res.1->CreateExecution_0.input.0.0@ == commit@,
            res.1->CreateExecution_0.input.1.0@ == parameters@,
            tag_texts(res.1->CreateExecution_0.input.2@) == texts(tags@),
            res.1->CreateExecution_0.output is None,
    {
        let mut all: Vec<ExecutionTag> = Vec::new();
        let mut i: usize = 0;
        while i < tags.len()
            invariant
                i <= tags.len(),
                all.len() == i,
                forall|j: int| 0 <= j < i ==> (#[trigger] all@[j]).0@ == tags@[j]@,
            decreases tags.len() - i,
        {
            all.push(ExecutionTag(tags[i].clone()));
            i = i + 1;
        }
        assert(tag_texts(all@) =~= texts(tags@));
        let input = (
            ExperimentCommit(commit.to_owned()),
            ExecutionParameters(parameters.to_owned()),
            all,
        );
        (
            OperationFuture::new(),
            RepositoryOperation::CreateExecution(CreateExecutionOp { input, output: None }),
        )
    }

    /// Asks for the update of an execution.
    pub fn update_execution(&self, id: ExecutionId, upd: &ExecutionUpdate) -> (res: (
        UpdateExecutionFuture,
        RepositoryOperation,
    ))
        ensures
            res.0.state@ == FutureState::Starting,
            is_random_id(res.0.uuid),
            res.1 == RepositoryOperation::UpdateExecution(
                UpdateExecutionOp { input: (id, *upd), output: None },
            ),
    {
        (
            OperationFuture::new(),
            RepositoryOperation::UpdateExecution(
                UpdateExecutionOp { input: (id, upd.clone()), output: None },
            ),
        )
    }

    /// Asks for the finishing of an execution.
    pub fn finish_execution(&self, id: ExecutionId) -> (res: (FinishExecutionFuture, RepositoryOperation))
        ensures
            res.0.state@ == FutureState::Starting,
            is_random_id(res.0.uuid),
            res.1 == RepositoryOperation::FinishExecution(
                FinishExecutionOp { input: id, output: None },
            ),
    {
        (
            OperationFuture::new(),
            RepositoryOperation::FinishExecution(FinishExecutionOp { input: id, output: None }),
        )
    }

    /// Asks for the removal of an execution.
    pub fn delete_execution(&self, id: ExecutionId) -> (res: (DeleteExecutionFuture, RepositoryOperation))
        ensures
            res.0.state@ == FutureState::Starting,
            is_random_id(res.0.uuid),
            res.1 == RepositoryOperation::DeleteExecution(
                DeleteExecutionOp { input: id, output: None },
            ),
    {
        (
            OperationFuture::new(),
            RepositoryOperation::DeleteExecution(DeleteExecutionOp { input: id, output: None }),
        )
    }

    /// Asks for a fetch of executions.
    pub fn fetch_executions(&self) -> (res: (FetchExecutionsFuture, RepositoryOperation))
        ensures
            res.0.state@ == FutureState::Starting,
            is_random_id(res.0.uuid),
            res.1 == RepositoryOperation::FetchExecutions(FetchExecutionsOp { output: None }),
    {
        (
            OperationFuture::new(),
            RepositoryOperation::FetchExecutions(FetchExecutionsOp { output: None }),
        )
    }

    /// Takes an operation that was performed for a future into account: the executions follow it,
    /// and the result is kept for the future.
    pub fn complete(&mut self, future: u128, operation: RepositoryOperation)
        requires
            old(self).results.wf(),
            !old(self).results@.contains_key(future),
            is_known(old(self).executions@, operation),
        ensures
            final(self).results.wf(),
            final(self).campaign == old(self).campaign,
            final(self).executions@ == after_operation(old(self).executions@, operation),
            final(self).results@ == old(self).results@.insert(future, operation),
    {
        let ghost before = self.executions@;
        let mut messages = cache_messages(&operation);
        let ghost all = messages@;
        match &operation {
            RepositoryOperation::FetchExecutions(ope) => match &ope.output {
                Some(Ok(confs)) => {
                    let ghost cs = confs@;
                    let count: usize = confs.len();
                    let mut i: usize = 0;
                    while messages.len() > 0
                        invariant
                            self.campaign == old(self).campaign,
                            self.results == old(self).results,
                            i + messages.len() == all.len(),
                            all.len() == cs.len(),
                            cs.len() == count,
                            forall|j: int|
                                0 <= j < messages@.len() ==> #[trigger] messages@[j] == all[i + j],
                            forall|j: int|
                                0 <= j < all.len() ==> is_message(
                                    #[trigger] all[j],
                                    cs[j].identifier.0,
                                    cs[j]@,
                                    true,
                                ),
                            self.executions@ == with_all(before, cs.take(i as int)),
                        decreases messages.len(),
                    {
                        let ghost rest = messages@;
                        let message = messages.remove(0);
                        assert(message == rest[0]);
                        assert(message == all[i as int]);
                        assert(cs.take(i + 1).drop_last() =~= cs.take(i as int));
                        self.executions.handle(message);
                        i = i + 1;
                    }
                    assert(cs.take(i as int) =~= cs);
                },
                _ => {},
            },
            _ => match messages.pop() {
                Some(message) => {
                    assert(message == all[0]);
                    self.executions.handle(message);
                },
                None => {},
            },
        }
        self.results.insert_new(future, operation);
    }

    /// Retrieves the executions that currently exist in the repository: each of them once, in no
    /// particular order.
    pub fn get_executions(&self) -> (res: Vec<ExecutionConf>)
        ensures
            lists_each(self.executions@, res@),
            res.len() == self.executions@.dom().len(),
    {
        self.executions.get_executions()
    }
}

/// An operation that failed changes no execution.
pub proof fn failures_change_nothing(
    executions: Map<u128, ExecutionView>,
    operation: RepositoryOperation,
)
    requires
        match operation {
            RepositoryOperation::FetchExperiment(ope) => true,
            RepositoryOperation::CreateExecution(ope) => ope.output is Some
                && ope.output->Some_0 is Err,
            RepositoryOperation::UpdateExecution(ope) => ope.output is Some
                && ope.output->Some_0 is Err,
            RepositoryOperation::FinishExecution(ope) => ope.output is Some
                && ope.output->Some_0 is Err,
            RepositoryOperation::DeleteExecution(ope) => ope.output is Some
                && ope.output->Some_0 is Err,
            RepositoryOperation::FetchExecutions(ope) => ope.output is Some
                && ope.output->Some_0 is Err,
        },
    ensures
        after_operation(executions, operation) == executions,
{
}

//------------------------------------------------------------------------------------------ LAWS
/// The experiment is fetched stage by stage: each that is done is followed by the next one, and the
/// first one that fails ends the fetching. A merge has to be a fast-forward.
pub proof fn experiment_is_fetched_stage_by_stage(
    stage: FetchStage,
    event: FetchEvent,
    res: Work<FetchStage, ()>,
)
    requires
        call_ensures(handle_fetch_experiment, (stage, event), res),
    ensures
        event is Done ==> {
            &&& res is Do
            &&& stage is Remote ==> res->Do_0 is Fetch
            &&& stage is Fetch ==> res->Do_0 is RemoteHead
            &&& stage is RemoteHead ==> res->Do_0 is Target
            &&& stage is Target ==> res->Do_0 is Annotated
            &&& stage is Annotated ==> res->Do_0 is Analysis
            &&& stage is Commit ==> res->Do_0 is Tree
            &&& stage is Tree ==> res->Do_0 is Checkout
            &&& stage is Checkout ==> res->Do_0 is Master
            &&& stage is Master ==> res->Do_0 is SetMaster
            &&& stage is SetMaster ==> res->Do_0 is Head
            &&& stage is Head ==> res->Do_0 is SetHead
            &&& stage is SetHead ==> res->Do_0 is Hook
        },
        event is Analysed && event->Analysed_0 ==> res is Do && res->Do_0 is Commit,
        event is Analysed && !event->Analysed_0 ==> res is Return && res->Return_0 is Err
            && res->Return_0->Err_0 is NoFFPossible,
        event is Hooked ==> res is Return && res->Return_0 == event->Hooked_0,
        event is Failed ==> res is Return && res->Return_0 is Err && (if stage is Analysis {
            res->Return_0->Err_0 is Unknown
        } else {
            res->Return_0->Err_0 is FetchExperiment
        }),
{
}

/// An execution that is created holds what it was created with, under the given identifier, in the
/// folder of the identifier; it is initialized and has no results.
pub proof fn created_execution_holds_what_was_given(
    campaign: &CampaignConf,
    commit: ExperimentCommit,
    parameters: ExecutionParameters,
    tags: Vec<ExecutionTag>,
    generator: String,
    now: Timestamp,
    id: ExecutionId,
    res: CreateWork,
)
    requires
        call_ensures(
            CreateWork::start_at,
            (campaign, commit, parameters, tags, generator, now, id),
            res,
        ),
    ensures
        res.stage is Folder,
        res.conf.identifier == id,
        res.conf.path is Some,
        res.conf.path->Some_0@ == path_in(
            path_in(campaign.path->Some_0@, "excs"@),
            uuid_text(id.0),
        ),
        res.conf.commit.0@ == commit.0@,
        res.conf.parameters.0@ == parameters.0@,
        tag_texts(res.conf.tags@) == tag_texts(tags@),
        res.conf.generator@ == generator@,
        res.conf.generation_date@ == date_text(now.secs, now.nanos, "%Y-%m-%d %H:%M:%S"@),
        res.conf.state is Initialized,
        res.conf.experiment_elements.len() == 0,
        res.conf.executor is None && res.conf.execution_exit_code is None,
        res.conf.execution_stdout is None && res.conf.execution_stderr is None,
        res.conf.execution_date is None && res.conf.execution_duration is None,
        res.conf.execution_fitness is None,
{
    let view = res.conf@;
    assert(view.path == Some(campaign.execution_folder(id.0)));
    assert(view.commit == commit.0@ && view.parameters == parameters.0@);
    assert(view.generator == generator@ && view.tags == tag_texts(tags@));
    assert(view.generation_date == date_text(now.secs, now.nanos, DATE_FORMAT@));
    assert(view.experiment_elements.len() == 0);
    assert(view.executor is None && view.execution_date is None);
    assert(view.execution_stdout is None && view.execution_stderr is None);
}

/// An execution is created stage by stage, and the first one that fails ends the creation. After the
/// clone, what is no identifier of a commit is refused. What is in the folder are the elements of the
/// experiment, all of them. The execution is returned once it was synchronized.
pub proof fn execution_is_created_stage_by_stage(
    create: &mut CreateWork,
    event: CreateEvent,
    res: Work<CreateStage, ExecutionConf>,
)
    requires
        call_ensures(CreateWork::step, (create, event), res),
    ensures
        event is Done && !(old(create).stage is Clone) ==> {
            &&& res is Do
            &&& res->Do_0 == final(create).stage
            &&& old(create).stage is Folder ==> res->Do_0 is Clone
            &&& old(create).stage is Commit ==> res->Do_0 is Tree
            &&& old(create).stage is Tree ==> res->Do_0 is Checkout
            &&& old(create).stage is Checkout ==> res->Do_0 is RemoveGit
            &&& old(create).stage is RemoveGit ==> res->Do_0 is Walk
            &&& old(create).stage is DataFolder ==> res->Do_0 is Write
            &&& old(create).stage is Write ==> res->Do_0 is Hook
        },
        event is Done && old(create).stage is Clone ==> ((res is Do && res->Do_0 is Commit) <==> 1
            <= old(create).conf.commit.0@.len() <= 40 && forall|i: int|
            0 <= i < old(create).conf.commit.0@.len() ==> {
                let c = #[trigger] old(create).conf.commit.0@[i];
                '0' <= c <= '9' || 'a' <= c <= 'f' || 'A' <= c <= 'F'
            }),
        event is Failed ==> res is Return && res->Return_0 is Err
            && res->Return_0->Err_0 is CreateExecution && final(create).stage is Over,
        event is Gathered && old(create).conf.experiment_elements.len() == 0 ==> {
            &&& texts(final(create).conf.experiment_elements@) == texts(event->Gathered_0@)
            &&& res is Do && res->Do_0 is DataFolder
        },
        event is Hooked && event->Hooked_0 is Ok ==> res is Return && res->Return_0 is Ok
            && res->Return_0->Ok_0@ == old(create).conf@,
        event is Hooked && event->Hooked_0 is Err ==> res is Return && res->Return_0 is Err
            && res->Return_0->Err_0 == event->Hooked_0->Err_0,
{
    assert(old(create).conf@.commit == old(create).conf.commit.0@);
    if event is Gathered && old(create).conf.experiment_elements.len() == 0 {
        let paths = texts(event->Gathered_0@);
        let before = old(create).conf@.experiment_elements;
        assert(before =~= Seq::<Seq<char>>::empty());
        assert(before + paths =~= paths);
        assert(final(create).conf@.experiment_elements == paths);
    }
}

/// The experiment is cloned from the repository of the campaign.
pub proof fn experiment_is_cloned_from_the_campaign(campaign: &CampaignConf, res: String)
    requires
        call_ensures(CreateWork::experiment_url, (campaign,), res),
    ensures
        res@ == "file://"@ + path_in(campaign.path->Some_0@, "xprp"@),
{
}

/// A change is made of the execution that was read, in its folder: an update is applied to it, and a
/// finishing removes its elements first, one after the other, and then marks it as finished.
pub proof fn read_execution_is_changed(
    change: &mut ChangeWork,
    campaign: &CampaignConf,
    conf: ExecutionConf,
    res: Work<ChangeStage, ExecutionConf>,
)
    requires
        call_ensures(
            ChangeWork::step,
            (change, campaign, ChangeEvent::Read(Loaded::Value(conf))),
            res,
        ),
        old(change).stage is Read,
    ensures
        final(change).conf is Some,
        ({
            let changed = final(change).conf->Some_0;
            let found = ExecutionView {
                path: Some(
                    path_in(
                        path_in(campaign.path->Some_0@, "excs"@),
                        uuid_text(old(change).id.0),
                    ),
                ),
                ..conf@
            };
            &&& old(change).change is Update ==> {
                &&& changed@ == old(change).change->Update_0.applied(found)
                &&& old(change).change->Update_0.execution_exit_code is Some
                    ==> changed.execution_exit_code
                    == old(change).change->Update_0.execution_exit_code
                &&& old(change).change->Update_0.execution_exit_code is None
                    ==> changed.execution_exit_code == conf.execution_exit_code
                &&& final(change).stage is Write
            }
            &&& old(change).change is Finish && conf.experiment_elements.len() > 0 ==> changed@
                == found && final(change).stage == ChangeStage::Remove(0)
            &&& old(change).change is Finish && conf.experiment_elements.len() == 0 ==> changed@ == (
            ExecutionView { state: ExecutionState::Finished, ..found })
                && final(change).stage is Write
        }),
        res is Do && res->Do_0 == final(change).stage,
{
    let changed = final(change).conf->Some_0;
    assert(changed@.execution_exit_code == changed.execution_exit_code);
    assert(conf@.execution_exit_code == conf.execution_exit_code);
    assert(conf@.experiment_elements.len() == conf.experiment_elements.len());
}

/// Every element is removed before an execution is finished, and what was changed is then written,
/// synchronized and returned.
pub proof fn change_goes_through_its_stages(
    change: &mut ChangeWork,
    campaign: &CampaignConf,
    event: ChangeEvent,
    path: String,
    res: Work<ChangeStage, ExecutionConf>,
)
    requires
        call_ensures(ChangeWork::step, (change, campaign, event), res),
        call_ensures(ChangeWork::conf_path, (old(change), campaign), path),
        old(change).wf(),
        old(change).accepts(event),
    ensures
        path@ == path_in(
            path_in(path_in(campaign.path->Some_0@, "excs"@), uuid_text(old(change).id.0)),
            ".excconf"@,
        ),
        event is Removed && event->Removed_0 ==> ({
            let i = old(change).stage->Remove_0;
            let n = old(change).conf->Some_0.experiment_elements.len();
            &&& i + 1 < n ==> res is Do && res->Do_0 is Remove && res->Do_0->Remove_0 == i + 1
                && final(change).conf->Some_0@ == old(change).conf->Some_0@
            &&& i + 1 == n ==> res is Do && res->Do_0 is Write
                && final(change).conf->Some_0.state is Finished
        }),
        event is Removed && !event->Removed_0 ==> res is Return && res->Return_0 is Err,
        event is Written && event->Written_0 is Done ==> res is Do && res->Do_0 is Hook
            && final(change).conf == old(change).conf,
        event is Written && !(event->Written_0 is Done) ==> res is Return && res->Return_0 is Err
            && res->Return_0->Err_0 is WriteExecution,
        event is Hooked && event->Hooked_0 is Ok ==> res is Return && res->Return_0 is Ok
            && res->Return_0->Ok_0@ == old(change).conf->Some_0@,
        event is Hooked && event->Hooked_0 is Err ==> res is Return && res->Return_0 is Err
            && res->Return_0->Err_0 == event->Hooked_0->Err_0,
        event is Read && !(event->Read_0 is Value) ==> res is Return && res->Return_0 is Err
            && res->Return_0->Err_0 is ReadExecution,
{
    let before = old(change).conf->Some_0;
    assert(before@.experiment_elements.len() == before.experiment_elements.len());
    assert(final(change).conf->Some_0@.state == final(change).conf->Some_0.state);
}

/// The element that is removed stands in the folder of the execution. A removal of an execution
/// succeeds where its files could be removed.
pub proof fn removals_are_made_in_the_folder(
    change: ChangeWork,
    path: String,
    removed: bool,
    res: Result<(), Error>,
)
    requires
        call_ensures(ChangeWork::element, (&change,), path),
        call_ensures(handle_delete_execution, (removed,), res),
        change.wf(),
        change.stage is Remove,
    ensures
        path@ == path_in(
            change.conf->Some_0.path->Some_0@,
            change.conf->Some_0.experiment_elements@[change.stage->Remove_0 as int]@,
        ),
        res is Ok <==> removed,
{
    let conf = change.conf->Some_0;
    assert(conf@.experiment_elements[change.stage->Remove_0 as int]
        == conf.experiment_elements@[change.stage->Remove_0 as int]@);
}

proof fn new_folders_filtered(
    known: Seq<Seq<char>>,
    folders: Seq<Seq<char>>,
    unknown: spec_fn(Seq<char>) -> bool,
)
    requires
        forall|f: Seq<char>| #[trigger] unknown(f) == !known.contains(f),
    ensures
        new_folders(known, folders) == folders.filter(unknown),
    decreases folders.len(),
{
    reveal(Seq::filter);
    if folders.len() > 0 {
        new_folders_filtered(known, folders.drop_last(), unknown);
        assert(unknown(folders.last()) == !known.contains(folders.last()));
    }
}

/// A fetch reads the configurations of all the folders that were not there before, in their order, and
/// of no other one; it is an error if a folder vanished.
pub proof fn new_folders_are_read(
    campaign: &CampaignConf,
    before: &Vec<String>,
    after: &Vec<String>,
    i: int,
    res: Result<Vec<String>, Error>,
)
    requires
        call_ensures(fetched_folders, (campaign, before, after), res),
    ensures
        ({
            let added = texts(after@).filter(|f: Seq<char>| !texts(before@).contains(f));
            &&& (forall|k: int|
                0 <= k < before.len() ==> texts(after@).contains(#[trigger] texts(before@)[k]))
                ==> res is Ok && res->Ok_0.len() == added.len()
            &&& res is Ok && 0 <= i < added.len() ==> res->Ok_0@[i]@ == path_in(
                path_in(path_in(campaign.path->Some_0@, "excs"@), added[i]),
                ".excconf"@,
            )
        }),
        (exists|k: int|
            0 <= k < before.len() && !texts(after@).contains(#[trigger] texts(before@)[k]))
            ==> res is Err,
{
    let known = texts(before@);
    new_folders_filtered(known, texts(after@), |f: Seq<char>| !known.contains(f));
}

/// The cache is told of each execution that an operation created, changed, removed or brought, and of
/// nothing else.
pub proof fn cache_is_told(
    operation: &RepositoryOperation,
    i: int,
    res: Vec<ExecutionsCacheMessage>,
)
    requires
        call_ensures(cache_messages, (operation,), res),
    ensures
        operation is CreateExecution && operation->CreateExecution_0.output is Some
            && operation->CreateExecution_0.output->Some_0 is Ok ==> {
            let conf = operation->CreateExecution_0.output->Some_0->Ok_0;
            &&& res.len() == 1
            &&& res@[0] is New
            &&& res@[0]->New_0 == conf.identifier
            &&& res@[0]->New_1@ == conf@
        },
        operation is UpdateExecution && operation->UpdateExecution_0.output is Some
            && operation->UpdateExecution_0.output->Some_0 is Ok ==> {
            let conf = operation->UpdateExecution_0.output->Some_0->Ok_0;
            &&& res.len() == 1
            &&& res@[0] is Update
            &&& res@[0]->Update_0 == conf.identifier
            &&& res@[0]->Update_1@ == conf@
        },
        operation is FinishExecution && operation->FinishExecution_0.output is Some
            && operation->FinishExecution_0.output->Some_0 is Ok ==> {
            let conf = operation->FinishExecution_0.output->Some_0->Ok_0;
            &&& res.len() == 1
            &&& res@[0] is Update
            &&& res@[0]->Update_0 == conf.identifier
            &&& res@[0]->Update_1@ == conf@
        },
        operation is DeleteExecution && operation->DeleteExecution_0.output is Some
            && operation->DeleteExecution_0.output->Some_0 is Ok ==> res@ == seq![
            ExecutionsCacheMessage::Delete(operation->DeleteExecution_0.input),
        ],
        operation is FetchExecutions && operation->FetchExecutions_0.output is Some
            && operation->FetchExecutions_0.output->Some_0 is Ok ==> {
            let confs = operation->FetchExecutions_0.output->Some_0->Ok_0;
            &&& res.len() == confs.len()
            &&& 0 <= i < confs.len() ==> res@[i] is New && res@[i]->New_0 == confs@[i].identifier
                && res@[i]->New_1@ == confs@[i]@
        },
        operation is FetchExperiment ==> res.len() == 0,
{
    if operation is FetchExecutions && operation->FetchExecutions_0.output is Some
        && operation->FetchExecutions_0.output->Some_0 is Ok {
        let confs = operation->FetchExecutions_0.output->Some_0->Ok_0;
        if 0 <= i < confs.len() {
            assert(is_message(res@[i], confs@[i].identifier.0, confs@[i]@, true));
        }
    }
}

/// A result is there from when it is kept until it is taken, under the number of its future.
pub proof fn results_are_kept_until_taken(
    kept: &mut OperationsResults,
    taken: &mut OperationsResults,
    future: u128,
    other: u128,
    operation: RepositoryOperation,
    there: bool,
    res: Option<RepositoryOperation>,
)
    requires
        call_ensures(OperationsResults::insert_new, (kept, future, operation), ()),
        call_ensures(OperationsResults::remove, (taken, future), res),
        call_ensures(OperationsResults::contains, (old(taken), future), there),
    ensures
        final(kept)@.contains_key(future) && final(kept)@[future] == operation,
        other != future ==> (final(kept)@.contains_key(other) <==> old(kept)@.contains_key(other))
            && final(kept)@[other] == old(kept)@[other],
        !final(taken)@.contains_key(future),
        other != future ==> (final(taken)@.contains_key(other) <==> old(taken)@.contains_key(other))
            && final(taken)@[other] == old(taken)@[other],
        res is Some <==> old(taken)@.contains_key(future),
        res is Some ==> res->Some_0 == old(taken)@[future],
        there <==> old(taken)@.contains_key(future),
{
}

/// A future for a fetch of the experiment gives the result of the operation that was performed for it, and takes it;
/// the results of other futures stay. Where there is no result for it, it is an error.
pub proof fn fetch_experiment_future_gives_its_result(
    future: &mut OperationFuture,
    results: &mut OperationsResults,
    other: u128,
    res: Result<(), Error>,
)
    requires
        call_ensures(OperationFuture::poll_fetch_experiment, (future, results), res),
    ensures
        ({
            let id = old(future).uuid;
            let performed = old(results)@[id];
            &&& old(results)@.contains_key(id) && performed is FetchExperiment
                && performed->FetchExperiment_0.output is Some ==> res == performed->FetchExperiment_0.output->Some_0
            &&& !(old(results)@.contains_key(id) && performed is FetchExperiment
                && performed->FetchExperiment_0.output is Some) ==> res is Err
            &&& !final(results)@.contains_key(id)
            &&& other != id ==> (final(results)@.contains_key(other)
                <==> old(results)@.contains_key(other)) && final(results)@[other] == old(
                results,
            )@[other]
        }),
        final(future).state@ == FutureState::Finished,
{
}

/// A future for a creation gives the result of the operation that was performed for it, and takes it;
/// the results of other futures stay. Where there is no result for it, it is an error.
pub proof fn create_execution_future_gives_its_result(
    future: &mut OperationFuture,
    results: &mut OperationsResults,
    other: u128,
    res: Result<ExecutionConf, Error>,
)
    requires
        call_ensures(OperationFuture::poll_create_execution, (future, results), res),
    ensures
        ({
            let id = old(future).uuid;
            let performed = old(results)@[id];
            &&& old(results)@.contains_key(id) && performed is CreateExecution
                && performed->CreateExecution_0.output is Some ==> res == performed->CreateExecution_0.output->Some_0
            &&& !(old(results)@.contains_key(id) && performed is CreateExecution
                && performed->CreateExecution_0.output is Some) ==> res is Err
            &&& !final(results)@.contains_key(id)
            &&& other != id ==> (final(results)@.contains_key(other)
                <==> old(results)@.contains_key(other)) && final(results)@[other] == old(
                results,
            )@[other]
        }),
        final(future).state@ == FutureState::Finished,
{
}

/// A future for an update gives the result of the operation that was performed for it, and takes it;
/// the results of other futures stay. Where there is no result for it, it is an error.
pub proof fn update_execution_future_gives_its_result(
    future: &mut OperationFuture,
    results: &mut OperationsResults,
    other: u128,
    res: Result<ExecutionConf, Error>,
)
    requires
        call_ensures(OperationFuture::poll_update_execution, (future, results), res),
    ensures
        ({
            let id = old(future).uuid;
            let performed = old(results)@[id];
            &&& old(results)@.contains_key(id) && performed is UpdateExecution
                && performed->UpdateExecution_0.output is Some ==> res == performed->UpdateExecution_0.output->Some_0
            &&& !(old(results)@.contains_key(id) && performed is UpdateExecution
                && performed->UpdateExecution_0.output is Some) ==> res is Err
            &&& !final(results)@.contains_key(id)
            &&& other != id ==> (final(results)@.contains_key(other)
                <==> old(results)@.contains_key(other)) && final(results)@[other] == old(
                results,
            )@[other]
        }),
        final(future).state@ == FutureState::Finished,
{
}

/// A future for a finishing gives the result of the operation that was performed for it, and takes it;
/// the results of other futures stay. Where there is no result for it, it is an error.
pub proof fn finish_execution_future_gives_its_result(
    future: &mut OperationFuture,
    results: &mut OperationsResults,
    other: u128,
    res: Result<ExecutionConf, Error>,
)
    requires
        call_ensures(OperationFuture::poll_finish_execution, (future, results), res),
    ensures
        ({
            let id = old(future).uuid;
            let performed = old(results)@[id];
            &&& old(results)@.contains_key(id) && performed is FinishExecution
                && performed->FinishExecution_0.output is Some ==> res == performed->FinishExecution_0.output->Some_0
            &&& !(old(results)@.contains_key(id) && performed is FinishExecution
                && performed->FinishExecution_0.output is Some) ==> res is Err
            &&& !final(results)@.contains_key(id)
            &&& other != id ==> (final(results)@.contains_key(other)
                <==> old(results)@.contains_key(other)) && final(results)@[other] == old(
                results,
            )@[other]
        }),
        final(future).state@ == FutureState::Finished,
{
}

/// A future for a removal gives the result of the operation that was performed for it, and takes it;
/// the results of other futures stay. Where there is no result for it, it is an error.
pub proof fn delete_execution_future_gives_its_result(
    future: &mut OperationFuture,
    results: &mut OperationsResults,
    other: u128,
    res: Result<(), Error>,
)
    requires
        call_ensures(OperationFuture::poll_delete_execution, (future, results), res),
    ensures
        ({
            let id = old(future).uuid;
            let performed = old(results)@[id];
            &&& old(results)@.contains_key(id) && performed is DeleteExecution
                && performed->DeleteExecution_0.output is Some ==> res == performed->DeleteExecution_0.output->Some_0
            &&& !(old(results)@.contains_key(id) && performed is DeleteExecution
                && performed->DeleteExecution_0.output is Some) ==> res is Err
            &&& !final(results)@.contains_key(id)
            &&& other != id ==> (final(results)@.contains_key(other)
                <==> old(results)@.contains_key(other)) && final(results)@[other] == old(
                results,
            )@[other]
        }),
        final(future).state@ == FutureState::Finished,
{
}

/// A future for a fetch of executions gives the result of the operation that was performed for it, and takes it;
/// the results of other futures stay. Where there is no result for it, it is an error.
pub proof fn fetch_executions_future_gives_its_result(
    future: &mut OperationFuture,
    results: &mut OperationsResults,
    other: u128,
    res: Result<Vec<ExecutionConf>, Error>,
)
    requires
        call_ensures(OperationFuture::poll_fetch_executions, (future, results), res),
    ensures
        ({
            let id = old(future).uuid;
            let performed = old(results)@[id];
            &&& old(results)@.contains_key(id) && performed is FetchExecutions
                && performed->FetchExecutions_0.output is Some ==> res == performed->FetchExecutions_0.output->Some_0
            &&& !(old(results)@.contains_key(id) && performed is FetchExecutions
                && performed->FetchExecutions_0.output is Some) ==> res is Err
            &&& !final(results)@.contains_key(id)
            &&& other != id ==> (final(results)@.contains_key(other)
                <==> old(results)@.contains_key(other)) && final(results)@[other] == old(
                results,
            )@[other]
        }),
        final(future).state@ == FutureState::Finished,
{
}

/// A request carries what was asked for.
pub proof fn requests_carry_what_was_asked(
    repository: Repository,
    commit: &str,
    parameters: &str,
    tags: &Vec<String>,
    id: ExecutionId,
    update: &ExecutionUpdate,
    created: (OperationFuture, RepositoryOperation),
    updated: (OperationFuture, RepositoryOperation),
    finished: (OperationFuture, RepositoryOperation),
    deleted: (OperationFuture, RepositoryOperation),
    fetched: (OperationFuture, RepositoryOperation),
    brought: (OperationFuture, RepositoryOperation),
)
    requires
        call_ensures(Repository::create_execution, (&repository, commit, parameters, tags), created),
        call_ensures(Repository::update_execution, (&repository, id, update), updated),
        call_ensures(Repository::finish_execution, (&repository, id), finished),
        call_ensures(Repository::delete_execution, (&repository, id), deleted),
        call_ensures(Repository::fetch_experiment, (&repository,), fetched),
        call_ensures(Repository::fetch_executions, (&repository,), brought),
    ensures
        created.1 is CreateExecution,
        created.1->CreateExecution_0.input.0.0@ == commit@,
        created.1->CreateExecution_0.input.1.0@ == parameters@,
        tag_texts(created.1->CreateExecution_0.input.2@) == texts(tags@),
        updated.1 is UpdateExecution && updated.1->UpdateExecution_0.input == (id, *update),
        finished.1 is FinishExecution && finished.1->FinishExecution_0.input == id,
        deleted.1 is DeleteExecution && deleted.1->DeleteExecution_0.input == id,
        fetched.1 is FetchExperiment,
        brought.1 is FetchExecutions,
{
}

/// The repository follows the operations that were performed: an execution that was created, updated or
/// finished is there as the operation gave it, one that was removed is gone, and the others stay. The
/// result is kept for the future.
pub proof fn repository_follows_operations(
    repository: &mut Repository,
    future: u128,
    operation: RepositoryOperation,
    other: u128,
)
    requires
        call_ensures(Repository::complete, (repository, future, operation), ()),
    ensures
        final(repository).results@.contains_key(future),
        final(repository).results@[future] == operation,
        operation is CreateExecution && operation->CreateExecution_0.output is Some
            && operation->CreateExecution_0.output->Some_0 is Ok ==> {
            let conf = operation->CreateExecution_0.output->Some_0->Ok_0;
            &&& final(repository).executions@.contains_key(conf.identifier.0)
            &&& final(repository).executions@[conf.identifier.0] == conf@
            &&& other != conf.identifier.0 ==> same_entry(
                final(repository).executions@,
                old(repository).executions@,
                other,
            )
        },
        operation is UpdateExecution && operation->UpdateExecution_0.output is Some
            && operation->UpdateExecution_0.output->Some_0 is Ok ==> {
            let conf = operation->UpdateExecution_0.output->Some_0->Ok_0;
            &&& final(repository).executions@.contains_key(conf.identifier.0)
            &&& final(repository).executions@[conf.identifier.0] == conf@
            &&& other != conf.identifier.0 ==> same_entry(
                final(repository).executions@,
                old(repository).executions@,
                other,
            )
        },
        operation is FinishExecution && operation->FinishExecution_0.output is Some
            && operation->FinishExecution_0.output->Some_0 is Ok ==> {
            let conf = operation->FinishExecution_0.output->Some_0->Ok_0;
            &&& final(repository).executions@.contains_key(conf.identifier.0)
            &&& final(repository).executions@[conf.identifier.0] == conf@
            &&& other != conf.identifier.0 ==> same_entry(
                final(repository).executions@,
                old(repository).executions@,
                other,
            )
        },
        operation is DeleteExecution && operation->DeleteExecution_0.output is Some
            && operation->DeleteExecution_0.output->Some_0 is Ok ==> {
            let id = operation->DeleteExecution_0.input.0;
            &&& !final(repository).executions@.contains_key(id)
            &&& other != id ==> same_entry(
                final(repository).executions@,
                old(repository).executions@,
                other,
            )
        },
        operation is FetchExperiment ==> final(repository).executions@ == old(
            repository,
        ).executions@,
{
}

/// Whether two caches hold the same of an execution.
pub open spec fn same_entry(
    a: Map<u128, ExecutionView>,
    b: Map<u128, ExecutionView>,
    id: u128,
) -> bool {
    (a.contains_key(id) <==> b.contains_key(id)) && a[id] == b[id]
}

proof fn all_are_added(executions: Map<u128, ExecutionView>, added: Seq<ExecutionConf>, i: int)
    requires
        0 <= i < added.len(),
        forall|j: int|
            i < j < added.len() ==> (#[trigger] added[j]).identifier != added[i].identifier,
    ensures
        with_all(executions, added).contains_key(added[i].identifier.0),
        with_all(executions, added)[added[i].identifier.0] == added[i]@,
    decreases added.len(),
{
    let n = added.len() - 1;
    if i < n {
        let init = added.drop_last();
        assert(added[n].identifier != added[i].identifier);
        assert forall|j: int| i < j < init.len() implies (#[trigger] init[j]).identifier
            != init[i].identifier by {
            assert(added[j].identifier != added[i].identifier);
        }
        all_are_added(executions, init, i);
    }
}

proof fn others_stay(executions: Map<u128, ExecutionView>, added: Seq<ExecutionConf>, id: u128)
    requires
        forall|j: int| 0 <= j < added.len() ==> (#[trigger] added[j]).identifier.0 != id,
    ensures
        same_entry(with_all(executions, added), executions, id),
    decreases added.len(),
{
    if added.len() > 0 {
        let init = added.drop_last();
        assert(added[added.len() - 1].identifier.0 != id);
        assert forall|j: int| 0 <= j < init.len() implies (#[trigger] init[j]).identifier.0
            != id by {
            assert(added[j].identifier.0 != id);
        }
        others_stay(executions, init, id);
    }
}

/// Every execution that a fetch brought is in the repository, and those that it did not bring stay.
pub proof fn fetched_executions_are_added(
    repository: &mut Repository,
    future: u128,
    confs: Vec<ExecutionConf>,
    i: int,
    other: u128,
)
    requires
        call_ensures(
            Repository::complete,
            (
                repository,
                future,
                RepositoryOperation::FetchExecutions(
                    (FetchExecutionsOp { output: Some(Ok(confs)) }),
                ),
            ),
            (),
        ),
    ensures
        0 <= i < confs.len() && (forall|j: int|
            i < j < confs.len() ==> (#[trigger] confs@[j]).identifier != confs@[i].identifier) ==> {
            &&& final(repository).executions@.contains_key(confs@[i].identifier.0)
            &&& final(repository).executions@[confs@[i].identifier.0] == confs@[i]@
        },
        (forall|j: int| 0 <= j < confs.len() ==> (#[trigger] confs@[j]).identifier.0 != other)
            ==> same_entry(final(repository).executions@, old(repository).executions@, other),
{
    if 0 <= i < confs.len() && (forall|j: int|
        i < j < confs.len() ==> (#[trigger] confs@[j]).identifier != confs@[i].identifier) {
        all_are_added(old(repository).executions@, confs@, i);
    }
    if forall|j: int| 0 <= j < confs.len() ==> (#[trigger] confs@[j]).identifier.0 != other {
        others_stay(old(repository).executions@, confs@, other);
    }
}

/// Every execution of the repository is listed, and as many as it has.
pub proof fn every_execution_is_listed(
    repository: Repository,
    id: u128,
    res: Vec<ExecutionConf>,
)
    requires
        call_ensures(Repository::get_executions, (&repository,), res),
    ensures
        res.len() == repository.executions@.dom().len(),
        repository.executions@.contains_key(id) ==> exists|k: int|
            0 <= k < res.len() && (#[trigger] res@[k])@ == repository.executions@[id],
{
    let cache = repository.executions@;
    let ids = choose|ids: Seq<u128>|
        crate::repository::service::is_listed_under(cache, res@, ids);
    if cache.contains_key(id) {
        assert(ids.contains(id));
        let k = choose|k: int| 0 <= k < ids.len() && ids[k] == id;
        assert(res@[k]@ == cache[id]);
    }
}

/// A future whose operation was sent waits for its result, under its number; one whose operation could
/// not be sent is resolved with an error.
pub proof fn sent_futures_wait<T>(
    sent: &mut OperationFuture,
    unsent: &mut OperationFuture,
    res: Polled<T>,
    res_unsent: Polled<T>,
)
    requires
        call_ensures(OperationFuture::poll_start::<T>, (sent, true), res),
        call_ensures(OperationFuture::poll_start::<T>, (unsent, false), res_unsent),
    ensures
        final(sent).state@ == FutureState::Waiting && res is Pending,
        final(sent).uuid == old(sent).uuid,
        final(unsent).state@ == FutureState::Finished && res_unsent is Ready
            && res_unsent->Ready_0 is Err && res_unsent->Ready_0->Err_0 is ChannelBroken,
{
}

/// A repository that is opened has the executions of its files, and no result is waited for.
pub proof fn repository_has_its_executions(
    campaign: CampaignConf,
    executions: Vec<ExecutionConf>,
    i: int,
    res: Repository,
    cache: ExecutionsCache,
)
    requires
        call_ensures(Repository::new, (campaign, executions), res),
        call_ensures(ExecutionsCache::new, (executions,), cache),
    ensures
        res.campaign == campaign,
        res.executions@ == cache@,
        res.results@ == Map::<u128, RepositoryOperation>::empty(),
        0 <= i < executions.len() ==> res.executions@.contains_key(executions@[i].identifier.0),
{
    if 0 <= i < executions.len() {
        crate::repository::service::cache_has_its_executions(
            executions,
            executions@[i].identifier.0,
            i,
            cache,
        );
        assert(executions@[i].identifier.0 == executions@[i].identifier.0);
    }
}

/// A future that has no result, or that of another operation, says so.
pub proof fn missing_results_are_told(
    future: &mut OperationFuture,
    results: &mut OperationsResults,
    res: Result<ExecutionConf, Error>,
)
    requires
        call_ensures(OperationFuture::poll_create_execution, (future, results), res),
    ensures
        !old(results)@.contains_key(old(future).uuid) ==> res is Err && res->Err_0.text()
            == "Failed to create execution: "@ + "Future woken but result not available"@,
        old(results)@.contains_key(old(future).uuid) && !(
        old(results)@[old(future).uuid] is CreateExecution) ==> res is Err && res->Err_0.text()
            == "Failed to create execution: "@ + "Unexpected result type"@,
        old(results)@.contains_key(old(future).uuid)
            && old(results)@[old(future).uuid] is CreateExecution
            && old(results)@[old(future).uuid]->CreateExecution_0.output is None ==> res is Err
            && res->Err_0.text() == "Failed to create execution: "@
            + "Operation gathered, output is None"@,
{
}

} // verus!
