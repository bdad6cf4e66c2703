//! The campaign resource: the executions of a campaign, and the operations on them.
//!
//! An operation alternates work on the files and decisions. The decisions are taken here, step by
//! step: a step takes what came of the last action and says what has to be done next.
use std::collections::HashMap;
use vstd::prelude::*;
#[allow(unused_imports)]
use vstd::std_specs::iter::IteratorSpec;
#[allow(unused_imports)]
use vstd::string::*;
use crate::commons::{Loaded, Stored};
use crate::primitives::{Timestamp, utc_now};
use crate::repository::{
    CampaignConf, Error, ExecutionConf, ExecutionId, ExecutionParameters, ExecutionState,
    ExecutionTag, ExecutionUpdate, ExperimentCommit, uuid_new_v4,
};
#[allow(unused_imports)]
use crate::repository::{ExecutionView, is_random_id, tag_texts, uuid_text};
#[allow(unused_imports)]
use crate::text::{cat, cat3, path_below, path_in, path_join, path_relative, same, texts};
#[allow(unused_imports)]
use crate::{EXCCONF_RPATH, XPRP_RPATH};

verus! {

broadcast use vstd::std_specs::hash::group_hash_axioms;

//-------------------------------------------------------------------------------------- CAMPAIGN
/// The inner resource: the configuration of the campaign, and its executions by identifier.
pub struct Campaign {
    pub conf: CampaignConf,
    pub cache: HashMap<u128, ExecutionConf>,
}

/// The executions of a sequence, by identifier. Of two with the same one, the later one is kept.
pub open spec fn by_identifier(executions: Seq<ExecutionConf>) -> Map<u128, ExecutionView>
    decreases executions.len(),
{
    if executions.len() == 0 {
        Map::empty()
    } else {
        by_identifier(executions.drop_last()).insert(
            executions.last().identifier.0,
            executions.last()@,
        )
    }
}

impl View for Campaign {
    type V = Map<u128, ExecutionView>;

    open spec fn view(&self) -> Map<u128, ExecutionView> {
        Map::new(|id: u128| self.cache@.contains_key(id), |id: u128| self.cache@[id]@)
    }
}

/// The error for an execution that is not known.
pub open spec fn is_not_cached(error: Error, id: u128) -> bool {
    error is UpdateExecution && error->UpdateExecution_0@ == "Tried to remove execution "@
        + uuid_text(id) + " from cache but it was not there."@
}

impl Campaign {
    /// The campaign has a folder, and each execution is found under its own identifier and has a
    /// folder.
    pub open spec fn wf(&self) -> bool {
        &&& self.conf.path is Some
        &&& self@.dom().finite()
        &&& forall|id: u128| #[trigger]
            self@.contains_key(id) ==> self@[id].identifier == id && self@[id].path is Some
    }

    /// Opens a campaign from its configuration and the executions that its files hold.
    pub fn from(conf: CampaignConf, executions: Vec<ExecutionConf>) -> (res: Campaign)
        requires
            conf.path is Some,
            forall|i: int| 0 <= i < executions.len() ==> (#[trigger] executions@[i]).path is Some,
        ensures
            res.wf(),
            res.conf == conf,
            res@ == by_identifier(executions@),
    {
        let mut res = Campaign { conf, cache: HashMap::new() };
        let mut i: usize = 0;
        assert(res@ =~= by_identifier(executions@.take(0)));
        while i < executions.len()
            invariant
                i <= executions.len(),
                res.wf(),
                res.conf == conf,
                res@ == by_identifier(executions@.take(i as int)),
                forall|i: int|
                    0 <= i < executions.len() ==> (#[trigger] executions@[i]).path is Some,
            decreases executions.len() - i,
        {
            assert(executions@.take(i + 1).drop_last() =~= executions@.take(i as int));
            let conf = executions[i].clone();
            res.put(conf);
            i = i + 1;
        }
        assert(executions@.take(i as int) =~= executions@);
        res
    }

    /// Keeps an execution under its identifier.
    fn put(&mut self, conf: ExecutionConf)
        requires
            old(self).wf(),
            conf.path is Some,
        ensures
            final(self).wf(),
            final(self).conf == old(self).conf,
            final(self)@ == old(self)@.insert(conf.identifier.0, conf@),
    {
        let ghost before = self@;
        let ghost kept = conf@;
        let id: u128 = conf.identifier.0;
        self.cache.insert(id, conf);
        assert(self@ =~= before.insert(id, kept));
        assert forall|k: u128| #[trigger] self@.contains_key(k) implies self@[k].identifier == k
            && self@[k].path is Some by {
            if k != id {
                assert(before.contains_key(k));
            }
        }
    }

    /// Takes an execution out. It is an error if it is not there.
    fn take(&mut self, id: ExecutionId) -> (res: Result<ExecutionConf, Error>)
        requires
            old(self).wf(),
        ensures
            final(self).wf(),
            final(self).conf == old(self).conf,
            match res {
                Ok(conf) => {
                    &&& old(self)@.contains_key(id.0)
                    &&& conf@ == old(self)@[id.0]
                    &&& final(self)@ == old(self)@.remove(id.0)
                },
                Err(e) => {
                    &&& !old(self)@.contains_key(id.0)
                    &&& is_not_cached(e, id.0)
                    &&& final(self)@ == old(self)@
                },
            },
    {
        let ghost before = self@;
        let taken = self.cache.remove(&id.0);
        assert(self@ =~= before.remove(id.0));
        assert forall|k: u128| #[trigger] self@.contains_key(k) implies self@[k].identifier == k
            && self@[k].path is Some by {
            assert(before.contains_key(k));
        }
        match taken {
            Some(conf) => Ok(conf),
            None => {
                assert(self@ =~= before);
                Err(
                    Error::UpdateExecution(
                        cat3(
                            "Tried to remove execution ",
                            id.show().as_str(),
                            " from cache but it was not there.",
                        ),
                    ),
                )
            },
        }
    }

    /// Returns a list of the executions: each of them once, in no particular order.
    pub fn get_executions(&self) -> (res: Vec<ExecutionConf>)
        requires
            self.wf(),
        ensures
            res.len() == self@.dom().len(),
            forall|i: int|
                0 <= i < res.len() ==> self@.contains_pair(
                    (#[trigger] res@[i]).identifier.0,
                    res@[i]@,
                ),
            forall|id: u128| #[trigger]
                self@.contains_key(id) ==> exists|i: int|
                    0 <= i < res.len() && (#[trigger] res@[i])@ == self@[id],
    {
        let mut res: Vec<ExecutionConf> = Vec::new();
        let ghost entries = self.cache.iter().remaining();
        assert(self@.dom() =~= self.cache@.dom());
        for entry in it: self.cache.iter()
            invariant
                self.wf(),
                it.seq() == entries,
                res.len() == it.index(),
                entries == vstd::std_specs::hash::spec_hash_map_iter(&self.cache).remaining(),
                forall|i: int|
                    0 <= i < res.len() ==> (#[trigger] res@[i])@ == entries[i].1@
                        && self.cache@.contains_key(*entries[i].0)
                        && self.cache@[*entries[i].0] == *entries[i].1,
        {
            let (_, conf) = entry;
            assert(self.cache@.contains_key(*entries[it.index() as int].0));
            res.push(conf.clone());
        }
        assert forall|i: int| 0 <= i < res.len() implies self@.contains_pair(
            (#[trigger] res@[i]).identifier.0,
            res@[i]@,
        ) by {
            let id = *entries[i].0;
            assert(self@.contains_key(id));
            assert(self@[id] == res@[i]@);
            assert(res@[i]@.identifier == id);
        }
        assert forall|id: u128| #[trigger] self@.contains_key(id) implies exists|i: int|
            0 <= i < res.len() && (#[trigger] res@[i])@ == self@[id] by {
            assert(self.cache@.contains_key(id));
            assert(entries.contains((&id, &self.cache@[id])));
            let i = choose|i: int| 0 <= i < entries.len() && entries[i] == (&id, &self.cache@[id]);
            assert(res@[i]@ == self@[id]);
        }
        res
    }
}

//------------------------------------------------------------------------------ FETCH EXPERIMENT
/// What has to be done to fetch the experiment, in this order.
#[derive(Clone, Copy, Debug, PartialEq, Eq, Structural)]
pub enum FetchStage {
    /// Find the remote `origin`.
    Remote,
    /// Fetch it.
    Fetch,
    /// Find the reference of its head.
    RemoteHead,
    /// Find the target of that reference.
    Target,
    /// Find the annotated commit of the target.
    Annotated,
    /// Analyse how that commit can be merged.
    Analysis,
    /// Find the commit.
    Commit,
    /// Find its tree.
    Tree,
    /// Check the tree out.
    Checkout,
    /// Find the reference of the local master.
    Master,
    /// Set it to the commit.
    SetMaster,
    /// Find the head of the repository.
    Head,
    /// Set it to the commit.
    SetHead,
    /// Call the hook of the synchronizer.
    Hook,
    Over,
}

/// What came of the last action.
pub enum FetchEvent {
    Done,
    Failed,
    /// The merge was analysed: it is a fast-forward, or not.
    Analysed(bool),
    /// The hook was called.
    Hooked(Result<(), Error>),
}

/// What has to be done next: a stage of the operation, or to return from it.
pub enum Step<S, T> {
    Do(S),
    Return(Result<T, Error>),
}

pub struct FetchExperiment {
    pub stage: FetchStage,
}

impl FetchStage {
    /// The stage that follows.
    pub open spec fn following(self) -> FetchStage {
        match self {
            FetchStage::Remote => FetchStage::Fetch,
            FetchStage::Fetch => FetchStage::RemoteHead,
            FetchStage::RemoteHead => FetchStage::Target,
            FetchStage::Target => FetchStage::Annotated,
            FetchStage::Annotated => FetchStage::Analysis,
            FetchStage::Analysis => FetchStage::Commit,
            FetchStage::Commit => FetchStage::Tree,
            FetchStage::Tree => FetchStage::Checkout,
            FetchStage::Checkout => FetchStage::Master,
            FetchStage::Master => FetchStage::SetMaster,
            FetchStage::SetMaster => FetchStage::Head,
            FetchStage::Head => FetchStage::SetHead,
            FetchStage::SetHead => FetchStage::Hook,
            _ => FetchStage::Over,
        }
    }

    pub fn next(self) -> (res: FetchStage)
        ensures
            res == self.following(),
    {
        match self {
            FetchStage::Remote => FetchStage::Fetch,
            FetchStage::Fetch => FetchStage::RemoteHead,
            FetchStage::RemoteHead => FetchStage::Target,
            FetchStage::Target => FetchStage::Annotated,
            FetchStage::Annotated => FetchStage::Analysis,
            FetchStage::Analysis => FetchStage::Commit,
            FetchStage::Commit => FetchStage::Tree,
            FetchStage::Tree => FetchStage::Checkout,
            FetchStage::Checkout => FetchStage::Master,
            FetchStage::Master => FetchStage::SetMaster,
            FetchStage::SetMaster => FetchStage::Head,
            FetchStage::Head => FetchStage::SetHead,
            FetchStage::SetHead => FetchStage::Hook,
            _ => FetchStage::Over,
        }
    }

    /// What is said where the stage fails.
    pub open spec fn failure(self) -> Seq<char> {
        match self {
            FetchStage::Remote => "No origin remote found"@,
            FetchStage::Fetch => "Couldn't fetch origin"@,
            FetchStage::RemoteHead => "Couldn't find origin head ref"@,
            FetchStage::Target => "Couldn't find origin head target"@,
            FetchStage::Annotated => "Couldn't find annotated commit"@,
            FetchStage::Commit => "Couldn't find commit"@,
            FetchStage::Tree => "Couldn't find commit tree"@,
            FetchStage::Checkout => "Couldn't checkout tree"@,
            FetchStage::Master => "Couldn't find local master head ref"@,
            FetchStage::SetMaster => "Couldn't set HEAD to target"@,
            FetchStage::Head => "Coudln't find repository HEAD"@,
            FetchStage::SetHead => "Couldn't set reposity HEAD to target"@,
            _ => Seq::empty(),
        }
    }

    pub fn fail(self) -> (res: String)
        ensures
            res@ == self.failure(),
    {
        match self {
            FetchStage::Remote => "No origin remote found".to_owned(),
            FetchStage::Fetch => "Couldn't fetch origin".to_owned(),
            FetchStage::RemoteHead => "Couldn't find origin head ref".to_owned(),
            FetchStage::Target => "Couldn't find origin head target".to_owned(),
            FetchStage::Annotated => "Couldn't find annotated commit".to_owned(),
            FetchStage::Commit => "Couldn't find commit".to_owned(),
            FetchStage::Tree => "Couldn't find commit tree".to_owned(),
            FetchStage::Checkout => "Couldn't checkout tree".to_owned(),
            FetchStage::Master => "Couldn't find local master head ref".to_owned(),
            FetchStage::SetMaster => "Couldn't set HEAD to target".to_owned(),
            FetchStage::Head => "Coudln't find repository HEAD".to_owned(),
            FetchStage::SetHead => "Couldn't set reposity HEAD to target".to_owned(),
            _ => String::new(),
        }
    }
}

/// What a step does: the stages follow each other until one fails. A merge that is no fast-forward
/// is refused. Once the hook was called, the configuration of the campaign is returned.
pub open spec fn fetch_experiment_step(
    conf: CampaignConf,
    before: FetchStage,
    event: FetchEvent,
    after: FetchStage,
    step: Step<FetchStage, CampaignConf>,
) -> bool {
    match event {
        FetchEvent::Done => after == before.following() && step == Step::<
            FetchStage,
            CampaignConf,
        >::Do(before.following()),
        FetchEvent::Analysed(fast_forward) => if fast_forward {
            after == FetchStage::Commit && step == Step::<FetchStage, CampaignConf>::Do(
                FetchStage::Commit,
            )
        } else {
            after == FetchStage::Over && step == Step::<FetchStage, CampaignConf>::Return(
                Err(Error::NoFFPossible),
            )
        },
        FetchEvent::Hooked(result) => {
            &&& after == FetchStage::Over
            &&& step == Step::<FetchStage, CampaignConf>::Return(
                match result {
                    Ok(_) => Ok(conf),
                    Err(e) => Err(e),
                },
            )
        },
        FetchEvent::Failed => {
            &&& after == FetchStage::Over
            &&& step is Return
            &&& step->Return_0 is Err
            &&& if before == FetchStage::Analysis {
                step->Return_0->Err_0 is Unknown
            } else {
                &&& step->Return_0->Err_0 is FetchExperiment
                &&& step->Return_0->Err_0->FetchExperiment_0@ == before.failure()
            }
        },
    }
}

impl FetchExperiment {
    /// Whether the event can come of what was asked for.
    pub open spec fn accepts(&self, event: FetchEvent) -> bool {
        match self.stage {
            FetchStage::Over => false,
            FetchStage::Analysis => event is Analysed || event is Failed,
            FetchStage::Hook => event is Hooked,
            _ => event is Done || event is Failed,
        }
    }

    /// The fetching of the experiment, of which the remote is to be found first.
    pub fn start() -> (res: FetchExperiment)
        ensures
            res.stage == FetchStage::Remote,
    {
        FetchExperiment { stage: FetchStage::Remote }
    }

    /// Takes what came of the last action into account, and says what has to be done next.
    pub fn step(&mut self, campaign: &Campaign, event: FetchEvent) -> (res: Step<
        FetchStage,
        CampaignConf,
    >)
        requires
            old(self).accepts(event),
        ensures
            fetch_experiment_step(campaign.conf, old(self).stage, event, final(self).stage, res),
    {
        match event {
            FetchEvent::Done => {
                self.stage = self.stage.next();
                Step::Do(self.stage)
            },
            FetchEvent::Analysed(fast_forward) => {
                if fast_forward {
                    self.stage = FetchStage::Commit;
                    Step::Do(self.stage)
                } else {
                    self.stage = FetchStage::Over;
                    Step::Return(Err(Error::NoFFPossible))
                }
            },
            FetchEvent::Hooked(result) => {
                self.stage = FetchStage::Over;
                match result {
                    Ok(_) => Step::Return(Ok(campaign.conf.clone())),
                    Err(e) => Step::Return(Err(e)),
                }
            },
            FetchEvent::Failed => {
                let stage = self.stage;
                self.stage = FetchStage::Over;
                match stage {
                    FetchStage::Analysis => Step::Return(Err(Error::Unknown)),
                    _ => Step::Return(Err(Error::FetchExperiment(stage.fail()))),
                }
            },
        }
    }
}

//------------------------------------------------------------------------------ CREATE EXECUTION
/// Whether a character is a hexadecimal digit.
pub open spec fn is_hex(c: char) -> bool {
    '0' <= c <= '9' || 'a' <= c <= 'f' || 'A' <= c <= 'F'
}

/// Whether a text is the identifier of a commit, or the beginning of one: at least one and at most
/// forty hexadecimal digits.
pub open spec fn is_commit_id(text: Seq<char>) -> bool {
    1 <= text.len() <= 40 && forall|i: int| 0 <= i < text.len() ==> is_hex(#[trigger] text[i])
}

/// Tells whether `git2::Oid::from_str` reads a text as the identifier of an object: it does so
/// exactly where the text is made of one to forty hexadecimal digits.
#[verifier::external_body]
pub(crate) fn oid_from_str(text: &str) -> (res: bool)
    ensures
        res == is_commit_id(text@),
{
    git2::Oid::from_str(text).is_ok()
}

/// What has to be done to create an execution, in this order.
#[derive(Clone, Copy, Debug, PartialEq, Eq, Structural)]
pub enum CreateStage {
    /// Make the folder of the execution.
    Folder,
    /// Clone the experiment repository into it.
    Clone,
    /// Find the commit.
    Commit,
    /// Find the tree of the commit.
    Tree,
    /// Check the tree out.
    Checkout,
    /// Remove the git folder.
    RemoveGit,
    /// Walk through the folder.
    Walk,
    /// Make the data folder.
    DataFolder,
    /// Write the configuration file.
    Write,
    /// Call the hook of the synchronizer.
    Hook,
    Over,
}

/// What came of the last action.
pub enum CreateEvent {
    Done,
    Failed,
    /// What was met in the folder: the paths, and whether they are those of files.
    Walked(Vec<(String, bool)>),
    /// The hook was called.
    Hooked(Result<(), Error>),
}

pub struct CreateExecution {
    pub conf: ExecutionConf,
    pub stage: CreateStage,
}

impl CreateStage {
    /// The stage that follows.
    pub open spec fn following(self) -> CreateStage {
        match self {
            CreateStage::Folder => CreateStage::Clone,
            CreateStage::Clone => CreateStage::Commit,
            CreateStage::Commit => CreateStage::Tree,
            CreateStage::Tree => CreateStage::Checkout,
            CreateStage::Checkout => CreateStage::RemoveGit,
            CreateStage::RemoveGit => CreateStage::Walk,
            CreateStage::Walk => CreateStage::DataFolder,
            CreateStage::DataFolder => CreateStage::Write,
            CreateStage::Write => CreateStage::Hook,
            _ => CreateStage::Over,
        }
    }

    pub fn next(self) -> (res: CreateStage)
        ensures
            res == self.following(),
    {
        match self {
            CreateStage::Folder => CreateStage::Clone,
            CreateStage::Clone => CreateStage::Commit,
            CreateStage::Commit => CreateStage::Tree,
            CreateStage::Tree => CreateStage::Checkout,
            CreateStage::Checkout => CreateStage::RemoveGit,
            CreateStage::RemoveGit => CreateStage::Walk,
            CreateStage::Walk => CreateStage::DataFolder,
            CreateStage::DataFolder => CreateStage::Write,
            CreateStage::Write => CreateStage::Hook,
            _ => CreateStage::Over,
        }
    }

    /// What is said where the stage fails.
    pub open spec fn failure(self) -> Seq<char> {
        match self {
            CreateStage::Folder => "Failed to create directory"@,
            CreateStage::Clone => "Failed to local clone"@,
            CreateStage::Commit => "Commit is not known"@,
            CreateStage::Tree => "No tree attached to commit"@,
            CreateStage::Checkout => "Couldn't checkout tree"@,
            CreateStage::RemoveGit => "Couldn't remove git folder"@,
            CreateStage::DataFolder => "Failed to create data folder"@,
            CreateStage::Write => "Failed to write config file."@,
            _ => Seq::empty(),
        }
    }

    pub fn fail(self) -> (res: String)
        ensures
            res@ == self.failure(),
    {
        match self {
            CreateStage::Folder => "Failed to create directory".to_owned(),
            CreateStage::Clone => "Failed to local clone".to_owned(),
            CreateStage::Commit => "Commit is not known".to_owned(),
            CreateStage::Tree => "No tree attached to commit".to_owned(),
            CreateStage::Checkout => "Couldn't checkout tree".to_owned(),
            CreateStage::RemoveGit => "Couldn't remove git folder".to_owned(),
            CreateStage::DataFolder => "Failed to create data folder".to_owned(),
            CreateStage::Write => "Failed to write config file.".to_owned(),
            _ => String::new(),
        }
    }
}

/// An execution as it is created: initialized, with nothing executed yet, in the folder of its
/// identifier.
pub open spec fn created_execution(
    campaign: CampaignConf,
    commit: Seq<char>,
    parameters: Seq<char>,
    tags: Seq<Seq<char>>,
    generator: Seq<char>,
    now: Timestamp,
    id: u128,
) -> ExecutionView {
    ExecutionView {
        identifier: id,
        path: Some(campaign.execution_folder(id)),
        commit,
        parameters,
        state: ExecutionState::Initialized,
        experiment_elements: Seq::empty(),
        executor: None,
        execution_beginning_date: None,
        execution_ending_date: None,
        execution_stdout: None,
        execution_stderr: None,
        execution_message: None,
        execution_exit_code: None,
        execution_features: None,
        generator,
        generation_date: now,
        tags,
    }
}

/// The paths of the files that were met, taken below the folder.
pub open spec fn elements_of(folder: Seq<char>, met: Seq<(String, bool)>) -> Seq<Seq<char>>
    decreases met.len(),
{
    if met.len() == 0 {
        Seq::empty()
    } else if met.last().1 {
        elements_of(folder, met.drop_last()).push(path_below(folder, met.last().0@))
    } else {
        elements_of(folder, met.drop_last())
    }
}

/// Keeps the paths of the files that were met, taken below the folder.
pub fn experiment_elements(folder: &str, met: &Vec<(String, bool)>) -> (res: Vec<String>)
    ensures
        texts(res@) == elements_of(folder@, met@),
{
    let mut res: Vec<String> = Vec::new();
    let mut i: usize = 0;
    assert(texts(res@) =~= elements_of(folder@, met@.take(0)));
    while i < met.len()
        invariant
            i <= met.len(),
            texts(res@) == elements_of(folder@, met@.take(i as int)),
        decreases met.len() - i,
    {
        assert(met@.take(i + 1).drop_last() =~= met@.take(i as int));
        if met[i].1 {
            let ghost kept = texts(res@);
            let path = path_relative(folder, met[i].0.as_str());
            res.push(path);
            assert(texts(res@) =~= kept.push(path@));
        }
        i = i + 1;
    }
    assert(met@.take(i as int) =~= met@);
    res
}

/// What a step does: the stages follow each other until one fails. Between the clone and the search
/// of the commit, the identifier of the commit is checked. Once the hook was called, the execution
/// is kept by the campaign, and returned.
pub open spec fn create_step(
    executions: Map<u128, ExecutionView>,
    before: CreateExecution,
    event: CreateEvent,
    executions_after: Map<u128, ExecutionView>,
    after: CreateExecution,
    step: Step<CreateStage, ExecutionConf>,
) -> bool {
    match event {
        CreateEvent::Done => {
            &&& executions_after == executions
            &&& after.conf@ == before.conf@
            &&& if before.stage == CreateStage::Clone && !is_commit_id(before.conf@.commit) {
                &&& after.stage == CreateStage::Over
                &&& step is Return
                &&& step->Return_0 is Err
                &&& step->Return_0->Err_0 is CreateExecution
                &&& step->Return_0->Err_0->CreateExecution_0@ == "Ill formed commit"@
            } else {
                &&& after.stage == before.stage.following()
                &&& step == Step::<CreateStage, ExecutionConf>::Do(before.stage.following())
            }
        },
        CreateEvent::Walked(met) => {
            &&& executions_after == executions
            &&& after.stage == CreateStage::DataFolder
            &&& after.conf@ == ExecutionView {
                experiment_elements: before.conf@.experiment_elements + elements_of(
                    before.conf@.path->Some_0,
                    met@,
                ),
                ..before.conf@
            }
            &&& step == Step::<CreateStage, ExecutionConf>::Do(CreateStage::DataFolder)
        },
        CreateEvent::Hooked(Ok(_)) => {
            &&& executions_after == executions.insert(before.conf@.identifier, before.conf@)
            &&& after.stage == CreateStage::Over
            &&& after.conf@ == before.conf@
            &&& step is Return
            &&& step->Return_0 is Ok
            &&& step->Return_0->Ok_0@ == before.conf@
        },
        CreateEvent::Hooked(Err(e)) => {
            &&& executions_after == executions
            &&& after.stage == CreateStage::Over
            &&& after.conf@ == before.conf@
            &&& step == Step::<CreateStage, ExecutionConf>::Return(Err(e))
        },
        CreateEvent::Failed => {
            &&& executions_after == executions
            &&& after.stage == CreateStage::Over
            &&& after.conf@ == before.conf@
            &&& step is Return
            &&& step->Return_0 is Err
            &&& step->Return_0->Err_0 is CreateExecution
            &&& step->Return_0->Err_0->CreateExecution_0@ == before.stage.failure()
        },
    }
}

impl CreateExecution {
    /// The execution has a folder.
    pub open spec fn wf(&self) -> bool {
        self.conf.path is Some
    }

    /// Whether the event can come of what was asked for.
    pub open spec fn accepts(&self, event: CreateEvent) -> bool {
        match self.stage {
            CreateStage::Over => false,
            CreateStage::Walk => event is Walked,
            CreateStage::Hook => event is Hooked,
            _ => event is Done || event is Failed,
        }
    }

    /// The creation of an execution at the given time, under the given identifier. Its folder is to
    /// be made first.
    pub fn start_at(
        campaign: &Campaign,
        commit: ExperimentCommit,
        parameters: ExecutionParameters,
        tags: Vec<ExecutionTag>,
        generator: String,
        now: Timestamp,
        id: ExecutionId,
    ) -> (res: CreateExecution)
        requires
            campaign.wf(),
        ensures
            res.wf(),
            res.stage == CreateStage::Folder,
            res.conf@ == created_execution(
                campaign.conf,
                commit.0@,
                parameters.0@,
                tag_texts(tags@),
                generator@,
                now,
                id.0,
            ),
    {
        let path = campaign.conf.get_execution_path(id);
        let elements: Vec<String> = Vec::new();
        assert(texts(elements@) =~= Seq::<Seq<char>>::empty());
        let conf = ExecutionConf {
            identifier: id,
            path: Some(path),
            commit,
            parameters,
            state: ExecutionState::Initialized,
            experiment_elements: elements,
            executor: None,
            execution_beginning_date: None,
            execution_ending_date: None,
            execution_stdout: None,
            execution_stderr: None,
            execution_message: None,
            execution_exit_code: None,
            execution_features: None,
            generator,
            generation_date: now,
            tags,
        };
        CreateExecution { conf, stage: CreateStage::Folder }
    }

    /// The creation of an execution now, under a random identifier.
    pub fn start(
        campaign: &Campaign,
        commit: ExperimentCommit,
        parameters: ExecutionParameters,
        tags: Vec<ExecutionTag>,
        generator: String,
    ) -> (res: CreateExecution)
        requires
            campaign.wf(),
        ensures
            res.wf(),
            res.stage == CreateStage::Folder,
            exists|now: Timestamp, id: u128|
                now.is_clock_time() && is_random_id(id) && #[trigger] created_execution(
                    campaign.conf,
                    commit.0@,
                    parameters.0@,
                    tag_texts(tags@),
                    generator@,
                    now,
                    id,
                ) == res.conf@,
    {
        let now = utc_now();
        let id = ExecutionId(uuid_new_v4());
        CreateExecution::start_at(campaign, commit, parameters, tags, generator, now, id)
    }

    /// The address that the experiment repository is cloned from.
    pub fn experiment_url(campaign: &Campaign) -> (res: String)
        requires
            campaign.wf(),
        ensures
            res@ == "file://"@ + path_in(campaign.conf.root(), XPRP_RPATH@),
    {
        cat("file://", campaign.conf.get_experiment_path().as_str())
    }

    /// Takes what came of the last action into account, and says what has to be done next.
    pub fn step(&mut self, campaign: &mut Campaign, event: CreateEvent) -> (res: Step<
        CreateStage,
        ExecutionConf,
    >)
        requires
            old(self).wf(),
            old(campaign).wf(),
            old(self).accepts(event),
        ensures
            final(self).wf(),
            final(campaign).wf(),
            final(campaign).conf == old(campaign).conf,
            create_step(
                old(campaign)@,
                *old(self),
                event,
                final(campaign)@,
                *final(self),
                res,
            ),
    {
        match event {
            CreateEvent::Done => {
                let stage = self.stage;
                if stage == CreateStage::Clone && !oid_from_str(self.conf.commit.0.as_str()) {
                    self.stage = CreateStage::Over;
                    Step::Return(Err(Error::CreateExecution("Ill formed commit".to_owned())))
                } else {
                    self.stage = stage.next();
                    Step::Do(self.stage)
                }
            },
            CreateEvent::Walked(met) => {
                let ghost before = self.conf@;
                let folder = self.conf.get_path();
                let mut elements = experiment_elements(folder.as_str(), &met);
                let ghost added = texts(elements@);
                self.conf.experiment_elements.append(&mut elements);
                assert(texts(self.conf.experiment_elements@) =~= before.experiment_elements
                    + added);
                self.stage = CreateStage::DataFolder;
                Step::Do(self.stage)
            },
            CreateEvent::Hooked(result) => {
                self.stage = CreateStage::Over;
                match result {
                    Ok(_) => {
                        campaign.put(self.conf.clone());
                        Step::Return(Ok(self.conf.clone()))
                    },
                    Err(e) => Step::Return(Err(e)),
                }
            },
            CreateEvent::Failed => {
                let stage = self.stage;
                self.stage = CreateStage::Over;
                Step::Return(Err(Error::CreateExecution(stage.fail())))
            },
        }
    }
}

//------------------------------------------------------------------- UPDATE AND FINISH EXECUTION
/// What has to be done to change an execution.
#[derive(Clone, Copy, Debug, PartialEq, Eq, Structural)]
pub enum ChangeStage {
    /// Remove the element of the experiment with the given number.
    Remove(usize),
    /// Write the configuration file.
    Write,
    /// Call the hook of the synchronizer.
    Hook,
    Over,
}

/// What came of the last action.
pub enum ChangeEvent {
    /// An element was removed, or not.
    Removed(bool),
    /// The file was written, or not.
    Written(Stored),
    /// The hook was called.
    Hooked(Result<(), Error>),
}

/// The change of an execution: an update, or its finishing. Meanwhile the execution is not kept by
/// the campaign.
pub struct ChangeExecution {
    pub conf: ExecutionConf,
    pub stage: ChangeStage,
}

/// What a step does. The elements of the experiment are removed one after the other; a failure ends
/// the change. Then the execution is completed. The configuration is written, and the hook is
/// called; a failure ends the change there too, and the execution is not kept. Else the campaign
/// keeps the execution, which is returned.
pub open spec fn change_step(
    executions: Map<u128, ExecutionView>,
    before: ChangeExecution,
    event: ChangeEvent,
    executions_after: Map<u128, ExecutionView>,
    after: ChangeExecution,
    step: Step<ChangeStage, ExecutionConf>,
) -> bool {
    match (before.stage, event) {
        (ChangeStage::Remove(i), ChangeEvent::Removed(done)) => {
            &&& executions_after == executions
            &&& if !done {
                &&& after.conf@ == before.conf@
                &&& after.stage == ChangeStage::Over
                &&& step is Return
                &&& step->Return_0 is Err
                &&& step->Return_0->Err_0 is FinishExecution
                &&& step->Return_0->Err_0->FinishExecution_0@
                    == "Failed to remote one experiment element"@
            } else {
                &&& step == Step::<ChangeStage, ExecutionConf>::Do(after.stage)
                &&& finishes(before.conf@, i + 1, after)
            }
        },
        (ChangeStage::Write, ChangeEvent::Written(written)) => {
            &&& executions_after == executions
            &&& after.conf@ == before.conf@
            &&& if written == Stored::Done {
                &&& after.stage == ChangeStage::Hook
                &&& step == Step::<ChangeStage, ExecutionConf>::Do(ChangeStage::Hook)
            } else {
                &&& after.stage == ChangeStage::Over
                &&& step == Step::<ChangeStage, ExecutionConf>::Return(Err(Error::WriteExecution))
            }
        },
        (ChangeStage::Hook, ChangeEvent::Hooked(Ok(_))) => {
            &&& executions_after == executions.insert(before.conf@.identifier, before.conf@)
            &&& after.conf@ == before.conf@
            &&& after.stage == ChangeStage::Over
            &&& step is Return
            &&& step->Return_0 is Ok
            &&& step->Return_0->Ok_0@ == before.conf@
        },
        (ChangeStage::Hook, ChangeEvent::Hooked(Err(e))) => {
            &&& executions_after == executions
            &&& after.conf@ == before.conf@
            &&& after.stage == ChangeStage::Over
            &&& step == Step::<ChangeStage, ExecutionConf>::Return(Err(e))
        },
        _ => false,
    }
}

/// Where the finishing of an execution stands once `removed` of its elements were removed: the next
/// one is to be, or the execution is completed and is to be written.
pub open spec fn finishes(conf: ExecutionView, removed: int, change: ChangeExecution) -> bool {
    if removed < conf.experiment_elements.len() {
        change.stage == ChangeStage::Remove(removed as usize) && change.conf@ == conf
    } else {
        &&& change.stage == ChangeStage::Write
        &&& change.conf@ == ExecutionView { state: ExecutionState::Completed, ..conf }
    }
}

impl ChangeExecution {
    /// The execution has a folder, and the element that is removed exists.
    pub open spec fn wf(&self) -> bool {
        &&& self.conf.path is Some
        &&& self.stage is Remove ==> self.stage->Remove_0 < self.conf.experiment_elements.len()
    }

    /// Whether the event can come of what was asked for.
    pub open spec fn accepts(&self, event: ChangeEvent) -> bool {
        match self.stage {
            ChangeStage::Remove(_) => event is Removed,
            ChangeStage::Write => event is Written,
            ChangeStage::Hook => event is Hooked,
            ChangeStage::Over => false,
        }
    }

    /// The update of an execution, which leaves the campaign until the update is over.
    pub fn update(campaign: &mut Campaign, id: ExecutionId, update: ExecutionUpdate) -> (res: Result<
        ChangeExecution,
        Error,
    >)
        requires
            old(campaign).wf(),
        ensures
            final(campaign).wf(),
            final(campaign).conf == old(campaign).conf,
            match res {
                Ok(change) => {
                    &&& old(campaign)@.contains_key(id.0)
                    &&& final(campaign)@ == old(campaign)@.remove(id.0)
                    &&& change.wf()
                    &&& change.stage == ChangeStage::Write
                    &&& change.conf@ == update@.applied(old(campaign)@[id.0])
                },
                Err(e) => {
                    &&& !old(campaign)@.contains_key(id.0)
                    &&& final(campaign)@ == old(campaign)@
                    &&& is_not_cached(e, id.0)
                },
            },
    {
        match campaign.take(id) {
            Ok(conf) => {
                assert(old(campaign)@.contains_key(id.0));
                let conf = update.apply(conf);
                assert(conf@.path is Some);
                Ok(ChangeExecution { conf, stage: ChangeStage::Write })
            },
            Err(e) => Err(e),
        }
    }

    /// The finishing of an execution, which leaves the campaign until the finishing is over.
    pub fn finish(campaign: &mut Campaign, id: ExecutionId) -> (res: Result<ChangeExecution, Error>)
        requires
            old(campaign).wf(),
        ensures
            final(campaign).wf(),
            final(campaign).conf == old(campaign).conf,
            match res {
                Ok(change) => {
                    &&& old(campaign)@.contains_key(id.0)
                    &&& final(campaign)@ == old(campaign)@.remove(id.0)
                    &&& change.wf()
                    &&& finishes(old(campaign)@[id.0], 0, change)
                },
                Err(e) => {
                    &&& !old(campaign)@.contains_key(id.0)
                    &&& final(campaign)@ == old(campaign)@
                    &&& is_not_cached(e, id.0)
                },
            },
    {
        match campaign.take(id) {
            Ok(conf) => {
                assert(old(campaign)@.contains_key(id.0));
                assert(conf@.path is Some);
                assert(conf@.experiment_elements.len() == conf.experiment_elements.len());
                Ok(ChangeExecution::finishing(conf, 0))
            },
            Err(e) => Err(e),
        }
    }

    /// Goes on with a finishing once some elements were removed.
    fn finishing(conf: ExecutionConf, removed: usize) -> (res: ChangeExecution)
        requires
            conf.path is Some,
        ensures
            res.wf(),
            finishes(conf@, removed as int, res),
    {
        if removed < conf.experiment_elements.len() {
            ChangeExecution { conf, stage: ChangeStage::Remove(removed) }
        } else {
            let mut conf = conf;
            conf.state = ExecutionState::Completed;
            ChangeExecution { conf, stage: ChangeStage::Write }
        }
    }

    /// The path of the element that is to be removed.
    pub fn element(&self) -> (res: String)
        requires
            self.wf(),
            self.stage is Remove,
        ensures
            res@ == path_in(
                self.conf@.path->Some_0,
                self.conf@.experiment_elements[self.stage->Remove_0 as int],
            ),
    {
        match self.stage {
            ChangeStage::Remove(i) => path_join(
                self.conf.get_path().as_str(),
                self.conf.experiment_elements[i].as_str(),
            ),
            _ => vstd::pervasive::unreached(),
        }
    }

    /// Takes what came of the last action into account, and says what has to be done next.
    pub fn step(&mut self, campaign: &mut Campaign, event: ChangeEvent) -> (res: Step<
        ChangeStage,
        ExecutionConf,
    >)
        requires
            old(self).wf(),
            old(campaign).wf(),
            old(self).accepts(event),
        ensures
            final(self).wf(),
            final(campaign).wf(),
            final(campaign).conf == old(campaign).conf,
            change_step(
                old(campaign)@,
                *old(self),
                event,
                final(campaign)@,
                *final(self),
                res,
            ),
    {
        match (self.stage, event) {
            (ChangeStage::Remove(i), ChangeEvent::Removed(done)) => {
                if !done {
                    self.stage = ChangeStage::Over;
                    Step::Return(
                        Err(
                            Error::FinishExecution(
                                "Failed to remote one experiment element".to_owned(),
                            ),
                        ),
                    )
                } else {
                    *self = ChangeExecution::finishing(self.conf.clone(), i + 1);
                    Step::Do(self.stage)
                }
            },
            (ChangeStage::Write, ChangeEvent::Written(written)) => {
                match ExecutionConf::stored(written) {
                    Ok(_) => {
                        self.stage = ChangeStage::Hook;
                        Step::Do(ChangeStage::Hook)
                    },
                    Err(e) => {
                        self.stage = ChangeStage::Over;
                        Step::Return(Err(e))
                    },
                }
            },
            (ChangeStage::Hook, ChangeEvent::Hooked(result)) => {
                self.stage = ChangeStage::Over;
                match result {
                    Ok(_) => {
                        campaign.put(self.conf.clone());
                        Step::Return(Ok(self.conf.clone()))
                    },
                    Err(e) => Step::Return(Err(e)),
                }
            },
            _ => vstd::pervasive::unreached(),
        }
    }
}

//------------------------------------------------------------------------------ DELETE EXECUTION
/// What has to be done to delete an execution.
#[derive(Clone, Copy, Debug, PartialEq, Eq, Structural)]
pub enum DeleteStage {
    /// Remove the folder of the execution.
    Remove,
    /// Call the hook of the synchronizer.
    Hook,
    Over,
}

/// What came of the last action.
pub enum DeleteEvent {
    /// The folder was removed, or not.
    Removed(bool),
    /// The hook was called.
    Hooked(Result<(), Error>),
}

pub struct DeleteExecution {
    pub conf: ExecutionConf,
    pub stage: DeleteStage,
}

/// What a step does: the folder is removed, then the hook is called.
pub open spec fn delete_step(
    before: DeleteExecution,
    event: DeleteEvent,
    after: DeleteExecution,
    step: Step<DeleteStage, ()>,
) -> bool {
    &&& after.conf == before.conf
    &&& match event {
        DeleteEvent::Removed(true) => after.stage == DeleteStage::Hook && step == Step::<
            DeleteStage,
            (),
        >::Do(DeleteStage::Hook),
        DeleteEvent::Removed(false) => {
            &&& after.stage == DeleteStage::Over
            &&& step is Return
            &&& step->Return_0 is Err
            &&& step->Return_0->Err_0 is DeleteExecution
            &&& step->Return_0->Err_0->DeleteExecution_0@ == "Failed to remove execution files"@
        },
        DeleteEvent::Hooked(result) => {
            &&& after.stage == DeleteStage::Over
            &&& step == Step::<DeleteStage, ()>::Return(result)
        },
    }
}

impl DeleteExecution {
    /// Whether the event can come of what was asked for.
    pub open spec fn accepts(&self, event: DeleteEvent) -> bool {
        match self.stage {
            DeleteStage::Remove => event is Removed,
            DeleteStage::Hook => event is Hooked,
            DeleteStage::Over => false,
        }
    }

    /// The deletion of an execution, which leaves the campaign at once.
    pub fn start(campaign: &mut Campaign, id: ExecutionId) -> (res: Result<DeleteExecution, Error>)
        requires
            old(campaign).wf(),
        ensures
            final(campaign).wf(),
            final(campaign).conf == old(campaign).conf,
            match res {
                Ok(delete) => {
                    &&& old(campaign)@.contains_key(id.0)
                    &&& final(campaign)@ == old(campaign)@.remove(id.0)
                    &&& delete.stage == DeleteStage::Remove
                    &&& delete.conf@ == old(campaign)@[id.0]
                },
                Err(e) => {
                    &&& !old(campaign)@.contains_key(id.0)
                    &&& final(campaign)@ == old(campaign)@
                    &&& is_not_cached(e, id.0)
                },
            },
    {
        match campaign.take(id) {
            Ok(conf) => Ok(DeleteExecution { conf, stage: DeleteStage::Remove }),
            Err(e) => Err(e),
        }
    }

    /// Takes what came of the last action into account, and says what has to be done next.
    pub fn step(&mut self, event: DeleteEvent) -> (res: Step<DeleteStage, ()>)
        requires
            old(self).accepts(event),
        ensures
            delete_step(*old(self), event, *final(self), res),
    {
        match event {
            DeleteEvent::Removed(done) => {
                if done {
                    self.stage = DeleteStage::Hook;
                    Step::Do(DeleteStage::Hook)
                } else {
                    self.stage = DeleteStage::Over;
                    Step::Return(
                        Err(Error::DeleteExecution("Failed to remove execution files".to_owned())),
                    )
                }
            },
            DeleteEvent::Hooked(result) => {
                self.stage = DeleteStage::Over;
                Step::Return(result)
            },
        }
    }
}

//------------------------------------------------------------------------------ FETCH EXECUTIONS
/// What has to be done to fetch executions.
#[derive(Clone, Copy, Debug, PartialEq, Eq, Structural)]
pub enum FetchExecutionsStage {
    /// List the folders of the executions.
    Before,
    /// Call the hook of the synchronizer.
    Hook,
    /// List the folders of the executions again.
    After,
    /// Read the configuration file of the new folder with the given number.
    Read(usize),
    Over,
}

/// What came of the last action.
pub enum FetchExecutionsEvent {
    /// The folders that hold an execution.
    Listed(Vec<String>),
    /// The hook was called.
    Hooked(Result<(), Error>),
    /// An execution was read, or not.
    Read(Loaded<ExecutionConf>),
}

pub struct FetchExecutions {
    pub stage: FetchExecutionsStage,
    /// The folders that were there before the hook.
    pub before: Vec<String>,
    /// The folders that are there only since.
    pub added: Vec<String>,
    /// The executions that were read.
    pub fetched: Vec<ExecutionConf>,
}

/// The folders that are not among the known ones, in order.
pub open spec fn new_folders(known: Seq<Seq<char>>, folders: Seq<Seq<char>>) -> Seq<Seq<char>>
    decreases folders.len(),
{
    if folders.len() == 0 {
        Seq::empty()
    } else {
        let before = new_folders(known, folders.drop_last());
        if known.contains(folders.last()) {
            before
        } else {
            before.push(folders.last())
        }
    }
}

/// Whether every folder of the first list is in the second one.
pub open spec fn all_kept(before: Seq<Seq<char>>, after: Seq<Seq<char>>) -> bool {
    forall|i: int| 0 <= i < before.len() ==> after.contains(#[trigger] before[i])
}

fn listed(folders: &Vec<String>, folder: &str) -> (res: bool)
    ensures
        res == texts(folders@).contains(folder@),
{
    let mut i: usize = 0;
    while i < folders.len()
        invariant
            i <= folders.len(),
            forall|j: int| 0 <= j < i ==> (#[trigger] folders@[j])@ != folder@,
        decreases folders.len() - i,
    {
        if same(folders[i].as_str(), folder) {
            assert(texts(folders@)[i as int] == folder@);
            return true;
        }
        i = i + 1;
    }
    assert(!texts(folders@).contains(folder@)) by {
        if texts(folders@).contains(folder@) {
            let j = choose|j: int| 0 <= j < texts(folders@).len() && texts(folders@)[j] == folder@;
            assert(folders@[j]@ == folder@);
        }
    }
    false
}

pub(crate) fn select_new(known: &Vec<String>, folders: &Vec<String>) -> (res: Vec<String>)
    ensures
        texts(res@) == new_folders(texts(known@), texts(folders@)),
{
    let ghost all = texts(folders@);
    let mut res: Vec<String> = Vec::new();
    let mut i: usize = 0;
    assert(texts(res@) =~= new_folders(texts(known@), all.take(0)));
    while i < folders.len()
        invariant
            i <= folders.len(),
            all == texts(folders@),
            texts(res@) == new_folders(texts(known@), all.take(i as int)),
        decreases folders.len() - i,
    {
        assert(all.take(i + 1).drop_last() =~= all.take(i as int));
        assert(all[i as int] == folders@[i as int]@);
        if !listed(known, folders[i].as_str()) {
            let ghost kept = texts(res@);
            res.push(folders[i].clone());
            assert(texts(res@) =~= kept.push(all[i as int]));
        }
        i = i + 1;
    }
    assert(all.take(i as int) =~= all);
    res
}

pub(crate) fn keeps_all(before: &Vec<String>, after: &Vec<String>) -> (res: bool)
    ensures
        res == all_kept(texts(before@), texts(after@)),
{
    let mut i: usize = 0;
    while i < before.len()
        invariant
            i <= before.len(),
            forall|j: int| 0 <= j < i ==> texts(after@).contains(#[trigger] texts(before@)[j]),
        decreases before.len() - i,
    {
        if !listed(after, before[i].as_str()) {
            assert(texts(before@)[i as int] == before@[i as int]@);
            return false;
        }
        i = i + 1;
    }
    true
}

/// What the executions that were read hold.
pub open spec fn execution_views(executions: Seq<ExecutionConf>) -> Seq<ExecutionView> {
    Seq::new(executions.len(), |i: int| executions[i]@)
}

/// What is done once the executions of the first `done` new folders were read: that of the next one
/// is, or those that were read are returned.
pub open spec fn reads_on(
    fetched: Seq<ExecutionView>,
    done: nat,
    after: FetchExecutions,
    step: Step<FetchExecutionsStage, Vec<ExecutionConf>>,
) -> bool {
    if done < after.added.len() {
        &&& after.stage == FetchExecutionsStage::Read(done as usize)
        &&& execution_views(after.fetched@) == fetched
        &&& step == Step::<FetchExecutionsStage, Vec<ExecutionConf>>::Do(after.stage)
    } else {
        &&& after.stage == FetchExecutionsStage::Over
        &&& step is Return
        &&& step->Return_0 is Ok
        &&& execution_views(step->Return_0->Ok_0@) == fetched
    }
}

/// What a step does: the folders are listed before and after the hook. It is an error if one of
/// them vanished. The execution of each folder that is new is read, with that folder for its path; the
/// first one that cannot be read ends the fetching.
pub open spec fn fetch_executions_step(
    before: FetchExecutions,
    event: FetchExecutionsEvent,
    after: FetchExecutions,
    step: Step<FetchExecutionsStage, Vec<ExecutionConf>>,
) -> bool {
    match (before.stage, event) {
        (FetchExecutionsStage::Before, FetchExecutionsEvent::Listed(folders)) => {
            &&& after.stage == FetchExecutionsStage::Hook
            &&& after.before@ == folders@
            &&& after.added@ == before.added@
            &&& execution_views(after.fetched@) == execution_views(before.fetched@)
            &&& step == Step::<FetchExecutionsStage, Vec<ExecutionConf>>::Do(after.stage)
        },
        (FetchExecutionsStage::Hook, FetchExecutionsEvent::Hooked(result)) => {
            &&& after.before@ == before.before@
            &&& after.added@ == before.added@
            &&& execution_views(after.fetched@) == execution_views(before.fetched@)
            &&& match result {
                Ok(_) => {
                    &&& after.stage == FetchExecutionsStage::After
                    &&& step == Step::<FetchExecutionsStage, Vec<ExecutionConf>>::Do(after.stage)
                },
                Err(e) => {
                    &&& after.stage == FetchExecutionsStage::Over
                    &&& step == Step::<FetchExecutionsStage, Vec<ExecutionConf>>::Return(Err(e))
                },
            }
        },
        (FetchExecutionsStage::After, FetchExecutionsEvent::Listed(folders)) => {
            &&& after.before@ == before.before@
            &&& if all_kept(texts(before.before@), texts(folders@)) {
                &&& texts(after.added@) == new_folders(texts(before.before@), texts(folders@))
                &&& reads_on(execution_views(before.fetched@), 0, after, step)
            } else {
                &&& after.stage == FetchExecutionsStage::Over
                &&& step is Return
                &&& step->Return_0 is Err
                &&& step->Return_0->Err_0 is FetchExecutions
                &&& step->Return_0->Err_0->FetchExecutions_0@
                    == "Some executions existed before fetch but not after"@
            }
        },
        (FetchExecutionsStage::Read(i), FetchExecutionsEvent::Read(read)) => {
            &&& after.before@ == before.before@
            &&& after.added@ == before.added@
            &&& match read {
                Loaded::Value(conf) => reads_on(
                    execution_views(before.fetched@).push(
                        ExecutionView { path: Some(before.added@[i as int]@), ..conf@ },
                    ),
                    (i + 1) as nat,
                    after,
                    step,
                ),
                _ => {
                    &&& after.stage == FetchExecutionsStage::Over
                    &&& step == Step::<FetchExecutionsStage, Vec<ExecutionConf>>::Return(
                        Err(Error::ReadExecution),
                    )
                },
            }
        },
        _ => false,
    }
}

impl FetchExecutions {
    /// The executions that were read are those of the first new folders, and another one is left
    /// where one is read.
    pub open spec fn wf(&self) -> bool {
        match self.stage {
            FetchExecutionsStage::Read(i) => {
                &&& i < self.added.len()
                &&& self.fetched.len() == i
                &&& forall|j: int|
                    0 <= j < i ==> (#[trigger] self.fetched@[j])@.path == Some(self.added@[j]@)
            },
            FetchExecutionsStage::Over => true,
            _ => self.added.len() == 0 && self.fetched.len() == 0,
        }
    }

    /// Whether the event can come of what was asked for.
    pub open spec fn accepts(&self, event: FetchExecutionsEvent) -> bool {
        match self.stage {
            FetchExecutionsStage::Before | FetchExecutionsStage::After => event is Listed,
            FetchExecutionsStage::Hook => event is Hooked,
            FetchExecutionsStage::Read(_) => event is Read,
            FetchExecutionsStage::Over => false,
        }
    }

    /// The fetching of executions, of which the folders are to be listed first.
    pub fn start() -> (res: FetchExecutions)
        ensures
            res.wf(),
            res.stage == FetchExecutionsStage::Before,
            res.before.len() == 0,
            res.added.len() == 0,
            res.fetched.len() == 0,
    {
        FetchExecutions {
            stage: FetchExecutionsStage::Before,
            before: Vec::new(),
            added: Vec::new(),
            fetched: Vec::new(),
        }
    }

    /// The path of the configuration file that is to be read.
    pub fn conf_path(&self) -> (res: String)
        requires
            self.wf(),
            self.stage is Read,
        ensures
            res@ == path_in(self.added@[self.stage->Read_0 as int]@, EXCCONF_RPATH@),
    {
        match self.stage {
            FetchExecutionsStage::Read(i) => path_join(self.added[i].as_str(), EXCCONF_RPATH),
            _ => vstd::pervasive::unreached(),
        }
    }

    fn read_on(&mut self, done: usize) -> (res: Step<FetchExecutionsStage, Vec<ExecutionConf>>)
        requires
            old(self).fetched.len() == done,
            done <= old(self).added.len(),
            forall|j: int|
                0 <= j < done ==> (#[trigger] old(self).fetched@[j])@.path == Some(
                    old(self).added@[j]@,
                ),
        ensures
            final(self).wf(),
            final(self).before@ == old(self).before@,
            final(self).added@ == old(self).added@,
            reads_on(execution_views(old(self).fetched@), done as nat, *final(self), res),
    {
        if done < self.added.len() {
            self.stage = FetchExecutionsStage::Read(done);
            Step::Do(self.stage)
        } else {
            self.stage = FetchExecutionsStage::Over;
            let fetched = self.fetched.clone();
            assert(execution_views(fetched@) =~= execution_views(self.fetched@));
            Step::Return(Ok(fetched))
        }
    }

    /// Takes what came of the last action into account, and says what has to be done next.
    pub fn step(&mut self, event: FetchExecutionsEvent) -> (res: Step<
        FetchExecutionsStage,
        Vec<ExecutionConf>,
    >)
        requires
            old(self).wf(),
            old(self).accepts(event),
        ensures
            final(self).wf(),
            fetch_executions_step(*old(self), event, *final(self), res),
    {
        match (self.stage, event) {
            (FetchExecutionsStage::Before, FetchExecutionsEvent::Listed(folders)) => {
                self.before = folders;
                self.stage = FetchExecutionsStage::Hook;
                Step::Do(self.stage)
            },
            (FetchExecutionsStage::Hook, FetchExecutionsEvent::Hooked(result)) => match result {
                Ok(_) => {
                    self.stage = FetchExecutionsStage::After;
                    Step::Do(self.stage)
                },
                Err(e) => {
                    self.stage = FetchExecutionsStage::Over;
                    Step::Return(Err(e))
                },
            },
            (FetchExecutionsStage::After, FetchExecutionsEvent::Listed(folders)) => {
                if keeps_all(&self.before, &folders) {
                    self.added = select_new(&self.before, &folders);
                    self.read_on(0)
                } else {
                    self.stage = FetchExecutionsStage::Over;
                    Step::Return(
                        Err(
                            Error::FetchExecutions(
                                "Some executions existed before fetch but not after".to_owned(),
                            ),
                        ),
                    )
                }
            },
            (FetchExecutionsStage::Read(i), FetchExecutionsEvent::Read(read)) => {
                match ExecutionConf::from_file(self.added[i].as_str(), read) {
                    Ok(conf) => {
                        let ghost fetched = execution_views(self.fetched@);
                        self.fetched.push(conf);
                        assert(execution_views(self.fetched@) =~= fetched.push(conf@));
                        self.read_on(i + 1)
                    },
                    Err(e) => {
                        self.stage = FetchExecutionsStage::Over;
                        Step::Return(Err(e))
                    },
                }
            },
            _ => vstd::pervasive::unreached(),
        }
    }
}

/// A fetch that succeeds brings exactly the executions of the new folders, in order, each with its
/// folder for its path.
pub proof fn new_executions_are_fetched(
    before: FetchExecutions,
    event: FetchExecutionsEvent,
    after: FetchExecutions,
    step: Step<FetchExecutionsStage, Vec<ExecutionConf>>,
)
    requires
        before.wf(),
        fetch_executions_step(before, event, after, step),
        step is Return,
        step->Return_0 is Ok,
    ensures
        step->Return_0->Ok_0.len() == after.added.len(),
        forall|j: int|
            0 <= j < after.added.len() ==> (#[trigger] step->Return_0->Ok_0@[j])@.path == Some(
                after.added@[j]@,
            ),
{
    let confs = step->Return_0->Ok_0@;
    assert(execution_views(confs).len() == confs.len());
    match (before.stage, event) {
        (FetchExecutionsStage::Read(i), FetchExecutionsEvent::Read(Loaded::Value(conf))) => {
            let fetched = execution_views(before.fetched@);
            assert forall|j: int| 0 <= j < after.added.len() implies (#[trigger] confs[j])@.path
                == Some(after.added@[j]@) by {
                assert(execution_views(confs)[j] == confs[j]@);
                if j < i {
                    assert(fetched[j] == before.fetched@[j]@);
                }
            }
        },
        _ => {},
    }
}

//------------------------------------------------------------------------------------------ LAWS
proof fn identified(executions: Seq<ExecutionConf>, id: u128)
    ensures
        by_identifier(executions).contains_key(id) <==> exists|i: int|
            0 <= i < executions.len() && (#[trigger] executions[i]).identifier.0 == id,
    decreases executions.len(),
{
    if executions.len() > 0 {
        let init = executions.drop_last();
        let n = executions.len() - 1;
        identified(init, id);
        if executions.last().identifier.0 == id {
            assert(executions[n].identifier.0 == id);
        } else if by_identifier(executions).contains_key(id) {
            let k = choose|k: int| 0 <= k < init.len() && (#[trigger] init[k]).identifier.0 == id;
            assert(executions[k].identifier.0 == id);
        } else if exists|i: int|
            0 <= i < executions.len() && (#[trigger] executions[i]).identifier.0 == id {
            let k = choose|i: int|
                0 <= i < executions.len() && (#[trigger] executions[i]).identifier.0 == id;
            assert(init[k].identifier.0 == id);
        }
    }
}

proof fn last_of_identifier(executions: Seq<ExecutionConf>, id: u128, i: int)
    requires
        0 <= i < executions.len(),
        executions[i].identifier.0 == id,
        forall|j: int|
            i < j < executions.len() ==> (#[trigger] executions[j]).identifier.0 != id,
    ensures
        by_identifier(executions)[id] == executions[i]@,
    decreases executions.len(),
{
    let init = executions.drop_last();
    let n = executions.len() - 1;
    if i < n {
        assert(executions[n].identifier.0 != id);
        assert forall|j: int| i < j < init.len() implies (#[trigger] init[j]).identifier.0 != id by {
            assert(executions[j].identifier.0 != id);
        }
        last_of_identifier(init, id, i);
    }
}

/// A campaign that is opened has the executions of its files, each under its identifier, and no other
/// one. Of executions with the same identifier, it has the last one.
pub proof fn campaign_has_its_executions(
    conf: CampaignConf,
    executions: Vec<ExecutionConf>,
    id: u128,
    i: int,
    res: Campaign,
)
    requires
        call_ensures(Campaign::from, (conf, executions), res),
    ensures
        res.conf == conf,
        res@.contains_key(id) <==> exists|k: int|
            0 <= k < executions.len() && (#[trigger] executions@[k]).identifier.0 == id,
        0 <= i < executions.len() && executions@[i].identifier.0 == id && (forall|j: int|
            i < j < executions.len() ==> (#[trigger] executions@[j]).identifier.0 != id)
            ==> res@[id] == executions@[i]@,
{
    identified(executions@, id);
    if 0 <= i < executions.len() && executions@[i].identifier.0 == id && (forall|j: int|
        i < j < executions.len() ==> (#[trigger] executions@[j]).identifier.0 != id) {
        last_of_identifier(executions@, id, i);
    }
}

/// The experiment is fetched stage by stage: each that is done is followed by the next one, and the
/// first one that fails ends the fetching. A merge has to be a fast-forward.
pub proof fn experiment_is_fetched_stage_by_stage(
    fetch: &mut FetchExperiment,
    campaign: &Campaign,
    event: FetchEvent,
    res: Step<FetchStage, CampaignConf>,
)
    requires
        call_ensures(FetchExperiment::step, (fetch, campaign, event), res),
    ensures
        res is Do ==> res->Do_0 == final(fetch).stage,
        event is Done ==> {
            &&& res is Do
            &&& old(fetch).stage is Remote ==> res->Do_0 is Fetch
            &&& old(fetch).stage is Fetch ==> res->Do_0 is RemoteHead
            &&& old(fetch).stage is RemoteHead ==> res->Do_0 is Target
            &&& old(fetch).stage is Target ==> res->Do_0 is Annotated
            &&& old(fetch).stage is Annotated ==> res->Do_0 is Analysis
            &&& old(fetch).stage is Commit ==> res->Do_0 is Tree
            &&& old(fetch).stage is Tree ==> res->Do_0 is Checkout
            &&& old(fetch).stage is Checkout ==> res->Do_0 is Master
            &&& old(fetch).stage is Master ==> res->Do_0 is SetMaster
            &&& old(fetch).stage is SetMaster ==> res->Do_0 is Head
            &&& old(fetch).stage is Head ==> res->Do_0 is SetHead
            &&& old(fetch).stage is SetHead ==> res->Do_0 is Hook
        },
        event is Analysed && event->Analysed_0 ==> res is Do && res->Do_0 is Commit,
        event is Analysed && !event->Analysed_0 ==> res is Return && res->Return_0 is Err
            && res->Return_0->Err_0 is NoFFPossible,
        event is Hooked && event->Hooked_0 is Ok ==> res is Return && res->Return_0 is Ok
            && res->Return_0->Ok_0 == campaign.conf,
        event is Hooked && event->Hooked_0 is Err ==> res is Return && res->Return_0 is Err
            && res->Return_0->Err_0 == event->Hooked_0->Err_0,
        event is Failed ==> {
            let text = res->Return_0->Err_0->FetchExperiment_0@;
            &&& res is Return && res->Return_0 is Err
            &&& final(fetch).stage is Over
            &&& old(fetch).stage is Analysis ==> res->Return_0->Err_0 is Unknown
            &&& !(old(fetch).stage is Analysis) ==> res->Return_0->Err_0 is FetchExperiment
            &&& old(fetch).stage is Remote ==> text == "No origin remote found"@
            &&& old(fetch).stage is Fetch ==> text == "Couldn't fetch origin"@
            &&& old(fetch).stage is RemoteHead ==> text == "Couldn't find origin head ref"@
            &&& old(fetch).stage is Target ==> text == "Couldn't find origin head target"@
            &&& old(fetch).stage is Annotated ==> text == "Couldn't find annotated commit"@
            &&& old(fetch).stage is Commit ==> text == "Couldn't find commit"@
            &&& old(fetch).stage is Tree ==> text == "Couldn't find commit tree"@
            &&& old(fetch).stage is Checkout ==> text == "Couldn't checkout tree"@
            &&& old(fetch).stage is Master ==> text == "Couldn't find local master head ref"@
            &&& old(fetch).stage is SetMaster ==> text == "Couldn't set HEAD to target"@
            &&& old(fetch).stage is Head ==> text == "Coudln't find repository HEAD"@
            &&& old(fetch).stage is SetHead ==> text == "Couldn't set reposity HEAD to target"@
        },
{
}

/// An execution that is created holds what it was created with, under the given identifier, in the
/// folder of the identifier; it is initialized and has no results.
pub proof fn created_execution_holds_what_was_given(
    campaign: &Campaign,
    commit: ExperimentCommit,
    parameters: ExecutionParameters,
    tags: Vec<ExecutionTag>,
    generator: String,
    now: Timestamp,
    id: ExecutionId,
    res: CreateExecution,
)
    requires
        call_ensures(
            CreateExecution::start_at,
            (campaign, commit, parameters, tags, generator, now, id),
            res,
        ),
    ensures
        res.stage is Folder,
        res.conf.identifier == id,
        res.conf.path is Some,
        res.conf.path->Some_0@ == path_in(
            path_in(campaign.conf.path->Some_0@, "excs"@),
            uuid_text(id.0),
        ),
        res.conf.commit.0@ == commit.0@,
        res.conf.parameters.0@ == parameters.0@,
        tag_texts(res.conf.tags@) == tag_texts(tags@),
        res.conf.generator@ == generator@,
        res.conf.generation_date == now,
        res.conf.state is Initialized,
        res.conf.experiment_elements.len() == 0,
        res.conf.executor is None && res.conf.execution_exit_code is None,
        res.conf.execution_stdout is None && res.conf.execution_stderr is None,
        res.conf.execution_message is None && res.conf.execution_features is None,
        res.conf.execution_beginning_date is None && res.conf.execution_ending_date is None,
{
    let view = res.conf@;
    assert(view.path == Some(campaign.conf.execution_folder(id.0)));
    assert(view.commit == commit.0@ && view.parameters == parameters.0@);
    assert(view.generator == generator@ && view.tags == tag_texts(tags@));
    assert(view.experiment_elements.len() == 0);
    assert(view.executor is None && view.execution_message is None);
    assert(view.execution_stdout is None && view.execution_stderr is None);
    assert(view.execution_features is None);
}

/// An execution is created stage by stage, and the first one that fails ends the creation. After the
/// clone, what is no identifier of a commit is refused.
pub proof fn execution_is_created_stage_by_stage(
    create: &mut CreateExecution,
    campaign: &mut Campaign,
    event: CreateEvent,
    res: Step<CreateStage, ExecutionConf>,
)
    requires
        call_ensures(CreateExecution::step, (create, campaign, event), res),
        event is Done || event is Failed,
    ensures
        final(campaign)@ == old(campaign)@,
        event is Done && !(old(create).stage is Clone) ==> {
            &&& res is Do
            &&& res->Do_0 == final(create).stage
            &&& old(create).stage is Folder ==> res->Do_0 is Clone
            &&& old(create).stage is Commit ==> res->Do_0 is Tree
            &&& old(create).stage is Tree ==> res->Do_0 is Checkout
            &&& old(create).stage is Checkout ==> res->Do_0 is RemoveGit
            &&& old(create).stage is RemoveGit ==> res->Do_0 is Walk
            &&& old(create).stage is DataFolder ==> res->Do_0 is Write
            &&& old(create).stage is Write ==> res->Do_0 is Hook
        },
        event is Done && old(create).stage is Clone ==> ((res is Do && res->Do_0 is Commit) <==> 1
            <= old(create).conf.commit.0@.len() <= 40 && forall|i: int|
            0 <= i < old(create).conf.commit.0@.len() ==> {
                let c = #[trigger] old(create).conf.commit.0@[i];
                '0' <= c <= '9' || 'a' <= c <= 'f' || 'A' <= c <= 'F'
            }),
        event is Done && old(create).stage is Clone && !(res is Do) ==> res is Return
            && res->Return_0 is Err && res->Return_0->Err_0.text()
            == "Failed to create execution: \n"@ + "Ill formed commit"@,
        event is Failed ==> {
            let text = res->Return_0->Err_0->CreateExecution_0@;
            &&& res is Return && res->Return_0 is Err
            &&& res->Return_0->Err_0 is CreateExecution
            &&& final(create).stage is Over
            &&& old(create).stage is Folder ==> text == "Failed to create directory"@
            &&& old(create).stage is Clone ==> text == "Failed to local clone"@
            &&& old(create).stage is Commit ==> text == "Commit is not known"@
            &&& old(create).stage is Tree ==> text == "No tree attached to commit"@
            &&& old(create).stage is Checkout ==> text == "Couldn't checkout tree"@
            &&& old(create).stage is RemoveGit ==> text == "Couldn't remove git folder"@
            &&& old(create).stage is DataFolder ==> text == "Failed to create data folder"@
            &&& old(create).stage is Write ==> text == "Failed to write config file."@
        },
{
    assert(old(create).conf@.commit == old(create).conf.commit.0@);
}

proof fn elements_filtered(
    folder: Seq<char>,
    met: Seq<(String, bool)>,
    wanted: spec_fn((String, bool)) -> bool,
    below: spec_fn((String, bool)) -> Seq<char>,
)
    requires
        forall|m: (String, bool)| #[trigger] wanted(m) == m.1,
        forall|m: (String, bool)| #[trigger] below(m) == path_below(folder, m.0@),
    ensures
        elements_of(folder, met) == met.filter(wanted).map_values(below),
    decreases met.len(),
{
    reveal(Seq::filter);
    if met.len() == 0 {
        assert(met.filter(wanted).map_values(below) =~= Seq::<Seq<char>>::empty());
    } else {
        elements_filtered(folder, met.drop_last(), wanted, below);
        assert(wanted(met.last()) == met.last().1);
        assert(below(met.last()) == path_below(folder, met.last().0@));
        assert(elements_of(folder, met) =~= met.filter(wanted).map_values(below));
    }
}

/// The elements of an experiment are all the files that were met, in their order, by their path below
/// the folder, and nothing else.
pub proof fn every_file_is_an_element(
    folder: &str,
    met: &Vec<(String, bool)>,
    below: spec_fn((String, bool)) -> Seq<char>,
    res: Vec<String>,
)
    requires
        call_ensures(experiment_elements, (folder, met), res),
        forall|m: (String, bool)| #[trigger] below(m) == path_below(folder@, m.0@),
    ensures
        texts(res@) == met@.filter(|m: (String, bool)| m.1).map_values(below),
{
    elements_filtered(folder@, met@, |m: (String, bool)| m.1, below);
}

/// The files that were met in the folder of an execution are its elements, all of them; nothing else of
/// the execution changes.
pub proof fn elements_are_kept(
    create: &mut CreateExecution,
    campaign: &mut Campaign,
    met: Vec<(String, bool)>,
    below: spec_fn((String, bool)) -> Seq<char>,
    res: Step<CreateStage, ExecutionConf>,
)
    requires
        call_ensures(CreateExecution::step, (create, campaign, CreateEvent::Walked(met)), res),
        old(create).conf.path is Some,
        old(create).conf.experiment_elements.len() == 0,
        forall|m: (String, bool)| #[trigger]
            below(m) == path_below(old(create).conf.path->Some_0@, m.0@),
    ensures
        texts(final(create).conf.experiment_elements@) == met@.filter(
            |m: (String, bool)| m.1,
        ).map_values(below),
        res is Do && res->Do_0 is DataFolder && final(create).stage is DataFolder,
        final(create).conf@ == (ExecutionView {
            experiment_elements: texts(final(create).conf.experiment_elements@),
            ..old(create).conf@
        }),
        final(campaign)@ == old(campaign)@,
{
    elements_filtered(
        old(create).conf.path->Some_0@,
        met@,
        |m: (String, bool)| m.1,
        below,
    );
    let before = old(create).conf@;
    let elements = elements_of(before.path->Some_0, met@);
    assert(before.experiment_elements =~= Seq::<Seq<char>>::empty());
    assert(before.experiment_elements + elements =~= elements);
    assert(final(create).conf@.experiment_elements == elements);
}

/// Once it is synchronized, a created execution is kept by the campaign, and returned; the other
/// executions stay as they are. Where the synchronization fails, it is not kept.
pub proof fn created_execution_is_kept(
    create: &mut CreateExecution,
    campaign: &mut Campaign,
    hooked: Result<(), Error>,
    other: u128,
    res: Step<CreateStage, ExecutionConf>,
)
    requires
        call_ensures(CreateExecution::step, (create, campaign, CreateEvent::Hooked(hooked)), res),
    ensures
        res is Return,
        final(create).stage is Over,
        res->Return_0 is Ok <==> hooked is Ok,
        hooked is Ok ==> {
            &&& res->Return_0->Ok_0@ == old(create).conf@
            &&& final(campaign)@.contains_key(old(create).conf.identifier.0)
            &&& final(campaign)@[old(create).conf.identifier.0] == old(create).conf@
            &&& other != old(create).conf.identifier.0 ==> (final(campaign)@.contains_key(other)
                <==> old(campaign)@.contains_key(other)) && final(campaign)@[other] == old(
                campaign,
            )@[other]
        },
        hooked is Err ==> res->Return_0->Err_0 == hooked->Err_0 && final(campaign)@ == old(
            campaign,
        )@,
{
}

/// The experiment is cloned from the repository of the campaign.
pub proof fn experiment_is_cloned_from_the_campaign(campaign: &Campaign, res: String)
    requires
        call_ensures(CreateExecution::experiment_url, (campaign,), res),
    ensures
        res@ == "file://"@ + path_in(campaign.conf.path->Some_0@, "xprp"@),
{
}

/// An update is made of the execution that has the identifier, and of no other one: it is applied to
/// what the execution holds. Where there is none, it is an error and nothing changes.
pub proof fn known_execution_is_updated(
    campaign: &mut Campaign,
    id: ExecutionId,
    update: ExecutionUpdate,
    other: u128,
    res: Result<ChangeExecution, Error>,
)
    requires
        call_ensures(ChangeExecution::update, (campaign, id, update), res),
    ensures
        res is Ok <==> old(campaign)@.contains_key(id.0),
        res is Ok ==> {
            &&& res->Ok_0.stage is Write
            &&& update.execution_exit_code is Some ==> res->Ok_0.conf.execution_exit_code
                == update.execution_exit_code
            &&& update.execution_exit_code is None ==> res->Ok_0.conf.execution_exit_code == old(
                campaign,
            )@[id.0].execution_exit_code
            &&& update.state is Some ==> res->Ok_0.conf.state == update.state->Some_0
            &&& update.state is None ==> res->Ok_0.conf.state == old(campaign)@[id.0].state
            &&& res->Ok_0.conf@ == update@.applied(old(campaign)@[id.0])
            &&& !final(campaign)@.contains_key(id.0)
        },
        res is Err ==> final(campaign)@ == old(campaign)@ && res->Err_0.text()
            == "Failed to update execution: \n"@ + ("Tried to remove execution "@ + uuid_text(id.0)
            + " from cache but it was not there."@),
        other != id.0 ==> (final(campaign)@.contains_key(other) <==> old(campaign)@.contains_key(
            other,
        )) && final(campaign)@[other] == old(campaign)@[other],
{
    if res is Ok {
        assert(res->Ok_0.conf@.execution_exit_code == res->Ok_0.conf.execution_exit_code);
        assert(res->Ok_0.conf@.state == res->Ok_0.conf.state);
    }
}

/// An execution that is finished has its elements removed first, one after the other; one without
/// elements is completed at once. Nothing else of it changes.
pub proof fn known_execution_is_finished(
    campaign: &mut Campaign,
    id: ExecutionId,
    other: u128,
    res: Result<ChangeExecution, Error>,
)
    requires
        call_ensures(ChangeExecution::finish, (campaign, id), res),
    ensures
        res is Ok <==> old(campaign)@.contains_key(id.0),
        res is Ok && old(campaign)@[id.0].experiment_elements.len() > 0 ==> res->Ok_0.stage
            == ChangeStage::Remove(0) && res->Ok_0.conf@ == old(campaign)@[id.0],
        res is Ok && old(campaign)@[id.0].experiment_elements.len() == 0 ==> {
            &&& res->Ok_0.stage is Write
            &&& res->Ok_0.conf.state is Completed
            &&& res->Ok_0.conf@ == (ExecutionView {
                state: ExecutionState::Completed,
                ..old(campaign)@[id.0]
            })
        },
        res is Ok ==> !final(campaign)@.contains_key(id.0),
        res is Err ==> final(campaign)@ == old(campaign)@,
        other != id.0 ==> (final(campaign)@.contains_key(other) <==> old(campaign)@.contains_key(
            other,
        )) && final(campaign)@[other] == old(campaign)@[other],
{
    if res is Ok {
        assert(res->Ok_0.conf@.state == res->Ok_0.conf.state);
    }
}

/// Every element is removed before an execution is completed: once one was, the next one is removed,
/// and after the last one the execution is completed and written. An element that cannot be removed
/// ends the finishing.
pub proof fn every_element_is_removed(
    change: &mut ChangeExecution,
    campaign: &mut Campaign,
    done: bool,
    path: String,
    res: Step<ChangeStage, ExecutionConf>,
)
    requires
        call_ensures(ChangeExecution::step, (change, campaign, ChangeEvent::Removed(done)), res),
        call_ensures(ChangeExecution::element, (old(change),), path),
        old(change).stage is Remove,
        old(change).wf(),
    ensures
        ({
            let i = old(change).stage->Remove_0;
            let n = old(change).conf.experiment_elements.len();
            &&& path@ == path_in(
                old(change).conf.path->Some_0@,
                old(change).conf.experiment_elements@[i as int]@,
            )
            &&& done && i + 1 < n ==> {
                &&& res is Do
                &&& res->Do_0 is Remove
                &&& res->Do_0->Remove_0 == i + 1
                &&& final(change).stage == res->Do_0
                &&& final(change).conf@ == old(change).conf@
            }
            &&& done && i + 1 == n ==> {
                &&& res is Do
                &&& res->Do_0 is Write
                &&& final(change).stage is Write
                &&& final(change).conf.state is Completed
                &&& final(change).conf@ == (ExecutionView {
                    state: ExecutionState::Completed,
                    ..old(change).conf@
                })
            }
            &&& !done ==> res is Return && res->Return_0 is Err && final(change).stage is Over
                && res->Return_0->Err_0.text() == "Failed to finish execution: \n"@
                + "Failed to remote one experiment element"@
        }),
        final(campaign)@ == old(campaign)@,
{
    let elements = old(change).conf.experiment_elements;
    assert(old(change).conf@.experiment_elements.len() == elements.len());
    assert(old(change).conf@.experiment_elements[old(change).stage->Remove_0 as int] == elements@[old(
        change,
    ).stage->Remove_0 as int]@);
    assert(final(change).conf@.state == final(change).conf.state);
}

/// A change is written, then synchronized, and then the execution is kept by the campaign as it was
/// changed, and returned. Where one of these fails, the change ends with the error.
pub proof fn changed_execution_is_kept(
    change: &mut ChangeExecution,
    campaign: &mut Campaign,
    event: ChangeEvent,
    other: u128,
    res: Step<ChangeStage, ExecutionConf>,
)
    requires
        call_ensures(ChangeExecution::step, (change, campaign, event), res),
        event is Written || event is Hooked,
    ensures
        event is Written && event->Written_0 is Done ==> res is Do && res->Do_0 is Hook
            && final(change).stage is Hook,
        event is Written && !(event->Written_0 is Done) ==> res is Return && res->Return_0 is Err
            && res->Return_0->Err_0 is WriteExecution,
        event is Written ==> final(campaign)@ == old(campaign)@ && final(change).conf@ == old(
            change,
        ).conf@,
        event is Hooked ==> res is Return && (res->Return_0 is Ok <==> event->Hooked_0 is Ok),
        event is Hooked && event->Hooked_0 is Ok ==> {
            &&& res->Return_0->Ok_0@ == old(change).conf@
            &&& final(campaign)@.contains_key(old(change).conf.identifier.0)
            &&& final(campaign)@[old(change).conf.identifier.0] == old(change).conf@
            &&& other != old(change).conf.identifier.0 ==> (final(campaign)@.contains_key(other)
                <==> old(campaign)@.contains_key(other)) && final(campaign)@[other] == old(
                campaign,
            )@[other]
        },
        event is Hooked && event->Hooked_0 is Err ==> res->Return_0->Err_0 == event->Hooked_0->Err_0
            && final(campaign)@ == old(campaign)@,
{
}

/// A deletion takes the execution that has the identifier out of the campaign, and no other one.
pub proof fn known_execution_is_deleted(
    campaign: &mut Campaign,
    id: ExecutionId,
    other: u128,
    res: Result<DeleteExecution, Error>,
)
    requires
        call_ensures(DeleteExecution::start, (campaign, id), res),
    ensures
        res is Ok <==> old(campaign)@.contains_key(id.0),
        !final(campaign)@.contains_key(id.0),
        other != id.0 ==> (final(campaign)@.contains_key(other) <==> old(campaign)@.contains_key(
            other,
        )) && final(campaign)@[other] == old(campaign)@[other],
        res is Ok ==> res->Ok_0.stage is Remove && res->Ok_0.conf@ == old(campaign)@[id.0],
{
}

/// The files of an execution that is deleted are removed, then the deletion is synchronized.
pub proof fn deletion_goes_through_its_stages(
    delete: &mut DeleteExecution,
    event: DeleteEvent,
    res: Step<DeleteStage, ()>,
)
    requires
        call_ensures(DeleteExecution::step, (delete, event), res),
    ensures
        event is Removed && event->Removed_0 ==> res is Do && res->Do_0 is Hook
            && final(delete).stage is Hook,
        event is Removed && !event->Removed_0 ==> res is Return && res->Return_0 is Err
            && res->Return_0->Err_0.text() == "Failed to delete execution: \n"@
            + "Failed to remove execution files"@,
        event is Hooked ==> res is Return && res->Return_0 == event->Hooked_0,
{
}

proof fn new_folders_filtered(
    known: Seq<Seq<char>>,
    folders: Seq<Seq<char>>,
    unknown: spec_fn(Seq<char>) -> bool,
)
    requires
        forall|f: Seq<char>| #[trigger] unknown(f) == !known.contains(f),
    ensures
        new_folders(known, folders) == folders.filter(unknown),
    decreases folders.len(),
{
    reveal(Seq::filter);
    if folders.len() > 0 {
        new_folders_filtered(known, folders.drop_last(), unknown);
        assert(unknown(folders.last()) == !known.contains(folders.last()));
    }
}

/// A fetch reads the executions of all the folders that were not there before the synchronization, in
/// their order, and of no other one. It is an error if a folder vanished.
pub proof fn new_folders_are_read(
    fetch: &mut FetchExecutions,
    folders: Vec<String>,
    res: Step<FetchExecutionsStage, Vec<ExecutionConf>>,
)
    requires
        call_ensures(
            FetchExecutions::step,
            (fetch, FetchExecutionsEvent::Listed(folders)),
            res,
        ),
    ensures
        old(fetch).stage is Before ==> {
            &&& res is Do
            &&& res->Do_0 is Hook
            &&& final(fetch).stage is Hook
            &&& final(fetch).before@ == folders@
        },
        old(fetch).stage is After && (forall|i: int|
            0 <= i < old(fetch).before.len() ==> texts(folders@).contains(
                #[trigger] texts(old(fetch).before@)[i],
            )) ==> {
            &&& texts(final(fetch).added@) == texts(folders@).filter(
                |f: Seq<char>| !texts(old(fetch).before@).contains(f),
            )
            &&& final(fetch).added.len() > 0 ==> res is Do && res->Do_0
                == FetchExecutionsStage::Read(0)
            &&& final(fetch).added.len() == 0 ==> res is Return && res->Return_0 is Ok
        },
        old(fetch).stage is After && (exists|i: int|
            0 <= i < old(fetch).before.len() && !texts(folders@).contains(
                #[trigger] texts(old(fetch).before@)[i],
            )) ==> res is Return && res->Return_0 is Err && res->Return_0->Err_0.text()
            == "Failed to fetch executions: \n"@
            + "Some executions existed before fetch but not after"@,
{
    let known = texts(old(fetch).before@);
    new_folders_filtered(known, texts(folders@), |f: Seq<char>| !known.contains(f));
}

/// Each execution that is read is put behind those that were read before it, with its folder for its
/// path; after the last one they are returned.
pub proof fn executions_are_read_one_by_one(
    fetch: &mut FetchExecutions,
    conf: ExecutionConf,
    path: String,
    res: Step<FetchExecutionsStage, Vec<ExecutionConf>>,
)
    requires
        call_ensures(
            FetchExecutions::step,
            (fetch, FetchExecutionsEvent::Read(Loaded::Value(conf))),
            res,
        ),
        call_ensures(FetchExecutions::conf_path, (old(fetch),), path),
        old(fetch).stage is Read,
        old(fetch).wf(),
    ensures
        ({
            let i = old(fetch).stage->Read_0;
            let n = old(fetch).added.len();
            let read = ExecutionView { path: Some(old(fetch).added@[i as int]@), ..conf@ };
            &&& path@ == path_in(old(fetch).added@[i as int]@, ".excconf"@)
            &&& i + 1 < n ==> {
                &&& res is Do
                &&& res->Do_0 == FetchExecutionsStage::Read((i + 1) as usize)
                &&& execution_views(final(fetch).fetched@) == execution_views(
                    old(fetch).fetched@,
                ).push(read)
            }
            &&& i + 1 == n ==> {
                &&& res is Return
                &&& res->Return_0 is Ok
                &&& execution_views(res->Return_0->Ok_0@) == execution_views(
                    old(fetch).fetched@,
                ).push(read)
            }
        }),
{
}

/// The executions that are listed are those of the campaign: every one of them, and no other one.
pub proof fn every_execution_is_listed(
    campaign: Campaign,
    id: u128,
    i: int,
    res: Vec<ExecutionConf>,
)
    requires
        call_ensures(Campaign::get_executions, (&campaign,), res),
    ensures
        campaign@.contains_key(id) ==> execution_views(res@).contains(campaign@[id]),
        0 <= i < res.len() ==> campaign@.contains_key(res@[i].identifier.0) && res@[i]@
            == campaign@[res@[i].identifier.0],
        res.len() == campaign@.dom().len(),
{
    if campaign@.contains_key(id) {
        let k = choose|k: int| 0 <= k < res.len() && (#[trigger] res@[k])@ == campaign@[id];
        assert(execution_views(res@)[k] == campaign@[id]);
    }
}

/// The folders are listed again once the synchronization succeeded; where it fails, or an execution
/// cannot be read, the fetching ends with the error.
pub proof fn fetch_of_executions_goes_on(
    fetch: &mut FetchExecutions,
    event: FetchExecutionsEvent,
    res: Step<FetchExecutionsStage, Vec<ExecutionConf>>,
)
    requires
        call_ensures(FetchExecutions::step, (fetch, event), res),
    ensures
        event is Hooked && event->Hooked_0 is Ok ==> {
            &&& res is Do
            &&& res->Do_0 is After
            &&& final(fetch).stage is After
            &&& final(fetch).before@ == old(fetch).before@
        },
        event is Hooked && event->Hooked_0 is Err ==> res is Return && res->Return_0 is Err
            && res->Return_0->Err_0 == event->Hooked_0->Err_0,
        event is Read && !(event->Read_0 is Value) ==> res is Return && res->Return_0 is Err
            && res->Return_0->Err_0 is ReadExecution,
{
}

} // verus!
