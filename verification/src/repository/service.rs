//! A repository service: operations on a repository are queued, performed one after the other by a
//! thread, and awaited by futures. The executions are kept in the files of the repository, and in a
//! cache that follows them.
use std::collections::HashMap;
use vstd::prelude::*;
#[allow(unused_imports)]
use vstd::std_specs::iter::IteratorSpec;
#[allow(unused_imports)]
use vstd::string::*;
use crate::commons::Loaded;
use crate::repository::{
    ExecutionId, ExecutionParameters, ExecutionTag, ExperimentCommit, copy_tags,
};
#[allow(unused_imports)]
use crate::repository::{replaced_by, tag_texts, uuid_text};
use crate::ssh::config::clone_option;
#[allow(unused_imports)]
use crate::text::{cat, cat3, copies, opt_text, path_in, path_join, same, texts};
use crate::{DATA_RPATH, EXCCONF_RPATH, EXCS_RPATH, XPRP_RPATH};
#[allow(unused_imports)]
use crate::repository::same_text;

verus! {

broadcast use vstd::std_specs::hash::group_hash_axioms;

//---------------------------------------------------------------------------------------- ERRORS
#[derive(Debug)]
pub enum Error {
    NotARepo,
    AlreadyRepo,
    InvalidRepo,
    InvalidExpeCommit,
    NoOutputAvailable,
    ChannelBroken(String),
    FetchExperiment(String),
    CreateExecution(String),
    UpdateExecution(String),
    FinishExecution(String),
    FetchExecutions(String),
    DeleteExecution(String),
    ReadExecution,
    WriteExecution,
    ReadCampaign,
    WriteCampaign,
    WrongPath,
    NoFFPossible,
    Unknown,
}

impl Error {
    /// The characters of the text of the error.
    pub open spec fn text(&self) -> Seq<char> {
        match self {
            Error::NotARepo => "Not a expegit repository"@,
            Error::AlreadyRepo => "Already an expegit repository"@,
            Error::InvalidRepo => "Invalid expegit repository"@,
            Error::InvalidExpeCommit => "Invalid experiment commit"@,
            Error::NoOutputAvailable => "No output was available"@,
            Error::ChannelBroken(s) => "Communication channel broken: "@ + s@,
            Error::FetchExperiment(s) => "Failed to fetch experiment: "@ + s@,
            Error::CreateExecution(s) => "Failed to create execution: "@ + s@,
            Error::UpdateExecution(s) => "Failed to update execution: "@ + s@,
            Error::FinishExecution(s) => "Failed to finish execution: "@ + s@,
            Error::FetchExecutions(s) => "Failed to fetch executions: "@ + s@,
            Error::DeleteExecution(s) => "Failed to delete execution: "@ + s@,
            Error::ReadExecution => "Failed to read execution from file"@,
            Error::WriteExecution => "Failed to write execution from file"@,
            Error::ReadCampaign => "Failed to read campaign from file"@,
            Error::WriteCampaign => "Failed to write campaign from file"@,
            Error::WrongPath => "Something went wrong with a path"@,
            Error::NoFFPossible => "Couldn't perform fast-forward pull"@,
            Error::Unknown => "Unknown error occurred"@,
        }
    }

    /// The text of the error.
    pub fn message(&self) -> (res: String)
        ensures
            res@ == self.text(),
    {
        match self {
            Error::NotARepo => "Not a expegit repository".to_owned(),
            Error::AlreadyRepo => "Already an expegit repository".to_owned(),
            Error::InvalidRepo => "Invalid expegit repository".to_owned(),
            Error::InvalidExpeCommit => "Invalid experiment commit".to_owned(),
            Error::NoOutputAvailable => "No output was available".to_owned(),
            Error::ChannelBroken(s) => cat("Communication channel broken: ", s.as_str()),
            Error::FetchExperiment(s) => cat("Failed to fetch experiment: ", s.as_str()),
            Error::CreateExecution(s) => cat("Failed to create execution: ", s.as_str()),
            Error::UpdateExecution(s) => cat("Failed to update execution: ", s.as_str()),
            Error::FinishExecution(s) => cat("Failed to finish execution: ", s.as_str()),
            Error::FetchExecutions(s) => cat("Failed to fetch executions: ", s.as_str()),
            Error::DeleteExecution(s) => cat("Failed to delete execution: ", s.as_str()),
            Error::ReadExecution => "Failed to read execution from file".to_owned(),
            Error::WriteExecution => "Failed to write execution from file".to_owned(),
            Error::ReadCampaign => "Failed to read campaign from file".to_owned(),
            Error::WriteCampaign => "Failed to write campaign from file".to_owned(),
            Error::WrongPath => "Something went wrong with a path".to_owned(),
            Error::NoFFPossible => "Couldn't perform fast-forward pull".to_owned(),
            Error::Unknown => "Unknown error occurred".to_owned(),
        }
    }
}

impl Clone for Error {
    fn clone(&self) -> (res: Error)
        ensures
            res == *self,
    {
        match self {
            Error::NotARepo => Error::NotARepo,
            Error::AlreadyRepo => Error::AlreadyRepo,
            Error::InvalidRepo => Error::InvalidRepo,
            Error::InvalidExpeCommit => Error::InvalidExpeCommit,
            Error::NoOutputAvailable => Error::NoOutputAvailable,
            Error::ChannelBroken(s) => Error::ChannelBroken(s.clone()),
            Error::FetchExperiment(s) => Error::FetchExperiment(s.clone()),
            Error::CreateExecution(s) => Error::CreateExecution(s.clone()),
            Error::UpdateExecution(s) => Error::UpdateExecution(s.clone()),
            Error::FinishExecution(s) => Error::FinishExecution(s.clone()),
            Error::FetchExecutions(s) => Error::FetchExecutions(s.clone()),
            Error::DeleteExecution(s) => Error::DeleteExecution(s.clone()),
            Error::ReadExecution => Error::ReadExecution,
            Error::WriteExecution => Error::WriteExecution,
            Error::ReadCampaign => Error::ReadCampaign,
            Error::WriteCampaign => Error::WriteCampaign,
            Error::WrongPath => Error::WrongPath,
            Error::NoFFPossible => Error::NoFFPossible,
            Error::Unknown => Error::Unknown,
        }
    }
}

//------------------------------------------------------------------------------- SYNCHRONIZATION
/// The mechanisms that can be used to synchronize a repository.
#[derive(Clone, Copy, Debug, PartialEq, Eq, Structural)]
pub enum Synchronizer {
    Null,
}

impl Synchronizer {
    /// Hook called after the repository was initialized.
    pub fn init_repository_hook(&self, cmp: &CampaignConf) -> (res: Result<(), Error>)
        ensures
            res == Ok::<(), Error>(()),
    {
        match self {
            Synchronizer::Null => Ok(()),
        }
    }

    /// Hook called after the experiment was fetched.
    pub fn fetch_experiment_hook(&self, cmp: &CampaignConf) -> (res: Result<(), Error>)
        ensures
            res == Ok::<(), Error>(()),
    {
        match self {
            Synchronizer::Null => Ok(()),
        }
    }

    /// Hook called after an execution was created.
    pub fn create_execution_hook(&self, exc: &ExecutionConf) -> (res: Result<(), Error>)
        ensures
            res == Ok::<(), Error>(()),
    {
        match self {
            Synchronizer::Null => Ok(()),
        }
    }

    /// Hook called after an execution was updated.
    pub fn update_execution_hook(&self, exc: &ExecutionConf) -> (res: Result<(), Error>)
        ensures
            res == Ok::<(), Error>(()),
    {
        match self {
            Synchronizer::Null => Ok(()),
        }
    }

    /// Hook called after the execution was reset.
    pub fn reset_execution_hook(&self, exc: &ExecutionConf) -> (res: Result<(), Error>)
        ensures
            res == Ok::<(), Error>(()),
    {
        match self {
            Synchronizer::Null => Ok(()),
        }
    }

    /// Hook called after the execution was finished.
    pub fn finish_execution_hook(&self, exc: &ExecutionConf) -> (res: Result<(), Error>)
        ensures
            res == Ok::<(), Error>(()),
    {
        match self {
            Synchronizer::Null => Ok(()),
        }
    }

    /// Hook called after the executions were fetched.
    pub fn fetch_executions_hook(&self, cmp: &CampaignConf) -> (res: Result<(), Error>)
        ensures
            res == Ok::<(), Error>(()),
    {
        match self {
            Synchronizer::Null => Ok(()),
        }
    }
}

//-------------------------------------------------------------------------------- CONFIGURATIONS
/// Represents the configuration of a campaign repository.
#[derive(Debug)]
pub struct CampaignConf {
    pub path: Option<String>,
    pub synchronizer: Synchronizer,
    pub version: String,
}

impl Clone for CampaignConf {
    fn clone(&self) -> (res: CampaignConf)
        ensures
            res == *self,
    {
        CampaignConf {
            path: clone_option(&self.path),
            synchronizer: self.synchronizer,
            version: self.version.clone(),
        }
    }
}

impl CampaignConf {
    /// The configuration of a new campaign.
    pub fn new(local_path: &str, version: &str) -> (res: CampaignConf)
        ensures
            opt_text(res.path) == Some(local_path@),
            res.synchronizer == Synchronizer::Null,
            res.version@ == version@,
    {
        CampaignConf {
            path: Some(local_path.to_owned()),
            synchronizer: Synchronizer::Null,
            version: version.to_owned(),
        }
    }

    /// The configuration that a file of the given folder held: its path is the folder.
    pub fn from_file(folder: &str, read: CampaignConf) -> (res: CampaignConf)
        ensures
            opt_text(res.path) == Some(folder@),
            res.synchronizer == read.synchronizer,
            res.version == read.version,
    {
        CampaignConf {
            path: Some(folder.to_owned()),
            synchronizer: read.synchronizer,
            version: read.version,
        }
    }

    /// What is written to a file: the configuration, without its path.
    pub fn to_file(&self) -> (res: CampaignConf)
        ensures
            res.path is None,
            res.synchronizer == self.synchronizer,
            res.version == self.version,
    {
        CampaignConf {
            path: None,
            synchronizer: self.synchronizer,
            version: self.version.clone(),
        }
    }

    /// The root path of the campaign.
    pub open spec fn root(&self) -> Seq<char> {
        self.path->Some_0@
    }

    /// Returns the root path of the campaign.
    pub fn get_path(&self) -> (res: String)
        requires
            self.path is Some,
        ensures
            res@ == self.root(),
    {
        match &self.path {
            Some(path) => path.clone(),
            None => vstd::pervasive::unreached(),
        }
    }

    /// Returns the path to the experiment repository.
    pub fn get_experiment_path(&self) -> (res: String)
        requires
            self.path is Some,
        ensures
            res@ == path_in(self.root(), XPRP_RPATH@),
    {
        path_join(self.get_path().as_str(), XPRP_RPATH)
    }

    /// Returns the path to the executions.
    pub fn get_executions_path(&self) -> (res: String)
        requires
            self.path is Some,
        ensures
            res@ == path_in(self.root(), EXCS_RPATH@),
    {
        path_join(self.get_path().as_str(), EXCS_RPATH)
    }

    /// The path to the folder of an execution.
    pub open spec fn execution_folder(&self, id: u128) -> Seq<char> {
        path_in(path_in(self.root(), EXCS_RPATH@), uuid_text(id))
    }

    /// The path to the configuration file of an execution.
    pub open spec fn execution_file(&self, id: u128) -> Seq<char> {
        path_in(self.execution_folder(id), EXCCONF_RPATH@)
    }

    /// Returns the path to the folder of an execution.
    pub fn get_execution_path(&self, id: ExecutionId) -> (res: String)
        requires
            self.path is Some,
        ensures
            res@ == self.execution_folder(id.0),
    {
        path_join(self.get_executions_path().as_str(), id.show().as_str())
    }

    /// Returns the path to the configuration file of an execution.
    pub fn get_execution_conf_path(&self, id: ExecutionId) -> (res: String)
        requires
            self.path is Some,
        ensures
            res@ == self.execution_file(id.0),
    {
        path_join(self.get_execution_path(id).as_str(), EXCCONF_RPATH)
    }

    /// How the campaign is shown.
    pub fn show(&self) -> (res: String)
        requires
            self.path is Some,
        ensures
            res@ == "Campaign<["@ + self.root() + "]>"@,
    {
        cat3("Campaign<[", self.get_path().as_str(), "]>")
    }
}

/// What is written to a file is read back from it, with the folder of the file for its path. So a
/// campaign that is written to its own folder is read back as it was.
pub proof fn campaign_write_then_read(
    conf: CampaignConf,
    written: CampaignConf,
    folder: &str,
    read: CampaignConf,
)
    requires
        call_ensures(CampaignConf::to_file, (&conf,), written),
        call_ensures(CampaignConf::from_file, (folder, written), read),
    ensures
        opt_text(read.path) == Some(folder@),
        read.synchronizer == conf.synchronizer,
        read.version == conf.version,
        opt_text(conf.path) == Some(folder@) ==> opt_text(read.path) == opt_text(conf.path),
{
}

/// Represents the possible states of an execution.
#[derive(Clone, Copy, Debug, PartialEq, Eq, Structural)]
pub enum ExecutionState {
    Initialized,
    Interrupted,
    Finished,
    Hazard,
}

impl ExecutionState {
    /// The state that a word names. A word that names none is a hazard.
    pub fn from_word(word: &str) -> (res: ExecutionState)
        ensures
            res == (if word@ == "initialized"@ {
                ExecutionState::Initialized
            } else if word@ == "interrupted"@ {
                ExecutionState::Interrupted
            } else if word@ == "finished"@ {
                ExecutionState::Finished
            } else {
                ExecutionState::Hazard
            }),
    {
        if same(word, "initialized") {
            ExecutionState::Initialized
        } else if same(word, "interrupted") {
            ExecutionState::Interrupted
        } else if same(word, "finished") {
            ExecutionState::Finished
        } else {
            ExecutionState::Hazard
        }
    }

    /// How the state is shown.
    pub fn show(&self) -> (res: String)
        ensures
            res@ == match self {
                ExecutionState::Initialized => "Initialized"@,
                ExecutionState::Interrupted => "Interrupted"@,
                ExecutionState::Finished => "Finished"@,
                ExecutionState::Hazard => "Hazard"@,
            },
    {
        match self {
            ExecutionState::Initialized => "Initialized".to_owned(),
            ExecutionState::Interrupted => "Interrupted".to_owned(),
            ExecutionState::Finished => "Finished".to_owned(),
            ExecutionState::Hazard => "Hazard".to_owned(),
        }
    }
}

/// Represents the configuration and results of an execution of the experiment. The fitness is held
/// by the bits of its floating point notation.
#[derive(Debug)]
pub struct ExecutionConf {
    pub identifier: ExecutionId,
    pub path: Option<String>,
    pub commit: ExperimentCommit,
    pub parameters: ExecutionParameters,
    pub state: ExecutionState,
    pub experiment_elements: Vec<String>,
    pub executor: Option<String>,
    pub execution_date: Option<String>,
    pub execution_duration: Option<u32>,
    pub execution_stdout: Option<String>,
    pub execution_stderr: Option<String>,
    pub execution_exit_code: Option<u32>,
    pub execution_fitness: Option<u64>,
    pub generator: String,
    pub generation_date: String,
    pub tags: Vec<ExecutionTag>,
}

/// What the configuration of an execution holds.
pub ghost struct ExecutionView {
    pub identifier: u128,
    pub path: Option<Seq<char>>,
    pub commit: Seq<char>,
    pub parameters: Seq<char>,
    pub state: ExecutionState,
    pub experiment_elements: Seq<Seq<char>>,
    pub executor: Option<Seq<char>>,
    pub execution_date: Option<Seq<char>>,
    pub execution_duration: Option<u32>,
    pub execution_stdout: Option<Seq<char>>,
    pub execution_stderr: Option<Seq<char>>,
    pub execution_exit_code: Option<u32>,
    pub execution_fitness: Option<u64>,
    pub generator: Seq<char>,
    pub generation_date: Seq<char>,
    pub tags: Seq<Seq<char>>,
}

impl View for ExecutionConf {
    type V = ExecutionView;

    open spec fn view(&self) -> ExecutionView {
        ExecutionView {
            identifier: self.identifier.0,
            path: opt_text(self.path),
            commit: self.commit.0@,
            parameters: self.parameters.0@,
            state: self.state,
            experiment_elements: texts(self.experiment_elements@),
            executor: opt_text(self.executor),
            execution_date: opt_text(self.execution_date),
            execution_duration: self.execution_duration,
            execution_stdout: opt_text(self.execution_stdout),
            execution_stderr: opt_text(self.execution_stderr),
            execution_exit_code: self.execution_exit_code,
            execution_fitness: self.execution_fitness,
            generator: self.generator@,
            generation_date: self.generation_date@,
            tags: tag_texts(self.tags@),
        }
    }
}

impl Clone for ExecutionConf {
    fn clone(&self) -> (res: ExecutionConf)
        ensures
            res@ == self@,
    {
        ExecutionConf {
            identifier: self.identifier,
            path: clone_option(&self.path),
            commit: self.commit.clone(),
            parameters: self.parameters.clone(),
            state: self.state,
            experiment_elements: copies(&self.experiment_elements),
            executor: clone_option(&self.executor),
            execution_date: clone_option(&self.execution_date),
            execution_duration: self.execution_duration,
            execution_stdout: clone_option(&self.execution_stdout),
            execution_stderr: clone_option(&self.execution_stderr),
            execution_exit_code: self.execution_exit_code,
            execution_fitness: self.execution_fitness,
            generator: self.generator.clone(),
            generation_date: self.generation_date.clone(),
            tags: copy_tags(&self.tags),
        }
    }
}

impl ExecutionConf {
    /// What is written to a file: the configuration, without its path.
    pub fn to_file(&self) -> (res: ExecutionConf)
        ensures
            res@ == (ExecutionView { path: None, ..self@ }),
    {
        let mut res = self.clone();
        res.path = None;
        res
    }

    /// The configuration that was read from a file of the given folder, which is its path, or what
    /// is said of a failure.
    pub fn from_file(folder: &str, read: Loaded<ExecutionConf>) -> (res: Result<
        ExecutionConf,
        Error,
    >)
        ensures
            match read {
                Loaded::Value(conf) => {
                    &&& res is Ok
                    &&& res->Ok_0@ == ExecutionView { path: Some(folder@), ..conf@ }
                },
                _ => res == Err::<ExecutionConf, Error>(Error::ReadExecution),
            },
    {
        match read {
            Loaded::Value(conf) => {
                let mut conf = conf;
                conf.path = Some(folder.to_owned());
                Ok(conf)
            },
            _ => Err(Error::ReadExecution),
        }
    }

    /// Returns the root path of the execution.
    pub fn get_path(&self) -> (res: String)
        requires
            self.path is Some,
        ensures
            Some(res@) == self@.path,
    {
        match &self.path {
            Some(path) => path.clone(),
            None => vstd::pervasive::unreached(),
        }
    }

    /// How the execution is shown.
    pub fn show(&self) -> (res: String)
        ensures
            res@ == "Execution<ExecutionId("@ + uuid_text(self.identifier.0) + ")>"@,
    {
        cat3("Execution<ExecutionId(", self.identifier.show().as_str(), ")>")
    }

    /// Returns the path to the data folder.
    pub fn get_data_path(&self) -> (res: String)
        requires
            self.path is Some,
        ensures
            res@ == path_in(self@.path->Some_0, DATA_RPATH@),
    {
        path_join(self.get_path().as_str(), DATA_RPATH)
    }
}

/// What is written to a file is read back from it, with the folder of the file for its path. So an
/// execution that is written to its own folder is read back as it was.
pub proof fn execution_write_then_read(
    conf: ExecutionConf,
    written: ExecutionConf,
    folder: &str,
    read: Result<ExecutionConf, Error>,
)
    requires
        call_ensures(ExecutionConf::to_file, (&conf,), written),
        call_ensures(ExecutionConf::from_file, (folder, Loaded::Value(written)), read),
    ensures
        read is Ok,
        read->Ok_0@ == (ExecutionView { path: Some(folder@), ..conf@ }),
        conf@.path == Some(folder@) ==> read->Ok_0@ == conf@,
{
}

/// Represents the update of an execution.
#[derive(Debug)]
pub struct ExecutionUpdate {
    pub executor: Option<String>,
    pub execution_date: Option<String>,
    pub execution_duration: Option<u32>,
    pub execution_stdout: Option<String>,
    pub execution_stderr: Option<String>,
    pub execution_exit_code: Option<u32>,
    pub execution_fitness: Option<u64>,
}

impl Clone for ExecutionUpdate {
    fn clone(&self) -> (res: ExecutionUpdate)
        ensures
            res == *self,
    {
        ExecutionUpdate {
            executor: clone_option(&self.executor),
            execution_date: clone_option(&self.execution_date),
            execution_duration: self.execution_duration,
            execution_stdout: clone_option(&self.execution_stdout),
            execution_stderr: clone_option(&self.execution_stderr),
            execution_exit_code: self.execution_exit_code,
            execution_fitness: self.execution_fitness,
        }
    }
}

impl ExecutionUpdate {
    /// The execution after the update: what the update sets is replaced, and nothing else.
    pub open spec fn applied(&self, conf: ExecutionView) -> ExecutionView {
        ExecutionView {
            executor: replaced_by(conf.executor, opt_text(self.executor)),
            execution_date: replaced_by(conf.execution_date, opt_text(self.execution_date)),
            execution_duration: replaced_by(conf.execution_duration, self.execution_duration),
            execution_stdout: replaced_by(conf.execution_stdout, opt_text(self.execution_stdout)),
            execution_stderr: replaced_by(conf.execution_stderr, opt_text(self.execution_stderr)),
            execution_exit_code: replaced_by(conf.execution_exit_code, self.execution_exit_code),
            execution_fitness: replaced_by(conf.execution_fitness, self.execution_fitness),
            ..conf
        }
    }

    /// Consumes the update and an execution to generate a new execution.
    pub fn apply(self, conf: ExecutionConf) -> (res: ExecutionConf)
        ensures
            res@ == self.applied(conf@),
    {
        let mut conf = conf;
        if let Some(s) = self.executor {
            conf.executor = Some(s);
        }
        if let Some(s) = self.execution_date {
            conf.execution_date = Some(s);
        }
        if let Some(s) = self.execution_duration {
            conf.execution_duration = Some(s);
        }
        if let Some(s) = self.execution_stdout {
            conf.execution_stdout = Some(s);
        }
        if let Some(s) = self.execution_stderr {
            conf.execution_stderr = Some(s);
        }
        if let Some(s) = self.execution_exit_code {
            conf.execution_exit_code = Some(s);
        }
        if let Some(s) = self.execution_fitness {
            conf.execution_fitness = Some(s);
        }
        conf
    }
}

/// An update does the same once or twice, and keeps the identifier, the state and what the execution
/// was made from.
pub proof fn update_laws(update: ExecutionUpdate, conf: ExecutionView)
    ensures
        update.applied(update.applied(conf)) == update.applied(conf),
        ({
            let after = update.applied(conf);
            &&& after.identifier == conf.identifier
            &&& after.path == conf.path
            &&& after.state == conf.state
            &&& after.commit == conf.commit
            &&& after.parameters == conf.parameters
            &&& after.experiment_elements == conf.experiment_elements
            &&& after.tags == conf.tags
        }),
{
}

//----------------------------------------------------------------------------------------- CACHE
/// Messages handled by the execution cache.
#[derive(Debug)]
pub enum ExecutionsCacheMessage {
    New(ExecutionId, ExecutionConf),
    Update(ExecutionId, ExecutionConf),
    Delete(ExecutionId),
}

/// The executions by identifier, as the messages tell of them.
pub struct ExecutionsCache {
    pub executions: HashMap<u128, ExecutionConf>,
}

impl View for ExecutionsCache {
    type V = Map<u128, ExecutionView>;

    open spec fn view(&self) -> Map<u128, ExecutionView> {
        Map::new(|id: u128| self.executions@.contains_key(id), |id: u128| self.executions@[id]@)
    }
}

/// The executions of a sequence, by identifier. Of two with the same one, the later one is kept.
pub open spec fn by_identifier(executions: Seq<ExecutionConf>) -> Map<u128, ExecutionView>
    decreases executions.len(),
{
    if executions.len() == 0 {
        Map::empty()
    } else {
        by_identifier(executions.drop_last()).insert(
            executions.last().identifier.0,
            executions.last()@,
        )
    }
}

/// Whether the executions are listed under the identifiers, each of them once.
pub open spec fn is_listed_under(
    cache: Map<u128, ExecutionView>,
    listed: Seq<ExecutionConf>,
    ids: Seq<u128>,
) -> bool {
    &&& ids.no_duplicates()
    &&& forall|id: u128| #[trigger] cache.contains_key(id) <==> ids.contains(id)
    &&& listed.len() == ids.len()
    &&& forall|i: int| 0 <= i < listed.len() ==> (#[trigger] listed[i])@ == cache[ids[i]]
}

/// Whether each execution is listed once, in whatever order.
pub open spec fn lists_each(cache: Map<u128, ExecutionView>, listed: Seq<ExecutionConf>) -> bool {
    exists|ids: Seq<u128>| is_listed_under(cache, listed, ids)
}

/// What the cache holds after a message.
pub open spec fn after_message(
    cache: Map<u128, ExecutionView>,
    message: ExecutionsCacheMessage,
) -> Map<u128, ExecutionView> {
    match message {
        ExecutionsCacheMessage::New(id, conf) => cache.insert(id.0, conf@),
        ExecutionsCacheMessage::Update(id, conf) => cache.insert(id.0, conf@),
        ExecutionsCacheMessage::Delete(id) => cache.remove(id.0),
    }
}

impl ExecutionsCache {
    /// Whether the cache can handle the message: what is updated or deleted is there.
    pub open spec fn handles(&self, message: ExecutionsCacheMessage) -> bool {
        match message {
            ExecutionsCacheMessage::New(_, _) => true,
            ExecutionsCacheMessage::Update(id, _) => self@.contains_key(id.0),
            ExecutionsCacheMessage::Delete(id) => self@.contains_key(id.0),
        }
    }

    /// Tells whether an execution is in the cache.
    pub fn contains(&self, id: ExecutionId) -> (res: bool)
        ensures
            res == self@.contains_key(id.0),
    {
        self.executions.get(&id.0).is_some()
    }

    /// Creates a new cache that holds the executions.
    pub fn new(existing_executions: Vec<ExecutionConf>) -> (res: ExecutionsCache)
        ensures
            res@ == by_identifier(existing_executions@),
    {
        let mut res = ExecutionsCache { executions: HashMap::new() };
        let mut i: usize = 0;
        assert(res@ =~= by_identifier(existing_executions@.take(0)));
        while i < existing_executions.len()
            invariant
                i <= existing_executions.len(),
                res@ == by_identifier(existing_executions@.take(i as int)),
            decreases existing_executions.len() - i,
        {
            assert(existing_executions@.take(i + 1).drop_last() =~= existing_executions@.take(
                i as int,
            ));
            let ghost before = res@;
            let conf = existing_executions[i].clone();
            let ghost kept = conf@;
            let id: u128 = conf.identifier.0;
            res.executions.insert(id, conf);
            assert(res@ =~= before.insert(id, kept));
            i = i + 1;
        }
        assert(existing_executions@.take(i as int) =~= existing_executions@);
        res
    }

    /// Handles a message.
    pub fn handle(&mut self, message: ExecutionsCacheMessage)
        requires
            old(self).handles(message),
        ensures
            final(self)@ == after_message(old(self)@, message),
    {
        let ghost before = self@;
        match message {
            ExecutionsCacheMessage::New(id, conf) => {
                let ghost kept = conf@;
                self.executions.insert(id.0, conf);
                assert(self@ =~= before.insert(id.0, kept));
            },
            ExecutionsCacheMessage::Update(id, conf) => {
                let ghost kept = conf@;
                self.executions.remove(&id.0);
                self.executions.insert(id.0, conf);
                assert(self@ =~= before.insert(id.0, kept));
            },
            ExecutionsCacheMessage::Delete(id) => {
                self.executions.remove(&id.0);
                assert(self@ =~= before.remove(id.0));
            },
        }
    }

    /// Retrieves the executions from the cache: each of them once, in no particular order.
    pub fn get_executions(&self) -> (res: Vec<ExecutionConf>)
        ensures
            lists_each(self@, res@),
            res.len() == self@.dom().len(),
    {
        let mut res: Vec<ExecutionConf> = Vec::new();
        let ghost entries = self.executions.iter().remaining();
        let ghost ids = Seq::new(entries.len(), |i: int| *entries[i].0);
        assert(self@.dom() =~= self.executions@.dom());
        for entry in it: self.executions.iter()
            invariant
                it.seq() == entries,
                res.len() == it.index(),
                entries == vstd::std_specs::hash::spec_hash_map_iter(&self.executions).remaining(),
                entries.no_duplicates(),
                forall|i: int|
                    0 <= i < res.len() ==> (#[trigger] res@[i])@ == entries[i].1@
                        && self.executions@.contains_key(*entries[i].0)
                        && self.executions@[*entries[i].0] == *entries[i].1,
        {
            let (_, conf) = entry;
            assert(self.executions@.contains_key(*entries[it.index() as int].0));
            res.push(conf.clone());
        }
        assert forall|i: int, j: int|
            0 <= i < ids.len() && 0 <= j < ids.len() && i != j implies ids[i] != ids[j] by {
            assert(res@[i]@ == entries[i].1@ && res@[j]@ == entries[j].1@);
            assert(entries[i] != entries[j]);
        }
        assert forall|id: u128| #[trigger] self@.contains_key(id) <==> ids.contains(id) by {
            if self@.contains_key(id) {
                assert(entries.contains((&id, &self.executions@[id])));
                let i = choose|i: int|
                    0 <= i < entries.len() && entries[i] == (&id, &self.executions@[id]);
                assert(ids[i] == id);
            }
            if ids.contains(id) {
                let i = choose|i: int| 0 <= i < ids.len() && ids[i] == id;
                assert(res@[i]@ == entries[i].1@);
            }
        }
        assert(is_listed_under(self@, res@, ids));
        res
    }
}

/// The last message that speaks of an execution decides what the cache holds of it, and the others
/// are as they were.
pub proof fn cache_follows_messages(
    cache: Map<u128, ExecutionView>,
    id: ExecutionId,
    conf: ExecutionConf,
    other: u128,
)
    ensures
        after_message(cache, ExecutionsCacheMessage::New(id, conf)).contains_pair(id.0, conf@),
        after_message(cache, ExecutionsCacheMessage::Update(id, conf)).contains_pair(id.0, conf@),
        !after_message(cache, ExecutionsCacheMessage::Delete(id)).contains_key(id.0),
        other != id.0 && cache.contains_key(other) ==> {
            &&& after_message(cache, ExecutionsCacheMessage::New(id, conf)).contains_pair(
                other,
                cache[other],
            )
            &&& after_message(cache, ExecutionsCacheMessage::Update(id, conf)).contains_pair(
                other,
                cache[other],
            )
            &&& after_message(cache, ExecutionsCacheMessage::Delete(id)).contains_pair(
                other,
                cache[other],
            )
        },
{
}

//------------------------------------------------------------------------------------------ LAWS
/// Whether two executions were made from the same.
pub open spec fn same_making(a: ExecutionConf, b: ExecutionConf) -> bool {
    &&& a.identifier == b.identifier
    &&& a.commit.0@ == b.commit.0@
    &&& a.parameters.0@ == b.parameters.0@
    &&& texts(a.experiment_elements@) == texts(b.experiment_elements@)
    &&& a.generator@ == b.generator@
    &&& a.generation_date@ == b.generation_date@
    &&& tag_texts(a.tags@) == tag_texts(b.tags@)
}

/// Whether two executions have the same results.
pub open spec fn same_results(a: ExecutionConf, b: ExecutionConf) -> bool {
    &&& a.state == b.state
    &&& a.execution_duration == b.execution_duration
    &&& a.execution_exit_code == b.execution_exit_code
    &&& a.execution_fitness == b.execution_fitness
    &&& same_text(a.executor, b.executor)
    &&& same_text(a.execution_date, b.execution_date)
    &&& same_text(a.execution_stdout, b.execution_stdout)
    &&& same_text(a.execution_stderr, b.execution_stderr)
}

/// An update sets what it holds, each value in its own place, and leaves everything else as it was.
pub proof fn update_sets_what_it_holds(
    update: ExecutionUpdate,
    conf: ExecutionConf,
    res: ExecutionConf,
)
    requires
        call_ensures(ExecutionUpdate::apply, (update, conf), res),
    ensures
        update.execution_duration is Some ==> res.execution_duration == update.execution_duration,
        update.execution_duration is None ==> res.execution_duration == conf.execution_duration,
        update.execution_exit_code is Some ==> res.execution_exit_code == update.execution_exit_code,
        update.execution_exit_code is None ==> res.execution_exit_code == conf.execution_exit_code,
        update.execution_fitness is Some ==> res.execution_fitness == update.execution_fitness,
        update.execution_fitness is None ==> res.execution_fitness == conf.execution_fitness,
        update.executor is Some ==> res.executor is Some && res.executor->Some_0@
            == update.executor->Some_0@,
        update.executor is None ==> same_text(res.executor, conf.executor),
        update.execution_date is Some ==> res.execution_date is Some && res.execution_date->Some_0@
            == update.execution_date->Some_0@,
        update.execution_date is None ==> same_text(res.execution_date, conf.execution_date),
        update.execution_stdout is Some ==> res.execution_stdout is Some && res.execution_stdout->Some_0@
            == update.execution_stdout->Some_0@,
        update.execution_stdout is None ==> same_text(res.execution_stdout, conf.execution_stdout),
        update.execution_stderr is Some ==> res.execution_stderr is Some && res.execution_stderr->Some_0@
            == update.execution_stderr->Some_0@,
        update.execution_stderr is None ==> same_text(res.execution_stderr, conf.execution_stderr),
        res.state == conf.state,
        same_making(res, conf),
        same_text(res.path, conf.path),
{
    let before = conf@;
    let after = res@;
    assert(after == update.applied(before));
    assert(after.commit == before.commit && after.parameters == before.parameters);
    assert(after.experiment_elements == before.experiment_elements);
    assert(after.generator == before.generator && after.tags == before.tags);
    assert(after.generation_date == before.generation_date);
    assert(after.executor == replaced_by(before.executor, opt_text(update.executor)));
    assert(after.execution_date == replaced_by(before.execution_date, opt_text(update.execution_date)));
    assert(after.execution_stdout == replaced_by(before.execution_stdout, opt_text(update.execution_stdout)));
    assert(after.execution_stderr == replaced_by(before.execution_stderr, opt_text(update.execution_stderr)));
}

proof fn views_are_the_same(a: ExecutionConf, b: ExecutionConf)
    requires
        (ExecutionView { path: None, ..a@ }) == (ExecutionView { path: None, ..b@ }),
    ensures
        same_making(a, b),
        same_results(a, b),
{
    let x = ExecutionView { path: None, ..a@ };
    let y = ExecutionView { path: None, ..b@ };
    assert(x.commit == y.commit && x.parameters == y.parameters);
    assert(x.experiment_elements == y.experiment_elements);
    assert(x.generator == y.generator && x.tags == y.tags);
    assert(x.generation_date == y.generation_date);
    assert(x.executor == y.executor && x.execution_date == y.execution_date);
    assert(x.execution_stdout == y.execution_stdout && x.execution_stderr == y.execution_stderr);
}

/// A copy of an execution holds what the execution holds, what is written of it too, but for its path,
/// and what is read back of it too, but for its path, which is the folder that it is read from.
pub proof fn executions_are_kept_whole(
    conf: ExecutionConf,
    folder: &str,
    copied: ExecutionConf,
    written: ExecutionConf,
    read: Result<ExecutionConf, Error>,
)
    requires
        call_ensures(ExecutionConf::clone, (&conf,), copied),
        call_ensures(ExecutionConf::to_file, (&conf,), written),
        call_ensures(ExecutionConf::from_file, (folder, Loaded::Value(conf)), read),
    ensures
        same_making(copied, conf) && same_results(copied, conf) && same_text(copied.path, conf.path),
        same_making(written, conf) && same_results(written, conf) && written.path is None,
        read is Ok,
        same_making(read->Ok_0, conf) && same_results(read->Ok_0, conf),
        read->Ok_0.path is Some && read->Ok_0.path->Some_0@ == folder@,
{
    views_are_the_same(copied, conf);
    views_are_the_same(written, conf);
    views_are_the_same(read->Ok_0, conf);
    assert(copied@.path == conf@.path);
    assert(written@.path is None);
    assert(read->Ok_0@.path == Some(folder@));
}

/// The paths of an execution and how it is shown.
pub proof fn execution_says_its_paths(
    conf: ExecutionConf,
    path: String,
    data: String,
    shown: String,
)
    requires
        call_ensures(ExecutionConf::get_path, (&conf,), path),
        call_ensures(ExecutionConf::get_data_path, (&conf,), data),
        call_ensures(ExecutionConf::show, (&conf,), shown),
        conf.path is Some,
        conf.path->Some_0@.len() > 0,
        conf.path->Some_0@.last() != '/',
    ensures
        path@ == conf.path->Some_0@,
        data@ == conf.path->Some_0@ + "/data"@,
        shown@ == "Execution<ExecutionId("@ + uuid_text(conf.identifier.0) + ")>"@,
{
    reveal_strlit("data");
    reveal_strlit("/data");
    crate::text::paths_are_joined(conf.path->Some_0@, "data"@);
    assert(data@ =~= conf.path->Some_0@ + "/data"@);
}

/// The folders of a campaign: the experiment and the executions stand below its root, and each
/// execution has a folder of its own, named by its identifier, with its configuration in it.
pub proof fn campaign_says_its_paths(
    conf: CampaignConf,
    id: ExecutionId,
    root: String,
    experiment: String,
    executions: String,
    execution: String,
    file: String,
)
    requires
        call_ensures(CampaignConf::get_path, (&conf,), root),
        call_ensures(CampaignConf::get_experiment_path, (&conf,), experiment),
        call_ensures(CampaignConf::get_executions_path, (&conf,), executions),
        call_ensures(CampaignConf::get_execution_path, (&conf, id), execution),
        call_ensures(CampaignConf::get_execution_conf_path, (&conf, id), file),
        conf.path is Some,
        conf.path->Some_0@.len() > 0,
        conf.path->Some_0@.last() != '/',
    ensures
        root@ == conf.path->Some_0@,
        experiment@ == conf.path->Some_0@ + "/xprp"@,
        executions@ == conf.path->Some_0@ + "/excs"@,
        execution@ == conf.path->Some_0@ + "/excs/"@ + uuid_text(id.0),
        file@ == conf.path->Some_0@ + "/excs/"@ + uuid_text(id.0) + "/.excconf"@,
{
    reveal_strlit("xprp");
    reveal_strlit("/xprp");
    reveal_strlit("excs");
    reveal_strlit("/excs");
    reveal_strlit("/excs/");
    reveal_strlit(".excconf");
    reveal_strlit("/.excconf");
    let base = conf.path->Some_0@;
    let folder = base + seq!['/'] + "excs"@;
    let text = uuid_text(id.0);
    crate::repository::uuid_text_injective(id.0, id.0);
    crate::text::paths_are_joined(base, "xprp"@);
    crate::text::paths_are_joined(base, "excs"@);
    crate::text::paths_are_joined(folder, text);
    let own = folder + seq!['/'] + text;
    crate::repository::identifier_is_hexadecimal(id.0, 35);
    assert(own.last() == text[35]);
    crate::text::paths_are_joined(own, ".excconf"@);
    assert(experiment@ =~= base + "/xprp"@);
    assert(executions@ =~= base + "/excs"@);
    assert(execution@ =~= base + "/excs/"@ + text);
    assert(file@ =~= base + "/excs/"@ + text + "/.excconf"@);
}

/// A state is named by a word, and shown by another; a word that names none is a hazard.
pub proof fn states_have_their_words(word: &str, state: ExecutionState, shown: String)
    requires
        call_ensures(ExecutionState::from_word, (word,), state),
        call_ensures(ExecutionState::show, (&state,), shown),
    ensures
        word@ == "initialized"@ <==> state is Initialized,
        word@ == "interrupted"@ <==> state is Interrupted,
        word@ == "finished"@ <==> state is Finished,
        state is Initialized ==> shown@ == "Initialized"@,
        state is Interrupted ==> shown@ == "Interrupted"@,
        state is Finished ==> shown@ == "Finished"@,
        state is Hazard ==> shown@ == "Hazard"@,
{
    reveal_strlit("initialized");
    reveal_strlit("interrupted");
    reveal_strlit("finished");
    assert("initialized"@[2] == 'i');
    assert("interrupted"@[2] == 't');
    assert("finished"@[2] == 'n');
}

/// A message about an execution changes what the cache holds of it, and of no other one: a new or an
/// updated one is there as the message has it, and a deleted one is gone.
pub proof fn messages_change_the_cache(
    cache: &mut ExecutionsCache,
    updated: &mut ExecutionsCache,
    deleted: &mut ExecutionsCache,
    id: ExecutionId,
    conf: ExecutionConf,
    other: u128,
    present: bool,
)
    requires
        call_ensures(
            ExecutionsCache::handle,
            (cache, ExecutionsCacheMessage::New(id, conf)),
            (),
        ),
        call_ensures(
            ExecutionsCache::handle,
            (updated, ExecutionsCacheMessage::Update(id, conf)),
            (),
        ),
        call_ensures(
            ExecutionsCache::handle,
            (deleted, ExecutionsCacheMessage::Delete(id)),
            (),
        ),
        call_ensures(ExecutionsCache::contains, (old(cache), id), present),
    ensures
        final(cache)@.contains_key(id.0) && final(cache)@[id.0] == conf@,
        final(updated)@.contains_key(id.0) && final(updated)@[id.0] == conf@,
        !final(deleted)@.contains_key(id.0),
        other != id.0 ==> (final(cache)@.contains_key(other) <==> old(cache)@.contains_key(other))
            && final(cache)@[other] == old(cache)@[other],
        other != id.0 ==> (final(updated)@.contains_key(other) <==> old(updated)@.contains_key(
            other,
        )) && final(updated)@[other] == old(updated)@[other],
        other != id.0 ==> (final(deleted)@.contains_key(other) <==> old(deleted)@.contains_key(
            other,
        )) && final(deleted)@[other] == old(deleted)@[other],
        present <==> old(cache)@.contains_key(id.0),
{
}

proof fn identified(executions: Seq<ExecutionConf>, id: u128)
    ensures
        by_identifier(executions).contains_key(id) <==> exists|i: int|
            0 <= i < executions.len() && (#[trigger] executions[i]).identifier.0 == id,
    decreases executions.len(),
{
    if executions.len() > 0 {
        let init = executions.drop_last();
        let n = executions.len() - 1;
        identified(init, id);
        if executions.last().identifier.0 == id {
            assert(executions[n].identifier.0 == id);
        } else if by_identifier(executions).contains_key(id) {
            let k = choose|k: int| 0 <= k < init.len() && (#[trigger] init[k]).identifier.0 == id;
            assert(executions[k].identifier.0 == id);
        } else if exists|i: int|
            0 <= i < executions.len() && (#[trigger] executions[i]).identifier.0 == id {
            let k = choose|i: int|
                0 <= i < executions.len() && (#[trigger] executions[i]).identifier.0 == id;
            assert(init[k].identifier.0 == id);
        }
    }
}

proof fn last_of_identifier(executions: Seq<ExecutionConf>, id: u128, i: int)
    requires
        0 <= i < executions.len(),
        executions[i].identifier.0 == id,
        forall|j: int|
            i < j < executions.len() ==> (#[trigger] executions[j]).identifier.0 != id,
    ensures
        by_identifier(executions)[id] == executions[i]@,
    decreases executions.len(),
{
    let init = executions.drop_last();
    let n = executions.len() - 1;
    if i < n {
        assert(executions[n].identifier.0 != id);
        assert forall|j: int| i < j < init.len() implies (#[trigger] init[j]).identifier.0 != id by {
            assert(executions[j].identifier.0 != id);
        }
        last_of_identifier(init, id, i);
    }
}

/// A new cache holds the executions, each under its identifier, and no other one. Of executions with
/// the same identifier, it holds the last one.
pub proof fn cache_has_its_executions(
    executions: Vec<ExecutionConf>,
    id: u128,
    i: int,
    res: ExecutionsCache,
)
    requires
        call_ensures(ExecutionsCache::new, (executions,), res),
    ensures
        res@.contains_key(id) <==> exists|k: int|
            0 <= k < executions.len() && (#[trigger] executions@[k]).identifier.0 == id,
        0 <= i < executions.len() && executions@[i].identifier.0 == id && (forall|j: int|
            i < j < executions.len() ==> (#[trigger] executions@[j]).identifier.0 != id)
            ==> res@[id] == executions@[i]@,
{
    identified(executions@, id);
    if 0 <= i < executions.len() && executions@[i].identifier.0 == id && (forall|j: int|
        i < j < executions.len() ==> (#[trigger] executions@[j]).identifier.0 != id) {
        last_of_identifier(executions@, id, i);
    }
}

/// Every execution of the cache is listed, and nothing else is.
pub proof fn every_cached_execution_is_listed(
    cache: ExecutionsCache,
    id: u128,
    i: int,
    res: Vec<ExecutionConf>,
)
    requires
        call_ensures(ExecutionsCache::get_executions, (&cache,), res),
    ensures
        res.len() == cache@.dom().len(),
        cache@.contains_key(id) ==> exists|k: int|
            0 <= k < res.len() && (#[trigger] res@[k])@ == cache@[id],
        0 <= i < res.len() ==> exists|key: u128| #[trigger]
            cache@.contains_key(key) && res@[i]@ == cache@[key],
{
    let ids = choose|ids: Seq<u128>| is_listed_under(cache@, res@, ids);
    if cache@.contains_key(id) {
        assert(ids.contains(id));
        let k = choose|k: int| 0 <= k < ids.len() && ids[k] == id;
        assert(res@[k]@ == cache@[id]);
    }
    if 0 <= i < res.len() {
        assert(ids.contains(ids[i]));
        assert(cache@.contains_key(ids[i]));
    }
}

/// Where nothing is synchronized, no hook fails.
pub proof fn hooks_do_not_fail(
    synchro: Synchronizer,
    cmp: &CampaignConf,
    exc: &ExecutionConf,
    r0: Result<(), Error>,
    r1: Result<(), Error>,
    r2: Result<(), Error>,
    r3: Result<(), Error>,
    r4: Result<(), Error>,
    r5: Result<(), Error>,
    r6: Result<(), Error>,
)
    requires
        call_ensures(Synchronizer::init_repository_hook, (&synchro, cmp), r0),
        call_ensures(Synchronizer::fetch_experiment_hook, (&synchro, cmp), r1),
        call_ensures(Synchronizer::create_execution_hook, (&synchro, exc), r2),
        call_ensures(Synchronizer::update_execution_hook, (&synchro, exc), r3),
        call_ensures(Synchronizer::reset_execution_hook, (&synchro, exc), r4),
        call_ensures(Synchronizer::finish_execution_hook, (&synchro, exc), r5),
        call_ensures(Synchronizer::fetch_executions_hook, (&synchro, cmp), r6),
    ensures
        r0 is Ok && r1 is Ok && r2 is Ok && r3 is Ok && r4 is Ok && r5 is Ok && r6 is Ok,
{
}

/// What an error says: what failed, and the reason that it holds.
pub proof fn errors_say_what_failed(error: Error, said: String)
    requires
        call_ensures(Error::message, (&error,), said),
    ensures
        error is NotARepo ==> said@ == "Not a expegit repository"@,
        error is AlreadyRepo ==> said@ == "Already an expegit repository"@,
        error is InvalidRepo ==> said@ == "Invalid expegit repository"@,
        error is InvalidExpeCommit ==> said@ == "Invalid experiment commit"@,
        error is NoOutputAvailable ==> said@ == "No output was available"@,
        error is ChannelBroken ==> said@ == "Communication channel broken: "@ + error->ChannelBroken_0@,
        error is FetchExperiment ==> said@ == "Failed to fetch experiment: "@ + error->FetchExperiment_0@,
        error is CreateExecution ==> said@ == "Failed to create execution: "@ + error->CreateExecution_0@,
        error is UpdateExecution ==> said@ == "Failed to update execution: "@ + error->UpdateExecution_0@,
        error is FinishExecution ==> said@ == "Failed to finish execution: "@ + error->FinishExecution_0@,
        error is FetchExecutions ==> said@ == "Failed to fetch executions: "@ + error->FetchExecutions_0@,
        error is DeleteExecution ==> said@ == "Failed to delete execution: "@ + error->DeleteExecution_0@,
        error is ReadExecution ==> said@ == "Failed to read execution from file"@,
        error is WriteExecution ==> said@ == "Failed to write execution from file"@,
        error is ReadCampaign ==> said@ == "Failed to read campaign from file"@,
        error is WriteCampaign ==> said@ == "Failed to write campaign from file"@,
        error is WrongPath ==> said@ == "Something went wrong with a path"@,
        error is NoFFPossible ==> said@ == "Couldn't perform fast-forward pull"@,
        error is Unknown ==> said@ == "Unknown error occurred"@,
{
}

/// A campaign is shown by its root. A new one has the root and the version that were given.
pub proof fn campaign_is_shown_by_its_root(
    conf: CampaignConf,
    path: &str,
    version: &str,
    fresh: CampaignConf,
    res: String,
)
    requires
        call_ensures(CampaignConf::show, (&conf,), res),
        call_ensures(CampaignConf::new, (path, version), fresh),
    ensures
        res@ == "Campaign<["@ + conf.path->Some_0@ + "]>"@,
        fresh.path is Some && fresh.path->Some_0@ == path@,
        fresh.version@ == version@,
{
}

} // verus!
