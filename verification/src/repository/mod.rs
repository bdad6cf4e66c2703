//! Campaign repositories: the configurations of campaigns and executions, and the operations on
//! them.
use vstd::prelude::*;
#[allow(unused_imports)]
use vstd::string::*;
use crate::commons::{Loaded, Stored};
use crate::primitives;
use crate::primitives::Timestamp;
use crate::repository::synchro::Synchronizer;
use crate::ssh::config::clone_option;
use crate::misc::debug;
#[allow(unused_imports)]
use crate::misc::debug_text;
#[allow(unused_imports)]
use crate::text::{cat, cat3, copies, opt_text, path_in, path_join, same, texts};
use crate::{DATA_RPATH, EXCCONF_RPATH, EXCS_RPATH, XPRP_RPATH};

pub mod campaign;
pub mod handle;
pub mod service;
pub mod worker;
pub mod synchro;

verus! {

//---------------------------------------------------------------------------------------- ERRORS
#[derive(Debug)]
pub enum Error {
    NotARepo,
    AlreadyRepo,
    InvalidRepo,
    InvalidExpeCommit,
    NoOutputAvailable,
    Channel(String),
    FetchExperiment(String),
    CreateExecution(String),
    UpdateExecution(String),
    FinishExecution(String),
    FetchExecutions(String),
    DeleteExecution(String),
    CacheError(String),
    OperationFetch(String),
    ReadExecution,
    WriteExecution,
    ReadCampaign,
    WriteCampaign,
    WrongPath,
    NoFFPossible,
    Unknown,
    Io(String),
    Git(String),
}

impl Error {
    /// The characters of the text of the error.
    pub open spec fn text(&self) -> Seq<char> {
        match self {
            Error::NotARepo => "Not a expegit repository"@,
            Error::AlreadyRepo => "Already an expegit repository"@,
            Error::InvalidRepo => "Invalid expegit repository"@,
            Error::InvalidExpeCommit => "Invalid experiment commit"@,
            Error::NoOutputAvailable => "No output was available"@,
            Error::Channel(s) => "Communication channel error: \n"@ + s@,
            Error::FetchExperiment(s) => "Failed to fetch experiment: \n"@ + s@,
            Error::CreateExecution(s) => "Failed to create execution: \n"@ + s@,
            Error::UpdateExecution(s) => "Failed to update execution: \n"@ + s@,
            Error::FinishExecution(s) => "Failed to finish execution: \n"@ + s@,
            Error::FetchExecutions(s) => "Failed to fetch executions: \n"@ + s@,
            Error::DeleteExecution(s) => "Failed to delete execution: \n"@ + s@,
            Error::CacheError(s) => "Error occurred with executions chache: \n"@ + s@,
            Error::OperationFetch(s) => "Error occurred when fetching the operation: \n"@ + s@,
            Error::ReadExecution => "Failed to read execution from file"@,
            Error::WriteExecution => "Failed to write execution from file"@,
            Error::ReadCampaign => "Failed to read campaign from file"@,
            Error::WriteCampaign => "Failed to write campaign from file"@,
            Error::WrongPath => "Something went wrong with a path"@,
            Error::NoFFPossible => "Couldn't perform fast-forward pull"@,
            Error::Unknown => "Unknown error occurred"@,
            Error::Io(s) => "Io related error occurred: \n"@ + s@,
            Error::Git(s) => "Git related error occurred: \n "@ + s@,
        }
    }

    /// The text of the error.
    pub fn message(&self) -> (res: String)
        ensures
            res@ == self.text(),
    {
        match self {
            Error::NotARepo => "Not a expegit repository".to_owned(),
            Error::AlreadyRepo => "Already an expegit repository".to_owned(),
            Error::InvalidRepo => "Invalid expegit repository".to_owned(),
            Error::InvalidExpeCommit => "Invalid experiment commit".to_owned(),
            Error::NoOutputAvailable => "No output was available".to_owned(),
            Error::Channel(s) => cat("Communication channel error: \n", s.as_str()),
            Error::FetchExperiment(s) => cat("Failed to fetch experiment: \n", s.as_str()),
            Error::CreateExecution(s) => cat("Failed to create execution: \n", s.as_str()),
            Error::UpdateExecution(s) => cat("Failed to update execution: \n", s.as_str()),
            Error::FinishExecution(s) => cat("Failed to finish execution: \n", s.as_str()),
            Error::FetchExecutions(s) => cat("Failed to fetch executions: \n", s.as_str()),
            Error::DeleteExecution(s) => cat("Failed to delete execution: \n", s.as_str()),
            Error::CacheError(s) => cat("Error occurred with executions chache: \n", s.as_str()),
            Error::OperationFetch(s) => cat("Error occurred when fetching the operation: \n", s.as_str()),
            Error::ReadExecution => "Failed to read execution from file".to_owned(),
            Error::WriteExecution => "Failed to write execution from file".to_owned(),
            Error::ReadCampaign => "Failed to read campaign from file".to_owned(),
            Error::WriteCampaign => "Failed to write campaign from file".to_owned(),
            Error::WrongPath => "Something went wrong with a path".to_owned(),
            Error::NoFFPossible => "Couldn't perform fast-forward pull".to_owned(),
            Error::Unknown => "Unknown error occurred".to_owned(),
            Error::Io(s) => cat("Io related error occurred: \n", s.as_str()),
            Error::Git(s) => cat("Git related error occurred: \n ", s.as_str()),
        }
    }

    /// How the error is shown: the variant, and what it holds.
    pub open spec fn shown(&self) -> Seq<char> {
        match self {
            Error::NotARepo => "NotARepo"@,
            Error::AlreadyRepo => "AlreadyRepo"@,
            Error::InvalidRepo => "InvalidRepo"@,
            Error::InvalidExpeCommit => "InvalidExpeCommit"@,
            Error::NoOutputAvailable => "NoOutputAvailable"@,
            Error::Channel(s) => "Channel("@ + debug_text(s@) + ")"@,
            Error::FetchExperiment(s) => "FetchExperiment("@ + debug_text(s@) + ")"@,
            Error::CreateExecution(s) => "CreateExecution("@ + debug_text(s@) + ")"@,
            Error::UpdateExecution(s) => "UpdateExecution("@ + debug_text(s@) + ")"@,
            Error::FinishExecution(s) => "FinishExecution("@ + debug_text(s@) + ")"@,
            Error::FetchExecutions(s) => "FetchExecutions("@ + debug_text(s@) + ")"@,
            Error::DeleteExecution(s) => "DeleteExecution("@ + debug_text(s@) + ")"@,
            Error::CacheError(s) => "CacheError("@ + debug_text(s@) + ")"@,
            Error::OperationFetch(s) => "OperationFetch("@ + debug_text(s@) + ")"@,
            Error::ReadExecution => "ReadExecution"@,
            Error::WriteExecution => "WriteExecution"@,
            Error::ReadCampaign => "ReadCampaign"@,
            Error::WriteCampaign => "WriteCampaign"@,
            Error::WrongPath => "WrongPath"@,
            Error::NoFFPossible => "NoFFPossible"@,
            Error::Unknown => "Unknown"@,
            Error::Io(s) => "Io("@ + debug_text(s@) + ")"@,
            Error::Git(s) => "Git("@ + debug_text(s@) + ")"@,
        }
    }

    /// Shows the error.
    pub fn show(&self) -> (res: String)
        ensures
            res@ == self.shown(),
    {
        match self {
            Error::NotARepo => "NotARepo".to_owned(),
            Error::AlreadyRepo => "AlreadyRepo".to_owned(),
            Error::InvalidRepo => "InvalidRepo".to_owned(),
            Error::InvalidExpeCommit => "InvalidExpeCommit".to_owned(),
            Error::NoOutputAvailable => "NoOutputAvailable".to_owned(),
            Error::Channel(s) => cat3("Channel(", debug(s.as_str()).as_str(), ")"),
            Error::FetchExperiment(s) => cat3("FetchExperiment(", debug(s.as_str()).as_str(), ")"),
            Error::CreateExecution(s) => cat3("CreateExecution(", debug(s.as_str()).as_str(), ")"),
            Error::UpdateExecution(s) => cat3("UpdateExecution(", debug(s.as_str()).as_str(), ")"),
            Error::FinishExecution(s) => cat3("FinishExecution(", debug(s.as_str()).as_str(), ")"),
            Error::FetchExecutions(s) => cat3("FetchExecutions(", debug(s.as_str()).as_str(), ")"),
            Error::DeleteExecution(s) => cat3("DeleteExecution(", debug(s.as_str()).as_str(), ")"),
            Error::CacheError(s) => cat3("CacheError(", debug(s.as_str()).as_str(), ")"),
            Error::OperationFetch(s) => cat3("OperationFetch(", debug(s.as_str()).as_str(), ")"),
            Error::ReadExecution => "ReadExecution".to_owned(),
            Error::WriteExecution => "WriteExecution".to_owned(),
            Error::ReadCampaign => "ReadCampaign".to_owned(),
            Error::WriteCampaign => "WriteCampaign".to_owned(),
            Error::WrongPath => "WrongPath".to_owned(),
            Error::NoFFPossible => "NoFFPossible".to_owned(),
            Error::Unknown => "Unknown".to_owned(),
            Error::Io(s) => cat3("Io(", debug(s.as_str()).as_str(), ")"),
            Error::Git(s) => cat3("Git(", debug(s.as_str()).as_str(), ")"),
        }
    }

    /// The error as that of an operation, which holds its text.
    pub fn to_operation(&self) -> (res: primitives::Error)
        ensures
            res is Operation,
            res->Operation_0@ == self.text(),
    {
        primitives::Error::Operation(self.message())
    }
}

impl Clone for Error {
    fn clone(&self) -> (res: Error)
        ensures
            res == *self,
    {
        match self {
            Error::NotARepo => Error::NotARepo,
            Error::AlreadyRepo => Error::AlreadyRepo,
            Error::InvalidRepo => Error::InvalidRepo,
            Error::InvalidExpeCommit => Error::InvalidExpeCommit,
            Error::NoOutputAvailable => Error::NoOutputAvailable,
            Error::Channel(s) => Error::Channel(s.clone()),
            Error::FetchExperiment(s) => Error::FetchExperiment(s.clone()),
            Error::CreateExecution(s) => Error::CreateExecution(s.clone()),
            Error::UpdateExecution(s) => Error::UpdateExecution(s.clone()),
            Error::FinishExecution(s) => Error::FinishExecution(s.clone()),
            Error::FetchExecutions(s) => Error::FetchExecutions(s.clone()),
            Error::DeleteExecution(s) => Error::DeleteExecution(s.clone()),
            Error::CacheError(s) => Error::CacheError(s.clone()),
            Error::OperationFetch(s) => Error::OperationFetch(s.clone()),
            Error::ReadExecution => Error::ReadExecution,
            Error::WriteExecution => Error::WriteExecution,
            Error::ReadCampaign => Error::ReadCampaign,
            Error::WriteCampaign => Error::WriteCampaign,
            Error::WrongPath => Error::WrongPath,
            Error::NoFFPossible => Error::NoFFPossible,
            Error::Unknown => Error::Unknown,
            Error::Io(s) => Error::Io(s.clone()),
            Error::Git(s) => Error::Git(s.clone()),
        }
    }
}

//----------------------------------------------------------------------------------- IDENTIFIERS
/// The hexadecimal digit of a number below sixteen.
pub open spec fn hex_digit(n: nat) -> char {
    if n < 10 {
        (('0' as nat + n) as u8) as char
    } else {
        (('a' as nat + (n - 10)) as u8) as char
    }
}

/// The hexadecimal notation of a number, on the given number of digits.
pub open spec fn hex_of(n: nat, digits: nat) -> Seq<char>
    decreases digits,
{
    if digits == 0 {
        Seq::empty()
    } else {
        hex_of(n / 16, (digits - 1) as nat).push(hex_digit(n % 16))
    }
}

/// The hyphenated notation of an identifier: thirty-two hexadecimal digits in five groups.
pub open spec fn uuid_text(id: u128) -> Seq<char> {
    let hex = hex_of(id as nat, 32);
    hex.subrange(0, 8) + "-"@ + hex.subrange(8, 12) + "-"@ + hex.subrange(12, 16) + "-"@
        + hex.subrange(16, 20) + "-"@ + hex.subrange(20, 32)
}

/// The hyphenated notation of an identifier, as `uuid::Uuid` shows itself.
#[verifier::external_body]
fn uuid_hyphenated(id: u128) -> (res: String)
    ensures
        res@ == uuid_text(id),
{
    uuid::Uuid::from_u128(id).to_string()
}

/// Whether a number carries the version and the variant of a random identifier.
pub open spec fn is_random_id(id: u128) -> bool {
    (id >> 76) & 0xf == 4 && (id >> 62) & 0x3 == 2
}

/// A random identifier, by `uuid::Uuid::new_v4`. It carries the version and the variant of a
/// random identifier; nothing else is claimed of it.
#[verifier::external_body]
pub(crate) fn uuid_new_v4() -> (res: u128)
    ensures
        (res >> 76) & 0xf == 4,
        (res >> 62) & 0x3 == 2,
{
    uuid::Uuid::new_v4().as_u128()
}

/// Newtype representing an execution identifier.
#[derive(Clone, Copy, Debug, PartialEq, Eq, Structural)]
pub struct ExecutionId(pub u128);

impl ExecutionId {
    /// The notation of the identifier.
    pub fn show(&self) -> (res: String)
        ensures
            res@ == uuid_text(self.0),
    {
        uuid_hyphenated(self.0)
    }
}

spec fn pow16(digits: nat) -> nat
    decreases digits,
{
    if digits == 0 {
        1
    } else {
        16 * pow16((digits - 1) as nat)
    }
}

proof fn hex_of_injective(a: nat, b: nat, digits: nat)
    requires
        a < pow16(digits),
        b < pow16(digits),
        hex_of(a, digits) == hex_of(b, digits),
    ensures
        a == b,
    decreases digits,
{
    if digits > 0 {
        let x = hex_of(a, digits);
        let y = hex_of(b, digits);
        assert(x.last() == hex_digit(a % 16));
        assert(y.last() == hex_digit(b % 16));
        assert(x.drop_last() =~= hex_of(a / 16, (digits - 1) as nat));
        assert(y.drop_last() =~= hex_of(b / 16, (digits - 1) as nat));
        hex_of_injective(a / 16, b / 16, (digits - 1) as nat);
    }
}

proof fn hex_of_len(n: nat, digits: nat)
    ensures
        hex_of(n, digits).len() == digits,
    decreases digits,
{
    if digits > 0 {
        hex_of_len(n / 16, (digits - 1) as nat);
    }
}

/// Two executions have the same notation only if they are the same.
pub proof fn uuid_text_injective(a: u128, b: u128)
    ensures
        uuid_text(a) == uuid_text(b) ==> a == b,
        uuid_text(a).len() == 36,
        uuid_text(a)[0] != '/',
{
    reveal_strlit("-");
    let x = hex_of(a as nat, 32);
    let y = hex_of(b as nat, 32);
    hex_of_len(a as nat, 32);
    hex_of_len(b as nat, 32);
    let s = uuid_text(a);
    let t = uuid_text(b);
    assert(s.len() == 36);
    assert(s[0] == x[0]);
    first_hex_digit(a as nat, 32);
    if s == t {
        assert forall|i: int| 0 <= i < 32 implies x[i] == y[i] by {
            if i < 8 {
                assert(s[i] == x[i] && t[i] == y[i]);
            } else if i < 12 {
                assert(s[i + 1] == x[i] && t[i + 1] == y[i]);
            } else if i < 16 {
                assert(s[i + 2] == x[i] && t[i + 2] == y[i]);
            } else if i < 20 {
                assert(s[i + 3] == x[i] && t[i + 3] == y[i]);
            } else {
                assert(s[i + 4] == x[i] && t[i + 4] == y[i]);
            }
        }
        assert(x =~= y);
        assert(pow16(32) == 0x1_0000_0000_0000_0000_0000_0000_0000_0000) by {
            reveal_with_fuel(pow16, 33);
        }
        hex_of_injective(a as nat, b as nat, 32);
    }
}

proof fn first_hex_digit(n: nat, digits: nat)
    requires
        digits > 0,
    ensures
        hex_of(n, digits).len() == digits,
        hex_of(n, digits)[0] != '/',
    decreases digits,
{
    hex_of_len(n, digits);
    hex_of_len(n / 16, (digits - 1) as nat);
    if digits > 1 {
        first_hex_digit(n / 16, (digits - 1) as nat);
        assert(hex_of(n, digits)[0] == hex_of(n / 16, (digits - 1) as nat)[0]);
    } else {
        assert(hex_of(n, digits)[0] == hex_digit(n % 16));
    }
}

//-------------------------------------------------------------------------------- CONFIGURATIONS
/// Represents the configuration of a campaign repository.
#[derive(Debug)]
pub struct CampaignConf {
    pub path: Option<String>,
    pub synchro: Synchronizer,
    pub version: String,
}

impl Clone for CampaignConf {
    fn clone(&self) -> (res: CampaignConf)
        ensures
            res == *self,
    {
        CampaignConf {
            path: clone_option(&self.path),
            synchro: self.synchro,
            version: self.version.clone(),
        }
    }
}

impl CampaignConf {
    /// The configuration of a new campaign.
    pub fn new(local_path: &str, version: &str) -> (res: CampaignConf)
        ensures
            opt_text(res.path) == Some(local_path@),
            res.synchro == Synchronizer::Null(crate::repository::synchro::NullSynchronizer {}),
            res.version@ == version@,
    {
        CampaignConf {
            path: Some(local_path.to_owned()),
            synchro: Synchronizer::Null(crate::repository::synchro::NullSynchronizer {  }),
            version: version.to_owned(),
        }
    }

    /// The configuration that a file of the given folder held: its path is the folder.
    pub fn from_file(folder: &str, read: CampaignConf) -> (res: CampaignConf)
        ensures
            opt_text(res.path) == Some(folder@),
            res.synchro == read.synchro,
            res.version == read.version,
    {
        CampaignConf {
            path: Some(folder.to_owned()),
            synchro: read.synchro,
            version: read.version,
        }
    }

    /// What is written to a file: the configuration, without its path.
    pub fn to_file(&self) -> (res: CampaignConf)
        ensures
            res.path is None,
            res.synchro == self.synchro,
            res.version == self.version,
    {
        CampaignConf { path: None, synchro: self.synchro, version: self.version.clone() }
    }

    /// The root path of the campaign.
    pub open spec fn root(&self) -> Seq<char> {
        self.path->Some_0@
    }

    /// Returns the root path of the campaign.
    pub fn get_path(&self) -> (res: String)
        requires
            self.path is Some,
        ensures
            res@ == self.root(),
    {
        match &self.path {
            Some(path) => path.clone(),
            None => vstd::pervasive::unreached(),
        }
    }

    /// Returns the path to the experiment repository.
    pub fn get_experiment_path(&self) -> (res: String)
        requires
            self.path is Some,
        ensures
            res@ == path_in(self.root(), XPRP_RPATH@),
    {
        path_join(self.get_path().as_str(), XPRP_RPATH)
    }

    /// Returns the path to the executions.
    pub fn get_executions_path(&self) -> (res: String)
        requires
            self.path is Some,
        ensures
            res@ == path_in(self.root(), EXCS_RPATH@),
    {
        path_join(self.get_path().as_str(), EXCS_RPATH)
    }

    /// The path to the folder of an execution.
    pub open spec fn execution_folder(&self, id: u128) -> Seq<char> {
        path_in(path_in(self.root(), EXCS_RPATH@), uuid_text(id))
    }

    /// The path to the configuration file of an execution.
    pub open spec fn execution_file(&self, id: u128) -> Seq<char> {
        path_in(self.execution_folder(id), EXCCONF_RPATH@)
    }

    /// Returns the path to the folder of an execution.
    pub fn get_execution_path(&self, id: ExecutionId) -> (res: String)
        requires
            self.path is Some,
        ensures
            res@ == self.execution_folder(id.0),
    {
        path_join(self.get_executions_path().as_str(), id.show().as_str())
    }

    /// Returns the path to the configuration file of an execution.
    pub fn get_execution_conf_path(&self, id: ExecutionId) -> (res: String)
        requires
            self.path is Some,
        ensures
            res@ == self.execution_file(id.0),
    {
        path_join(self.get_execution_path(id).as_str(), EXCCONF_RPATH)
    }

    /// How the campaign is shown.
    pub fn show(&self) -> (res: String)
        requires
            self.path is Some,
        ensures
            res@ == "Campaign<["@ + self.root() + "]>"@,
    {
        cat3("Campaign<[", self.get_path().as_str(), "]>")
    }
}

/// What is written to a file is read back from it, with the folder of the file for its path. So a
/// campaign that is written to its own folder is read back as it was.
pub proof fn campaign_write_then_read(
    conf: CampaignConf,
    written: CampaignConf,
    folder: &str,
    read: CampaignConf,
)
    requires
        call_ensures(CampaignConf::to_file, (&conf,), written),
        call_ensures(CampaignConf::from_file, (folder, written), read),
    ensures
        opt_text(read.path) == Some(folder@),
        read.synchro == conf.synchro,
        read.version == conf.version,
        opt_text(conf.path) == Some(folder@) ==> opt_text(read.path) == opt_text(conf.path),
{
}

/// Executions do not share a folder.
pub proof fn executions_have_own_folders(conf: CampaignConf, a: u128, b: u128)
    requires
        a != b,
    ensures
        conf.execution_folder(a) != conf.execution_folder(b),
{
    uuid_text_injective(a, b);
    uuid_text_injective(b, a);
    let base = path_in(conf.root(), EXCS_RPATH@);
    let x = path_in(base, uuid_text(a));
    let y = path_in(base, uuid_text(b));
    if x == y {
        assert(x.skip(x.len() - 36) =~= uuid_text(a));
        assert(y.skip(y.len() - 36) =~= uuid_text(b));
    }
}

/// Represents the possible states of an execution.
#[derive(Clone, Copy, Debug, PartialEq, Eq, Structural)]
pub enum ExecutionState {
    Initialized,
    Running,
    Failed,
    Completed,
}

impl ExecutionState {
    /// Whether a word names a state.
    pub open spec fn is_word(word: Seq<char>) -> bool {
        word == "initialized"@ || word == "running"@ || word == "failed"@ || word == "completed"@
    }

    /// Tells whether a word names a state.
    pub fn is_known(word: &str) -> (res: bool)
        ensures
            res == ExecutionState::is_word(word@),
    {
        same(word, "initialized") || same(word, "running") || same(word, "failed") || same(
            word,
            "completed",
        )
    }

    /// The state that a word names.
    pub fn from_word(word: &str) -> (res: ExecutionState)
        requires
            ExecutionState::is_word(word@),
        ensures
            word@ == match res {
                ExecutionState::Initialized => "initialized"@,
                ExecutionState::Running => "running"@,
                ExecutionState::Failed => "failed"@,
                ExecutionState::Completed => "completed"@,
            },
    {
        if same(word, "initialized") {
            ExecutionState::Initialized
        } else if same(word, "running") {
            ExecutionState::Running
        } else if same(word, "failed") {
            ExecutionState::Failed
        } else {
            ExecutionState::Completed
        }
    }

    /// How the state is shown.
    pub fn show(&self) -> (res: String)
        ensures
            res@ == match self {
                ExecutionState::Initialized => "Initialized"@,
                ExecutionState::Running => "Running"@,
                ExecutionState::Failed => "Interrupted"@,
                ExecutionState::Completed => "Completed"@,
            },
    {
        match self {
            ExecutionState::Initialized => "Initialized".to_owned(),
            ExecutionState::Running => "Running".to_owned(),
            ExecutionState::Failed => "Interrupted".to_owned(),
            ExecutionState::Completed => "Completed".to_owned(),
        }
    }
}

/// Newtype representing a commit string.
#[derive(Debug)]
pub struct ExperimentCommit(pub String);

/// Newtype representing parameters string.
#[derive(Debug)]
pub struct ExecutionParameters(pub String);

/// Newtype representing tag string.
#[derive(Debug)]
pub struct ExecutionTag(pub String);

impl Clone for ExperimentCommit {
    fn clone(&self) -> (res: ExperimentCommit)
        ensures
            res == *self,
    {
        ExperimentCommit(self.0.clone())
    }
}

impl Clone for ExecutionParameters {
    fn clone(&self) -> (res: ExecutionParameters)
        ensures
            res == *self,
    {
        ExecutionParameters(self.0.clone())
    }
}

impl Clone for ExecutionTag {
    fn clone(&self) -> (res: ExecutionTag)
        ensures
            res == *self,
    {
        ExecutionTag(self.0.clone())
    }
}

/// The texts of tags.
pub open spec fn tag_texts(tags: Seq<ExecutionTag>) -> Seq<Seq<char>> {
    Seq::new(tags.len(), |i: int| tags[i].0@)
}

/// A copy of the tags.
pub fn copy_tags(tags: &Vec<ExecutionTag>) -> (res: Vec<ExecutionTag>)
    ensures
        res@ == tags@,
{
    let res = tags.clone();
    assert(res@ =~= tags@);
    res
}

/// Represents the configuration and results of an execution of the experiment. Each of the features
/// is held by the bits of its floating point notation.
#[derive(Debug)]
pub struct ExecutionConf {
    pub identifier: ExecutionId,
    pub path: Option<String>,
    pub commit: ExperimentCommit,
    pub parameters: ExecutionParameters,
    pub state: ExecutionState,
    pub experiment_elements: Vec<String>,
    pub executor: Option<String>,
    pub execution_beginning_date: Option<Timestamp>,
    pub execution_ending_date: Option<Timestamp>,
    pub execution_stdout: Option<String>,
    pub execution_stderr: Option<String>,
    pub execution_message: Option<String>,
    pub execution_exit_code: Option<i32>,
    pub execution_features: Option<Vec<u64>>,
    pub generator: String,
    pub generation_date: Timestamp,
    pub tags: Vec<ExecutionTag>,
}

/// What the configuration of an execution holds.
pub ghost struct ExecutionView {
    pub identifier: u128,
    pub path: Option<Seq<char>>,
    pub commit: Seq<char>,
    pub parameters: Seq<char>,
    pub state: ExecutionState,
    pub experiment_elements: Seq<Seq<char>>,
    pub executor: Option<Seq<char>>,
    pub execution_beginning_date: Option<Timestamp>,
    pub execution_ending_date: Option<Timestamp>,
    pub execution_stdout: Option<Seq<char>>,
    pub execution_stderr: Option<Seq<char>>,
    pub execution_message: Option<Seq<char>>,
    pub execution_exit_code: Option<i32>,
    pub execution_features: Option<Seq<u64>>,
    pub generator: Seq<char>,
    pub generation_date: Timestamp,
    pub tags: Seq<Seq<char>>,
}

/// The features, if there are any.
pub open spec fn opt_features(features: Option<Vec<u64>>) -> Option<Seq<u64>> {
    match features {
        Some(v) => Some(v@),
        None => None,
    }
}

fn copy_features(features: &Option<Vec<u64>>) -> (res: Option<Vec<u64>>)
    ensures
        opt_features(res) == opt_features(*features),
{
    match features {
        Some(v) => {
            let copy = v.clone();
            assert(copy@ =~= v@);
            Some(copy)
        },
        None => None,
    }
}

impl View for ExecutionConf {
    type V = ExecutionView;

    open spec fn view(&self) -> ExecutionView {
        ExecutionView {
            identifier: self.identifier.0,
            path: opt_text(self.path),
            commit: self.commit.0@,
            parameters: self.parameters.0@,
            state: self.state,
            experiment_elements: texts(self.experiment_elements@),
            executor: opt_text(self.executor),
            execution_beginning_date: self.execution_beginning_date,
            execution_ending_date: self.execution_ending_date,
            execution_stdout: opt_text(self.execution_stdout),
            execution_stderr: opt_text(self.execution_stderr),
            execution_message: opt_text(self.execution_message),
            execution_exit_code: self.execution_exit_code,
            execution_features: opt_features(self.execution_features),
            generator: self.generator@,
            generation_date: self.generation_date,
            tags: tag_texts(self.tags@),
        }
    }
}

impl Clone for ExecutionConf {
    fn clone(&self) -> (res: ExecutionConf)
        ensures
            res@ == self@,
    {
        ExecutionConf {
            identifier: self.identifier,
            path: clone_option(&self.path),
            commit: self.commit.clone(),
            parameters: self.parameters.clone(),
            state: self.state,
            experiment_elements: copies(&self.experiment_elements),
            executor: clone_option(&self.executor),
            execution_beginning_date: self.execution_beginning_date,
            execution_ending_date: self.execution_ending_date,
            execution_stdout: clone_option(&self.execution_stdout),
            execution_stderr: clone_option(&self.execution_stderr),
            execution_message: clone_option(&self.execution_message),
            execution_exit_code: self.execution_exit_code,
            execution_features: copy_features(&self.execution_features),
            generator: self.generator.clone(),
            generation_date: self.generation_date,
            tags: copy_tags(&self.tags),
        }
    }
}

impl ExecutionConf {
    /// What is written to a file: the configuration, without its path.
    pub fn to_file(&self) -> (res: ExecutionConf)
        ensures
            res@ == (ExecutionView { path: None, ..self@ }),
    {
        let mut res = self.clone();
        res.path = None;
        res
    }

    /// What writing the configuration to a file gives.
    pub fn stored(written: Stored) -> (res: Result<(), Error>)
        ensures
            res == match written {
                Stored::Done => Ok::<(), Error>(()),
                _ => Err::<(), Error>(Error::WriteExecution),
            },
    {
        match written {
            Stored::Done => Ok(()),
            _ => Err(Error::WriteExecution),
        }
    }

    /// The configuration that was read from a file of the given folder, which is its path, or what
    /// is said of a failure.
    pub fn from_file(folder: &str, read: Loaded<ExecutionConf>) -> (res: Result<
        ExecutionConf,
        Error,
    >)
        ensures
            match read {
                Loaded::Value(conf) => {
                    &&& res is Ok
                    &&& res->Ok_0@ == ExecutionView { path: Some(folder@), ..conf@ }
                },
                _ => res == Err::<ExecutionConf, Error>(Error::ReadExecution),
            },
    {
        match read {
            Loaded::Value(conf) => {
                let mut conf = conf;
                conf.path = Some(folder.to_owned());
                Ok(conf)
            },
            _ => Err(Error::ReadExecution),
        }
    }

    /// Returns the root path of the execution.
    pub fn get_path(&self) -> (res: String)
        requires
            self.path is Some,
        ensures
            Some(res@) == self@.path,
    {
        match &self.path {
            Some(path) => path.clone(),
            None => vstd::pervasive::unreached(),
        }
    }

    /// How the execution is shown: by its identifier.
    pub fn show(&self) -> (res: String)
        ensures
            res@ == uuid_text(self.identifier.0),
    {
        self.identifier.show()
    }

    /// Returns the path to the data folder.
    pub fn get_data_path(&self) -> (res: String)
        requires
            self.path is Some,
        ensures
            res@ == path_in(self@.path->Some_0, DATA_RPATH@),
    {
        path_join(self.get_path().as_str(), DATA_RPATH)
    }
}

/// What is written to a file is read back from it, with the folder of the file for its path. So an
/// execution that is written to its own folder is read back as it was.
pub proof fn execution_write_then_read(
    conf: ExecutionConf,
    written: ExecutionConf,
    folder: &str,
    read: Result<ExecutionConf, Error>,
)
    requires
        call_ensures(ExecutionConf::to_file, (&conf,), written),
        call_ensures(ExecutionConf::from_file, (folder, Loaded::Value(written)), read),
    ensures
        read is Ok,
        read->Ok_0@ == (ExecutionView { path: Some(folder@), ..conf@ }),
        conf@.path == Some(folder@) ==> read->Ok_0@ == conf@,
{
}

//---------------------------------------------------------------------------------------- UPDATES
/// Represents the update of an execution.
#[derive(Debug)]
pub struct ExecutionUpdate {
    pub state: Option<ExecutionState>,
    pub executor: Option<String>,
    pub execution_stdout: Option<String>,
    pub execution_stderr: Option<String>,
    pub execution_exit_code: Option<i32>,
    pub execution_features: Option<Vec<u64>>,
    pub execution_message: Option<String>,
    pub execution_beginning_date: Option<Timestamp>,
    pub execution_ending_date: Option<Timestamp>,
}

/// What an update holds.
pub ghost struct UpdateView {
    pub state: Option<ExecutionState>,
    pub executor: Option<Seq<char>>,
    pub execution_stdout: Option<Seq<char>>,
    pub execution_stderr: Option<Seq<char>>,
    pub execution_exit_code: Option<i32>,
    pub execution_features: Option<Seq<u64>>,
    pub execution_message: Option<Seq<char>>,
    pub execution_beginning_date: Option<Timestamp>,
    pub execution_ending_date: Option<Timestamp>,
}

impl View for ExecutionUpdate {
    type V = UpdateView;

    open spec fn view(&self) -> UpdateView {
        UpdateView {
            state: self.state,
            executor: opt_text(self.executor),
            execution_stdout: opt_text(self.execution_stdout),
            execution_stderr: opt_text(self.execution_stderr),
            execution_exit_code: self.execution_exit_code,
            execution_features: opt_features(self.execution_features),
            execution_message: opt_text(self.execution_message),
            execution_beginning_date: self.execution_beginning_date,
            execution_ending_date: self.execution_ending_date,
        }
    }
}

impl Clone for ExecutionUpdate {
    fn clone(&self) -> (res: ExecutionUpdate)
        ensures
            res@ == self@,
    {
        ExecutionUpdate {
            state: self.state,
            executor: clone_option(&self.executor),
            execution_stdout: clone_option(&self.execution_stdout),
            execution_stderr: clone_option(&self.execution_stderr),
            execution_exit_code: self.execution_exit_code,
            execution_features: copy_features(&self.execution_features),
            execution_message: clone_option(&self.execution_message),
            execution_beginning_date: self.execution_beginning_date,
            execution_ending_date: self.execution_ending_date,
        }
    }
}

/// The second value, or the first one where there is no second.
pub open spec fn replaced_by<T>(old: Option<T>, new: Option<T>) -> Option<T> {
    match new {
        Some(_) => new,
        None => old,
    }
}

impl UpdateView {
    /// An update that sets nothing.
    pub open spec fn empty() -> UpdateView {
        UpdateView {
            state: None,
            executor: None,
            execution_stdout: None,
            execution_stderr: None,
            execution_exit_code: None,
            execution_features: None,
            execution_message: None,
            execution_beginning_date: None,
            execution_ending_date: None,
        }
    }

    /// What an update and a later one set together.
    pub open spec fn followed_by(self, later: UpdateView) -> UpdateView {
        UpdateView {
            state: replaced_by(self.state, later.state),
            executor: replaced_by(self.executor, later.executor),
            execution_stdout: replaced_by(self.execution_stdout, later.execution_stdout),
            execution_stderr: replaced_by(self.execution_stderr, later.execution_stderr),
            execution_exit_code: replaced_by(self.execution_exit_code, later.execution_exit_code),
            execution_features: replaced_by(self.execution_features, later.execution_features),
            execution_message: replaced_by(self.execution_message, later.execution_message),
            execution_beginning_date: replaced_by(
                self.execution_beginning_date,
                later.execution_beginning_date,
            ),
            execution_ending_date: replaced_by(
                self.execution_ending_date,
                later.execution_ending_date,
            ),
        }
    }

    /// The execution after the update: what the update sets is replaced, and nothing else.
    pub open spec fn applied(self, conf: ExecutionView) -> ExecutionView {
        ExecutionView {
            state: match self.state {
                Some(state) => state,
                None => conf.state,
            },
            executor: replaced_by(conf.executor, self.executor),
            execution_stdout: replaced_by(conf.execution_stdout, self.execution_stdout),
            execution_stderr: replaced_by(conf.execution_stderr, self.execution_stderr),
            execution_exit_code: replaced_by(conf.execution_exit_code, self.execution_exit_code),
            execution_features: replaced_by(conf.execution_features, self.execution_features),
            execution_message: replaced_by(conf.execution_message, self.execution_message),
            execution_beginning_date: replaced_by(
                conf.execution_beginning_date,
                self.execution_beginning_date,
            ),
            execution_ending_date: replaced_by(
                conf.execution_ending_date,
                self.execution_ending_date,
            ),
            ..conf
        }
    }
}

impl ExecutionUpdate {
    /// Consumes the update and an execution to generate a new execution.
    pub fn apply(self, conf: ExecutionConf) -> (res: ExecutionConf)
        ensures
            res@ == self@.applied(conf@),
    {
        let mut conf = conf;
        if let Some(s) = self.state {
            conf.state = s;
        }
        if let Some(s) = self.executor {
            conf.executor = Some(s);
        }
        if let Some(s) = self.execution_stdout {
            conf.execution_stdout = Some(s);
        }
        if let Some(s) = self.execution_stderr {
            conf.execution_stderr = Some(s);
        }
        if let Some(s) = self.execution_exit_code {
            conf.execution_exit_code = Some(s);
        }
        if let Some(s) = self.execution_features {
            conf.execution_features = Some(s);
        }
        if let Some(s) = self.execution_message {
            conf.execution_message = Some(s);
        }
        if let Some(s) = self.execution_beginning_date {
            conf.execution_beginning_date = Some(s);
        }
        if let Some(s) = self.execution_ending_date {
            conf.execution_ending_date = Some(s);
        }
        conf
    }
}

/// An update that sets nothing changes nothing; an update does the same once or twice; and it keeps
/// what the execution was made from: its identifier, folder, commit, parameters, elements, tags,
/// generator and date.
pub proof fn update_laws(update: UpdateView, conf: ExecutionView)
    ensures
        UpdateView::empty().applied(conf) == conf,
        update.applied(update.applied(conf)) == update.applied(conf),
        ({
            let after = update.applied(conf);
            &&& after.identifier == conf.identifier
            &&& after.path == conf.path
            &&& after.commit == conf.commit
            &&& after.parameters == conf.parameters
            &&& after.experiment_elements == conf.experiment_elements
            &&& after.tags == conf.tags
            &&& after.generator == conf.generator
            &&& after.generation_date == conf.generation_date
        }),
{
}

/// Two updates one after the other are one update, in which the later one wins where both set a
/// value.
pub proof fn later_update_wins(first: UpdateView, second: UpdateView, conf: ExecutionView)
    ensures
        second.applied(first.applied(conf)) == first.followed_by(second).applied(conf),
{
}

/// A structure to build execution updates.
pub struct ExecutionUpdateBuilder(pub ExecutionUpdate);

impl View for ExecutionUpdateBuilder {
    type V = UpdateView;

    open spec fn view(&self) -> UpdateView {
        self.0@
    }
}

impl ExecutionUpdateBuilder {
    /// Creates a new update.
    pub fn new() -> (res: ExecutionUpdateBuilder)
        ensures
            res@ == UpdateView::empty(),
    {
        ExecutionUpdateBuilder(
            ExecutionUpdate {
                state: None,
                executor: None,
                execution_stdout: None,
                execution_stderr: None,
                execution_message: None,
                execution_exit_code: None,
                execution_features: None,
                execution_beginning_date: None,
                execution_ending_date: None,
            },
        )
    }

    /// Sets the state.
    pub fn state(self, e: ExecutionState) -> (res: Self)
        ensures
            res@ == (UpdateView { state: Some(e), ..self@ }),
    {
        let mut res = self;
        res.0.state = Some(e);
        res
    }

    /// Sets the executor.
    pub fn executor(self, e: String) -> (res: Self)
        ensures
            res@ == (UpdateView { executor: Some(e@), ..self@ }),
    {
        let mut res = self;
        res.0.executor = Some(e);
        res
    }

    /// Sets the execution stdout.
    pub fn stdout(self, e: String) -> (res: Self)
        ensures
            res@ == (UpdateView { execution_stdout: Some(e@), ..self@ }),
    {
        let mut res = self;
        res.0.execution_stdout = Some(e);
        res
    }

    /// Sets the execution stderr.
    pub fn stderr(self, e: String) -> (res: Self)
        ensures
            res@ == (UpdateView { execution_stderr: Some(e@), ..self@ }),
    {
        let mut res = self;
        res.0.execution_stderr = Some(e);
        res
    }

    /// Sets the execution message.
    pub fn message(self, e: String) -> (res: Self)
        ensures
            res@ == (UpdateView { execution_message: Some(e@), ..self@ }),
    {
        let mut res = self;
        res.0.execution_message = Some(e);
        res
    }

    /// Sets the execution exit code.
    pub fn exit_code(self, e: i32) -> (res: Self)
        ensures
            res@ == (UpdateView { execution_exit_code: Some(e), ..self@ }),
    {
        let mut res = self;
        res.0.execution_exit_code = Some(e);
        res
    }

    /// Sets the execution features.
    pub fn features(self, e: Vec<u64>) -> (res: Self)
        ensures
            res@ == (UpdateView { execution_features: Some(e@), ..self@ }),
    {
        let mut res = self;
        res.0.execution_features = Some(e);
        res
    }

    /// Sets the beginning time.
    pub fn beginning_date(self, e: Timestamp) -> (res: Self)
        ensures
            res@ == (UpdateView { execution_beginning_date: Some(e), ..self@ }),
    {
        let mut res = self;
        res.0.execution_beginning_date = Some(e);
        res
    }

    /// Sets the end time.
    pub fn ending_date(self, e: Timestamp) -> (res: Self)
        ensures
            res@ == (UpdateView { execution_ending_date: Some(e), ..self@ }),
    {
        let mut res = self;
        res.0.execution_ending_date = Some(e);
        res
    }

    /// Returns the execution update.
    pub fn build(self) -> (res: ExecutionUpdate)
        ensures
            res@ == self@,
    {
        self.0
    }
}

//------------------------------------------------------------------------------------------ LAWS
/// Whether two optional texts are the same.
pub open spec fn same_text(a: Option<String>, b: Option<String>) -> bool {
    (a is Some <==> b is Some) && (a is Some ==> a->Some_0@ == b->Some_0@)
}

/// Whether two optional lists of features are the same.
pub open spec fn same_features(a: Option<Vec<u64>>, b: Option<Vec<u64>>) -> bool {
    (a is Some <==> b is Some) && (a is Some ==> a->Some_0@ == b->Some_0@)
}

/// Whether two executions were made from the same.
pub open spec fn same_making(a: ExecutionConf, b: ExecutionConf) -> bool {
    &&& a.identifier == b.identifier
    &&& a.commit.0@ == b.commit.0@
    &&& a.parameters.0@ == b.parameters.0@
    &&& texts(a.experiment_elements@) == texts(b.experiment_elements@)
    &&& a.generator@ == b.generator@
    &&& a.generation_date == b.generation_date
    &&& tag_texts(a.tags@) == tag_texts(b.tags@)
}

/// Whether two executions have the same results.
pub open spec fn same_results(a: ExecutionConf, b: ExecutionConf) -> bool {
    &&& a.state == b.state
    &&& a.execution_exit_code == b.execution_exit_code
    &&& a.execution_beginning_date == b.execution_beginning_date
    &&& a.execution_ending_date == b.execution_ending_date
    &&& same_text(a.executor, b.executor)
    &&& same_text(a.execution_stdout, b.execution_stdout)
    &&& same_text(a.execution_stderr, b.execution_stderr)
    &&& same_text(a.execution_message, b.execution_message)
    &&& same_features(a.execution_features, b.execution_features)
}

/// An update sets what it holds, each value in its own place, and leaves everything else as it was.
pub proof fn update_sets_what_it_holds(
    update: ExecutionUpdate,
    conf: ExecutionConf,
    res: ExecutionConf,
)
    requires
        call_ensures(ExecutionUpdate::apply, (update, conf), res),
    ensures
        update.state is Some ==> res.state == update.state->Some_0,
        update.state is None ==> res.state == conf.state,
        update.execution_exit_code is Some ==> res.execution_exit_code == update.execution_exit_code,
        update.execution_exit_code is None ==> res.execution_exit_code == conf.execution_exit_code,
        update.execution_beginning_date is Some ==> res.execution_beginning_date == update.execution_beginning_date,
        update.execution_beginning_date is None ==> res.execution_beginning_date == conf.execution_beginning_date,
        update.execution_ending_date is Some ==> res.execution_ending_date == update.execution_ending_date,
        update.execution_ending_date is None ==> res.execution_ending_date == conf.execution_ending_date,
        update.executor is Some ==> res.executor is Some && res.executor->Some_0@
            == update.executor->Some_0@,
        update.executor is None ==> same_text(res.executor, conf.executor),
        update.execution_stdout is Some ==> res.execution_stdout is Some && res.execution_stdout->Some_0@
            == update.execution_stdout->Some_0@,
        update.execution_stdout is None ==> same_text(res.execution_stdout, conf.execution_stdout),
        update.execution_stderr is Some ==> res.execution_stderr is Some && res.execution_stderr->Some_0@
            == update.execution_stderr->Some_0@,
        update.execution_stderr is None ==> same_text(res.execution_stderr, conf.execution_stderr),
        update.execution_message is Some ==> res.execution_message is Some && res.execution_message->Some_0@
            == update.execution_message->Some_0@,
        update.execution_message is None ==> same_text(res.execution_message, conf.execution_message),
        update.execution_features is Some ==> res.execution_features is Some
            && res.execution_features->Some_0@ == update.execution_features->Some_0@,
        update.execution_features is None ==> same_features(
            res.execution_features,
            conf.execution_features,
        ),
        same_making(res, conf),
        same_text(res.path, conf.path),
{
    let before = conf@;
    let after = res@;
    assert(after == update@.applied(before));
    assert(after.commit == before.commit && after.parameters == before.parameters);
    assert(after.experiment_elements == before.experiment_elements);
    assert(after.generator == before.generator && after.tags == before.tags);
    assert(after.executor == replaced_by(before.executor, update@.executor));
    assert(after.execution_stdout == replaced_by(before.execution_stdout, update@.execution_stdout));
    assert(after.execution_stderr == replaced_by(before.execution_stderr, update@.execution_stderr));
    assert(after.execution_message == replaced_by(
        before.execution_message,
        update@.execution_message,
    ));
    assert(after.execution_features == replaced_by(
        before.execution_features,
        update@.execution_features,
    ));
}

/// An exit code that is set by an update is that of the execution, so that executions that are updated
/// with different codes have different codes.
pub proof fn updated_exit_codes_differ(
    update: ExecutionUpdate,
    other: ExecutionUpdate,
    conf: ExecutionConf,
    res: ExecutionConf,
    res_other: ExecutionConf,
)
    requires
        call_ensures(ExecutionUpdate::apply, (update, conf), res),
        call_ensures(ExecutionUpdate::apply, (other, conf), res_other),
        update.execution_exit_code is Some && other.execution_exit_code is Some,
        update.execution_exit_code != other.execution_exit_code,
    ensures
        res.execution_exit_code != res_other.execution_exit_code,
{
    update_sets_what_it_holds(update, conf, res);
    update_sets_what_it_holds(other, conf, res_other);
}

/// A copy of an execution holds what the execution holds, what is written of it too, but for its path,
/// and what is read back of it too, but for its path, which is the folder that it is read from.
pub proof fn executions_are_kept_whole(
    conf: ExecutionConf,
    folder: &str,
    copied: ExecutionConf,
    written: ExecutionConf,
    read: Result<ExecutionConf, Error>,
)
    requires
        call_ensures(ExecutionConf::clone, (&conf,), copied),
        call_ensures(ExecutionConf::to_file, (&conf,), written),
        call_ensures(ExecutionConf::from_file, (folder, Loaded::Value(conf)), read),
    ensures
        same_making(copied, conf) && same_results(copied, conf) && same_text(copied.path, conf.path),
        same_making(written, conf) && same_results(written, conf) && written.path is None,
        read is Ok,
        same_making(read->Ok_0, conf) && same_results(read->Ok_0, conf),
        read->Ok_0.path is Some && read->Ok_0.path->Some_0@ == folder@,
{
    views_are_the_same(copied, conf);
    views_are_the_same(written, conf);
    views_are_the_same(read->Ok_0, conf);
    assert(copied@.path == conf@.path);
    assert(written@.path is None);
    assert(read->Ok_0@.path == Some(folder@));
}

proof fn views_are_the_same(a: ExecutionConf, b: ExecutionConf)
    requires
        (ExecutionView { path: None, ..a@ }) == (ExecutionView { path: None, ..b@ }),
    ensures
        same_making(a, b),
        same_results(a, b),
{
    let x = ExecutionView { path: None, ..a@ };
    let y = ExecutionView { path: None, ..b@ };
    assert(x.commit == y.commit && x.parameters == y.parameters);
    assert(x.experiment_elements == y.experiment_elements);
    assert(x.generator == y.generator && x.tags == y.tags);
    assert(x.executor == y.executor && x.execution_message == y.execution_message);
    assert(x.execution_stdout == y.execution_stdout && x.execution_stderr == y.execution_stderr);
    assert(x.execution_features == y.execution_features);
}

/// An execution that could not be read or written is an error.
pub proof fn lost_executions_are_errors(
    folder: &str,
    read: Loaded<ExecutionConf>,
    written: Stored,
    res: Result<ExecutionConf, Error>,
    stored: Result<(), Error>,
)
    requires
        call_ensures(ExecutionConf::from_file, (folder, read), res),
        call_ensures(ExecutionConf::stored, (written,), stored),
    ensures
        res is Ok <==> read is Value,
        stored is Ok <==> written is Done,
{
}

/// The paths of an execution and how it is shown.
pub proof fn execution_says_its_paths(
    conf: ExecutionConf,
    path: String,
    data: String,
    shown: String,
)
    requires
        call_ensures(ExecutionConf::get_path, (&conf,), path),
        call_ensures(ExecutionConf::get_data_path, (&conf,), data),
        call_ensures(ExecutionConf::show, (&conf,), shown),
        conf.path is Some,
        conf.path->Some_0@.len() > 0,
        conf.path->Some_0@.last() != '/',
    ensures
        path@ == conf.path->Some_0@,
        data@ == conf.path->Some_0@ + "/data"@,
        shown@ == uuid_text(conf.identifier.0),
{
    reveal_strlit("data");
    reveal_strlit("/data");
    crate::text::paths_are_joined(conf.path->Some_0@, "data"@);
    assert(data@ =~= conf.path->Some_0@ + "/data"@);
}

/// The folders of a campaign: the experiment and the executions stand below its root, and each
/// execution has a folder of its own, named by its identifier, with its configuration in it.
pub proof fn campaign_says_its_paths(
    conf: CampaignConf,
    id: ExecutionId,
    root: String,
    experiment: String,
    executions: String,
    execution: String,
    file: String,
)
    requires
        call_ensures(CampaignConf::get_path, (&conf,), root),
        call_ensures(CampaignConf::get_experiment_path, (&conf,), experiment),
        call_ensures(CampaignConf::get_executions_path, (&conf,), executions),
        call_ensures(CampaignConf::get_execution_path, (&conf, id), execution),
        call_ensures(CampaignConf::get_execution_conf_path, (&conf, id), file),
        conf.path is Some,
        conf.path->Some_0@.len() > 0,
        conf.path->Some_0@.last() != '/',
    ensures
        root@ == conf.path->Some_0@,
        experiment@ == conf.path->Some_0@ + "/xprp"@,
        executions@ == conf.path->Some_0@ + "/excs"@,
        execution@ == conf.path->Some_0@ + "/excs/"@ + uuid_text(id.0),
        file@ == conf.path->Some_0@ + "/excs/"@ + uuid_text(id.0) + "/.excconf"@,
{
    reveal_strlit("xprp");
    reveal_strlit("/xprp");
    reveal_strlit("excs");
    reveal_strlit("/excs");
    reveal_strlit("/excs/");
    reveal_strlit(".excconf");
    reveal_strlit("/.excconf");
    let base = conf.path->Some_0@;
    let folder = base + seq!['/'] + "excs"@;
    let text = uuid_text(id.0);
    uuid_text_injective(id.0, id.0);
    crate::text::paths_are_joined(base, "xprp"@);
    crate::text::paths_are_joined(base, "excs"@);
    crate::text::paths_are_joined(folder, text);
    let own = folder + seq!['/'] + text;
    identifier_is_hexadecimal(id.0, 35);
    assert(own.last() == text[35]);
    crate::text::paths_are_joined(own, ".excconf"@);
    assert(experiment@ =~= base + "/xprp"@);
    assert(executions@ =~= base + "/excs"@);
    assert(execution@ =~= base + "/excs/"@ + text);
    assert(file@ =~= base + "/excs/"@ + text + "/.excconf"@);
}

proof fn hex_digit_at(n: nat, digits: nat, i: int)
    requires
        0 <= i < digits,
    ensures
        hex_of(n, digits).len() == digits,
        exists|d: int| 0 <= d < 16 && hex_of(n, digits)[i] == #[trigger] "0123456789abcdef"@[d],
        i == digits - 1 ==> hex_of(n, digits)[i] == "0123456789abcdef"@[n as int % 16],
    decreases digits,
{
    hex_of_len(n, digits);
    reveal_strlit("0123456789abcdef");
    if i == digits - 1 {
        hex_of_len(n / 16, (digits - 1) as nat);
        let d = n as int % 16;
        assert(hex_digit(n % 16) == "0123456789abcdef"@[d]);
    } else {
        hex_digit_at(n / 16, (digits - 1) as nat, i);
    }
}

/// The hexadecimal notation of a number is that of its sixteenth, with one more digit behind it.
pub proof fn hexadecimal_digit_by_digit(n: nat, digits: nat)
    ensures
        hex_of(n, 0).len() == 0,
        hex_of(n, digits + 1) == hex_of(n / 16, digits).push("0123456789abcdef"@[n as int % 16]),
{
    hex_digit_at(n, digits + 1, digits as int);
    hex_of_len(n / 16, digits);
}

/// An identifier is written in thirty-two hexadecimal digits, with hyphens before the ninth, the
/// thirteenth, the seventeenth and the twenty-first of them.
pub proof fn identifier_is_hexadecimal(id: u128, i: int)
    requires
        0 <= i < 36,
    ensures
        uuid_text(id).len() == 36,
        i == 8 || i == 13 || i == 18 || i == 23 ==> uuid_text(id)[i] == '-',
        i < 8 ==> uuid_text(id)[i] == hex_of(id as nat, 32)[i],
        8 < i < 13 ==> uuid_text(id)[i] == hex_of(id as nat, 32)[i - 1],
        13 < i < 18 ==> uuid_text(id)[i] == hex_of(id as nat, 32)[i - 2],
        18 < i < 23 ==> uuid_text(id)[i] == hex_of(id as nat, 32)[i - 3],
        23 < i ==> uuid_text(id)[i] == hex_of(id as nat, 32)[i - 4],
        i != 8 && i != 13 && i != 18 && i != 23 ==> uuid_text(id)[i] != '/',
{
    reveal_strlit("-");
    hex_of_len(id as nat, 32);
    reveal_strlit("0123456789abcdef");
    let k = if i < 8 {
        i
    } else if i < 13 {
        i - 1
    } else if i < 18 {
        i - 2
    } else if i < 23 {
        i - 3
    } else {
        i - 4
    };
    if i != 8 && i != 13 && i != 18 && i != 23 {
        hex_digit_at(id as nat, 32, k);
    }
}

/// An identifier is shown by its notation.
pub proof fn identifier_is_shown(id: ExecutionId, res: String)
    requires
        call_ensures(ExecutionId::show, (&id,), res),
    ensures
        res@ == uuid_text(id.0),
{
}

/// A state is named by one word, and shown by another.
pub proof fn states_have_their_words(
    word: &str,
    known: bool,
    state: ExecutionState,
    shown: String,
)
    requires
        call_ensures(ExecutionState::is_known, (word,), known),
        call_ensures(ExecutionState::from_word, (word,), state),
        call_ensures(ExecutionState::show, (&state,), shown),
    ensures
        known <==> word@ == "initialized"@ || word@ == "running"@ || word@ == "failed"@ || word@
            == "completed"@,
        word@ == "initialized"@ <==> state is Initialized,
        word@ == "running"@ <==> state is Running,
        word@ == "failed"@ <==> state is Failed,
        word@ == "completed"@ <==> state is Completed,
        state is Initialized ==> shown@ == "Initialized"@,
        state is Running ==> shown@ == "Running"@,
        state is Failed ==> shown@ == "Interrupted"@,
        state is Completed ==> shown@ == "Completed"@,
{
    reveal_strlit("initialized");
    reveal_strlit("running");
    reveal_strlit("failed");
    reveal_strlit("completed");
    assert("initialized"@[0] == 'i');
    assert("running"@[0] == 'r');
    assert("failed"@[0] == 'f');
    assert("completed"@[0] == 'c');
}

/// Whether two updates set the same.
pub open spec fn same_updates(a: ExecutionUpdate, b: ExecutionUpdate) -> bool {
    &&& a.state == b.state
    &&& a.execution_exit_code == b.execution_exit_code
    &&& a.execution_beginning_date == b.execution_beginning_date
    &&& a.execution_ending_date == b.execution_ending_date
    &&& same_text(a.executor, b.executor)
    &&& same_text(a.execution_stdout, b.execution_stdout)
    &&& same_text(a.execution_stderr, b.execution_stderr)
    &&& same_text(a.execution_message, b.execution_message)
    &&& same_features(a.execution_features, b.execution_features)
}

proof fn update_views_are_the_same(a: ExecutionUpdate, b: ExecutionUpdate)
    requires
        a@ == b@,
    ensures
        same_updates(a, b),
{
    assert(a@.executor == b@.executor && a@.execution_message == b@.execution_message);
    assert(a@.execution_stdout == b@.execution_stdout);
    assert(a@.execution_stderr == b@.execution_stderr);
    assert(a@.execution_features == b@.execution_features);
}

/// A new update sets nothing, and what was put into an update is what it holds.
pub proof fn updates_are_built(
    builder: ExecutionUpdateBuilder,
    fresh: ExecutionUpdateBuilder,
    built: ExecutionUpdate,
)
    requires
        call_ensures(ExecutionUpdateBuilder::new, (), fresh),
        call_ensures(ExecutionUpdateBuilder::build, (builder,), built),
    ensures
        fresh.0.state is None && fresh.0.executor is None && fresh.0.execution_exit_code is None,
        fresh.0.execution_stdout is None && fresh.0.execution_stderr is None,
        fresh.0.execution_message is None && fresh.0.execution_features is None,
        fresh.0.execution_beginning_date is None && fresh.0.execution_ending_date is None,
        same_updates(built, builder.0),
{
    let none = fresh.0@;
    assert(none == UpdateView::empty());
    assert(none.executor is None && none.execution_stdout is None && none.execution_stderr is None);
    assert(none.execution_message is None && none.execution_features is None);
    update_views_are_the_same(built, builder.0);
}

/// The state that is put into an update is what it sets, and nothing else changes.
pub proof fn state_is_put_in(
    builder: ExecutionUpdateBuilder,
    value: ExecutionState,
    res: ExecutionUpdateBuilder,
)
    requires
        call_ensures(ExecutionUpdateBuilder::state, (builder, value), res),
    ensures
        res.0.state == Some(value),
        res.0.execution_exit_code == builder.0.execution_exit_code,
        res.0.execution_beginning_date == builder.0.execution_beginning_date,
        res.0.execution_ending_date == builder.0.execution_ending_date,
        same_text(res.0.executor, builder.0.executor),
        same_text(res.0.execution_stdout, builder.0.execution_stdout),
        same_text(res.0.execution_stderr, builder.0.execution_stderr),
        same_text(res.0.execution_message, builder.0.execution_message),
        same_features(res.0.execution_features, builder.0.execution_features),
{
    let before = builder.0@;
    let after = res.0@;
    assert(after == (UpdateView { state: after.state, ..before }));
    assert(after.executor == before.executor);
    assert(after.execution_stdout == before.execution_stdout);
    assert(after.execution_stderr == before.execution_stderr);
    assert(after.execution_message == before.execution_message);
    assert(after.execution_features == before.execution_features);
}

/// The exit code that is put into an update is what it sets, and nothing else changes.
pub proof fn exit_code_is_put_in(
    builder: ExecutionUpdateBuilder,
    value: i32,
    res: ExecutionUpdateBuilder,
)
    requires
        call_ensures(ExecutionUpdateBuilder::exit_code, (builder, value), res),
    ensures
        res.0.execution_exit_code == Some(value),
        res.0.state == builder.0.state,
        res.0.execution_beginning_date == builder.0.execution_beginning_date,
        res.0.execution_ending_date == builder.0.execution_ending_date,
        same_text(res.0.executor, builder.0.executor),
        same_text(res.0.execution_stdout, builder.0.execution_stdout),
        same_text(res.0.execution_stderr, builder.0.execution_stderr),
        same_text(res.0.execution_message, builder.0.execution_message),
        same_features(res.0.execution_features, builder.0.execution_features),
{
    let before = builder.0@;
    let after = res.0@;
    assert(after == (UpdateView { execution_exit_code: after.execution_exit_code, ..before }));
    assert(after.executor == before.executor);
    assert(after.execution_stdout == before.execution_stdout);
    assert(after.execution_stderr == before.execution_stderr);
    assert(after.execution_message == before.execution_message);
    assert(after.execution_features == before.execution_features);
}

/// The beginning that is put into an update is what it sets, and nothing else changes.
pub proof fn beginning_date_is_put_in(
    builder: ExecutionUpdateBuilder,
    value: Timestamp,
    res: ExecutionUpdateBuilder,
)
    requires
        call_ensures(ExecutionUpdateBuilder::beginning_date, (builder, value), res),
    ensures
        res.0.execution_beginning_date == Some(value),
        res.0.state == builder.0.state,
        res.0.execution_exit_code == builder.0.execution_exit_code,
        res.0.execution_ending_date == builder.0.execution_ending_date,
        same_text(res.0.executor, builder.0.executor),
        same_text(res.0.execution_stdout, builder.0.execution_stdout),
        same_text(res.0.execution_stderr, builder.0.execution_stderr),
        same_text(res.0.execution_message, builder.0.execution_message),
        same_features(res.0.execution_features, builder.0.execution_features),
{
    let before = builder.0@;
    let after = res.0@;
    assert(after == (UpdateView { execution_beginning_date: after.execution_beginning_date, ..before }));
    assert(after.executor == before.executor);
    assert(after.execution_stdout == before.execution_stdout);
    assert(after.execution_stderr == before.execution_stderr);
    assert(after.execution_message == before.execution_message);
    assert(after.execution_features == before.execution_features);
}

/// The end that is put into an update is what it sets, and nothing else changes.
pub proof fn ending_date_is_put_in(
    builder: ExecutionUpdateBuilder,
    value: Timestamp,
    res: ExecutionUpdateBuilder,
)
    requires
        call_ensures(ExecutionUpdateBuilder::ending_date, (builder, value), res),
    ensures
        res.0.execution_ending_date == Some(value),
        res.0.state == builder.0.state,
        res.0.execution_exit_code == builder.0.execution_exit_code,
        res.0.execution_beginning_date == builder.0.execution_beginning_date,
        same_text(res.0.executor, builder.0.executor),
        same_text(res.0.execution_stdout, builder.0.execution_stdout),
        same_text(res.0.execution_stderr, builder.0.execution_stderr),
        same_text(res.0.execution_message, builder.0.execution_message),
        same_features(res.0.execution_features, builder.0.execution_features),
{
    let before = builder.0@;
    let after = res.0@;
    assert(after == (UpdateView { execution_ending_date: after.execution_ending_date, ..before }));
    assert(after.executor == before.executor);
    assert(after.execution_stdout == before.execution_stdout);
    assert(after.execution_stderr == before.execution_stderr);
    assert(after.execution_message == before.execution_message);
    assert(after.execution_features == before.execution_features);
}

/// The executor that is put into an update is what it sets, and nothing else changes.
pub proof fn executor_is_put_in(
    builder: ExecutionUpdateBuilder,
    value: String,
    res: ExecutionUpdateBuilder,
)
    requires
        call_ensures(ExecutionUpdateBuilder::executor, (builder, value), res),
    ensures
        res.0.executor is Some && res.0.executor->Some_0@ == value@,
        res.0.state == builder.0.state,
        res.0.execution_exit_code == builder.0.execution_exit_code,
        res.0.execution_beginning_date == builder.0.execution_beginning_date,
        res.0.execution_ending_date == builder.0.execution_ending_date,
        same_text(res.0.execution_stdout, builder.0.execution_stdout),
        same_text(res.0.execution_stderr, builder.0.execution_stderr),
        same_text(res.0.execution_message, builder.0.execution_message),
        same_features(res.0.execution_features, builder.0.execution_features),
{
    let before = builder.0@;
    let after = res.0@;
    assert(after == (UpdateView { executor: after.executor, ..before }));
    assert(after.execution_stdout == before.execution_stdout);
    assert(after.execution_stderr == before.execution_stderr);
    assert(after.execution_message == before.execution_message);
    assert(after.execution_features == before.execution_features);
    assert(after.executor == Some(value@));
}

/// The standard output that is put into an update is what it sets, and nothing else changes.
pub proof fn stdout_is_put_in(
    builder: ExecutionUpdateBuilder,
    value: String,
    res: ExecutionUpdateBuilder,
)
    requires
        call_ensures(ExecutionUpdateBuilder::stdout, (builder, value), res),
    ensures
        res.0.execution_stdout is Some && res.0.execution_stdout->Some_0@ == value@,
        res.0.state == builder.0.state,
        res.0.execution_exit_code == builder.0.execution_exit_code,
        res.0.execution_beginning_date == builder.0.execution_beginning_date,
        res.0.execution_ending_date == builder.0.execution_ending_date,
        same_text(res.0.executor, builder.0.executor),
        same_text(res.0.execution_stderr, builder.0.execution_stderr),
        same_text(res.0.execution_message, builder.0.execution_message),
        same_features(res.0.execution_features, builder.0.execution_features),
{
    let before = builder.0@;
    let after = res.0@;
    assert(after == (UpdateView { execution_stdout: after.execution_stdout, ..before }));
    assert(after.executor == before.executor);
    assert(after.execution_stderr == before.execution_stderr);
    assert(after.execution_message == before.execution_message);
    assert(after.execution_features == before.execution_features);
    assert(after.execution_stdout == Some(value@));
}

/// The standard error that is put into an update is what it sets, and nothing else changes.
pub proof fn stderr_is_put_in(
    builder: ExecutionUpdateBuilder,
    value: String,
    res: ExecutionUpdateBuilder,
)
    requires
        call_ensures(ExecutionUpdateBuilder::stderr, (builder, value), res),
    ensures
        res.0.execution_stderr is Some && res.0.execution_stderr->Some_0@ == value@,
        res.0.state == builder.0.state,
        res.0.execution_exit_code == builder.0.execution_exit_code,
        res.0.execution_beginning_date == builder.0.execution_beginning_date,
        res.0.execution_ending_date == builder.0.execution_ending_date,
        same_text(res.0.executor, builder.0.executor),
        same_text(res.0.execution_stdout, builder.0.execution_stdout),
        same_text(res.0.execution_message, builder.0.execution_message),
        same_features(res.0.execution_features, builder.0.execution_features),
{
    let before = builder.0@;
    let after = res.0@;
    assert(after == (UpdateView { execution_stderr: after.execution_stderr, ..before }));
    assert(after.executor == before.executor);
    assert(after.execution_stdout == before.execution_stdout);
    assert(after.execution_message == before.execution_message);
    assert(after.execution_features == before.execution_features);
    assert(after.execution_stderr == Some(value@));
}

/// The message that is put into an update is what it sets, and nothing else changes.
pub proof fn message_is_put_in(
    builder: ExecutionUpdateBuilder,
    value: String,
    res: ExecutionUpdateBuilder,
)
    requires
        call_ensures(ExecutionUpdateBuilder::message, (builder, value), res),
    ensures
        res.0.execution_message is Some && res.0.execution_message->Some_0@ == value@,
        res.0.state == builder.0.state,
        res.0.execution_exit_code == builder.0.execution_exit_code,
        res.0.execution_beginning_date == builder.0.execution_beginning_date,
        res.0.execution_ending_date == builder.0.execution_ending_date,
        same_text(res.0.executor, builder.0.executor),
        same_text(res.0.execution_stdout, builder.0.execution_stdout),
        same_text(res.0.execution_stderr, builder.0.execution_stderr),
        same_features(res.0.execution_features, builder.0.execution_features),
{
    let before = builder.0@;
    let after = res.0@;
    assert(after == (UpdateView { execution_message: after.execution_message, ..before }));
    assert(after.executor == before.executor);
    assert(after.execution_stdout == before.execution_stdout);
    assert(after.execution_stderr == before.execution_stderr);
    assert(after.execution_features == before.execution_features);
    assert(after.execution_message == Some(value@));
}

/// The features that are put into an update are what it sets, and nothing else changes.
pub proof fn features_are_put_in(
    builder: ExecutionUpdateBuilder,
    value: Vec<u64>,
    res: ExecutionUpdateBuilder,
)
    requires
        call_ensures(ExecutionUpdateBuilder::features, (builder, value), res),
    ensures
        res.0.execution_features is Some && res.0.execution_features->Some_0@ == value@,
        res.0.state == builder.0.state,
        res.0.execution_exit_code == builder.0.execution_exit_code,
        res.0.execution_beginning_date == builder.0.execution_beginning_date,
        res.0.execution_ending_date == builder.0.execution_ending_date,
        same_text(res.0.executor, builder.0.executor),
        same_text(res.0.execution_stdout, builder.0.execution_stdout),
        same_text(res.0.execution_stderr, builder.0.execution_stderr),
        same_text(res.0.execution_message, builder.0.execution_message),
{
    let before = builder.0@;
    let after = res.0@;
    assert(after == (UpdateView { execution_features: after.execution_features, ..before }));
    assert(after.executor == before.executor);
    assert(after.execution_stdout == before.execution_stdout);
    assert(after.execution_stderr == before.execution_stderr);
    assert(after.execution_message == before.execution_message);
    assert(after.execution_features == Some(value@));
}

/// What an error says: what failed, and the reason that it holds.
pub proof fn errors_say_what_failed(error: Error, said: String, shown: String)
    requires
        call_ensures(Error::message, (&error,), said),
        call_ensures(Error::show, (&error,), shown),
    ensures
        error is NotARepo ==> said@ == "Not a expegit repository"@,
        error is AlreadyRepo ==> said@ == "Already an expegit repository"@,
        error is InvalidRepo ==> said@ == "Invalid expegit repository"@,
        error is InvalidExpeCommit ==> said@ == "Invalid experiment commit"@,
        error is NoOutputAvailable ==> said@ == "No output was available"@,
        error is Channel ==> said@ == "Communication channel error: \n"@ + error->Channel_0@,
        error is FetchExperiment ==> said@ == "Failed to fetch experiment: \n"@ + error->FetchExperiment_0@,
        error is CreateExecution ==> said@ == "Failed to create execution: \n"@ + error->CreateExecution_0@,
        error is UpdateExecution ==> said@ == "Failed to update execution: \n"@ + error->UpdateExecution_0@,
        error is FinishExecution ==> said@ == "Failed to finish execution: \n"@ + error->FinishExecution_0@,
        error is FetchExecutions ==> said@ == "Failed to fetch executions: \n"@ + error->FetchExecutions_0@,
        error is DeleteExecution ==> said@ == "Failed to delete execution: \n"@ + error->DeleteExecution_0@,
        error is CacheError ==> said@ == "Error occurred with executions chache: \n"@ + error->CacheError_0@,
        error is OperationFetch ==> said@ == "Error occurred when fetching the operation: \n"@ + error->OperationFetch_0@,
        error is ReadExecution ==> said@ == "Failed to read execution from file"@,
        error is WriteExecution ==> said@ == "Failed to write execution from file"@,
        error is ReadCampaign ==> said@ == "Failed to read campaign from file"@,
        error is WriteCampaign ==> said@ == "Failed to write campaign from file"@,
        error is WrongPath ==> said@ == "Something went wrong with a path"@,
        error is NoFFPossible ==> said@ == "Couldn't perform fast-forward pull"@,
        error is Unknown ==> said@ == "Unknown error occurred"@,
        error is Io ==> said@ == "Io related error occurred: \n"@ + error->Io_0@,
        error is Git ==> said@ == "Git related error occurred: \n "@ + error->Git_0@,
        error is NotARepo ==> shown@ == "NotARepo"@,
        error is AlreadyRepo ==> shown@ == "AlreadyRepo"@,
        error is InvalidRepo ==> shown@ == "InvalidRepo"@,
        error is InvalidExpeCommit ==> shown@ == "InvalidExpeCommit"@,
        error is NoOutputAvailable ==> shown@ == "NoOutputAvailable"@,
        error is Channel ==> shown@ == "Channel("@ + debug_text(error->Channel_0@) + ")"@,
        error is FetchExperiment ==> shown@ == "FetchExperiment("@ + debug_text(error->FetchExperiment_0@) + ")"@,
        error is CreateExecution ==> shown@ == "CreateExecution("@ + debug_text(error->CreateExecution_0@) + ")"@,
        error is UpdateExecution ==> shown@ == "UpdateExecution("@ + debug_text(error->UpdateExecution_0@) + ")"@,
        error is FinishExecution ==> shown@ == "FinishExecution("@ + debug_text(error->FinishExecution_0@) + ")"@,
        error is FetchExecutions ==> shown@ == "FetchExecutions("@ + debug_text(error->FetchExecutions_0@) + ")"@,
        error is DeleteExecution ==> shown@ == "DeleteExecution("@ + debug_text(error->DeleteExecution_0@) + ")"@,
        error is CacheError ==> shown@ == "CacheError("@ + debug_text(error->CacheError_0@) + ")"@,
        error is OperationFetch ==> shown@ == "OperationFetch("@ + debug_text(error->OperationFetch_0@) + ")"@,
        error is ReadExecution ==> shown@ == "ReadExecution"@,
        error is WriteExecution ==> shown@ == "WriteExecution"@,
        error is ReadCampaign ==> shown@ == "ReadCampaign"@,
        error is WriteCampaign ==> shown@ == "WriteCampaign"@,
        error is WrongPath ==> shown@ == "WrongPath"@,
        error is NoFFPossible ==> shown@ == "NoFFPossible"@,
        error is Unknown ==> shown@ == "Unknown"@,
        error is Io ==> shown@ == "Io("@ + debug_text(error->Io_0@) + ")"@,
        error is Git ==> shown@ == "Git("@ + debug_text(error->Git_0@) + ")"@,
{
}

/// A campaign is shown by its root. A new one has the root and the version that were given.
pub proof fn campaign_is_shown_by_its_root(
    conf: CampaignConf,
    path: &str,
    version: &str,
    fresh: CampaignConf,
    res: String,
)
    requires
        call_ensures(CampaignConf::show, (&conf,), res),
        call_ensures(CampaignConf::new, (path, version), fresh),
    ensures
        res@ == "Campaign<["@ + conf.path->Some_0@ + "]>"@,
        fresh.path is Some && fresh.path->Some_0@ == path@,
        fresh.version@ == version@,
{
}

/// A copy of an update sets the same, and a copy of tags holds the same tags.
pub proof fn copied_updates_are_the_same(
    update: ExecutionUpdate,
    copied: ExecutionUpdate,
    tags: &Vec<ExecutionTag>,
    copied_tags: Vec<ExecutionTag>,
)
    requires
        call_ensures(ExecutionUpdate::clone, (&update,), copied),
        call_ensures(copy_tags, (tags,), copied_tags),
    ensures
        same_updates(copied, update),
        copied_tags@ == tags@,
{
    update_views_are_the_same(copied, update);
}

} // verus!
