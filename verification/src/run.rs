//! The execution of a script on a remote host. All that is inside the folder that contains the
//! script is sent to the distant machine, but for the files that match a glob of the `.sendignore`
//! file. After the execution the files are fetched, but for those that match a glob of the
//! `.fetchignore` file.
use vstd::prelude::*;
#[allow(unused_imports)]
use vstd::string::*;
use crate::commons::Output;
pub use crate::hosts::LeaveConfig;
use crate::misc::{file_name, parent};
#[allow(unused_imports)]
use crate::misc::{file_name_of, folder_of};
use crate::repository::{ExecutionId, uuid_new_v4};
#[allow(unused_imports)]
use crate::repository::{is_random_id, uuid_text};
#[allow(unused_imports)]
use crate::text::{
    is_absent, paths_are_joined, placeholder_absent_in_three, placeholder_is_replaced,
    replaced_at_first, replaced_where_absent,
};
#[allow(unused_imports)]
use crate::text::{
    cat, cat4, cat5, copies, join, joined, opt_text, path_in, path_join, replace, replaced, texts,
};
use crate::{FETCH_ARCH_RPATH, FETCH_IGNORE_RPATH, SEND_ARCH_RPATH};

verus! {

//---------------------------------------------------------------------------------------- ERRORS
#[derive(Clone, Copy, Debug, PartialEq, Eq, Structural)]
pub enum Error {
    ProfileError,
    Unknown,
}

impl Error {
    /// The text of the error.
    pub fn message(&self) -> (res: String)
        ensures
            res@ == match self {
                Error::ProfileError => "The profile is ill formed"@,
                Error::Unknown => "Unknown error occured"@,
            },
    {
        match self {
            Error::ProfileError => "The profile is ill formed".to_owned(),
            Error::Unknown => "Unknown error occured".to_owned(),
        }
    }
}

//------------------------------------------------------------------------------------------ YAML
/// How many documents a yaml text holds, or what is said where it cannot be scanned.
pub uninterp spec fn yaml_documents(text: Seq<char>) -> Result<nat, Seq<char>>;

/// The text that stands under a key of the first document of a yaml text, if there is one.
pub uninterp spec fn yaml_field(text: Seq<char>, key: Seq<char>) -> Option<Seq<char>>;

/// The items of the list that stands under a key of the first document of a yaml text, if there is
/// one: the text of each item that is one.
pub uninterp spec fn yaml_list(text: Seq<char>, key: Seq<char>) -> Option<Seq<Option<Seq<char>>>>;

/// Counts the documents of a yaml text, by `yaml_rust::YamlLoader::load_from_str`. Which texts can be
/// scanned is left to the name of the result. The loader recurses on nested blocks: at which depth
/// the stack runs out depends on the machine, as with memory, and is not stated.
#[verifier::external_body]
fn load_documents(text: &str) -> (res: Result<usize, String>)
    ensures
        match res {
            Ok(n) => yaml_documents(text@) == Ok::<nat, Seq<char>>(n as nat),
            Err(reason) => yaml_documents(text@) == Err::<nat, Seq<char>>(reason@),
        },
{
    yaml_rust::YamlLoader::load_from_str(text).map(|docs| docs.len()).map_err(|e| e.to_string())
}

/// Reads a text of the first document, by `yaml_rust::Yaml::as_str` on what stands under the key.
#[verifier::external_body]
fn load_field(text: &str, key: &str) -> (res: Option<String>)
    requires
        yaml_documents(text@) is Ok,
        yaml_documents(text@)->Ok_0 > 0,
    ensures
        opt_text(res) == yaml_field(text@, key@),
{
    yaml_rust::YamlLoader::load_from_str(text).unwrap()[0][key].as_str().map(|s| s.to_owned())
}

/// The texts of optional strings.
pub open spec fn opt_texts(items: Seq<Option<String>>) -> Seq<Option<Seq<char>>> {
    Seq::new(items.len(), |i: int| opt_text(items[i]))
}

/// The texts of an optional list of optional strings.
pub open spec fn list_texts(list: Option<Vec<Option<String>>>) -> Option<Seq<Option<Seq<char>>>> {
    match list {
        Some(items) => Some(opt_texts(items@)),
        None => None,
    }
}

/// Reads a list of the first document, by `yaml_rust::Yaml::as_vec` on what stands under the key, and
/// its items by `yaml_rust::Yaml::as_str`.
#[verifier::external_body]
fn load_list(text: &str, key: &str) -> (res: Option<Vec<Option<String>>>)
    requires
        yaml_documents(text@) is Ok,
        yaml_documents(text@)->Ok_0 > 0,
    ensures
        list_texts(res) == yaml_list(text@, key@),
{
    yaml_rust::YamlLoader::load_from_str(text).unwrap()[0][key].as_vec().map(
        |v| v.iter().map(|x| x.as_str().map(|s| s.to_owned())).collect(),
    )
}

//--------------------------------------------------------------------------------------- PROFILE
/// What a profile file holds under the keys that matter.
#[derive(Debug)]
pub struct ProfileFields {
    pub ssh_config: Option<String>,
    pub host_directory: Option<String>,
    pub before_execution: Option<Vec<Option<String>>>,
    pub execution: Option<Vec<Option<String>>>,
    pub after_execution: Option<Vec<Option<String>>>,
}

/// What the fields of a profile hold.
pub ghost struct FieldsView {
    pub ssh_config: Option<Seq<char>>,
    pub host_directory: Option<Seq<char>>,
    pub before_execution: Option<Seq<Option<Seq<char>>>>,
    pub execution: Option<Seq<Option<Seq<char>>>>,
    pub after_execution: Option<Seq<Option<Seq<char>>>>,
}

impl View for ProfileFields {
    type V = FieldsView;

    open spec fn view(&self) -> FieldsView {
        FieldsView {
            ssh_config: opt_text(self.ssh_config),
            host_directory: opt_text(self.host_directory),
            before_execution: list_texts(self.before_execution),
            execution: list_texts(self.execution),
            after_execution: list_texts(self.after_execution),
        }
    }
}

/// What the first document of a yaml text holds under the keys of a profile.
pub open spec fn yaml_fields(text: Seq<char>) -> FieldsView {
    FieldsView {
        ssh_config: yaml_field(text, "ssh_config"@),
        host_directory: yaml_field(text, "host_directory"@),
        before_execution: yaml_list(text, "before_execution"@),
        execution: yaml_list(text, "execution"@),
        after_execution: yaml_list(text, "after_execution"@),
    }
}

/// Whether each item of a list is a text; so it is where there is no list.
pub open spec fn all_texts(list: Option<Seq<Option<Seq<char>>>>) -> bool {
    list is Some ==> forall|i: int|
        0 <= i < list->Some_0.len() ==> (#[trigger] list->Some_0[i]) is Some
}

/// The texts of a list; none where there is no list.
pub open spec fn list_items(list: Option<Seq<Option<Seq<char>>>>) -> Seq<Seq<char>> {
    match list {
        Some(items) => Seq::new(items.len(), |i: int| items[i]->Some_0),
        None => Seq::empty(),
    }
}

impl FieldsView {
    /// Whether the required fields are there.
    pub open spec fn is_complete(self) -> bool {
        self.ssh_config is Some && self.host_directory is Some && self.execution is Some
    }

    /// Whether the lists hold texts only, as far as they are looked at: the first required field
    /// that lacks ends the reading.
    pub open spec fn is_readable(self) -> bool {
        self.ssh_config is Some && self.host_directory is Some ==> {
            &&& all_texts(self.before_execution)
            &&& self.execution is Some ==> all_texts(self.execution) && all_texts(
                self.after_execution,
            )
        }
    }
}

/// Represents a host on which a run can be executed:
/// + name: The name of the profile
/// + ssh_config: Name of the ssh config to use
/// + host_directory: Path to the host directory in which to put the code
/// + before_execution: Bash commands to execute before the script
/// + execution: Bash commands to execute the script. The following environment variables are
///   replaced at run time: `$SCRIPT_NAME`, the file name of the script, and `$SCRIPT_ARGS`, the
///   arguments of the script
/// + after_execution: Bash commands to execute after the script
#[derive(Debug)]
pub struct HostProfile {
    pub name: String,
    pub ssh_config: String,
    pub host_directory: String,
    pub before_execution: Vec<String>,
    pub execution: Vec<String>,
    pub after_execution: Vec<String>,
}

/// Whether a profile is the one that the fields of a file make.
pub open spec fn is_profile(profile: HostProfile, file_name: Seq<char>, fields: FieldsView) -> bool {
    &&& profile.name@ == replaced(file_name, ".yml"@, Seq::empty())
    &&& Some(profile.ssh_config@) == fields.ssh_config
    &&& Some(profile.host_directory@) == fields.host_directory
    &&& texts(profile.before_execution@) == list_items(fields.before_execution)
    &&& texts(profile.execution@) == list_items(fields.execution)
    &&& texts(profile.after_execution@) == list_items(fields.after_execution)
}

fn take_items(list: Option<Vec<Option<String>>>) -> (res: Vec<String>)
    requires
        all_texts(list_texts(list)),
    ensures
        texts(res@) == list_items(list_texts(list)),
{
    let mut res: Vec<String> = Vec::new();
    match list {
        None => {},
        Some(items) => {
            let ghost all = opt_texts(items@);
            let mut i: usize = 0;
            while i < items.len()
                invariant
                    i <= items.len(),
                    all == opt_texts(items@),
                    forall|j: int| 0 <= j < all.len() ==> (#[trigger] all[j]) is Some,
                    res.len() == i,
                    forall|j: int| 0 <= j < i ==> (#[trigger] res@[j])@ == all[j]->Some_0,
                decreases items.len() - i,
            {
                assert(all[i as int] is Some);
                match &items[i] {
                    Some(text) => {
                        res.push(text.clone());
                    },
                    None => {},
                }
                i = i + 1;
            }
            assert(texts(res@) =~= list_items(Some(all)));
        },
    }
    assert(texts(res@) =~= list_items(list_texts(list)));
    res
}

fn only_texts(list: &Option<Vec<Option<String>>>) -> (res: bool)
    ensures
        res == all_texts(list_texts(*list)),
{
    match list {
        None => true,
        Some(items) => {
            let ghost all = opt_texts(items@);
            let mut i: usize = 0;
            while i < items.len()
                invariant
                    i <= items.len(),
                    all == opt_texts(items@),
                    list_texts(*list) == Some(all),
                    forall|j: int| 0 <= j < i ==> (#[trigger] all[j]) is Some,
                decreases items.len() - i,
            {
                if items[i].is_none() {
                    assert(all[i as int] is None);
                    return false;
                }
                i = i + 1;
            }
            true
        },
    }
}

/// Why a profile could not be imported.
#[derive(Debug)]
pub enum ImportError {
    /// The file is no yaml.
    Scan(String),
    /// A required field lacks.
    Profile(Error),
}

impl HostProfile {
    /// The host configuration that the fields of a file make. The name of the file without its
    /// extension is the name of the profile.
    pub fn from_fields(file_name: &str, fields: ProfileFields) -> (res: Result<HostProfile, Error>)
        requires
            fields@.is_readable(),
        ensures
            match res {
                Ok(profile) => fields@.is_complete() && is_profile(profile, file_name@, fields@),
                Err(e) => !fields@.is_complete() && e == Error::ProfileError,
            },
    {
        proof {
            reveal_strlit("");
            assert(""@ =~= Seq::<char>::empty());
        }
        let ssh_config = match fields.ssh_config {
            Some(s) => s,
            None => {
                return Err(Error::ProfileError);
            },
        };
        let host_directory = match fields.host_directory {
            Some(s) => s,
            None => {
                return Err(Error::ProfileError);
            },
        };
        let before_execution = take_items(fields.before_execution);
        if fields.execution.is_none() {
            return Err(Error::ProfileError);
        }
        let execution = take_items(fields.execution);
        let after_execution = take_items(fields.after_execution);
        Ok(
            HostProfile {
                name: replace(file_name, ".yml", ""),
                ssh_config,
                host_directory,
                before_execution,
                execution,
                after_execution,
            },
        )
    }

    /// Imports a host configuration from what a `yaml` file of the given name holds. There is none
    /// where the file holds no document, or where a command is no text.
    pub fn import(file_name: &str, yml_string: &str) -> (res: Result<
        Option<HostProfile>,
        ImportError,
    >)
        ensures
            match yaml_documents(yml_string@) {
                Err(reason) => {
                    &&& res is Err
                    &&& res->Err_0 is Scan
                    &&& res->Err_0->Scan_0@ == reason
                },
                Ok(n) => {
                    let fields = yaml_fields(yml_string@);
                    if n == 0 || !fields.is_readable() {
                        res == Ok::<Option<HostProfile>, ImportError>(None)
                    } else if !fields.is_complete() {
                        res == Err::<Option<HostProfile>, ImportError>(
                            ImportError::Profile(Error::ProfileError),
                        )
                    } else {
                        &&& res is Ok
                        &&& res->Ok_0 is Some
                        &&& is_profile(res->Ok_0->Some_0, file_name@, fields)
                    }
                },
            },
    {
        match load_documents(yml_string) {
            Err(reason) => Err(ImportError::Scan(reason)),
            Ok(n) => {
                if n == 0 {
                    return Ok(None);
                }
                let fields = ProfileFields {
                    ssh_config: load_field(yml_string, "ssh_config"),
                    host_directory: load_field(yml_string, "host_directory"),
                    before_execution: load_list(yml_string, "before_execution"),
                    execution: load_list(yml_string, "execution"),
                    after_execution: load_list(yml_string, "after_execution"),
                };
                if fields.ssh_config.is_some() && fields.host_directory.is_some() {
                    if !only_texts(&fields.before_execution) {
                        return Ok(None);
                    }
                    if fields.execution.is_some() && !(only_texts(&fields.execution) && only_texts(
                        &fields.after_execution,
                    )) {
                        return Ok(None);
                    }
                }
                match HostProfile::from_fields(file_name, fields) {
                    Ok(profile) => Ok(Some(profile)),
                    Err(e) => Err(ImportError::Profile(e)),
                }
            },
        }
    }

    /// The commands of the profile, one after the other.
    pub open spec fn all_commands(&self) -> Seq<Seq<char>> {
        texts(self.before_execution@) + texts(self.execution@) + texts(self.after_execution@)
    }

    /// Returns the execution string.
    pub fn get_complete_execution_string(&self) -> (res: String)
        ensures
            res@ == joined(self.all_commands(), " && "@),
    {
        let mut complete = copies(&self.before_execution);
        let mut execution = copies(&self.execution);
        let mut after = copies(&self.after_execution);
        complete.append(&mut execution);
        complete.append(&mut after);
        assert(texts(complete@) =~= self.all_commands());
        join(&complete, " && ")
    }

    /// Returns the ssh config string.
    pub fn get_ssh_config(&self) -> (res: String)
        ensures
            res@ == self.ssh_config@,
    {
        self.ssh_config.clone()
    }

    /// Returns the host execution directory.
    pub fn get_host_directory(&self) -> (res: String)
        ensures
            res@ == self.host_directory@,
    {
        self.host_directory.clone()
    }
}

//------------------------------------------------------------------------------------------- RUN
/// What a `.sendignore` file holds that is created where there is none.
pub const SEND_IGNORE_TEXT: &'static str = "# Created by Runaway\n# Files that match globs pattern written here will not be sent to remote host.\n# If you have a .fetchignore, do not ignore it here :)";

/// What a `.fetchignore` file holds that is created where there is none.
pub const FETCH_IGNORE_TEXT: &'static str = "# Created by Runaway\n# Files that match globs pattern written here will not be fetch from remote host.";

/// Allows to run a script on a remote host. The `script_path` field must be a valid path to an
/// executable script. The `profile` string must be the name of a valid profile located in the
/// `~/.runaway` directory. The `parameters` string must be a set of valid parameters for the script.
#[derive(Debug)]
pub struct RunConfig {
    pub script_path: String,
    pub profile: String,
    pub parameters: String,
}

/// The folder that contains the profiles of runs in the home directory.
pub const RUN_PROFILES_RPATH: &'static str = ".runaway";

impl RunConfig {
    /// The path of the profile, given the home directory.
    pub fn profile_path(&self, home: &str) -> (res: String)
        ensures
            res@ == path_in(path_in(home@, ".runaway"@), self.profile@ + ".yml"@),
    {
        let folder = path_join(home, RUN_PROFILES_RPATH);
        path_join(folder.as_str(), cat(self.profile.as_str(), ".yml").as_str())
    }
}

/// Where a run stands: what was asked for and is waited for.
#[derive(Clone, Copy, Debug, PartialEq, Eq, Structural)]
pub enum RunStage {
    /// The remote folder of the code is made.
    MakeFolder,
    /// The code is sent.
    Send,
    /// The script is executed.
    Execute,
    /// The data is fetched.
    Fetch,
    /// The data is unpacked.
    Unpack,
    /// The remote files are cleaned up.
    Clean,
    Over,
}

/// What came of the last action.
pub enum RunEvent {
    /// A command was executed on the remote, or failed with the given text.
    Executed(Result<Output, String>),
    /// A file was moved or unpacked, or not, for the given reason.
    Done(Result<(), String>),
}

/// What has to be done next. The files that are sent and fetched go through the ssh config of the
/// profile.
pub enum RunAction {
    /// Execute a command on the remote; its streams are captured or not.
    Execute(String, bool),
    /// Send the local file to the remote folder.
    Send(String, String),
    /// Fetch to the local path the remote file.
    Fetch(String, String),
    /// Unpack the local archive.
    Unpack(String),
    Return(Result<Output, String>),
}

/// A run: everything that the steps need to know.
pub struct Run {
    pub profile: HostProfile,
    /// The folder of the script.
    pub directory: String,
    /// The file name of the script.
    pub script: String,
    pub parameters: String,
    /// The hash of the code.
    pub hash: String,
    pub id: ExecutionId,
    pub leave: LeaveConfig,
    pub capture_streams: bool,
    pub stage: RunStage,
    /// The output of the script, once it was executed.
    pub output: Option<Output>,
}

impl Run {
    /// The remote folder of the code, which is that of its hash.
    pub open spec fn host_path(&self) -> Seq<char> {
        path_in(self.profile.host_directory@, self.hash@)
    }

    /// The remote folder of the run.
    pub open spec fn host_id_path(&self) -> Seq<char> {
        path_in(self.host_path(), uuid_text(self.id.0))
    }

    /// The commands of the profile, with the script and its arguments in them.
    pub open spec fn script_command(&self) -> Seq<char> {
        replaced(
            replaced(
                joined(self.profile.all_commands(), " && "@),
                "$SCRIPT_NAME"@,
                self.script@,
            ),
            "$SCRIPT_ARGS"@,
            self.parameters@,
        )
    }

    /// The complete command: the code is unpacked into the folder of the run, the script is executed
    /// there, and the data is packed.
    pub open spec fn complete_command(&self) -> Seq<char> {
        joined(
            seq![
                "mkdir "@ + self.host_id_path(),
                "cd "@ + self.host_id_path(),
                "tar -xf "@ + path_in(self.host_path(), SEND_ARCH_RPATH@) + " -C "@
                    + self.host_id_path(),
                self.script_command(),
                "tar -cf "@ + path_in(self.host_id_path(), FETCH_ARCH_RPATH@) + " -X "@ + path_in(
                    self.host_id_path(),
                    FETCH_IGNORE_RPATH@,
                ) + " *"@,
            ],
            " && "@,
        )
    }

    /// The output of the script is there once it was executed.
    pub open spec fn wf(&self) -> bool {
        self.stage is Fetch || self.stage is Unpack || self.stage is Clean ==> self.output is Some
    }

    /// Whether the event can come of what was asked for.
    pub open spec fn accepts(&self, event: RunEvent) -> bool {
        match self.stage {
            RunStage::MakeFolder | RunStage::Execute | RunStage::Clean => event is Executed,
            RunStage::Send | RunStage::Fetch | RunStage::Unpack => event is Done,
            RunStage::Over => false,
        }
    }

    /// Whether nothing but the stage and the output changed.
    pub open spec fn same_run(&self, other: &Run) -> bool {
        &&& self.profile == other.profile
        &&& self.directory == other.directory
        &&& self.script == other.script
        &&& self.parameters == other.parameters
        &&& self.hash == other.hash
        &&& self.id == other.id
        &&& self.leave == other.leave
        &&& self.capture_streams == other.capture_streams
    }
}

/// The action returns the output of the script.
pub open spec fn returns_output(run: Run, action: RunAction) -> bool {
    &&& action is Return
    &&& action->Return_0 is Ok
    &&& action->Return_0->Ok_0@ == run.output->Some_0@
}

/// The action executes the command.
pub open spec fn executes(action: RunAction, command: Seq<char>, capture_streams: bool) -> bool {
    &&& action is Execute
    &&& action->Execute_0@ == command
    &&& action->Execute_1 == capture_streams
}

/// What a step does: how the run goes on, and what has to be done next. The code is sent only where
/// its folder could be made, that is where it is not on the remote yet. What is left on the remote
/// depends on the leave configuration.
pub open spec fn run_step(before: Run, event: RunEvent, after: Run, action: RunAction) -> bool {
    &&& after.same_run(&before)
    &&& match (before.stage, event) {
        (RunStage::MakeFolder, RunEvent::Executed(made)) => {
            &&& after.output == before.output
            &&& if made is Ok {
                &&& after.stage == RunStage::Send
                &&& action is Send
                &&& action->Send_0@ == path_in(before.directory@, SEND_ARCH_RPATH@)
                &&& action->Send_1@ == before.host_path()
            } else {
                &&& after.stage == RunStage::Execute
                &&& executes(action, before.complete_command(), before.capture_streams)
            }
        },
        (RunStage::Send, RunEvent::Done(sent)) => {
            &&& after.output == before.output
            &&& match sent {
                Ok(_) => {
                    &&& after.stage == RunStage::Execute
                    &&& executes(action, before.complete_command(), before.capture_streams)
                },
                Err(reason) => {
                    &&& after.stage == RunStage::Over
                    &&& action == RunAction::Return(Err(reason))
                },
            }
        },
        (RunStage::Execute, RunEvent::Executed(executed)) => match executed {
            Ok(output) => {
                &&& after.output == Some(output)
                &&& after.stage == RunStage::Fetch
                &&& action is Fetch
                &&& action->Fetch_0@ == path_in(before.directory@, FETCH_ARCH_RPATH@)
                &&& action->Fetch_1@ == path_in(before.host_id_path(), FETCH_ARCH_RPATH@)
            },
            Err(reason) => {
                &&& after.output == before.output
                &&& after.stage == RunStage::Over
                &&& action == RunAction::Return(Err(reason))
            },
        },
        (RunStage::Fetch, RunEvent::Done(fetched)) => {
            &&& after.output == before.output
            &&& match fetched {
                Ok(_) => {
                    &&& after.stage == RunStage::Unpack
                    &&& action is Unpack
                    &&& action->Unpack_0@ == path_in(before.directory@, FETCH_ARCH_RPATH@)
                },
                Err(reason) => {
                    &&& after.stage == RunStage::Over
                    &&& action == RunAction::Return(Err(reason))
                },
            }
        },
        (RunStage::Unpack, RunEvent::Done(unpacked)) => {
            &&& after.output == before.output
            &&& match unpacked {
                Ok(_) => match before.leave {
                    LeaveConfig::Nothing => {
                        &&& after.stage == RunStage::Clean
                        &&& executes(action, "rm -rf "@ + before.host_path(), false)
                    },
                    LeaveConfig::Code => {
                        &&& after.stage == RunStage::Clean
                        &&& executes(action, "rm -rf "@ + before.host_id_path(), false)
                    },
                    LeaveConfig::Everything => {
                        &&& after.stage == RunStage::Over
                        &&& returns_output(before, action)
                    },
                },
                Err(reason) => {
                    &&& after.stage == RunStage::Over
                    &&& action == RunAction::Return(Err(reason))
                },
            }
        },
        (RunStage::Clean, RunEvent::Executed(cleaned)) => {
            &&& after.output == before.output
            &&& after.stage == RunStage::Over
            &&& match cleaned {
                Ok(_) => returns_output(before, action),
                Err(reason) => action == RunAction::Return(Err(reason)),
            }
        },
        _ => false,
    }
}

impl RunConfig {
    /// Starts the execution of the configuration on the remote host, under a random identifier. The
    /// code of the folder of the script, whose canonical path is given, was packed and has the given
    /// hash.
    pub fn execute(
        &self,
        profile: HostProfile,
        script_path: &str,
        hash: String,
        leave: LeaveConfig,
        capture_streams: bool,
    ) -> (res: (Run, RunAction))
        ensures
            res.0.wf(),
            res.0.profile == profile,
            res.0.directory@ == folder_of(script_path@),
            res.0.script@ == file_name_of(script_path@),
            res.0.parameters@ == self.parameters@,
            res.0.hash == hash,
            is_random_id(res.0.id.0),
            res.0.leave == leave,
            res.0.capture_streams == capture_streams,
            res.0.stage == RunStage::MakeFolder,
            res.0.output is None,
            executes(res.1, "mkdir "@ + res.0.host_path(), false),
    {
        let run = Run {
            profile,
            directory: parent(script_path),
            script: file_name(script_path),
            parameters: self.parameters.clone(),
            hash,
            id: ExecutionId(uuid_new_v4()),
            leave,
            capture_streams,
            stage: RunStage::MakeFolder,
            output: None,
        };
        let command = cat("mkdir ", run.get_host_path().as_str());
        (run, RunAction::Execute(command, false))
    }
}

impl Run {
    fn get_host_path(&self) -> (res: String)
        ensures
            res@ == self.host_path(),
    {
        path_join(self.profile.host_directory.as_str(), self.hash.as_str())
    }

    fn get_host_id_path(&self) -> (res: String)
        ensures
            res@ == self.host_id_path(),
    {
        path_join(self.get_host_path().as_str(), self.id.show().as_str())
    }

    /// The complete command that is executed on the remote.
    pub fn get_complete_command(&self) -> (res: String)
        ensures
            res@ == self.complete_command(),
    {
        let id_path = self.get_host_id_path();
        let named = replace(
            self.profile.get_complete_execution_string().as_str(),
            "$SCRIPT_NAME",
            self.script.as_str(),
        );
        let command = replace(named.as_str(), "$SCRIPT_ARGS", self.parameters.as_str());
        let sent = path_join(self.get_host_path().as_str(), SEND_ARCH_RPATH);
        let fetched = path_join(id_path.as_str(), FETCH_ARCH_RPATH);
        let ignored = path_join(id_path.as_str(), FETCH_IGNORE_RPATH);
        let mut complete: Vec<String> = Vec::new();
        complete.push(cat("mkdir ", id_path.as_str()));
        complete.push(cat("cd ", id_path.as_str()));
        complete.push(cat4("tar -xf ", sent.as_str(), " -C ", id_path.as_str()));
        complete.push(command);
        complete.push(cat5("tar -cf ", fetched.as_str(), " -X ", ignored.as_str(), " *"));
        assert(texts(complete@) =~= seq![
            "mkdir "@ + self.host_id_path(),
            "cd "@ + self.host_id_path(),
            "tar -xf "@ + path_in(self.host_path(), SEND_ARCH_RPATH@) + " -C "@
                + self.host_id_path(),
            self.script_command(),
            "tar -cf "@ + path_in(self.host_id_path(), FETCH_ARCH_RPATH@) + " -X "@ + path_in(
                self.host_id_path(),
                FETCH_IGNORE_RPATH@,
            ) + " *"@,
        ]);
        join(&complete, " && ")
    }

    fn get_output(&self) -> (res: Output)
        requires
            self.output is Some,
        ensures
            res@ == self.output->Some_0@,
    {
        match &self.output {
            Some(output) => output.clone(),
            None => vstd::pervasive::unreached(),
        }
    }

    /// Takes what came of the last action into account, and says what has to be done next.
    pub fn step(&mut self, event: RunEvent) -> (res: RunAction)
        requires
            old(self).wf(),
            old(self).accepts(event),
        ensures
            final(self).wf(),
            run_step(*old(self), event, *final(self), res),
    {
        match (self.stage, event) {
            (RunStage::MakeFolder, RunEvent::Executed(made)) => {
                if made.is_ok() {
                    self.stage = RunStage::Send;
                    RunAction::Send(
                        path_join(self.directory.as_str(), SEND_ARCH_RPATH),
                        self.get_host_path(),
                    )
                } else {
                    self.stage = RunStage::Execute;
                    RunAction::Execute(self.get_complete_command(), self.capture_streams)
                }
            },
            (RunStage::Send, RunEvent::Done(sent)) => match sent {
                Ok(_) => {
                    self.stage = RunStage::Execute;
                    RunAction::Execute(self.get_complete_command(), self.capture_streams)
                },
                Err(reason) => {
                    self.stage = RunStage::Over;
                    RunAction::Return(Err(reason))
                },
            },
            (RunStage::Execute, RunEvent::Executed(executed)) => match executed {
                Ok(output) => {
                    self.output = Some(output);
                    self.stage = RunStage::Fetch;
                    RunAction::Fetch(
                        path_join(self.directory.as_str(), FETCH_ARCH_RPATH),
                        path_join(self.get_host_id_path().as_str(), FETCH_ARCH_RPATH),
                    )
                },
                Err(reason) => {
                    self.stage = RunStage::Over;
                    RunAction::Return(Err(reason))
                },
            },
            (RunStage::Fetch, RunEvent::Done(fetched)) => match fetched {
                Ok(_) => {
                    self.stage = RunStage::Unpack;
                    RunAction::Unpack(path_join(self.directory.as_str(), FETCH_ARCH_RPATH))
                },
                Err(reason) => {
                    self.stage = RunStage::Over;
                    RunAction::Return(Err(reason))
                },
            },
            (RunStage::Unpack, RunEvent::Done(unpacked)) => match unpacked {
                Ok(_) => match self.leave {
                    LeaveConfig::Nothing => {
                        self.stage = RunStage::Clean;
                        RunAction::Execute(cat("rm -rf ", self.get_host_path().as_str()), false)
                    },
                    LeaveConfig::Code => {
                        self.stage = RunStage::Clean;
                        RunAction::Execute(cat("rm -rf ", self.get_host_id_path().as_str()), false)
                    },
                    LeaveConfig::Everything => {
                        self.stage = RunStage::Over;
                        RunAction::Return(Ok(self.get_output()))
                    },
                },
                Err(reason) => {
                    self.stage = RunStage::Over;
                    RunAction::Return(Err(reason))
                },
            },
            (RunStage::Clean, RunEvent::Executed(cleaned)) => {
                self.stage = RunStage::Over;
                match cleaned {
                    Ok(_) => RunAction::Return(Ok(self.get_output())),
                    Err(reason) => RunAction::Return(Err(reason)),
                }
            },
            _ => vstd::pervasive::unreached(),
        }
    }
}

/// Where everything is left on the remote, nothing is removed; where the code is left, only the
/// folder of the run is; where nothing is left, the folder of the code is, and the run with it.
pub proof fn only_what_is_not_left_is_removed(
    before: Run,
    event: RunEvent,
    after: Run,
    action: RunAction,
)
    requires
        run_step(before, event, after, action),
        after.stage is Clean,
    ensures
        !(before.leave is Everything),
        executes(
            action,
            "rm -rf "@ + (if before.leave is Code {
                before.host_id_path()
            } else {
                before.host_path()
            }),
            false,
        ),
{
}

/// A run that succeeds returns the output of the script, and not that of another command.
pub proof fn run_returns_script_output(
    before: Run,
    event: RunEvent,
    after: Run,
    action: RunAction,
)
    requires
        before.wf(),
        run_step(before, event, after, action),
    ensures
        action is Return && action->Return_0 is Ok ==> before.output is Some
            && action->Return_0->Ok_0@ == before.output->Some_0@,
        before.output is None && after.output is Some ==> before.stage is Execute && event
            == RunEvent::Executed(Ok(after.output->Some_0)),
{
}

//------------------------------------------------------------------------------------------ LAWS
proof fn joined_five(
    a: Seq<char>,
    b: Seq<char>,
    c: Seq<char>,
    d: Seq<char>,
    e: Seq<char>,
    s: Seq<char>,
)
    ensures
        joined(seq![a, b, c, d, e], s) == a + s + b + s + c + s + d + s + e,
{
    let all = seq![a, b, c, d, e];
    assert(all.drop_last() =~= seq![a, b, c, d]);
    assert(seq![a, b, c, d].drop_last() =~= seq![a, b, c]);
    assert(seq![a, b, c].drop_last() =~= seq![a, b]);
    assert(seq![a, b].drop_last() =~= seq![a]);
    assert(joined(seq![a], s) == a);
    assert(joined(seq![a, b], s) == a + s + b);
    assert(joined(seq![a, b, c], s) == a + s + b + s + c);
    assert(joined(seq![a, b, c, d], s) == a + s + b + s + c + s + d);
}

/// What comes before the script in the complete command of a run: the folder of the run, named by the
/// identifier of the run inside the folder of the code, is made and entered, and the code that was
/// sent is unpacked into it.
pub open spec fn command_before_script(run: Run, folder: Seq<char>) -> Seq<char> {
    "mkdir "@ + folder + " && "@ + ("cd "@ + folder) + " && "@ + ("tar -xf "@ + path_in(
        path_in(run.profile.host_directory@, run.hash@),
        ".send.tar"@,
    ) + " -C "@ + folder) + " && "@
}

/// What comes after the script in the complete command of a run: all that is in the folder is packed,
/// but for what is to be ignored.
pub open spec fn command_after_script(folder: Seq<char>) -> Seq<char> {
    " && "@ + ("tar -cf "@ + path_in(folder, ".fetch.tar"@) + " -X "@ + path_in(
        folder,
        ".fetchignore"@,
    ) + " *"@)
}

/// The folder of a run lies in the folder of its code, which lies in the host directory of its
/// profile.
pub open spec fn folder_of_run(run: Run) -> Seq<char> {
    path_in(path_in(run.profile.host_directory@, run.hash@), uuid_text(run.id.0))
}

proof fn placeholders()
    ensures
        crate::text::is_placeholder("$SCRIPT_NAME"@),
        crate::text::is_placeholder("$SCRIPT_ARGS"@),
        "$SCRIPT_NAME"@.len() == 12,
        "$SCRIPT_ARGS"@.len() == 12,
        "$SCRIPT_NAME"@ != "$SCRIPT_ARGS"@,
        "$SCRIPT_NAME"@.take(12) != "$SCRIPT_ARGS"@,
        "$SCRIPT_ARGS"@.take(12) != "$SCRIPT_NAME"@,
{
    reveal_strlit("$SCRIPT_NAME");
    reveal_strlit("$SCRIPT_ARGS");
    assert("$SCRIPT_NAME"@[8] == 'N');
    assert("$SCRIPT_ARGS"@[8] == 'A');
    assert("$SCRIPT_NAME"@.take(12)[8] == 'N');
    assert("$SCRIPT_ARGS"@.take(12)[8] == 'A');
}

proof fn complete_command_in_parts(run: Run)
    ensures
        run.complete_command() == command_before_script(run, folder_of_run(run))
            + run.script_command() + command_after_script(folder_of_run(run)),
{
    let f = folder_of_run(run);
    assert(run.host_id_path() == f);
    assert(SEND_ARCH_RPATH@ == ".send.tar"@);
    joined_five(
        "mkdir "@ + f,
        "cd "@ + f,
        "tar -xf "@ + path_in(run.host_path(), ".send.tar"@) + " -C "@ + f,
        run.script_command(),
        "tar -cf "@ + path_in(f, ".fetch.tar"@) + " -X "@ + path_in(f, ".fetchignore"@) + " *"@,
        " && "@,
    );
    assert(run.complete_command() =~= command_before_script(run, f) + run.script_command()
        + command_after_script(f));
}

/// Where the commands of the profile hold `$SCRIPT_ARGS` once, the complete command holds them with
/// the parameters of the run in that place and nothing else changed.
pub proof fn parameters_are_in_the_command(
    run: Run,
    commands: String,
    a: Seq<char>,
    b: Seq<char>,
    res: String,
)
    requires
        call_ensures(HostProfile::get_complete_execution_string, (&run.profile,), commands),
        call_ensures(Run::get_complete_command, (&run,), res),
        commands@ == a + "$SCRIPT_ARGS"@ + b,
        is_absent(a, "$SCRIPT_ARGS"@) && is_absent(a, "$SCRIPT_NAME"@),
        is_absent(b, "$SCRIPT_ARGS"@) && is_absent(b, "$SCRIPT_NAME"@),
    ensures
        res@ == command_before_script(run, folder_of_run(run)) + (a + run.parameters@ + b)
            + command_after_script(folder_of_run(run)),
{
    placeholders();
    placeholder_absent_in_three(a, "$SCRIPT_ARGS"@, b, "$SCRIPT_NAME"@);
    placeholder_is_replaced(commands@, "$SCRIPT_NAME"@, Seq::empty(), run.script@);
    placeholder_is_replaced(a, "$SCRIPT_ARGS"@, b, run.parameters@);
    complete_command_in_parts(run);
}

/// Runs that differ in their parameters execute different commands, where the commands of the profile
/// hold `$SCRIPT_ARGS` once.
pub proof fn different_parameters_give_different_commands(
    run: Run,
    other: Run,
    commands: String,
    a: Seq<char>,
    b: Seq<char>,
    res: String,
    res_other: String,
)
    requires
        call_ensures(HostProfile::get_complete_execution_string, (&run.profile,), commands),
        call_ensures(Run::get_complete_command, (&run,), res),
        call_ensures(Run::get_complete_command, (&other,), res_other),
        commands@ == a + "$SCRIPT_ARGS"@ + b,
        is_absent(a, "$SCRIPT_ARGS"@) && is_absent(a, "$SCRIPT_NAME"@),
        is_absent(b, "$SCRIPT_ARGS"@) && is_absent(b, "$SCRIPT_NAME"@),
        other.profile == run.profile && other.hash == run.hash && other.id == run.id,
        other.parameters@ != run.parameters@,
    ensures
        res_other@ != res@,
{
    parameters_are_in_the_command(run, commands, a, b, res);
    parameters_are_in_the_command(other, commands, a, b, res_other);
    let before = command_before_script(run, folder_of_run(run));
    let p = run.parameters@;
    let q = other.parameters@;
    let i = (before.len() + a.len()) as int;
    let after = command_after_script(folder_of_run(run));
    assert(res@ == before + (a + p + b) + after);
    assert(res_other@ == before + (a + q + b) + after);
    if res_other@ == res@ {
        assert(res@.len() == before.len() + a.len() + p.len() + b.len() + after.len());
        assert(res_other@.len() == before.len() + a.len() + q.len() + b.len() + after.len());
        assert(p.len() == q.len());
        assert(res@.subrange(i, i + p.len()) =~= p);
        assert(res_other@.subrange(i, i + q.len()) =~= q);
    }
}

/// Where the commands of the profile hold `$SCRIPT_NAME` once, and `$SCRIPT_ARGS` once behind it, the
/// complete command holds them with the script and its parameters in their places.
pub proof fn script_and_parameters_are_in_the_command(
    run: Run,
    commands: String,
    a: Seq<char>,
    m: Seq<char>,
    b: Seq<char>,
    res: String,
)
    requires
        call_ensures(HostProfile::get_complete_execution_string, (&run.profile,), commands),
        call_ensures(Run::get_complete_command, (&run,), res),
        commands@ == a + "$SCRIPT_NAME"@ + (m + "$SCRIPT_ARGS"@ + b),
        is_absent(a, "$SCRIPT_NAME"@),
        is_absent(m, "$SCRIPT_NAME"@),
        is_absent(b, "$SCRIPT_NAME"@) && is_absent(b, "$SCRIPT_ARGS"@),
        is_absent(a + run.script@ + m, "$SCRIPT_ARGS"@),
    ensures
        res@ == command_before_script(run, folder_of_run(run)) + (a + run.script@ + m
            + run.parameters@ + b) + command_after_script(folder_of_run(run)),
{
    placeholders();
    placeholder_absent_in_three(m, "$SCRIPT_ARGS"@, b, "$SCRIPT_NAME"@);
    placeholder_is_replaced(a, "$SCRIPT_NAME"@, m + "$SCRIPT_ARGS"@ + b, run.script@);
    assert(a + run.script@ + (m + "$SCRIPT_ARGS"@ + b) =~= (a + run.script@ + m)
        + "$SCRIPT_ARGS"@ + b);
    placeholder_is_replaced(a + run.script@ + m, "$SCRIPT_ARGS"@, b, run.parameters@);
    complete_command_in_parts(run);
}

/// Where the commands of the profile hold `$SCRIPT_NAME` once and no `$SCRIPT_ARGS`, the complete
/// command holds them with the script in that place.
pub proof fn script_is_in_the_command(
    run: Run,
    commands: String,
    a: Seq<char>,
    b: Seq<char>,
    res: String,
)
    requires
        call_ensures(HostProfile::get_complete_execution_string, (&run.profile,), commands),
        call_ensures(Run::get_complete_command, (&run,), res),
        commands@ == a + "$SCRIPT_NAME"@ + b,
        is_absent(a, "$SCRIPT_NAME"@),
        is_absent(b, "$SCRIPT_NAME"@),
        is_absent(a + run.script@ + b, "$SCRIPT_ARGS"@),
    ensures
        res@ == command_before_script(run, folder_of_run(run)) + (a + run.script@ + b)
            + command_after_script(folder_of_run(run)),
{
    placeholders();
    placeholder_is_replaced(a, "$SCRIPT_NAME"@, b, run.script@);
    placeholder_is_replaced(a + run.script@ + b, "$SCRIPT_ARGS"@, Seq::empty(), run.parameters@);
    complete_command_in_parts(run);
}

/// The commands of a profile are those before the execution, those of the execution and those after
/// it, each run where those before it succeeded.
pub proof fn commands_come_in_order(profile: HostProfile, res: String)
    requires
        call_ensures(HostProfile::get_complete_execution_string, (&profile,), res),
    ensures
        res@ == joined(
            texts(profile.before_execution@) + texts(profile.execution@) + texts(
                profile.after_execution@,
            ),
            " && "@,
        ),
{
}

/// What a run starts with: the folder of its code is made in the host directory of the profile. The
/// run is of the script that was given, with the parameters that were given.
pub proof fn run_starts_with_its_folder(
    config: RunConfig,
    profile: HostProfile,
    script_path: &str,
    hash: String,
    leave: LeaveConfig,
    capture_streams: bool,
    folder: Seq<char>,
    name: Seq<char>,
    res: (Run, RunAction),
)
    requires
        call_ensures(
            RunConfig::execute,
            (&config, profile, script_path, hash, leave, capture_streams),
            res,
        ),
        script_path@ == folder + seq!['/'] + name,
        folder.len() > 0,
        name.len() > 0,
        !name.contains('/'),
    ensures
        res.0.directory@ == folder,
        res.0.script@ == name,
        res.0.parameters@ == config.parameters@,
        res.0.profile == profile && res.0.hash == hash && res.0.leave == leave,
        res.0.capture_streams == capture_streams,
        res.0.stage is MakeFolder,
        res.1 is Execute,
        res.1->Execute_0@ == "mkdir "@ + path_in(profile.host_directory@, hash@),
{
    crate::misc::folder_and_name(folder, name);
}

/// The code is sent where its folder could be made, and only there; where it is on the remote already,
/// or once it was sent, the complete command of the run is executed. Its streams are captured as it
/// was asked for.
pub proof fn code_is_sent_then_script_is_executed(
    run: &mut Run,
    event: RunEvent,
    action: RunAction,
    command: String,
)
    requires
        call_ensures(Run::step, (run, event), action),
        call_ensures(Run::get_complete_command, (old(run),), command),
        old(run).stage is MakeFolder || old(run).stage is Send,
    ensures
        event is Executed && event->Executed_0 is Ok ==> {
            &&& final(run).stage is Send
            &&& action is Send
            &&& action->Send_0@ == path_in(old(run).directory@, ".send.tar"@)
            &&& action->Send_1@ == path_in(old(run).profile.host_directory@, old(run).hash@)
        },
        (event is Executed && event->Executed_0 is Err) || (event is Done && event->Done_0 is Ok)
            ==> {
            &&& final(run).stage is Execute
            &&& action is Execute
            &&& action->Execute_0@ == command@
            &&& action->Execute_1 == old(run).capture_streams
        },
        event is Done && event->Done_0 is Err ==> final(run).stage is Over && action
            == RunAction::Return(Err(event->Done_0->Err_0)),
{
}

/// Once the script was executed, its output is kept, and the data is fetched from the folder of the
/// run to the folder of the script and unpacked there. A step that fails ends the run with the reason.
pub proof fn data_is_fetched_and_unpacked(
    run: &mut Run,
    event: RunEvent,
    action: RunAction,
)
    requires
        call_ensures(Run::step, (run, event), action),
        old(run).stage is Execute || old(run).stage is Fetch,
    ensures
        event is Executed && event->Executed_0 is Ok ==> {
            &&& final(run).output == Some(event->Executed_0->Ok_0)
            &&& final(run).stage is Fetch
            &&& action is Fetch
            &&& action->Fetch_0@ == path_in(old(run).directory@, ".fetch.tar"@)
            &&& action->Fetch_1@ == path_in(folder_of_run(*old(run)), ".fetch.tar"@)
        },
        event is Done && event->Done_0 is Ok ==> {
            &&& final(run).output == old(run).output
            &&& final(run).stage is Unpack
            &&& action is Unpack
            &&& action->Unpack_0@ == path_in(old(run).directory@, ".fetch.tar"@)
        },
        event is Executed && event->Executed_0 is Err ==> final(run).stage is Over && action
            == RunAction::Return(Err(event->Executed_0->Err_0)),
        event is Done && event->Done_0 is Err ==> final(run).stage is Over && action
            == RunAction::Return(Err(event->Done_0->Err_0)),
{
}

/// Once the data is unpacked, what is not to be left is removed, and the output of the script is
/// returned: the folder of the code where nothing is left, the folder of the run where the code is.
pub proof fn remote_is_cleaned_as_asked(
    run: &mut Run,
    event: RunEvent,
    action: RunAction,
)
    requires
        call_ensures(Run::step, (run, event), action),
        old(run).stage is Unpack || old(run).stage is Clean,
    ensures
        event is Done && event->Done_0 is Ok && !(old(run).leave is Everything) ==> {
            &&& final(run).stage is Clean
            &&& final(run).output == old(run).output
            &&& action is Execute
            &&& action->Execute_0@ == "rm -rf "@ + (if old(run).leave is Nothing {
                path_in(old(run).profile.host_directory@, old(run).hash@)
            } else {
                folder_of_run(*old(run))
            })
        },
        (event is Done && event->Done_0 is Ok && old(run).leave is Everything) || (event is Executed
            && event->Executed_0 is Ok) ==> {
            &&& final(run).stage is Over
            &&& action is Return
            &&& action->Return_0 is Ok
            &&& action->Return_0->Ok_0.status == old(run).output->Some_0.status
            &&& action->Return_0->Ok_0.stdout@ == old(run).output->Some_0.stdout@
            &&& action->Return_0->Ok_0.stderr@ == old(run).output->Some_0.stderr@
        },
        event is Executed && event->Executed_0 is Err ==> final(run).stage is Over && action
            == RunAction::Return(Err(event->Executed_0->Err_0)),
        event is Done && event->Done_0 is Err ==> final(run).stage is Over && action
            == RunAction::Return(Err(event->Done_0->Err_0)),
{
}

/// A profile holds what its file holds: under each key the text, or the texts in their order. A file
/// that lacks a required key is refused.
pub proof fn profile_has_the_fields_of_its_file(
    file_name: &str,
    stem: Seq<char>,
    yml: &str,
    res: Result<Option<HostProfile>, ImportError>,
)
    requires
        call_ensures(HostProfile::import, (file_name, yml), res),
        file_name@ == stem + ".yml"@,
        !stem.contains('.'),
        yaml_documents(yml@) is Ok,
        yaml_documents(yml@)->Ok_0 > 0,
    ensures
        yaml_field(yml@, "ssh_config"@) is None || yaml_field(yml@, "host_directory"@) is None
            ==> res is Err && res->Err_0 == ImportError::Profile(Error::ProfileError),
        res is Ok && res->Ok_0 is Some ==> {
            let profile = res->Ok_0->Some_0;
            &&& profile.name@ == stem
            &&& yaml_field(yml@, "ssh_config"@) == Some(profile.ssh_config@)
            &&& yaml_field(yml@, "host_directory"@) == Some(profile.host_directory@)
            &&& yaml_list(yml@, "execution"@) is Some
            &&& holds_the_items(profile.before_execution@, yaml_list(yml@, "before_execution"@))
            &&& holds_the_items(profile.execution@, yaml_list(yml@, "execution"@))
            &&& holds_the_items(profile.after_execution@, yaml_list(yml@, "after_execution"@))
        },
        yaml_field(yml@, "ssh_config"@) is Some && yaml_field(yml@, "host_directory"@) is Some
            && yaml_list(yml@, "execution"@) is Some && only_holds_texts(
            yaml_list(yml@, "before_execution"@),
        ) && only_holds_texts(yaml_list(yml@, "execution"@)) && only_holds_texts(
            yaml_list(yml@, "after_execution"@),
        ) ==> res is Ok && res->Ok_0 is Some,
{
    let empty = Seq::<char>::empty();
    reveal_strlit(".yml");
    let dot = ".yml"@;
    let n = stem.len() as int;
    assert(stem + dot + empty =~= file_name@);
    assert forall|i: int| 0 <= i < stem.len() implies #[trigger] (stem + dot + empty).subrange(
        i,
        i + dot.len() as int,
    ) != dot by {
        let part = (stem + dot + empty).subrange(i, i + dot.len() as int);
        assert(part[0] == stem[i]);
        assert(stem.contains(stem[i]));
    }
    replaced_at_first(stem, dot, empty, empty);
    replaced_where_absent(empty, dot, empty);
    assert(stem + empty + empty =~= stem);
    if res is Ok && res->Ok_0 is Some {
        let profile = res->Ok_0->Some_0;
        items_are_held(profile.before_execution@, yaml_list(yml@, "before_execution"@));
        items_are_held(profile.execution@, yaml_list(yml@, "execution"@));
        items_are_held(profile.after_execution@, yaml_list(yml@, "after_execution"@));
    }
}

/// Whether each item of a list is a text.
pub open spec fn only_holds_texts(list: Option<Seq<Option<Seq<char>>>>) -> bool {
    match list {
        Some(items) => forall|i: int| 0 <= i < items.len() ==> (#[trigger] items[i]) is Some,
        None => true,
    }
}

/// Whether the strings are the items of the list, in their order; where there is no list, there is no
/// string.
pub open spec fn holds_the_items(
    strings: Seq<String>,
    list: Option<Seq<Option<Seq<char>>>>,
) -> bool {
    match list {
        Some(items) => {
            &&& strings.len() == items.len()
            &&& forall|i: int|
                0 <= i < items.len() ==> items[i] == Some((#[trigger] strings[i])@)
        },
        None => strings.len() == 0,
    }
}

proof fn items_are_held(strings: Seq<String>, list: Option<Seq<Option<Seq<char>>>>)
    requires
        texts(strings) == list_items(list),
        all_texts(list),
    ensures
        holds_the_items(strings, list),
{
    assert(texts(strings).len() == strings.len());
    if list is Some {
        let items = list->Some_0;
        assert forall|i: int| 0 <= i < items.len() implies items[i] == Some(
            (#[trigger] strings[i])@,
        ) by {
            assert(texts(strings)[i] == strings[i]@);
            assert(items[i] is Some);
        }
    }
}

/// The profile of a run stands in the folder of the profiles of the home directory, under its name.
pub proof fn profile_stands_in_its_folder(config: RunConfig, home: &str, res: String)
    requires
        call_ensures(RunConfig::profile_path, (&config, home), res),
        home@.len() > 0,
        home@.last() != '/',
        config.profile@.len() > 0,
        config.profile@[0] != '/',
    ensures
        res@ == home@ + "/.runaway/"@ + config.profile@ + ".yml"@,
{
    reveal_strlit(".runaway");
    reveal_strlit("/.runaway/");
    let folder = home@ + seq!['/'] + ".runaway"@;
    paths_are_joined(home@, ".runaway"@);
    paths_are_joined(folder, config.profile@ + ".yml"@);
    assert(folder + seq!['/'] =~= home@ + "/.runaway/"@);
    assert(res@ =~= home@ + "/.runaway/"@ + config.profile@ + ".yml"@);
}

/// What an error says: what failed, and the reason that it holds.
pub proof fn errors_say_what_failed(error: Error, said: String)
    requires
        call_ensures(Error::message, (&error,), said),
    ensures
        error is ProfileError ==> said@ == "The profile is ill formed"@,
        error is Unknown ==> said@ == "Unknown error occured"@,
{
}

/// A profile says its ssh config and its host directory.
pub proof fn profile_says_its_fields(profile: HostProfile, config: String, directory: String)
    requires
        call_ensures(HostProfile::get_ssh_config, (&profile,), config),
        call_ensures(HostProfile::get_host_directory, (&profile,), directory),
    ensures
        config@ == profile.ssh_config@,
        directory@ == profile.host_directory@,
{
}

/// A profile that is made of fields holds them, and one that lacks a required field is refused.
pub proof fn profile_holds_its_fields(
    file_name: &str,
    fields: ProfileFields,
    res: Result<HostProfile, Error>,
)
    requires
        call_ensures(HostProfile::from_fields, (file_name, fields), res),
        fields@.is_readable(),
    ensures
        res is Ok <==> fields.ssh_config is Some && fields.host_directory is Some
            && fields.execution is Some,
        res is Ok ==> {
            &&& res->Ok_0.ssh_config@ == fields.ssh_config->Some_0@
            &&& res->Ok_0.host_directory@ == fields.host_directory->Some_0@
            &&& holds_the_items(res->Ok_0.before_execution@, list_texts(fields.before_execution))
            &&& holds_the_items(res->Ok_0.execution@, list_texts(fields.execution))
            &&& holds_the_items(res->Ok_0.after_execution@, list_texts(fields.after_execution))
        },
{
    if res is Ok {
        items_are_held(res->Ok_0.before_execution@, list_texts(fields.before_execution));
        items_are_held(res->Ok_0.execution@, list_texts(fields.execution));
        items_are_held(res->Ok_0.after_execution@, list_texts(fields.after_execution));
    }
}

/// Whatever the commands of the profile are, the complete command holds them with the script in the
/// place of every `$SCRIPT_NAME`, and then the parameters in the place of every `$SCRIPT_ARGS`.
pub proof fn every_placeholder_is_replaced(run: Run, commands: String, res: String)
    requires
        call_ensures(HostProfile::get_complete_execution_string, (&run.profile,), commands),
        call_ensures(Run::get_complete_command, (&run,), res),
    ensures
        res@ == command_before_script(run, folder_of_run(run)) + replaced(
            replaced(commands@, "$SCRIPT_NAME"@, run.script@),
            "$SCRIPT_ARGS"@,
            run.parameters@,
        ) + command_after_script(folder_of_run(run)),
{
    complete_command_in_parts(run);
}

} // verus!
