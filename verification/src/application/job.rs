//! A job: the whole logic of the execution of an experiment on a host, step by step.
use vstd::prelude::*;
#[allow(unused_imports)]
use vstd::string::*;
#[allow(unused_imports)]
use vstd::utf8::*;
use fasthash::StreamHasher;
use std::hash::Hasher;
use crate::application::{Error, HostEntry};
#[allow(unused_imports)]
use crate::commons::ExitStatus;
use crate::commons::{Output, OutputBuf};
#[allow(unused_imports)]
use crate::commons::{exit_code, exit_signal};
use crate::misc::file_name;
#[allow(unused_imports)]
use crate::misc::file_name_of;
use crate::primitives::{AsResult, Timestamp};
#[allow(unused_imports)]
use crate::primitives::output_result;
use crate::repository::{
    ExecutionConf, ExecutionId, ExecutionParameters, ExecutionState, ExecutionTag, ExecutionUpdate,
    ExecutionUpdateBuilder, ExperimentCommit, copy_tags,
};
#[allow(unused_imports)]
use crate::repository::{UpdateView, uuid_text};
#[allow(unused_imports)]
use crate::text::{
    cat, cat4, characters, decimal, decimal_of, lines, lines_of, path_below, path_in, path_join,
    path_relative, same, slice, texts, trim_newlines, without_final_newlines,
};
use crate::{
    FEATURES_RPATH, FETCH_ARCH_RPATH, FETCH_IGNORE_RPATH, SEND_ARCH_RPATH,
};

verus! {

//------------------------------------------------------------------------------------------ PACK
/// The hash of bytes by the 64-bit variant of the xxHash algorithm.
pub uninterp spec fn xx_hash64(bytes: Seq<u8>) -> u64;

/// Hashes bytes with a default `fasthash::xx::Hasher64`, by `StreamHasher::write_stream` and
/// `finish`. The hash is a function of the bytes; how it is made is left to its name.
#[verifier::external_body]
fn hasher64_stream(bytes: &Vec<u8>) -> (res: u64)
    ensures
        res == xx_hash64(bytes@),
{
    let mut hasher = fasthash::xx::Hasher64::default();
    hasher.write_stream(&mut bytes.as_slice()).unwrap();
    hasher.finish()
}

/// The hash of an archive.
pub fn archive_hash(archive: &Vec<u8>) -> (res: u64)
    ensures
        res == xx_hash64(archive@),
{
    hasher64_stream(archive)
}

/// What goes into the archive of a folder: the files that were met, but the archive itself, under
/// their path below the folder.
pub open spec fn packed_files(folder: Seq<char>, met: Seq<(String, bool)>) -> Seq<
    (Seq<char>, Seq<char>),
>
    decreases met.len(),
{
    if met.len() == 0 {
        Seq::empty()
    } else {
        let before = packed_files(folder, met.drop_last());
        let path = met.last().0@;
        if met.last().1 && file_name_of(path) != SEND_ARCH_RPATH@ {
            before.push((path, path_below(folder, path)))
        } else {
            before
        }
    }
}

/// Chooses what goes into the archive of a folder, out of the paths that were met, each with whether
/// it is that of a file.
pub fn pack_folder(folder: &str, met: &Vec<(String, bool)>) -> (res: Vec<(String, String)>)
    ensures
        crate::commons::pairs(res@) == packed_files(folder@, met@),
{
    let mut res: Vec<(String, String)> = Vec::new();
    let mut i: usize = 0;
    assert(crate::commons::pairs(res@) =~= packed_files(folder@, met@.take(0)));
    while i < met.len()
        invariant
            i <= met.len(),
            crate::commons::pairs(res@) == packed_files(folder@, met@.take(i as int)),
        decreases met.len() - i,
    {
        assert(met@.take(i + 1).drop_last() =~= met@.take(i as int));
        let path = &met[i].0;
        if met[i].1 && !same(file_name(path.as_str()).as_str(), SEND_ARCH_RPATH) {
            let ghost kept = crate::commons::pairs(res@);
            let below = path_relative(folder, path.as_str());
            let ghost added = (path@, below@);
            res.push((path.clone(), below));
            assert(crate::commons::pairs(res@) =~= kept.push(added));
        }
        i = i + 1;
    }
    assert(met@.take(i as int) =~= met@);
    res
}

//-------------------------------------------------------------------------------------- FEATURES
/// `s` without the line feeds at its beginning.
pub open spec fn without_first_newlines(s: Seq<char>) -> Seq<char>
    decreases s.len(),
{
    if s.len() > 0 && s[0] == '\n' {
        without_first_newlines(s.skip(1))
    } else {
        s
    }
}

/// The lines of a features file, each of which holds a number.
pub fn feature_lines(contents: &str) -> (res: Vec<String>)
    ensures
        texts(res@) == lines_of(without_final_newlines(without_first_newlines(contents@))),
{
    let chars = characters(contents);
    let mut from: usize = 0;
    assert(contents@.skip(0) =~= contents@);
    while from < chars.len() && chars[from] == '\n'
        invariant
            from <= chars.len(),
            chars@ == contents@,
            without_first_newlines(contents@.skip(from as int)) == without_first_newlines(
                contents@,
            ),
        decreases chars.len() - from,
    {
        assert(contents@.skip(from as int).skip(1) =~= contents@.skip(from + 1));
        from = from + 1;
    }
    let rest = slice(&chars, from, chars.len());
    assert(rest@ =~= contents@.skip(from as int));
    lines(trim_newlines(rest.as_str()).as_str())
}

//------------------------------------------------------------------------------------------- JOB
/// Where a job stands: what was asked for and is waited for.
#[derive(Clone, Copy, Debug, PartialEq, Eq, Structural)]
pub enum JobStage {
    /// The execution that is scheduled again is deleted.
    Delete(ExecutionId),
    /// The execution is created.
    Create,
    /// The name of the host is written to the execution.
    NameExecutor,
    /// The folder of the execution is packed.
    Pack,
    /// A node of the host is acquired.
    Acquire,
    /// It is checked whether the data is already on the host.
    Check,
    /// The remote folder of the data is made.
    MakeFolder,
    /// The data is sent.
    Send,
    /// The remote folder of the execution is made.
    MakeRunFolder,
    /// The data is unpacked into it.
    Deflate,
    /// The beginning is written to the execution.
    Begin,
    /// The script is run.
    Run,
    /// The end is written to the execution.
    End,
    /// The remote files are packed.
    PackRemote,
    /// The packed files are fetched.
    Fetch,
    /// They are unpacked.
    Unpack,
    /// The features are read.
    ReadFeatures,
    /// The features are parsed.
    ParseFeatures,
    /// The features are written to the execution.
    WriteFeatures,
    /// The execution is finished.
    Finish,
    /// The failure of the job is written to the execution.
    Fail,
    /// The application post-processes the execution.
    PostProcess,
    Over,
}

/// What came of the last action.
pub enum JobEvent {
    /// The execution was deleted, or not.
    Deleted(bool),
    /// The execution was created, updated or finished; or why it was not.
    Execution(Result<ExecutionConf, String>),
    /// The folder was packed: the hash of the archive; or what failed.
    Packed(Result<u64, Error>),
    /// A node was acquired, a file was moved: or why not.
    Done(Result<(), String>),
    /// A command was executed, or why not.
    Executed(Result<Output, String>),
    /// The archive was unpacked.
    Unpacked,
    /// What the features file holds, if there is one; or why it cannot be read.
    Features(Option<Result<String, String>>),
    /// The bits of the features, or why one of the lines holds none.
    Parsed(Result<Vec<u64>, String>),
    /// The execution was post-processed.
    PostProcessed,
}

/// What has to be done next.
pub enum JobAction {
    Create(ExperimentCommit, ExecutionParameters, Vec<ExecutionTag>),
    Update(ExecutionId, ExecutionUpdate),
    /// Pack the folder.
    Pack(String),
    Acquire,
    /// Execute the command on the node.
    Exec(String),
    /// Send the local file to the remote path.
    Send(String, String),
    /// Fetch the remote file to the local path.
    Fetch(String, String),
    /// Unpack the archive in its folder.
    Unpack(String),
    /// Read the features file.
    ReadFeatures(String),
    /// Parse the features, one on each line.
    ParseFeatures(Vec<String>),
    Finish(ExecutionId),
    PostProcess(ExecutionConf),
    /// Nothing: the job is over.
    Stop,
}

pub struct Job {
    pub host: HostEntry,
    pub commit: ExperimentCommit,
    pub parameters: ExecutionParameters,
    pub tags: Vec<ExecutionTag>,
    /// The execution, once it was created.
    pub execution: Option<ExecutionConf>,
    /// The hash of the data, once it was packed.
    pub hash: u64,
    pub stage: JobStage,
}

impl Job {
    /// The identifier of the execution.
    pub open spec fn id(&self) -> u128 {
        self.execution->Some_0@.identifier
    }

    /// The folder of the execution.
    pub open spec fn folder(&self) -> Seq<char> {
        self.execution->Some_0@.path->Some_0
    }

    /// The remote folder of the data, which is that of its hash: executions with the same data share
    /// it.
    pub open spec fn remote_dir(&self) -> Seq<char> {
        path_in(self.host.directory@, decimal_of(self.hash as nat))
    }

    /// The remote archive of the data.
    pub open spec fn remote_send(&self) -> Seq<char> {
        path_in(self.remote_dir(), SEND_ARCH_RPATH@)
    }

    /// The remote folder of the execution.
    pub open spec fn remote_defl(&self) -> Seq<char> {
        path_in(self.remote_dir(), uuid_text(self.id()))
    }

    /// The remote file that says what is not fetched.
    pub open spec fn remote_ignore(&self) -> Seq<char> {
        path_in(self.remote_defl(), FETCH_IGNORE_RPATH@)
    }

    /// The remote archive of the results.
    pub open spec fn remote_fetch(&self) -> Seq<char> {
        path_in(self.remote_defl(), FETCH_ARCH_RPATH@)
    }

    /// Once the execution is created, it is there and has a folder.
    pub open spec fn wf(&self) -> bool {
        !(self.stage is Delete) && !(self.stage is Create) && !(self.stage is Over) ==> {
            &&& self.execution is Some
            &&& self.execution->Some_0.path is Some
        }
    }

    /// Whether nothing but the stage, the execution and the hash changed.
    pub open spec fn same_work(&self, other: &Job) -> bool {
        &&& self.host == other.host
        &&& self.commit == other.commit
        &&& self.parameters == other.parameters
        &&& self.tags@ == other.tags@
    }

    /// Whether the event can come of what was asked for. What a command writes is text, where it is
    /// looked at.
    pub open spec fn accepts(&self, event: JobEvent) -> bool {
        match self.stage {
            JobStage::Delete(_) => event is Deleted,
            JobStage::Create
            | JobStage::NameExecutor
            | JobStage::Begin
            | JobStage::End
            | JobStage::WriteFeatures
            | JobStage::Finish
            | JobStage::Fail => match event {
                JobEvent::Execution(Ok(conf)) => conf.path is Some,
                JobEvent::Execution(Err(_)) => true,
                _ => false,
            },
            JobStage::Pack => event is Packed,
            JobStage::Acquire | JobStage::Send | JobStage::Fetch => event is Done,
            JobStage::Check => event is Executed,
            JobStage::MakeFolder
            | JobStage::MakeRunFolder
            | JobStage::Deflate
            | JobStage::Run
            | JobStage::PackRemote => match event {
                JobEvent::Executed(Ok(output)) => output.is_text(),
                JobEvent::Executed(Err(_)) => true,
                _ => false,
            },
            JobStage::Unpack => event is Unpacked,
            JobStage::ReadFeatures => event is Features,
            JobStage::ParseFeatures => event is Parsed,
            JobStage::PostProcess => event is PostProcessed,
            JobStage::Over => false,
        }
    }
}

/// The action executes the command.
pub open spec fn executes(action: JobAction, command: Seq<char>) -> bool {
    action is Exec && action->Exec_0@ == command
}

/// The action updates the execution.
pub open spec fn updates(action: JobAction, id: u128, update: UpdateView) -> bool {
    action is Update && action->Update_0.0 == id && action->Update_1@ == update
}

/// What is done at the stage that a job has come to.
pub open spec fn stage_action(job: Job, now: Timestamp, action: JobAction) -> bool {
    match job.stage {
        JobStage::Create => {
            &&& action is Create
            &&& action->Create_0 == job.commit
            &&& action->Create_1 == job.parameters
            &&& action->Create_2@ == job.tags@
        },
        JobStage::NameExecutor => updates(
            action,
            job.id(),
            UpdateView { executor: Some(job.host.name@), ..UpdateView::empty() },
        ),
        JobStage::Pack => action is Pack && action->Pack_0@ == job.folder(),
        JobStage::Acquire => action is Acquire,
        JobStage::Check => executes(action, "ls "@ + job.remote_dir()),
        JobStage::MakeFolder => executes(action, "mkdir "@ + job.remote_dir()),
        JobStage::Send => {
            &&& action is Send
            &&& action->Send_0@ == path_in(job.folder(), SEND_ARCH_RPATH@)
            &&& action->Send_1@ == job.remote_send()
        },
        JobStage::MakeRunFolder => executes(action, "mkdir "@ + job.remote_defl()),
        JobStage::Deflate => executes(
            action,
            "tar -xf "@ + job.remote_send() + " -C "@ + job.remote_defl(),
        ),
        JobStage::Begin => updates(
            action,
            job.id(),
            UpdateView {
                execution_beginning_date: Some(now),
                state: Some(ExecutionState::Running),
                ..UpdateView::empty()
            },
        ),
        JobStage::Run => executes(
            action,
            "cd "@ + job.remote_defl() + " && ./run "@ + job.parameters.0@,
        ),
        JobStage::PackRemote => executes(
            action,
            "cd "@ + job.remote_defl() + " && (tar -cf "@ + job.remote_fetch() + " -X "@
                + job.remote_ignore() + " * || tar -cf "@ + job.remote_fetch() + " *)"@,
        ),
        JobStage::Fetch => {
            &&& action is Fetch
            &&& action->Fetch_0@ == job.remote_fetch()
            &&& action->Fetch_1@ == path_in(job.folder(), FETCH_ARCH_RPATH@)
        },
        JobStage::Unpack => action is Unpack && action->Unpack_0@ == path_in(
            job.folder(),
            FETCH_ARCH_RPATH@,
        ),
        JobStage::ReadFeatures => action is ReadFeatures && action->ReadFeatures_0@ == path_in(
            job.folder(),
            FEATURES_RPATH@,
        ),
        JobStage::Finish => action is Finish && action->Finish_0.0 == job.id(),
        JobStage::PostProcess => action is PostProcess && action->PostProcess_0@
            == job.execution->Some_0@,
        JobStage::Over => action is Stop,
        // What is done at the others depends on what came before.
        _ => true,
    }
}

/// The job has come to the stage, with the same execution and data, and does what is done there.
pub open spec fn goes_to(
    before: Job,
    stage: JobStage,
    now: Timestamp,
    after: Job,
    action: JobAction,
) -> bool {
    &&& after.stage == stage
    &&& after.hash == before.hash
    &&& after.execution == before.execution
    &&& stage_action(after, now, action)
}

/// The job has come to the stage with the execution that was answered.
pub open spec fn goes_to_with(
    before: Job,
    conf: ExecutionConf,
    stage: JobStage,
    now: Timestamp,
    after: Job,
    action: JobAction,
) -> bool {
    &&& after.stage == stage
    &&& after.hash == before.hash
    &&& after.execution == Some(conf)
    &&& stage_action(after, now, action)
}

/// The job has failed with an error of the given text: the failure is written to the execution.
pub open spec fn fails(before: Job, text: Seq<char>, after: Job, action: JobAction) -> bool {
    &&& after.stage == JobStage::Fail
    &&& after.hash == before.hash
    &&& after.execution == before.execution
    &&& updates(
        action,
        before.id(),
        UpdateView {
            state: Some(ExecutionState::Failed),
            execution_message: Some("Failed to execute the job: "@ + text),
            ..UpdateView::empty()
        },
    )
}

/// The text of a failure of the job itself, for the given reason.
pub open spec fn job_failure(what: Seq<char>, reason: Seq<char>) -> Seq<char> {
    "Execution failed: \n"@ + what + reason
}

/// The exit code that is kept of an execution: the code, or the signal, or 911.
pub open spec fn kept_code(status: i32) -> i32 {
    match exit_code(status) {
        Some(code) => code,
        None => match exit_signal(status) {
            Some(signal) => signal,
            None => 911,
        },
    }
}

/// What is done where a command that has to succeed was executed.
pub open spec fn after_command(
    before: Job,
    executed: Result<Output, String>,
    what: Seq<char>,
    stage: JobStage,
    now: Timestamp,
    after: Job,
    action: JobAction,
) -> bool {
    match executed {
        Err(reason) => fails(before, job_failure(what, reason@), after, action),
        Ok(output) => match output_result(output@) {
            Ok(_) => goes_to(before, stage, now, after, action),
            Err(text) => fails(before, "Remote command failed: \n"@ + text, after, action),
        },
    }
}

/// What is done where the execution was to be updated.
pub open spec fn after_update(
    before: Job,
    updated: Result<ExecutionConf, String>,
    stage: JobStage,
    now: Timestamp,
    after: Job,
    action: JobAction,
) -> bool {
    match updated {
        Err(reason) => fails(
            before,
            job_failure("Failed to update exec: "@, reason@),
            after,
            action,
        ),
        Ok(conf) => goes_to_with(before, conf, stage, now, after, action),
    }
}

/// What a step does: how the job goes on, and what has to be done next. The stages follow each
/// other. The data is sent only where it is not on the host yet. From the creation of the execution
/// on, a failure is written to the execution, and the execution is post-processed in any case.
pub open spec fn job_step(
    before: Job,
    event: JobEvent,
    now: Timestamp,
    after: Job,
    action: JobAction,
) -> bool {
    &&& after.same_work(&before)
    &&& match (before.stage, event) {
        (JobStage::Delete(_), JobEvent::Deleted(done)) => if done {
            goes_to(before, JobStage::Create, now, after, action)
        } else {
            goes_to(before, JobStage::Over, now, after, action)
        },
        (JobStage::Create, JobEvent::Execution(created)) => match created {
            Ok(conf) => goes_to_with(before, conf, JobStage::NameExecutor, now, after, action),
            Err(_) => goes_to(before, JobStage::Over, now, after, action),
        },
        (JobStage::NameExecutor, JobEvent::Execution(updated)) => after_update(
            before,
            updated,
            JobStage::Pack,
            now,
            after,
            action,
        ),
        (JobStage::Pack, JobEvent::Packed(packed)) => match packed {
            Ok(hash) => {
                &&& after.stage == JobStage::Acquire
                &&& after.hash == hash
                &&& after.execution == before.execution
                &&& action is Acquire
            },
            Err(e) => fails(before, e.text(), after, action),
        },
        (JobStage::Acquire, JobEvent::Done(done)) => match done {
            Ok(_) => goes_to(before, JobStage::Check, now, after, action),
            Err(reason) => fails(
                before,
                job_failure("Failed to acquire node: "@, reason@),
                after,
                action,
            ),
        },
        (JobStage::Check, JobEvent::Executed(executed)) => match executed {
            Ok(output) => if output@.status == 0 {
                goes_to(before, JobStage::MakeRunFolder, now, after, action)
            } else {
                goes_to(before, JobStage::MakeFolder, now, after, action)
            },
            Err(reason) => fails(
                before,
                job_failure("Failed to check for data: "@, reason@),
                after,
                action,
            ),
        },
        (JobStage::MakeFolder, JobEvent::Executed(executed)) => after_command(
            before,
            executed,
            "Failed to make remote dir: "@,
            JobStage::Send,
            now,
            after,
            action,
        ),
        (JobStage::Send, JobEvent::Done(done)) => match done {
            Ok(_) => goes_to(before, JobStage::MakeRunFolder, now, after, action),
            Err(reason) => fails(
                before,
                job_failure("Failed to send data: "@, reason@),
                after,
                action,
            ),
        },
        (JobStage::MakeRunFolder, JobEvent::Executed(executed)) => after_command(
            before,
            executed,
            "Failed to make remote dir: "@,
            JobStage::Deflate,
            now,
            after,
            action,
        ),
        (JobStage::Deflate, JobEvent::Executed(executed)) => after_command(
            before,
            executed,
            "Failed to deflate data: "@,
            JobStage::Begin,
            now,
            after,
            action,
        ),
        (JobStage::Begin, JobEvent::Execution(updated)) => after_update(
            before,
            updated,
            JobStage::Run,
            now,
            after,
            action,
        ),
        (JobStage::Run, JobEvent::Executed(executed)) => match executed {
            Ok(output) => {
                &&& after.stage == JobStage::End
                &&& after.hash == before.hash
                &&& after.execution == before.execution
                &&& updates(
                    action,
                    before.id(),
                    UpdateView {
                        execution_ending_date: Some(now),
                        execution_stdout: Some(decode_utf8(output@.stdout)),
                        execution_stderr: Some(decode_utf8(output@.stderr)),
                        execution_exit_code: Some(kept_code(output@.status)),
                        ..UpdateView::empty()
                    },
                )
            },
            Err(reason) => fails(
                before,
                job_failure("Failed to execute: "@, reason@),
                after,
                action,
            ),
        },
        (JobStage::End, JobEvent::Execution(updated)) => after_update(
            before,
            updated,
            JobStage::PackRemote,
            now,
            after,
            action,
        ),
        (JobStage::PackRemote, JobEvent::Executed(executed)) => after_command(
            before,
            executed,
            "Failed to pack remote files: "@,
            JobStage::Fetch,
            now,
            after,
            action,
        ),
        (JobStage::Fetch, JobEvent::Done(done)) => match done {
            Ok(_) => goes_to(before, JobStage::Unpack, now, after, action),
            Err(reason) => fails(
                before,
                job_failure("Failed to fetch data: "@, reason@),
                after,
                action,
            ),
        },
        (JobStage::Unpack, JobEvent::Unpacked) => goes_to(
            before,
            JobStage::ReadFeatures,
            now,
            after,
            action,
        ),
        (JobStage::ReadFeatures, JobEvent::Features(features)) => match features {
            None => goes_to(before, JobStage::Finish, now, after, action),
            Some(Err(reason)) => fails(
                before,
                job_failure("Failed to read features: "@, reason@),
                after,
                action,
            ),
            Some(Ok(contents)) => {
                &&& after.stage == JobStage::ParseFeatures
                &&& after.hash == before.hash
                &&& after.execution == before.execution
                &&& action is ParseFeatures
                &&& texts(action->ParseFeatures_0@) == lines_of(
                    without_final_newlines(without_first_newlines(contents@)),
                )
            },
        },
        (JobStage::ParseFeatures, JobEvent::Parsed(parsed)) => match parsed {
            Ok(features) => {
                &&& after.stage == JobStage::WriteFeatures
                &&& after.hash == before.hash
                &&& after.execution == before.execution
                &&& updates(
                    action,
                    before.id(),
                    UpdateView { execution_features: Some(features@), ..UpdateView::empty() },
                )
            },
            Err(reason) => fails(before, "Remote command failed: \n"@ + reason@, after, action),
        },
        (JobStage::WriteFeatures, JobEvent::Execution(updated)) => after_update(
            before,
            updated,
            JobStage::Finish,
            now,
            after,
            action,
        ),
        (JobStage::Finish, JobEvent::Execution(finished)) => match finished {
            Ok(conf) => goes_to_with(before, conf, JobStage::PostProcess, now, after, action),
            Err(reason) => fails(
                before,
                job_failure("Failed to finish exec: "@, reason@),
                after,
                action,
            ),
        },
        (JobStage::Fail, JobEvent::Execution(updated)) => match updated {
            Ok(conf) => goes_to_with(before, conf, JobStage::PostProcess, now, after, action),
            Err(_) => goes_to(before, JobStage::PostProcess, now, after, action),
        },
        (JobStage::PostProcess, JobEvent::PostProcessed) => goes_to(
            before,
            JobStage::Over,
            now,
            after,
            action,
        ),
        _ => false,
    }
}

impl Job {
    fn get_id(&self) -> (res: ExecutionId)
        requires
            self.execution is Some,
        ensures
            res.0 == self.id(),
    {
        match &self.execution {
            Some(conf) => conf.identifier,
            None => vstd::pervasive::unreached(),
        }
    }

    fn get_folder(&self) -> (res: String)
        requires
            self.execution is Some,
            self.execution->Some_0.path is Some,
        ensures
            res@ == self.folder(),
    {
        match &self.execution {
            Some(conf) => conf.get_path(),
            None => vstd::pervasive::unreached(),
        }
    }

    fn get_remote_dir(&self) -> (res: String)
        ensures
            res@ == self.remote_dir(),
    {
        path_join(self.host.directory.as_str(), decimal(self.hash).as_str())
    }

    fn get_remote_send(&self) -> (res: String)
        ensures
            res@ == self.remote_send(),
    {
        path_join(self.get_remote_dir().as_str(), SEND_ARCH_RPATH)
    }

    fn get_remote_defl(&self) -> (res: String)
        requires
            self.execution is Some,
        ensures
            res@ == self.remote_defl(),
    {
        path_join(self.get_remote_dir().as_str(), self.get_id().show().as_str())
    }

    fn get_remote_ignore(&self) -> (res: String)
        requires
            self.execution is Some,
        ensures
            res@ == self.remote_ignore(),
    {
        path_join(self.get_remote_defl().as_str(), FETCH_IGNORE_RPATH)
    }

    fn get_remote_fetch(&self) -> (res: String)
        requires
            self.execution is Some,
        ensures
            res@ == self.remote_fetch(),
    {
        path_join(self.get_remote_defl().as_str(), FETCH_ARCH_RPATH)
    }

    /// What is to be done first: the creation of the execution, or the deletion of the one that is
    /// scheduled again, of which the identifier is given back.
    pub fn start(&self) -> (res: Result<JobAction, ExecutionId>)
        requires
            self.stage is Create || self.stage is Delete,
        ensures
            match self.stage {
                JobStage::Delete(id) => res == Err::<JobAction, ExecutionId>(id),
                _ => {
                    &&& res is Ok
                    &&& res->Ok_0 is Create
                    &&& res->Ok_0->Create_0 == self.commit
                    &&& res->Ok_0->Create_1 == self.parameters
                    &&& res->Ok_0->Create_2@ == self.tags@
                },
            },
    {
        match self.stage {
            JobStage::Delete(id) => Err(id),
            _ => Ok(
                JobAction::Create(
                    self.commit.clone(),
                    self.parameters.clone(),
                    copy_tags(&self.tags),
                ),
            ),
        }
    }

    /// Comes to a stage, and says what is done there.
    fn go_to(&mut self, stage: JobStage, now: Timestamp) -> (res: JobAction)
        requires
            old(self).wf(),
            !(stage is Create) && !(stage is Over) && !(stage is Delete) ==> {
                &&& old(self).execution is Some
                &&& old(self).execution->Some_0.path is Some
            },
            !(stage is End) && !(stage is ParseFeatures) && !(stage is WriteFeatures) && !(
            stage is Fail) && !(stage is Delete),
        ensures
            final(self).wf(),
            final(self).same_work(old(self)),
            goes_to(*old(self), stage, now, *final(self), res),
    {
        self.stage = stage;
        match stage {
            JobStage::Create => JobAction::Create(
                self.commit.clone(),
                self.parameters.clone(),
                copy_tags(&self.tags),
            ),
            JobStage::NameExecutor => JobAction::Update(
                self.get_id(),
                ExecutionUpdateBuilder::new().executor(self.host.name.clone()).build(),
            ),
            JobStage::Pack => JobAction::Pack(self.get_folder()),
            JobStage::Acquire => JobAction::Acquire,
            JobStage::Check => JobAction::Exec(cat("ls ", self.get_remote_dir().as_str())),
            JobStage::MakeFolder => JobAction::Exec(cat("mkdir ", self.get_remote_dir().as_str())),
            JobStage::Send => JobAction::Send(
                path_join(self.get_folder().as_str(), SEND_ARCH_RPATH),
                self.get_remote_send(),
            ),
            JobStage::MakeRunFolder => JobAction::Exec(
                cat("mkdir ", self.get_remote_defl().as_str()),
            ),
            JobStage::Deflate => JobAction::Exec(
                cat4(
                    "tar -xf ",
                    self.get_remote_send().as_str(),
                    " -C ",
                    self.get_remote_defl().as_str(),
                ),
            ),
            JobStage::Begin => JobAction::Update(
                self.get_id(),
                ExecutionUpdateBuilder::new().beginning_date(now).state(
                    ExecutionState::Running,
                ).build(),
            ),
            JobStage::Run => JobAction::Exec(
                cat4(
                    "cd ",
                    self.get_remote_defl().as_str(),
                    " && ./run ",
                    self.parameters.0.as_str(),
                ),
            ),
            JobStage::PackRemote => {
                let fetch = self.get_remote_fetch();
                let mut command = cat4(
                    "cd ",
                    self.get_remote_defl().as_str(),
                    " && (tar -cf ",
                    fetch.as_str(),
                );
                command.append(" -X ");
                command.append(self.get_remote_ignore().as_str());
                command.append(" * || tar -cf ");
                command.append(fetch.as_str());
                command.append(" *)");
                JobAction::Exec(command)
            },
            JobStage::Fetch => JobAction::Fetch(
                self.get_remote_fetch(),
                path_join(self.get_folder().as_str(), FETCH_ARCH_RPATH),
            ),
            JobStage::Unpack => JobAction::Unpack(
                path_join(self.get_folder().as_str(), FETCH_ARCH_RPATH),
            ),
            JobStage::ReadFeatures => JobAction::ReadFeatures(
                path_join(self.get_folder().as_str(), FEATURES_RPATH),
            ),
            JobStage::Finish => JobAction::Finish(self.get_id()),
            JobStage::PostProcess => match &self.execution {
                Some(conf) => JobAction::PostProcess(conf.clone()),
                None => vstd::pervasive::unreached(),
            },
            _ => JobAction::Stop,
        }
    }

    /// Writes the failure of the job to the execution.
    fn fail(&mut self, error: Error) -> (res: JobAction)
        requires
            old(self).execution is Some,
            old(self).execution->Some_0.path is Some,
        ensures
            final(self).wf(),
            final(self).same_work(old(self)),
            fails(*old(self), error.text(), *final(self), res),
    {
        self.stage = JobStage::Fail;
        let text = cat("Failed to execute the job: ", error.message().as_str());
        JobAction::Update(
            self.get_id(),
            ExecutionUpdateBuilder::new().state(ExecutionState::Failed).message(text).build(),
        )
    }

    /// Goes on where a command that has to succeed was executed.
    fn command(
        &mut self,
        executed: Result<Output, String>,
        what: &str,
        stage: JobStage,
        now: Timestamp,
    ) -> (res: JobAction)
        requires
            old(self).wf(),
            old(self).execution is Some,
            old(self).execution->Some_0.path is Some,
            executed is Ok ==> executed->Ok_0.is_text(),
            stage is Send || stage is Deflate || stage is Begin || stage is Fetch,
        ensures
            final(self).wf(),
            final(self).same_work(old(self)),
            after_command(*old(self), executed, what@, stage, now, *final(self), res),
    {
        match executed {
            Err(reason) => {
                let error = Error::PerformExecFailed(cat(what, reason.as_str()));
                assert(error.text() =~= job_failure(what@, reason@));
                self.fail(error)
            },
            Ok(output) => match output.result() {
                Ok(_) => self.go_to(stage, now),
                Err(text) => self.fail(Error::ExecutionFailed(text)),
            },
        }
    }

    /// Goes on where the execution was to be updated.
    fn updated(
        &mut self,
        updated: Result<ExecutionConf, String>,
        stage: JobStage,
        now: Timestamp,
    ) -> (res: JobAction)
        requires
            old(self).wf(),
            old(self).execution is Some,
            old(self).execution->Some_0.path is Some,
            updated is Ok ==> updated->Ok_0.path is Some,
            stage is Pack || stage is Run || stage is PackRemote || stage is Finish,
        ensures
            final(self).wf(),
            final(self).same_work(old(self)),
            after_update(*old(self), updated, stage, now, *final(self), res),
    {
        match updated {
            Err(reason) => {
                let error = Error::PerformExecFailed(
                    cat("Failed to update exec: ", reason.as_str()),
                );
                assert(error.text() =~= job_failure("Failed to update exec: "@, reason@));
                self.fail(error)
            },
            Ok(conf) => {
                self.execution = Some(conf);
                self.go_to(stage, now)
            },
        }
    }

    /// Goes on where something that can fail was done.
    fn done(&mut self, done: Result<(), String>, what: &str, stage: JobStage, now: Timestamp) -> (res:
        JobAction)
        requires
            old(self).wf(),
            old(self).execution is Some,
            old(self).execution->Some_0.path is Some,
            stage is Check || stage is MakeRunFolder || stage is Unpack,
        ensures
            final(self).wf(),
            final(self).same_work(old(self)),
            match done {
                Ok(_) => goes_to(*old(self), stage, now, *final(self), res),
                Err(reason) => fails(
                    *old(self),
                    job_failure(what@, reason@),
                    *final(self),
                    res,
                ),
            },
    {
        match done {
            Ok(_) => self.go_to(stage, now),
            Err(reason) => {
                let error = Error::PerformExecFailed(cat(what, reason.as_str()));
                assert(error.text() =~= job_failure(what@, reason@));
                self.fail(error)
            },
        }
    }

    /// Goes on where the script was run.
    fn ran(&mut self, executed: Result<Output, String>, now: Timestamp) -> (res: JobAction)
        requires
            old(self).wf(),
            old(self).stage is Run,
            executed is Ok ==> executed->Ok_0.is_text(),
        ensures
            final(self).wf(),
            job_step(*old(self), JobEvent::Executed(executed), now, *final(self), res),
    {
        match executed {
            Ok(output) => {
                self.stage = JobStage::End;
                let code: i32 = match output.status.code() {
                    Some(code) => code,
                    None => match output.status.signal() {
                        Some(signal) => signal,
                        None => 911,
                    },
                };
                let buf = OutputBuf::from_output(&output);
                let update = ExecutionUpdateBuilder::new().ending_date(now).stdout(
                    buf.stdout,
                ).stderr(buf.stderr).exit_code(code).build();
                JobAction::Update(self.get_id(), update)
            },
            Err(reason) => {
                let error = Error::PerformExecFailed(cat("Failed to execute: ", reason.as_str()));
                assert(error.text() =~= job_failure("Failed to execute: "@, reason@));
                self.fail(error)
            },
        }
    }

    /// Goes on where the features were looked for.
    fn features(&mut self, features: Option<Result<String, String>>, now: Timestamp) -> (res:
        JobAction)
        requires
            old(self).wf(),
            old(self).stage is ReadFeatures,
        ensures
            final(self).wf(),
            job_step(*old(self), JobEvent::Features(features), now, *final(self), res),
    {
        match features {
            None => self.go_to(JobStage::Finish, now),
            Some(Err(reason)) => {
                let error = Error::PerformExecFailed(
                    cat("Failed to read features: ", reason.as_str()),
                );
                assert(error.text() =~= job_failure("Failed to read features: "@, reason@));
                self.fail(error)
            },
            Some(Ok(contents)) => {
                self.stage = JobStage::ParseFeatures;
                JobAction::ParseFeatures(feature_lines(contents.as_str()))
            },
        }
    }

    /// Takes what came of the last action into account at the given time, and says what has to be
    /// done next.
    pub fn step(&mut self, event: JobEvent, now: Timestamp) -> (res: JobAction)
        requires
            old(self).wf(),
            old(self).accepts(event),
        ensures
            final(self).wf(),
            job_step(*old(self), event, now, *final(self), res),
    {
        match (self.stage, event) {
            (JobStage::Delete(_), JobEvent::Deleted(done)) => {
                if done {
                    self.go_to(JobStage::Create, now)
                } else {
                    self.go_to(JobStage::Over, now)
                }
            },
            (JobStage::Create, JobEvent::Execution(created)) => match created {
                Ok(conf) => {
                    self.execution = Some(conf);
                    self.go_to(JobStage::NameExecutor, now)
                },
                Err(_) => self.go_to(JobStage::Over, now),
            },
            (JobStage::NameExecutor, JobEvent::Execution(updated)) => self.updated(
                updated,
                JobStage::Pack,
                now,
            ),
            (JobStage::Pack, JobEvent::Packed(packed)) => match packed {
                Ok(hash) => {
                    self.hash = hash;
                    self.stage = JobStage::Acquire;
                    JobAction::Acquire
                },
                Err(e) => self.fail(e),
            },
            (JobStage::Acquire, JobEvent::Done(done)) => self.done(
                done,
                "Failed to acquire node: ",
                JobStage::Check,
                now,
            ),
            (JobStage::Check, JobEvent::Executed(executed)) => match executed {
                Ok(output) => {
                    if output.status.success() {
                        self.go_to(JobStage::MakeRunFolder, now)
                    } else {
                        self.go_to(JobStage::MakeFolder, now)
                    }
                },
                Err(reason) => {
                    let error = Error::PerformExecFailed(
                        cat("Failed to check for data: ", reason.as_str()),
                    );
                    assert(error.text() =~= job_failure("Failed to check for data: "@, reason@));
                    self.fail(error)
                },
            },
            (JobStage::MakeFolder, JobEvent::Executed(executed)) => self.command(
                executed,
                "Failed to make remote dir: ",
                JobStage::Send,
                now,
            ),
            (JobStage::Send, JobEvent::Done(done)) => self.done(
                done,
                "Failed to send data: ",
                JobStage::MakeRunFolder,
                now,
            ),
            (JobStage::MakeRunFolder, JobEvent::Executed(executed)) => self.command(
                executed,
                "Failed to make remote dir: ",
                JobStage::Deflate,
                now,
            ),
            (JobStage::Deflate, JobEvent::Executed(executed)) => self.command(
                executed,
                "Failed to deflate data: ",
                JobStage::Begin,
                now,
            ),
            (JobStage::Begin, JobEvent::Execution(updated)) => self.updated(
                updated,
                JobStage::Run,
                now,
            ),
            (JobStage::Run, JobEvent::Executed(executed)) => self.ran(executed, now),
            (JobStage::End, JobEvent::Execution(updated)) => self.updated(
                updated,
                JobStage::PackRemote,
                now,
            ),
            (JobStage::PackRemote, JobEvent::Executed(executed)) => self.command(
                executed,
                "Failed to pack remote files: ",
                JobStage::Fetch,
                now,
            ),
            (JobStage::Fetch, JobEvent::Done(done)) => self.done(
                done,
                "Failed to fetch data: ",
                JobStage::Unpack,
                now,
            ),
            (JobStage::Unpack, JobEvent::Unpacked) => self.go_to(JobStage::ReadFeatures, now),
            (JobStage::ReadFeatures, JobEvent::Features(features)) => self.features(features, now),
            (JobStage::ParseFeatures, JobEvent::Parsed(parsed)) => match parsed {
                Ok(features) => {
                    self.stage = JobStage::WriteFeatures;
                    JobAction::Update(
                        self.get_id(),
                        ExecutionUpdateBuilder::new().features(features).build(),
                    )
                },
                Err(reason) => self.fail(Error::ExecutionFailed(reason)),
            },
            (JobStage::WriteFeatures, JobEvent::Execution(updated)) => self.updated(
                updated,
                JobStage::Finish,
                now,
            ),
            (JobStage::Finish, JobEvent::Execution(finished)) => match finished {
                Ok(conf) => {
                    self.execution = Some(conf);
                    self.go_to(JobStage::PostProcess, now)
                },
                Err(reason) => {
                    let error = Error::PerformExecFailed(
                        cat("Failed to finish exec: ", reason.as_str()),
                    );
                    assert(error.text() =~= job_failure("Failed to finish exec: "@, reason@));
                    self.fail(error)
                },
            },
            (JobStage::Fail, JobEvent::Execution(updated)) => match updated {
                Ok(conf) => {
                    self.execution = Some(conf);
                    self.go_to(JobStage::PostProcess, now)
                },
                Err(_) => self.go_to(JobStage::PostProcess, now),
            },
            (JobStage::PostProcess, JobEvent::PostProcessed) => self.go_to(JobStage::Over, now),
            _ => vstd::pervasive::unreached(),
        }
    }
}

//------------------------------------------------------------------------------------------ LAWS
/// How many stages are at most ahead of a job.
pub open spec fn stages_ahead(stage: JobStage) -> nat {
    match stage {
        JobStage::Delete(_) => 22,
        JobStage::Create => 21,
        JobStage::NameExecutor => 20,
        JobStage::Pack => 19,
        JobStage::Acquire => 18,
        JobStage::Check => 17,
        JobStage::MakeFolder => 16,
        JobStage::Send => 15,
        JobStage::MakeRunFolder => 14,
        JobStage::Deflate => 13,
        JobStage::Begin => 12,
        JobStage::Run => 11,
        JobStage::End => 10,
        JobStage::PackRemote => 9,
        JobStage::Fetch => 8,
        JobStage::Unpack => 7,
        JobStage::ReadFeatures => 6,
        JobStage::ParseFeatures => 5,
        JobStage::WriteFeatures => 4,
        JobStage::Finish => 3,
        JobStage::Fail => 2,
        JobStage::PostProcess => 1,
        JobStage::Over => 0,
    }
}

/// Every step brings a job closer to its end, so no stage comes twice: a job ends, and the script
/// is run at most once.
pub proof fn jobs_end(before: Job, event: JobEvent, now: Timestamp, after: Job, action: JobAction)
    requires
        job_step(before, event, now, after, action),
    ensures
        stages_ahead(after.stage) < stages_ahead(before.stage),
        after.stage is Run ==> before.stage is Begin,
{
}

/// Once its execution was created, a job ends only after the execution was post-processed.
pub proof fn created_executions_are_post_processed(
    before: Job,
    event: JobEvent,
    now: Timestamp,
    after: Job,
    action: JobAction,
)
    requires
        job_step(before, event, now, after, action),
        before.execution is Some,
        !(before.stage is Delete) && !(before.stage is Create),
    ensures
        after.execution is Some,
        after.stage is Over ==> before.stage is PostProcess,
        after.stage is PostProcess ==> action is PostProcess && action->PostProcess_0@
            == after.execution->Some_0@,
{
}

/// A job that fails marks its execution as failed before the execution is post-processed: it comes
/// to the post-processing from the finishing or from the failure only.
pub proof fn failures_are_written(
    before: Job,
    event: JobEvent,
    now: Timestamp,
    after: Job,
    action: JobAction,
)
    requires
        job_step(before, event, now, after, action),
    ensures
        after.stage is PostProcess ==> before.stage is Fail || (before.stage is Finish
            && event is Execution && event->Execution_0 is Ok),
        after.stage is Fail ==> action is Update && action->Update_0.0 == before.id()
            && action->Update_1@.state == Some(ExecutionState::Failed)
            && action->Update_1@.execution_message is Some,
{
}

/// The data is sent only where the host does not have it, and in any case before it is unpacked.
pub proof fn data_is_sent_once(
    before: Job,
    event: JobEvent,
    now: Timestamp,
    after: Job,
    action: JobAction,
)
    requires
        job_step(before, event, now, after, action),
    ensures
        after.stage is MakeFolder ==> before.stage is Check && event is Executed
            && event->Executed_0 is Ok && event->Executed_0->Ok_0@.status != 0,
        after.stage is Send ==> before.stage is MakeFolder,
        after.stage is MakeRunFolder ==> (before.stage is Check && event->Executed_0->Ok_0@.status
            == 0) || (before.stage is Send && event->Done_0 is Ok),
{
}

/// Executions with different identifiers run in different remote folders.
pub proof fn remote_folders_are_distinct(a: Job, b: Job)
    requires
        a.remote_dir() == b.remote_dir(),
        a.id() != b.id(),
    ensures
        a.remote_defl() != b.remote_defl(),
{
    crate::repository::uuid_text_injective(a.id(), b.id());
    crate::repository::uuid_text_injective(b.id(), a.id());
    let x = a.remote_defl();
    let y = b.remote_defl();
    if x == y {
        assert(x.skip(x.len() - 36) =~= uuid_text(a.id()));
        assert(y.skip(y.len() - 36) =~= uuid_text(b.id()));
    }
}

/// A script that exited with a code is recorded with this code: the update that follows the run holds
/// it, for every code that a script can exit with.
pub proof fn script_exit_code_is_recorded(
    job: &mut Job,
    output: Output,
    code: i32,
    now: Timestamp,
    action: JobAction,
)
    requires
        call_ensures(Job::step, (job, JobEvent::Executed(Ok(output)), now), action),
        old(job).stage is Run,
        0 <= code <= 255,
        output.status.raw == code * 256,
    ensures
        action is Update,
        action->Update_1.execution_exit_code == Some(code),
{
    let raw = output.status.raw;
    assert(raw & 0x7f == 0 && (raw >> 8) & 0xff == code) by (bit_vector)
        requires
            0 <= code <= 255,
            raw == code * 256,
    ;
}

/// Two runs that exited with different codes are recorded with different codes.
pub proof fn different_exit_codes_are_told_apart(
    job: &mut Job,
    other: &mut Job,
    output: Output,
    output_other: Output,
    code: i32,
    code_other: i32,
    now: Timestamp,
    action: JobAction,
    action_other: JobAction,
)
    requires
        call_ensures(Job::step, (job, JobEvent::Executed(Ok(output)), now), action),
        call_ensures(Job::step, (other, JobEvent::Executed(Ok(output_other)), now), action_other),
        old(job).stage is Run && old(other).stage is Run,
        0 <= code <= 255 && 0 <= code_other <= 255,
        output.status.raw == code * 256 && output_other.status.raw == code_other * 256,
        code != code_other,
    ensures
        action->Update_1.execution_exit_code != action_other->Update_1.execution_exit_code,
{
    script_exit_code_is_recorded(job, output, code, now, action);
    script_exit_code_is_recorded(other, output_other, code_other, now, action_other);
}

/// A script that a signal ended is recorded with the number of the signal, and one that was merely
/// stopped with 911.
pub proof fn script_signal_is_recorded(
    job: &mut Job,
    output: Output,
    signal: i32,
    now: Timestamp,
    action: JobAction,
)
    requires
        call_ensures(Job::step, (job, JobEvent::Executed(Ok(output)), now), action),
        old(job).stage is Run,
    ensures
        0 < signal < 127 && (output.status.raw == signal || output.status.raw == signal + 128)
            ==> action->Update_1.execution_exit_code == Some(signal),
        output.status.raw & 0x7f == 0x7f ==> action->Update_1.execution_exit_code == Some(911i32),
{
    let raw = output.status.raw;
    if 0 < signal < 127 && (raw == signal || raw == signal + 128) {
        assert(raw & 0x7f == signal) by (bit_vector)
            requires
                0 < signal < 127,
                raw == signal || raw == signal + 128,
        ;
    }
}

/// What a script wrote is recorded as text, together with the moment at which it ended, for the
/// execution of the job; nothing else of the execution is changed.
pub proof fn script_output_is_recorded(
    job: &mut Job,
    output: Output,
    now: Timestamp,
    action: JobAction,
)
    requires
        call_ensures(Job::step, (job, JobEvent::Executed(Ok(output)), now), action),
        old(job).stage is Run,
        old(job).execution is Some,
    ensures
        final(job).stage is End,
        action is Update,
        action->Update_0 == old(job).execution->Some_0.identifier,
        action->Update_1.execution_stdout is Some,
        action->Update_1.execution_stdout->Some_0@ == decode_utf8(output.stdout@),
        action->Update_1.execution_stderr is Some,
        action->Update_1.execution_stderr->Some_0@ == decode_utf8(output.stderr@),
        action->Update_1.execution_ending_date == Some(now),
        action->Update_1.state is None,
        action->Update_1.executor is None,
        action->Update_1.execution_features is None,
        action->Update_1.execution_message is None,
        action->Update_1.execution_beginning_date is None,
{
}

/// The host is named before anything is done on it, and the beginning is written before the script is
/// run: the execution is running from that moment on.
pub proof fn executor_and_beginning_are_written(
    job: &mut Job,
    event: JobEvent,
    now: Timestamp,
    action: JobAction,
)
    requires
        call_ensures(Job::step, (job, event, now), action),
        final(job).stage is NameExecutor || final(job).stage is Begin,
        final(job).execution is Some,
    ensures
        action is Update,
        action->Update_0 == final(job).execution->Some_0.identifier,
        final(job).stage is NameExecutor ==> {
            &&& action->Update_1.executor is Some
            &&& action->Update_1.executor->Some_0@ == old(job).host.name@
            &&& action->Update_1.state is None
            &&& action->Update_1.execution_beginning_date is None
        },
        final(job).stage is Begin ==> {
            &&& action->Update_1.execution_beginning_date == Some(now)
            &&& action->Update_1.state == Some(ExecutionState::Running)
            &&& action->Update_1.executor is None
        },
        action->Update_1.execution_stdout is None && action->Update_1.execution_stderr is None,
        action->Update_1.execution_exit_code is None && action->Update_1.execution_features is None,
        action->Update_1.execution_message is None && action->Update_1.execution_ending_date is None,
{
}

/// The features that were parsed are those that are recorded, in their order.
pub proof fn features_are_recorded(
    job: &mut Job,
    features: Vec<u64>,
    now: Timestamp,
    action: JobAction,
)
    requires
        call_ensures(Job::step, (job, JobEvent::Parsed(Ok(features)), now), action),
        old(job).execution is Some,
    ensures
        old(job).stage is ParseFeatures,
        final(job).stage is WriteFeatures,
        action is Update,
        action->Update_0 == old(job).execution->Some_0.identifier,
        action->Update_1.execution_features is Some,
        action->Update_1.execution_features->Some_0@ == features@,
        action->Update_1.state is None && action->Update_1.execution_exit_code is None,
        action->Update_1.execution_stdout is None && action->Update_1.execution_stderr is None,
{
}

/// The remote folder of the data of a job: the decimal notation of the hash, in the directory of the
/// host.
pub open spec fn data_folder(job: Job) -> Seq<char> {
    path_in(job.host.directory@, decimal_of(job.hash as nat))
}

/// The remote folder of the execution of a job: its identifier, in the folder of the data.
pub open spec fn execution_folder(job: Job) -> Seq<char> {
    path_in(data_folder(job), uuid_text(job.execution->Some_0.identifier.0))
}

/// What is executed on the host at the stages of a job: it is looked for the data, its folder is made,
/// the folder of the execution is made and the data unpacked into it, the script is run there with the
/// parameters of the job, and what it left is packed.
pub proof fn commands_of_a_job(job: &mut Job, event: JobEvent, now: Timestamp, action: JobAction)
    requires
        call_ensures(Job::step, (job, event, now), action),
    ensures
        final(job).stage is Check || final(job).stage is MakeFolder
            || final(job).stage is MakeRunFolder || final(job).stage is Deflate
            || final(job).stage is Run || final(job).stage is PackRemote <==> action is Exec,
        final(job).stage is Check ==> action->Exec_0@ == "ls "@ + data_folder(*final(job)),
        final(job).stage is MakeFolder ==> action->Exec_0@ == "mkdir "@ + data_folder(*final(job)),
        final(job).stage is MakeRunFolder ==> action->Exec_0@ == "mkdir "@ + execution_folder(
            *final(job),
        ),
        final(job).stage is Deflate ==> action->Exec_0@ == "tar -xf "@ + path_in(
            data_folder(*final(job)),
            ".send.tar"@,
        ) + " -C "@ + execution_folder(*final(job)),
        final(job).stage is Run ==> action->Exec_0@ == "cd "@ + execution_folder(*final(job))
            + " && ./run "@ + old(job).parameters.0@,
        final(job).stage is PackRemote ==> action->Exec_0@ == "cd "@ + execution_folder(*final(job))
            + " && (tar -cf "@ + path_in(execution_folder(*final(job)), ".fetch.tar"@) + " -X "@
            + path_in(execution_folder(*final(job)), ".fetchignore"@) + " * || tar -cf "@ + path_in(
            execution_folder(*final(job)),
            ".fetch.tar"@,
        ) + " *)"@,
{
}

/// Jobs with different parameters run the script differently, in the same folder.
pub proof fn different_parameters_are_run_differently(
    job: &mut Job,
    other: &mut Job,
    event: JobEvent,
    now: Timestamp,
    action: JobAction,
    action_other: JobAction,
)
    requires
        call_ensures(Job::step, (job, event, now), action),
        call_ensures(Job::step, (other, event, now), action_other),
        final(job).stage is Run && final(other).stage is Run,
        execution_folder(*final(job)) == execution_folder(*final(other)),
        old(job).parameters.0@ != old(other).parameters.0@,
    ensures
        action->Exec_0@ != action_other->Exec_0@,
{
    commands_of_a_job(job, event, now, action);
    commands_of_a_job(other, event, now, action_other);
    let start = "cd "@ + execution_folder(*final(job)) + " && ./run "@;
    let n = start.len() as int;
    assert((start + old(job).parameters.0@).skip(n) =~= old(job).parameters.0@);
    assert((start + old(other).parameters.0@).skip(n) =~= old(other).parameters.0@);
}

/// What is moved and read at the stages of a job: the folder of the execution is packed, its archive
/// is sent to the folder of the data, what the script left is fetched from the folder of the execution
/// and unpacked in that of the execution, and the features are read there.
pub proof fn files_of_a_job(job: &mut Job, event: JobEvent, now: Timestamp, action: JobAction)
    requires
        call_ensures(Job::step, (job, event, now), action),
        final(job).execution is Some,
        final(job).execution->Some_0.path is Some,
    ensures
        ({
            let folder = final(job).execution->Some_0.path->Some_0@;
            &&& final(job).stage is Pack ==> action is Pack && action->Pack_0@ == folder
            &&& final(job).stage is Send ==> {
                &&& action is Send
                &&& action->Send_0@ == path_in(folder, ".send.tar"@)
                &&& action->Send_1@ == path_in(data_folder(*final(job)), ".send.tar"@)
            }
            &&& final(job).stage is Fetch ==> {
                &&& action is Fetch
                &&& action->Fetch_0@ == path_in(execution_folder(*final(job)), ".fetch.tar"@)
                &&& action->Fetch_1@ == path_in(folder, ".fetch.tar"@)
            }
            &&& final(job).stage is Unpack ==> action is Unpack && action->Unpack_0@ == path_in(
                folder,
                ".fetch.tar"@,
            )
            &&& final(job).stage is ReadFeatures ==> action is ReadFeatures
                && action->ReadFeatures_0@ == path_in(folder, ".features"@)
            &&& final(job).stage is Finish ==> action is Finish && action->Finish_0
                == final(job).execution->Some_0.identifier
            &&& final(job).stage is Acquire ==> action is Acquire
            &&& final(job).stage is Over ==> action is Stop
        }),
{
}

/// The stage that follows where nothing fails. The data is not sent where the host has it.
pub open spec fn next_stage(stage: JobStage, event: JobEvent) -> JobStage {
    match stage {
        JobStage::Delete(_) => JobStage::Create,
        JobStage::Create => JobStage::NameExecutor,
        JobStage::NameExecutor => JobStage::Pack,
        JobStage::Pack => JobStage::Acquire,
        JobStage::Acquire => JobStage::Check,
        JobStage::Check => if event->Executed_0->Ok_0.status.raw == 0 {
            JobStage::MakeRunFolder
        } else {
            JobStage::MakeFolder
        },
        JobStage::MakeFolder => JobStage::Send,
        JobStage::Send => JobStage::MakeRunFolder,
        JobStage::MakeRunFolder => JobStage::Deflate,
        JobStage::Deflate => JobStage::Begin,
        JobStage::Begin => JobStage::Run,
        JobStage::Run => JobStage::End,
        JobStage::End => JobStage::PackRemote,
        JobStage::PackRemote => JobStage::Fetch,
        JobStage::Fetch => JobStage::Unpack,
        JobStage::Unpack => JobStage::ReadFeatures,
        JobStage::ReadFeatures => if event->Features_0 is Some {
            JobStage::ParseFeatures
        } else {
            JobStage::Finish
        },
        JobStage::ParseFeatures => JobStage::WriteFeatures,
        JobStage::WriteFeatures => JobStage::Finish,
        JobStage::Finish => JobStage::PostProcess,
        JobStage::Fail => JobStage::PostProcess,
        JobStage::PostProcess => JobStage::Over,
        JobStage::Over => JobStage::Over,
    }
}

/// Whether an event says at a stage that what was asked for failed. A command counts as failed where
/// its status says so, but for the look for the data and for the script itself.
pub open spec fn says_failure(stage: JobStage, event: JobEvent) -> bool {
    match event {
        JobEvent::Deleted(done) => !done,
        JobEvent::Execution(answer) => answer is Err && !(stage is Fail),
        JobEvent::Packed(hash) => hash is Err,
        JobEvent::Done(done) => done is Err,
        JobEvent::Executed(executed) => executed is Err || (executed->Ok_0.status.raw != 0 && !(
        stage is Check) && !(stage is Run)),
        JobEvent::Features(features) => features is Some && features->Some_0 is Err,
        JobEvent::Parsed(parsed) => parsed is Err,
        JobEvent::Unpacked | JobEvent::PostProcessed => false,
    }
}

/// A job goes through its stages one after the other as long as nothing fails. Before its execution is
/// created a failure ends it; from then on a failure is written to the execution, which is marked as
/// failed.
pub proof fn job_goes_through_its_stages(
    job: &mut Job,
    event: JobEvent,
    now: Timestamp,
    action: JobAction,
)
    requires
        call_ensures(Job::step, (job, event, now), action),
        old(job).execution is Some || old(job).stage is Delete || old(job).stage is Create,
    ensures
        !says_failure(old(job).stage, event) ==> final(job).stage == next_stage(
            old(job).stage,
            event,
        ),
        says_failure(old(job).stage, event) && (old(job).stage is Delete || old(job).stage is Create)
            ==> final(job).stage is Over && action is Stop,
        says_failure(old(job).stage, event) && !(old(job).stage is Delete) && !(
        old(job).stage is Create) ==> {
            &&& final(job).stage is Fail
            &&& action is Update
            &&& action->Update_0 == old(job).execution->Some_0.identifier
            &&& action->Update_1.state == Some(ExecutionState::Failed)
            &&& action->Update_1.execution_message is Some
            &&& action->Update_1.executor is None
            &&& action->Update_1.execution_exit_code is None
            &&& action->Update_1.execution_stdout is None
            &&& action->Update_1.execution_stderr is None
            &&& action->Update_1.execution_features is None
            &&& action->Update_1.execution_beginning_date is None
            &&& action->Update_1.execution_ending_date is None
        },
        final(job).host == old(job).host,
        final(job).commit == old(job).commit,
        final(job).parameters == old(job).parameters,
        final(job).tags@ == old(job).tags@,
{
}

/// The execution of a job is the one that was answered last, and the hash is that of the archive that
/// was packed.
pub proof fn answers_are_kept(job: &mut Job, event: JobEvent, now: Timestamp, action: JobAction)
    requires
        call_ensures(Job::step, (job, event, now), action),
    ensures
        event is Execution && event->Execution_0 is Ok ==> final(job).execution == Some(
            event->Execution_0->Ok_0,
        ),
        !(event is Execution && event->Execution_0 is Ok) ==> final(job).execution
            == old(job).execution,
        event is Packed && event->Packed_0 is Ok ==> final(job).hash == event->Packed_0->Ok_0,
        !(event is Packed && event->Packed_0 is Ok) ==> final(job).hash == old(job).hash,
        final(job).stage is PostProcess ==> action is PostProcess && action->PostProcess_0@
            == final(job).execution->Some_0@,
{
}

/// What is written of a failure names the step that failed and gives its reason.
pub proof fn reasons_of_failures_are_written(
    job: &mut Job,
    event: JobEvent,
    now: Timestamp,
    action: JobAction,
)
    requires
        call_ensures(Job::step, (job, event, now), action),
        final(job).stage is Fail,
    ensures
        ({
            let message = action->Update_1.execution_message->Some_0@;
            let start = "Failed to execute the job: "@;
            let failed = "Execution failed: \n"@;
            &&& event is Execution ==> message == start + (failed + (
            if old(job).stage is Finish {
                "Failed to finish exec: "@
            } else {
                "Failed to update exec: "@
            }) + event->Execution_0->Err_0@)
            &&& event is Done ==> message == start + (failed + (if old(job).stage is Acquire {
                "Failed to acquire node: "@
            } else if old(job).stage is Send {
                "Failed to send data: "@
            } else {
                "Failed to fetch data: "@
            }) + event->Done_0->Err_0@)
            &&& event is Executed && event->Executed_0 is Err ==> message == start + (failed + (
            if old(job).stage is Check {
                "Failed to check for data: "@
            } else if old(job).stage is Deflate {
                "Failed to deflate data: "@
            } else if old(job).stage is Run {
                "Failed to execute: "@
            } else if old(job).stage is PackRemote {
                "Failed to pack remote files: "@
            } else {
                "Failed to make remote dir: "@
            }) + event->Executed_0->Err_0@)
            &&& event is Features ==> message == start + (failed + "Failed to read features: "@
                + event->Features_0->Some_0->Err_0@)
            &&& event is Parsed ==> message == start + ("Remote command failed: \n"@
                + event->Parsed_0->Err_0@)
            &&& event is Packed ==> message == start + event->Packed_0->Err_0.text()
        }),
{
}

/// A job begins with the creation of its execution, out of its commit, its parameters and its tags;
/// one that is scheduled again with the deletion of the execution that it replaces.
pub proof fn job_begins_with_its_execution(job: Job, res: Result<JobAction, ExecutionId>)
    requires
        call_ensures(Job::start, (&job,), res),
    ensures
        job.stage is Delete ==> res == Err::<JobAction, ExecutionId>(job.stage->Delete_0),
        job.stage is Create ==> {
            &&& res is Ok
            &&& res->Ok_0 is Create
            &&& res->Ok_0->Create_0 == job.commit
            &&& res->Ok_0->Create_1 == job.parameters
            &&& res->Ok_0->Create_2@ == job.tags@
        },
{
}

proof fn first_newlines_are_taken_off(n: nat, s: Seq<char>)
    requires
        s.len() == 0 || s[0] != '\n',
    ensures
        without_first_newlines(Seq::new(n, |i: int| '\n') + s) == s,
    decreases n,
{
    let feeds = Seq::new(n, |i: int| '\n');
    if n == 0 {
        assert(feeds + s =~= s);
    } else {
        let fewer = Seq::new((n - 1) as nat, |i: int| '\n');
        assert((feeds + s).skip(1) =~= fewer + s);
        first_newlines_are_taken_off((n - 1) as nat, s);
    }
}

/// The features are the lines of the file, whatever line feeds stand around them.
pub proof fn features_are_the_lines(contents: &str, m: nat, s: Seq<char>, n: nat, res: Vec<String>)
    requires
        call_ensures(feature_lines, (contents,), res),
        contents@ == Seq::new(m, |i: int| '\n') + (s + Seq::new(n, |i: int| '\n')),
        s.len() > 0,
        s[0] != '\n',
        s.last() != '\n',
    ensures
        texts(res@) == lines_of(s),
{
    first_newlines_are_taken_off(m, s + Seq::new(n, |i: int| '\n'));
    crate::text::final_newlines_are_taken_off(s, n);
}

proof fn packed_files_filtered(
    folder: Seq<char>,
    met: Seq<(String, bool)>,
    wanted: spec_fn((String, bool)) -> bool,
    named: spec_fn((String, bool)) -> (Seq<char>, Seq<char>),
)
    requires
        forall|m: (String, bool)| #[trigger]
            wanted(m) == (m.1 && file_name_of(m.0@) != ".send.tar"@),
        forall|m: (String, bool)| #[trigger] named(m) == (m.0@, path_below(folder, m.0@)),
    ensures
        packed_files(folder, met) == met.filter(wanted).map_values(named),
    decreases met.len(),
{
    reveal(Seq::filter);
    if met.len() == 0 {
        assert(met.filter(wanted).map_values(named) =~= Seq::<(Seq<char>, Seq<char>)>::empty());
    } else {
        packed_files_filtered(folder, met.drop_last(), wanted, named);
        assert(wanted(met.last()) == (met.last().1 && file_name_of(met.last().0@)
            != ".send.tar"@));
        assert(named(met.last()) == (met.last().0@, path_below(folder, met.last().0@)));
        assert(packed_files(folder, met) =~= met.filter(wanted).map_values(named));
    }
}

/// What goes into the archive of a folder are all the files that were met, in their order and under
/// their path below the folder, but for the archive itself; nothing else does.
pub proof fn every_file_is_packed(
    folder: &str,
    met: &Vec<(String, bool)>,
    named: spec_fn((String, bool)) -> (Seq<char>, Seq<char>),
    res: Vec<(String, String)>,
)
    requires
        call_ensures(pack_folder, (folder, met), res),
        forall|m: (String, bool)| #[trigger] named(m) == (m.0@, path_below(folder@, m.0@)),
    ensures
        crate::commons::pairs(res@) == met@.filter(
            |m: (String, bool)| m.1 && file_name_of(m.0@) != ".send.tar"@,
        ).map_values(named),
{
    let wanted = |m: (String, bool)| m.1 && file_name_of(m.0@) != ".send.tar"@;
    packed_files_filtered(folder@, met@, wanted, named);
}

/// The hash of an archive is that of its bytes: archives with the same bytes have the same hash.
pub proof fn same_archives_have_the_same_hash(
    archive: &Vec<u8>,
    other: &Vec<u8>,
    res: u64,
    res_other: u64,
)
    requires
        call_ensures(archive_hash, (archive,), res),
        call_ensures(archive_hash, (other,), res_other),
    ensures
        archive@ == other@ ==> res == res_other,
        res == xx_hash64(archive@),
{
}

/// Whatever the raw status of the script is, its code is recorded where it exited by itself, else the
/// number of the signal that ended it, and else 911.
pub proof fn recorded_code_is_that_of_the_status(
    job: &mut Job,
    output: Output,
    now: Timestamp,
    code: Option<i32>,
    signal: Option<i32>,
    action: JobAction,
)
    requires
        call_ensures(Job::step, (job, JobEvent::Executed(Ok(output)), now), action),
        call_ensures(ExitStatus::code, (&output.status,), code),
        call_ensures(ExitStatus::signal, (&output.status,), signal),
        old(job).stage is Run,
    ensures
        action is Update,
        action->Update_1.execution_exit_code == (if code is Some {
            code
        } else if signal is Some {
            signal
        } else {
            Some(911i32)
        }),
{
}

/// A features file that holds nothing but line feeds has no features.
pub proof fn empty_files_have_no_features(contents: &str, m: nat, res: Vec<String>)
    requires
        call_ensures(feature_lines, (contents,), res),
        contents@ == Seq::new(m, |i: int| '\n'),
    ensures
        res.len() == 0,
{
    let none = Seq::<char>::empty();
    assert(contents@ =~= Seq::new(m, |i: int| '\n') + none);
    first_newlines_are_taken_off(m, none);
    assert(without_final_newlines(none) == none);
    crate::text::lines_come_one_by_one(none, none);
    assert(texts(res@).len() == 0);
}

} // verus!
