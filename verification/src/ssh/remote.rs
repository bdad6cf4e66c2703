//! The operations of a remote, from the request to the answer.
use vstd::prelude::*;
#[allow(unused_imports)]
use vstd::string::*;
#[allow(unused_imports)]
use crate::commons::{Output, TerminalContext, is_kept, output_views, pairs};
use crate::ssh::exec::{Exec, ExecAction, ExecEvent, exec_step};
#[allow(unused_imports)]
use crate::ssh::exec::{ExecStage, UNKNOWN_STATUS};
#[allow(unused_imports)]
use crate::ssh::pty::{
    Action, BASH_PTY_AGENT, Message, PTY_BASH, PTY_CLOSE, PTY_EXIT, PTY_INIT, Pty, PtyAction,
    PtyMessage, PtyView, export_lines, message_of, read_message, run_text, setup_text,
};
use crate::ssh::scp::{
    FetchAction, FetchEvent, ScpFetch, ScpSend, SendAction, SendEvent, fetch_step, send_step,
};
#[allow(unused_imports)]
use crate::ssh::scp::{FetchStage, SendStage};
use crate::ssh::{Error, OperationInput, OperationOutput};
#[allow(unused_imports)]
use crate::text::{begins_with, cat, cat3, cat4, texts};

verus! {

//-------------------------------------------------------------------------- INTERACTIVE COMMANDS
/// Where interactive commands stand: what was asked for and is waited for.
#[derive(Clone, Copy, Debug, PartialEq, Eq, Structural)]
pub enum PtyStage {
    /// A channel is opened.
    Open,
    /// Bash is started.
    Bash,
    /// The agent is injected.
    Agent,
    /// The agent is initialized.
    Init,
    /// The context is set up.
    Context,
    /// A command is written.
    Run,
    /// It is written that no command is left.
    Finish,
    /// A line is read.
    Read,
    /// A line of output is handed over.
    Callback,
    /// The shells are left.
    Leave,
    /// The channel is closed.
    Close,
    Over,
}

/// What came of the last action.
pub enum PtyEvent {
    Done,
    Failed(String),
    Line(String),
}

/// What has to be done next.
pub enum PtyStep {
    Open,
    Write(String),
    Read,
    Stdout(Vec<u8>),
    Stderr(Vec<u8>),
    Close,
    Return(Result<(TerminalContext, Vec<Output>), Error>),
}

/// Interactive commands that run in a context.
pub struct PtyRun {
    pub context: TerminalContext,
    pub session: Pty,
    /// The command that was started last.
    pub command: String,
    pub stage: PtyStage,
}

/// What is said of a failure.
pub open spec fn pty_failure(
    stage: PtyStage,
    command: Seq<char>,
    reason: Seq<char>,
) -> Seq<char> {
    match stage {
        PtyStage::Open => "Failed to start pty channel: "@ + reason,
        PtyStage::Bash => "Failed to start bash: "@ + reason,
        PtyStage::Agent => "Failed to inject agent: "@ + reason,
        PtyStage::Init => "Failed to initialize agent: "@ + reason,
        PtyStage::Context => "Failed to set context up: "@ + reason,
        PtyStage::Run => "Failed to exec command '"@ + command + "': "@ + reason,
        PtyStage::Finish => "Failed to finish exec : "@ + reason,
        PtyStage::Read => "Failed to read outputs: "@ + reason,
        PtyStage::Leave => "Failed to start bash: "@ + reason,
        _ => "Failed to close channel: "@ + reason,
    }
}

/// The text that is to be written.
pub open spec fn writes(step: PtyStep, text: Seq<char>) -> bool {
    step is Write && step->Write_0@ == text
}

/// What a step does where the last action was done: how the commands go on, and what has to be
/// done next.
pub open spec fn pty_done(before: PtyRun, after: PtyRun, step: PtyStep) -> bool {
    &&& after.session@ == before.session@
    &&& after.command == before.command
    &&& match before.stage {
        PtyStage::Open => after.stage == PtyStage::Bash && writes(step, PTY_BASH@),
        PtyStage::Bash => after.stage == PtyStage::Agent && writes(step, BASH_PTY_AGENT@),
        PtyStage::Agent => after.stage == PtyStage::Init && writes(step, PTY_INIT@),
        PtyStage::Init => after.stage == PtyStage::Context && writes(
            step,
            "cd "@ + before.context.cwd@ + "\n"@ + export_lines(
                pairs(before.context.envs.entries@),
            ),
        ),
        PtyStage::Context => after.stage == PtyStage::Run && writes(
            step,
            run_text(before.command@),
        ),
        PtyStage::Leave => after.stage == PtyStage::Close && step is Close,
        PtyStage::Close => {
            &&& after.stage == PtyStage::Over
            &&& step is Return
            &&& step->Return_0 is Ok
            &&& step->Return_0->Ok_0.0.wf()
            &&& step->Return_0->Ok_0.0.cwd@ == before.session@.cwd
            &&& step->Return_0->Ok_0.0.envs@ == before.session@.envs.restrict(
                Set::new(|key: Seq<char>| is_kept(key, before.context.envs@)),
            )
            &&& output_views(step->Return_0->Ok_0.1@) == before.session@.outputs
        },
        _ => after.stage == PtyStage::Read && step is Read,
    }
}

/// What a step does with a line that was read.
pub open spec fn pty_line(
    before: PtyRun,
    line: Seq<char>,
    after: PtyRun,
    step: PtyStep,
) -> bool {
    let message = message_of(line);
    &&& after.session@ == before.session@.after(message)
    &&& match before.session@.action(message) {
        Action::Read => {
            &&& after.command == before.command
            &&& after.stage == PtyStage::Read
            &&& step is Read
        },
        Action::Run(command) => {
            &&& after.command@ == command
            &&& after.stage == PtyStage::Run
            &&& writes(step, run_text(command))
        },
        Action::Close => {
            &&& after.command == before.command
            &&& after.stage == PtyStage::Finish
            &&& writes(step, PTY_CLOSE@)
        },
        Action::Stdout(bytes) => {
            &&& after.command == before.command
            &&& after.stage == PtyStage::Callback
            &&& step is Stdout
            &&& step->Stdout_0@ == bytes
        },
        Action::Stderr(bytes) => {
            &&& after.command == before.command
            &&& after.stage == PtyStage::Callback
            &&& step is Stderr
            &&& step->Stderr_0@ == bytes
        },
        Action::Finished => {
            &&& after.command == before.command
            &&& after.stage == PtyStage::Leave
            &&& writes(step, PTY_EXIT@)
        },
    }
}

/// What a step does: how the commands go on, and what has to be done next.
pub open spec fn pty_step(before: PtyRun, event: PtyEvent, after: PtyRun, step: PtyStep) -> bool {
    &&& after.context == before.context
    &&& match event {
        PtyEvent::Done => pty_done(before, after, step),
        PtyEvent::Line(line) => pty_line(before, line@, after, step),
        PtyEvent::Failed(reason) => {
            &&& after.session@ == before.session@
            &&& after.command == before.command
            &&& after.stage == PtyStage::Over
            &&& step is Return
            &&& step->Return_0 is Err
            &&& step->Return_0->Err_0 is ExecutionFailed
            &&& step->Return_0->Err_0->ExecutionFailed_0@ == pty_failure(
                before.stage,
                before.command@,
                reason@,
            )
        },
    }
}

impl PtyRun {
    /// The context and the session are well formed.
    pub open spec fn wf(&self) -> bool {
        self.context.wf() && self.session.wf()
    }

    /// Whether the event can come of what was asked for.
    pub open spec fn accepts(&self, event: PtyEvent) -> bool {
        match self.stage {
            PtyStage::Over => false,
            PtyStage::Read => match event {
                PtyEvent::Line(line) => message_of(line@) != Message::Code(None),
                PtyEvent::Failed(_) => true,
                PtyEvent::Done => false,
            },
            PtyStage::Callback => event is Done,
            _ => event is Done || event is Failed,
        }
    }

    /// Starts interactive commands, of which a channel is to be opened first.
    pub fn start(context: TerminalContext, commands: Vec<String>) -> (res: Result<PtyRun, Error>)
        requires
            context.wf(),
        ensures
            match res {
                Ok(run) => {
                    &&& commands.len() > 0
                    &&& run.wf()
                    &&& run.context == context
                    &&& run.session@ == PtyView::started(texts(commands@))
                    &&& run.command@ == commands@[0]@
                    &&& run.stage == PtyStage::Open
                },
                Err(e) => {
                    &&& commands.len() == 0
                    &&& e is ExecutionFailed
                    &&& e->ExecutionFailed_0@ == "No command was provided."@
                },
            },
    {
        match Pty::start(commands) {
            Ok((session, PtyAction::Run(command))) => Ok(
                PtyRun { context, session, command, stage: PtyStage::Open },
            ),
            Ok((session, _)) => Ok(
                PtyRun { context, session, command: String::new(), stage: PtyStage::Open },
            ),
            Err(e) => Err(e),
        }
    }

    /// Takes what came of the last action into account, and says what has to be done next.
    pub fn step(&mut self, event: PtyEvent) -> (res: PtyStep)
        requires
            old(self).wf(),
            old(self).accepts(event),
        ensures
            final(self).wf(),
            pty_step(*old(self), event, *final(self), res),
    {
        match event {
            PtyEvent::Done => match self.stage {
                PtyStage::Open => {
                    self.stage = PtyStage::Bash;
                    PtyStep::Write(PTY_BASH.to_owned())
                },
                PtyStage::Bash => {
                    self.stage = PtyStage::Agent;
                    PtyStep::Write(BASH_PTY_AGENT.to_owned())
                },
                PtyStage::Agent => {
                    self.stage = PtyStage::Init;
                    PtyStep::Write(PTY_INIT.to_owned())
                },
                PtyStage::Init => {
                    self.stage = PtyStage::Context;
                    let text = setup_text(&self.context);
                    PtyStep::Write(text)
                },
                PtyStage::Context => {
                    self.stage = PtyStage::Run;
                    let text = cat3("rw_run \"", self.command.as_str(), "\"\n");
                    PtyStep::Write(text)
                },
                PtyStage::Leave => {
                    self.stage = PtyStage::Close;
                    PtyStep::Close
                },
                PtyStage::Close => {
                    self.stage = PtyStage::Over;
                    let result = self.session.finish(&self.context);
                    PtyStep::Return(Ok(result))
                },
                _ => {
                    self.stage = PtyStage::Read;
                    PtyStep::Read
                },
            },
            PtyEvent::Line(line) => {
                let message = read_message(line.as_str());
                match self.session.receive(message) {
                    PtyAction::Read => PtyStep::Read,
                    PtyAction::Run(command) => {
                        let text = cat3("rw_run \"", command.as_str(), "\"\n");
                        self.command = command;
                        self.stage = PtyStage::Run;
                        PtyStep::Write(text)
                    },
                    PtyAction::Close => {
                        self.stage = PtyStage::Finish;
                        PtyStep::Write(PTY_CLOSE.to_owned())
                    },
                    PtyAction::Stdout(bytes) => {
                        self.stage = PtyStage::Callback;
                        PtyStep::Stdout(bytes)
                    },
                    PtyAction::Stderr(bytes) => {
                        self.stage = PtyStage::Callback;
                        PtyStep::Stderr(bytes)
                    },
                    PtyAction::Finished => {
                        self.stage = PtyStage::Leave;
                        PtyStep::Write(PTY_EXIT.to_owned())
                    },
                }
            },
            PtyEvent::Failed(reason) => {
                let reason = reason.as_str();
                let text = match self.stage {
                    PtyStage::Open => cat("Failed to start pty channel: ", reason),
                    PtyStage::Bash => cat("Failed to start bash: ", reason),
                    PtyStage::Agent => cat("Failed to inject agent: ", reason),
                    PtyStage::Init => cat("Failed to initialize agent: ", reason),
                    PtyStage::Context => cat("Failed to set context up: ", reason),
                    PtyStage::Run => cat4(
                        "Failed to exec command '",
                        self.command.as_str(),
                        "': ",
                        reason,
                    ),
                    PtyStage::Finish => cat("Failed to finish exec : ", reason),
                    PtyStage::Read => cat("Failed to read outputs: ", reason),
                    PtyStage::Leave => cat("Failed to start bash: ", reason),
                    _ => cat("Failed to close channel: ", reason),
                };
                self.stage = PtyStage::Over;
                PtyStep::Return(Err(Error::ExecutionFailed(text)))
            },
        }
    }
}

//----------------------------------------------------------------------------------------- TASKS
/// An operation that was asked for, and runs.
pub enum Task {
    Exec(Exec),
    Pty(PtyRun),
    ScpSend(ScpSend),
    ScpFetch(ScpFetch),
}

/// What came of the last action of a task.
pub enum TaskEvent {
    Exec(ExecEvent),
    Pty(PtyEvent),
    ScpSend(SendEvent),
    ScpFetch(FetchEvent),
}

/// What has to be done next for a task.
pub enum TaskAction {
    Exec(ExecAction),
    Pty(PtyStep),
    /// What has to be done to send the local file to the remote path.
    ScpSend(SendAction),
    /// What has to be done to fetch the remote file to the local path.
    ScpFetch(FetchAction),
    /// The operation is over: the answer is sent.
    Answer(OperationOutput),
}

/// Whether the task runs the operation that was asked for.
pub open spec fn runs(task: Task, operation: OperationInput) -> bool {
    match operation {
        OperationInput::Exec(command) => {
            &&& task is Exec
            &&& task->Exec_0.command == command
            &&& task->Exec_0.stage == ExecStage::Open
            &&& task->Exec_0.output@.stdout.len() == 0
            &&& task->Exec_0.output@.stderr.len() == 0
            &&& task->Exec_0.output@.status == UNKNOWN_STATUS
        },
        OperationInput::Pty(context, commands) => {
            &&& task is Pty
            &&& task->Pty_0.context == context
            &&& task->Pty_0.session@ == PtyView::started(texts(commands@))
            &&& task->Pty_0.command@ == commands@[0]@
            &&& task->Pty_0.stage == PtyStage::Open
        },
        OperationInput::ScpSend(_, _) => task == Task::ScpSend(
            ScpSend { stage: SendStage::Open, remaining: 0 },
        ),
        OperationInput::ScpFetch(_, _) => task == Task::ScpFetch(
            ScpFetch { stage: FetchStage::Open, remaining: 0 },
        ),
    }
}

/// What a step of a task does: it is a step of the operation that runs, and what the operation
/// returns is the answer to it.
pub open spec fn task_step(before: Task, event: TaskEvent, after: Task, action: TaskAction) -> bool {
    match (before, event, after) {
        (Task::Exec(b), TaskEvent::Exec(e), Task::Exec(a)) => match action {
            TaskAction::Exec(next) => !(next is Return) && exec_step(b, e, a, next),
            TaskAction::Answer(OperationOutput::Exec(result)) => exec_step(
                b,
                e,
                a,
                ExecAction::Return(result),
            ),
            _ => false,
        },
        (Task::Pty(b), TaskEvent::Pty(e), Task::Pty(a)) => match action {
            TaskAction::Pty(next) => !(next is Return) && pty_step(b, e, a, next),
            TaskAction::Answer(OperationOutput::Pty(result)) => pty_step(
                b,
                e,
                a,
                PtyStep::Return(result),
            ),
            _ => false,
        },
        (Task::ScpSend(b), TaskEvent::ScpSend(e), Task::ScpSend(a)) => match action {
            TaskAction::ScpSend(next) => !(next is Return) && send_step(b, e, a, next),
            TaskAction::Answer(OperationOutput::ScpSend(result)) => send_step(
                b,
                e,
                a,
                SendAction::Return(result),
            ),
            _ => false,
        },
        (Task::ScpFetch(b), TaskEvent::ScpFetch(e), Task::ScpFetch(a)) => match action {
            TaskAction::ScpFetch(next) => !(next is Return) && fetch_step(b, e, a, next),
            TaskAction::Answer(OperationOutput::ScpFetch(result)) => fetch_step(
                b,
                e,
                a,
                FetchAction::Return(result),
            ),
            _ => false,
        },
        _ => false,
    }
}

impl Task {
    /// The context and the session of interactive commands are well formed.
    pub open spec fn wf(&self) -> bool {
        match self {
            Task::Pty(run) => run.wf(),
            _ => true,
        }
    }

    /// Whether the event can come of what was asked for.
    pub open spec fn accepts(&self, event: TaskEvent) -> bool {
        match (self, event) {
            (Task::Exec(task), TaskEvent::Exec(e)) => task.accepts(e),
            (Task::Pty(task), TaskEvent::Pty(e)) => task.accepts(e),
            (Task::ScpSend(task), TaskEvent::ScpSend(e)) => task.accepts(e),
            (Task::ScpFetch(task), TaskEvent::ScpFetch(e)) => task.accepts(e),
            _ => false,
        }
    }

    /// Starts the operation that is asked for, of which a channel is to be opened first. Where no
    /// command is given to be run interactively, the operation is answered right away.
    pub fn start(operation: OperationInput) -> (res: Result<Task, OperationOutput>)
        requires
            operation is Pty ==> operation->Pty_0.wf(),
        ensures
            match res {
                Ok(task) => {
                    &&& task.wf()
                    &&& runs(task, operation)
                },
                Err(answer) => {
                    &&& operation is Pty
                    &&& operation->Pty_1.len() == 0
                    &&& answer is Pty
                    &&& answer->Pty_0 is Err
                    &&& answer->Pty_0->Err_0 is ExecutionFailed
                    &&& answer->Pty_0->Err_0->ExecutionFailed_0@ == "No command was provided."@
                },
            },
            operation is Pty && operation->Pty_1.len() == 0 ==> res is Err,
    {
        match operation {
            OperationInput::Exec(command) => Ok(Task::Exec(Exec::start(command))),
            OperationInput::Pty(context, commands) => match PtyRun::start(context, commands) {
                Ok(run) => Ok(Task::Pty(run)),
                Err(e) => Err(OperationOutput::Pty(Err(e))),
            },
            OperationInput::ScpSend(_, _) => Ok(Task::ScpSend(ScpSend::start())),
            OperationInput::ScpFetch(_, _) => Ok(Task::ScpFetch(ScpFetch::start())),
        }
    }

    /// Takes what came of the last action into account, and says what has to be done next.
    pub fn step(&mut self, event: TaskEvent) -> (res: TaskAction)
        requires
            old(self).wf(),
            old(self).accepts(event),
        ensures
            final(self).wf(),
            task_step(*old(self), event, *final(self), res),
    {
        match (self, event) {
            (Task::Exec(task), TaskEvent::Exec(e)) => match task.step(e) {
                ExecAction::Return(result) => TaskAction::Answer(OperationOutput::Exec(result)),
                next => TaskAction::Exec(next),
            },
            (Task::Pty(task), TaskEvent::Pty(e)) => match task.step(e) {
                PtyStep::Return(result) => TaskAction::Answer(OperationOutput::Pty(result)),
                next => TaskAction::Pty(next),
            },
            (Task::ScpSend(task), TaskEvent::ScpSend(e)) => match task.step(e) {
                SendAction::Return(result) => TaskAction::Answer(OperationOutput::ScpSend(result)),
                next => TaskAction::ScpSend(next),
            },
            (Task::ScpFetch(task), TaskEvent::ScpFetch(e)) => match task.step(e) {
                FetchAction::Return(result) => TaskAction::Answer(
                    OperationOutput::ScpFetch(result),
                ),
                next => TaskAction::ScpFetch(next),
            },
            _ => vstd::pervasive::unreached(),
        }
    }
}

/// Whether the task is one for the operation.
pub open spec fn serves(task: Task, operation: OperationInput) -> bool {
    match operation {
        OperationInput::Exec(_) => task is Exec,
        OperationInput::Pty(_, _) => task is Pty,
        OperationInput::ScpSend(_, _) => task is ScpSend,
        OperationInput::ScpFetch(_, _) => task is ScpFetch,
    }
}

/// An answer is always to the operation that was asked for: a task that is started for an
/// operation stays one for it, and answers what a caller of that operation expects.
pub proof fn answers_match_operations(
    operation: OperationInput,
    started: Task,
    before: Task,
    event: TaskEvent,
    after: Task,
    action: TaskAction,
)
    requires
        runs(started, operation),
        serves(before, operation),
        task_step(before, event, after, action),
    ensures
        serves(started, operation),
        serves(after, operation),
        action is Answer ==> match operation {
            OperationInput::Exec(_) => action->Answer_0 is Exec,
            OperationInput::Pty(_, _) => action->Answer_0 is Pty,
            OperationInput::ScpSend(_, _) => action->Answer_0 is ScpSend,
            OperationInput::ScpFetch(_, _) => action->Answer_0 is ScpFetch,
        },
{
}

//------------------------------------------------------------------------------------------ LAWS
/// Interactive commands are run in bash, by the agent, in their context: each of these is written once
/// the one before it is done. Then the first command is run, and its lines are read.
pub proof fn commands_are_set_up(run: &mut PtyRun, res: PtyStep)
    requires
        call_ensures(PtyRun::step, (run, PtyEvent::Done), res),
    ensures
        old(run).stage is Open ==> final(run).stage is Bash && res is Write && res->Write_0@
            == "export HISTFILE=/dev/null\nbash\n"@,
        old(run).stage is Bash ==> final(run).stage is Agent && res is Write && res->Write_0@
            == BASH_PTY_AGENT@,
        old(run).stage is Agent ==> final(run).stage is Init && res is Write && res->Write_0@
            == "rw_init\n"@,
        old(run).stage is Init ==> final(run).stage is Context && res is Write && res->Write_0@
            == "cd "@ + old(run).context.cwd@ + "\n"@ + export_lines(
            pairs(old(run).context.envs.entries@),
        ),
        old(run).stage is Context ==> final(run).stage is Run && res is Write && res->Write_0@
            == "rw_run \""@ + old(run).command@ + "\"\n"@,
        old(run).stage is Run || old(run).stage is Finish || old(run).stage is Callback
            ==> final(run).stage is Read && res is Read,
        old(run).stage is Leave ==> final(run).stage is Close && res is Close,
        final(run).session@ == old(run).session@,
        final(run).context == old(run).context,
{
}

/// What interactive commands return is what was received: the outputs of the commands in their order,
/// with their status, the working directory that they left, and of the variables those of runaway and
/// those that were given.
pub proof fn what_was_received_is_returned(
    run: &mut PtyRun,
    key: Seq<char>,
    i: int,
    res: PtyStep,
)
    requires
        call_ensures(PtyRun::step, (run, PtyEvent::Done), res),
        old(run).stage is Close,
    ensures
        res is Return && res->Return_0 is Ok,
        final(run).stage is Over,
        res->Return_0->Ok_0.1.len() == old(run).session@.outputs.len(),
        0 <= i < res->Return_0->Ok_0.1.len() ==> {
            &&& res->Return_0->Ok_0.1@[i].status.raw == old(run).session@.outputs[i].status
            &&& res->Return_0->Ok_0.1@[i].stdout@ == old(run).session@.outputs[i].stdout
            &&& res->Return_0->Ok_0.1@[i].stderr@ == old(run).session@.outputs[i].stderr
        },
        res->Return_0->Ok_0.0.cwd@ == old(run).session@.cwd,
        res->Return_0->Ok_0.0.envs@.contains_key(key) <==> old(run).session@.envs.contains_key(key)
            && (begins_with(key, "RUNAWAY"@) || old(run).context.envs@.contains_key(key)),
        res->Return_0->Ok_0.0.envs@.contains_key(key) ==> res->Return_0->Ok_0.0.envs@[key] == old(
            run,
        ).session@.envs[key],
{
    let outputs = res->Return_0->Ok_0.1@;
    assert(output_views(outputs).len() == outputs.len());
    if 0 <= i < outputs.len() {
        assert(output_views(outputs)[i] == outputs[i]@);
    }
}

/// The exit code of a command is its status in the outputs, whatever the code is. Where it is zero, the
/// next command is written, if there is one; else the agent is told that no command is left.
pub proof fn exit_code_decides_what_follows(
    run: &mut PtyRun,
    line: String,
    text: &str,
    code: i32,
    message: PtyMessage,
    res: PtyStep,
)
    requires
        call_ensures(PtyRun::step, (run, PtyEvent::Line(line)), res),
        call_ensures(read_message, (text,), message),
        text@ == line@,
        message == PtyMessage::Code(Some(code)),
        old(run).session@.outputs.len() > 0,
    ensures
        ({
            let n = old(run).session@.outputs.len() as int;
            &&& final(run).session@.outputs[n - 1].status == code
            &&& final(run).session@.outputs[n - 1].stdout == old(run).session@.outputs[n - 1].stdout
            &&& final(run).session@.outputs[n - 1].stderr == old(run).session@.outputs[n - 1].stderr
        }),
        code == 0 && old(run).session@.waiting.len() > 0 ==> res is Write && res->Write_0@
            == "rw_run \""@ + old(run).session@.waiting[0] + "\"\n"@ && final(run).stage is Run
            && final(run).session@.waiting == old(run).session@.waiting.skip(1),
        code != 0 || old(run).session@.waiting.len() == 0 ==> res is Write && res->Write_0@
            == "rw_close \n"@ && final(run).stage is Finish,
{
}

/// A line of output is handed over and kept in the output of the command that runs; the end of the
/// messages makes the shells be left. A line that says nothing is skipped.
pub proof fn lines_are_handed_over(
    run: &mut PtyRun,
    line: String,
    text: &str,
    message: PtyMessage,
    res: PtyStep,
)
    requires
        call_ensures(PtyRun::step, (run, PtyEvent::Line(line)), res),
        call_ensures(read_message, (text,), message),
        text@ == line@,
        old(run).session@.outputs.len() > 0,
    ensures
        ({
            let n = old(run).session@.outputs.len() as int;
            let before = old(run).session@.outputs[n - 1];
            let after = final(run).session@.outputs[n - 1];
            &&& message is Stdout ==> {
                &&& res is Stdout
                &&& after.stdout == before.stdout + res->Stdout_0@
                &&& res->Stdout_0@ == vstd::utf8::encode_utf8(message->Stdout_0@)
                &&& after.stderr == before.stderr
                &&& final(run).stage is Callback
            }
            &&& message is Stderr ==> {
                &&& res is Stderr
                &&& after.stderr == before.stderr + res->Stderr_0@
                &&& res->Stderr_0@ == vstd::utf8::encode_utf8(message->Stderr_0@)
                &&& after.stdout == before.stdout
                &&& final(run).stage is Callback
            }
        }),
        message is Eof ==> res is Write && res->Write_0@ == "history -c \nexit\n history -c \nexit\n"@
            && final(run).stage is Leave && final(run).session@.outputs == old(run).session@.outputs,
        message is Cwd ==> res is Read && final(run).session@.cwd == message->Cwd_0@,
        message is Env ==> res is Read && final(run).session@.envs
            == old(run).session@.envs.insert(message->Env_0@, message->Env_1@),
        message is Other ==> res is Read && final(run).session@ == old(run).session@,
{
}

/// The operation that is asked for is the one that runs.
pub proof fn operation_is_started(operation: OperationInput, res: Result<Task, OperationOutput>)
    requires
        call_ensures(Task::start, (operation,), res),
    ensures
        res is Err <==> operation is Pty && operation->Pty_1.len() == 0,
        operation is Exec ==> res->Ok_0 is Exec && res->Ok_0->Exec_0.command == operation->Exec_0
            && res->Ok_0->Exec_0.stage is Open,
        operation is Pty && operation->Pty_1.len() > 0 ==> res->Ok_0 is Pty
            && res->Ok_0->Pty_0.context == operation->Pty_0 && res->Ok_0->Pty_0.command@
            == operation->Pty_1@[0]@ && res->Ok_0->Pty_0.stage is Open,
        operation is ScpSend ==> res->Ok_0 is ScpSend && res->Ok_0->ScpSend_0.stage is Open,
        operation is ScpFetch ==> res->Ok_0 is ScpFetch && res->Ok_0->ScpFetch_0.stage is Open,
        operation is Pty && operation->Pty_1.len() == 0 ==> res->Err_0 is Pty
            && res->Err_0->Pty_0 is Err,
{
}

/// An execution is answered with the code that its channel was closed with and with what was read, and
/// a transfer with success once its channel was closed.
pub proof fn tasks_answer_what_was_done(
    exec: &mut Task,
    send: &mut Task,
    fetch: &mut Task,
    code: i32,
    res: TaskAction,
    res_send: TaskAction,
    res_fetch: TaskAction,
)
    requires
        call_ensures(Task::step, (exec, TaskEvent::Exec(ExecEvent::Closed(code))), res),
        call_ensures(Task::step, (send, TaskEvent::ScpSend(SendEvent::Closed)), res_send),
        call_ensures(Task::step, (fetch, TaskEvent::ScpFetch(FetchEvent::Closed)), res_fetch),
        *old(exec) is Exec,
        *old(send) is ScpSend,
        *old(fetch) is ScpFetch,
    ensures
        res is Answer,
        res->Answer_0 is Exec,
        res->Answer_0->Exec_0 is Ok,
        res->Answer_0->Exec_0->Ok_0.status.raw == code,
        res->Answer_0->Exec_0->Ok_0.stdout@ == (*old(exec))->Exec_0.output.stdout@,
        res->Answer_0->Exec_0->Ok_0.stderr@ == (*old(exec))->Exec_0.output.stderr@,
        res_send is Answer && res_send->Answer_0 is ScpSend && res_send->Answer_0->ScpSend_0 is Ok,
        res_fetch is Answer && res_fetch->Answer_0 is ScpFetch
            && res_fetch->Answer_0->ScpFetch_0 is Ok,
{
    assert(res->Answer_0->Exec_0->Ok_0@.status == code);
    assert(res->Answer_0->Exec_0->Ok_0@.stdout == (*old(exec))->Exec_0.output@.stdout);
    assert(res->Answer_0->Exec_0->Ok_0@.stderr == (*old(exec))->Exec_0.output@.stderr);
}

/// Interactive commands that fail say at which step, and why.
pub proof fn failed_commands_are_told(run: &mut PtyRun, reason: String, res: PtyStep)
    requires
        call_ensures(PtyRun::step, (run, PtyEvent::Failed(reason)), res),
    ensures
        final(run).stage is Over,
        res is Return && res->Return_0 is Err && res->Return_0->Err_0 is ExecutionFailed,
        ({
            let text = res->Return_0->Err_0->ExecutionFailed_0@;
            let stage = old(run).stage;
            &&& stage is Open ==> text == "Failed to start pty channel: "@ + reason@
            &&& stage is Bash ==> text == "Failed to start bash: "@ + reason@
            &&& stage is Agent ==> text == "Failed to inject agent: "@ + reason@
            &&& stage is Init ==> text == "Failed to initialize agent: "@ + reason@
            &&& stage is Context ==> text == "Failed to set context up: "@ + reason@
            &&& stage is Run ==> text == "Failed to exec command '"@ + old(run).command@ + "': "@
                + reason@
            &&& stage is Finish ==> text == "Failed to finish exec : "@ + reason@
            &&& stage is Read ==> text == "Failed to read outputs: "@ + reason@
            &&& stage is Leave ==> text == "Failed to start bash: "@ + reason@
            &&& stage is Close ==> text == "Failed to close channel: "@ + reason@
        }),
{
}

/// What an operation asks for is handed on by its task: the command of an execution is run, and the
/// bytes of a transfer are moved.
pub proof fn tasks_hand_on_what_is_asked(
    exec: &mut Task,
    send: &mut Task,
    fetch: &mut Task,
    bytes: i64,
    res: TaskAction,
    res_send: TaskAction,
    res_fetch: TaskAction,
)
    requires
        call_ensures(Task::step, (exec, TaskEvent::Exec(ExecEvent::Done)), res),
        call_ensures(Task::step, (send, TaskEvent::ScpSend(SendEvent::Opened(bytes))), res_send),
        call_ensures(
            Task::step,
            (fetch, TaskEvent::ScpFetch(FetchEvent::Opened(bytes))),
            res_fetch,
        ),
        *old(exec) is Exec,
        (*old(exec))->Exec_0.stage is Open,
        *old(send) is ScpSend,
        *old(fetch) is ScpFetch,
    ensures
        res is Exec,
        res->Exec_0 is Run,
        res->Exec_0->Run_0@ == (*old(exec))->Exec_0.command@ + "\n"@,
        res_send is ScpSend && res_send->ScpSend_0 is Fill,
        *final(send) is ScpSend && (*final(send))->ScpSend_0.remaining == bytes,
        res_fetch is ScpFetch && res_fetch->ScpFetch_0 is Read,
        *final(fetch) is ScpFetch && (*final(fetch))->ScpFetch_0.remaining == bytes,
{
}

/// Interactive commands are answered with what was received, once their channel is closed.
pub proof fn interactive_commands_are_answered(
    task: &mut Task,
    i: int,
    res: TaskAction,
)
    requires
        call_ensures(Task::step, (task, TaskEvent::Pty(PtyEvent::Done)), res),
        *old(task) is Pty,
        (*old(task))->Pty_0.stage is Close,
    ensures
        res is Answer && res->Answer_0 is Pty && res->Answer_0->Pty_0 is Ok,
        ({
            let outputs = res->Answer_0->Pty_0->Ok_0.1@;
            let received = (*old(task))->Pty_0.session@.outputs;
            &&& outputs.len() == received.len()
            &&& 0 <= i < outputs.len() ==> outputs[i].status.raw == received[i].status
                && outputs[i].stdout@ == received[i].stdout && outputs[i].stderr@
                == received[i].stderr
        }),
{
    let outputs = res->Answer_0->Pty_0->Ok_0.1@;
    assert(output_views(outputs).len() == outputs.len());
    if 0 <= i < outputs.len() {
        assert(output_views(outputs)[i] == outputs[i]@);
    }
}

} // verus!
