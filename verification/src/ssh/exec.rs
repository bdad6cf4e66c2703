//! The execution of a command on a remote host, step by step.
use vstd::prelude::*;
#[allow(unused_imports)]
use vstd::string::*;
#[allow(unused_imports)]
use crate::commons::{ExitStatus, Output, OutputView};
use crate::ssh::Error;
use crate::text::{cat, cat4};

verus! {

/// The status of an output before the exit code is known.
pub const UNKNOWN_STATUS: i32 = 911;

/// Where an execution stands: what was asked for and is waited for.
#[derive(Clone, Copy, Debug, PartialEq, Eq, Structural)]
pub enum ExecStage {
    /// A channel is opened.
    Open,
    /// The command is sent.
    Run,
    /// The end of the input is sent.
    SendEof,
    /// The two streams are read.
    Read,
    /// The channel is closed.
    Close,
    /// Nothing: the execution is over.
    Over,
}

/// What came of the last action.
pub enum ExecEvent {
    /// It was done.
    Done,
    /// It failed; on a read, that of the standard output.
    Failed(String),
    /// The read of the standard error failed.
    StderrFailed(String),
    /// The two streams were read, and were or were not at their end before that.
    Read(Vec<u8>, Vec<u8>, bool),
    /// The channel was closed with an exit code.
    Closed(i32),
}

/// What has to be done next.
pub enum ExecAction {
    Open,
    Run(String),
    SendEof,
    Read,
    Close,
    Return(Result<Output, Error>),
}

pub struct Exec {
    pub command: String,
    pub stage: ExecStage,
    pub output: Output,
}

/// What is said of a failure.
pub open spec fn exec_failure(stage: ExecStage, command: Seq<char>, event: ExecEvent) -> Seq<char> {
    match event {
        ExecEvent::StderrFailed(reason) => "Failed to read stderr: "@ + reason@,
        ExecEvent::Failed(reason) => match stage {
            ExecStage::Open => "Failed to open channel: "@ + reason@,
            ExecStage::Run => "Failed to exec command "@ + command + ": "@ + reason@,
            ExecStage::SendEof => "Failed to send EOF: "@ + reason@,
            ExecStage::Read => "Failed to read stdout: "@ + reason@,
            _ => "Failed to close channel: "@ + reason@,
        },
        _ => Seq::empty(),
    }
}

/// What a step does: how the execution goes on, and what has to be done next.
pub open spec fn exec_step(before: Exec, event: ExecEvent, after: Exec, action: ExecAction) -> bool {
    &&& after.command == before.command
    &&& match event {
        ExecEvent::Done => {
            &&& after.output@ == before.output@
            &&& match before.stage {
                ExecStage::Open => {
                    &&& after.stage == ExecStage::Run
                    &&& action is Run
                    &&& action->Run_0@ == before.command@ + "\n"@
                },
                ExecStage::Run => after.stage == ExecStage::SendEof && action is SendEof,
                _ => after.stage == ExecStage::Read && action is Read,
            }
        },
        ExecEvent::Read(stdout, stderr, eof) => {
            &&& after.output@ == OutputView {
                status: before.output@.status,
                stdout: before.output@.stdout + stdout@,
                stderr: before.output@.stderr + stderr@,
            }
            &&& if eof {
                after.stage == ExecStage::Close && action is Close
            } else {
                after.stage == ExecStage::Read && action is Read
            }
        },
        ExecEvent::Closed(code) => {
            &&& after.stage == ExecStage::Over
            &&& action is Return
            &&& action->Return_0 is Ok
            &&& action->Return_0->Ok_0@ == OutputView { status: code, ..before.output@ }
        },
        _ => {
            &&& after.stage == ExecStage::Over
            &&& action is Return
            &&& action->Return_0 is Err
            &&& action->Return_0->Err_0 is ExecutionFailed
            &&& action->Return_0->Err_0->ExecutionFailed_0@ == exec_failure(
                before.stage,
                before.command@,
                event,
            )
        },
    }
}

impl Exec {
    /// Whether the event can come of what was asked for.
    pub open spec fn accepts(&self, event: ExecEvent) -> bool {
        match self.stage {
            ExecStage::Open | ExecStage::Run | ExecStage::SendEof => event is Done
                || event is Failed,
            ExecStage::Read => event is Read || event is Failed || event is StderrFailed,
            ExecStage::Close => event is Closed || event is Failed,
            ExecStage::Over => false,
        }
    }

    /// An execution, of which a channel is to be opened first.
    pub fn start(command: String) -> (res: Exec)
        ensures
            res.command == command,
            res.stage == ExecStage::Open,
            res.output@ == (OutputView {
                status: UNKNOWN_STATUS,
                stdout: Seq::empty(),
                stderr: Seq::empty(),
            }),
    {
        Exec {
            command,
            stage: ExecStage::Open,
            output: Output {
                status: ExitStatus::from_raw(UNKNOWN_STATUS),
                stdout: Vec::new(),
                stderr: Vec::new(),
            },
        }
    }

    /// Takes what came of the last action into account, and says what has to be done next.
    pub fn step(&mut self, event: ExecEvent) -> (res: ExecAction)
        requires
            old(self).accepts(event),
        ensures
            exec_step(*old(self), event, *final(self), res),
    {
        match event {
            ExecEvent::Done => match self.stage {
                ExecStage::Open => {
                    self.stage = ExecStage::Run;
                    ExecAction::Run(cat(self.command.as_str(), "\n"))
                },
                ExecStage::Run => {
                    self.stage = ExecStage::SendEof;
                    ExecAction::SendEof
                },
                _ => {
                    self.stage = ExecStage::Read;
                    ExecAction::Read
                },
            },
            ExecEvent::Read(stdout, stderr, eof) => {
                let mut stdout = stdout;
                let mut stderr = stderr;
                self.output.stdout.append(&mut stdout);
                self.output.stderr.append(&mut stderr);
                if eof {
                    self.stage = ExecStage::Close;
                    ExecAction::Close
                } else {
                    ExecAction::Read
                }
            },
            ExecEvent::Closed(code) => {
                self.stage = ExecStage::Over;
                let mut output = self.output.clone();
                output.status = ExitStatus::from_raw(code);
                ExecAction::Return(Ok(output))
            },
            ExecEvent::StderrFailed(reason) => {
                self.stage = ExecStage::Over;
                let text = cat("Failed to read stderr: ", reason.as_str());
                ExecAction::Return(Err(Error::ExecutionFailed(text)))
            },
            ExecEvent::Failed(reason) => {
                let text = match self.stage {
                    ExecStage::Open => cat("Failed to open channel: ", reason.as_str()),
                    ExecStage::Run => cat4(
                        "Failed to exec command ",
                        self.command.as_str(),
                        ": ",
                        reason.as_str(),
                    ),
                    ExecStage::SendEof => cat("Failed to send EOF: ", reason.as_str()),
                    ExecStage::Read => cat("Failed to read stdout: ", reason.as_str()),
                    _ => cat("Failed to close channel: ", reason.as_str()),
                };
                self.stage = ExecStage::Over;
                ExecAction::Return(Err(Error::ExecutionFailed(text)))
            },
        }
    }
}

//------------------------------------------------------------------------------------------ LAWS
/// A channel is opened, the command is sent on a line of its own, the end of the input is sent, and
/// then the two streams are read.
pub proof fn command_is_sent_then_read(exec: &mut Exec, res: ExecAction)
    requires
        call_ensures(Exec::step, (exec, ExecEvent::Done), res),
    ensures
        old(exec).stage is Open ==> final(exec).stage is Run && res is Run && res->Run_0@
            == old(exec).command@.push('\n'),
        old(exec).stage is Run ==> final(exec).stage is SendEof && res is SendEof,
        old(exec).stage is SendEof ==> final(exec).stage is Read && res is Read,
        final(exec).command == old(exec).command,
        final(exec).output.stdout@ == old(exec).output.stdout@,
        final(exec).output.stderr@ == old(exec).output.stderr@,
{
    reveal_strlit("\n");
    assert(old(exec).command@ + "\n"@ =~= old(exec).command@.push('\n'));
    assert(final(exec).output@.stdout == old(exec).output@.stdout);
    assert(final(exec).output@.stderr == old(exec).output@.stderr);
}

/// What is read of a stream is put behind what was read of it before; the streams are read until they
/// are at their end.
pub proof fn streams_are_read_whole(
    exec: &mut Exec,
    stdout: Vec<u8>,
    stderr: Vec<u8>,
    eof: bool,
    res: ExecAction,
)
    requires
        call_ensures(Exec::step, (exec, ExecEvent::Read(stdout, stderr, eof)), res),
    ensures
        final(exec).output.stdout@ == old(exec).output.stdout@ + stdout@,
        final(exec).output.stderr@ == old(exec).output.stderr@ + stderr@,
        eof ==> res is Close && final(exec).stage is Close,
        !eof ==> res is Read && final(exec).stage is Read,
{
    assert(final(exec).output@.stdout == old(exec).output@.stdout + stdout@);
    assert(final(exec).output@.stderr == old(exec).output@.stderr + stderr@);
}

/// An execution returns what was read of its streams, with the exit code that the channel was closed
/// with, whatever the code is.
pub proof fn exit_code_is_returned(exec: &mut Exec, code: i32, res: ExecAction)
    requires
        call_ensures(Exec::step, (exec, ExecEvent::Closed(code)), res),
    ensures
        res is Return,
        res->Return_0 is Ok,
        res->Return_0->Ok_0.status.raw == code,
        res->Return_0->Ok_0.stdout@ == old(exec).output.stdout@,
        res->Return_0->Ok_0.stderr@ == old(exec).output.stderr@,
        final(exec).stage is Over,
{
    assert(res->Return_0->Ok_0@.status == code);
    assert(res->Return_0->Ok_0@.stdout == old(exec).output@.stdout);
    assert(res->Return_0->Ok_0@.stderr == old(exec).output@.stderr);
}

/// An execution that fails says at which step, and why.
pub proof fn failed_execution_is_told(exec: &mut Exec, event: ExecEvent, res: ExecAction)
    requires
        call_ensures(Exec::step, (exec, event), res),
        event is Failed || event is StderrFailed,
    ensures
        final(exec).stage is Over,
        res is Return && res->Return_0 is Err && res->Return_0->Err_0 is ExecutionFailed,
        ({
            let text = res->Return_0->Err_0->ExecutionFailed_0@;
            &&& event is StderrFailed ==> text == "Failed to read stderr: "@
                + event->StderrFailed_0@
            &&& event is Failed && old(exec).stage is Open ==> text == "Failed to open channel: "@
                + event->Failed_0@
            &&& event is Failed && old(exec).stage is Run ==> text == "Failed to exec command "@
                + old(exec).command@ + ": "@ + event->Failed_0@
            &&& event is Failed && old(exec).stage is SendEof ==> text == "Failed to send EOF: "@
                + event->Failed_0@
            &&& event is Failed && old(exec).stage is Read ==> text == "Failed to read stdout: "@
                + event->Failed_0@
            &&& event is Failed && old(exec).stage is Close ==> text
                == "Failed to close channel: "@ + event->Failed_0@
        }),
{
}

/// An execution starts with an empty output, whose status is not that of a command yet.
pub proof fn execution_starts_empty(command: String, res: Exec)
    requires
        call_ensures(Exec::start, (command,), res),
    ensures
        res.command == command,
        res.stage is Open,
        res.output.stdout@.len() == 0,
        res.output.stderr@.len() == 0,
        res.output.status.raw == 911,
{
    assert(res.output@.stdout.len() == 0);
    assert(res.output@.stderr.len() == 0);
}

} // verus!
