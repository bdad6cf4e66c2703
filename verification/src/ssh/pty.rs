//! Interactive commands on a remote host.
//!
//! The commands are run on a single pseudo-terminal stream, by an agent on the remote side that
//! relays standard output, standard error, exit codes and more. The agent formats its messages
//! according to the following protocol:
//!     + `RUNAWAY_STDOUT: {some stdout}\n` to transmit an stdout line
//!     + `RUNAWAY_STDERR: {some stderr}\n` to transmit an stderr line
//!     + `RUNAWAY_ECODE: {some exit code}\n` to transmit an error code
//!     + `RUNAWAY_CWD: {a directory path}\n` to transmit a current working directory path
//!     + `RUNAWAY_ENV: {environment variables}={environment value}\n` to transmit an environment
//!        variable
//!     + `RUNAWAY_EOF:\n` to express the end of the stream of messages.
use vstd::prelude::*;
#[allow(unused_imports)]
use vstd::string::*;
use vstd::utf8::*;
#[allow(unused_imports)]
use crate::commons::{
    EnvironmentStore, ExitStatus, Output, OutputView, TerminalContext, is_kept, output_views, pairs,
};
use crate::ssh::Error;
#[allow(unused_imports)]
use crate::text::{
    begins_with, cat3, cut_at, parse_i32, parsed_i32, remove_char, replace, replaced,
    signed_decimal_of, split_once,
    starts_with, strip_prefix, texts, without_char, without_prefix,
};

verus! {

//------------------------------------------------------------------------------------- PTY AGENT
/// Bash pty agent, injected in the pty before executing the commands.
pub const BASH_PTY_AGENT: &'static str = "
rw_init() {
    # We remove the prompt banner
    export PS1=
    # We disable stdin echo
    stty -echo
    # We generate two fifo that will be used to format stdout messages and stderr messages
    export stdout_fifo=/tmp/$(uuidgen)
    export stderr_fifo=/tmp/$(uuidgen)
    mkfifo $stdout_fifo
    mkfifo $stderr_fifo
}


# Function used to execute a command. 
rw_run() {

    # Since stdout and stderr are handled in separate threads, we have to ensure that stdout and 
    # stderr were completely read before moving to the next command. We do so by using file locks, 
    # which are unix locks using file descriptors.

    # We create the files
    way_in_lock=/tmp/$(uuidgen)
    way_out_lock=/tmp/$(uuidgen)

    # We create the file descriptors
    exec 201>$way_in_lock
    exec 202>$way_out_lock

    # We lock the way_in_lock in exclusive mode. This will prevent the stdout and stderr handlers to 
    # break before the command completed.
    flock -x 201

    # We start a subcommand that handles the stdout messages on the stdout_fifo.
    echo Starting stdout handler
    # First we lock the way_out_lock in shared mode to prevent the command from returning before all 
    # messages were handled.
    (
    flock -s 202;
    while true; do
        # We format the line
        if read line ; then
            echo RUNAWAY_STDOUT: $line;
        # We try to acquire a shared lock on the way_in_lock. This can only happen when the exclusive
        # lock hold by the command will be released, after the command was executed.
        elif flock -ns 201; then
            # We release our lock on the way_out_lock.
            flock -u 202;
            break;
        fi;
    done<$stdout_fifo;
    )&
    stdout_pid=$!

    # We start the same subcommand for the stderr.
    echo Starting stderr handler
    (
    flock -s 202;
    while true; do
        if read line ; then
            echo RUNAWAY_STDERR: $line;
        elif flock -ns 201; then
            flock -u 202;
            break;
        fi;
    done<$stderr_fifo;
    )&
    stderr_pid=$!

    # Now we are ready to evaluate the command. The stdout and stderr are forwarded to the right 
    # fifos for further handling under the adequqte subprocesses.

    { eval $1 ; } 1>$stdout_fifo 2>$stderr_fifo
    # We retrieve the exit code
    RUNAWAY_ECODE=$?

    # We release the exclusive lock on the way_in_lock. This has the effect to break the loops in 
    # the stdout and stderr handlers.
    flock -u 201

    # We wait to acquire an exclusive lock on the way_out_lock. This can only occur after the two 
    # handlers broke and released their shared lock.
    flock -x 202

    # We remove the locks 
    rm $way_in_lock
    rm $way_out_lock

    # We echo the exit code.
    echo RUNAWAY_ECODE: $RUNAWAY_ECODE

}

# Function to teardown the agent.
rw_close(){

    # We output the current working directory
    echo RUNAWAY_CWD: $(pwd)

    # We echo the environment variables
    env | sed 's/^/RUNAWAY_ENV: /g'

    # We cleanup
    rm $stdout_fifo
    rm $stderr_fifo

    # We leave
    echo RUNAWAY_EOF:

}
";

/// What is written to make sure that the agent runs on bash.
pub const PTY_BASH: &'static str = "export HISTFILE=/dev/null\nbash\n";

/// What is written to initialize the agent.
pub const PTY_INIT: &'static str = "rw_init\n";

/// What is written once there is no command left.
pub const PTY_CLOSE: &'static str = "rw_close \n";

/// What is written to leave bash and the landing shell.
pub const PTY_EXIT: &'static str = "history -c \nexit\n history -c \nexit\n";

/// The lines that set the variables of an environment.
pub open spec fn export_lines(entries: Seq<(Seq<char>, Seq<char>)>) -> Seq<char>
    decreases entries.len(),
{
    if entries.len() == 0 {
        Seq::empty()
    } else {
        export_lines(entries.drop_last()) + "export "@ + entries.last().0 + "=\""@
            + entries.last().1 + "\"\n"@
    }
}

/// What is written to set up the context of the commands: the working directory, and one line for
/// each variable.
pub fn setup_text(context: &TerminalContext) -> (res: String)
    ensures
        res@ == "cd "@ + context.cwd@ + "\n"@ + export_lines(pairs(context.envs.entries@)),
{
    let mut res = cat3("cd ", context.cwd.as_str(), "\n");
    let ghost head = res@;
    let ghost all = pairs(context.envs.entries@);
    let entries = &context.envs.entries;
    let mut i: usize = 0;
    assert(res@ =~= head + export_lines(all.take(0)));
    while i < entries.len()
        invariant
            i <= entries.len(),
            all == pairs(entries@),
            res@ == head + export_lines(all.take(i as int)),
        decreases entries.len() - i,
    {
        res.append("export ");
        res.append(entries[i].0.as_str());
        res.append("=\"");
        res.append(entries[i].1.as_str());
        res.append("\"\n");
        assert(all.take(i + 1).drop_last() =~= all.take(i as int));
        assert(res@ =~= head + export_lines(all.take(i + 1)));
        i = i + 1;
    }
    assert(all.take(i as int) =~= all);
    res
}

/// What is written to run a command.
pub open spec fn run_text(command: Seq<char>) -> Seq<char> {
    "rw_run \""@ + command + "\"\n"@
}

//-------------------------------------------------------------------------------------- MESSAGES
/// What a line of the agent says.
pub ghost enum Message {
    /// The exit code of the running command; none where it cannot be read.
    Code(Option<i32>),
    /// A line of standard output.
    Stdout(Seq<char>),
    /// A line of standard error.
    Stderr(Seq<char>),
    /// The working directory.
    Cwd(Seq<char>),
    /// A variable of the environment and its value.
    Env(Seq<char>, Seq<char>),
    /// The end of the messages.
    Eof,
    /// Nothing that concerns us.
    Other,
}

/// What a line says once its end is a mere line feed.
pub open spec fn message_of_line(line: Seq<char>) -> Message {
    if begins_with(line, "RUNAWAY_ECODE: "@) {
        Message::Code(
            parsed_i32(without_char(without_prefix(line, "RUNAWAY_ECODE: "@), '\n')),
        )
    } else if begins_with(line, "RUNAWAY_STDOUT: "@) {
        Message::Stdout(without_prefix(line, "RUNAWAY_STDOUT: "@))
    } else if begins_with(line, "RUNAWAY_STDERR: "@) {
        Message::Stderr(without_prefix(line, "RUNAWAY_STDERR: "@))
    } else if begins_with(line, "RUNAWAY_CWD:"@) {
        Message::Cwd(without_char(without_prefix(line, "RUNAWAY_CWD: "@), '\n'))
    } else if begins_with(line, "RUNAWAY_ENV:"@) {
        let parts = cut_at(without_char(without_prefix(line, "RUNAWAY_ENV: "@), '\n'), '=');
        Message::Env(parts.0, parts.1)
    } else if begins_with(line, "RUNAWAY_EOF:"@) {
        Message::Eof
    } else {
        Message::Other
    }
}

/// What a line of the agent says.
pub open spec fn message_of(line: Seq<char>) -> Message {
    message_of_line(replaced(line, "\r\n"@, "\n"@))
}

/// A message that was read.
pub enum PtyMessage {
    Code(Option<i32>),
    Stdout(String),
    Stderr(String),
    Cwd(String),
    Env(String, String),
    Eof,
    Other,
}

impl View for PtyMessage {
    type V = Message;

    open spec fn view(&self) -> Message {
        match self {
            PtyMessage::Code(code) => Message::Code(*code),
            PtyMessage::Stdout(text) => Message::Stdout(text@),
            PtyMessage::Stderr(text) => Message::Stderr(text@),
            PtyMessage::Cwd(path) => Message::Cwd(path@),
            PtyMessage::Env(key, value) => Message::Env(key@, value@),
            PtyMessage::Eof => Message::Eof,
            PtyMessage::Other => Message::Other,
        }
    }
}

/// Reads a line of the agent.
pub fn read_message(line: &str) -> (res: PtyMessage)
    ensures
        res@ == message_of(line@),
{
    let line = replace(line, "\r\n", "\n");
    let line = line.as_str();
    if starts_with(line, "RUNAWAY_ECODE: ") {
        let code = remove_char(strip_prefix(line, "RUNAWAY_ECODE: ").as_str(), '\n');
        PtyMessage::Code(parse_i32(code.as_str()))
    } else if starts_with(line, "RUNAWAY_STDOUT: ") {
        PtyMessage::Stdout(strip_prefix(line, "RUNAWAY_STDOUT: "))
    } else if starts_with(line, "RUNAWAY_STDERR: ") {
        PtyMessage::Stderr(strip_prefix(line, "RUNAWAY_STDERR: "))
    } else if starts_with(line, "RUNAWAY_CWD:") {
        PtyMessage::Cwd(remove_char(strip_prefix(line, "RUNAWAY_CWD: ").as_str(), '\n'))
    } else if starts_with(line, "RUNAWAY_ENV:") {
        let env = remove_char(strip_prefix(line, "RUNAWAY_ENV: ").as_str(), '\n');
        let parts = split_once(env.as_str(), '=');
        PtyMessage::Env(parts.0, parts.1)
    } else if starts_with(line, "RUNAWAY_EOF:") {
        PtyMessage::Eof
    } else {
        PtyMessage::Other
    }
}

//--------------------------------------------------------------------------------------- SESSION
/// What has to be done next in a session.
pub ghost enum Action {
    /// Read the next line.
    Read,
    /// Write the command that comes next, and read the next line.
    Run(Seq<char>),
    /// Write that no command is left, and read the next line.
    Close,
    /// Hand over the bytes of a line of standard output, and read the next line.
    Stdout(Seq<u8>),
    /// Hand over the bytes of a line of standard error, and read the next line.
    Stderr(Seq<u8>),
    /// Nothing: all messages were received.
    Finished,
}

pub enum PtyAction {
    Read,
    Run(String),
    Close,
    Stdout(Vec<u8>),
    Stderr(Vec<u8>),
    Finished,
}

impl View for PtyAction {
    type V = Action;

    open spec fn view(&self) -> Action {
        match self {
            PtyAction::Read => Action::Read,
            PtyAction::Run(command) => Action::Run(command@),
            PtyAction::Close => Action::Close,
            PtyAction::Stdout(bytes) => Action::Stdout(bytes@),
            PtyAction::Stderr(bytes) => Action::Stderr(bytes@),
            PtyAction::Finished => Action::Finished,
        }
    }
}

impl PtyAction {
    /// What has to be written for the action, if anything has to be.
    pub fn written(&self) -> (res: Option<String>)
        ensures
            match self@ {
                Action::Run(command) => res is Some && res->Some_0@ == run_text(command),
                Action::Close => res is Some && res->Some_0@ == PTY_CLOSE@,
                _ => res is None,
            },
    {
        match self {
            PtyAction::Run(command) => Some(cat3("rw_run \"", command.as_str(), "\"\n")),
            PtyAction::Close => Some(PTY_CLOSE.to_owned()),
            _ => None,
        }
    }
}

/// A session: the commands that were not started yet, and what was received so far.
pub struct Pty {
    commands: Vec<String>,
    outputs: Vec<Output>,
    cwd: String,
    envs: EnvironmentStore,
    finished: bool,
}

/// What a session holds.
pub ghost struct PtyView {
    /// The commands that were not started yet.
    pub waiting: Seq<Seq<char>>,
    /// The outputs of the commands that were started. The last one may still run.
    pub outputs: Seq<OutputView>,
    pub cwd: Seq<char>,
    pub envs: Map<Seq<char>, Seq<char>>,
    /// Whether all messages were received.
    pub finished: bool,
}

/// The output of a command that just started.
pub open spec fn no_output() -> OutputView {
    OutputView { status: 0, stdout: Seq::empty(), stderr: Seq::empty() }
}

impl PtyView {
    /// A session with the first command started.
    pub open spec fn started(commands: Seq<Seq<char>>) -> PtyView {
        PtyView {
            waiting: commands.skip(1),
            outputs: seq![no_output()],
            cwd: "/"@,
            envs: Map::empty(),
            finished: false,
        }
    }

    /// The session with another output of the command that was started last.
    pub open spec fn with_last(self, output: OutputView) -> PtyView {
        PtyView { outputs: self.outputs.drop_last().push(output), ..self }
    }

    /// The session after a message.
    pub open spec fn after(self, message: Message) -> PtyView {
        let last = self.outputs.last();
        match message {
            Message::Code(Some(code)) => {
                let coded = self.with_last(OutputView { status: code, ..last });
                if code != 0 {
                    // A command that fails stops the session: those that wait are never started.
                    PtyView { waiting: Seq::empty(), ..coded }
                } else if self.waiting.len() == 0 {
                    coded
                } else {
                    PtyView {
                        waiting: self.waiting.skip(1),
                        outputs: coded.outputs.push(no_output()),
                        ..coded
                    }
                }
            },
            Message::Stdout(text) => self.with_last(
                OutputView { stdout: last.stdout + encode_utf8(text), ..last },
            ),
            Message::Stderr(text) => self.with_last(
                OutputView { stderr: last.stderr + encode_utf8(text), ..last },
            ),
            Message::Cwd(path) => PtyView { cwd: path, ..self },
            Message::Env(key, value) => PtyView { envs: self.envs.insert(key, value), ..self },
            Message::Eof => PtyView { finished: true, ..self },
            _ => self,
        }
    }

    /// What has to be done after a message.
    pub open spec fn action(self, message: Message) -> Action {
        match message {
            Message::Code(Some(code)) => {
                if code != 0 || self.waiting.len() == 0 {
                    Action::Close
                } else {
                    Action::Run(self.waiting[0])
                }
            },
            Message::Stdout(text) => Action::Stdout(encode_utf8(text)),
            Message::Stderr(text) => Action::Stderr(encode_utf8(text)),
            Message::Eof => Action::Finished,
            _ => Action::Read,
        }
    }

    /// The session after the messages, one after the other.
    pub open spec fn after_all(self, messages: Seq<Message>) -> PtyView
        decreases messages.len(),
    {
        if messages.len() == 0 {
            self
        } else {
            self.after_all(messages.drop_last()).after(messages.last())
        }
    }
}

impl View for Pty {
    type V = PtyView;

    closed spec fn view(&self) -> PtyView {
        PtyView {
            waiting: texts(self.commands@),
            outputs: output_views(self.outputs@),
            cwd: self.cwd@,
            envs: self.envs@,
            finished: self.finished,
        }
    }
}

impl Pty {
    /// A command was started, and no variable was received twice.
    pub closed spec fn wf(&self) -> bool {
        self.outputs.len() > 0 && self.envs.wf()
    }

    /// Starts a session, which takes at least one command.
    pub fn start(commands: Vec<String>) -> (res: Result<(Pty, PtyAction), Error>)
        ensures
            match res {
                Ok((pty, action)) => {
                    &&& commands.len() > 0
                    &&& pty.wf()
                    &&& pty@ == PtyView::started(texts(commands@))
                    &&& action@ == Action::Run(commands@[0]@)
                },
                Err(e) => {
                    &&& commands.len() == 0
                    &&& e is ExecutionFailed
                    &&& e->ExecutionFailed_0@ == "No command was provided."@
                },
            },
    {
        let mut commands = commands;
        if commands.len() == 0 {
            return Err(Error::ExecutionFailed("No command was provided.".to_owned()));
        }
        let ghost all = texts(commands@);
        let first = commands.remove(0);
        assert(texts(commands@) =~= all.skip(1));
        let mut outputs: Vec<Output> = Vec::new();
        let output = Output {
            status: ExitStatus::from_raw(0),
            stdout: Vec::new(),
            stderr: Vec::new(),
        };
        assert(output@ == no_output());
        outputs.push(output);
        assert(output_views(outputs@) =~= seq![no_output()]);
        let pty = Pty {
            commands,
            outputs,
            cwd: "/".to_owned(),
            envs: EnvironmentStore::new(),
            finished: false,
        };
        Ok((pty, PtyAction::Run(first)))
    }

    /// Takes the message of a line into account. A code that cannot be read has no meaning in the
    /// protocol.
    pub fn receive(&mut self, message: PtyMessage) -> (res: PtyAction)
        requires
            old(self).wf(),
            message@ != Message::Code(None),
        ensures
            final(self).wf(),
            final(self)@ == old(self)@.after(message@),
            res@ == old(self)@.action(message@),
    {
        let ghost before = self@;
        match message {
            PtyMessage::Code(Some(code)) => {
                self.set_status(code);
                if code != 0 {
                    self.commands.clear();
                    assert(texts(self.commands@) =~= Seq::<Seq<char>>::empty());
                }
                if self.commands.len() == 0 {
                    assert(texts(self.commands@) =~= self@.waiting);
                    assert(before.waiting.len() == 0 ==> before.waiting =~= Seq::<Seq<char>>::empty());
                    assert(self@ == before.after(message@));
                    PtyAction::Close
                } else {
                    let ghost coded = self@;
                    let next = self.commands.remove(0);
                    assert(texts(self.commands@) =~= before.waiting.skip(1));
                    let output = Output {
                        status: ExitStatus::from_raw(0),
                        stdout: Vec::new(),
                        stderr: Vec::new(),
                    };
                    assert(output@ == no_output());
                    self.outputs.push(output);
                    assert(output_views(self.outputs@) =~= coded.outputs.push(no_output()));
                    PtyAction::Run(next)
                }
            },
            PtyMessage::Code(None) => PtyAction::Read,
            PtyMessage::Stdout(text) => {
                let bytes = text.as_str().as_bytes_vec();
                self.append(&bytes, true);
                PtyAction::Stdout(bytes)
            },
            PtyMessage::Stderr(text) => {
                let bytes = text.as_str().as_bytes_vec();
                self.append(&bytes, false);
                PtyAction::Stderr(bytes)
            },
            PtyMessage::Cwd(path) => {
                self.cwd = path;
                PtyAction::Read
            },
            PtyMessage::Env(key, value) => {
                self.envs.insert(key, value);
                PtyAction::Read
            },
            PtyMessage::Eof => {
                self.finished = true;
                PtyAction::Finished
            },
            PtyMessage::Other => PtyAction::Read,
        }
    }

    /// Sets the status of the command that was started last.
    fn set_status(&mut self, code: i32)
        requires
            old(self).wf(),
        ensures
            final(self).wf(),
            final(self)@ == old(self)@.with_last(
                (OutputView { status: code, ..old(self)@.outputs.last() }),
            ),
            final(self).commands@ == old(self).commands@,
    {
        let ghost outs = self.outputs@;
        match self.outputs.pop() {
            Some(mut output) => {
                output.status = ExitStatus::from_raw(code);
                self.outputs.push(output);
            },
            None => {},
        }
        assert(output_views(outs).last() == outs.last()@);
        assert(output_views(self.outputs@) =~= output_views(outs).drop_last().push(
            OutputView { status: code, ..outs.last()@ },
        ));
    }

    /// Appends bytes to a stream of the command that was started last.
    fn append(&mut self, bytes: &Vec<u8>, to_stdout: bool)
        requires
            old(self).wf(),
        ensures
            final(self).wf(),
            ({
                let last = old(self)@.outputs.last();
                final(self)@ == old(self)@.with_last(
                    if to_stdout {
                        OutputView { stdout: last.stdout + bytes@, ..last }
                    } else {
                        OutputView { stderr: last.stderr + bytes@, ..last }
                    },
                )
            }),
    {
        let ghost outs = self.outputs@;
        let mut added = bytes.clone();
        assert(added@ =~= bytes@);
        match self.outputs.pop() {
            Some(mut output) => {
                if to_stdout {
                    output.stdout.append(&mut added);
                } else {
                    output.stderr.append(&mut added);
                }
                self.outputs.push(output);
            },
            None => {},
        }
        assert(output_views(outs).last() == outs.last()@);
        assert(output_views(self.outputs@) =~= output_views(outs).drop_last().push(
            self.outputs@.last()@,
        ));
    }

    /// Whether all messages were received.
    pub fn is_finished(&self) -> (res: bool)
        ensures
            res == self@.finished,
    {
        self.finished
    }

    /// The context that the commands left, and their outputs. Of the environment, the variables
    /// of runaway and those of the context that was given are kept.
    pub fn finish(&self, given: &TerminalContext) -> (res: (TerminalContext, Vec<Output>))
        requires
            self.wf(),
            given.wf(),
        ensures
            res.0.wf(),
            res.0.cwd@ == self@.cwd,
            res.0.envs@ == self@.envs.restrict(
                Set::new(|key: Seq<char>| is_kept(key, given.envs@)),
            ),
            output_views(res.1@) == self@.outputs,
    {
        let envs = self.envs.retain_runaway(&given.envs);
        let outputs = self.outputs.clone();
        assert(output_views(outputs@) =~= output_views(self.outputs@));
        (TerminalContext { cwd: self.cwd.clone(), envs }, outputs)
    }
}

//------------------------------------------------------------------------------------------ LAWS
/// What the agent sends is what is received: a line of output, with its line feed.
pub proof fn output_lines_come_through(text: Seq<char>)
    ensures
        message_of_line("RUNAWAY_STDOUT: "@ + text) == Message::Stdout(text),
        message_of_line("RUNAWAY_STDERR: "@ + text) == Message::Stderr(text),
{
    reveal_strlit("RUNAWAY_ECODE: ");
    reveal_strlit("RUNAWAY_STDOUT: ");
    reveal_strlit("RUNAWAY_STDERR: ");
    let out = "RUNAWAY_STDOUT: "@ + text;
    let err = "RUNAWAY_STDERR: "@ + text;
    assert(out.subrange(0, "RUNAWAY_STDOUT: "@.len() as int) =~= "RUNAWAY_STDOUT: "@);
    assert(err.subrange(0, "RUNAWAY_STDERR: "@.len() as int) =~= "RUNAWAY_STDERR: "@);
    assert(out.skip("RUNAWAY_STDOUT: "@.len() as int) =~= text);
    assert(err.skip("RUNAWAY_STDERR: "@.len() as int) =~= text);
    assert(out[8] == 'S' && err[8] == 'S');
    assert(err[11] == 'E');
    assert(!begins_with(out, "RUNAWAY_ECODE: "@)) by {
        if begins_with(out, "RUNAWAY_ECODE: "@) {
            assert(out.subrange(0, "RUNAWAY_ECODE: "@.len() as int)[8] == 'E');
        }
    }
    assert(!begins_with(err, "RUNAWAY_ECODE: "@)) by {
        if begins_with(err, "RUNAWAY_ECODE: "@) {
            assert(err.subrange(0, "RUNAWAY_ECODE: "@.len() as int)[8] == 'E');
        }
    }
    assert(!begins_with(err, "RUNAWAY_STDOUT: "@)) by {
        if begins_with(err, "RUNAWAY_STDOUT: "@) {
            assert(err.subrange(0, "RUNAWAY_STDOUT: "@.len() as int)[11] == 'O');
        }
    }
}

/// What the bytes of the standard output messages are, one after the other.
pub open spec fn stdout_bytes(messages: Seq<Message>) -> Seq<u8>
    decreases messages.len(),
{
    if messages.len() == 0 {
        Seq::empty()
    } else {
        match messages.last() {
            Message::Stdout(text) => stdout_bytes(messages.drop_last()) + encode_utf8(text),
            _ => stdout_bytes(messages.drop_last()),
        }
    }
}

/// What the bytes of the standard error messages are, one after the other.
pub open spec fn stderr_bytes(messages: Seq<Message>) -> Seq<u8>
    decreases messages.len(),
{
    if messages.len() == 0 {
        Seq::empty()
    } else {
        match messages.last() {
            Message::Stderr(text) => stderr_bytes(messages.drop_last()) + encode_utf8(text),
            _ => stderr_bytes(messages.drop_last()),
        }
    }
}

/// Whether none of the messages is an exit code or the end.
pub open spec fn is_command_output(messages: Seq<Message>) -> bool {
    forall|i: int|
        0 <= i < messages.len() ==> !((#[trigger] messages[i]) is Code) && !(messages[i] is Eof)
}

/// What a command writes goes to its own output and to no other, in the order in which it comes,
/// and no command is started meanwhile.
pub proof fn messages_go_to_running_command(session: PtyView, messages: Seq<Message>)
    requires
        session.outputs.len() > 0,
        is_command_output(messages),
    ensures
        ({
            let after = session.after_all(messages);
            let last = session.outputs.last();
            &&& after.waiting == session.waiting
            &&& after.finished == session.finished
            &&& after.outputs == session.outputs.drop_last().push(
                OutputView {
                    status: last.status,
                    stdout: last.stdout + stdout_bytes(messages),
                    stderr: last.stderr + stderr_bytes(messages),
                },
            )
        }),
    decreases messages.len(),
{
    let last = session.outputs.last();
    if messages.len() == 0 {
        assert(last.stdout + Seq::<u8>::empty() =~= last.stdout);
        assert(last.stderr + Seq::<u8>::empty() =~= last.stderr);
        assert(session.outputs.drop_last().push(last) =~= session.outputs);
    } else {
        let init = messages.drop_last();
        assert forall|i: int| 0 <= i < init.len() implies !((#[trigger] init[i]) is Code) && !(
        init[i] is Eof) by {
            assert(init[i] == messages[i]);
        }
        messages_go_to_running_command(session, init);
        let before = session.after_all(init);
        let after = session.after_all(messages);
        assert(messages[messages.len() - 1] == messages.last());
        assert(before.outputs.last().stdout == last.stdout + stdout_bytes(init));
        assert(before.outputs.drop_last() =~= session.outputs.drop_last());
        assert((last.stdout + stdout_bytes(init)) + (stdout_bytes(messages).skip(
            stdout_bytes(init).len() as int,
        )) =~= last.stdout + stdout_bytes(messages));
        match messages.last() {
            Message::Stdout(text) => {
                assert(last.stdout + stdout_bytes(messages) =~= before.outputs.last().stdout
                    + encode_utf8(text));
            },
            Message::Stderr(text) => {
                assert(last.stderr + stderr_bytes(messages) =~= before.outputs.last().stderr
                    + encode_utf8(text));
            },
            _ => {},
        }
        assert(after.outputs =~= session.outputs.drop_last().push(
            OutputView {
                status: last.status,
                stdout: last.stdout + stdout_bytes(messages),
                stderr: last.stderr + stderr_bytes(messages),
            },
        ));
    }
}

/// What a session has received once every command succeeded, each having written what
/// `transcripts` holds for it.
pub open spec fn transcript_outputs(transcripts: Seq<Seq<Message>>) -> Seq<OutputView> {
    Seq::new(
        transcripts.len(),
        |i: int|
            OutputView {
                status: 0,
                stdout: stdout_bytes(transcripts[i]),
                stderr: stderr_bytes(transcripts[i]),
            },
    )
}

/// The messages of commands that succeed one after the other.
pub open spec fn successful_run(transcripts: Seq<Seq<Message>>) -> Seq<Message>
    decreases transcripts.len(),
{
    if transcripts.len() == 0 {
        Seq::empty()
    } else {
        successful_run(transcripts.drop_last()) + transcripts.last() + seq![
            Message::Code(Some(0i32)),
        ]
    }
}

proof fn after_all_in_two(session: PtyView, first: Seq<Message>, second: Seq<Message>)
    ensures
        session.after_all(first + second) == session.after_all(first).after_all(second),
    decreases second.len(),
{
    let whole = first + second;
    if second.len() == 0 {
        assert(whole =~= first);
    } else {
        after_all_in_two(session, first, second.drop_last());
        assert(whole.drop_last() =~= first + second.drop_last());
        assert(whole.last() == second.last());
    }
}

/// The outputs come in the order of the commands: where the first commands succeed, the output of
/// each of them holds what it wrote, and the next command has just been started.
pub proof fn outputs_come_in_order(commands: Seq<Seq<char>>, transcripts: Seq<Seq<Message>>)
    requires
        0 < commands.len(),
        transcripts.len() < commands.len(),
        forall|i: int|
            0 <= i < transcripts.len() ==> is_command_output(#[trigger] transcripts[i]),
    ensures
        ({
            let after = PtyView::started(commands).after_all(successful_run(transcripts));
            &&& after.outputs == transcript_outputs(transcripts).push(no_output())
            &&& after.waiting == commands.skip(transcripts.len() as int + 1)
            &&& !after.finished
        }),
    decreases transcripts.len(),
{
    let start = PtyView::started(commands);
    let after = start.after_all(successful_run(transcripts));
    if transcripts.len() == 0 {
        assert(after.outputs =~= transcript_outputs(transcripts).push(no_output()));
    } else {
        let init = transcripts.drop_last();
        let wrote = transcripts.last();
        let code = seq![Message::Code(Some(0i32))];
        assert forall|i: int| 0 <= i < init.len() implies is_command_output(#[trigger] init[i]) by {
            assert(init[i] == transcripts[i]);
        }
        assert(is_command_output(transcripts[transcripts.len() - 1]));
        outputs_come_in_order(commands, init);
        let before = start.after_all(successful_run(init));
        let running = before.after_all(wrote);
        after_all_in_two(start, successful_run(init), wrote);
        after_all_in_two(start, successful_run(init) + wrote, code);
        messages_go_to_running_command(before, wrote);
        assert(code.drop_last() =~= Seq::<Message>::empty());
        assert(running.after_all(code.drop_last()) == running);
        assert(running.after_all(code) == running.after(Message::Code(Some(0i32))));
        let done = OutputView {
            status: 0,
            stdout: stdout_bytes(wrote),
            stderr: stderr_bytes(wrote),
        };
        assert(Seq::<u8>::empty() + stdout_bytes(wrote) =~= stdout_bytes(wrote));
        assert(Seq::<u8>::empty() + stderr_bytes(wrote) =~= stderr_bytes(wrote));
        assert(running.outputs =~= transcript_outputs(init).push(done));
        assert(running.outputs.drop_last().push(done) =~= transcript_outputs(transcripts));
        assert(after.outputs =~= transcript_outputs(transcripts).push(no_output()));
        assert(running.waiting.skip(1) =~= commands.skip(transcripts.len() as int + 1));
    }
}

/// A command that fails is the last one: whatever comes after its code, no further command is
/// started.
pub proof fn failure_stops_the_session(session: PtyView, code: i32, messages: Seq<Message>)
    requires
        session.outputs.len() > 0,
        code != 0,
    ensures
        session.action(Message::Code(Some(code))) == Action::Close,
        session.after(Message::Code(Some(code))).after_all(messages).waiting.len() == 0,
        session.after(Message::Code(Some(code))).after_all(messages).outputs.len()
            == session.outputs.len(),
    decreases messages.len(),
{
    if messages.len() > 0 {
        failure_stops_the_session(session, code, messages.drop_last());
    }
}

/// However the session goes, there are never more outputs than commands.
pub proof fn no_more_outputs_than_commands(commands: Seq<Seq<char>>, messages: Seq<Message>)
    requires
        0 < commands.len(),
    ensures
        ({
            let after = PtyView::started(commands).after_all(messages);
            0 < after.outputs.len() && after.outputs.len() + after.waiting.len() <= commands.len()
        }),
    decreases messages.len(),
{
    if messages.len() > 0 {
        no_more_outputs_than_commands(commands, messages.drop_last());
    }
}

/// A variable that was given, and that the commands set anew, comes back with its new value.
pub proof fn given_variable_comes_back(
    session: PtyView,
    given: Map<Seq<char>, Seq<char>>,
    key: Seq<char>,
    value: Seq<char>,
)
    requires
        given.contains_key(key),
    ensures
        session.after(Message::Env(key, value)).envs.restrict(
            Set::new(|k: Seq<char>| is_kept(k, given)),
        ).contains_pair(key, value),
{
}

/// The exit code of a command is its status, whatever the code is, and what it wrote is kept: so are
/// the outputs of the commands before it. A command that succeeds is followed by the next one; one
/// that fails, or is the last, by the end.
pub proof fn exit_code_is_the_status(pty: &mut Pty, code: i32, res: PtyAction)
    requires
        call_ensures(Pty::receive, (pty, PtyMessage::Code(Some(code))), res),
        old(pty)@.outputs.len() > 0,
    ensures
        ({
            let n = old(pty)@.outputs.len() as int;
            let done = final(pty)@.outputs[n - 1];
            &&& done.status == code
            &&& done.stdout == old(pty)@.outputs[n - 1].stdout
            &&& done.stderr == old(pty)@.outputs[n - 1].stderr
            &&& final(pty)@.outputs.take(n - 1) == old(pty)@.outputs.take(n - 1)
            &&& final(pty)@.cwd == old(pty)@.cwd
            &&& final(pty)@.envs == old(pty)@.envs
            &&& code != 0 || old(pty)@.waiting.len() == 0 ==> {
                &&& final(pty)@.outputs.len() == n
                &&& final(pty)@.waiting.len() == 0
                &&& res is Close
            }
            &&& code == 0 && old(pty)@.waiting.len() > 0 ==> {
                &&& final(pty)@.outputs.len() == n + 1
                &&& final(pty)@.outputs[n].stdout.len() == 0
                &&& final(pty)@.outputs[n].stderr.len() == 0
                &&& final(pty)@.waiting == old(pty)@.waiting.skip(1)
                &&& res is Run
                &&& res->Run_0@ == old(pty)@.waiting[0]
            }
        }),
{
    let n = old(pty)@.outputs.len() as int;
    assert(final(pty)@.outputs.take(n - 1) =~= old(pty)@.outputs.take(n - 1));
}

/// A line of an output stream is put behind what its stream holds already, and handed over; nothing
/// else changes.
pub proof fn lines_are_put_behind(
    pty: &mut Pty,
    other: &mut Pty,
    line: String,
    res: PtyAction,
    res_other: PtyAction,
)
    requires
        call_ensures(Pty::receive, (pty, PtyMessage::Stdout(line)), res),
        call_ensures(Pty::receive, (other, PtyMessage::Stderr(line)), res_other),
        old(pty)@.outputs.len() > 0,
        old(other)@ == old(pty)@,
    ensures
        ({
            let n = old(pty)@.outputs.len() as int;
            let before = old(pty)@.outputs[n - 1];
            let out = final(pty)@.outputs[n - 1];
            let err = final(other)@.outputs[n - 1];
            &&& final(pty)@.outputs.len() == n && final(other)@.outputs.len() == n
            &&& out.stdout == before.stdout + encode_utf8(line@) && out.stderr == before.stderr
            &&& err.stderr == before.stderr + encode_utf8(line@) && err.stdout == before.stdout
            &&& out.status == before.status && err.status == before.status
            &&& final(pty)@.outputs.take(n - 1) == old(pty)@.outputs.take(n - 1)
            &&& final(other)@.outputs.take(n - 1) == old(pty)@.outputs.take(n - 1)
            &&& final(pty)@.waiting == old(pty)@.waiting
            &&& final(other)@.waiting == old(pty)@.waiting
            &&& res is Stdout && res->Stdout_0@ == encode_utf8(line@)
            &&& res_other is Stderr && res_other->Stderr_0@ == encode_utf8(line@)
        }),
{
    let n = old(pty)@.outputs.len() as int;
    assert(final(pty)@.outputs.take(n - 1) =~= old(pty)@.outputs.take(n - 1));
    assert(final(other)@.outputs.take(n - 1) =~= old(pty)@.outputs.take(n - 1));
}

/// The working directory and the variables are those that were received last, and the session is
/// finished once its end was received, and not by anything else.
pub proof fn context_is_received(
    moved: &mut Pty,
    set: &mut Pty,
    ended: &mut Pty,
    path: String,
    key: String,
    value: String,
    other: Seq<char>,
    res: PtyAction,
)
    requires
        call_ensures(Pty::receive, (moved, PtyMessage::Cwd(path)), res),
        call_ensures(Pty::receive, (set, PtyMessage::Env(key, value)), res),
        call_ensures(Pty::receive, (ended, PtyMessage::Eof), PtyAction::Finished),
    ensures
        final(moved)@.cwd == path@,
        final(moved)@.envs == old(moved)@.envs && final(moved)@.outputs == old(moved)@.outputs,
        final(moved)@.finished == old(moved)@.finished,
        final(set)@.envs.contains_key(key@) && final(set)@.envs[key@] == value@,
        other != key@ ==> (final(set)@.envs.contains_key(other) <==> old(set)@.envs.contains_key(
            other,
        )) && final(set)@.envs[other] == old(set)@.envs[other],
        final(set)@.cwd == old(set)@.cwd && final(set)@.outputs == old(set)@.outputs,
        final(set)@.finished == old(set)@.finished,
        final(ended)@.finished,
        final(ended)@.outputs == old(ended)@.outputs,
        final(ended)@.cwd == old(ended)@.cwd && final(ended)@.envs == old(ended)@.envs,
        res is Read,
{
}

/// A session starts with its first command, and the others wait in their order.
pub proof fn first_command_is_run(commands: Vec<String>, res: Result<(Pty, PtyAction), Error>)
    requires
        call_ensures(Pty::start, (commands,), res),
    ensures
        res is Ok <==> commands.len() > 0,
        res is Ok ==> {
            &&& res->Ok_0.1 is Run
            &&& res->Ok_0.1->Run_0@ == commands@[0]@
            &&& res->Ok_0.0@.waiting.len() == commands.len() - 1
            &&& forall|i: int|
                0 < i < commands.len() ==> res->Ok_0.0@.waiting[i - 1] == (
                #[trigger] commands@[i])@
            &&& res->Ok_0.0@.outputs.len() == 1
            &&& res->Ok_0.0@.outputs[0].stdout.len() == 0
            &&& res->Ok_0.0@.outputs[0].stderr.len() == 0
            &&& !res->Ok_0.0@.finished
        },
{
    if res is Ok {
        assert forall|i: int| 0 < i < commands.len() implies res->Ok_0.0@.waiting[i - 1] == (
        #[trigger] commands@[i])@ by {
            assert(texts(commands@)[i] == commands@[i]@);
        }
    }
}

/// What a session leaves is what it received: the outputs with their status, the working directory,
/// and of the variables those of runaway and those that were given.
pub proof fn what_was_received_is_left(
    pty: Pty,
    given: &TerminalContext,
    key: Seq<char>,
    i: int,
    res: (TerminalContext, Vec<Output>),
)
    requires
        call_ensures(Pty::finish, (&pty, given), res),
    ensures
        res.1.len() == pty@.outputs.len(),
        0 <= i < res.1.len() ==> {
            &&& res.1@[i].status.raw == pty@.outputs[i].status
            &&& res.1@[i].stdout@ == pty@.outputs[i].stdout
            &&& res.1@[i].stderr@ == pty@.outputs[i].stderr
        },
        res.0.cwd@ == pty@.cwd,
        res.0.envs@.contains_key(key) <==> pty@.envs.contains_key(key) && (begins_with(
            key,
            "RUNAWAY"@,
        ) || given.envs@.contains_key(key)),
        res.0.envs@.contains_key(key) ==> res.0.envs@[key] == pty@.envs[key],
{
    if 0 <= i < res.1.len() {
        assert(output_views(res.1@)[i] == res.1@[i]@);
    }
    assert(output_views(res.1@).len() == res.1.len());
}

/// What is written for the actions: a command stands in quotes behind the word that runs it.
pub proof fn commands_are_written_in_quotes(
    command: String,
    run: Option<String>,
    close: Option<String>,
    read: Option<String>,
    action: PtyAction,
)
    requires
        call_ensures(PtyAction::written, (&PtyAction::Run(command),), run),
        call_ensures(PtyAction::written, (&PtyAction::Close,), close),
        call_ensures(PtyAction::written, (&action,), read),
        !(action is Run) && !(action is Close),
    ensures
        run is Some && run->Some_0@ == "rw_run \""@ + command@ + "\"\n"@,
        close is Some && close->Some_0@ == "rw_close \n"@,
        read is None,
{
}

/// The context is set up by a change to its directory and, for each of its variables, a line that sets
/// it to its value.
pub proof fn context_is_set_up(
    context: &TerminalContext,
    more: &TerminalContext,
    key: String,
    value: String,
    res: String,
    res_more: String,
)
    requires
        call_ensures(setup_text, (context,), res),
        call_ensures(setup_text, (more,), res_more),
        more.cwd@ == context.cwd@,
        more.envs.entries@ == context.envs.entries@.push((key, value)),
    ensures
        res_more@ == res@ + ("export "@ + key@ + "=\""@ + value@ + "\"\n"@),
        context.envs.entries.len() == 0 ==> res@ == "cd "@ + context.cwd@ + "\n"@,
{
    assert(pairs(more.envs.entries@).drop_last() =~= pairs(context.envs.entries@));
    assert(pairs(more.envs.entries@).last() == (key@, value@));
    assert(res_more@ =~= res@ + ("export "@ + key@ + "=\""@ + value@ + "\"\n"@));
    if context.envs.entries.len() == 0 {
        assert(res@ =~= "cd "@ + context.cwd@ + "\n"@);
    }
}

proof fn line_end_is_a_line_feed(s: Seq<char>)
    requires
        !s.contains('\r'),
    ensures
        replaced(s + seq!['\r', '\n'], "\r\n"@, "\n"@) == s + seq!['\n'],
        replaced(s + seq!['\n'], "\r\n"@, "\n"@) == s + seq!['\n'],
{
    reveal_strlit("\r\n");
    reveal_strlit("\n");
    let end = "\r\n"@;
    let feed = "\n"@;
    let empty = Seq::<char>::empty();
    assert(end =~= seq!['\r', '\n']);
    assert(feed =~= seq!['\n']);
    let line = s + end + empty;
    assert(line =~= s + seq!['\r', '\n']);
    assert forall|i: int| 0 <= i < s.len() implies #[trigger] line.subrange(i, i + end.len() as int)
        != end by {
        assert(line.subrange(i, i + end.len() as int)[0] == s[i]);
        assert(s.contains(s[i]));
    }
    crate::text::replaced_at_first(s, end, empty, feed);
    crate::text::replaced_where_absent(empty, end, feed);
    assert(s + feed + empty =~= s + seq!['\n']);
    let fed = s + seq!['\n'];
    assert forall|i: int| 0 <= i && i + end.len() <= fed.len() implies #[trigger] fed.subrange(
        i,
        i + end.len() as int,
    ) != end by {
        assert(fed.subrange(i, i + end.len() as int)[0] == s[i]);
        assert(s.contains(s[i]));
    }
    crate::text::replaced_where_absent(fed, end, feed);
}

proof fn ended_line(head: Seq<char>, s: Seq<char>)
    requires
        !head.contains('\r'),
        !s.contains('\r'),
    ensures
        replaced(head + s + seq!['\r', '\n'], "\r\n"@, "\n"@) == head + (s + seq!['\n']),
        replaced(head + s + seq!['\n'], "\r\n"@, "\n"@) == head + (s + seq!['\n']),
        !s.contains('\n') ==> without_char(s + seq!['\n'], '\n') == s,
{
    let line = head + s;
    assert forall|i: int| 0 <= i < line.len() implies line[i] != '\r' by {
        if i < head.len() {
            assert(head.contains(head[i]));
        } else {
            assert(s.contains(s[i - head.len()]));
        }
    }
    line_end_is_a_line_feed(line);
    assert(line + seq!['\n'] =~= head + (s + seq!['\n']));
    if !s.contains('\n') {
        crate::text::other_characters_are_kept(s, '\n');
        assert((s + seq!['\n']).drop_last() =~= s);
    }
}

/// The exit code that the agent writes is the one that is read, whether the line ends with a mere line
/// feed or not.
pub proof fn exit_codes_come_through(line: &str, code: i32, res: PtyMessage)
    requires
        call_ensures(read_message, (line,), res),
        line@ == "RUNAWAY_ECODE: "@ + signed_decimal_of(code as int) + seq!['\r', '\n'] || line@
            == "RUNAWAY_ECODE: "@ + signed_decimal_of(code as int) + seq!['\n'],
    ensures
        res is Code,
        res->Code_0 == Some(code),
{
    reveal_strlit("RUNAWAY_ECODE: ");
    let digits = signed_decimal_of(code as int);
    crate::text::numbers_hold_digits_only(code as int, '\r');
    crate::text::numbers_hold_digits_only(code as int, '\n');
    ended_line("RUNAWAY_ECODE: "@, digits);
    crate::text::prefix_is_taken_off("RUNAWAY_ECODE: "@, digits + seq!['\n']);
    crate::text::signed_decimal_then_parse(code);
    assert(res@ == Message::Code(Some(code)));
}

/// A line that the agent writes for an output stream is read with a line feed at its end.
pub proof fn written_lines_come_through(
    text: Seq<char>,
    out: &str,
    err: &str,
    res_out: PtyMessage,
    res_err: PtyMessage,
)
    requires
        call_ensures(read_message, (out,), res_out),
        call_ensures(read_message, (err,), res_err),
        !text.contains('\r'),
        out@ == "RUNAWAY_STDOUT: "@ + text + seq!['\r', '\n'],
        err@ == "RUNAWAY_STDERR: "@ + text + seq!['\r', '\n'],
    ensures
        res_out is Stdout && res_out->Stdout_0@ == text.push('\n'),
        res_err is Stderr && res_err->Stderr_0@ == text.push('\n'),
{
    reveal_strlit("RUNAWAY_STDOUT: ");
    reveal_strlit("RUNAWAY_STDERR: ");
    ended_line("RUNAWAY_STDOUT: "@, text);
    ended_line("RUNAWAY_STDERR: "@, text);
    output_lines_come_through(text + seq!['\n']);
    assert(text + seq!['\n'] =~= text.push('\n'));
    assert(res_out@ == Message::Stdout(text.push('\n')));
    assert(res_err@ == Message::Stderr(text.push('\n')));
}

proof fn heads_differ(s: Seq<char>)
    ensures
        !begins_with("RUNAWAY_CWD: "@ + s, "RUNAWAY_ECODE: "@),
        !begins_with("RUNAWAY_CWD: "@ + s, "RUNAWAY_STDOUT: "@),
        !begins_with("RUNAWAY_CWD: "@ + s, "RUNAWAY_STDERR: "@),
        begins_with("RUNAWAY_CWD: "@ + s, "RUNAWAY_CWD:"@),
        !begins_with("RUNAWAY_ENV: "@ + s, "RUNAWAY_ECODE: "@),
        !begins_with("RUNAWAY_ENV: "@ + s, "RUNAWAY_STDOUT: "@),
        !begins_with("RUNAWAY_ENV: "@ + s, "RUNAWAY_STDERR: "@),
        !begins_with("RUNAWAY_ENV: "@ + s, "RUNAWAY_CWD:"@),
        begins_with("RUNAWAY_ENV: "@ + s, "RUNAWAY_ENV:"@),
        !begins_with("RUNAWAY_EOF:"@ + s, "RUNAWAY_ECODE: "@),
        !begins_with("RUNAWAY_EOF:"@ + s, "RUNAWAY_STDOUT: "@),
        !begins_with("RUNAWAY_EOF:"@ + s, "RUNAWAY_STDERR: "@),
        !begins_with("RUNAWAY_EOF:"@ + s, "RUNAWAY_CWD:"@),
        !begins_with("RUNAWAY_EOF:"@ + s, "RUNAWAY_ENV:"@),
        begins_with("RUNAWAY_EOF:"@ + s, "RUNAWAY_EOF:"@),
        !"RUNAWAY_CWD: "@.contains('\r') && !"RUNAWAY_ENV: "@.contains('\r')
            && !"RUNAWAY_EOF:"@.contains('\r'),
{
    reveal_strlit("RUNAWAY_ECODE: ");
    reveal_strlit("RUNAWAY_STDOUT: ");
    reveal_strlit("RUNAWAY_STDERR: ");
    reveal_strlit("RUNAWAY_CWD:");
    reveal_strlit("RUNAWAY_CWD: ");
    reveal_strlit("RUNAWAY_ENV:");
    reveal_strlit("RUNAWAY_ENV: ");
    reveal_strlit("RUNAWAY_EOF:");
    let cwd = "RUNAWAY_CWD: "@ + s;
    let env = "RUNAWAY_ENV: "@ + s;
    let eof = "RUNAWAY_EOF:"@ + s;
    assert(cwd[8] == 'C' && cwd[9] == 'W');
    assert(env[8] == 'E' && env[9] == 'N');
    assert(eof[8] == 'E' && eof[9] == 'O');
    head_is_not(cwd, "RUNAWAY_ECODE: "@, 8);
    head_is_not(cwd, "RUNAWAY_STDOUT: "@, 8);
    head_is_not(cwd, "RUNAWAY_STDERR: "@, 8);
    head_is_not(env, "RUNAWAY_ECODE: "@, 9);
    head_is_not(env, "RUNAWAY_STDOUT: "@, 8);
    head_is_not(env, "RUNAWAY_STDERR: "@, 8);
    head_is_not(env, "RUNAWAY_CWD:"@, 8);
    head_is_not(eof, "RUNAWAY_ECODE: "@, 9);
    head_is_not(eof, "RUNAWAY_STDOUT: "@, 8);
    head_is_not(eof, "RUNAWAY_STDERR: "@, 8);
    head_is_not(eof, "RUNAWAY_CWD:"@, 8);
    head_is_not(eof, "RUNAWAY_ENV:"@, 9);
    assert(cwd.subrange(0, 12) =~= "RUNAWAY_CWD:"@);
    assert(env.subrange(0, 12) =~= "RUNAWAY_ENV:"@);
    assert(eof.subrange(0, 12) =~= "RUNAWAY_EOF:"@);
}

proof fn head_is_not(line: Seq<char>, head: Seq<char>, i: int)
    requires
        0 <= i < head.len(),
        i < line.len(),
        head[i] != line[i],
    ensures
        !begins_with(line, head),
{
    if line.len() >= head.len() {
        assert(line.subrange(0, head.len() as int)[i] == line[i]);
    }
}

/// The working directory and the variables that the agent writes are those that are read: a variable
/// is cut from its value at the first equals sign. The end is read as such.
pub proof fn context_comes_through(
    path: Seq<char>,
    key: Seq<char>,
    value: Seq<char>,
    cwd: &str,
    env: &str,
    eof: &str,
    res_cwd: PtyMessage,
    res_env: PtyMessage,
    res_eof: PtyMessage,
)
    requires
        call_ensures(read_message, (cwd,), res_cwd),
        call_ensures(read_message, (env,), res_env),
        call_ensures(read_message, (eof,), res_eof),
        !path.contains('\r') && !path.contains('\n'),
        !key.contains('\r') && !key.contains('\n') && !key.contains('='),
        !value.contains('\r') && !value.contains('\n'),
        cwd@ == "RUNAWAY_CWD: "@ + path + seq!['\r', '\n'],
        env@ == "RUNAWAY_ENV: "@ + (key + seq!['='] + value) + seq!['\r', '\n'],
        eof@ == "RUNAWAY_EOF:"@ + Seq::<char>::empty() + seq!['\r', '\n'],
    ensures
        res_cwd is Cwd && res_cwd->Cwd_0@ == path,
        res_env is Env && res_env->Env_0@ == key && res_env->Env_1@ == value,
        res_eof is Eof,
{
    let entry = key + seq!['='] + value;
    assert forall|i: int| 0 <= i < entry.len() implies entry[i] != '\r' && entry[i] != '\n' by {
        if i < key.len() {
            assert(key.contains(key[i]));
        } else if i > key.len() {
            assert(value.contains(value[i - key.len() - 1]));
        }
    }
    heads_differ(path + seq!['\n']);
    heads_differ(entry + seq!['\n']);
    heads_differ(Seq::<char>::empty() + seq!['\n']);
    ended_line("RUNAWAY_CWD: "@, path);
    ended_line("RUNAWAY_ENV: "@, entry);
    ended_line("RUNAWAY_EOF:"@, Seq::empty());
    crate::text::prefix_is_taken_off("RUNAWAY_CWD: "@, path + seq!['\n']);
    crate::text::prefix_is_taken_off("RUNAWAY_ENV: "@, entry + seq!['\n']);
    crate::text::cut_at_first(key, '=', value);
    assert(res_cwd@ == Message::Cwd(path));
    assert(res_env@ == Message::Env(key, value));
    assert(res_eof@ == Message::Eof);
}

/// A session tells whether its end was received.
pub proof fn session_tells_its_end(pty: Pty, res: bool)
    requires
        call_ensures(Pty::is_finished, (&pty,), res),
    ensures
        res <==> pty@.finished,
{
}

/// A session needs a command. It starts at the root, with no variable set.
pub proof fn session_needs_a_command(commands: Vec<String>, res: Result<(Pty, PtyAction), Error>)
    requires
        call_ensures(Pty::start, (commands,), res),
    ensures
        res is Err ==> res->Err_0 is ExecutionFailed && res->Err_0->ExecutionFailed_0@
            == "No command was provided."@,
        res is Ok ==> res->Ok_0.0@.cwd == "/"@ && res->Ok_0.0@.envs == Map::<
            Seq<char>,
            Seq<char>,
        >::empty() && res->Ok_0.0@.outputs[0].status == 0,
{
}

} // verus!
