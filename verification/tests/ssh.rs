use liborchestra::commons::{EnvironmentStore, ExitStatus, Output, OutputBuf, TerminalContext};
use liborchestra::misc::compact_outputs;
use liborchestra::ssh::config::SshProfile;
use liborchestra::ssh::connection::{
    handle_exec_operation, handle_scp_fetch_operation, handle_scp_send_operation,
    known_hosts_path, start_session, Error as ConnectionError, FutureState, Polled, Received,
    RemoteFuture, RemoteOperations, SessionEvent, SessionStage, SessionStep, Transfer,
};
use liborchestra::ssh::exec::{ExecAction, ExecEvent};
use liborchestra::ssh::pty::{read_message, setup_text, PtyMessage, BASH_PTY_AGENT};
use liborchestra::ssh::remote::{PtyEvent, PtyStep, Task, TaskAction, TaskEvent};
use liborchestra::ssh::scp::{FetchAction, FetchEvent, SendAction, SendEvent, CHUNK, FETCH_BUFFER};
use liborchestra::ssh::session::{self, SessionStage as RemoteStage};
use liborchestra::ssh::{
    authenticate_host, authenticate_local, exec_reply, has_proxy_program, proxy_program, pty_reply,
    scp_fetch_reply, scp_send_reply, show_remote, Connection, Error, HostCheck, HostDecision,
    OperationInput, OperationOutput,
};

fn profile(port: Option<u64>, proxycommand: Option<&str>) -> SshProfile {
    SshProfile {
        name: "test".to_owned(),
        hostname: Some("localhost".to_owned()),
        user: Some("apere".to_owned()),
        port,
        proxycommand: proxycommand.map(|s| s.to_owned()),
    }
}

/// What a command does on the remote side: the lines that it writes, and its exit code.
struct Ran {
    stdout: Vec<String>,
    stderr: Vec<String>,
    code: i32,
}

fn prints(lines: &[&str]) -> Ran {
    Ran { stdout: lines.iter().map(|s| s.to_string()).collect(), stderr: vec![], code: 0 }
}

/// A remote side, with its directory and its variables, that knows how to run a few commands.
struct Agent {
    cwd: String,
    envs: Vec<(String, String)>,
    lines: Vec<String>,
    written: String,
    run: fn(&mut Agent, &str) -> Ran,
}

impl Agent {
    fn new(run: fn(&mut Agent, &str) -> Ran) -> Agent {
        Agent { cwd: "/home/apere".to_owned(), envs: vec![], lines: vec![], written: String::new(), run }
    }

    fn set(&mut self, key: &str, value: &str) {
        self.envs.retain(|(k, _)| k != key);
        self.envs.push((key.to_owned(), value.to_owned()));
    }

    fn value(&self, key: &str) -> String {
        self.envs.iter().find(|(k, _)| k == key).map(|(_, v)| v.clone()).unwrap_or_default()
    }

    fn write(&mut self, text: &str) {
        self.written.push_str(text);
        if text == BASH_PTY_AGENT || text.starts_with("bash\n") || text.starts_with("rw_init") {
            // The terminal echoes what is typed before the agent runs.
            self.lines.push(format!("{}\r\n", text.lines().next().unwrap()));
        } else if text.starts_with("cd ") {
            for line in text.lines() {
                if let Some(path) = line.strip_prefix("cd ") {
                    self.cwd = path.to_owned();
                } else if let Some(variable) = line.strip_prefix("export ") {
                    let (key, value) = variable.split_once('=').unwrap();
                    self.set(key, value.trim_matches('"'));
                }
            }
        } else if let Some(command) = text.strip_prefix("rw_run \"") {
            let command = command.strip_suffix("\"\n").unwrap().to_owned();
            let ran = (self.run)(self, &command);
            for line in ran.stdout {
                self.lines.push(format!("RUNAWAY_STDOUT: {}\r\n", line));
            }
            for line in ran.stderr {
                self.lines.push(format!("RUNAWAY_STDERR: {}\r\n", line));
            }
            self.lines.push(format!("RUNAWAY_ECODE: {}\r\n", ran.code));
        } else if text.starts_with("rw_close") {
            self.lines.push(format!("RUNAWAY_CWD: {}\r\n", self.cwd));
            for (key, value) in self.envs.iter() {
                self.lines.push(format!("RUNAWAY_ENV: {}={}\r\n", key, value));
            }
            self.lines.push("RUNAWAY_EOF:\r\n".to_owned());
        }
    }
}

/// Runs commands on an agent, and gives what is answered along with what was handed over.
fn run_pty(
    agent: &mut Agent,
    context: TerminalContext,
    commands: &[&str],
) -> (Result<(TerminalContext, Vec<Output>), Error>, String) {
    let commands = commands.iter().map(|s| s.to_string()).collect();
    let mut task = match Task::start(OperationInput::Pty(context, commands)) {
        Ok(task) => task,
        Err(answer) => return (pty_reply(Ok(answer), ""), String::new()),
    };
    let mut handed = String::new();
    let mut event = PtyEvent::Done;
    loop {
        event = match task.step(TaskEvent::Pty(event)) {
            TaskAction::Pty(PtyStep::Write(text)) => {
                agent.write(&text);
                PtyEvent::Done
            }
            TaskAction::Pty(PtyStep::Read) => PtyEvent::Line(agent.lines.remove(0)),
            TaskAction::Pty(PtyStep::Stdout(bytes)) => {
                handed.push_str(&format!("out {}", String::from_utf8(bytes).unwrap()));
                PtyEvent::Done
            }
            TaskAction::Pty(PtyStep::Stderr(bytes)) => {
                handed.push_str(&format!("err {}", String::from_utf8(bytes).unwrap()));
                PtyEvent::Done
            }
            TaskAction::Pty(PtyStep::Close) => PtyEvent::Done,
            TaskAction::Answer(answer) => return (pty_reply(Ok(answer), ""), handed),
            _ => panic!("Unexpected action"),
        };
    }
}

fn default_context() -> TerminalContext {
    TerminalContext { cwd: "/".to_owned(), envs: EnvironmentStore::new() }
}

fn text(bytes: Vec<u8>) -> String {
    String::from_utf8(bytes).unwrap()
}

fn echo(agent: &mut Agent, command: &str) -> Ran {
    if let Some((first, second)) = command.split_once(" && echo ") {
        let mut lines = echo(agent, first).stdout;
        lines.push(second.to_owned());
        return Ran { stdout: lines, stderr: vec![], code: 0 };
    }
    if command == "echo kikou_stderr 1>&2" {
        return Ran { stdout: vec![], stderr: vec!["kikou_stderr".to_owned()], code: 0 };
    }
    if command == "pwd" {
        return prints(&[&agent.cwd.clone()]);
    }
    if let Some(path) = command.strip_prefix("cd ") {
        agent.cwd = path.to_owned();
        return prints(&[]);
    }
    if let Some(name) = command.strip_prefix("echo $") {
        return prints(&[&agent.value(name)]);
    }
    if let Some(line) = command.strip_prefix("echo ") {
        return prints(&[line]);
    }
    if let Some(number) = command.strip_prefix("false ") {
        return Ran { stdout: vec![], stderr: vec![], code: number.parse().unwrap() };
    }
    if let Some((key, value)) = command.trim_start_matches("export ").split_once('=') {
        agent.set(key, value);
    }
    prints(&[])
}

#[test]
fn mod_test_async_exec() {
    let command = "echo kikou && sleep 1 && { echo hello! 1>&2 }";
    let mut task = Task::start(OperationInput::Exec(command.to_owned())).unwrap();
    let step = |task: &mut Task, event| task.step(TaskEvent::Exec(event));
    match step(&mut task, ExecEvent::Done) {
        TaskAction::Exec(ExecAction::Run(sent)) => assert_eq!(sent, format!("{}\n", command)),
        _ => panic!("Not run"),
    }
    assert!(matches!(step(&mut task, ExecEvent::Done), TaskAction::Exec(ExecAction::SendEof)));
    assert!(matches!(step(&mut task, ExecEvent::Done), TaskAction::Exec(ExecAction::Read)));
    let reads = [("kik", "", false), ("ou\n", "hel", false), ("", "lo!\n", true)];
    for (out, err, eof) in reads {
        let read = ExecEvent::Read(out.as_bytes().to_vec(), err.as_bytes().to_vec(), eof);
        match step(&mut task, read) {
            TaskAction::Exec(ExecAction::Read) => assert!(!eof),
            TaskAction::Exec(ExecAction::Close) => assert!(eof),
            _ => panic!("Unexpected action"),
        }
    }
    let answer = match step(&mut task, ExecEvent::Closed(0)) {
        TaskAction::Answer(answer) => answer,
        _ => panic!("No answer"),
    };
    let output = exec_reply(Ok(answer), "").unwrap();
    assert_eq!(text(output.stdout), "kikou\n");
    assert_eq!(text(output.stderr), "hello!\n");
    assert_eq!(output.status.code().unwrap(), 0);
}

#[test]
fn test_async_pty_order() {
    let commands = [
        "echo 1", "echo 2", "echo 3", "echo 4", "echo 5", "echo 6", "echo 7", "echo 8", "echo 9",
        "echo 10", "echo 11", "echo 12 && echo 13",
    ];
    let (answer, handed) = run_pty(&mut Agent::new(echo), default_context(), &commands);
    let (_, outputs) = answer.unwrap();
    assert_eq!(outputs.len(), 12);
    let output = compact_outputs(outputs);
    assert_eq!(text(output.stdout), "1\n2\n3\n4\n5\n6\n7\n8\n9\n10\n11\n12\n13\n");
    assert_eq!(output.status.code().unwrap(), 0);
    assert_eq!(handed.lines().next().unwrap(), "out 1");
    assert_eq!(handed.lines().count(), 13);
}

#[test]
fn test_async_pty_cds() {
    let (answer, _) = run_pty(&mut Agent::new(echo), default_context(), &["cd /tmp", "pwd"]);
    let (context, outputs) = answer.unwrap();
    let output = compact_outputs(outputs);
    assert_eq!(text(output.stdout), "/tmp\n");
    assert_eq!(output.status.code().unwrap(), 0);
    assert_eq!(context.cwd, "/tmp");
}

#[test]
fn test_async_pty_envs() {
    let (answer, _) = run_pty(&mut Agent::new(echo), default_context(), &["a=KIKOU", "echo $a"]);
    let (context, outputs) = answer.unwrap();
    let output = compact_outputs(outputs);
    assert_eq!(text(output.stdout), "KIKOU\n");
    assert_eq!(output.status.code().unwrap(), 0);
    // A variable that is neither one of runaway nor of the context is not kept.
    assert_eq!(context.envs.get("a"), None);
}

#[test]
fn test_async_pty_stderr() {
    let commands = ["echo kikou_stdout", "echo kikou_stderr 1>&2"];
    let (answer, handed) = run_pty(&mut Agent::new(echo), default_context(), &commands);
    let output = compact_outputs(answer.unwrap().1);
    assert_eq!(text(output.stdout), "kikou_stdout\n");
    assert_eq!(text(output.stderr), "kikou_stderr\n");
    assert_eq!(output.status.code().unwrap(), 0);
    assert_eq!(handed, "out kikou_stdout\nerr kikou_stderr\n");
}

#[test]
fn test_async_pty_program_stdout() {
    fn program(agent: &mut Agent, command: &str) -> Ran {
        match command {
            "./run.py 10" => prints(&["0", "1", "2"]),
            "echo Python: $(which python)" => prints(&["Python: /usr/bin/python"]),
            other => echo(agent, other),
        }
    }
    let commands = [
        "export PYTHONUNBUFFERED=x",
        "echo Python: $(which python)",
        "cd /home/apere/Downloads/test_runaway",
        "./run.py 10",
        "echo Its over",
    ];
    let (answer, _) = run_pty(&mut Agent::new(program), default_context(), &commands);
    let outputs: Vec<OutputBuf> =
        answer.unwrap().1.iter().map(OutputBuf::from_output).collect();
    let stdouts: Vec<&str> = outputs.iter().map(|o| o.stdout.as_str()).collect();
    assert_eq!(stdouts, vec!["", "Python: /usr/bin/python\n", "", "0\n1\n2\n", "Its over\n"]);
    assert!(outputs.iter().all(|o| o.ecode == 0 && o.stderr.is_empty()));
}

#[test]
fn test_async_pty_context() {
    let mut context = default_context();
    context.cwd = "/tmp".to_owned();
    context.envs.insert("RW_TEST".to_owned(), "VAL1".to_owned());
    let commands = ["pwd", "echo $RW_TEST", "export RW_TEST=VAL2"];
    let mut agent = Agent::new(echo);
    let (answer, _) = run_pty(&mut agent, context, &commands);
    assert!(agent.written.contains("cd /tmp\nexport RW_TEST=\"VAL1\"\n"));
    let (context, outputs) = answer.unwrap();
    let output = compact_outputs(outputs);
    assert_eq!(text(output.stdout), "/tmp\nVAL1\n");
    assert_eq!(context.envs.get("RW_TEST").unwrap(), "VAL2");
    assert_eq!(output.status.code().unwrap(), 0);
}

#[test]
fn failing_command_stops_the_session() {
    let commands = ["echo 1", "false 256", "echo 2"];
    let (answer, handed) = run_pty(&mut Agent::new(echo), default_context(), &commands);
    let (_, outputs) = answer.unwrap();
    assert_eq!(outputs.len(), 2);
    assert_eq!(outputs[1].status.code(), Some(1));
    assert_eq!(handed, "out 1\n");
    let (answer, _) = run_pty(&mut Agent::new(echo), default_context(), &[]);
    assert_eq!(
        answer.unwrap_err().message(),
        "An error occurred while running a command on a remote host: \nNo command was provided."
    );
}

#[test]
fn interactive_failures_are_reported() {
    // Each stage up to the first command fails in turn.
    let expected = [
        "Failed to start pty channel: x",
        "Failed to start bash: x",
        "Failed to inject agent: x",
        "Failed to initialize agent: x",
        "Failed to set context up: x",
        "Failed to exec command 'ls': x",
        "Failed to read outputs: x",
    ];
    for (steps, text) in expected.iter().enumerate() {
        let input = OperationInput::Pty(default_context(), vec!["ls".to_owned()]);
        let mut task = Task::start(input).unwrap();
        for _ in 0..steps {
            task.step(TaskEvent::Pty(PtyEvent::Done));
        }
        match task.step(TaskEvent::Pty(PtyEvent::Failed("x".to_owned()))) {
            TaskAction::Answer(OperationOutput::Pty(Err(Error::ExecutionFailed(s)))) => {
                assert_eq!(&s, text)
            }
            _ => panic!("Did not fail"),
        }
    }
}

#[test]
fn execution_failures_are_reported() {
    let fail = |events: Vec<ExecEvent>| {
        let mut task = Task::start(OperationInput::Exec("ls".to_owned())).unwrap();
        let mut last = String::new();
        for event in events {
            if let TaskAction::Answer(OperationOutput::Exec(Err(Error::ExecutionFailed(s)))) =
                task.step(TaskEvent::Exec(event))
            {
                last = s;
            }
        }
        last
    };
    let failed = || ExecEvent::Failed("x".to_owned());
    let done = || ExecEvent::Done;
    assert_eq!(fail(vec![failed()]), "Failed to open channel: x");
    assert_eq!(fail(vec![done(), failed()]), "Failed to exec command ls: x");
    assert_eq!(fail(vec![done(), done(), failed()]), "Failed to send EOF: x");
    assert_eq!(fail(vec![done(), done(), done(), failed()]), "Failed to read stdout: x");
    let stderr = ExecEvent::StderrFailed("x".to_owned());
    assert_eq!(fail(vec![done(), done(), done(), stderr]), "Failed to read stderr: x");
    let read = ExecEvent::Read(vec![], vec![], true);
    assert_eq!(fail(vec![done(), done(), done(), read, failed()]), "Failed to close channel: x");
}

#[test]
fn messages_of_the_agent() {
    assert!(matches!(read_message("RUNAWAY_ECODE: 12\n"), PtyMessage::Code(Some(12))));
    assert!(matches!(read_message("RUNAWAY_ECODE: -1\r\n"), PtyMessage::Code(Some(-1))));
    assert!(matches!(read_message("RUNAWAY_ECODE: x\n"), PtyMessage::Code(None)));
    assert!(matches!(
        read_message("RUNAWAY_STDOUT: a RUNAWAY_STDOUT: b\n"),
        PtyMessage::Stdout(s) if s == "a RUNAWAY_STDOUT: b\n"
    ));
    assert!(matches!(read_message("RUNAWAY_CWD: /tmp\r\n"), PtyMessage::Cwd(s) if s == "/tmp"));
    assert!(matches!(
        read_message("RUNAWAY_ENV: K=a=b\n"),
        PtyMessage::Env(k, v) if k == "K" && v == "a=b"
    ));
    assert!(matches!(read_message("RUNAWAY_EOF:\n"), PtyMessage::Eof));
    assert!(matches!(read_message("anything\n"), PtyMessage::Other));
    let mut context = default_context();
    context.envs.insert("A".to_owned(), "1".to_owned());
    context.envs.insert("B".to_owned(), "2 3".to_owned());
    assert_eq!(setup_text(&context), "cd /\nexport A=\"1\"\nexport B=\"2 3\"\n");
}

/// Sends `data` through a task: what arrives on the other side.
fn send(data: &[u8], accepts: usize) -> Vec<u8> {
    let input = OperationInput::ScpSend("/tmp/local.txt".to_owned(), "/tmp/remote.txt".to_owned());
    let mut task = Task::start(input).unwrap();
    let mut received = vec![];
    let mut position = 0;
    let mut event = SendEvent::Opened(data.len() as i64);
    loop {
        event = match task.step(TaskEvent::ScpSend(event)) {
            TaskAction::ScpSend(SendAction::Fill) => SendEvent::Filled(data.len() - position),
            TaskAction::ScpSend(SendAction::Write(n)) => {
                let n = n.min(accepts);
                received.extend_from_slice(&data[position..position + n]);
                SendEvent::Written(n)
            }
            TaskAction::ScpSend(SendAction::Consume(n)) => {
                position += n;
                SendEvent::Filled(data.len() - position)
            }
            TaskAction::ScpSend(SendAction::Close) => SendEvent::Closed,
            TaskAction::Answer(answer) => {
                scp_send_reply(Ok(answer), "").unwrap();
                return received;
            }
            _ => panic!("Unexpected action"),
        };
    }
}

/// Fetches `data` through a task: what is written locally.
fn fetch(data: &[u8]) -> Vec<u8> {
    let input = OperationInput::ScpFetch("/tmp/remote.txt".to_owned(), "/tmp/local.txt".to_owned());
    let mut task = Task::start(input).unwrap();
    let mut written = vec![];
    let mut event = FetchEvent::Opened(data.len() as i64);
    loop {
        event = match task.step(TaskEvent::ScpFetch(event)) {
            TaskAction::ScpFetch(FetchAction::Read) => {
                FetchEvent::Read((data.len() - written.len()).min(FETCH_BUFFER))
            }
            TaskAction::ScpFetch(FetchAction::Write(n)) => {
                written.extend_from_slice(&data[written.len()..written.len() + n]);
                FetchEvent::Written(n)
            }
            TaskAction::ScpFetch(FetchAction::Close) => FetchEvent::Closed,
            TaskAction::Answer(answer) => {
                scp_fetch_reply(Ok(answer), "").unwrap();
                return written;
            }
            _ => panic!("Unexpected action"),
        };
    }
}

fn noise(len: usize) -> Vec<u8> {
    (0..len).map(|i| (i * 31 % 251) as u8).collect()
}

#[test]
fn mod_test_async_scp_send() {
    let data = noise(35 * 1024 * 1024);
    assert!(send(&data, usize::MAX) == data);
    let data = noise(3 * CHUNK + 7);
    assert!(send(&data, 1000) == data);
    assert!(send(&[], 1000).is_empty());
}

#[test]
fn mod_test_async_scp_fetch() {
    let data = noise(33 * 1024 * 1024);
    assert!(fetch(&data) == data);
    assert!(fetch(&[]).is_empty());
}

#[test]
fn transfer_failures_are_reported() {
    let fail = |events: Vec<SendEvent>| {
        let input = OperationInput::ScpSend("a".to_owned(), "b".to_owned());
        let mut task = Task::start(input).unwrap();
        let mut last = String::new();
        for event in events {
            if let TaskAction::Answer(answer) = task.step(TaskEvent::ScpSend(event)) {
                last = scp_send_reply(Ok(answer), "").unwrap_err().message();
            }
        }
        last
    };
    let failed = || SendEvent::Failed("x".to_owned());
    assert!(fail(vec![failed()]).ends_with("Failed to open scp send channel: x"));
    assert_eq!(fail(vec![SendEvent::NoChannel]), "Channel is not yet available");
    assert!(fail(vec![SendEvent::FileFailed("x".to_owned())]).ends_with("Failed to open local file: x"));
    let open = || SendEvent::Opened(4);
    assert!(fail(vec![open(), failed()]).ends_with("Failed to fill buffer: x"));
    assert!(fail(vec![open(), SendEvent::Filled(4), failed()]).ends_with("Failed to send data: x"));
    let fetched = |events: Vec<FetchEvent>| {
        let input = OperationInput::ScpFetch("a".to_owned(), "b".to_owned());
        let mut task = Task::start(input).unwrap();
        let mut last = String::new();
        for event in events {
            if let TaskAction::Answer(answer) = task.step(TaskEvent::ScpFetch(event)) {
                last = scp_fetch_reply(Ok(answer), "").unwrap_err().message();
            }
        }
        last
    };
    let failed = || FetchEvent::Failed("x".to_owned());
    assert!(fetched(vec![failed()]).ends_with("Failed to open scp recv channel: x"));
    assert!(fetched(vec![FetchEvent::Opened(1), failed()]).ends_with("Failed to read stream: x"));
    let events = vec![FetchEvent::Opened(1), FetchEvent::Read(1), failed()];
    assert!(fetched(events).ends_with("Failed to fetch data: x"));
    let events = vec![FetchEvent::Opened(0), FetchEvent::Read(0), failed()];
    assert!(fetched(events).ends_with("Failed to close channel: x"));
}

#[test]
fn connections_of_profiles() {
    let command = "ssh -A -l apere localhost -W localhost:22";
    match Connection::from_profile(&profile(Some(22), Some(command))).unwrap() {
        Connection::ProxyCommand { command: c, host, user } => {
            assert_eq!((c.as_str(), host.as_str(), user.as_str()), (command, "localhost", "apere"))
        }
        _ => panic!("Not a proxy command"),
    }
    match Connection::from_profile(&profile(Some(22), None)).unwrap() {
        Connection::Address { address, .. } => assert_eq!(address, "localhost:22"),
        _ => panic!("Not an address"),
    }
    let error = Connection::from_profile(&profile(None, None)).unwrap_err();
    assert_eq!(
        error.message(),
        "An error occurred while trying to connect to connect to a remote host: \nThe encountered profile is invalid: \nSshProfile { name: \"test\", hostname: Some(\"localhost\"), user: Some(\"apere\"), port: None, proxycommand: None }\nIt should either provide a proxycommand or a port"
    );
    assert_eq!(show_remote(&profile(None, None)), "RemoteHandle<localhost>");
    let mut nameless = profile(None, Some("nc"));
    nameless.hostname = None;
    assert!(Connection::from_profile(&nameless).is_err());
    assert_eq!(show_remote(&nameless), "RemoteHandle<nc>");
    assert!(nameless.is_same(&nameless.clone()));
    assert!(!nameless.is_same(&profile(None, Some("nc"))));
    let (program, args) = proxy_program(command);
    assert_eq!(program, "ssh");
    assert_eq!(args, vec!["-A", "-l", "apere", "localhost", "-W", "localhost:22"]);
    assert!(has_proxy_program("echo kikou"));
    assert!(!has_proxy_program("  "));
}

#[test]
fn hosts_and_identities_are_checked() {
    assert!(matches!(authenticate_host(HostCheck::Match), HostDecision::Accept));
    assert!(matches!(authenticate_host(HostCheck::NotFound), HostDecision::Register));
    match authenticate_host(HostCheck::Mismatch) {
        HostDecision::Refuse(Error::ConnectionFailed(s)) => {
            assert_eq!(s, "The key presented by the host mismatches the one we know. ")
        }
        _ => panic!("Accepted"),
    }
    assert!(matches!(authenticate_host(HostCheck::Failure), HostDecision::Refuse(_)));
    let identities = vec!["a".to_owned(), "b".to_owned()];
    assert!(authenticate_local(&identities, 0).is_ok());
    assert!(authenticate_local(&identities, 1).is_ok());
    assert!(authenticate_local(&identities, 2).is_err());
    assert!(authenticate_local(&vec![], 0).is_err());
    // Identities are told apart by their comments.
    assert!(authenticate_local(&vec!["a".to_owned(), "a".to_owned()], 1).is_err());
}

#[test]
fn answers_are_matched_with_operations() {
    let error = exec_reply(Ok(OperationOutput::ScpSend(Ok(()))), "").unwrap_err();
    assert_eq!(error.message(), "Failed to fetch the operation.: Expected Exec, found ScpSend(Ok(()))");
    let error = pty_reply(Ok(OperationOutput::ScpFetch(Ok(()))), "").unwrap_err();
    assert_eq!(error.message(), "Failed to fetch the operation.: Expected Pty, found ScpFetch(Ok(()))");
    let error = scp_fetch_reply(Err("canceled".to_owned()), "").unwrap_err();
    assert_eq!(error.clone().message(), "Failed to fetch the operation.: canceled");
    assert!(scp_send_reply(Ok(OperationOutput::ScpSend(Err(Error::WouldBlock))), "").is_err());
    let exec = OperationOutput::Exec(Ok(Output {
        status: ExitStatus::from_raw(0),
        stdout: vec![],
        stderr: vec![],
    }));
    let shown = "Output { status: ExitStatus(unix_wait_status(0)), stdout: \"\", stderr: \"\" }";
    assert_eq!(
        scp_send_reply(Ok(exec), shown).unwrap_err().message(),
        format!("Failed to fetch the operation.: Expected ScpSend, found Exec(Ok({}))", shown)
    );
}

/// Starts a session at an address: all goes well, the host is checked as given and identities are
/// tried.
fn open(check: HostCheck, tried: (Vec<String>, usize)) -> (Vec<RemoteStage>, Result<(), Error>) {
    let mut stages = vec![];
    let mut stage = RemoteStage::Connect;
    loop {
        stages.push(stage);
        let event = match stage {
            RemoteStage::Check => session::SessionEvent::Checked(check),
            RemoteStage::Authenticate => {
                session::SessionEvent::Tried(tried.0.clone(), tried.1)
            }
            _ => session::SessionEvent::Done,
        };
        match session::start_session(stage, "127.0.0.1:22", event) {
            session::SessionStep::Do(next) => stage = next,
            session::SessionStep::Return(result) => return (stages, result),
        }
    }
}

#[test]
fn remote_sessions_are_opened() {
    let tried = || (vec!["a".to_owned(), "b".to_owned()], 1);
    let opened = [
        RemoteStage::Connect,
        RemoteStage::Preferences,
        RemoteStage::Handshake,
        RemoteStage::Home,
        RemoteStage::KnownHostsFile,
        RemoteStage::KnownHosts,
        RemoteStage::HostKey,
        RemoteStage::Check,
    ];
    let registered = [RemoteStage::Register, RemoteStage::Save];
    let local = [RemoteStage::Agent, RemoteStage::Identities, RemoteStage::Authenticate];
    let (stages, result) = open(HostCheck::Match, tried());
    assert!(result.is_ok());
    assert_eq!(stages, [&opened[..], &local[..]].concat());
    let (stages, result) = open(HostCheck::NotFound, tried());
    assert!(result.is_ok());
    assert_eq!(stages, [&opened[..], &registered[..], &local[..]].concat());
    let (stages, result) = open(HostCheck::Mismatch, tried());
    assert_eq!(stages, opened);
    assert_eq!(
        result.unwrap_err().message(),
        "An error occurred while trying to connect to connect to a remote host: \nThe key presented by the host mismatches the one we know. "
    );
    assert_eq!(
        open(HostCheck::Failure, tried()).1.unwrap_err().message(),
        "An error occurred while trying to connect to connect to a remote host: \nFailed to check the host."
    );
    assert_eq!(
        open(HostCheck::Match, (vec!["a".to_owned(), "b".to_owned()], 2)).1.unwrap_err().message(),
        "An error occurred while trying to connect to connect to a remote host: \nNo identities registered in the ssh agent allowed to connect."
    );
    assert_eq!(
        session::known_hosts_path("/home/apere"),
        format!("/home/apere/{}", liborchestra::KNOWN_HOSTS_RPATH)
    );
}

#[test]
fn failures_to_open_a_remote_session() {
    let failures = [
        (RemoteStage::Connect, "Failed to connect to address 127.0.0.1:22"),
        (RemoteStage::Preferences, "Failed to set preferences"),
        (RemoteStage::Handshake, "Failed to perform handshake: \nwhy"),
        (RemoteStage::Home, "Failed to find the local home directory"),
        (RemoteStage::KnownHostsFile, "Failed to create knownhost file: why"),
        (RemoteStage::KnownHosts, "Failed to reach knownhost file:\nwhy"),
        (RemoteStage::HostKey, "Host did not provide a key."),
        (RemoteStage::Register, "Failed to add the host key in the registry"),
        (RemoteStage::Save, "Failed to write the knownhost file"),
        (RemoteStage::Agent, "Ssh Agent was unavailable: \nwhy"),
        (RemoteStage::Identities, "Couldn't list identities: \nwhy"),
    ];
    for (stage, expected) in failures {
        let event = session::SessionEvent::Failed("why".to_owned());
        match session::start_session(stage, "127.0.0.1:22", event) {
            session::SessionStep::Return(Err(Error::ConnectionFailed(text))) => {
                assert_eq!(text, expected)
            }
            _ => panic!("Went on"),
        }
    }
}

/// Starts a session: all goes well up to the given event.
fn session(check: HostCheck, tried: (Vec<String>, usize)) -> (Vec<SessionStage>, Result<(), ConnectionError>) {
    let mut stages = vec![];
    let mut stage = SessionStage::Preferences;
    loop {
        stages.push(stage);
        let event = match stage {
            SessionStage::Check => SessionEvent::Checked(check),
            SessionStage::Authenticate => SessionEvent::Tried(tried.0.clone(), tried.1),
            _ => SessionEvent::Done,
        };
        match start_session(stage, event) {
            SessionStep::Do(next) => stage = next,
            SessionStep::Return(result) => return (stages, result),
        }
    }
}

#[test]
fn test_remote_from_addr() {
    let (stages, result) = session(HostCheck::Match, (vec!["key".to_owned()], 0));
    result.unwrap();
    assert_eq!(stages.len(), 9);
    assert!(!stages.contains(&SessionStage::Register));
}

#[test]
fn test_remote_from_proxy_command() {
    let (stages, result) = session(HostCheck::NotFound, (vec!["key".to_owned()], 0));
    result.unwrap();
    assert_eq!(stages.len(), 11);
    assert!(stages.contains(&SessionStage::Save));
}

#[test]
fn sessions_that_fail() {
    let (_, result) = session(HostCheck::Mismatch, (vec![], 0));
    assert_eq!(result, Err(ConnectionError::HostKeyMismatch));
    let (_, result) = session(HostCheck::Failure, (vec![], 0));
    assert_eq!(result, Err(ConnectionError::HostCheckFailed));
    let (_, result) = session(HostCheck::Match, (vec!["key".to_owned()], 1));
    assert_eq!(result, Err(ConnectionError::ClientAuthFailed));
    let expected = [
        (SessionStage::Preferences, ConnectionError::PreferenceSettingFailed),
        (SessionStage::Handshake, ConnectionError::HandshakeFailed),
        (SessionStage::Home, ConnectionError::HomeNotFound),
        (SessionStage::KnownHosts, ConnectionError::KnownHostsUnreachable),
        (SessionStage::HostKey, ConnectionError::Unknown),
        (SessionStage::Register, ConnectionError::CouldntRegisterHost),
        (SessionStage::Save, ConnectionError::CouldntSaveKnownHosts),
        (SessionStage::Agent, ConnectionError::SshAgentUnavailable),
    ];
    for (stage, error) in expected {
        match start_session(stage, SessionEvent::Failed) {
            SessionStep::Return(Err(e)) => assert_eq!(e, error),
            _ => panic!("Did not fail"),
        }
    }
    assert_eq!(ConnectionError::HandshakeFailed.message(), "Failed to handshake with remote host.");
    assert_eq!(known_hosts_path("/home/apere"), "/home/apere/.orchestra/.orchestra/known_hosts");
}

#[test]
fn ssh_test_async_exec() {
    let mut future = RemoteFuture::async_exec("sleep 1 & ls");
    match &future.state {
        FutureState::Starting(RemoteOperations::Exec(command)) => assert_eq!(command, "sleep 1 & ls"),
        _ => panic!("Not starting"),
    }
    assert!(matches!(future.poll_start::<Output>(true), Polled::Pending));
    let executed = Some(("run.py\n".to_owned(), String::new(), 0));
    let output = future.poll_exec(Received::Result(handle_exec_operation(executed))).unwrap();
    assert_eq!(text(output.stdout), "run.py\n");
    assert!(matches!(future.state, FutureState::Finished));
    let mut future = RemoteFuture::async_exec("ls");
    future.poll_start::<Output>(true);
    assert_eq!(
        future.poll_exec(Received::Disconnected).err(),
        Some(ConnectionError::ExecutionFailed)
    );
    assert_eq!(handle_exec_operation(None).err(), Some(ConnectionError::ExecutionFailed));
}

#[test]
fn transfers_of_a_connection() {
    let mut future = RemoteFuture::async_scp_send("/tmp/local.txt", "/tmp/remote.txt");
    match future.poll_start::<()>(false) {
        Polled::Ready(result) => assert_eq!(result, Err(ConnectionError::ChannelClosed)),
        Polled::Pending => panic!("Pending"),
    }
    let mut future = RemoteFuture::async_scp_fetch("/tmp/remote.txt", "/tmp/local.txt");
    future.poll_start::<()>(true);
    let result = handle_scp_fetch_operation(Transfer::Moved(10, 10));
    assert_eq!(future.poll_scp(Received::Result(result)), Ok(()));
    let mut future = RemoteFuture::async_scp_fetch("/tmp/remote.txt", "/tmp/local.txt");
    future.poll_start::<()>(true);
    assert_eq!(
        future.poll_scp(Received::Empty),
        Err(ConnectionError::ReceiverCalledOnEmptyChannel)
    );
    assert_eq!(handle_scp_send_operation(Transfer::Moved(10, 10)), Ok(()));
    assert_eq!(
        handle_scp_send_operation(Transfer::Moved(9, 10)),
        Err(ConnectionError::ScpSendFailed)
    );
    assert_eq!(handle_scp_send_operation(Transfer::Unopened), Err(ConnectionError::NoSuchFile));
    assert_eq!(handle_scp_fetch_operation(Transfer::Failed), Err(ConnectionError::ScpFetchFailed));
}

#[test]
fn statuses_are_codes_or_signals() {
    assert_eq!(ExitStatus::from_raw(256).code(), Some(1));
    assert_eq!(ExitStatus::from_raw(256).signal(), None);
    assert_eq!(ExitStatus::from_raw(9).code(), None);
    assert_eq!(ExitStatus::from_raw(9).signal(), Some(9));
    assert!(ExitStatus::from_raw(0).success());
    let killed = Output { status: ExitStatus::from_raw(9), stdout: b"o".to_vec(), stderr: b"e".to_vec() };
    let buffer = OutputBuf::from_output(&killed);
    assert_eq!((buffer.stdout.as_str(), buffer.stderr.as_str()), ("o", "e"));
}
