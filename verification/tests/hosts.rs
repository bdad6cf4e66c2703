use liborchestra::commons::{
    EnvironmentStore, ExitStatus, Loaded, Output, Stored, TerminalContext,
};
use liborchestra::hosts::cluster;
use liborchestra::hosts::host::{
    abort_reply, acquire_reply, shutdown_reply, AcquireAction, AcquireEvent, Acquisition, Host,
    HostAction, HostEvent, HostTask, OperationInput, OperationOutput,
};
use liborchestra::hosts::provider::{Error as ProviderError, Provider, Pulled, Pushed};
use liborchestra::hosts::{Error, HostConf, LeaveConfig, NodeHandle};
use liborchestra::primitives::{DropBack, Expire, Timestamp};
use liborchestra::ssh::config::SshProfile;

#[test]
fn test_lexer() {}

fn at(secs: i64) -> Timestamp {
    Timestamp { secs, nanos: 0 }
}

fn output(raw: i32, stdout: &str) -> Output {
    Output { status: ExitStatus::from_raw(raw), stdout: stdout.as_bytes().to_vec(), stderr: vec![] }
}

fn profile() -> SshProfile {
    SshProfile {
        name: "localhost".to_owned(),
        hostname: Some("localhost".to_owned()),
        user: Some("apere".to_owned()),
        port: Some(22),
        proxycommand: None,
    }
}

fn context(vars: &[(&str, &str)]) -> TerminalContext {
    let mut envs = EnvironmentStore::new();
    for (k, v) in vars {
        envs.insert(k.to_string(), v.to_string());
    }
    TerminalContext { cwd: "/".to_owned(), envs }
}

fn conf() -> HostConf {
    HostConf {
        name: "localhost".to_owned(),
        ssh_configuration: "localhost".to_owned(),
        node_proxycommand: "ssh -A -l apere localhost -W $RUNAWAY_NODE_ID:22".to_owned(),
        start_allocation: vec!["export RUNAWAY_NODES='localhost localhost2'".to_owned()],
        cancel_allocation: vec!["echo $RUNAWAY_JOB_ID > /tmp/jobid".to_owned()],
        allocation_duration: 1,
        get_node_handles: vec!["export RUNAWAY_HANDLES='first second'".to_owned()],
        execution: vec!["$RUNAWAY_COMMAND".to_owned()],
        directory: "/projets/flowers/alex/executions".to_owned(),
    }
}

#[test]
fn mod_test_host_conf() {
    let conf = HostConf {
        name: "localhost".to_owned(),
        ssh_configuration: "localhost_proxy".to_owned(),
        node_proxycommand: "ssh -A -l apere localhost -W $NODENAME:22".to_owned(),
        start_allocation: vec!["".to_owned()],
        cancel_allocation: vec!["".to_owned()],
        allocation_duration: 1,
        get_node_handles: vec!["echo 16".to_owned()],
        execution: vec!["$RUNAWAY_COMMAND".to_owned()],
        directory: "/projets/flowers/alex/executions".to_owned(),
    };
    assert!(conf.to_file("/tmp/test_host.yml", Stored::Done).is_ok());
    assert_eq!(
        conf.to_file("/tmp/test_host.yml", Stored::Unopened).unwrap_err().message(),
        "An error occurred while writing the host: \nFailed to open host configuration file /tmp/test_host.yml"
    );
    assert_eq!(
        conf.to_file("/tmp/test_host.yml", Stored::Unwritten).unwrap_err().message(),
        "An error occurred while writing the host: \nFailed to write host configuration file /tmp/test_host.yml"
    );
    assert_eq!(conf.get_name(), "localhost");
    assert_eq!(conf.get_host_directory(), "/projets/flowers/alex/executions");
    assert_eq!(conf.get_execution_procedure(), vec!["$RUNAWAY_COMMAND"]);
}

#[test]
fn mod_test_host_conf_from_file() {
    let config = HostConf::from_file("/tmp/test_host.yml", Loaded::Value(conf()));
    assert_eq!(config.unwrap().name, "localhost");
    let error = HostConf::from_file("/tmp/test_host.yml", Loaded::Unopened).unwrap_err();
    assert_eq!(
        error.message(),
        "An error occurred while reading the host: \nFailed to open host configuration file /tmp/test_host.yml"
    );
    let error = HostConf::from_file("/tmp/test_host.yml", Loaded::Unparsed("why".to_owned()));
    assert_eq!(
        error.unwrap_err().clone().message(),
        "An error occurred while reading the host: \nFailed to parse host configuration file /tmp/test_host.yml: \nwhy"
    );
}

#[test]
fn leave_configs_are_words() {
    for word in ["nothing", "code", "everything"] {
        assert!(LeaveConfig::is_known(word));
        assert_eq!(LeaveConfig::from_word(word).to_word(), word);
    }
    assert!(!LeaveConfig::is_known("all"));
    assert_eq!(LeaveConfig::from_word("code"), LeaveConfig::Code);
}

/// Runs the procedures and connections that an acquisition asks for, all of which succeed.
fn drive(host: &mut Host, acquisition: &mut Acquisition, now: Timestamp) -> (Vec<String>, AcquireAction) {
    let mut done = vec![];
    let mut action = acquisition.step_at(host, AcquireEvent::Wake, now, "");
    let mut connections = 0;
    loop {
        action = match action {
            AcquireAction::Start(given, commands) => {
                assert_eq!(given.envs.get("RUNAWAY_PATH").unwrap(), "/projets/flowers/alex/executions");
                done.push(format!("start {}", commands.len()));
                let left = context(&[("RUNAWAY_NODES", "localhost localhost2")]);
                let mut left = left;
                left.envs.insert("RUNAWAY_PATH".to_owned(), "/projets/flowers/alex/executions".to_owned());
                acquisition.step_at(host, AcquireEvent::Ran(Ok((left, vec![output(0, "")]))), now, "")
            }
            AcquireAction::Cancel(given, commands) => {
                done.push(format!("cancel {}", commands[0]));
                acquisition.step_at(host, AcquireEvent::Ran(Ok((given, vec![output(0, "")]))), now, "")
            }
            AcquireAction::Spawn(node) => {
                connections += 1;
                done.push(node.proxycommand.unwrap());
                assert_eq!(node.port, None);
                acquisition.step_at(host, AcquireEvent::Spawned(Ok(connections)), now, "")
            }
            AcquireAction::Query(node, given, _) => {
                done.push(format!("query {} {}", node, given.envs.get("RUNAWAY_NODE_ID").unwrap()));
                let mut left = given;
                left.envs.insert("RUNAWAY_HANDLES".to_owned(), "first second".to_owned());
                acquisition.step_at(host, AcquireEvent::Ran(Ok((left, vec![output(0, "")]))), now, "")
            }
            other => return (done, other),
        };
    }
}

fn handle(action: AcquireAction) -> DropBack<Expire<NodeHandle>> {
    match action {
        AcquireAction::Return(Ok(handle)) => handle,
        _ => panic!("No handle"),
    }
}

fn env(handle: &DropBack<Expire<NodeHandle>>, key: &str) -> String {
    handle.get().get().context.envs.get(key).unwrap().clone()
}

fn host() -> Host {
    Host::from_conf(conf(), profile(), context(&[]))
}

#[test]
fn test_host_handles_envs() {
    let mut host = host();
    let mut got = vec![];
    let mut handles = vec![];
    for i in 0..4 {
        let mut acquisition = Acquisition::start();
        let (done, action) = drive(&mut host, &mut acquisition, at(1000));
        if i == 0 {
            assert_eq!(
                done,
                vec![
                    "start 1",
                    "ssh -A -l apere localhost -W localhost:22",
                    "ssh -A -l apere localhost -W localhost2:22",
                    "query 1 localhost",
                    "query 2 localhost2",
                ]
            );
        } else {
            assert!(done.is_empty());
        }
        let handle = handle(action);
        got.push((env(&handle, "RUNAWAY_NODE_ID"), env(&handle, "RUNAWAY_HANDLE_ID")));
        handles.push(handle);
    }
    let expected = [
        ("localhost", "first"),
        ("localhost", "second"),
        ("localhost2", "first"),
        ("localhost2", "second"),
    ];
    for (a, b) in got.iter().zip(expected.iter()) {
        assert_eq!((a.0.as_str(), a.1.as_str()), *b);
    }
    // Everything is given: the next one waits for a handle to be dropped.
    let mut acquisition = Acquisition::start();
    let action = acquisition.step_at(&mut host, AcquireEvent::Wake, at(1001), "");
    assert!(matches!(action, AcquireAction::Wait));
    host.provider.give_back(handles.remove(1));
    let action = acquisition.step_at(&mut host, AcquireEvent::Wake, at(1002), "");
    assert_eq!(env(&handle(action), "RUNAWAY_HANDLE_ID"), "second");
}

#[test]
fn mod_test_stress_host_resource() {
    let mut host = host();
    let mut starts = 0;
    let mut cancels = 0;
    for i in 0..199 {
        // Each user holds its handle for a while, and gives it back.
        let mut acquisition = Acquisition::start();
        let (done, action) = drive(&mut host, &mut acquisition, at(1000 + i * 7));
        starts += done.iter().filter(|d| d.starts_with("start")).count();
        cancels += done.iter().filter(|d| d.starts_with("cancel")).count();
        host.provider.give_back(handle(action));
    }
    assert!(starts > 1);
    // The last allocation is cancelled when the host closes.
    let (_, commands) = host.close().unwrap();
    assert_eq!(commands, conf().cancel_allocation);
    assert_eq!(starts, cancels + 1);
}

#[test]
fn allocations_that_fail_are_reported() {
    let fail = |raw: i32, left: TerminalContext| {
        let mut host = host();
        let mut acquisition = Acquisition::start();
        acquisition.step_at(&mut host, AcquireEvent::Wake, at(0), "");
        let ran = AcquireEvent::Ran(Ok((left, vec![output(raw, "out")])));
        match acquisition.step_at(&mut host, ran, at(0), "") {
            AcquireAction::Return(Err(e)) => e.message(),
            _ => panic!("No error"),
        }
    };
    assert_eq!(
        fail(256, context(&[])),
        "Failed to allocate: \nFailed to allocate on command \"export RUNAWAY_NODES='localhost localhost2'\": Failed execution(1)\nstdout: out\nstderr: "
    );
    assert_eq!(fail(0, context(&[])), "Failed to allocate: \nRUNAWAY_NODES was not set.");
    let mut host = host();
    let mut acquisition = Acquisition::start();
    acquisition.step_at(&mut host, AcquireEvent::Wake, at(0), "");
    match acquisition.step_at(&mut host, AcquireEvent::Ran(Err("broken".to_owned())), at(0), "") {
        AcquireAction::Return(Err(Error::AllocationFailed(text))) => {
            assert_eq!(text, "Failed to allocate: broken")
        }
        _ => panic!("No error"),
    }
}

#[test]
fn nodes_are_tried_ten_times() {
    let mut host = host();
    let mut acquisition = Acquisition::start();
    acquisition.step_at(&mut host, AcquireEvent::Wake, at(0), "");
    let left = context(&[("RUNAWAY_NODES", "n1 n2")]);
    let mut action =
        acquisition.step_at(&mut host, AcquireEvent::Ran(Ok((left, vec![output(0, "")]))), at(0), "");
    let mut tries = 0;
    let mut last = String::new();
    loop {
        action = match action {
            AcquireAction::Spawn(profile) => {
                tries += 1;
                last = profile.hostname.unwrap();
                let failed = AcquireEvent::Spawned(Err(format!("no {}", tries)));
                acquisition.step_at(&mut host, failed, at(0), "")
            }
            AcquireAction::Return(Err(Error::AllocationFailed(text))) => {
                // The first failure is the one that is reported.
                assert_eq!(text, "Failed to spawn node: no 10");
                break;
            }
            _ => panic!("Unexpected action"),
        };
    }
    assert_eq!(tries, 20);
    assert_eq!(last, "localhost::n2");
}

#[test]
fn handles_that_cannot_be_queried_are_reported() {
    let mut host = host();
    let mut acquisition = Acquisition::start();
    acquisition.step_at(&mut host, AcquireEvent::Wake, at(0), "");
    let left = context(&[("RUNAWAY_NODES", "n1")]);
    acquisition.step_at(&mut host, AcquireEvent::Ran(Ok((left, vec![output(0, "")]))), at(0), "");
    acquisition.step_at(&mut host, AcquireEvent::Spawned(Ok(1)), at(0), "");
    let ran = AcquireEvent::Ran(Ok((context(&[]), vec![output(0, "")])));
    match acquisition.step_at(&mut host, ran, at(0), "") {
        AcquireAction::Return(Err(Error::AllocationFailed(text))) => {
            assert_eq!(text, "RUNAWAY_HANDLES was not set.")
        }
        _ => panic!("No error"),
    }
}

#[test]
fn no_handle_after_abort() {
    let mut host = host();
    let (task, action) = HostTask::start(OperationInput::Abort, &mut host, at(0));
    assert!(matches!(task, HostTask::Over));
    match action {
        HostAction::Answer(answer) => assert!(abort_reply(Ok(answer), "").is_ok()),
        _ => panic!("No answer"),
    }
    for _ in 0..3 {
        let (_, action) = HostTask::start(OperationInput::AcquireNode, &mut host, at(0));
        let error = match action {
            HostAction::Answer(answer) => acquire_reply(Ok(answer)).err().unwrap(),
            _ => panic!("No answer"),
        };
        assert_eq!(
            error.message(),
            "Failed to allocate: \nFailed to acquire node: Provider was closed"
        );
    }
}

#[test]
fn shutdown_cancels_the_allocation() {
    let mut host = host();
    let (task, action) = HostTask::start(OperationInput::Shutdown, &mut host, at(0));
    let given = match action {
        HostAction::Cancel(given, commands) => {
            assert_eq!(commands, conf().cancel_allocation);
            given
        }
        _ => panic!("No cancellation"),
    };
    let event = HostEvent::Cancelled(Ok((given, vec![output(256, "no")])));
    let (_, action) = task.step(&mut host, event, at(0), "");
    match action {
        HostAction::Answer(answer) => assert_eq!(
            shutdown_reply(Ok(answer), "").unwrap_err().message(),
            "Failed to allocate: \nCancel allocation command failed: Failed execution(1)\nstdout: no\nstderr: "
        ),
        _ => panic!("No answer"),
    }
}

#[test]
fn answers_to_other_operations_are_refused() {
    let answer = || OperationOutput::Shutdown(Ok(()));
    assert_eq!(
        acquire_reply(Ok(answer())).err().unwrap().message(),
        "Failed to fetch an operation: \nExpected AcquireNode, found Shutdown(Ok(()))"
    );
    assert_eq!(
        abort_reply(Ok(answer()), "").unwrap_err().message(),
        "Failed to fetch an operation: \nExpected Abort, found Shutdown(Ok(()))"
    );
    assert_eq!(
        shutdown_reply(Err("canceled".to_owned()), "").unwrap_err().message(),
        "Failed to fetch an operation: \ncanceled"
    );
}

#[test]
fn host_errors_have_texts() {
    assert_eq!(Error::Aborted.message(), "Execution Aborted.");
    assert_eq!(Error::Shutdown.message(), "Host Shutdown.");
    assert_eq!(
        Error::Ssh(liborchestra::ssh::Error::WouldBlock).message(),
        "An ssh-related error occurred: \nBlocking operation."
    );
    assert_eq!(Error::Channel("x".to_owned()).message(), "A channel related error occurred: \n x");
}

fn ready(pulled: Pulled<u64>) -> DropBack<Expire<u64>> {
    match pulled {
        Pulled::Ready(handle) => handle,
        _ => panic!("Not ready"),
    }
}

fn failed(pulled: Pulled<u64>) -> String {
    match pulled {
        Pulled::Failed(e) => e.message(),
        _ => panic!("Did not fail"),
    }
}

#[test]
fn provider_lifecycle() {
    let mut provider: Provider<u64> = Provider::new();
    assert_eq!(failed(provider.pull_at(at(0))), "Provider is new !");
    assert_eq!(failed(provider.pull_at(at(0))), "Provider is new !");
    assert!(matches!(provider.push(vec![1, 2], at(100), ""), Pushed::Done));
    let first = ready(provider.pull_at(at(10)));
    assert_eq!(*first.get().get(), 1);
    // A push is refused while handles are queued, and waits while they are held.
    match provider.push(vec![3], at(100), "2") {
        Pushed::Failed(ProviderError::UnexpectedMessage(text)) => assert_eq!(text, "Some(Handle(DropBack<Some(2)>))"),
        _ => panic!("Pushed"),
    }
    let mut second = ready(provider.pull_at(at(20)));
    assert!(matches!(provider.push(vec![3], at(100), ""), Pushed::Pending(h) if h == vec![3]));
    assert!(matches!(provider.pull_at(at(30)), Pulled::Pending));
    // What is dropped comes back, what is consumed does not.
    provider.give_back(first);
    second.consume();
    provider.give_back(second);
    let first = ready(provider.pull_at(at(100)));
    provider.give_back(first);
    // What has expired is gone.
    assert_eq!(failed(provider.pull_at(at(101))), "Provider is empty");
    assert!(matches!(provider.push(vec![4], at(200), ""), Pushed::Done));
    assert_eq!(*ready(provider.pull_at(at(150))).get().get(), 4);
}

#[test]
fn first_handle_of_the_provider() {
    let mut provider: Provider<u64> = Provider::new();
    assert!(provider.first().is_none());
    provider.push(vec![5, 6], at(100), "");
    assert_eq!(provider.first().unwrap().inner, 5);
    let held = ready(provider.pull_at(at(0)));
    assert_eq!(provider.first().unwrap().inner, 6);
    provider.give_back(held);
    // A handle that is no longer held by anyone does not come back twice.
    provider.give_back(DropBack::new(Expire::new(7, at(100))));
    assert_eq!(*ready(provider.pull_at(at(1))).get().get(), 6);
    assert_eq!(*ready(provider.pull_at(at(1))).get().get(), 5);
}

#[test]
fn provider_that_is_shut_gives_nothing() {
    let mut provider: Provider<u64> = Provider::new();
    provider.push(vec![1, 2, 3], at(100), "");
    let held = ready(provider.pull_at(at(0)));
    provider.shutdown();
    assert_eq!(failed(provider.pull_at(at(0))), "Provider was closed");
    match provider.push(vec![3], at(100), "2") {
        Pushed::Failed(e) => assert_eq!(
            e.message(),
            "Provider encountered an unexpected message.\nSome(ToConsume(DropBack<Some(2)>))"
        ),
        _ => panic!("Pushed"),
    }
    assert!(!provider.collect());
    assert!(matches!(provider.pull_at(at(0)), Pulled::Pending));
    provider.give_back(held);
    assert!(provider.collect());
    assert_eq!(failed(provider.pull()), "Provider was closed");
    assert!(matches!(
        provider.push(vec![3], at(100), ""),
        Pushed::Failed(ProviderError::UnexpectedMessage(_))
    ));
}

fn cluster_conf() -> cluster::HostConf {
    cluster::HostConf {
        name: "localhost".to_owned(),
        ssh_config: "localhost".to_owned(),
        node_proxy_command: "ssh -A -l apere localhost -W $NODENAME:22".to_owned(),
        start_alloc: vec!["".to_owned()],
        get_alloc_nodes: vec!["echo localhost".to_owned()],
        cancel_alloc: vec!["".to_owned()],
        alloc_duration: 1,
        executions_per_nodes: vec!["echo 16".to_owned()],
        before_execution: vec!["".to_owned()],
        execution: "$RUNAWAY_COMMAND".to_owned(),
        after_execution: vec!["".to_owned()],
        directory: "/projets/flowers/alex/executions".to_owned(),
    }
}

/// A configuration that tells the allocations and the slots apart.
fn numbered_conf() -> cluster::HostConf {
    let mut conf = cluster_conf();
    conf.cancel_alloc = vec!["scancel -j $ALLOCRET".to_owned()];
    conf.execution = "$RUNAWAY_COMMAND $RUNAWAY_EID".to_owned();
    conf
}

#[test]
fn hosts_test_host_conf() {
    let conf = cluster::HostConf {
        name: "plafrim-court".to_owned(),
        ssh_config: "plafrim-ext".to_owned(),
        node_proxy_command: "ssh -A -l apere plafrim-ext -W $NODENAME:22".to_owned(),
        start_alloc: vec!["module load slurm".to_owned(), "(salloc -N10 -p court --no-shell 2>&1 | sed -e 's/salloc: Granted job allocation //\')".to_owned()],
        get_alloc_nodes: vec!["while read LINE; do scontrol show hostnames \"$LINE\"; done <<< $(squeue -j $ALLOCRET -o \"%N\" | sed '1d' -E)".to_owned()],
        cancel_alloc: vec!["scancel -j $ALLOCRET".to_owned()],
        alloc_duration: 10000,
        executions_per_nodes: vec!["echo 16".to_owned()],
        before_execution: vec!["".to_owned()],
        execution: "$RUNAWAY_COMMAND".to_owned(),
        after_execution: vec!["".to_owned()],
        directory: "/projets/flowers/alex/executions".to_owned(),
    };
    assert!(conf.to_file("/tmp/test_host.yml", Stored::Done).is_ok());
    assert_eq!(
        conf.start_alloc(),
        "module load slurm && (salloc -N10 -p court --no-shell 2>&1 | sed -e 's/salloc: Granted job allocation //')"
    );
    assert_eq!(conf.cancel_alloc(), "scancel -j $ALLOCRET");
    assert_eq!(conf.executions_per_nodes(), "echo 16");
    assert_eq!(conf.before_execution(), "");
    assert_eq!(conf.execution(), "$RUNAWAY_COMMAND");
    assert_eq!(conf.after_execution(), "");
    assert_eq!(conf.get_name(), "plafrim-court");
}

#[test]
fn hosts_test_host_conf_from_file() {
    let config = cluster::HostConf::from_file("/tmp/test_host.yml", Loaded::Value(cluster_conf()));
    assert_eq!(config.unwrap().alloc_duration, 1);
    assert_eq!(
        cluster::HostConf::from_file("/tmp/x.yml", Loaded::Unopened).err().unwrap().message(),
        "An error occurred while reading the host: \nFailed to open host configuration file /tmp/x.yml"
    );
}

#[test]
fn variables_are_substituted() {
    let mut vars = cluster::EnvironmentVariables::new();
    assert_eq!(vars.insert("$ALLOCRET".to_owned(), "12".to_owned()), None);
    assert_eq!(vars.substitute("scancel -j $ALLOCRET"), "scancel -j 12");
    assert_eq!(vars.insert("$ALLOCRET".to_owned(), "13".to_owned()), Some("12".to_owned()));
    assert_eq!(vars.substitute("$ALLOCRET $ALLOCRET"), "13 13");
    vars.clear();
    assert_eq!(vars.substitute("$ALLOCRET"), "$ALLOCRET");
}

fn executed(raw: i32, stdout: &str) -> cluster::Executed {
    Ok((output(raw, stdout), format!("Output({})", raw)))
}

/// Executes the commands that an acquisition asks for, all of which succeed.
fn drive_cluster(host: &mut cluster::Host, now: Timestamp) -> (Vec<String>, cluster::AcquireAction) {
    go_on_cluster(host, cluster::Acquisition::start(), cluster::AcquireEvent::Wake, now)
}

/// Goes on with an acquisition, after an event.
fn go_on_cluster(
    host: &mut cluster::Host,
    mut acquisition: cluster::Acquisition,
    mut event: cluster::AcquireEvent,
    now: Timestamp,
) -> (Vec<String>, cluster::AcquireAction) {
    let mut done = vec![];
    loop {
        event = match acquisition.step_at(host, event, now) {
            cluster::AcquireAction::Start(_) => {
                done.push("start".to_owned());
                cluster::AcquireEvent::Executed(executed(0, "12\n"))
            }
            cluster::AcquireAction::Nodes(command) => {
                done.push(command);
                cluster::AcquireEvent::Executed(executed(0, "localhost\n"))
            }
            cluster::AcquireAction::Profile(name) => {
                assert_eq!(name, "localhost");
                cluster::AcquireEvent::Profile(Ok(profile()))
            }
            cluster::AcquireAction::Connect(node) => {
                done.push(node.proxycommand.unwrap());
                assert_eq!(node.hostname.unwrap(), "localhost::localhost");
                cluster::AcquireEvent::Connected(Some(7))
            }
            cluster::AcquireAction::Count(node, command) => {
                assert_eq!((node, command.as_str()), (7, "echo 16"));
                cluster::AcquireEvent::Executed(executed(0, "16\n"))
            }
            cluster::AcquireAction::Cancel(command) => {
                done.push(command);
                cluster::AcquireEvent::Executed(executed(0, ""))
            }
            other => return (done, other),
        };
    }
}

fn slot(action: cluster::AcquireAction) -> DropBack<Expire<cluster::NodeHandle>> {
    match action {
        cluster::AcquireAction::Return(Ok(slot)) => slot,
        _ => panic!("No slot"),
    }
}

#[test]
fn test_host_resource() {
    let mut host = cluster::Host::from_conf(cluster_conf());
    let (_, action) = drive_cluster(&mut host, at(0));
    let conn1 = slot(action);
    assert_eq!(conn1.get().get().execution, "$RUNAWAY_COMMAND");
    host.chan.give_back(conn1);
    let (_, action) = drive_cluster(&mut host, at(1));
    let conn2 = slot(action);
    let (_, action) = drive_cluster(&mut host, at(1));
    let conn3 = slot(action);
    host.chan.give_back(conn2);
    host.chan.give_back(conn3);
    let (_, action) = drive_cluster(&mut host, at(3));
    let conn4 = slot(action);
    // The slot has expired when it is dropped, and a new allocation is made.
    host.chan.give_back(conn4);
    let (done, action) = drive_cluster(&mut host, at(63));
    assert_eq!(
        done,
        vec!["", "start", "echo localhost", "ssh -A -l apere localhost -W localhost:22"]
    );
    assert_eq!(slot(action).get().get().execution, "$RUNAWAY_COMMAND");
}

#[test]
fn slots_are_numbered_and_allocations_are_cancelled() {
    let mut host = cluster::Host::from_conf(numbered_conf());
    let (done, action) = drive_cluster(&mut host, at(0));
    assert_eq!(
        done,
        vec!["start", "echo localhost", "ssh -A -l apere localhost -W localhost:22"]
    );
    let first = slot(action);
    assert_eq!(first.get().get().execution, "$RUNAWAY_COMMAND 1");
    // There are sixteen slots on the node.
    let mut slots = vec![];
    for i in 2..17 {
        let (done, action) = drive_cluster(&mut host, at(1));
        assert!(done.is_empty());
        let slot = slot(action);
        assert_eq!(slot.get().get().execution, format!("$RUNAWAY_COMMAND {}", i));
        slots.push(slot);
    }
    let (_, action) = drive_cluster(&mut host, at(2));
    assert!(matches!(action, cluster::AcquireAction::Wait));
    host.chan.give_back(first);
    let (_, action) = drive_cluster(&mut host, at(3));
    slots.push(slot(action));
    // When all slots came back and have expired, a new allocation is made.
    for slot in slots {
        host.chan.give_back(slot);
    }
    let (done, action) = drive_cluster(&mut host, at(61));
    assert_eq!(
        done,
        vec!["scancel -j 12", "start", "echo localhost", "ssh -A -l apere localhost -W localhost:22"]
    );
    host.chan.give_back(slot(action));
    match host.drain() {
        cluster::Drained::Cancel(command) => assert_eq!(command, "scancel -j 12"),
        _ => panic!("Not cancelled"),
    }
}

#[test]
fn cluster_that_is_aborted_or_shut_gives_no_slots() {
    let mut host = cluster::Host::from_conf(numbered_conf());
    let (_, action) = drive_cluster(&mut host, at(0));
    let held = slot(action);
    host.abort().unwrap();
    for _ in 0..3 {
        let (_, action) = drive_cluster(&mut host, at(1));
        assert!(matches!(action, cluster::AcquireAction::Return(Err(Error::Aborted))));
    }
    assert!(matches!(host.drain(), cluster::Drained::Wait));
    host.chan.give_back(held);
    assert!(matches!(host.drain(), cluster::Drained::Cancel(_)));
    let mut host = cluster::Host::from_conf(numbered_conf());
    let (task, action) =
        cluster::HostTask::start(cluster::OperationInput::Shutdown, &mut host, at(0));
    assert!(matches!(action, cluster::HostAction::Cancel(c) if c == "scancel -j $ALLOCRET"));
    let (_, action) =
        task.step(&mut host, cluster::HostEvent::Cancelled(executed(0, "")), at(0));
    match action {
        cluster::HostAction::Answer(answer) => assert!(cluster::shutdown_reply(Ok(answer), "").is_ok()),
        _ => panic!("No answer"),
    }
    for _ in 0..3 {
        let (_, action) = drive_cluster(&mut host, at(1));
        assert!(matches!(action, cluster::AcquireAction::Return(Err(Error::Shutdown))));
    }
    assert!(matches!(host.drain(), cluster::Drained::Done));
}

#[test]
fn closing_waits_for_every_slot() {
    let mut host = cluster::Host::from_conf(numbered_conf());
    let mut slots = vec![];
    for _ in 0..2 {
        let (_, action) = drive_cluster(&mut host, at(0));
        slots.push(slot(action));
    }
    for left in [1, 0] {
        for _ in 0..3 {
            assert!(matches!(host.drain(), cluster::Drained::Wait));
            assert_eq!((host.chan.held, host.chan.queue.len()), (left + 1, 0));
        }
        host.chan.give_back(slots.pop().unwrap());
    }
    assert!(matches!(host.drain(), cluster::Drained::Cancel(c) if c == "scancel -j 12"));
    assert_eq!(host.chan.phase, cluster::Phase::Allocating);
    // A host on which no allocation was made.
    let mut host = cluster::Host::from_conf(numbered_conf());
    host.abort().unwrap();
    assert!(matches!(host.drain(), cluster::Drained::Cancel(_)));
    assert!(!host.chan.aborted);
    assert_eq!(host.chan.phase, cluster::Phase::Allocating);
}

#[test]
fn cluster_that_is_aborted_while_it_allocates_gives_no_slots() {
    let mut host = cluster::Host::from_conf(numbered_conf());
    let mut acquisition = cluster::Acquisition::start();
    let action = acquisition.step_at(&mut host, cluster::AcquireEvent::Wake, at(0));
    assert!(matches!(action, cluster::AcquireAction::Start(_)));
    host.abort().unwrap();
    let event = cluster::AcquireEvent::Executed(executed(0, "12\n"));
    let (_, action) = go_on_cluster(&mut host, acquisition, event, at(0));
    assert!(matches!(action, cluster::AcquireAction::Return(Err(Error::Aborted))));
    let (_, action) = drive_cluster(&mut host, at(1));
    assert!(matches!(action, cluster::AcquireAction::Return(Err(Error::Aborted))));
    // The allocation that was made is cancelled at the end.
    assert!(matches!(host.drain(), cluster::Drained::Cancel(c) if c == "scancel -j 12"));
}

#[test]
fn cluster_that_is_shut_while_it_allocates_gives_no_slots() {
    let mut host = cluster::Host::from_conf(numbered_conf());
    let mut acquisition = cluster::Acquisition::start();
    acquisition.step_at(&mut host, cluster::AcquireEvent::Wake, at(0));
    let (task, _) = cluster::HostTask::start(cluster::OperationInput::Shutdown, &mut host, at(0));
    task.step(&mut host, cluster::HostEvent::Cancelled(executed(0, "")), at(0));
    let event = cluster::AcquireEvent::Executed(executed(0, "12\n"));
    let (_, action) = go_on_cluster(&mut host, acquisition, event, at(0));
    assert!(matches!(action, cluster::AcquireAction::Return(Err(Error::Shutdown))));
    let (_, action) = drive_cluster(&mut host, at(1));
    assert!(matches!(action, cluster::AcquireAction::Return(Err(Error::Shutdown))));
    assert!(matches!(host.drain(), cluster::Drained::Cancel(c) if c == "scancel -j 12"));
}

#[test]
fn answers_show_what_was_acquired() {
    let mut host = cluster::Host::from_conf(numbered_conf());
    let (_, action) = drive_cluster(&mut host, at(0));
    let acquired = slot(action);
    let shown = acquired.show(&acquired.get().show("NodeHandle").unwrap());
    assert_eq!(shown, "DropBack<Some(Expire[@1970-01-01T00:01:00+00:00]<NodeHandle>)>");
    let answer = cluster::OperationOutput::AcquireNode(Ok(acquired));
    assert_eq!(
        cluster::abort_reply(Ok(answer), &shown).unwrap_err().message(),
        format!("Failed to fetch an operation: \nExpected Abort, found AcquireNode(Ok({}))", shown)
    );
    let mut consumed: DropBack<Expire<u64>> = DropBack::new(Expire::new(1, at(i64::MAX)));
    assert_eq!(consumed.get().show("1"), None);
    consumed.consume();
    assert_eq!(consumed.show(""), "DropBack<None>");
}

#[test]
fn cluster_failures_are_reported() {
    let start = || {
        let mut host = cluster::Host::from_conf(numbered_conf());
        let mut acquisition = cluster::Acquisition::start();
        acquisition.step_at(&mut host, cluster::AcquireEvent::Wake, at(0));
        (host, acquisition)
    };
    let text = |action: cluster::AcquireAction| match action {
        cluster::AcquireAction::Return(Err(e)) => e.message(),
        _ => panic!("No error"),
    };
    let (mut host, mut acquisition) = start();
    let event = cluster::AcquireEvent::Executed(executed(256, ""));
    assert_eq!(
        text(acquisition.step_at(&mut host, event, at(0))),
        "Failed to allocate: \nFailed to obtain allocation on profile localhost: Output(256)"
    );
    let (mut host, mut acquisition) = start();
    acquisition.step_at(&mut host, cluster::AcquireEvent::Executed(executed(0, "1")), at(0));
    let event = cluster::AcquireEvent::Executed(Err("gone".to_owned()));
    assert_eq!(
        text(acquisition.step_at(&mut host, event, at(0))),
        "Failed to allocate: \nFailed to get nodes: gone"
    );
    let (mut host, mut acquisition) = start();
    acquisition.step_at(&mut host, cluster::AcquireEvent::Executed(executed(0, "1")), at(0));
    acquisition.step_at(&mut host, cluster::AcquireEvent::Executed(executed(0, "n")), at(0));
    acquisition.step_at(&mut host, cluster::AcquireEvent::Profile(Ok(profile())), at(0));
    for i in 1..10 {
        let action = acquisition.step_at(&mut host, cluster::AcquireEvent::Connected(None), at(0));
        if i < 9 {
            assert!(matches!(action, cluster::AcquireAction::Retry(_)));
        } else {
            assert_eq!(text(action), "Failed to connect to nodes: \nFailed to connect nodes");
        }
    }
    // While an allocation is going on, the others sleep.
    let (mut host, _) = start();
    let (_, action) = drive_cluster(&mut host, at(0));
    assert!(matches!(action, cluster::AcquireAction::Sleep));
}
