use liborchestra::commons::{ExitStatus, Output};
use liborchestra::run::{
    Error, HostProfile, ImportError, LeaveConfig, ProfileFields, Run, RunAction, RunConfig,
    RunEvent, RunStage,
};

const LOCALHOST: &str = "ssh_config: localhost
host_directory: ~/
before_execution:
  - echo Preparing Execution
  - echo Executed on $HOSTNAME
execution:
  - echo Starting Execution
  - ./$SCRIPT_NAME $SCRIPT_ARGS
after_execution:
  - echo Cleaning Execution
";

const EMPTY_SECTION: &str = "ssh_config: localhost
host_directory: ~/
before_execution:
execution:
  - echo Starting Execution
  - ./$SCRIPT_NAME $SCRIPT_ARGS
after_execution:
  - echo Cleaning Execution
";

fn import(file_name: &str, text: &str) -> HostProfile {
    HostProfile::import(file_name, text).unwrap().unwrap()
}

fn output(raw: i32, stdout: &str) -> Output {
    Output { status: ExitStatus::from_raw(raw), stdout: stdout.as_bytes().to_vec(), stderr: vec![] }
}

#[test]
fn test_host_profile_import() {
    let a = import("localhost.yml", LOCALHOST);
    assert_eq!(a.name, "localhost");
    assert_eq!(a.ssh_config, "localhost");
    assert_eq!(a.host_directory, "~/");
    assert_eq!(a.before_execution, vec!["echo Preparing Execution", "echo Executed on $HOSTNAME"]);
    assert_eq!(a.execution, vec!["echo Starting Execution", "./$SCRIPT_NAME $SCRIPT_ARGS"]);
    assert_eq!(a.after_execution, vec!["echo Cleaning Execution"]);

    let a = import("emptysection.yml", EMPTY_SECTION);
    assert_eq!(a.name, "emptysection");
    assert_eq!(a.ssh_config, "localhost");
    assert_eq!(a.host_directory, "~/");
    let empty_vec: Vec<String> = Vec::new();
    assert_eq!(a.before_execution, empty_vec);
    assert_eq!(a.execution, vec!["echo Starting Execution", "./$SCRIPT_NAME $SCRIPT_ARGS"]);
    assert_eq!(a.after_execution, vec!["echo Cleaning Execution"]);
}

#[test]
fn profiles_that_cannot_be_imported() {
    assert!(matches!(HostProfile::import("a.yml", "a: ["), Err(ImportError::Scan(_))));
    assert!(matches!(HostProfile::import("a.yml", ""), Ok(None)));
    let numbers = LOCALHOST.replace("echo Cleaning Execution", "12");
    assert!(matches!(HostProfile::import("a.yml", &numbers), Ok(None)));
    for key in ["ssh_config", "host_directory", "execution"] {
        let text = LOCALHOST.replace(&format!("\n{}:", key), "\nother:");
        let text = if key == "ssh_config" { text.replace("ssh_config:", "other:") } else { text };
        assert!(matches!(
            HostProfile::import("a.yml", &text),
            Err(ImportError::Profile(Error::ProfileError))
        ));
    }
    assert_eq!(Error::ProfileError.message(), "The profile is ill formed");
    assert_eq!(Error::Unknown.message(), "Unknown error occured");
}

#[test]
fn profiles_out_of_fields() {
    let fields = ProfileFields {
        ssh_config: Some("plafrim".to_owned()),
        host_directory: Some("/runs".to_owned()),
        before_execution: None,
        execution: Some(vec![Some("./$SCRIPT_NAME".to_owned())]),
        after_execution: None,
    };
    let a = HostProfile::from_fields("plafrim.yml", fields).unwrap();
    assert_eq!(a.get_ssh_config(), "plafrim");
    assert_eq!(a.get_host_directory(), "/runs");
    assert_eq!(a.get_complete_execution_string(), "./$SCRIPT_NAME");
    assert!(a.after_execution.is_empty());
}

#[test]
fn test_host_profile_get_complete_execution_string() {
    let a = import("localhost.yml", LOCALHOST);
    assert_eq!(
        a.get_complete_execution_string(),
        "echo Preparing Execution && echo Executed on $HOSTNAME && \
        echo Starting Execution && ./$SCRIPT_NAME $SCRIPT_ARGS && echo Cleaning Execution"
    );
}

/// Executes a configuration: the code is on the remote already or not, and everything goes well.
fn execute(leave: LeaveConfig, present: bool) -> (Run, Vec<String>, Output) {
    let runconf = RunConfig {
        script_path: "/tests/runconfig_execute/run".to_owned(),
        parameters: "".to_owned(),
        profile: "localhost".to_owned(),
    };
    assert_eq!(runconf.profile_path("/home/apere"), "/home/apere/.runaway/localhost.yml");
    let (mut run, mut action) = runconf.execute(
        import("localhost.yml", LOCALHOST),
        "/tests/runconfig_execute/run",
        "0a1b".to_owned(),
        leave,
        true,
    );
    let mut done = vec![];
    loop {
        let event = match action {
            RunAction::Execute(command, captured) => {
                done.push(command.clone());
                if command == "mkdir ~/0a1b" && present {
                    RunEvent::Executed(Err("File exists".to_owned()))
                } else {
                    RunEvent::Executed(Ok(output(0, if captured { "done\n" } else { "" })))
                }
            }
            RunAction::Send(from, to) => {
                done.push(format!("send {} {}", from, to));
                RunEvent::Done(Ok(()))
            }
            RunAction::Fetch(to, from) => {
                done.push(format!("fetch {} {}", to, from));
                RunEvent::Done(Ok(()))
            }
            RunAction::Unpack(archive) => {
                done.push(format!("unpack {}", archive));
                RunEvent::Done(Ok(()))
            }
            RunAction::Return(result) => return (run, done, result.unwrap()),
        };
        action = run.step(event);
    }
}

#[test]
fn test_runconfig_execute() {
    let (run, done, output) = execute(LeaveConfig::Everything, false);
    let id = run.id.show();
    assert_eq!(
        done,
        vec![
            "mkdir ~/0a1b".to_owned(),
            "send /tests/runconfig_execute/.send.tar ~/0a1b".to_owned(),
            format!("mkdir ~/0a1b/{0} && cd ~/0a1b/{0} && tar -xf ~/0a1b/.send.tar -C ~/0a1b/{0} && echo Preparing Execution && echo Executed on $HOSTNAME && echo Starting Execution && ./run  && echo Cleaning Execution && tar -cf ~/0a1b/{0}/.fetch.tar -X ~/0a1b/{0}/.fetchignore *", id),
            format!("fetch /tests/runconfig_execute/.fetch.tar ~/0a1b/{}/.fetch.tar", id),
            "unpack /tests/runconfig_execute/.fetch.tar".to_owned(),
        ]
    );
    assert_eq!(output.status.code().unwrap(), 0);
    assert_eq!(output.stdout, b"done\n");
}

#[test]
fn only_what_is_asked_for_is_left() {
    let (_, done, _) = execute(LeaveConfig::Nothing, false);
    assert_eq!(done.last().unwrap(), "rm -rf ~/0a1b");
    // Code that is on the remote already is not sent again.
    let (run, done, output) = execute(LeaveConfig::Code, true);
    assert!(!done.iter().any(|d| d.starts_with("send")));
    assert_eq!(done.last().unwrap(), &format!("rm -rf ~/0a1b/{}", run.id.show()));
    assert_eq!(output.stdout, b"done\n");
    // Each run has its own folder.
    let (other, _, _) = execute(LeaveConfig::Code, true);
    assert_ne!(run.id.show(), other.id.show());
}

#[test]
fn failures_end_a_run() {
    for stage in
        [RunStage::Send, RunStage::Execute, RunStage::Fetch, RunStage::Unpack, RunStage::Clean]
    {
        let (mut run, _, _) = execute(LeaveConfig::Nothing, false);
        run.stage = stage;
        let event = match stage {
            RunStage::Execute | RunStage::Clean => RunEvent::Executed(Err("x".to_owned())),
            _ => RunEvent::Done(Err("x".to_owned())),
        };
        match run.step(event) {
            RunAction::Return(Err(reason)) => assert_eq!(reason, "x"),
            _ => panic!("Did not fail"),
        }
        assert_eq!(run.stage, RunStage::Over);
    }
}
