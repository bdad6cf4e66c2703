use liborchestra::application::job::{
    archive_hash, feature_lines, pack_folder, Job, JobAction, JobEvent,
};
use liborchestra::application::{
    activate_rescheduling_reply, post_process_exec_reply, register_host_reply, submit_exec_reply,
    unregister_host_reply, Application, Error, HostEntry, OperationInput, OperationOutput,
};
use liborchestra::commons::{ExitStatus, Output};
use liborchestra::primitives::Timestamp;
use liborchestra::repository::campaign::{Campaign, CreateExecution};
use liborchestra::repository::{
    CampaignConf, ExecutionConf, ExecutionId, ExecutionParameters, ExecutionState, ExecutionTag,
    ExperimentCommit,
};

const COMMIT: &str = "1f0a3b5c7d9e1f0a3b5c7d9e1f0a3b5c7d9e1f0a";

fn at(secs: i64) -> Timestamp {
    Timestamp { secs, nanos: 0 }
}

fn host(name: &str) -> HostEntry {
    HostEntry { handle: 1, name: name.to_owned(), directory: "/home/apere/Executions".to_owned() }
}

fn output(raw: i32, stdout: &str) -> Output {
    Output { status: ExitStatus::from_raw(raw), stdout: stdout.as_bytes().to_vec(), stderr: vec![] }
}

fn submission(host: &str) -> OperationInput {
    OperationInput::SubmitExec(
        ExperimentCommit(COMMIT.to_owned()),
        ExecutionParameters("10".to_owned()),
        vec![ExecutionTag("t".to_owned())],
        host.to_owned(),
    )
}

fn application() -> Application {
    let mut app = Application::new();
    let (answer, job) = app.perform(OperationInput::RegisterHost(host("localhost")));
    register_host_reply(Ok(answer)).unwrap();
    assert!(job.is_none());
    app
}

/// What happens to a job: the answers to a few of its actions.
struct World {
    /// Whether the data is on the host already.
    present: bool,
    /// The command that fails, if one does.
    failing: Option<&'static str>,
    features: Option<&'static str>,
}

/// Runs a job: what was done, and the execution at the end.
fn run(job: &mut Job, world: World) -> (Vec<String>, Option<ExecutionConf>) {
    let campaign = Campaign::from(CampaignConf::new("/cmp", "1"), vec![]);
    let mut done = vec![];
    let mut conf: Option<ExecutionConf> = None;
    let mut action = match job.start() {
        Ok(action) => action,
        Err(id) => {
            done.push(format!("delete {}", id.show()));
            job.step(JobEvent::Deleted(true), at(0))
        }
    };
    loop {
        let event = match action {
            JobAction::Create(commit, parameters, tags) => {
                let create =
                    CreateExecution::start(&campaign, commit, parameters, tags, "me".to_owned());
                conf = Some(create.conf.clone());
                JobEvent::Execution(Ok(create.conf))
            }
            JobAction::Update(id, update) => {
                let updated = update.apply(conf.take().unwrap());
                assert_eq!(updated.identifier, id);
                conf = Some(updated.clone());
                JobEvent::Execution(Ok(updated))
            }
            JobAction::Pack(folder) => {
                done.push(format!("pack {}", folder));
                JobEvent::Packed(Ok(archive_hash(&b"hello".to_vec())))
            }
            JobAction::Acquire => JobEvent::Done(Ok(())),
            JobAction::Exec(command) => {
                done.push(command.clone());
                if command.starts_with("ls ") {
                    JobEvent::Executed(Ok(output(if world.present { 0 } else { 256 }, "")))
                } else if world.failing.map(|f| command.contains(f)).unwrap_or(false) {
                    JobEvent::Executed(Ok(output(256, "bad")))
                } else {
                    JobEvent::Executed(Ok(output(0, "fine")))
                }
            }
            JobAction::Send(from, to) => {
                done.push(format!("send {} {}", from, to));
                JobEvent::Done(Ok(()))
            }
            JobAction::Fetch(from, to) => {
                done.push(format!("fetch {} {}", from, to));
                JobEvent::Done(Ok(()))
            }
            JobAction::Unpack(_) => JobEvent::Unpacked,
            JobAction::ReadFeatures(_) => {
                JobEvent::Features(world.features.map(|f| Ok(f.to_owned())))
            }
            JobAction::ParseFeatures(lines) => {
                let parsed: Result<Vec<u64>, String> = lines
                    .iter()
                    .map(|l| l.parse::<f64>().map(|f| f.to_bits()).map_err(|e| e.to_string()))
                    .collect();
                JobEvent::Parsed(parsed)
            }
            JobAction::Finish(_) => {
                let mut finished = conf.take().unwrap();
                finished.state = ExecutionState::Completed;
                conf = Some(finished.clone());
                JobEvent::Execution(Ok(finished))
            }
            JobAction::PostProcess(exec) => {
                done.push("post-process".to_owned());
                conf = Some(exec);
                JobEvent::PostProcessed
            }
            JobAction::Stop => return (done, conf),
        };
        action = job.step(event, at(100));
    }
}

#[test]
fn test_perform_new_execution() {
    let mut app = application();
    let (answer, job) = app.perform(submission("localhost"));
    submit_exec_reply(Ok(answer)).unwrap();
    let world = World { present: false, failing: None, features: Some("\n1.5\n2\n") };
    let (done, conf) = run(&mut job.unwrap(), world);
    let conf = conf.unwrap();
    let dir = "/home/apere/Executions/2794345569481354659";
    let defl = format!("{}/{}", dir, conf.identifier.show());
    assert_eq!(
        done,
        vec![
            format!("pack {}", conf.get_path()),
            format!("ls {}", dir),
            format!("mkdir {}", dir),
            format!("send {}/.send.tar {}/.send.tar", conf.get_path(), dir),
            format!("mkdir {}", defl),
            format!("tar -xf {}/.send.tar -C {}", dir, defl),
            format!("cd {} && ./run 10", defl),
            format!("cd {0} && (tar -cf {0}/.fetch.tar -X {0}/.fetchignore * || tar -cf {0}/.fetch.tar *)", defl),
            format!("fetch {}/.fetch.tar {}/.fetch.tar", defl, conf.get_path()),
            "post-process".to_owned(),
        ]
    );
    assert_eq!(conf.state, ExecutionState::Completed);
    assert_eq!(conf.executor.as_ref().unwrap(), "localhost");
    assert_eq!(conf.execution_stdout.as_ref().unwrap(), "fine");
    assert_eq!(conf.execution_exit_code, Some(0));
    assert_eq!(conf.execution_features, Some(vec![1.5f64.to_bits(), 2.0f64.to_bits()]));
    assert_eq!(conf.execution_beginning_date, Some(at(100)));
    // It completed: nothing is scheduled again.
    app.perform(OperationInput::ActivateRescheduling);
    let (answer, job) = app.perform(OperationInput::PostProcessExec(conf));
    post_process_exec_reply(Ok(answer)).unwrap();
    assert!(job.is_none());
}

#[test]
fn data_is_not_sent_twice() {
    let mut app = application();
    let (_, job) = app.perform(submission("localhost"));
    let world = World { present: true, failing: None, features: None };
    let (done, conf) = run(&mut job.unwrap(), world);
    assert!(!done.iter().any(|d| d.starts_with("send")));
    assert_eq!(conf.unwrap().execution_features, None);
}

#[test]
fn test_reschedule_execution() {
    let mut app = application();
    let (_, job) = app.perform(submission("localhost"));
    let world = World { present: false, failing: Some("tar -xf"), features: None };
    let (done, conf) = run(&mut job.unwrap(), world);
    assert_eq!(done.last().unwrap(), "post-process");
    let conf = conf.unwrap();
    assert_eq!(conf.state, ExecutionState::Failed);
    assert_eq!(
        conf.execution_message.as_ref().unwrap(),
        "Failed to execute the job: Remote command failed: \nFailed execution(1)\nstdout: bad\nstderr: "
    );
    // Without rescheduling, nothing happens.
    let (_, job) = app.perform(OperationInput::PostProcessExec(conf.clone()));
    assert!(job.is_none());
    let (answer, _) = app.perform(OperationInput::ActivateRescheduling);
    activate_rescheduling_reply(Ok(answer)).unwrap();
    let (answer, job) = app.perform(OperationInput::PostProcessExec(conf.clone()));
    post_process_exec_reply(Ok(answer)).unwrap();
    let world = World { present: true, failing: None, features: None };
    let (done, again) = run(&mut job.unwrap(), world);
    assert_eq!(done[0], format!("delete {}", conf.identifier.show()));
    let again = again.unwrap();
    assert_eq!(again.state, ExecutionState::Completed);
    assert_ne!(conf.identifier, again.identifier);
    assert_eq!(again.parameters.0, "10");
    assert_eq!(again.tags[0].0, "t");
    // The host is unknown once it is unregistered.
    let (answer, _) = app.perform(OperationInput::UnregisterHost("localhost".to_owned()));
    unregister_host_reply(Ok(answer)).unwrap();
    let (answer, job) = app.perform(OperationInput::PostProcessExec(conf));
    assert!(job.is_none());
    assert_eq!(
        post_process_exec_reply(Ok(answer)).unwrap_err().message(),
        "Unknown host: \nUnknown host Some(\"localhost\")"
    );
}

#[test]
fn unknown_hosts_are_refused() {
    let mut app = application();
    let (answer, job) = app.perform(submission("plafrim"));
    assert!(job.is_none());
    assert_eq!(
        submit_exec_reply(Ok(answer)).unwrap_err().clone().message(),
        "Unknown host: \nUnknown host plafrim"
    );
    let campaign = Campaign::from(CampaignConf::new("/cmp", "1"), vec![]);
    let create = CreateExecution::start_at(
        &campaign,
        ExperimentCommit(COMMIT.to_owned()),
        ExecutionParameters("".to_owned()),
        vec![],
        "me".to_owned(),
        at(1),
        ExecutionId(11),
    );
    app.perform(OperationInput::ActivateRescheduling);
    let (answer, _) = app.perform(OperationInput::PostProcessExec(create.conf.clone()));
    assert_eq!(
        post_process_exec_reply(Ok(answer)).unwrap_err().message(),
        "Unknown host: \nNo host provided"
    );
    app.perform(OperationInput::DeactivateRescheduling);
    let (answer, _) = app.perform(OperationInput::PostProcessExec(create.conf));
    assert!(post_process_exec_reply(Ok(answer)).is_ok());
}

#[test]
fn test_pack_folder() {
    let met = vec![
        ("/tmp/pack_folder".to_owned(), false),
        ("/tmp/pack_folder/a".to_owned(), true),
        ("/tmp/pack_folder/.send.tar".to_owned(), true),
        ("/tmp/pack_folder/b/c".to_owned(), true),
    ];
    assert_eq!(
        pack_folder("/tmp/pack_folder", &met),
        vec![
            ("/tmp/pack_folder/a".to_owned(), "a".to_owned()),
            ("/tmp/pack_folder/b/c".to_owned(), "b/c".to_owned()),
        ]
    );
    assert_eq!(archive_hash(&b"hello".to_vec()), 2794345569481354659);
    assert_ne!(archive_hash(&b"hallo".to_vec()), 2794345569481354659);
    assert_eq!(archive_hash(&vec![]), 17241709254077376921);
    let long: Vec<u8> = (0..100_003usize).map(|i| (i * 31 % 251) as u8).collect();
    assert_eq!(archive_hash(&long), 3352439687897108047);
}

#[test]
fn features_are_lines() {
    assert_eq!(feature_lines("\n\n1.5\n2\n\n"), vec!["1.5", "2"]);
    assert!(feature_lines("\n").is_empty());
    let mut app = application();
    let (_, job) = app.perform(submission("localhost"));
    let world = World { present: true, failing: None, features: Some("x\n") };
    let (_, conf) = run(&mut job.unwrap(), world);
    let message = conf.unwrap().execution_message.unwrap();
    assert!(message.starts_with("Failed to execute the job: Remote command failed: \n"));
}

#[test]
fn answers_to_other_submissions() {
    let answer = OperationOutput::RegisterHost(Err(Error::Channel("x".to_owned())));
    assert_eq!(
        submit_exec_reply(Ok(answer)).unwrap_err().message(),
        "Failed to fetch operation: \nExepected SubmitExec, found RegisterHost(Err(Channel(\"x\")))"
    );
    let error = unregister_host_reply(Err("canceled".to_owned())).unwrap_err();
    assert_eq!(error.message(), "Failed to fetch operation: \ncanceled");
}
