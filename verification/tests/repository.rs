use liborchestra::commons::{Loaded, Stored};
use liborchestra::primitives::Timestamp;
use liborchestra::repository::campaign::{
    experiment_elements, Campaign, ChangeEvent, ChangeExecution, ChangeStage, CreateEvent,
    CreateExecution, CreateStage, DeleteEvent, DeleteStage, FetchEvent, FetchExecutions,
    FetchExecutionsEvent,
    FetchExecutionsStage, FetchStage, Step,
};
use liborchestra::repository::handle::{
    create_execution_reply, delete_execution_reply, fetch_executions_reply,
    fetch_experiment_reply, finish_execution_reply, get_executions_reply, update_execution_reply,
    CampaignAction, CampaignEvent, CampaignTask, OperationInput, OperationOutput,
};
use liborchestra::repository::synchro::{NullSynchronizer, SyncRepository, Synchronizer};
use liborchestra::repository::{
    CampaignConf, Error, ExecutionConf, ExecutionId, ExecutionParameters, ExecutionState,
    ExecutionTag, ExecutionUpdate, ExecutionUpdateBuilder, ExperimentCommit,
};

const COMMIT: &str = "1f0a3b5c7d9e1f0a3b5c7d9e1f0a3b5c7d9e1f0a";

fn at(secs: i64) -> Timestamp {
    Timestamp { secs, nanos: 0 }
}

/// The text of an execution, by which executions are compared.
fn shown(conf: &ExecutionConf) -> String {
    format!("{:?}", conf)
}

fn contains(executions: &Vec<ExecutionConf>, conf: &ExecutionConf) -> bool {
    executions.iter().any(|e| shown(e) == shown(conf))
}

fn campaign() -> Campaign {
    Campaign::from(CampaignConf::new("/tmp/cmp_repo", "0.0.1"), vec![])
}

/// The files of a campaign.
struct Files {
    folders: Vec<String>,
    /// What the configuration file of an execution holds, by the identifier of the execution.
    written: Vec<(ExecutionId, ExecutionConf)>,
    removed: Vec<String>,
}

impl Files {
    fn new() -> Files {
        Files { folders: vec![], written: vec![], removed: vec![] }
    }

    fn write(&mut self, conf: &ExecutionConf) {
        self.written.retain(|(id, _)| *id != conf.identifier);
        self.written.push((conf.identifier, conf.to_file()));
    }

    fn read(&self, conf: &ExecutionConf) -> ExecutionConf {
        let read = self.written.iter().find(|(id, _)| *id == conf.identifier).unwrap();
        ExecutionConf::from_file(&conf.get_path(), Loaded::Value(read.1.clone())).unwrap()
    }
}

/// Performs an operation on a campaign, where everything goes well.
fn perform(campaign: &mut Campaign, files: &mut Files, operation: OperationInput) -> OperationOutput {
    let (mut task, mut action) = CampaignTask::start(campaign, operation, "apere-pc".to_owned());
    loop {
        let event = match action {
            CampaignAction::FetchExperiment(stage) => CampaignEvent::FetchExperiment(match stage {
                FetchStage::Analysis => FetchEvent::Analysed(true),
                FetchStage::Hook => {
                    FetchEvent::Hooked(campaign.conf.synchro.fetch_experiment_hook(&campaign.conf))
                }
                _ => FetchEvent::Done,
            }),
            CampaignAction::CreateExecution(stage) => {
                let conf = match &task {
                    CampaignTask::CreateExecution(create) => create.conf.clone(),
                    _ => panic!("Wrong task"),
                };
                CampaignEvent::CreateExecution(match stage {
                    CreateStage::Folder => {
                        files.folders.push(conf.get_path());
                        CreateEvent::Done
                    }
                    CreateStage::Walk => CreateEvent::Walked(vec![
                        (conf.get_path(), false),
                        (format!("{}/run.py", conf.get_path()), true),
                        (format!("{}/lib/a.py", conf.get_path()), true),
                    ]),
                    CreateStage::Write => {
                        files.write(&conf);
                        CreateEvent::Done
                    }
                    CreateStage::Hook => {
                        CreateEvent::Hooked(campaign.conf.synchro.create_execution_hook(&conf))
                    }
                    _ => CreateEvent::Done,
                })
            }
            CampaignAction::ChangeExecution(stage) => {
                let change = match &task {
                    CampaignTask::UpdateExecution(change) => change,
                    CampaignTask::FinishExecution(change) => change,
                    _ => panic!("Wrong task"),
                };
                CampaignEvent::ChangeExecution(match stage {
                    ChangeStage::Remove(_) => {
                        files.removed.push(change.element());
                        ChangeEvent::Removed(true)
                    }
                    ChangeStage::Write => {
                        files.write(&change.conf);
                        ChangeEvent::Written(Stored::Done)
                    }
                    _ => ChangeEvent::Hooked(campaign.conf.synchro.update_execution_hook(&change.conf)),
                })
            }
            CampaignAction::DeleteExecution(stage) => {
                CampaignEvent::DeleteExecution(match stage {
                    DeleteStage::Remove => {
                        files.folders.clear();
                        DeleteEvent::Removed(true)
                    }
                    _ => DeleteEvent::Hooked(Ok(())),
                })
            }
            CampaignAction::FetchExecutions(stage) => {
                CampaignEvent::FetchExecutions(match stage {
                    FetchExecutionsStage::Hook => FetchExecutionsEvent::Hooked(Ok(())),
                    FetchExecutionsStage::Read(_) => FetchExecutionsEvent::Read(Loaded::Unopened),
                    _ => FetchExecutionsEvent::Listed(files.folders.clone()),
                })
            }
            CampaignAction::Answer(answer) => return answer,
        };
        action = task.step(campaign, event);
    }
}

fn create(campaign: &mut Campaign, files: &mut Files) -> ExecutionConf {
    let operation = OperationInput::CreateExecution(
        ExperimentCommit(COMMIT.to_owned()),
        ExecutionParameters("".to_owned()),
        vec![],
    );
    create_execution_reply(Ok(perform(campaign, files, operation)), "").unwrap()
}

fn get(campaign: &mut Campaign, files: &mut Files) -> Vec<ExecutionConf> {
    get_executions_reply(Ok(perform(campaign, files, OperationInput::GetExecutions)), "").unwrap()
}

#[test]
fn mod_test_new_repository() {
    let conf = CampaignConf::new("/tmp/cmp_repo", "0.0.1");
    assert_eq!(conf.get_path(), "/tmp/cmp_repo");
    assert_eq!(conf.get_experiment_path(), "/tmp/cmp_repo/xprp");
    assert_eq!(conf.get_executions_path(), "/tmp/cmp_repo/excs");
    assert_eq!(conf.show(), "Campaign<[/tmp/cmp_repo]>");
    conf.synchro.init_repository_hook(&conf).unwrap();
    let written = conf.to_file();
    assert_eq!(written.path, None);
    let read = CampaignConf::from_file("/tmp/cmp_repo", written);
    assert_eq!(format!("{:?}", read), format!("{:?}", conf));
}

#[test]
fn mod_test_create_execution() {
    let (mut campaign, mut files) = (campaign(), Files::new());
    let exc = create(&mut campaign, &mut files);
    assert_eq!(exc.commit.0, COMMIT);
    assert_eq!(exc.parameters.0, "");
    assert!(exc.tags.is_empty());
    assert_eq!(exc.experiment_elements, vec!["run.py", "lib/a.py"]);
    assert_eq!(exc.state, ExecutionState::Initialized);
    assert_eq!(exc.generator, "apere-pc");
    assert_eq!(exc.show(), exc.identifier.show());
    assert_eq!(exc.get_path(), format!("/tmp/cmp_repo/excs/{}", exc.identifier.show()));
    assert_eq!(exc.get_data_path(), format!("{}/data", exc.get_path()));
    assert!(contains(&get(&mut campaign, &mut files), &exc));
    assert_eq!(shown(&exc), shown(&files.read(&exc)));
}

#[test]
fn mod_test_stress_create_execution() {
    let (mut campaign, mut files) = (campaign(), Files::new());
    let mut excs = vec![];
    for _ in 1..200 {
        excs.push(create(&mut campaign, &mut files));
    }
    let executions = get(&mut campaign, &mut files);
    assert_eq!(executions.len(), 199);
    for exc in excs {
        assert!(contains(&executions, &exc));
    }
}

#[test]
fn mod_test_update_execution() {
    let (mut campaign, mut files) = (campaign(), Files::new());
    let exc = create(&mut campaign, &mut files);
    let upd = ExecutionUpdate {
        state: Some(ExecutionState::Initialized),
        executor: Some("apere-pc".to_owned()),
        execution_stdout: Some("Some stdout messages".to_owned()),
        execution_stderr: Some("Some stderr messages".to_owned()),
        execution_exit_code: Some(0),
        execution_beginning_date: Some(at(1000)),
        execution_ending_date: Some(at(2000)),
        execution_features: Some(vec![1.5f64.to_bits(), 1.5f64.to_bits()]),
        execution_message: Some("Some orchestra messages".to_owned()),
    };
    let operation = OperationInput::UpdateExecution(exc.identifier, upd);
    let answer = perform(&mut campaign, &mut files, operation);
    let exc_u = update_execution_reply(Ok(answer), "").unwrap();
    assert_eq!(exc.identifier, exc_u.identifier);
    assert_eq!(exc_u.executor.as_ref().unwrap(), "apere-pc");
    assert_eq!(exc_u.execution_exit_code, Some(0));
    let executions = get(&mut campaign, &mut files);
    assert!(!contains(&executions, &exc));
    assert!(contains(&executions, &exc_u));
    assert_eq!(shown(&exc_u), shown(&files.read(&exc)));
}

#[test]
fn mod_test_finish_execution() {
    let (mut campaign, mut files) = (campaign(), Files::new());
    let exc = create(&mut campaign, &mut files);
    let operation = OperationInput::FinishExecution(exc.identifier);
    let answer = perform(&mut campaign, &mut files, operation);
    let exc_f = finish_execution_reply(Ok(answer), "").unwrap();
    assert_eq!(exc.identifier, exc_f.identifier);
    assert_ne!(shown(&exc), shown(&exc_f));
    assert_eq!(exc_f.state, ExecutionState::Completed);
    assert!(files.folders.contains(&exc.get_path()));
    assert_eq!(
        files.removed,
        vec![format!("{}/run.py", exc.get_path()), format!("{}/lib/a.py", exc.get_path())]
    );
    let executions = get(&mut campaign, &mut files);
    assert!(!contains(&executions, &exc));
    assert!(contains(&executions, &exc_f));
    assert_eq!(shown(&exc_f), shown(&files.read(&exc)));
}

#[test]
fn mod_test_delete_execution() {
    let (mut campaign, mut files) = (campaign(), Files::new());
    let exc = create(&mut campaign, &mut files);
    let operation = OperationInput::DeleteExecution(exc.identifier);
    delete_execution_reply(Ok(perform(&mut campaign, &mut files, operation)), "").unwrap();
    assert!(!files.folders.contains(&exc.get_path()));
    assert!(!contains(&get(&mut campaign, &mut files), &exc));
    // It cannot be changed any more.
    let missing = format!(
        "Tried to remove execution {} from cache but it was not there.",
        exc.identifier.show()
    );
    let operation = OperationInput::FinishExecution(exc.identifier);
    let answer = perform(&mut campaign, &mut files, operation);
    match finish_execution_reply(Ok(answer), "") {
        Err(Error::UpdateExecution(text)) => assert_eq!(text, missing),
        _ => panic!("Finished"),
    }
}

#[test]
fn identifiers_are_shown_with_hyphens() {
    let id = ExecutionId(0xa1a2a3a4b1b2c1c2d1d2d3d4d5d6d7d8);
    assert_eq!(id.show(), "a1a2a3a4-b1b2-c1c2-d1d2-d3d4d5d6d7d8");
    assert_eq!(ExecutionId(0).show(), "00000000-0000-0000-0000-000000000000");
    assert_eq!(ExecutionId(10).show(), "00000000-0000-0000-0000-00000000000a");
}

#[test]
fn identifiers_are_random() {
    let campaign = campaign();
    let start = || {
        CreateExecution::start(
            &campaign,
            ExperimentCommit(COMMIT.to_owned()),
            ExecutionParameters("-a 1".to_owned()),
            vec![ExecutionTag("t".to_owned())],
            "host".to_owned(),
        )
    };
    let (a, b) = (start().conf, start().conf);
    assert_ne!(a.identifier, b.identifier);
    for conf in [a, b] {
        let id = conf.identifier.show();
        assert_eq!(id.chars().nth(14), Some('4'));
        assert_eq!(id.len(), 36);
        assert_eq!(conf.parameters.0, "-a 1");
        assert_eq!(conf.tags[0].0, "t");
        assert!(conf.generation_date.secs > 0);
    }
    assert_eq!(CreateExecution::experiment_url(&campaign), "file:///tmp/cmp_repo/xprp");
}

fn creation(commit: &str) -> (Campaign, CreateExecution) {
    let campaign = campaign();
    let create = CreateExecution::start_at(
        &campaign,
        ExperimentCommit(commit.to_owned()),
        ExecutionParameters("".to_owned()),
        vec![],
        "host".to_owned(),
        at(5),
        ExecutionId(7),
    );
    (campaign, create)
}

#[test]
fn commits_are_checked() {
    for (commit, good) in [
        (COMMIT, true),
        ("abc", true),
        ("ABC0", true),
        ("", false),
        ("xyz", false),
        ("1f0a3b5c7d9e1f0a3b5c7d9e1f0a3b5c7d9e1f0a0", false),
        ("é", false),
    ] {
        let (mut campaign, mut create) = creation(commit);
        create.step(&mut campaign, CreateEvent::Done);
        match create.step(&mut campaign, CreateEvent::Done) {
            Step::Do(stage) => {
                assert!(good, "{}", commit);
                assert_eq!(stage, CreateStage::Commit);
            }
            Step::Return(Err(Error::CreateExecution(text))) => {
                assert!(!good, "{}", commit);
                assert_eq!(text, "Ill formed commit");
            }
            _ => panic!("Unexpected step"),
        }
    }
}

#[test]
fn failed_creations_are_not_kept() {
    let expected = [
        "Failed to create directory",
        "Failed to local clone",
        "Commit is not known",
        "No tree attached to commit",
        "Couldn't checkout tree",
        "Couldn't remove git folder",
    ];
    for (steps, expected) in expected.iter().enumerate() {
        let (mut campaign, mut create) = creation(COMMIT);
        for _ in 0..steps {
            create.step(&mut campaign, CreateEvent::Done);
        }
        match create.step(&mut campaign, CreateEvent::Failed) {
            Step::Return(Err(Error::CreateExecution(text))) => assert_eq!(&text, expected),
            _ => panic!("Did not fail"),
        }
        assert!(campaign.get_executions().is_empty());
    }
    for (stage, expected) in [
        (CreateStage::DataFolder, "Failed to create data folder"),
        (CreateStage::Write, "Failed to write config file."),
    ] {
        let (mut campaign, mut create) = creation(COMMIT);
        create.stage = stage;
        match create.step(&mut campaign, CreateEvent::Failed) {
            Step::Return(Err(Error::CreateExecution(text))) => assert_eq!(text, expected),
            _ => panic!("Did not fail"),
        }
    }
}

#[test]
fn only_files_are_elements() {
    let met = vec![
        ("/r".to_owned(), false),
        ("/r/a".to_owned(), true),
        ("/r/b".to_owned(), false),
        ("/r/b/c".to_owned(), true),
    ];
    assert_eq!(experiment_elements("/r", &met), vec!["a", "b/c"]);
}

#[test]
fn failed_changes_are_reported() {
    let (mut campaign, mut files) = (campaign(), Files::new());
    let exc = create(&mut campaign, &mut files);
    let mut change = ChangeExecution::finish(&mut campaign, exc.identifier).unwrap();
    assert_eq!(change.element(), format!("{}/run.py", exc.get_path()));
    match change.step(&mut campaign, ChangeEvent::Removed(false)) {
        Step::Return(Err(Error::FinishExecution(text))) => {
            assert_eq!(text, "Failed to remote one experiment element")
        }
        _ => panic!("Did not fail"),
    }
    // Meanwhile the execution left the campaign.
    assert!(campaign.get_executions().is_empty());
    let exc = create(&mut campaign, &mut files);
    let nothing = ExecutionUpdateBuilder::new().build();
    let mut change = ChangeExecution::update(&mut campaign, exc.identifier, nothing).unwrap();
    assert_eq!(shown(&change.conf), shown(&exc));
    match change.step(&mut campaign, ChangeEvent::Written(Stored::Unwritten)) {
        Step::Return(Err(e)) => assert_eq!(e.message(), Error::WriteExecution.message()),
        _ => panic!("Did not fail"),
    }
}

#[test]
fn experiments_are_fetched() {
    let (mut campaign, mut files) = (campaign(), Files::new());
    let answer = perform(&mut campaign, &mut files, OperationInput::FetchExperiment);
    let conf = fetch_experiment_reply(Ok(answer), "").unwrap();
    assert_eq!(conf.get_path(), "/tmp/cmp_repo");
    let fail = |events: Vec<FetchEvent>| {
        let mut campaign = Campaign::from(CampaignConf::new("/r", "1"), vec![]);
        let (mut task, mut action) =
            CampaignTask::start(&mut campaign, OperationInput::FetchExperiment, String::new());
        for event in events {
            action = task.step(&mut campaign, CampaignEvent::FetchExperiment(event));
        }
        match action {
            CampaignAction::Answer(answer) => fetch_experiment_reply(Ok(answer), "").unwrap_err(),
            _ => panic!("No answer"),
        }
    };
    let done = |n: usize| (0..n).map(|_| FetchEvent::Done).collect::<Vec<_>>();
    for (steps, text) in [
        (0, "No origin remote found"),
        (1, "Couldn't fetch origin"),
        (2, "Couldn't find origin head ref"),
        (3, "Couldn't find origin head target"),
        (4, "Couldn't find annotated commit"),
    ] {
        let mut events = done(steps);
        events.push(FetchEvent::Failed);
        match fail(events) {
            Error::FetchExperiment(found) => assert_eq!(found, text),
            _ => panic!("Wrong error"),
        }
    }
    let mut events = done(5);
    events.push(FetchEvent::Analysed(false));
    assert!(matches!(fail(events), Error::NoFFPossible));
    let mut events = done(5);
    events.push(FetchEvent::Failed);
    assert!(matches!(fail(events), Error::Unknown));
}

#[test]
fn executions_are_fetched() {
    let (mut campaign, mut files) = (campaign(), Files::new());
    let exc = create(&mut campaign, &mut files);
    let answer = perform(&mut campaign, &mut files, OperationInput::FetchExecutions);
    assert!(fetch_executions_reply(Ok(answer), "").unwrap().is_empty());
    let run = |campaign: &mut Campaign, before: Vec<&str>, after: Vec<&str>, read: Loaded<ExecutionConf>| {
        let strings = |v: Vec<&str>| v.iter().map(|s| s.to_string()).collect::<Vec<_>>();
        let (mut task, _) =
            CampaignTask::start(campaign, OperationInput::FetchExecutions, String::new());
        let mut action = CampaignAction::FetchExecutions(FetchExecutionsStage::Before);
        for event in [
            FetchExecutionsEvent::Listed(strings(before)),
            FetchExecutionsEvent::Hooked(Ok(())),
            FetchExecutionsEvent::Listed(strings(after)),
            FetchExecutionsEvent::Read(read),
        ] {
            if let CampaignAction::Answer(answer) = action {
                return fetch_executions_reply(Ok(answer), "");
            }
            action = task.step(campaign, CampaignEvent::FetchExecutions(event));
        }
        match action {
            CampaignAction::Answer(answer) => fetch_executions_reply(Ok(answer), ""),
            _ => panic!("No answer"),
        }
    };
    match run(&mut campaign, vec!["a", "b"], vec!["a"], Loaded::Unopened) {
        Err(Error::FetchExecutions(text)) => {
            assert_eq!(text, "Some executions existed before fetch but not after")
        }
        _ => panic!("Fetched"),
    }
    let fetched = run(&mut campaign, vec!["/e/a"], vec!["/e/b", "/e/a"], Loaded::Value(exc.to_file()));
    let fetched = fetched.unwrap();
    assert_eq!(fetched.len(), 1);
    assert_eq!(fetched[0].get_path(), "/e/b");
    assert_eq!(fetched[0].identifier, exc.identifier);
    let failed = run(&mut campaign, vec!["a"], vec!["b", "a"], Loaded::Unopened);
    assert!(matches!(failed, Err(Error::ReadExecution)));
}

#[test]
fn each_new_folder_is_read() {
    let strings = |v: &[&str]| v.iter().map(|s| s.to_string()).collect::<Vec<_>>();
    let (mut campaign, mut files) = (campaign(), Files::new());
    let exc = create(&mut campaign, &mut files);
    let mut fetch = FetchExecutions::start();
    fetch.step(FetchExecutionsEvent::Listed(strings(&["/e/b"])));
    fetch.step(FetchExecutionsEvent::Hooked(Ok(())));
    fetch.step(FetchExecutionsEvent::Listed(strings(&["/e/a", "/e/b", "/e/c"])));
    let mut read = vec![];
    loop {
        read.push(fetch.conf_path());
        match fetch.step(FetchExecutionsEvent::Read(Loaded::Value(exc.to_file()))) {
            Step::Do(_) => {}
            Step::Return(result) => {
                let paths: Vec<String> = result.unwrap().iter().map(|e| e.get_path()).collect();
                assert_eq!(paths, vec!["/e/a", "/e/c"]);
                break;
            }
        }
    }
    assert_eq!(read, vec!["/e/a/.excconf", "/e/c/.excconf"]);
}

#[test]
fn updates_replace_what_they_set() {
    let (mut campaign, mut files) = (campaign(), Files::new());
    let exc = create(&mut campaign, &mut files);
    let update = ExecutionUpdateBuilder::new()
        .state(ExecutionState::Running)
        .executor("plafrim".to_owned())
        .stdout("out".to_owned())
        .stderr("err".to_owned())
        .message("message".to_owned())
        .exit_code(3)
        .features(vec![0.5f64.to_bits()])
        .beginning_date(at(1))
        .ending_date(at(2))
        .build();
    let exc = update.apply(exc);
    assert_eq!(exc.state, ExecutionState::Running);
    assert_eq!(exc.executor.as_ref().unwrap(), "plafrim");
    assert_eq!(exc.execution_stdout.as_ref().unwrap(), "out");
    assert_eq!(exc.execution_stderr.as_ref().unwrap(), "err");
    assert_eq!(exc.execution_message.as_ref().unwrap(), "message");
    assert_eq!(exc.execution_exit_code, Some(3));
    assert_eq!(exc.execution_features, Some(vec![0.5f64.to_bits()]));
    assert_eq!(exc.execution_beginning_date, Some(at(1)));
    assert_eq!(exc.execution_ending_date, Some(at(2)));
    let later = ExecutionUpdateBuilder::new().exit_code(4).build();
    let exc = later.apply(exc);
    assert_eq!(exc.execution_exit_code, Some(4));
    assert_eq!(exc.execution_stdout.as_ref().unwrap(), "out");
}

#[test]
fn states_are_words() {
    for (word, state, shown) in [
        ("initialized", ExecutionState::Initialized, "Initialized"),
        ("running", ExecutionState::Running, "Running"),
        ("failed", ExecutionState::Failed, "Interrupted"),
        ("completed", ExecutionState::Completed, "Completed"),
    ] {
        assert!(ExecutionState::is_known(word));
        assert_eq!(ExecutionState::from_word(word), state);
        assert_eq!(state.show(), shown);
    }
    assert!(!ExecutionState::is_known("Running"));
}

#[test]
fn answers_to_other_campaign_operations() {
    let error = update_execution_reply(Ok(OperationOutput::DeleteExecution(Ok(()))), "").unwrap_err();
    assert_eq!(
        error.show(),
        "OperationFetch(\"Exepected UpdateExecution, found DeleteExecution(Ok(()))\")"
    );
    let answer = OperationOutput::CreateExecution(Err(Error::Io("x".to_owned())));
    match delete_execution_reply(Ok(answer), "") {
        Err(Error::OperationFetch(text)) => assert_eq!(
            text,
            "Exepected DeleteExecution, found CreateExecution(Err(Io(\"x\")))"
        ),
        _ => panic!("Accepted"),
    }
    let conf = CampaignConf::new("/tmp/cmp_repo", "0.0.1");
    match finish_execution_reply(Ok(OperationOutput::FetchExperiment(Ok(conf))), "") {
        Err(Error::OperationFetch(text)) => assert_eq!(
            text,
            "Exepected FinishExecution, found FetchExperiment(Ok(CampaignConf { path: Some(\"/tmp/cmp_repo\"), synchro: Null(NullSynchronizer), version: \"0.0.1\" }))"
        ),
        _ => panic!("Accepted"),
    }
    assert!(matches!(
        get_executions_reply(Err("canceled".to_owned()), ""),
        Err(Error::OperationFetch(text)) if text == "canceled"
    ));
    assert!(matches!(
        Error::ReadCampaign.to_operation(),
        liborchestra::primitives::Error::Operation(text) if text == Error::ReadCampaign.message()
    ));
}

#[test]
fn null_synchronizer_does_nothing() {
    let conf = CampaignConf::new("/tmp/cmp_repo", "0.0.1");
    let null = Synchronizer::Null(NullSynchronizer {});
    assert_eq!(conf.synchro, null);
    let (mut campaign, mut files) = (campaign(), Files::new());
    let exc = create(&mut campaign, &mut files);
    null.delete_execution_hook(&exc).unwrap();
    null.finish_execution_hook(&exc).unwrap();
    null.fetch_executions_hook(&conf).unwrap();
}

#[test]
fn files_that_fail() {
    assert!(matches!(
        ExecutionConf::from_file("/r", Loaded::Unparsed("x".to_owned())),
        Err(Error::ReadExecution)
    ));
    assert!(matches!(ExecutionConf::stored(Stored::Unopened), Err(Error::WriteExecution)));
    assert!(ExecutionConf::stored(Stored::Done).is_ok());
}
