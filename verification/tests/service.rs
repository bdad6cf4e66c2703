use liborchestra::commons::{Loaded, Stored};
use liborchestra::primitives::Timestamp;
use liborchestra::repository::campaign::{CreateStage, FetchStage};
use liborchestra::repository::service::{
    CampaignConf, Error, ExecutionConf, ExecutionState, ExecutionUpdate, ExecutionsCache,
    ExecutionsCacheMessage, Synchronizer,
};
use liborchestra::repository::worker::{
    fetched_folders, handle_delete_execution, handle_fetch_experiment, Change, ChangeEvent,
    ChangeStage, ChangeWork, CreateEvent, CreateWork, FetchEvent, OperationFuture, OperationsResults, Polled,
    Repository, RepositoryOperation, Work,
};
use liborchestra::repository::{ExecutionId, ExecutionParameters, ExperimentCommit};

const COMMIT: &str = "1f0a3b5c7d9e1f0a3b5c7d9e1f0a3b5c7d9e1f0a";

fn shown(conf: &ExecutionConf) -> String {
    format!("{:?}", conf)
}

fn contains(executions: &Vec<ExecutionConf>, conf: &ExecutionConf) -> bool {
    executions.iter().any(|e| shown(e) == shown(conf))
}

fn execution(id: u128) -> ExecutionConf {
    ExecutionConf {
        commit: ExperimentCommit("1".to_owned()),
        parameters: ExecutionParameters("--param".to_owned()),
        state: ExecutionState::Initialized,
        path: None,
        experiment_elements: vec![],
        executor: None,
        execution_date: None,
        execution_duration: None,
        execution_stdout: None,
        execution_stderr: None,
        execution_exit_code: None,
        execution_fitness: None,
        generator: "local".to_owned(),
        generation_date: "2019-04-10 10:00:00".to_owned(),
        identifier: ExecutionId(id),
        tags: vec![],
    }
}

#[test]
fn test_execution_cacher() {
    let mut cache = ExecutionsCache::new(vec![]);
    let exc1 = execution(12);
    cache.handle(ExecutionsCacheMessage::New(exc1.identifier, exc1.clone()));
    let excs = cache.get_executions();
    assert_eq!(shown(excs.get(0).unwrap()), shown(&exc1));
    let mut exc2 = exc1.clone();
    exc2.executor = Some("me".to_owned());
    cache.handle(ExecutionsCacheMessage::New(exc2.identifier, exc2.clone()));
    let excs = cache.get_executions();
    assert_ne!(shown(excs.get(0).unwrap()), shown(&exc1));
    assert_eq!(shown(excs.get(0).unwrap()), shown(&exc2));
    assert!(cache.contains(exc2.identifier));
    cache.handle(ExecutionsCacheMessage::Delete(exc2.identifier));
    let excs = cache.get_executions();
    assert_eq!(excs.len(), 0);
}

#[test]
fn each_execution_is_listed_once() {
    // The same configuration under two identifiers is listed twice.
    let mut cache = ExecutionsCache::new(vec![execution(1), execution(2), execution(1)]);
    assert_eq!(cache.get_executions().len(), 2);
    cache.handle(ExecutionsCacheMessage::New(ExecutionId(3), execution(1)));
    let listed = cache.get_executions();
    assert_eq!(listed.len(), 3);
    assert_eq!(listed.iter().filter(|e| e.identifier == ExecutionId(1)).count(), 2);
    assert_eq!(listed.iter().filter(|e| e.identifier == ExecutionId(2)).count(), 1);
}

fn repository() -> Repository {
    Repository::new(CampaignConf::new("/tmp/cmp_repo", "0.0.1"), vec![])
}

/// Performs the creation of an execution, where everything goes well.
fn create(repository: &mut Repository) -> ExecutionConf {
    let (mut future, operation) = repository.create_execution(COMMIT, "", &vec![]);
    assert!(matches!(future.poll_start::<()>(true), Polled::Pending));
    let mut ope = match operation {
        RepositoryOperation::CreateExecution(ope) => ope,
        _ => panic!("Wrong operation"),
    };
    let mut work = CreateWork::start(
        &repository.campaign,
        ope.input.0.clone(),
        ope.input.1.clone(),
        vec![],
        "apere-pc".to_owned(),
    );
    let mut event = CreateEvent::Done;
    let result = loop {
        match work.step(event) {
            Work::Do(CreateStage::Walk) => event = CreateEvent::Gathered(vec!["run.py".to_owned()]),
            Work::Do(CreateStage::Hook) => {
                let hook = repository.campaign.synchronizer.create_execution_hook(&work.conf);
                event = CreateEvent::Hooked(hook)
            }
            Work::Do(_) => event = CreateEvent::Done,
            Work::Return(result) => break result,
        }
    };
    ope.output = Some(result);
    repository.complete(future.uuid, RepositoryOperation::CreateExecution(ope));
    future.poll_create_execution(&mut repository.results).unwrap()
}

/// Performs the change of an execution, where everything goes well: the execution, what was removed and
/// what was written to its file.
fn change(
    repository: &Repository,
    id: ExecutionId,
    change: Change,
    conf: &ExecutionConf,
) -> (ExecutionConf, Vec<String>, ExecutionConf) {
    let mut work = ChangeWork::start(id, change);
    let path = work.conf_path(&repository.campaign);
    assert_eq!(path, format!("/tmp/cmp_repo/excs/{}/.excconf", id.show()));
    let mut removed = vec![];
    let mut file = conf.to_file();
    let mut event = ChangeEvent::Read(Loaded::Value(conf.to_file()));
    loop {
        event = match work.step(&repository.campaign, event) {
            Work::Do(ChangeStage::Remove(_)) => {
                removed.push(work.element());
                ChangeEvent::Removed(true)
            }
            Work::Do(ChangeStage::Write) => {
                file = work.conf.as_ref().unwrap().to_file();
                ChangeEvent::Written(Stored::Done)
            }
            Work::Do(_) => ChangeEvent::Hooked(Ok(())),
            Work::Return(result) => return (result.unwrap(), removed, file),
        };
    }
}

#[test]
fn repository_test_new_repository() {
    let conf = CampaignConf::new("/tmp/cmp_repo", "0.0.1");
    assert_eq!(conf.get_path(), "/tmp/cmp_repo");
    assert_eq!(conf.get_experiment_path(), "/tmp/cmp_repo/xprp");
    assert_eq!(conf.get_executions_path(), "/tmp/cmp_repo/excs");
    assert_eq!(conf.show(), "Campaign<[/tmp/cmp_repo]>");
    assert_eq!(conf.synchronizer, Synchronizer::Null);
    conf.synchronizer.init_repository_hook(&conf).unwrap();
    let read = CampaignConf::from_file("/tmp/cmp_repo", conf.to_file());
    assert_eq!(format!("{:?}", read), format!("{:?}", conf));
}

#[test]
fn repository_test_create_execution() {
    let mut repository = repository();
    let exc = create(&mut repository);
    assert!(contains(&repository.get_executions(), &exc));
    assert_eq!(exc.commit.0, COMMIT);
    assert_eq!(exc.experiment_elements, vec!["run.py"]);
    let read = ExecutionConf::from_file(&exc.get_path(), Loaded::Value(exc.to_file())).unwrap();
    assert_eq!(shown(&exc), shown(&read));
    assert_eq!(exc.get_data_path(), format!("{}/data", exc.get_path()));
}

#[test]
fn repository_test_stress_create_execution() {
    let mut repository = repository();
    let mut excs = vec![];
    for _ in 1..200 {
        excs.push(create(&mut repository));
    }
    assert_eq!(repository.get_executions().len(), 199);
    for exc in excs {
        assert!(contains(&repository.get_executions(), &exc));
    }
}

#[test]
fn repository_test_update_execution() {
    let mut repository = repository();
    let exc = create(&mut repository);
    let upd = ExecutionUpdate {
        executor: Some("apere-pc".to_owned()),
        execution_date: Some("now".to_owned()),
        execution_duration: Some(50),
        execution_stdout: Some("Some stdout messages".to_owned()),
        execution_stderr: Some("Some stderr messages".to_owned()),
        execution_exit_code: Some(0),
        execution_fitness: Some(50.0f64.to_bits()),
    };
    let (mut future, operation) = repository.update_execution(exc.identifier, &upd);
    future.poll_start::<()>(true);
    let mut ope = match operation {
        RepositoryOperation::UpdateExecution(ope) => ope,
        _ => panic!("Wrong operation"),
    };
    let (changed, _, file) = change(&repository, exc.identifier, Change::Update(upd), &exc);
    ope.output = Some(Ok(changed));
    repository.complete(future.uuid, RepositoryOperation::UpdateExecution(ope));
    let exc_u = future.poll_update_execution(&mut repository.results).unwrap();
    assert_eq!(exc.identifier, exc_u.identifier);
    assert_eq!(exc_u.execution_duration, Some(50));
    assert_eq!(exc_u.execution_date.as_ref().unwrap(), "now");
    assert!(!contains(&repository.get_executions(), &exc));
    assert!(contains(&repository.get_executions(), &exc_u));
    let exc_file = ExecutionConf::from_file(&exc.get_path(), Loaded::Value(file)).unwrap();
    assert_eq!(shown(&exc_u), shown(&exc_file));
}

#[test]
fn repository_test_finish_execution() {
    let mut repository = repository();
    let exc = create(&mut repository);
    let (mut future, operation) = repository.finish_execution(exc.identifier);
    future.poll_start::<()>(true);
    let mut ope = match operation {
        RepositoryOperation::FinishExecution(ope) => ope,
        _ => panic!("Wrong operation"),
    };
    let (changed, removed, file) = change(&repository, exc.identifier, Change::Finish, &exc);
    assert_eq!(removed, vec![format!("{}/run.py", exc.get_path())]);
    ope.output = Some(Ok(changed));
    repository.complete(future.uuid, RepositoryOperation::FinishExecution(ope));
    let exc_f = future.poll_finish_execution(&mut repository.results).unwrap();
    assert_eq!(exc.identifier, exc_f.identifier);
    assert_ne!(shown(&exc), shown(&exc_f));
    assert_eq!(exc_f.state, ExecutionState::Finished);
    assert!(contains(&repository.get_executions(), &exc_f));
    assert!(!contains(&repository.get_executions(), &exc));
    let exc_file = ExecutionConf::from_file(&exc.get_path(), Loaded::Value(file)).unwrap();
    assert_eq!(shown(&exc_f), shown(&exc_file));
}

#[test]
fn repository_test_delete_execution() {
    let mut repository = repository();
    let exc = create(&mut repository);
    let (mut future, operation) = repository.delete_execution(exc.identifier);
    future.poll_start::<()>(true);
    let mut ope = match operation {
        RepositoryOperation::DeleteExecution(ope) => ope,
        _ => panic!("Wrong operation"),
    };
    ope.output = Some(handle_delete_execution(true));
    repository.complete(future.uuid, RepositoryOperation::DeleteExecution(ope));
    future.poll_delete_execution(&mut repository.results).unwrap();
    assert!(!contains(&repository.get_executions(), &exc));
    match handle_delete_execution(false) {
        Err(Error::DeleteExecution(text)) => assert_eq!(text, "Failed to remove execution files"),
        _ => panic!("Deleted"),
    }
}

#[test]
fn executions_are_added_by_a_fetch() {
    let mut repository = repository();
    let exc = create(&mut repository);
    let (mut future, operation) = repository.fetch_executions();
    future.poll_start::<()>(true);
    let mut ope = match operation {
        RepositoryOperation::FetchExecutions(ope) => ope,
        _ => panic!("Wrong operation"),
    };
    ope.output = Some(Ok(vec![execution(1), execution(2)]));
    repository.complete(future.uuid, RepositoryOperation::FetchExecutions(ope));
    let fetched = future.poll_fetch_executions(&mut repository.results).unwrap();
    assert_eq!(fetched.len(), 2);
    let executions = repository.get_executions();
    assert_eq!(executions.len(), 3);
    assert!(contains(&executions, &exc) && contains(&executions, &fetched[1]));
    let strings = |v: &[&str]| v.iter().map(|s| s.to_string()).collect::<Vec<_>>();
    assert_eq!(
        fetched_folders(&repository.campaign, &strings(&["a"]), &strings(&["a", "b"])).unwrap(),
        vec!["/tmp/cmp_repo/excs/b/.excconf"]
    );
    // A folder that is given by its whole path is taken as it is.
    assert_eq!(
        fetched_folders(&repository.campaign, &vec![], &strings(&["/tmp/cmp_repo/excs/c"])).unwrap(),
        vec!["/tmp/cmp_repo/excs/c/.excconf"]
    );
    match fetched_folders(&repository.campaign, &strings(&["a", "b"]), &strings(&["a"])) {
        Err(Error::FetchExecutions(text)) => {
            assert_eq!(text, "Some executions existed before fetch but not after")
        }
        _ => panic!("Fetched"),
    }
}

#[test]
fn futures_get_their_own_results() {
    let mut repository = repository();
    let (mut first, operation) = repository.fetch_experiment();
    let (mut second, _) = repository.fetch_experiment();
    first.poll_start::<()>(true);
    second.poll_start::<()>(true);
    let mut ope = match operation {
        RepositoryOperation::FetchExperiment(ope) => ope,
        _ => panic!("Wrong operation"),
    };
    ope.output = Some(Err(Error::NoFFPossible));
    assert!(!repository.results.contains(first.uuid));
    repository.complete(first.uuid, RepositoryOperation::FetchExperiment(ope));
    assert!(repository.results.contains(first.uuid));
    assert!(!repository.results.contains(second.uuid));
    let error = second.poll_fetch_experiment(&mut repository.results).unwrap_err();
    assert!(error.message().ends_with("Future woken but result not available"));
    let error = first.poll_fetch_experiment(&mut repository.results).unwrap_err();
    assert_eq!(error.message(), "Couldn't perform fast-forward pull");
    assert!(!repository.results.contains(first.uuid));
    let mut third = OperationFuture::new();
    match third.poll_start::<()>(false) {
        Polled::Ready(Err(e)) => assert_eq!(
            e.message(),
            "Communication channel broken: repository operations sender"
        ),
        _ => panic!("Sent"),
    }
}

#[test]
fn results_come_and_go_for_long() {
    let mut results = OperationsResults::new();
    let repository = repository();
    for _ in 0..5000 {
        let (future, operation) = repository.fetch_experiment();
        assert!(!results.contains(future.uuid));
        results.insert_new(future.uuid, operation);
        assert!(results.contains(future.uuid));
        assert!(results.remove(future.uuid).is_some());
        assert!(results.remove(future.uuid).is_none());
    }
    // Many results are kept at once.
    let mut futures = vec![];
    for _ in 0..2000 {
        let (future, operation) = repository.fetch_experiment();
        results.insert_new(future.uuid, operation);
        futures.push(future.uuid);
    }
    assert!(futures.iter().all(|future| results.contains(*future)));
}

#[test]
fn dates_are_written() {
    let work = CreateWork::start_at(
        &CampaignConf::new("/tmp/cmp_repo", "0.0.1"),
        ExperimentCommit(COMMIT.to_owned()),
        ExecutionParameters("".to_owned()),
        vec![],
        "apere-pc".to_owned(),
        Timestamp { secs: 1_554_890_400, nanos: 0 },
        ExecutionId(3),
    );
    assert_eq!(work.conf.generation_date, "2019-04-10 10:00:00");
    assert_eq!(
        CreateWork::experiment_url(&CampaignConf::new("/tmp/cmp_repo", "0.0.1")),
        "file:///tmp/cmp_repo/xprp"
    );
}

#[test]
fn failed_operations_end() {
    let mut repository = repository();
    let exc = create(&mut repository);
    let mut work = ChangeWork::start(exc.identifier, Change::Finish);
    match work.step(&repository.campaign, ChangeEvent::Read(Loaded::Unopened)) {
        Work::Return(Err(e)) => assert_eq!(e.message(), "Failed to read execution from file"),
        _ => panic!("Read"),
    }
    let mut work = CreateWork::start(
        &repository.campaign,
        ExperimentCommit("nothex".to_owned()),
        ExecutionParameters("".to_owned()),
        vec![],
        "apere-pc".to_owned(),
    );
    work.step(CreateEvent::Done);
    match work.step(CreateEvent::Done) {
        Work::Return(Err(e)) => {
            assert_eq!(e.message(), "Failed to create execution: Ill formed commit")
        }
        _ => panic!("Accepted"),
    }
    work.stage = CreateStage::Walk;
    match work.step(CreateEvent::Failed) {
        Work::Return(Err(e)) => {
            assert_eq!(e.message(), "Failed to create execution: Failed in elements gathering")
        }
        _ => panic!("Gathered"),
    }
    match handle_fetch_experiment(FetchStage::Analysis, FetchEvent::Analysed(false)) {
        Work::Return(Err(e)) => assert!(matches!(e, Error::NoFFPossible)),
        _ => panic!("Merged"),
    }
    match handle_fetch_experiment(FetchStage::Remote, FetchEvent::Failed) {
        Work::Return(Err(e)) => {
            assert_eq!(e.message(), "Failed to fetch experiment: No origin remote found")
        }
        _ => panic!("Found"),
    }
    assert!(matches!(
        handle_fetch_experiment(FetchStage::Remote, FetchEvent::Done),
        Work::Do(FetchStage::Fetch)
    ));
}

#[test]
fn states_of_a_service() {
    assert_eq!(ExecutionState::from_word("initialized"), ExecutionState::Initialized);
    assert_eq!(ExecutionState::from_word("interrupted"), ExecutionState::Interrupted);
    assert_eq!(ExecutionState::from_word("finished"), ExecutionState::Finished);
    assert_eq!(ExecutionState::from_word("other"), ExecutionState::Hazard);
    assert_eq!(ExecutionState::Hazard.show(), "Hazard");
    assert_eq!(
        execution(10).show(),
        "Execution<ExecutionId(00000000-0000-0000-0000-00000000000a)>"
    );
}
