//! Synchronization mechanisms for the campaign repositories. Those can be used to save the results
//! of experiments, or collaborate on a campaign.
use vstd::prelude::*;
use crate::repository::{CampaignConf, Error, ExecutionConf};

verus! {

/// The methods used to synchronize the repository.
pub trait SyncRepository {
    /// Hook called after the repository was initialized.
    fn init_repository_hook(&self, cmp: &CampaignConf) -> Result<(), Error>;

    /// Hook called after the experiment was fetched.
    fn fetch_experiment_hook(&self, cmp: &CampaignConf) -> Result<(), Error>;

    /// Hook called after an execution was created.
    fn create_execution_hook(&self, exc: &ExecutionConf) -> Result<(), Error>;

    /// Hook called after an execution was updated.
    fn update_execution_hook(&self, exc: &ExecutionConf) -> Result<(), Error>;

    /// Hook called after the execution was deleted.
    fn delete_execution_hook(&self, exc: &ExecutionConf) -> Result<(), Error>;

    /// Hook called after the execution was finished.
    fn finish_execution_hook(&self, exc: &ExecutionConf) -> Result<(), Error>;

    /// Hook called after the executions were fetched.
    fn fetch_executions_hook(&self, cmp: &CampaignConf) -> Result<(), Error>;
}

/// Synchronizes nothing.
#[derive(Clone, Copy, Debug, PartialEq, Eq, Structural)]
pub struct NullSynchronizer {}

/// The different mechanisms that can be used to synchronize a repository.
#[derive(Clone, Copy, Debug, PartialEq, Eq, Structural)]
pub enum Synchronizer {
    Null(NullSynchronizer),
}

impl SyncRepository for NullSynchronizer {
    fn init_repository_hook(&self, cmp: &CampaignConf) -> (res: Result<(), Error>)
        ensures
            res == Ok::<(), Error>(()),
    {
        Ok(())
    }

    fn fetch_experiment_hook(&self, cmp: &CampaignConf) -> (res: Result<(), Error>)
        ensures
            res == Ok::<(), Error>(()),
    {
        Ok(())
    }

    fn create_execution_hook(&self, exc: &ExecutionConf) -> (res: Result<(), Error>)
        ensures
            res == Ok::<(), Error>(()),
    {
        Ok(())
    }

    fn update_execution_hook(&self, exc: &ExecutionConf) -> (res: Result<(), Error>)
        ensures
            res == Ok::<(), Error>(()),
    {
        Ok(())
    }

    fn delete_execution_hook(&self, exc: &ExecutionConf) -> (res: Result<(), Error>)
        ensures
            res == Ok::<(), Error>(()),
    {
        Ok(())
    }

    fn finish_execution_hook(&self, exc: &ExecutionConf) -> (res: Result<(), Error>)
        ensures
            res == Ok::<(), Error>(()),
    {
        Ok(())
    }

    fn fetch_executions_hook(&self, cmp: &CampaignConf) -> (res: Result<(), Error>)
        ensures
            res == Ok::<(), Error>(()),
    {
        Ok(())
    }
}

impl SyncRepository for Synchronizer {
    fn init_repository_hook(&self, cmp: &CampaignConf) -> (res: Result<(), Error>)
        ensures
            res == Ok::<(), Error>(()),
    {
        match self {
            Synchronizer::Null(null) => null.init_repository_hook(cmp),
        }
    }

    fn fetch_experiment_hook(&self, cmp: &CampaignConf) -> (res: Result<(), Error>)
        ensures
            res == Ok::<(), Error>(()),
    {
        match self {
            Synchronizer::Null(null) => null.fetch_experiment_hook(cmp),
        }
    }

    fn create_execution_hook(&self, exc: &ExecutionConf) -> (res: Result<(), Error>)
        ensures
            res == Ok::<(), Error>(()),
    {
        match self {
            Synchronizer::Null(null) => null.create_execution_hook(exc),
        }
    }

    fn update_execution_hook(&self, exc: &ExecutionConf) -> (res: Result<(), Error>)
        ensures
            res == Ok::<(), Error>(()),
    {
        match self {
            Synchronizer::Null(null) => null.update_execution_hook(exc),
        }
    }

    fn delete_execution_hook(&self, exc: &ExecutionConf) -> (res: Result<(), Error>)
        ensures
            res == Ok::<(), Error>(()),
    {
        match self {
            Synchronizer::Null(null) => null.delete_execution_hook(exc),
        }
    }

    fn finish_execution_hook(&self, exc: &ExecutionConf) -> (res: Result<(), Error>)
        ensures
            res == Ok::<(), Error>(()),
    {
        match self {
            Synchronizer::Null(null) => null.finish_execution_hook(exc),
        }
    }

    fn fetch_executions_hook(&self, cmp: &CampaignConf) -> (res: Result<(), Error>)
        ensures
            res == Ok::<(), Error>(()),
    {
        match self {
            Synchronizer::Null(null) => null.fetch_executions_hook(cmp),
        }
    }
}

/// Where nothing is synchronized, no hook fails.
pub proof fn hooks_do_not_fail(
    synchro: Synchronizer,
    cmp: &CampaignConf,
    exc: &ExecutionConf,
    r0: Result<(), Error>,
    r1: Result<(), Error>,
    r2: Result<(), Error>,
    r3: Result<(), Error>,
    r4: Result<(), Error>,
    r5: Result<(), Error>,
    r6: Result<(), Error>,
)
    requires
        call_ensures(Synchronizer::init_repository_hook, (&synchro, cmp), r0),
        call_ensures(Synchronizer::fetch_experiment_hook, (&synchro, cmp), r1),
        call_ensures(Synchronizer::create_execution_hook, (&synchro, exc), r2),
        call_ensures(Synchronizer::update_execution_hook, (&synchro, exc), r3),
        call_ensures(Synchronizer::delete_execution_hook, (&synchro, exc), r4),
        call_ensures(Synchronizer::finish_execution_hook, (&synchro, exc), r5),
        call_ensures(Synchronizer::fetch_executions_hook, (&synchro, cmp), r6),
    ensures
        r0 is Ok && r1 is Ok && r2 is Ok && r3 is Ok && r4 is Ok && r5 is Ok && r6 is Ok,
{
}

} // verus!
