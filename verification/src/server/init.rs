//! The one-time initialization of the database, run by the first leader.
//! Without a backup the migrations run first; then the database flag is
//! read, and a database whose flag is not set is bootstrapped (the
//! administrator, then the economy). With a backup the flag is read first and
//! an uninitialized database is restored from the backup. In both cases the
//! flag is set last, so that an interrupted initialization is started over.
//!
//! The orchestration alternates calls to the initialization repository,
//! the backup downloader, the restorer, the migrations and the bootstrap
//! use cases with decisions; the decisions are a state machine: the caller
//! performs each `InitAction` and hands its outcome back.
use crate::server::error::ApplicationError;
use vstd::prelude::*;

verus! {

/// What the initialization waits for.
#[derive(Debug, Clone, Copy, PartialEq, Eq, Structural)]
pub enum InitStage {
    CheckingFlag,
    Downloading,
    Restoring,
    Migrating,
    BootstrappingAdmin,
    BootstrappingEconomy,
    SettingFlag,
    Finished,
}

/// What the caller has to do next.
#[derive(Debug, PartialEq, Eq)]
pub enum InitAction {
    /// Ask whether the database flag is set.
    CheckFlag,
    /// Download the backup at this address.
    Download(String),
    /// Restore the database from the downloaded backup.
    Restore,
    RunMigration,
    BootstrapAdmin,
    BootstrapEconomy,
    /// Set the database flag.
    SetFlag,
    /// The initialization is over, with this result.
    Finish(Result<(), ApplicationError>),
}

/// The outcome of the last action.
#[derive(Debug, PartialEq, Eq)]
pub enum InitEvent {
    /// Whether the database flag is set (or why it could not be read).
    Flag(Result<bool, ApplicationError>),
    /// The outcome of any other action.
    Done(Result<(), ApplicationError>),
}

/// The orchestration's state.
#[derive(Debug)]
pub struct InitializationOrchestrator {
    pub stage: InitStage,
    /// Where to download a backup from, if the database is to be restored.
    pub maybe_restore_url: Option<String>,
}

/// The first stage and action: the migrations when there is no backup to
/// restore, the flag otherwise.
pub open spec fn init_start(url: Option<String>) -> (InitStage, InitAction) {
    match url {
        Some(_) => (InitStage::CheckingFlag, InitAction::CheckFlag),
        None => (InitStage::Migrating, InitAction::RunMigration),
    }
}

/// The next stage and action after `event` in `stage`.
pub open spec fn init_step(stage: InitStage, url: Option<String>, event: InitEvent) -> (InitStage, InitAction) {
    match event {
        InitEvent::Flag(Err(e)) => (InitStage::Finished, InitAction::Finish(Err(e))),
        InitEvent::Flag(Ok(true)) => (InitStage::Finished, InitAction::Finish(Ok(()))),
        InitEvent::Flag(Ok(false)) => match url {
            Some(u) => (InitStage::Downloading, InitAction::Download(u)),
            None => (InitStage::BootstrappingAdmin, InitAction::BootstrapAdmin),
        },
        InitEvent::Done(Err(e)) => (InitStage::Finished, InitAction::Finish(Err(e))),
        InitEvent::Done(Ok(())) => match stage {
            InitStage::Downloading => (InitStage::Restoring, InitAction::Restore),
            InitStage::Restoring => (InitStage::SettingFlag, InitAction::SetFlag),
            InitStage::Migrating => (InitStage::CheckingFlag, InitAction::CheckFlag),
            InitStage::BootstrappingAdmin => (InitStage::BootstrappingEconomy, InitAction::BootstrapEconomy),
            InitStage::BootstrappingEconomy => (InitStage::SettingFlag, InitAction::SetFlag),
            _ => (InitStage::Finished, InitAction::Finish(Ok(()))),
        },
    }
}

/// Whether `event` is an outcome the orchestration waits for in `stage`.
pub open spec fn init_event_expected(stage: InitStage, event: InitEvent) -> bool {
    match stage {
        InitStage::CheckingFlag => event is Flag,
        InitStage::Finished => false,
        _ => event is Done,
    }
}

impl InitializationOrchestrator {
    /// Starts an initialization: the migrations run first when there is no
    /// backup to restore, the flag is read first otherwise.
    pub fn start(maybe_restore_url: Option<String>) -> (r: (Self, InitAction))
        ensures
            (r.0.stage, r.1) == init_start(maybe_restore_url),
            r.0.maybe_restore_url == maybe_restore_url,
    {
        let (stage, action) = match &maybe_restore_url {
            Some(_) => (InitStage::CheckingFlag, InitAction::CheckFlag),
            None => (InitStage::Migrating, InitAction::RunMigration),
        };
        (InitializationOrchestrator { stage, maybe_restore_url }, action)
    }

    /// Advances with the outcome of the last action.
    pub fn step(&mut self, event: InitEvent) -> (a: InitAction)
        requires
            init_event_expected(old(self).stage, event),
        ensures
            (final(self).stage, a) == init_step(old(self).stage, old(self).maybe_restore_url, event),
            final(self).maybe_restore_url == old(self).maybe_restore_url,
    {
        match event {
            InitEvent::Flag(Err(e)) => {
                self.stage = InitStage::Finished;
                InitAction::Finish(Err(e))
            },
            InitEvent::Flag(Ok(true)) => {
                self.stage = InitStage::Finished;
                InitAction::Finish(Ok(()))
            },
            InitEvent::Flag(Ok(false)) => {
                match &self.maybe_restore_url {
                    Some(u) => {
                        self.stage = InitStage::Downloading;
                        InitAction::Download(u.clone())
                    },
                    None => {
                        self.stage = InitStage::BootstrappingAdmin;
                        InitAction::BootstrapAdmin
                    },
                }
            },
            InitEvent::Done(Err(e)) => {
                self.stage = InitStage::Finished;
                InitAction::Finish(Err(e))
            },
            InitEvent::Done(Ok(())) => {
                let (next, action) = match self.stage {
                    InitStage::Downloading => (InitStage::Restoring, InitAction::Restore),
                    InitStage::Restoring => (InitStage::SettingFlag, InitAction::SetFlag),
                    InitStage::Migrating => (InitStage::CheckingFlag, InitAction::CheckFlag),
                    InitStage::BootstrappingAdmin => (InitStage::BootstrappingEconomy, InitAction::BootstrapEconomy),
                    InitStage::BootstrappingEconomy => (InitStage::SettingFlag, InitAction::SetFlag),
                    _ => (InitStage::Finished, InitAction::Finish(Ok(()))),
                };
                self.stage = next;
                action
            },
        }
    }
}

/// Without a backup the migrations run first, then the flag is read; a
/// database whose flag is not set is then bootstrapped (administrator, then
/// economy), and only then is the flag set; when every step succeeds the
/// initialization succeeds.
pub proof fn lemma_bootstrap_sequence()
    ensures
        ({
            let (s0, a0) = init_start(None);
            let (s1, a1) = init_step(s0, None, InitEvent::Done(Ok(())));
            let (s2, a2) = init_step(s1, None, InitEvent::Flag(Ok(false)));
            let (s3, a3) = init_step(s2, None, InitEvent::Done(Ok(())));
            let (s4, a4) = init_step(s3, None, InitEvent::Done(Ok(())));
            let (s5, a5) = init_step(s4, None, InitEvent::Done(Ok(())));
            &&& a0 == InitAction::RunMigration
            &&& a1 == InitAction::CheckFlag
            &&& a2 == InitAction::BootstrapAdmin
            &&& a3 == InitAction::BootstrapEconomy
            &&& a4 == InitAction::SetFlag
            &&& a5 == InitAction::Finish(Ok(()))
            &&& s5 == InitStage::Finished
        }),
{
}

/// Without a backup, an already initialized database is still migrated,
/// then left alone: after the migrations the flag is read, and a set flag
/// ends the initialization successfully without setting the flag again.
pub proof fn lemma_migration_precedes_flag_check()
    ensures
        ({
            let (s0, a0) = init_start(None);
            let (s1, a1) = init_step(s0, None, InitEvent::Done(Ok(())));
            let (s2, a2) = init_step(s1, None, InitEvent::Flag(Ok(true)));
            &&& a0 == InitAction::RunMigration
            &&& a1 == InitAction::CheckFlag
            &&& a2 == InitAction::Finish(Ok(()))
            &&& s2 == InitStage::Finished
        }),
{
}

/// Without a backup the flag is only read right after the migrations
/// succeeded.
pub proof fn lemma_flag_checked_after_migration(stage: InitStage, event: InitEvent)
    requires
        init_step(stage, None, event).1 == InitAction::CheckFlag,
    ensures
        stage == InitStage::Migrating,
        event matches InitEvent::Done(Ok(_)),
{
}

/// With a backup, the database is downloaded and restored, then the flag
/// is set; nothing is migrated or bootstrapped.
pub proof fn lemma_restore_sequence(url: String)
    ensures
        ({
            let (s0, a0) = init_start(Some(url));
            let (s1, a1) = init_step(s0, Some(url), InitEvent::Flag(Ok(false)));
            let (s2, a2) = init_step(s1, Some(url), InitEvent::Done(Ok(())));
            let (s3, a3) = init_step(s2, Some(url), InitEvent::Done(Ok(())));
            let (s4, a4) = init_step(s3, Some(url), InitEvent::Done(Ok(())));
            &&& a0 == InitAction::CheckFlag
            &&& a1 == InitAction::Download(url)
            &&& a2 == InitAction::Restore
            &&& a3 == InitAction::SetFlag
            &&& a4 == InitAction::Finish(Ok(()))
            &&& s4 == InitStage::Finished
        }),
{
}

/// A database whose flag is set is left alone, and any failure ends the
/// initialization with that failure, before the flag is set.
pub proof fn lemma_initialization_is_skipped_or_stops_on_error(
    stage: InitStage,
    url: Option<String>,
    e: ApplicationError,
)
    ensures
        init_step(InitStage::CheckingFlag, url, InitEvent::Flag(Ok(true))) == (
            InitStage::Finished,
            InitAction::Finish(Ok(())),
        ),
        init_step(stage, url, InitEvent::Done(Err(e))) == (InitStage::Finished, InitAction::Finish(Err(e))),
        init_step(stage, url, InitEvent::Flag(Err(e))) == (InitStage::Finished, InitAction::Finish(Err(e))),
{
}

/// The flag is only set right after the database content is in place:
/// after a restore, or after the economy was bootstrapped.
pub proof fn lemma_flag_set_last(stage: InitStage, url: Option<String>, event: InitEvent)
    requires
        init_step(stage, url, event).1 == InitAction::SetFlag,
    ensures
        stage == InitStage::Restoring || stage == InitStage::BootstrappingEconomy,
        event matches InitEvent::Done(Ok(_)),
{
}

/// The plain bootstrap of a fresh database, without reading the flag:
/// migrations, administrator, economy, then the flag.
#[derive(Debug)]
pub struct BootstrapOrchestrator {
    pub stage: InitStage,
}

/// The next stage and action of the plain bootstrap after the outcome
/// `done` of the last action: each step follows the one before, and any
/// failure ends the bootstrap with it.
pub open spec fn bootstrap_step(stage: InitStage, done: Result<(), ApplicationError>) -> (InitStage, InitAction) {
    match done {
        Err(e) => (InitStage::Finished, InitAction::Finish(Err(e))),
        Ok(()) => match stage {
            InitStage::Migrating => (InitStage::BootstrappingAdmin, InitAction::BootstrapAdmin),
            InitStage::BootstrappingAdmin => (InitStage::BootstrappingEconomy, InitAction::BootstrapEconomy),
            InitStage::BootstrappingEconomy => (InitStage::SettingFlag, InitAction::SetFlag),
            _ => (InitStage::Finished, InitAction::Finish(Ok(()))),
        },
    }
}

impl BootstrapOrchestrator {
    /// Starts the plain bootstrap: the migrations run first.
    pub fn start() -> (r: (Self, InitAction))
        ensures
            r.0.stage == InitStage::Migrating,
            r.1 == InitAction::RunMigration,
    {
        (BootstrapOrchestrator { stage: InitStage::Migrating }, InitAction::RunMigration)
    }

    /// Advances with the outcome of the last action.
    pub fn step(&mut self, done: Result<(), ApplicationError>) -> (a: InitAction)
        requires
            old(self).stage != InitStage::Finished,
        ensures
            (final(self).stage, a) == bootstrap_step(old(self).stage, done),
    {
        let (stage, action) = match done {
            Err(e) => (InitStage::Finished, InitAction::Finish(Err(e))),
            Ok(()) => match self.stage {
                InitStage::Migrating => (InitStage::BootstrappingAdmin, InitAction::BootstrapAdmin),
                InitStage::BootstrappingAdmin => (InitStage::BootstrappingEconomy, InitAction::BootstrapEconomy),
                InitStage::BootstrappingEconomy => (InitStage::SettingFlag, InitAction::SetFlag),
                _ => (InitStage::Finished, InitAction::Finish(Ok(()))),
            },
        };
        self.stage = stage;
        action
    }
}

/// The plain bootstrap migrates, creates the administrator, bootstraps the
/// economy and sets the flag, in that order; the flag is only set after all
/// the rest succeeded.
pub proof fn lemma_plain_bootstrap_sequence(e: ApplicationError, stage: InitStage)
    ensures
        ({
            let (s1, a1) = bootstrap_step(InitStage::Migrating, Ok(()));
            let (s2, a2) = bootstrap_step(s1, Ok(()));
            let (s3, a3) = bootstrap_step(s2, Ok(()));
            let (s4, a4) = bootstrap_step(s3, Ok(()));
            &&& a1 == InitAction::BootstrapAdmin
            &&& a2 == InitAction::BootstrapEconomy
            &&& a3 == InitAction::SetFlag
            &&& a4 == InitAction::Finish(Ok(()))
            &&& s4 == InitStage::Finished
        }),
        bootstrap_step(stage, Ok(())).1 == InitAction::SetFlag ==> stage == InitStage::BootstrappingEconomy,
        bootstrap_step(stage, Err(e)) == (InitStage::Finished, InitAction::Finish(Err(e))),
{
}

/// An initialization only succeeds when the flag was found set, or right
/// after the flag was set; a bootstrap only succeeds right after the flag
/// was set; a failure ends either with that failure.
pub proof fn lemma_success_only_when_flag_is_set(
    stage: InitStage,
    url: Option<String>,
    event: InitEvent,
    e: ApplicationError,
)
    requires
        init_event_expected(stage, event),
    ensures
        init_step(stage, url, event).1 == InitAction::Finish(Ok(())) ==> event == InitEvent::Flag(Ok(true))
            || (stage == InitStage::SettingFlag && (event matches InitEvent::Done(Ok(_)))),
        bootstrap_step(stage, Err(e)) == (InitStage::Finished, InitAction::Finish(Err(e))),
        stage == InitStage::Migrating || stage == InitStage::BootstrappingAdmin || stage
            == InitStage::BootstrappingEconomy ==> !(bootstrap_step(stage, Ok(())).1 is Finish),
        bootstrap_step(InitStage::SettingFlag, Ok(())) == (InitStage::Finished, InitAction::Finish(Ok(()))),
        init_step(stage, url, event).1 is Finish <==> init_step(stage, url, event).0 == InitStage::Finished,
{
}

} // verus!
