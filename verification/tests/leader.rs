use syndicode::server::error::ApplicationError;
use syndicode::server::init::{InitAction, InitEvent, InitializationOrchestrator};
use syndicode::server::leader::{
    AcquireOutcome, LeaderAction, LeaderEvent, LeaderLoopManager, LeaderLoopState, LeaderStage,
    RefreshOutcome, TickOutcome,
};

const MS: u64 = 1_000_000;

fn manager() -> LeaderLoopManager {
    LeaderLoopManager {
        non_leader_acquisition_retry_interval: 5_000 * MS,
        game_tick_interval: 1_000 * MS,
        refresh_check_interval: 4_500 * MS,
    }
}

#[test]
fn leader_runs_initialization_once_then_processes_ticks() {
    let m = manager();
    let mut s = LeaderLoopState::new();
    let t0 = 10 * MS;
    assert_eq!(m.step(&mut s, LeaderEvent::Woke, t0), LeaderAction::TryAcquire);
    assert_eq!(m.step(&mut s, LeaderEvent::Acquire(AcquireOutcome::Acquired), t0), LeaderAction::Refresh);
    assert!(s.is_leader);
    assert_eq!(
        m.step(&mut s, LeaderEvent::Refresh(RefreshOutcome::Refreshed), t0),
        LeaderAction::RunInitialization
    );
    // The initialization: migrations, then the flag (not set), the
    // bootstrap, and the flag is set.
    let (mut o, a) = InitializationOrchestrator::start(None);
    assert_eq!(a, InitAction::RunMigration);
    assert_eq!(o.step(InitEvent::Done(Ok(()))), InitAction::CheckFlag);
    assert_eq!(o.step(InitEvent::Flag(Ok(false))), InitAction::BootstrapAdmin);
    assert_eq!(o.step(InitEvent::Done(Ok(()))), InitAction::BootstrapEconomy);
    assert_eq!(o.step(InitEvent::Done(Ok(()))), InitAction::SetFlag);
    assert_eq!(o.step(InitEvent::Done(Ok(()))), InitAction::Finish(Ok(())));
    // The first tick is due one interval after the initialization.
    assert_eq!(m.step(&mut s, LeaderEvent::Initialization(true), t0), LeaderAction::Sleep(1_000 * MS));
    assert!(s.initialization_done);
    assert_eq!(s.next_tick_time, Some(t0 + 1_000 * MS));

    let t1 = t0 + 1_000 * MS;
    assert_eq!(m.step(&mut s, LeaderEvent::Woke, t1), LeaderAction::Refresh);
    assert_eq!(
        m.step(&mut s, LeaderEvent::Refresh(RefreshOutcome::Refreshed), t1),
        LeaderAction::ProcessNextTick
    );
    assert_eq!(s.stage, LeaderStage::Ticking { target: t1, started_at: t1 });
    assert_eq!(m.step(&mut s, LeaderEvent::Tick(TickOutcome::Processed), t1 + 2 * MS), LeaderAction::Sleep(998 * MS));
    assert_eq!(s.next_tick_time, Some(t1 + 1_000 * MS));

    // The second tick: no initialization any more.
    let t2 = t1 + 1_000 * MS;
    assert_eq!(m.step(&mut s, LeaderEvent::Woke, t2), LeaderAction::Refresh);
    assert_eq!(
        m.step(&mut s, LeaderEvent::Refresh(RefreshOutcome::Refreshed), t2),
        LeaderAction::ProcessNextTick
    );
    assert_eq!(m.step(&mut s, LeaderEvent::Tick(TickOutcome::Processed), t2), LeaderAction::Sleep(1_000 * MS));
}

#[test]
fn leader_relinquishes_on_initialization_failure() {
    let m = manager();
    let mut s = LeaderLoopState::new();
    let t0 = 10 * MS;
    m.step(&mut s, LeaderEvent::Woke, t0);
    m.step(&mut s, LeaderEvent::Acquire(AcquireOutcome::Acquired), t0);
    m.step(&mut s, LeaderEvent::Refresh(RefreshOutcome::Refreshed), t0);
    assert_eq!(m.step(&mut s, LeaderEvent::Initialization(false), t0), LeaderAction::Release);
    assert!(!s.is_leader);
    assert!(!s.initialization_done);
    assert_eq!(s.next_tick_time, None);
    assert_eq!(m.step(&mut s, LeaderEvent::Released, t0), LeaderAction::Sleep(5_000 * MS));
    // As a non-leader the loop tries to acquire the lock again.
    assert_eq!(m.step(&mut s, LeaderEvent::Woke, t0 + 5_000 * MS), LeaderAction::TryAcquire);
    assert_eq!(
        m.step(&mut s, LeaderEvent::Acquire(AcquireOutcome::HeldElsewhere), t0 + 5_000 * MS),
        LeaderAction::Sleep(5_000 * MS)
    );
}

#[test]
fn leader_skips_init_if_already_done_and_starts_ticking() {
    let m = manager();
    let mut s = LeaderLoopState::new();
    let t0 = 10 * MS;
    m.step(&mut s, LeaderEvent::Woke, t0);
    m.step(&mut s, LeaderEvent::Acquire(AcquireOutcome::Acquired), t0);
    assert_eq!(
        m.step(&mut s, LeaderEvent::Refresh(RefreshOutcome::Refreshed), t0),
        LeaderAction::RunInitialization
    );
    // The initialization: the migrations run once, then the flag is found
    // set and nothing else is done.
    let (mut o, a) = InitializationOrchestrator::start(None);
    assert_eq!(a, InitAction::RunMigration);
    assert_eq!(o.step(InitEvent::Done(Ok(()))), InitAction::CheckFlag);
    let outcome = o.step(InitEvent::Flag(Ok(true)));
    assert_eq!(outcome, InitAction::Finish(Ok::<(), ApplicationError>(())));
    // The orchestrator ran the migrations and found the database flag set:
    // the initialization succeeds, and ticking starts.
    assert_eq!(m.step(&mut s, LeaderEvent::Initialization(true), t0), LeaderAction::Sleep(1_000 * MS));
    let t1 = t0 + 1_000 * MS;
    m.step(&mut s, LeaderEvent::Woke, t1);
    assert_eq!(
        m.step(&mut s, LeaderEvent::Refresh(RefreshOutcome::Refreshed), t1),
        LeaderAction::ProcessNextTick
    );
}

#[test]
fn non_leader_waits_and_does_not_initialize() {
    let m = manager();
    let mut s = LeaderLoopState::new();
    let t0 = 0;
    assert_eq!(m.step(&mut s, LeaderEvent::Woke, t0), LeaderAction::TryAcquire);
    assert_eq!(
        m.step(&mut s, LeaderEvent::Acquire(AcquireOutcome::HeldElsewhere), t0),
        LeaderAction::Sleep(5_000 * MS)
    );
    assert!(!s.is_leader);
    let t1 = 5_000 * MS;
    assert_eq!(m.step(&mut s, LeaderEvent::Woke, t1), LeaderAction::TryAcquire);
    assert_eq!(m.step(&mut s, LeaderEvent::Acquire(AcquireOutcome::Acquired), t1), LeaderAction::Refresh);
    assert_eq!(
        m.step(&mut s, LeaderEvent::Refresh(RefreshOutcome::Refreshed), t1),
        LeaderAction::RunInitialization
    );
}

#[test]
fn slow_tick_reschedules_from_its_end() {
    let m = manager();
    let mut s = LeaderLoopState {
        is_leader: true,
        next_tick_time: Some(100 * MS),
        initialization_done: true,
        stage: LeaderStage::Ticking { target: 100 * MS, started_at: 100 * MS },
    };
    let end = 100 * MS + 1_500 * MS;
    assert_eq!(m.step(&mut s, LeaderEvent::Tick(TickOutcome::Processed), end), LeaderAction::Sleep(1_000 * MS));
    assert_eq!(s.next_tick_time, Some(end + 1_000 * MS));
}

#[test]
fn late_tick_yields_instead_of_sleeping() {
    let m = manager();
    let mut s = LeaderLoopState {
        is_leader: true,
        next_tick_time: Some(100 * MS),
        initialization_done: true,
        stage: LeaderStage::Ticking { target: 100 * MS, started_at: 1_050 * MS },
    };
    // The tick took 50 ms but started 950 ms late: the next one is already due.
    assert_eq!(m.step(&mut s, LeaderEvent::Tick(TickOutcome::Processed), 1_100 * MS), LeaderAction::Yield);
    assert_eq!(s.next_tick_time, Some(1_100 * MS));
}

#[test]
fn sleep_is_capped_by_refresh_interval() {
    let m = LeaderLoopManager {
        non_leader_acquisition_retry_interval: 5_000 * MS,
        game_tick_interval: 10_000 * MS,
        refresh_check_interval: 4_500 * MS,
    };
    let mut s = LeaderLoopState::new();
    m.step(&mut s, LeaderEvent::Woke, 0);
    m.step(&mut s, LeaderEvent::Acquire(AcquireOutcome::Acquired), 0);
    m.step(&mut s, LeaderEvent::Refresh(RefreshOutcome::Refreshed), 0);
    assert_eq!(m.step(&mut s, LeaderEvent::Initialization(true), 0), LeaderAction::Sleep(4_500 * MS));
}

#[test]
fn not_initialized_tick_keeps_schedule() {
    let m = manager();
    let mut s = LeaderLoopState {
        is_leader: true,
        next_tick_time: Some(100 * MS),
        initialization_done: true,
        stage: LeaderStage::Ticking { target: 100 * MS, started_at: 100 * MS },
    };
    assert_eq!(m.step(&mut s, LeaderEvent::Tick(TickOutcome::NotInitialized), 100 * MS), LeaderAction::Yield);
    assert_eq!(s.next_tick_time, Some(100 * MS));
    assert_eq!(s.stage, LeaderStage::Idle);
}

#[test]
fn failures_give_up_leadership() {
    let m = manager();
    let leader = LeaderLoopState {
        is_leader: true,
        next_tick_time: Some(100 * MS),
        initialization_done: true,
        stage: LeaderStage::Refreshing,
    };
    let mut s = leader;
    assert_eq!(m.step(&mut s, LeaderEvent::Refresh(RefreshOutcome::NotHoldingLock), 0), LeaderAction::TryAcquire);
    assert!(!s.is_leader);
    assert_eq!(s.next_tick_time, None);
    assert_eq!(s.stage, LeaderStage::Acquiring);

    let mut s = leader;
    assert_eq!(m.step(&mut s, LeaderEvent::Refresh(RefreshOutcome::Failed), 0), LeaderAction::Release);
    assert!(!s.is_leader);
    assert_eq!(s.stage, LeaderStage::Releasing);

    let mut s = LeaderLoopState { stage: LeaderStage::Ticking { target: 100 * MS, started_at: 100 * MS }, ..leader };
    assert_eq!(m.step(&mut s, LeaderEvent::Tick(TickOutcome::Failed), 0), LeaderAction::Release);
    assert_eq!(s.next_tick_time, None);
    assert!(s.initialization_done);
}
