//! The leader loop: one server instance at a time holds the leader lock,
//! runs the one-time initialization and processes game ticks on schedule.
//!
//! The loop alternates calls to the lock provider, the initializer and the
//! tick processor with decisions. The decisions are a state machine: the
//! caller performs each `LeaderAction`, then hands the outcome back as a
//! `LeaderEvent`, together with the current time, to get the next action.
//! Times and durations are in nanoseconds of a monotonic clock.
use vstd::prelude::*;

verus! {

/// The timing configuration of the loop.
#[derive(Debug, Clone, Copy, PartialEq, Eq, Structural)]
pub struct LeaderLoopManager {
    /// How long to wait before trying again to become leader.
    pub non_leader_acquisition_retry_interval: u64,
    /// The target time between two game ticks.
    pub game_tick_interval: u64,
    /// How long the leader may sleep before it must refresh its lock
    /// (slightly less than the lock's refresh interval).
    pub refresh_check_interval: u64,
}

/// What the loop is waiting for.
#[derive(Debug, Clone, Copy, PartialEq, Eq, Structural)]
pub enum LeaderStage {
    /// The start, or the end of a sleep: a new cycle begins.
    Idle,
    /// The outcome of an attempt to acquire the lock.
    Acquiring,
    /// The outcome of a lock refresh.
    Refreshing,
    /// The outcome of the one-time initialization.
    Initializing,
    /// The outcome of processing the tick due at `target`, started at
    /// `started_at`.
    Ticking { target: u64, started_at: u64 },
    /// The release of the lock after leadership was given up.
    Releasing,
}

/// The loop's state.
#[derive(Debug, Clone, Copy, PartialEq, Eq, Structural)]
pub struct LeaderLoopState {
    pub is_leader: bool,
    /// When the next game tick is due; none until the first leader cycle
    /// sets it.
    pub next_tick_time: Option<u64>,
    /// Whether the one-time initialization has succeeded (it is never run
    /// again afterwards).
    pub initialization_done: bool,
    pub stage: LeaderStage,
}

/// The outcome of an attempt to acquire the leader lock.
#[derive(Debug, Clone, Copy, PartialEq, Eq, Structural)]
pub enum AcquireOutcome {
    Acquired,
    HeldElsewhere,
    Failed,
}

/// The outcome of a lock refresh.
#[derive(Debug, Clone, Copy, PartialEq, Eq, Structural)]
pub enum RefreshOutcome {
    Refreshed,
    /// The lock expired or another instance holds it.
    NotHoldingLock,
    /// The lock provider could not be reached.
    Failed,
}

/// The outcome of processing a game tick.
#[derive(Debug, Clone, Copy, PartialEq, Eq, Structural)]
pub enum TickOutcome {
    Processed,
    /// The database is not initialized yet; the tick is retried later.
    NotInitialized,
    Failed,
}

/// What the caller hands back after performing an action.
#[derive(Debug, Clone, Copy, PartialEq, Eq, Structural)]
pub enum LeaderEvent {
    /// A sleep or yield ended (or the loop starts).
    Woke,
    Acquire(AcquireOutcome),
    Refresh(RefreshOutcome),
    /// Whether the one-time initialization succeeded.
    Initialization(bool),
    Tick(TickOutcome),
    /// The lock release ended (whether or not it succeeded).
    Released,
}

/// What the caller has to do next.
#[derive(Debug, Clone, Copy, PartialEq, Eq, Structural)]
pub enum LeaderAction {
    TryAcquire,
    Refresh,
    RunInitialization,
    ProcessNextTick,
    Release,
    Sleep(u64),
    Yield,
}

/// Whether `event` is the outcome of what the loop waits for in `stage`.
pub open spec fn event_expected(stage: LeaderStage, event: LeaderEvent) -> bool {
    match stage {
        LeaderStage::Idle => event is Woke,
        LeaderStage::Acquiring => event is Acquire,
        LeaderStage::Refreshing => event is Refresh,
        LeaderStage::Initializing => event is Initialization,
        LeaderStage::Ticking { .. } => event is Tick,
        LeaderStage::Releasing => event is Released,
    }
}

/// The sleep that ends a leader cycle: until the next tick is due, but not
/// longer than the lock allows; a yield when that is no time at all.
pub open spec fn sleep_until_next_event(cfg: LeaderLoopManager, next_tick: u64, now: u64) -> LeaderAction {
    let until_tick: int = if next_tick > now { next_tick - now } else { 0 };
    let d: int = if until_tick < cfg.refresh_check_interval { until_tick } else { cfg.refresh_check_interval as int };
    if d > 0 {
        LeaderAction::Sleep(d as u64)
    } else {
        LeaderAction::Yield
    }
}

/// A leader cycle once the lock is held and the initialization is done:
/// the tick timer is set on the first cycle; a due tick is processed,
/// otherwise the loop sleeps.
pub open spec fn tick_cycle(cfg: LeaderLoopManager, s: LeaderLoopState, now: u64) -> (LeaderLoopState, LeaderAction) {
    let target: u64 = match s.next_tick_time {
        Some(t) => t,
        None => (now + cfg.game_tick_interval) as u64,
    };
    if now < target {
        (
            LeaderLoopState { next_tick_time: Some(target), stage: LeaderStage::Idle, ..s },
            sleep_until_next_event(cfg, target, now),
        )
    } else {
        (
            LeaderLoopState {
                next_tick_time: Some(target),
                stage: LeaderStage::Ticking { target, started_at: now },
                ..s
            },
            LeaderAction::ProcessNextTick,
        )
    }
}

/// Giving up leadership: forget the tick timer and release the lock.
pub open spec fn relinquish(s: LeaderLoopState) -> (LeaderLoopState, LeaderAction) {
    (
        LeaderLoopState { is_leader: false, next_tick_time: None, stage: LeaderStage::Releasing, ..s },
        LeaderAction::Release,
    )
}

/// The next state and action of the loop after `event`, at time `now`.
pub open spec fn leader_step(cfg: LeaderLoopManager, s: LeaderLoopState, event: LeaderEvent, now: u64) -> (LeaderLoopState, LeaderAction) {
    match event {
        LeaderEvent::Woke => if s.is_leader {
            (LeaderLoopState { stage: LeaderStage::Refreshing, ..s }, LeaderAction::Refresh)
        } else {
            (LeaderLoopState { stage: LeaderStage::Acquiring, ..s }, LeaderAction::TryAcquire)
        },
        LeaderEvent::Acquire(AcquireOutcome::Acquired) => (
            LeaderLoopState { is_leader: true, next_tick_time: None, stage: LeaderStage::Refreshing, ..s },
            LeaderAction::Refresh,
        ),
        LeaderEvent::Acquire(_) => (
            LeaderLoopState { stage: LeaderStage::Idle, ..s },
            LeaderAction::Sleep(cfg.non_leader_acquisition_retry_interval),
        ),
        LeaderEvent::Refresh(RefreshOutcome::Refreshed) => if !s.initialization_done {
            (LeaderLoopState { stage: LeaderStage::Initializing, ..s }, LeaderAction::RunInitialization)
        } else {
            tick_cycle(cfg, s, now)
        },
        LeaderEvent::Refresh(RefreshOutcome::NotHoldingLock) => (
            LeaderLoopState { is_leader: false, next_tick_time: None, stage: LeaderStage::Acquiring, ..s },
            LeaderAction::TryAcquire,
        ),
        LeaderEvent::Refresh(RefreshOutcome::Failed) => relinquish(s),
        LeaderEvent::Initialization(true) => tick_cycle(cfg, LeaderLoopState { initialization_done: true, ..s }, now),
        LeaderEvent::Initialization(false) => relinquish(s),
        LeaderEvent::Tick(TickOutcome::Processed) => match s.stage {
            LeaderStage::Ticking { target, started_at } => {
                let duration: int = if now > started_at { now - started_at } else { 0 };
                let next: u64 = if duration > cfg.game_tick_interval {
                    (now + cfg.game_tick_interval) as u64
                } else {
                    (target + cfg.game_tick_interval) as u64
                };
                (
                    LeaderLoopState { next_tick_time: Some(next), stage: LeaderStage::Idle, ..s },
                    sleep_until_next_event(cfg, next, now),
                )
            },
            _ => (s, LeaderAction::Yield),
        },
        LeaderEvent::Tick(TickOutcome::NotInitialized) => match s.stage {
            LeaderStage::Ticking { target, .. } => (
                LeaderLoopState { stage: LeaderStage::Idle, ..s },
                sleep_until_next_event(cfg, target, now),
            ),
            _ => (s, LeaderAction::Yield),
        },
        LeaderEvent::Tick(TickOutcome::Failed) => relinquish(s),
        LeaderEvent::Released => (
            LeaderLoopState { stage: LeaderStage::Idle, ..s },
            LeaderAction::Sleep(cfg.non_leader_acquisition_retry_interval),
        ),
    }
}

/// The times handed to a step stay within the clock's range: the loop
/// never adds the tick interval past the end of the clock.
pub open spec fn step_in_range(cfg: LeaderLoopManager, s: LeaderLoopState, now: u64) -> bool {
    &&& now + cfg.game_tick_interval <= u64::MAX
    &&& s.next_tick_time matches Some(t) ==> t + cfg.game_tick_interval <= u64::MAX
    &&& s.stage matches LeaderStage::Ticking { target, .. } ==> target + cfg.game_tick_interval <= u64::MAX
}

/// The consistency the loop keeps between leadership, the tick timer and
/// what it waits for.
pub open spec fn leader_loop_wf(s: LeaderLoopState) -> bool {
    &&& !s.is_leader ==> s.next_tick_time is None
    &&& s.stage is Acquiring ==> !s.is_leader
    &&& s.stage is Refreshing ==> s.is_leader
    &&& s.stage is Initializing ==> s.is_leader && !s.initialization_done
    &&& s.stage matches LeaderStage::Ticking { target, .. } ==> s.is_leader && s.initialization_done
        && s.next_tick_time == Some(target)
    &&& s.stage is Releasing ==> !s.is_leader
}

/// Whether `stage` is the stage that waits for the outcome of action `a`.
pub open spec fn stage_matches_action(stage: LeaderStage, a: LeaderAction) -> bool {
    match a {
        LeaderAction::TryAcquire => stage is Acquiring,
        LeaderAction::Refresh => stage is Refreshing,
        LeaderAction::RunInitialization => stage is Initializing,
        LeaderAction::ProcessNextTick => stage is Ticking,
        LeaderAction::Release => stage is Releasing,
        LeaderAction::Sleep(_) | LeaderAction::Yield => stage is Idle,
    }
}

/// The loop starts consistent, not leader, waiting to begin a cycle.
pub proof fn lemma_initial_state_wf()
    ensures
        leader_loop_wf(LeaderLoopState {
            is_leader: false,
            next_tick_time: None,
            initialization_done: false,
            stage: LeaderStage::Idle,
        }),
{
}

/// Every step keeps the loop consistent, and the next state waits for the
/// outcome of exactly the action it asks for.
pub proof fn lemma_step_preserves_wf(cfg: LeaderLoopManager, s: LeaderLoopState, e: LeaderEvent, now: u64)
    requires
        leader_loop_wf(s),
        event_expected(s.stage, e),
        step_in_range(cfg, s, now),
    ensures
        leader_loop_wf(leader_step(cfg, s, e, now).0),
        stage_matches_action(leader_step(cfg, s, e, now).0.stage, leader_step(cfg, s, e, now).1),
{
}

/// The one-time initialization is only run by the leader, only while it
/// has not succeeded, and once it has succeeded it is never run again.
pub proof fn lemma_initialization_runs_once(cfg: LeaderLoopManager, s: LeaderLoopState, e: LeaderEvent, now: u64)
    requires
        leader_loop_wf(s),
        event_expected(s.stage, e),
        step_in_range(cfg, s, now),
    ensures
        s.initialization_done ==> leader_step(cfg, s, e, now).0.initialization_done,
        leader_step(cfg, s, e, now).1 == LeaderAction::RunInitialization ==> s.is_leader
            && !s.initialization_done,
        s.initialization_done ==> leader_step(cfg, s, e, now).1 != LeaderAction::RunInitialization,
{
}

/// A tick is only processed by the leader, after the initialization, once
/// it is due; and after a tick the loop always sleeps or yields (or gives up
/// leadership) before the next one: it never runs ticks back to back to
/// catch up.
pub proof fn lemma_ticks_only_when_due(cfg: LeaderLoopManager, s: LeaderLoopState, e: LeaderEvent, now: u64)
    requires
        leader_loop_wf(s),
        event_expected(s.stage, e),
        step_in_range(cfg, s, now),
    ensures
        ({
            let (s2, a) = leader_step(cfg, s, e, now);
            &&& a == LeaderAction::ProcessNextTick ==> (s2.is_leader && s2.initialization_done
                && (s2.stage matches LeaderStage::Ticking { target, started_at } && target <= now
                && started_at == now))
            &&& e is Tick ==> a != LeaderAction::ProcessNextTick
        }),
{
}

/// The schedule after a processed tick: a tick that took no longer than
/// the interval keeps the fixed cadence (the next tick is one interval
/// after this one's target); a slower tick schedules the next one a full
/// interval after it finished.
pub proof fn lemma_tick_schedule(cfg: LeaderLoopManager, s: LeaderLoopState, now: u64, target: u64, started_at: u64)
    requires
        s.stage == (LeaderStage::Ticking { target, started_at }),
        step_in_range(cfg, s, now),
    ensures
        ({
            let s2 = leader_step(cfg, s, LeaderEvent::Tick(TickOutcome::Processed), now).0;
            &&& now - started_at <= cfg.game_tick_interval ==> s2.next_tick_time == Some(
                (target + cfg.game_tick_interval) as u64,
            )
            &&& now - started_at > cfg.game_tick_interval ==> s2.next_tick_time == Some(
                (now + cfg.game_tick_interval) as u64,
            )
            &&& leader_step(cfg, s, LeaderEvent::Tick(TickOutcome::NotInitialized), now).0.next_tick_time
                == s.next_tick_time
        }),
{
}

/// The leader sleeps exactly until the sooner of the next tick and the
/// point where its lock needs refreshing: never past either.
pub proof fn lemma_leader_sleep_bounded(cfg: LeaderLoopManager, s: LeaderLoopState, e: LeaderEvent, now: u64, d: u64)
    requires
        leader_loop_wf(s),
        event_expected(s.stage, e),
        step_in_range(cfg, s, now),
        leader_step(cfg, s, e, now).1 == LeaderAction::Sleep(d),
        leader_step(cfg, s, e, now).0.is_leader,
    ensures
        0 < d <= cfg.refresh_check_interval,
        (leader_step(cfg, s, e, now).0.next_tick_time matches Some(t) && now + d <= t && d == if t - now
            < cfg.refresh_check_interval {
            t - now
        } else {
            cfg.refresh_check_interval as int
        }),
{
}

/// Leadership is given up, with the tick timer cleared, when the lock is
/// lost or cannot be refreshed, when the initialization fails, and when a
/// tick fails; the lock is released in every case but the lost lock.
pub proof fn lemma_relinquish_on_failure(cfg: LeaderLoopManager, s: LeaderLoopState, e: LeaderEvent, now: u64)
    requires
        e == LeaderEvent::Refresh(RefreshOutcome::NotHoldingLock) || e == LeaderEvent::Refresh(
            RefreshOutcome::Failed,
        ) || e == LeaderEvent::Initialization(false) || e == LeaderEvent::Tick(TickOutcome::Failed),
    ensures
        !leader_step(cfg, s, e, now).0.is_leader,
        leader_step(cfg, s, e, now).0.next_tick_time is None,
        (leader_step(cfg, s, e, now).1 == LeaderAction::Release) == (e != LeaderEvent::Refresh(
            RefreshOutcome::NotHoldingLock,
        )),
{
}

/// Leadership is only ever gained by acquiring the lock: a step that makes
/// a non-leader the leader answers a successful acquisition, and a failed
/// or refused acquisition leaves the instance as it was (not the leader,
/// with no tick scheduled) and sleeps for the retry interval.
pub proof fn lemma_leadership_only_by_acquisition(
    cfg: LeaderLoopManager,
    s: LeaderLoopState,
    e: LeaderEvent,
    now: u64,
)
    ensures
        !s.is_leader && leader_step(cfg, s, e, now).0.is_leader ==> e == LeaderEvent::Acquire(AcquireOutcome::Acquired),
        e == LeaderEvent::Acquire(AcquireOutcome::Acquired) ==> leader_step(cfg, s, e, now).0.is_leader
            && leader_step(cfg, s, e, now).1 == LeaderAction::Refresh,
        (e == LeaderEvent::Acquire(AcquireOutcome::HeldElsewhere) || e == LeaderEvent::Acquire(
            AcquireOutcome::Failed,
        )) ==> {
            &&& leader_step(cfg, s, e, now).1 == LeaderAction::Sleep(cfg.non_leader_acquisition_retry_interval)
            &&& leader_step(cfg, s, e, now).0.is_leader == s.is_leader
            &&& leader_step(cfg, s, e, now).0.next_tick_time == s.next_tick_time
            &&& leader_step(cfg, s, e, now).0.initialization_done == s.initialization_done
        },
        !s.is_leader && e is Woke ==> leader_step(cfg, s, e, now).1 == LeaderAction::TryAcquire,
{
}

/// After refreshing its lock the leader first runs the initialization when
/// it has not succeeded yet; once it has, it processes the next tick when
/// that tick is due and otherwise waits for it. A wake-up of the leader
/// refreshes the lock, and losing the lock (another instance holds it)
/// makes the instance a non-leader that tries to acquire it again.
pub proof fn lemma_refresh_outcomes(cfg: LeaderLoopManager, s: LeaderLoopState, now: u64)
    requires
        step_in_range(cfg, s, now),
    ensures
        !s.initialization_done ==> leader_step(cfg, s, LeaderEvent::Refresh(RefreshOutcome::Refreshed), now).1
            == LeaderAction::RunInitialization,
        s.initialization_done ==> ({
            let due: int = match s.next_tick_time {
                Some(t) => t as int,
                None => now + cfg.game_tick_interval,
            };
            let a = leader_step(cfg, s, LeaderEvent::Refresh(RefreshOutcome::Refreshed), now).1;
            &&& now >= due ==> a == LeaderAction::ProcessNextTick
            &&& now < due ==> a != LeaderAction::ProcessNextTick && a != LeaderAction::RunInitialization
        }),
        s.is_leader ==> leader_step(cfg, s, LeaderEvent::Woke, now).1 == LeaderAction::Refresh,
        ({
            let (s2, a) = leader_step(cfg, s, LeaderEvent::Refresh(RefreshOutcome::NotHoldingLock), now);
            &&& !s2.is_leader
            &&& s2.next_tick_time is None
            &&& a == LeaderAction::TryAcquire
        }),
        leader_step(cfg, s, LeaderEvent::Released, now).1 == LeaderAction::Sleep(cfg.non_leader_acquisition_retry_interval),
{
}

/// The state of the loop after it handled `events` in turn (each with the
/// time it came at), starting from `s`.
pub open spec fn run_events(cfg: LeaderLoopManager, s: LeaderLoopState, events: Seq<(LeaderEvent, u64)>) -> LeaderLoopState
    decreases events.len(),
{
    if events.len() == 0 {
        s
    } else {
        let before = run_events(cfg, s, events.drop_last());
        leader_step(cfg, before, events.last().0, events.last().1).0
    }
}

/// The action the loop takes in answer to the `k`-th event of `events`.
pub open spec fn action_at(cfg: LeaderLoopManager, s: LeaderLoopState, events: Seq<(LeaderEvent, u64)>, k: int) -> LeaderAction {
    leader_step(cfg, run_events(cfg, s, events.take(k)), events[k].0, events[k].1).1
}

/// Whether the `k`-th event of `events` is one the loop waits for at that
/// point, at a time within the clock's range.
pub open spec fn event_fits(cfg: LeaderLoopManager, s: LeaderLoopState, events: Seq<(LeaderEvent, u64)>, k: int) -> bool {
    let before = run_events(cfg, s, events.take(k));
    event_expected(before.stage, events[k].0) && step_in_range(cfg, before, events[k].1)
}

/// Whether every event of `events` is one the loop waits for, in turn.
pub open spec fn valid_run(cfg: LeaderLoopManager, s: LeaderLoopState, events: Seq<(LeaderEvent, u64)>) -> bool {
    forall|k: int| 0 <= k < events.len() ==> #[trigger] event_fits(cfg, s, events, k)
}

proof fn lemma_run_step(cfg: LeaderLoopManager, s: LeaderLoopState, events: Seq<(LeaderEvent, u64)>, n: int)
    requires
        0 < n <= events.len(),
    ensures
        run_events(cfg, s, events.take(n)) == leader_step(
            cfg,
            run_events(cfg, s, events.take(n - 1)),
            events[n - 1].0,
            events[n - 1].1,
        ).0,
{
    assert(events.take(n).drop_last() =~= events.take(n - 1));
    assert(events.take(n).last() == events[n - 1]);
}

proof fn lemma_run_stays_consistent(cfg: LeaderLoopManager, s: LeaderLoopState, events: Seq<(LeaderEvent, u64)>, k: int, n: int)
    requires
        leader_loop_wf(s),
        valid_run(cfg, s, events),
        0 <= k <= n <= events.len(),
    ensures
        leader_loop_wf(run_events(cfg, s, events.take(n))),
        run_events(cfg, s, events.take(k)).initialization_done ==> run_events(
            cfg,
            s,
            events.take(n),
        ).initialization_done,
    decreases n,
{
    if n == 0 {
        assert(events.take(0) =~= Seq::<(LeaderEvent, u64)>::empty());
    } else if n == k {
        lemma_run_stays_consistent(cfg, s, events, k - 1, n - 1);
        lemma_run_step(cfg, s, events, n);
        assert(event_fits(cfg, s, events, n - 1));
        lemma_step_preserves_wf(cfg, run_events(cfg, s, events.take(n - 1)), events[n - 1].0, events[n - 1].1);
    } else {
        lemma_run_stays_consistent(cfg, s, events, k, n - 1);
        lemma_run_step(cfg, s, events, n);
        assert(event_fits(cfg, s, events, n - 1));
        let before = run_events(cfg, s, events.take(n - 1));
        lemma_step_preserves_wf(cfg, before, events[n - 1].0, events[n - 1].1);
        lemma_initialization_runs_once(cfg, before, events[n - 1].0, events[n - 1].1);
    }
}

/// Over any run of the loop: once the one-time initialization has
/// succeeded, it is never asked for again, whatever happens afterwards
/// (lost leadership, failed ticks, new elections).
pub proof fn lemma_initialization_never_repeats(
    cfg: LeaderLoopManager,
    s: LeaderLoopState,
    events: Seq<(LeaderEvent, u64)>,
    k: int,
    j: int,
)
    requires
        leader_loop_wf(s),
        valid_run(cfg, s, events),
        0 <= k <= j < events.len(),
        run_events(cfg, s, events.take(k)).initialization_done,
    ensures
        action_at(cfg, s, events, j) != LeaderAction::RunInitialization,
{
    lemma_run_stays_consistent(cfg, s, events, k, j);
    assert(event_fits(cfg, s, events, j));
    lemma_initialization_runs_once(cfg, run_events(cfg, s, events.take(j)), events[j].0, events[j].1);
}

/// Over any run of the loop from its start: when the initialization asked
/// for at event `k` succeeds (event `k + 1` reports success), no later event
/// leads to running it again; so a first successful initialization runs
/// exactly once.
pub proof fn lemma_successful_initialization_runs_once(
    cfg: LeaderLoopManager,
    events: Seq<(LeaderEvent, u64)>,
    k: int,
    j: int,
)
    requires
        valid_run(cfg, LeaderLoopState::initial(), events),
        0 <= k < k + 1 < j < events.len(),
        action_at(cfg, LeaderLoopState::initial(), events, k) == LeaderAction::RunInitialization,
        events[k + 1].0 == LeaderEvent::Initialization(true),
    ensures
        action_at(cfg, LeaderLoopState::initial(), events, j) != LeaderAction::RunInitialization,
{
    let s = LeaderLoopState::initial();
    lemma_run_step(cfg, s, events, k + 2);
    lemma_initialization_never_repeats(cfg, s, events, k + 2, j);
}

impl LeaderLoopState {
    /// The state the loop starts in.
    pub open spec fn initial() -> Self {
        LeaderLoopState { is_leader: false, next_tick_time: None, initialization_done: false, stage: LeaderStage::Idle }
    }
}

impl LeaderLoopState {
    /// The state the loop starts in: not leader, nothing initialized.
    pub fn new() -> (r: Self)
        ensures
            r == (LeaderLoopState {
                is_leader: false,
                next_tick_time: None,
                initialization_done: false,
                stage: LeaderStage::Idle,
            }),
    {
        LeaderLoopState {
            is_leader: false,
            next_tick_time: None,
            initialization_done: false,
            stage: LeaderStage::Idle,
        }
    }
}

impl LeaderLoopManager {
    fn sleep_until_next_event(&self, next_tick: u64, now: u64) -> (a: LeaderAction)
        ensures
            a == sleep_until_next_event(*self, next_tick, now),
    {
        let until_tick = next_tick.saturating_sub(now);
        let d = if until_tick < self.refresh_check_interval {
            until_tick
        } else {
            self.refresh_check_interval
        };
        if d > 0 {
            LeaderAction::Sleep(d)
        } else {
            LeaderAction::Yield
        }
    }

    fn tick_cycle(&self, state: &mut LeaderLoopState, now: u64) -> (a: LeaderAction)
        requires
            step_in_range(*self, *old(state), now),
        ensures
            (*final(state), a) == tick_cycle(*self, *old(state), now),
    {
        let target = match state.next_tick_time {
            Some(t) => t,
            None => now + self.game_tick_interval,
        };
        state.next_tick_time = Some(target);
        if now < target {
            state.stage = LeaderStage::Idle;
            self.sleep_until_next_event(target, now)
        } else {
            state.stage = LeaderStage::Ticking { target, started_at: now };
            LeaderAction::ProcessNextTick
        }
    }

    fn relinquish(&self, state: &mut LeaderLoopState) -> (a: LeaderAction)
        ensures
            (*final(state), a) == relinquish(*old(state)),
    {
        state.is_leader = false;
        state.next_tick_time = None;
        state.stage = LeaderStage::Releasing;
        LeaderAction::Release
    }

    /// Advances the loop with the outcome of the last action (`event`) at
    /// time `now`, and returns the next action.
    pub fn step(&self, state: &mut LeaderLoopState, event: LeaderEvent, now: u64) -> (a: LeaderAction)
        requires
            event_expected(old(state).stage, event),
            step_in_range(*self, *old(state), now),
        ensures
            (*final(state), a) == leader_step(*self, *old(state), event, now),
    {
        match event {
            LeaderEvent::Woke => {
                if state.is_leader {
                    state.stage = LeaderStage::Refreshing;
                    LeaderAction::Refresh
                } else {
                    state.stage = LeaderStage::Acquiring;
                    LeaderAction::TryAcquire
                }
            },
            LeaderEvent::Acquire(AcquireOutcome::Acquired) => {
                state.is_leader = true;
                state.next_tick_time = None;
                state.stage = LeaderStage::Refreshing;
                LeaderAction::Refresh
            },
            LeaderEvent::Acquire(_) => {
                state.stage = LeaderStage::Idle;
                LeaderAction::Sleep(self.non_leader_acquisition_retry_interval)
            },
            LeaderEvent::Refresh(RefreshOutcome::Refreshed) => {
                if !state.initialization_done {
                    state.stage = LeaderStage::Initializing;
                    LeaderAction::RunInitialization
                } else {
                    self.tick_cycle(state, now)
                }
            },
            LeaderEvent::Refresh(RefreshOutcome::NotHoldingLock) => {
                state.is_leader = false;
                state.next_tick_time = None;
                state.stage = LeaderStage::Acquiring;
                LeaderAction::TryAcquire
            },
            LeaderEvent::Refresh(RefreshOutcome::Failed) => self.relinquish(state),
            LeaderEvent::Initialization(true) => {
                state.initialization_done = true;
                self.tick_cycle(state, now)
            },
            LeaderEvent::Initialization(false) => self.relinquish(state),
            LeaderEvent::Tick(TickOutcome::Processed) => {
                match state.stage {
                    LeaderStage::Ticking { target, started_at } => {
                        let duration = now.saturating_sub(started_at);
                        let next = if duration > self.game_tick_interval {
                            now + self.game_tick_interval
                        } else {
                            target + self.game_tick_interval
                        };
                        state.next_tick_time = Some(next);
                        state.stage = LeaderStage::Idle;
                        self.sleep_until_next_event(next, now)
                    },
                    _ => LeaderAction::Yield,
                }
            },
            LeaderEvent::Tick(TickOutcome::NotInitialized) => {
                match state.stage {
                    LeaderStage::Ticking { target, .. } => {
                        state.stage = LeaderStage::Idle;
                        self.sleep_until_next_event(target, now)
                    },
                    _ => LeaderAction::Yield,
                }
            },
            LeaderEvent::Tick(TickOutcome::Failed) => self.relinquish(state),
            LeaderEvent::Released => {
                state.stage = LeaderStage::Idle;
                LeaderAction::Sleep(self.non_leader_acquisition_retry_interval)
            },
        }
    }
}

} // verus!
