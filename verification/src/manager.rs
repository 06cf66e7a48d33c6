//! The owner of the settings and the status, and the rules of the schedule.
//!
//! A `SyncManager` does no work itself. Whoever drives it asks it whether a
//! cycle may begin, runs the cycle, and tells it how the cycle ended.

use vstd::prelude::*;
use crate::config::SyncConfig;
use crate::config::default_config;
use crate::engine::PullOutcome;
use crate::status::StatusView;
use crate::status::SyncStatus;
use crate::status::MAX_RETRIES;
use crate::status::disabled_message;

verus! {

/// Seconds between two looks of the scheduler at the clock.
pub const TICK_SECS: u64 = 60;

/// One per process: it holds the settings and the status, and knows whether
/// the scheduler's task is running.
#[derive(Debug, PartialEq, Eq)]
pub struct SyncManager {
    /// The settings in force.
    pub config: SyncConfig,
    /// The status that is reported.
    pub status: SyncStatus,
    /// Whether the scheduler's task has been started and not stopped since.
    pub task_running: bool,
    /// Whether an initialisation has taken place in this process, whatever
    /// it found.
    pub initialized: bool,
}

/// What is to be done once the manager has been initialised.
#[derive(Debug, Clone, Copy, PartialEq, Eq, Structural)]
pub struct Startup {
    /// Whether to pull from the shared folder now.
    pub load_from_onedrive: bool,
    /// Whether to start the scheduler after that.
    pub start_auto_sync: bool,
}

/// Whether the interval between scheduled cycles is over: no cycle has
/// succeeded yet, or the last success is at least `minutes` minutes back. A
/// last success that lies in the future counts as this very moment.
pub open spec fn interval_elapsed(last_sync: Option<u64>, minutes: u64, now: u64) -> bool {
    match last_sync {
        None => true,
        Some(last) => {
            let elapsed = if now >= last {
                now - last
            } else {
                0
            };
            elapsed >= minutes * 60
        },
    }
}

/// Whether a scheduled cycle begins at `now`: the scheduler runs,
/// synchronisation is enabled, no cycle is under way and the interval is
/// over.
pub open spec fn cycle_begins(
    status: StatusView,
    minutes: u64,
    task_running: bool,
    now: u64,
) -> bool {
    &&& task_running
    &&& status.is_enabled
    &&& !status.sync_in_progress
    &&& interval_elapsed(status.last_sync, minutes, now)
}

/// The status once the shared folder has been probed and the settings read.
pub open spec fn initialised(status: StatusView, available: bool, config: SyncConfig) -> StatusView {
    StatusView {
        onedrive_available: available,
        is_enabled: config.auto_sync_enabled && available,
        ..status
    }
}

/// A failed cycle: its message and the second at which it failed.
pub struct Failure {
    pub message: Seq<char>,
    pub time: u64,
}

/// The status after scheduled cycles have failed one after the other.
pub open spec fn after_failures(status: StatusView, failures: Seq<Failure>) -> StatusView
    decreases failures.len(),
{
    if failures.len() == 0 {
        status
    } else {
        after_failures(status, failures.drop_last()).failed_on_schedule(
            failures.last().message,
            failures.last().time,
        )
    }
}

impl SyncManager {
    /// Whether the settings in force are well formed. `new` makes it so,
    /// and no method of the manager changes it.
    pub open spec fn well_formed(self) -> bool {
        self.config.well_formed()
    }

    /// A manager with the default settings, nothing known of the shared
    /// folder and no scheduler running.
    pub fn new() -> (manager: Self)
        ensures
            manager.config == default_config(),
            manager.status@ == StatusView::initial(),
            !manager.task_running,
            !manager.initialized,
            manager.well_formed(),
    {
        SyncManager {
            config: SyncConfig::default(),
            status: SyncStatus::new(),
            task_running: false,
            initialized: false,
        }
    }

    /// Takes in what start-up found: whether the shared folder can be used,
    /// and the settings that were read, which are put in force.
    /// Synchronisation is enabled if the settings ask for it and the folder
    /// is there; this is also what enables it again after it has switched
    /// itself off. The manager notes that it has been initialised. The plan
    /// says what to do next: pull whenever the folder is there, then start
    /// the scheduler if synchronisation is enabled.
    pub fn initialize(&mut self, onedrive_available: bool, config: SyncConfig) -> (plan: Startup)
        requires
            config.well_formed(),
        ensures
            final(self).status@ == initialised(old(self).status@, onedrive_available, config),
            final(self).config == config,
            final(self).task_running == old(self).task_running,
            final(self).initialized,
            final(self).well_formed(),
            plan.load_from_onedrive == onedrive_available,
            plan.start_auto_sync == (config.auto_sync_enabled && onedrive_available),
    {
        let enabled = config.auto_sync_enabled && onedrive_available;
        self.status.onedrive_available = onedrive_available;
        self.status.is_enabled = enabled;
        self.config = config;
        self.initialized = true;
        Startup { load_from_onedrive: onedrive_available, start_auto_sync: enabled }
    }

    /// Whether a status query has to initialise first: only as long as no
    /// initialisation has taken place. After one that found no shared
    /// folder a query reports just that, and probes no more.
    pub fn needs_initialization(&self) -> (needed: bool)
        ensures
            needed == !self.initialized,
    {
        !self.initialized
    }

    /// As `initialize`, for the initialisation that a status query brings
    /// about. It starts no scheduler. Returns whether to pull now.
    pub fn initialize_sync(&mut self, onedrive_available: bool, config: SyncConfig) -> (load: bool)
        requires
            config.well_formed(),
        ensures
            final(self).status@ == initialised(old(self).status@, onedrive_available, config),
            final(self).config == config,
            final(self).task_running == old(self).task_running,
            final(self).initialized,
            final(self).well_formed(),
            load == onedrive_available,
    {
        self.status.onedrive_available = onedrive_available;
        self.status.is_enabled = config.auto_sync_enabled && onedrive_available;
        self.config = config;
        self.initialized = true;
        onedrive_available
    }

    /// Whether the pull of an initialisation is to be followed by a first
    /// push: when the shared folder holds no data yet and the settings ask
    /// for synchronisation.
    pub fn needs_initial_sync(outcome: &PullOutcome, config: &SyncConfig) -> (needed: bool)
        ensures
            needed == (*outcome is NoRemoteData && config.auto_sync_enabled),
    {
        match outcome {
            PullOutcome::NoRemoteData => config.auto_sync_enabled,
            _ => false,
        }
    }

    /// Notes that the scheduler is to run. Returns whether its task has to
    /// be started: not when it runs already.
    pub fn start_auto_sync(&mut self) -> (spawn: bool)
        ensures
            spawn == !old(self).task_running,
            final(self).task_running,
            final(self).config == old(self).config,
            final(self).status == old(self).status,
            final(self).initialized == old(self).initialized,
    {
        let spawn = !self.task_running;
        self.task_running = true;
        spawn
    }

    /// Notes that the scheduler is to stop. Returns whether there is a task
    /// to cancel.
    pub fn stop_auto_sync(&mut self) -> (cancel: bool)
        ensures
            cancel == old(self).task_running,
            !final(self).task_running,
            final(self).config == old(self).config,
            final(self).status == old(self).status,
            final(self).initialized == old(self).initialized,
    {
        let cancel = self.task_running;
        self.task_running = false;
        cancel
    }

    /// Whether the interval between scheduled cycles is over at `now`.
    pub fn sync_due(&self, now: u64) -> (due: bool)
        ensures
            due == interval_elapsed(self.status.last_sync, self.config.sync_interval_minutes, now),
    {
        match self.status.last_sync {
            None => true,
            Some(last) => {
                let elapsed: u64 = if now >= last {
                    now - last
                } else {
                    0
                };
                elapsed / 60 >= self.config.sync_interval_minutes
            },
        }
    }

    /// One tick of the scheduler. Where a scheduled cycle begins, the cycle
    /// is marked as under way and `true` is returned: the caller runs it and
    /// reports with `finish_scheduled_sync`. Where none begins, nothing
    /// changes.
    pub fn begin_scheduled_sync(&mut self, now: u64) -> (run: bool)
        ensures
            run == cycle_begins(
                old(self).status@,
                old(self).config.sync_interval_minutes,
                old(self).task_running,
                now,
            ),
            final(self).config == old(self).config,
            final(self).task_running == old(self).task_running,
            final(self).initialized == old(self).initialized,
            run ==> final(self).status@ == (StatusView {
                sync_in_progress: true,
                ..old(self).status@
            }),
            !run ==> final(self).status == old(self).status,
    {
        if self.task_running && self.status.is_enabled && !self.status.sync_in_progress
            && self.sync_due(now) {
            self.status.sync_in_progress = true;
            true
        } else {
            false
        }
    }

    /// Records how a scheduled cycle ended at `now`. A success is dated and
    /// clears the failures. A failure is recorded and counted, and the
    /// failure that brings the count to `MAX_RETRIES` disables
    /// synchronisation.
    pub fn finish_scheduled_sync(&mut self, result: Result<(), String>, now: u64)
        ensures
            final(self).config == old(self).config,
            final(self).task_running == old(self).task_running,
            final(self).initialized == old(self).initialized,
            final(self).status@ == match result {
                Ok(_) => old(self).status@.succeeded(now),
                Err(message) => old(self).status@.failed_on_schedule(message@, now),
            },
    {
        match result {
            Ok(_) => self.status.record_success(now),
            Err(message) => self.status.record_scheduled_failure(message, now),
        }
    }

    /// Claims the right to run a cycle that the user asked for. Returns
    /// `false`, and changes nothing, while another cycle is under way.
    pub fn begin_manual_sync(&mut self) -> (claimed: bool)
        ensures
            claimed == !old(self).status.sync_in_progress,
            final(self).config == old(self).config,
            final(self).task_running == old(self).task_running,
            final(self).initialized == old(self).initialized,
            final(self).status@ == (StatusView { sync_in_progress: true, ..old(self).status@ }),
    {
        let claimed = !self.status.sync_in_progress;
        self.status.sync_in_progress = true;
        claimed
    }

    /// Records how a cycle that the user asked for ended at `now`, and
    /// hands the result on. A failure is recorded and counted, but it never
    /// disables synchronisation.
    pub fn manual_sync(&mut self, result: Result<(), String>, now: u64) -> (handed: Result<
        (),
        String,
    >)
        ensures
            handed == result,
            final(self).config == old(self).config,
            final(self).task_running == old(self).task_running,
            final(self).initialized == old(self).initialized,
            final(self).status@ == match result {
                Ok(_) => old(self).status@.succeeded(now),
                Err(message) => old(self).status@.failed(message@, now),
            },
    {
        match &result {
            Ok(_) => self.status.record_success(now),
            Err(message) => self.status.record_failure(message.clone(), now),
        }
        result
    }

    /// The status as it is.
    pub fn get_status(&self) -> (status: SyncStatus)
        ensures
            status == self.status,
    {
        self.status.clone()
    }

    /// The settings in force.
    pub fn get_config(&self) -> (config: SyncConfig)
        ensures
            config == self.config,
    {
        self.config.clone()
    }

    /// Puts new settings in force. Whether they could be stored does not
    /// matter here: a failed save shows only when the settings are next
    /// read.
    pub fn update_config(&mut self, new_config: SyncConfig)
        requires
            new_config.well_formed(),
        ensures
            final(self).config == new_config,
            final(self).status == old(self).status,
            final(self).task_running == old(self).task_running,
            final(self).initialized == old(self).initialized,
            final(self).well_formed(),
    {
        self.config = new_config;
    }
}

/// Whether a change of the application's data is to be followed by a cycle
/// at once: when the settings ask for synchronisation.
pub fn trigger_data_change_sync(manager: &SyncManager) -> (sync: bool)
    ensures
        sync == manager.config.auto_sync_enabled,
{
    manager.config.auto_sync_enabled
}

impl Clone for SyncManager {
    fn clone(&self) -> (copy: Self)
        ensures
            copy == *self,
    {
        SyncManager {
            config: self.config.clone(),
            status: self.status.clone(),
            task_running: self.task_running,
            initialized: self.initialized,
        }
    }
}

/// While fewer than `MAX_RETRIES` scheduled cycles have failed in a row,
/// the failures are counted, the last one's message is kept, and whether
/// synchronisation is enabled does not change.
pub proof fn lemma_breaker_waits(status: StatusView, failures: Seq<Failure>)
    requires
        status.retry_count == 0,
        failures.len() < MAX_RETRIES,
    ensures
        after_failures(status, failures).retry_count == failures.len(),
        after_failures(status, failures).is_enabled == status.is_enabled,
        failures.len() > 0 ==> after_failures(status, failures).error_message == Some(
            failures.last().message,
        ),
    decreases failures.len(),
{
    if failures.len() > 0 {
        lemma_breaker_waits(status, failures.drop_last());
    }
}

/// The circuit breaker. After exactly `MAX_RETRIES` scheduled cycles have
/// failed in a row, and not before, synchronisation is disabled. The
/// message kept is the one that the last of these failures leaves behind:
/// that synchronisation has been disabled. From then on no scheduled cycle
/// begins, at whatever time and with whatever interval, until the status is
/// initialised again with the shared folder at hand and settings that ask
/// for synchronisation.
pub proof fn law_circuit_breaker(status: StatusView, failures: Seq<Failure>)
    requires
        status.retry_count == 0,
        failures.len() == MAX_RETRIES,
    ensures
        after_failures(status, failures.drop_last()).is_enabled == status.is_enabled,
        !after_failures(status, failures).is_enabled,
        after_failures(status, failures).retry_count == MAX_RETRIES,
        after_failures(status, failures).error_message == Some(disabled_message()),
        forall|minutes: u64, task_running: bool, now: u64|
            !cycle_begins(after_failures(status, failures), minutes, task_running, now),
        forall|config: SyncConfig|
            config.auto_sync_enabled ==> initialised(
                after_failures(status, failures),
                true,
                config,
            ).is_enabled,
{
    lemma_breaker_waits(status, failures.drop_last());
}

/// One cycle at a time. While a cycle is under way no scheduled cycle
/// begins, whatever the clock says and whether or not the scheduler runs;
/// and a cycle that has begun, on the schedule or for the user, is under
/// way until its end is recorded.
pub proof fn law_cycles_do_not_overlap(status: StatusView, minutes: u64, now: u64)
    ensures
        status.sync_in_progress ==> forall|task_running: bool|
            !cycle_begins(status, minutes, task_running, now),
        !status.succeeded(now).sync_in_progress,
        forall|message: Seq<char>| !status.failed(message, now).sync_in_progress,
        forall|message: Seq<char>| !status.failed_on_schedule(message, now).sync_in_progress,
{
}

} // verus!
