use walnutbook::config::SyncConfig;
use walnutbook::engine::PullOutcome;
use walnutbook::engine::Rollback;
use walnutbook::manager::trigger_data_change_sync;
use walnutbook::manager::SyncManager;
use walnutbook::manager::TICK_SECS;
use walnutbook::protocol::Action;
use walnutbook::protocol::Fault;
use walnutbook::protocol::Tier;
use walnutbook::status::SyncStatus;
use walnutbook::status::MAX_RETRIES;

fn running() -> SyncManager {
    let mut manager = SyncManager::new();
    let plan = manager.initialize(true, SyncConfig::default());
    assert!(plan.start_auto_sync);
    assert!(manager.start_auto_sync());
    manager
}

fn fail_once(manager: &mut SyncManager, now: u64, message: &str) {
    assert!(manager.begin_scheduled_sync(now));
    manager.finish_scheduled_sync(Err(message.to_string()), now);
}

#[test]
fn default_config_values() {
    let config = SyncConfig::default();
    assert!(config.auto_sync_enabled);
    assert_eq!(config.sync_interval_minutes, 5);
    assert_eq!(config.onedrive_path, None);
    assert!(config.fallback_to_local);
}

#[test]
fn new_manager_knows_nothing() {
    let manager = SyncManager::new();
    assert_eq!(manager.config, SyncConfig::default());
    assert_eq!(manager.status, SyncStatus::new());
    assert!(!manager.task_running);
    assert!(!manager.initialized);
    let status = manager.get_status();
    assert!(!status.is_enabled);
    assert_eq!(status.last_sync, None);
    assert!(!status.sync_in_progress);
    assert_eq!(status.error_message, None);
    assert_eq!(status.error_type, None);
    assert!(!status.onedrive_available);
    assert_eq!(status.retry_count, 0);
    assert_eq!(status.last_error_time, None);
    assert!(manager.needs_initialization());
}

#[test]
fn initialize_enables_when_folder_and_settings_agree() {
    let mut manager = SyncManager::new();
    let plan = manager.initialize(true, SyncConfig::default());
    assert!(plan.load_from_onedrive);
    assert!(plan.start_auto_sync);
    assert!(manager.status.is_enabled);
    assert!(manager.status.onedrive_available);
    assert!(!manager.needs_initialization());
}

#[test]
fn initialize_without_folder_disables() {
    let mut manager = SyncManager::new();
    let plan = manager.initialize(false, SyncConfig::default());
    assert!(!plan.load_from_onedrive);
    assert!(!plan.start_auto_sync);
    assert!(!manager.status.is_enabled);
    assert!(!manager.status.onedrive_available);
}

#[test]
fn a_probe_that_found_no_folder_is_not_repeated() {
    let mut manager = SyncManager::new();
    assert!(manager.needs_initialization());
    assert!(!manager.initialize_sync(false, SyncConfig::default()));
    assert!(manager.initialized);
    assert!(!manager.needs_initialization());
    assert!(!manager.get_status().onedrive_available);
    assert!(!manager.needs_initialization());

    let mut started = SyncManager::new();
    started.initialize(false, SyncConfig::default());
    assert!(!started.needs_initialization());
}

#[test]
fn initialize_with_auto_sync_off_still_pulls() {
    let mut manager = SyncManager::new();
    let mut config = SyncConfig::default();
    config.auto_sync_enabled = false;
    let plan = manager.initialize(true, config.clone());
    assert!(plan.load_from_onedrive);
    assert!(!plan.start_auto_sync);
    assert!(!manager.status.is_enabled);
    assert_eq!(manager.config, config);
}

#[test]
fn initialize_puts_the_settings_in_force() {
    let config = SyncConfig {
        auto_sync_enabled: true,
        sync_interval_minutes: 15,
        onedrive_path: Some("/mnt/cloud".to_string()),
        fallback_to_local: false,
    };
    let mut manager = SyncManager::new();
    manager.initialize(true, config.clone());
    assert_eq!(manager.get_config(), config);
    manager.start_auto_sync();
    assert!(manager.begin_scheduled_sync(0));
    manager.finish_scheduled_sync(Ok(()), 0);
    assert!(!manager.sync_due(899));
    assert!(manager.sync_due(900));

    let mut lazy = SyncManager::new();
    lazy.initialize_sync(true, config.clone());
    assert_eq!(lazy.get_config(), config);
}

#[test]
fn lazy_initialization_starts_no_scheduler() {
    let mut manager = SyncManager::new();
    assert!(manager.initialize_sync(true, SyncConfig::default()));
    assert!(manager.status.is_enabled);
    assert!(!manager.task_running);
    let mut other = SyncManager::new();
    assert!(!other.initialize_sync(false, SyncConfig::default()));
    assert!(!other.status.is_enabled);
}

#[test]
fn first_sync_follows_only_missing_remote_data() {
    let on = SyncConfig::default();
    let mut off = SyncConfig::default();
    off.auto_sync_enabled = false;
    assert!(SyncManager::needs_initial_sync(&PullOutcome::NoRemoteData, &on));
    assert!(!SyncManager::needs_initial_sync(&PullOutcome::NoRemoteData, &off));
    assert!(!SyncManager::needs_initial_sync(&PullOutcome::LocalIsNewer, &on));
    assert!(!SyncManager::needs_initial_sync(&PullOutcome::Pulled, &on));
    let failed = PullOutcome::Failed {
        fault: Fault::Unexpected { during: Action::Locate(Tier::Shared) },
        rollback: Rollback::Untouched,
    };
    assert!(!SyncManager::needs_initial_sync(&failed, &on));
}

#[test]
fn starting_twice_is_a_no_op() {
    let mut manager = SyncManager::new();
    assert!(manager.start_auto_sync());
    assert!(manager.task_running);
    let before = manager.clone();
    assert!(!manager.start_auto_sync());
    assert_eq!(manager, before);
}

#[test]
fn stopping_cancels_once() {
    let mut manager = SyncManager::new();
    assert!(!manager.stop_auto_sync());
    manager.start_auto_sync();
    assert!(manager.stop_auto_sync());
    assert!(!manager.task_running);
    assert!(!manager.stop_auto_sync());
}

#[test]
fn first_cycle_is_due_at_once() {
    let mut manager = running();
    assert!(manager.sync_due(0));
    assert!(manager.begin_scheduled_sync(0));
    assert!(manager.status.sync_in_progress);
}

#[test]
fn interval_is_counted_in_minutes_from_the_last_success() {
    let mut manager = running();
    assert!(manager.begin_scheduled_sync(100));
    manager.finish_scheduled_sync(Ok(()), 100);
    assert_eq!(manager.status.last_sync, Some(100));
    assert!(!manager.sync_due(100));
    assert!(!manager.sync_due(399));
    assert!(manager.sync_due(400));
    assert!(manager.sync_due(401));
    assert!(!manager.begin_scheduled_sync(399));
    assert!(!manager.status.sync_in_progress);
    assert!(manager.begin_scheduled_sync(400));
}

#[test]
fn last_success_in_the_future_is_not_due() {
    let mut manager = running();
    manager.begin_scheduled_sync(1_000);
    manager.finish_scheduled_sync(Ok(()), 1_000);
    assert!(!manager.sync_due(10));
    manager.config.sync_interval_minutes = 0;
    assert!(manager.sync_due(10));
}

#[test]
fn huge_interval_does_not_overflow() {
    let mut manager = running();
    manager.begin_scheduled_sync(0);
    manager.finish_scheduled_sync(Ok(()), 0);
    manager.config.sync_interval_minutes = u64::MAX;
    assert!(!manager.sync_due(u64::MAX));
    manager.config.sync_interval_minutes = u64::MAX / 60;
    assert!(manager.sync_due(u64::MAX));
    manager.config.sync_interval_minutes = u64::MAX / 60 + 1;
    assert!(!manager.sync_due(u64::MAX));
}

#[test]
fn no_cycle_while_one_is_under_way() {
    let mut manager = running();
    assert!(manager.begin_scheduled_sync(0));
    let before = manager.clone();
    assert!(!manager.begin_scheduled_sync(1_000_000));
    assert_eq!(manager, before);
}

#[test]
fn no_cycle_without_scheduler_or_when_disabled() {
    let mut manager = SyncManager::new();
    manager.initialize(true, SyncConfig::default());
    assert!(!manager.begin_scheduled_sync(0));
    manager.start_auto_sync();
    manager.status.is_enabled = false;
    assert!(!manager.begin_scheduled_sync(0));
    manager.status.is_enabled = true;
    assert!(manager.begin_scheduled_sync(0));
}

#[test]
fn success_clears_the_failures() {
    let mut manager = running();
    fail_once(&mut manager, 10, "disk full");
    assert_eq!(manager.status.retry_count, 1);
    assert_eq!(manager.status.error_message, Some("disk full".to_string()));
    assert_eq!(manager.status.error_type, Some("sync_failed".to_string()));
    assert_eq!(manager.status.last_error_time, Some(10));
    assert_eq!(manager.status.last_sync, None);
    assert!(!manager.status.sync_in_progress);
    assert!(manager.begin_scheduled_sync(70));
    manager.finish_scheduled_sync(Ok(()), 75);
    assert_eq!(manager.status.retry_count, 0);
    assert_eq!(manager.status.error_message, None);
    assert_eq!(manager.status.error_type, None);
    assert_eq!(manager.status.last_error_time, None);
    assert_eq!(manager.status.last_sync, Some(75));
    assert!(!manager.status.sync_in_progress);
    assert!(manager.status.is_enabled);
}

#[test]
fn four_failures_leave_sync_enabled() {
    let mut manager = running();
    fail_once(&mut manager, 60, "first");
    fail_once(&mut manager, 120, "second");
    fail_once(&mut manager, 180, "third");
    fail_once(&mut manager, 240, "fourth");
    assert!(manager.status.is_enabled);
    assert_eq!(manager.status.retry_count, 4);
    assert_eq!(manager.status.error_message, Some("fourth".to_string()));
    assert!(manager.begin_scheduled_sync(300));
}

#[test]
fn fifth_failure_in_a_row_disables_sync() {
    assert_eq!(MAX_RETRIES, 5);
    assert_eq!(TICK_SECS, 60);
    let mut manager = running();
    fail_once(&mut manager, 60, "first");
    fail_once(&mut manager, 120, "second");
    fail_once(&mut manager, 180, "third");
    fail_once(&mut manager, 240, "fourth");
    fail_once(&mut manager, 300, "fifth");
    assert!(!manager.status.is_enabled);
    assert_eq!(manager.status.retry_count, 5);
    assert_eq!(
        manager.status.error_message,
        Some("Auto sync disabled due to repeated failures".to_string())
    );
    assert_eq!(manager.status.error_type, Some("sync_failed".to_string()));
    assert_eq!(manager.status.last_error_time, Some(300));
    assert!(!manager.status.sync_in_progress);
    assert!(!manager.begin_scheduled_sync(360));
    assert!(!manager.begin_scheduled_sync(1_000_000));
    assert!(!manager.begin_scheduled_sync(u64::MAX));
}

#[test]
fn a_success_in_between_restarts_the_count() {
    let mut manager = running();
    fail_once(&mut manager, 60, "a");
    fail_once(&mut manager, 120, "b");
    fail_once(&mut manager, 180, "c");
    fail_once(&mut manager, 240, "d");
    assert!(manager.begin_scheduled_sync(300));
    manager.finish_scheduled_sync(Ok(()), 300);
    manager.config.sync_interval_minutes = 1;
    fail_once(&mut manager, 360, "e");
    fail_once(&mut manager, 420, "f");
    assert!(manager.status.is_enabled);
    assert_eq!(manager.status.retry_count, 2);
    assert_eq!(manager.status.error_message, Some("f".to_string()));
}

#[test]
fn initializing_again_enables_sync_again() {
    let mut manager = running();
    for round in 0..5u64 {
        fail_once(&mut manager, 60 * round, "again");
    }
    assert!(!manager.status.is_enabled);
    let plan = manager.initialize(true, SyncConfig::default());
    assert!(plan.start_auto_sync);
    assert!(manager.status.is_enabled);
    assert!(!manager.start_auto_sync());
    assert!(manager.begin_scheduled_sync(600));
}

#[test]
fn manual_sync_claims_the_guard() {
    let mut manager = SyncManager::new();
    assert!(manager.begin_manual_sync());
    assert!(manager.status.sync_in_progress);
    assert!(!manager.begin_manual_sync());
    assert!(manager.status.sync_in_progress);
    assert_eq!(manager.manual_sync(Ok(()), 50), Ok(()));
    assert!(!manager.status.sync_in_progress);
    assert_eq!(manager.status.last_sync, Some(50));
    assert!(manager.begin_manual_sync());
}

#[test]
fn manual_and_scheduled_cycles_do_not_overlap() {
    let mut manager = running();
    assert!(manager.begin_manual_sync());
    assert!(!manager.begin_scheduled_sync(0));
    manager.manual_sync(Ok(()), 0).unwrap();
    manager.config.sync_interval_minutes = 0;
    assert!(manager.begin_scheduled_sync(0));
    assert!(!manager.begin_manual_sync());
}

#[test]
fn manual_failures_are_counted_but_never_disable() {
    let mut manager = running();
    for round in 0..7u64 {
        assert!(manager.begin_manual_sync());
        let handed = manager.manual_sync(Err("no space".to_string()), round);
        assert_eq!(handed, Err("no space".to_string()));
    }
    assert!(manager.status.is_enabled);
    assert_eq!(manager.status.retry_count, 7);
    assert_eq!(manager.status.error_message, Some("no space".to_string()));
    assert_eq!(manager.status.error_type, Some("sync_failed".to_string()));
    assert_eq!(manager.status.last_error_time, Some(6));
    assert!(!manager.status.sync_in_progress);
}

#[test]
fn a_scheduled_failure_after_manual_ones_trips_at_the_threshold() {
    let mut manager = running();
    for round in 0..4u64 {
        manager.begin_manual_sync();
        let _ = manager.manual_sync(Err("manual".to_string()), round);
    }
    assert!(manager.status.is_enabled);
    fail_once(&mut manager, 10, "scheduled");
    assert!(!manager.status.is_enabled);
}

#[test]
fn retry_count_stops_at_its_limit() {
    let mut status = SyncStatus::new();
    status.retry_count = u32::MAX - 1;
    status.record_failure("x".to_string(), 1);
    assert_eq!(status.retry_count, u32::MAX);
    status.record_failure("y".to_string(), 2);
    assert_eq!(status.retry_count, u32::MAX);
    assert_eq!(status.error_message, Some("y".to_string()));
}

#[test]
fn update_config_replaces_the_settings() {
    let mut manager = running();
    let before = manager.get_status();
    let config = SyncConfig {
        auto_sync_enabled: false,
        sync_interval_minutes: 30,
        onedrive_path: Some("/mnt/shared".to_string()),
        fallback_to_local: false,
    };
    manager.update_config(config.clone());
    assert_eq!(manager.get_config(), config);
    assert_eq!(manager.get_status(), before);
    assert!(manager.task_running);
}

#[test]
fn data_changes_trigger_sync_only_when_enabled_in_settings() {
    let mut manager = SyncManager::new();
    assert!(trigger_data_change_sync(&manager));
    let mut config = SyncConfig::default();
    config.auto_sync_enabled = false;
    manager.update_config(config);
    assert!(!trigger_data_change_sync(&manager));
}

#[test]
fn settings_need_an_interval_of_a_minute_at_least() {
    let mut config = SyncConfig::default();
    assert!(config.is_well_formed());
    config.sync_interval_minutes = 1;
    assert!(config.is_well_formed());
    config.sync_interval_minutes = 0;
    assert!(!config.is_well_formed());
    config.sync_interval_minutes = u64::MAX;
    assert!(config.is_well_formed());
}
