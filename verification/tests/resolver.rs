use walnutbook::manager::SyncManager;
use walnutbook::resolver::compare_times;
use walnutbook::resolver::counted_rows;
use walnutbook::resolver::effective_remote_modified;
use walnutbook::resolver::stamp_for_push;
use walnutbook::resolver::local_is_newer;
use walnutbook::resolver::Comparison;
use walnutbook::resolver::Verdict;
use walnutbook::resolver::RESTORE_SUSPICION_SECS;
use walnutbook::resolver::SKEW_TOLERANCE_SECS;

fn pulls(recorded: u64, reported: u64, local: u64, remote_rows: i64, local_rows: i64) -> bool {
    let verdict = SyncManager::should_load_from_onedrive(
        true,
        true,
        recorded,
        reported,
        local,
        remote_rows,
        local_rows,
    );
    assert_ne!(verdict, Verdict::NoRemoteData);
    verdict == Verdict::Pull
}

fn keeps(recorded: u64, reported: u64, local: u64, remote_rows: i64, local_rows: i64) -> bool {
    !pulls(recorded, reported, local, remote_rows, local_rows)
}

#[test]
fn remote_time_is_the_later_of_sidecar_and_file() {
    assert_eq!(effective_remote_modified(1_000, 900), 1_000);
    assert_eq!(effective_remote_modified(900, 1_000), 1_000);
    assert_eq!(effective_remote_modified(1_000, 1_000), 1_000);
}

#[test]
fn remote_time_within_and_beyond_the_tolerance() {
    assert_eq!(SKEW_TOLERANCE_SECS, 2);
    assert_eq!(effective_remote_modified(1_002, 1_000), 1_002);
    assert_eq!(effective_remote_modified(1_000, 1_002), 1_002);
    assert_eq!(effective_remote_modified(1_003, 1_000), 1_003);
    assert_eq!(effective_remote_modified(1_000, 8_200), 8_200);
}

#[test]
fn remote_time_at_the_ends_of_the_range() {
    assert_eq!(effective_remote_modified(u64::MAX, 0), u64::MAX);
    assert_eq!(effective_remote_modified(0, u64::MAX), u64::MAX);
    assert_eq!(effective_remote_modified(u64::MAX, u64::MAX - 1), u64::MAX);
    assert_eq!(effective_remote_modified(0, 0), 0);
}

#[test]
fn newer_remote_is_pulled_whatever_the_rows() {
    assert!(pulls(2_000, 2_000, 1_999, 0, 100));
    assert!(pulls(10, 2_000, 1_999, 5, 5));
    assert!(pulls(2_000, 10, 1_999, 100, 0));
}

#[test]
fn equal_times_are_settled_by_the_rows() {
    assert!(pulls(2_000, 2_000, 2_000, 12, 10));
    assert!(keeps(2_000, 2_000, 2_000, 10, 10));
    assert!(keeps(2_000, 2_000, 2_000, 9, 10));
    assert!(pulls(1_500, 2_000, 2_000, 1, 0));
}

#[test]
fn newer_local_within_a_day_is_kept() {
    assert!(keeps(2_000, 2_000, 2_001, 500, 1));
    assert!(keeps(2_000, 2_000, 2_000 + 86_400, 500, 1));
}

#[test]
fn newer_local_beyond_a_day_is_settled_by_the_rows() {
    assert_eq!(RESTORE_SUSPICION_SECS, 86_400);
    assert!(pulls(2_000, 2_000, 2_000 + 86_401, 500, 1));
    assert!(keeps(2_000, 2_000, 2_000 + 86_401, 1, 1));
    assert!(keeps(2_000, 2_000, 2_000 + 86_401, 0, 1));
    assert!(pulls(0, 0, u64::MAX, 1, 0));
}

#[test]
fn comparison_of_times() {
    assert_eq!(compare_times(5, 4), Comparison::RemoteNewer);
    assert_eq!(compare_times(5, 5), Comparison::RowsDecide);
    assert_eq!(compare_times(5, 6), Comparison::LocalNewer);
    assert_eq!(compare_times(5, 5 + 86_400), Comparison::LocalNewer);
    assert_eq!(compare_times(5, 5 + 86_401), Comparison::RowsDecide);
}

#[test]
fn local_is_pushed_only_when_strictly_newer() {
    assert!(SyncManager::should_sync_local_to_onedrive(true, 100, 100, 101));
    assert!(!SyncManager::should_sync_local_to_onedrive(true, 100, 100, 100));
    assert!(!SyncManager::should_sync_local_to_onedrive(true, 100, 100, 99));
    assert!(local_is_newer(101, 100));
    assert!(!local_is_newer(100, 100));
    assert!(!local_is_newer(0, u64::MAX));
}

#[test]
fn push_goes_by_the_later_of_sidecar_and_file() {
    assert!(!SyncManager::should_sync_local_to_onedrive(true, 100, 200, 150));
    assert!(!SyncManager::should_sync_local_to_onedrive(true, 100, 200, 200));
    assert!(SyncManager::should_sync_local_to_onedrive(true, 100, 200, 201));
    assert!(!SyncManager::should_sync_local_to_onedrive(true, 200, 100, 150));
    assert!(!SyncManager::should_sync_local_to_onedrive(true, 200, 100, 200));
    assert!(SyncManager::should_sync_local_to_onedrive(true, 200, 100, 201));
}

#[test]
fn missing_sidecar_leads_to_the_push() {
    assert!(SyncManager::should_sync_local_to_onedrive(false, 100, 200, 150));
    assert!(SyncManager::should_sync_local_to_onedrive(false, u64::MAX, u64::MAX, 0));
    assert!(SyncManager::should_sync_local_to_onedrive(false, 0, 0, 0));
}

#[test]
fn missing_snapshot_or_sidecar_is_no_remote_data_whatever_the_numbers() {
    let verdict = SyncManager::should_load_from_onedrive;
    assert_eq!(verdict(false, true, 2_000, 2_000, 1_000, 12, 10), Verdict::NoRemoteData);
    assert_eq!(verdict(true, false, 2_000, 2_000, 1_000, 12, 10), Verdict::NoRemoteData);
    assert_eq!(verdict(false, false, 2_000, 2_000, 1_000, 12, 10), Verdict::NoRemoteData);
    assert_eq!(verdict(false, false, 0, 0, u64::MAX, 0, 10), Verdict::NoRemoteData);
}

#[test]
fn verdict_has_three_answers() {
    let verdict = SyncManager::should_load_from_onedrive;
    assert_eq!(verdict(true, true, 2_000, 2_000, 1_999, 0, 0), Verdict::Pull);
    assert_eq!(verdict(true, true, 2_000, 2_000, 2_000, 12, 10), Verdict::Pull);
    assert_eq!(verdict(true, true, 2_000, 2_000, 2_000, 10, 10), Verdict::LocalIsNewer);
    assert_eq!(verdict(true, true, 2_000, 2_000, 2_001, 12, 10), Verdict::LocalIsNewer);
    assert_eq!(verdict(true, true, 100, 200, 150, 0, 0), Verdict::Pull);
    assert_eq!(verdict(false, true, 100, 200, 150, 0, 0), Verdict::NoRemoteData);
}

#[test]
fn push_is_stamped_with_the_later_of_clock_and_file() {
    assert_eq!(stamp_for_push(1_000, 900), 1_000);
    assert_eq!(stamp_for_push(900, 1_000), 1_000);
    assert_eq!(stamp_for_push(7, 7), 7);
}

#[test]
fn uncounted_rows_count_as_none() {
    assert_eq!(counted_rows(Some(12)), 12);
    assert_eq!(counted_rows(Some(-3)), -3);
    assert_eq!(counted_rows(None), 0);
}
