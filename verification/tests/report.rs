use walnutbook::engine::Outcome;
use walnutbook::engine::PullOutcome;
use walnutbook::engine::PushOutcome;
use walnutbook::engine::Rollback;
use walnutbook::error::ErrorKind;
use walnutbook::error::SyncError;
use walnutbook::protocol::classify;
use walnutbook::protocol::Action;
use walnutbook::protocol::Fault;
use walnutbook::protocol::File;
use walnutbook::protocol::Reply;
use walnutbook::protocol::Table;
use walnutbook::protocol::Tier;
use walnutbook::config::SyncConfig;
use walnutbook::metadata::SyncMetadata;

fn failed(during: Action, cause: &str) -> Fault {
    Fault::Failed { during, cause: cause.to_string() }
}

#[test]
fn sync_error_in_words() {
    assert_eq!(
        SyncError::OneDriveUnavailable("offline".to_string()).to_string(),
        "OneDrive unavailable: offline"
    );
    assert_eq!(SyncError::NetworkError("reset".to_string()).to_string(), "Network error: reset");
    assert_eq!(
        SyncError::FileSystemError("disk full".to_string()).to_string(),
        "File system error: disk full"
    );
    assert_eq!(
        SyncError::DatabaseError("no such table".to_string()).to_string(),
        "Database error: no such table"
    );
    assert_eq!(
        SyncError::ConfigurationError("bad json".to_string()).to_string(),
        "Configuration error: bad json"
    );
    assert_eq!(SyncError::TimeoutError("60 s".to_string()).to_string(), "Timeout error: 60 s");
    assert_eq!(SyncError::TimeoutError(String::new()).to_string(), "Timeout error: ");
}

#[test]
fn sync_error_of_each_kind() {
    let text = || "x".to_string();
    assert_eq!(
        SyncError::new(ErrorKind::OneDriveUnavailable, text()),
        SyncError::OneDriveUnavailable(text())
    );
    assert_eq!(SyncError::new(ErrorKind::Network, text()), SyncError::NetworkError(text()));
    assert_eq!(SyncError::new(ErrorKind::FileSystem, text()), SyncError::FileSystemError(text()));
    assert_eq!(SyncError::new(ErrorKind::Database, text()), SyncError::DatabaseError(text()));
    assert_eq!(
        SyncError::new(ErrorKind::Configuration, text()),
        SyncError::ConfigurationError(text())
    );
    assert_eq!(SyncError::new(ErrorKind::Timeout, text()), SyncError::TimeoutError(text()));
}

#[test]
fn replies_that_are_no_answer_become_faults() {
    let during = Action::ReadSidecar;
    assert_eq!(classify(during, Reply::Failed("gone".to_string())), failed(during, "gone"));
    assert_eq!(
        classify(during, Reply::Malformed("eof".to_string())),
        Fault::Malformed { during, cause: "eof".to_string() }
    );
    assert_eq!(classify(during, Reply::Done), Fault::Unexpected { during });
    assert_eq!(classify(during, Reply::Flag(true)), Fault::Unexpected { during });
    assert_eq!(classify(during, Reply::Number(1)), Fault::Unexpected { during });
    assert_eq!(classify(during, Reply::Rows(None)), Fault::Unexpected { during });
    assert_eq!(
        classify(during, Reply::Sidecar(SyncMetadata::new(1, 2))),
        Fault::Unexpected { during }
    );
    assert_eq!(
        classify(during, Reply::Config(SyncConfig::default())),
        Fault::Unexpected { during }
    );
}

#[test]
fn each_operation_has_its_words() {
    let shared = File::Snapshot(Tier::Shared);
    let local = File::Snapshot(Tier::Fallback);
    let cases = [
        (Action::Locate(Tier::Shared), "OneDrive not available: "),
        (Action::Locate(Tier::Fallback), "Failed to get local data directory"),
        (Action::CreateDir(Tier::Shared), "Failed to create sync directory: "),
        (Action::CreateDir(Tier::Fallback), "Failed to create local sync directory: "),
        (Action::ReadSidecar, "Failed to read metadata: "),
        (Action::ReadModified(shared), "Failed to get OneDrive file metadata: "),
        (Action::ReadModified(File::Database), "Failed to get local database metadata: "),
        (Action::ReadSize(shared), ""),
        (Action::ReadSize(local), ""),
        (Action::CountRows(shared), "Failed to open OneDrive database: "),
        (Action::CountRows(File::Database), "Failed to open local database: "),
        (Action::CheckTable(Table::Accounts), "Failed to open copied database: "),
        (
            Action::Copy { from: File::Database, to: File::Backup(9) },
            "Failed to backup local database: ",
        ),
        (Action::Copy { from: shared, to: File::Database }, "Failed to copy OneDrive database: "),
        (
            Action::Copy { from: File::Backup(9), to: File::Database },
            "Failed to restore local database: ",
        ),
        (Action::Copy { from: File::Database, to: shared }, "Failed to copy database to OneDrive: "),
        (
            Action::Copy { from: File::Database, to: local },
            "Failed to copy database to local backup: ",
        ),
        (Action::Remove(File::Backup(9)), "Failed to remove backup: "),
        (
            Action::WriteSidecar { tier: Tier::Shared, last_modified: 1, file_size: 2 },
            "Failed to write metadata: ",
        ),
        (
            Action::WriteSidecar { tier: Tier::Fallback, last_modified: 1, file_size: 2 },
            "Failed to write local metadata: ",
        ),
        (Action::ReadConfig(Tier::Shared), "Failed to read config: "),
        (Action::WriteConfig(Tier::Fallback), "Failed to save config: "),
        (Action::WriteMarker, "Operation failed: "),
        (Action::ReadClock, "Operation failed: "),
        (Action::Copy { from: shared, to: local }, "Operation failed: "),
        (Action::Halt, "Operation failed: "),
    ];
    for (action, words) in cases {
        assert_eq!(action.failure_prefix(), words);
    }
}

#[test]
fn malformed_readings_have_their_own_words() {
    assert_eq!(Action::ReadSidecar.malformed_prefix(), "Failed to parse metadata: ");
    assert_eq!(Action::ReadConfig(Tier::Shared).malformed_prefix(), "Failed to parse config: ");
    assert_eq!(Action::ReadClock.malformed_prefix(), "Operation failed: ");
    let fault = Fault::Malformed { during: Action::ReadSidecar, cause: "eof".to_string() };
    assert_eq!(fault.message(), "Failed to parse metadata: eof");
}

#[test]
fn faults_in_words() {
    assert_eq!(
        failed(Action::CreateDir(Tier::Shared), "read-only file system").message(),
        "Failed to create sync directory: read-only file system"
    );
    assert_eq!(
        failed(Action::Locate(Tier::Fallback), "ignored").message(),
        "Failed to get local data directory"
    );
    assert_eq!(failed(Action::ReadSize(File::Database), "gone").message(), "gone");
    assert_eq!(
        Fault::MissingTable(Table::Transactions).message(),
        "OneDrive database is missing transactions table"
    );
    assert_eq!(
        Fault::MissingTable(Table::Categories).message(),
        "OneDrive database is missing categories table"
    );
    assert_eq!(
        Fault::Unexpected { during: Action::ReadClock }.message(),
        "Operation failed: unexpected reply"
    );
}

#[test]
fn faults_by_kind() {
    let shared = File::Snapshot(Tier::Shared);
    assert_eq!(failed(Action::Locate(Tier::Shared), "x").kind(), ErrorKind::OneDriveUnavailable);
    assert_eq!(failed(Action::WriteMarker, "x").kind(), ErrorKind::OneDriveUnavailable);
    assert_eq!(failed(Action::FindSidecar, "x").kind(), ErrorKind::OneDriveUnavailable);
    assert_eq!(failed(Action::CountRows(shared), "x").kind(), ErrorKind::Database);
    assert_eq!(failed(Action::CheckTable(Table::Budgets), "x").kind(), ErrorKind::Database);
    assert_eq!(Fault::MissingTable(Table::Budgets).kind(), ErrorKind::Database);
    assert_eq!(failed(Action::WriteConfig(Tier::Shared), "x").kind(), ErrorKind::Configuration);
    assert_eq!(
        Fault::Malformed { during: Action::ReadSidecar, cause: "x".to_string() }.kind(),
        ErrorKind::Configuration
    );
    assert_eq!(failed(Action::Locate(Tier::Fallback), "x").kind(), ErrorKind::FileSystem);
    assert_eq!(
        failed(Action::Copy { from: shared, to: File::Database }, "x").kind(),
        ErrorKind::FileSystem
    );
    assert_eq!(Fault::Unexpected { during: Action::ReadClock }.kind(), ErrorKind::FileSystem);
}

#[test]
fn faults_as_errors() {
    let shared = File::Snapshot(Tier::Shared);
    assert_eq!(
        Fault::MissingTable(Table::Budgets).to_error(),
        SyncError::DatabaseError("OneDrive database is missing budgets table".to_string())
    );
    assert_eq!(
        failed(Action::Locate(Tier::Shared), "offline").to_error().to_string(),
        "OneDrive unavailable: OneDrive not available: offline"
    );
    assert_eq!(
        failed(Action::Copy { from: File::Database, to: shared }, "quota").to_error(),
        SyncError::FileSystemError("Failed to copy database to OneDrive: quota".to_string())
    );
}

#[test]
fn pull_outcomes_as_results() {
    assert_eq!(PullOutcome::Pulled.to_result(), Ok(()));
    assert_eq!(
        PullOutcome::NoRemoteData.to_result(),
        Err("No sync data found in OneDrive".to_string())
    );
    assert_eq!(
        PullOutcome::LocalIsNewer.to_result(),
        Err("Local database is newer or same age".to_string())
    );
    let outcome = PullOutcome::Failed {
        fault: failed(Action::ReadSidecar, "denied"),
        rollback: Rollback::Untouched,
    };
    assert_eq!(outcome.to_result(), Err("Failed to read metadata: denied".to_string()));
}

#[test]
fn push_outcomes_as_results() {
    assert_eq!(PushOutcome::Skipped.to_result(), Ok(()));
    assert_eq!(PushOutcome::Pushed { stamp: 1 }.to_result(), Ok(()));
    let degraded = PushOutcome::Degraded { remote: failed(Action::Locate(Tier::Shared), "x"), stamp: 1 };
    assert_eq!(degraded.to_result(), Ok(()));
    let both = PushOutcome::Failed {
        remote: failed(Action::Locate(Tier::Shared), "offline"),
        local: failed(Action::Locate(Tier::Fallback), ""),
    };
    assert_eq!(
        both.to_result(),
        Err(
            "Both remote and local sync failed. Remote: OneDrive not available: offline, Local: Failed to get local data directory"
                .to_string()
        )
    );
}

#[test]
fn outcomes_as_results() {
    assert_eq!(Outcome::Availability(false).to_result(), Ok(()));
    assert_eq!(Outcome::Config(SyncConfig::default()).to_result(), Ok(()));
    assert_eq!(Outcome::Saved(Tier::Fallback).to_result(), Ok(()));
    let unsaved = Outcome::Unsaved(failed(Action::WriteConfig(Tier::Fallback), "denied"));
    assert_eq!(unsaved.to_result(), Ok(()));
    assert_eq!(unsaved.unsaved().map(|fault| fault.message()), Some("Failed to save config: denied".to_string()));
    assert_eq!(Outcome::Saved(Tier::Shared).unsaved(), None);
    assert_eq!(Outcome::Load(PullOutcome::Pulled).to_result(), Ok(()));
    let failed_pull = PullOutcome::Failed {
        fault: Fault::MissingTable(Table::Accounts),
        rollback: Rollback::Restored,
    };
    let cycle = Outcome::Cycle { pull: Some(failed_pull), push: PushOutcome::Skipped };
    assert_eq!(cycle.to_result(), Ok(()));
}

#[test]
fn a_withheld_push_fails_the_cycle_with_the_pull_fault() {
    let shared = File::Snapshot(Tier::Shared);
    let stranded = PullOutcome::Failed {
        fault: failed(Action::Copy { from: shared, to: File::Database }, "disk full"),
        rollback: Rollback::Stranded(77),
    };
    assert!(stranded.is_stranded());
    let cycle = Outcome::Cycle { pull: Some(stranded), push: PushOutcome::Withheld };
    assert_eq!(
        cycle.to_result(),
        Err("Failed to copy OneDrive database: disk full".to_string())
    );
    assert_eq!(PushOutcome::Withheld.to_result(), Ok(()));
    let odd = Outcome::Cycle { pull: None, push: PushOutcome::Withheld };
    assert_eq!(odd.to_result(), Err("Local database could not be restored".to_string()));
    let restored = PullOutcome::Failed {
        fault: Fault::MissingTable(Table::Budgets),
        rollback: Rollback::Restored,
    };
    assert!(!restored.is_stranded());
    assert!(!PullOutcome::Pulled.is_stranded());
}

#[test]
fn outcomes_taken_apart() {
    assert!(Outcome::Availability(true).is_available());
    assert!(!Outcome::Availability(false).is_available());
    assert!(!Outcome::Saved(Tier::Shared).is_available());
    let mut config = SyncConfig::default();
    config.sync_interval_minutes = 9;
    assert_eq!(Outcome::Config(config.clone()).into_config(), config);
    config.sync_interval_minutes = 0;
    assert_eq!(Outcome::Config(config).into_config(), SyncConfig::default());
    assert_eq!(Outcome::Availability(true).into_config(), SyncConfig::default());
    assert_eq!(Outcome::Load(PullOutcome::Pulled).into_pull(), Some(PullOutcome::Pulled));
    let cycle = Outcome::Cycle { pull: Some(PullOutcome::LocalIsNewer), push: PushOutcome::Skipped };
    assert_eq!(cycle.into_pull(), Some(PullOutcome::LocalIsNewer));
    let manual = Outcome::Cycle { pull: None, push: PushOutcome::Pushed { stamp: 1 } };
    assert_eq!(manual.into_pull(), None);
    assert_eq!(Outcome::Availability(true).into_pull(), None);
}
