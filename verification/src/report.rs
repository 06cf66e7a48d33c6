//! Outcomes and faults in words, as they are shown to the user.

use vstd::prelude::*;
use crate::engine::Outcome;
use crate::engine::PullOutcome;
use crate::engine::PushOutcome;
use crate::error::ErrorKind;
use crate::error::SyncError;
use crate::protocol::Action;
use crate::protocol::Fault;
use crate::protocol::File;
use crate::protocol::Tier;

verus! {

/// The words that introduce the failure of an operation.
pub open spec fn failure_prefix(during: Action) -> Seq<char> {
    match during {
        Action::Locate(Tier::Shared) => "OneDrive not available: "@,
        Action::Locate(Tier::Fallback) => "Failed to get local data directory"@,
        Action::CreateDir(Tier::Shared) => "Failed to create sync directory: "@,
        Action::CreateDir(Tier::Fallback) => "Failed to create local sync directory: "@,
        Action::ReadSidecar => "Failed to read metadata: "@,
        Action::ReadModified(File::Snapshot(_)) => "Failed to get OneDrive file metadata: "@,
        Action::ReadModified(File::Database) => "Failed to get local database metadata: "@,
        Action::ReadSize(_) => ""@,
        Action::CountRows(File::Snapshot(_)) => "Failed to open OneDrive database: "@,
        Action::CountRows(File::Database) => "Failed to open local database: "@,
        Action::CheckTable(_) => "Failed to open copied database: "@,
        Action::Copy { from: File::Database, to: File::Backup(_) } =>
            "Failed to backup local database: "@,
        Action::Copy { from: File::Snapshot(_), to: File::Database } =>
            "Failed to copy OneDrive database: "@,
        Action::Copy { from: File::Backup(_), to: File::Database } =>
            "Failed to restore local database: "@,
        Action::Copy { from: File::Database, to: File::Snapshot(Tier::Shared) } =>
            "Failed to copy database to OneDrive: "@,
        Action::Copy { from: File::Database, to: File::Snapshot(Tier::Fallback) } =>
            "Failed to copy database to local backup: "@,
        Action::Remove(_) => "Failed to remove backup: "@,
        Action::WriteSidecar { tier: Tier::Shared, .. } => "Failed to write metadata: "@,
        Action::WriteSidecar { tier: Tier::Fallback, .. } => "Failed to write local metadata: "@,
        Action::ReadConfig(_) => "Failed to read config: "@,
        Action::WriteConfig(_) => "Failed to save config: "@,
        _ => "Operation failed: "@,
    }
}

/// The words that introduce what was read but could not be understood.
pub open spec fn malformed_prefix(during: Action) -> Seq<char> {
    match during {
        Action::ReadSidecar => "Failed to parse metadata: "@,
        Action::ReadConfig(_) => "Failed to parse config: "@,
        _ => failure_prefix(during),
    }
}

/// A fault in words. A failure is introduced by the operation that failed
/// and followed by its cause; only the local data directory, which is
/// there or is not, has no cause to name.
pub open spec fn fault_text(fault: Fault) -> Seq<char> {
    match fault {
        Fault::Failed { during, cause } => if during == Action::Locate(Tier::Fallback) {
            failure_prefix(during)
        } else {
            failure_prefix(during) + cause@
        },
        Fault::Malformed { during, cause } => malformed_prefix(during) + cause@,
        Fault::MissingTable(table) => "OneDrive database is missing "@ + table.spec_name()
            + " table"@,
        Fault::Unexpected { during } => failure_prefix(during) + "unexpected reply"@,
    }
}

/// The kind of failure that a fault is.
pub open spec fn fault_kind(fault: Fault) -> ErrorKind {
    match fault {
        Fault::Failed { during, .. } | Fault::Unexpected { during } => match during {
            Action::Locate(Tier::Shared)
            | Action::WriteMarker
            | Action::RemoveMarker
            | Action::FindSnapshot
            | Action::FindSidecar => ErrorKind::OneDriveUnavailable,
            Action::CountRows(_) | Action::CheckTable(_) => ErrorKind::Database,
            Action::ReadConfig(_) | Action::WriteConfig(_) => ErrorKind::Configuration,
            _ => ErrorKind::FileSystem,
        },
        Fault::Malformed { .. } => ErrorKind::Configuration,
        Fault::MissingTable(_) => ErrorKind::Database,
    }
}

/// What the user is told when a pull did not replace the database, or
/// `None` when it did.
pub open spec fn pull_complaint(outcome: PullOutcome) -> Option<Seq<char>> {
    match outcome {
        PullOutcome::Pulled => None,
        PullOutcome::NoRemoteData => Some("No sync data found in OneDrive"@),
        PullOutcome::LocalIsNewer => Some("Local database is newer or same age"@),
        PullOutcome::Failed { fault, .. } => Some(fault_text(fault)),
    }
}

/// What the user is told when both tiers failed.
pub open spec fn both_failed_text(remote: Fault, local: Fault) -> Seq<char> {
    "Both remote and local sync failed. Remote: "@ + fault_text(remote) + ", Local: "@
        + fault_text(local)
}

/// What the user is told when a push failed, or `None` when the database
/// was published, in either tier, or did not need to be. A push that was
/// withheld has no words of its own: see `complaint`.
pub open spec fn push_complaint(outcome: PushOutcome) -> Option<Seq<char>> {
    match outcome {
        PushOutcome::Failed { remote, local } => Some(both_failed_text(remote, local)),
        _ => None,
    }
}

/// What the user is told when a cycle stopped after its pull because the
/// database could not be restored: what went wrong in the pull.
pub open spec fn withheld_text(pull: Option<PullOutcome>) -> Seq<char> {
    match pull {
        Some(PullOutcome::Failed { fault, .. }) => fault_text(fault),
        _ => "Local database could not be restored"@,
    }
}

/// What the user is told when a task failed, or `None` when it did not.
///
/// Storing the settings never fails its caller: where neither tier could
/// be written the fault is in the outcome, for the log, and nothing is
/// complained of. A cycle fails with its push; a pull that failed within a
/// cycle shows in the outcome and nowhere else, unless it left the database
/// unrestored: then the push is withheld and the cycle fails with what went
/// wrong in the pull.
pub open spec fn complaint(outcome: Outcome) -> Option<Seq<char>> {
    match outcome {
        Outcome::Load(pull) => pull_complaint(pull),
        Outcome::Cycle { pull, push: PushOutcome::Withheld } => Some(withheld_text(pull)),
        Outcome::Cycle { push, .. } => push_complaint(push),
        _ => None,
    }
}

/// Whether a result is `Ok` where there is no complaint, and else `Err`
/// with the complaint as its text.
pub open spec fn reports(result: Result<(), String>, complaint: Option<Seq<char>>) -> bool {
    match complaint {
        None => result is Ok,
        Some(text) => result matches Err(message) && message@ == text,
    }
}

impl Action {
    /// Computes `failure_prefix`.
    pub fn failure_prefix(&self) -> (prefix: &'static str)
        ensures
            prefix@ == failure_prefix(*self),
    {
        match self {
            Action::Locate(Tier::Shared) => "OneDrive not available: ",
            Action::Locate(Tier::Fallback) => "Failed to get local data directory",
            Action::CreateDir(Tier::Shared) => "Failed to create sync directory: ",
            Action::CreateDir(Tier::Fallback) => "Failed to create local sync directory: ",
            Action::ReadSidecar => "Failed to read metadata: ",
            Action::ReadModified(File::Snapshot(_)) => "Failed to get OneDrive file metadata: ",
            Action::ReadModified(File::Database) => "Failed to get local database metadata: ",
            Action::ReadSize(_) => "",
            Action::CountRows(File::Snapshot(_)) => "Failed to open OneDrive database: ",
            Action::CountRows(File::Database) => "Failed to open local database: ",
            Action::CheckTable(_) => "Failed to open copied database: ",
            Action::Copy { from: File::Database, to: File::Backup(_) } =>
                "Failed to backup local database: ",
            Action::Copy { from: File::Snapshot(_), to: File::Database } =>
                "Failed to copy OneDrive database: ",
            Action::Copy { from: File::Backup(_), to: File::Database } =>
                "Failed to restore local database: ",
            Action::Copy { from: File::Database, to: File::Snapshot(Tier::Shared) } =>
                "Failed to copy database to OneDrive: ",
            Action::Copy { from: File::Database, to: File::Snapshot(Tier::Fallback) } =>
                "Failed to copy database to local backup: ",
            Action::Remove(_) => "Failed to remove backup: ",
            Action::WriteSidecar { tier: Tier::Shared, .. } => "Failed to write metadata: ",
            Action::WriteSidecar { tier: Tier::Fallback, .. } => "Failed to write local metadata: ",
            Action::ReadConfig(_) => "Failed to read config: ",
            Action::WriteConfig(_) => "Failed to save config: ",
            _ => "Operation failed: ",
        }
    }

    /// Computes `malformed_prefix`.
    pub fn malformed_prefix(&self) -> (prefix: &'static str)
        ensures
            prefix@ == malformed_prefix(*self),
    {
        match self {
            Action::ReadSidecar => "Failed to parse metadata: ",
            Action::ReadConfig(_) => "Failed to parse config: ",
            _ => self.failure_prefix(),
        }
    }
}

impl Fault {
    /// The fault in words.
    pub fn message(&self) -> (text: String)
        ensures
            text@ == fault_text(*self),
    {
        match self {
            Fault::Failed { during, cause } => {
                let prefix = String::from_str(during.failure_prefix());
                match during {
                    Action::Locate(Tier::Fallback) => prefix,
                    _ => prefix.concat(cause.as_str()),
                }
            },
            Fault::Malformed { during, cause } => String::from_str(
                during.malformed_prefix(),
            ).concat(cause.as_str()),
            Fault::MissingTable(table) => {
                let text = String::from_str("OneDrive database is missing ").concat(table.name());
                text.concat(" table")
            },
            Fault::Unexpected { during } => String::from_str(during.failure_prefix()).concat(
                "unexpected reply",
            ),
        }
    }

    /// Computes `fault_kind`.
    pub fn kind(&self) -> (kind: ErrorKind)
        ensures
            kind == fault_kind(*self),
    {
        match self {
            Fault::Failed { during, .. } | Fault::Unexpected { during } => match during {
                Action::Locate(Tier::Shared)
                | Action::WriteMarker
                | Action::RemoveMarker
                | Action::FindSnapshot
                | Action::FindSidecar => ErrorKind::OneDriveUnavailable,
                Action::CountRows(_) | Action::CheckTable(_) => ErrorKind::Database,
                Action::ReadConfig(_) | Action::WriteConfig(_) => ErrorKind::Configuration,
                _ => ErrorKind::FileSystem,
            },
            Fault::Malformed { .. } => ErrorKind::Configuration,
            Fault::MissingTable(_) => ErrorKind::Database,
        }
    }

    /// The fault as a failure of its kind.
    pub fn to_error(&self) -> (error: SyncError)
        ensures
            error.kind() == fault_kind(*self),
            error.detail() == fault_text(*self),
    {
        SyncError::new(self.kind(), self.message())
    }
}

impl PullOutcome {
    /// The outcome as a result: `Ok` when the database was replaced, and
    /// else what the user is told.
    pub fn to_result(&self) -> (result: Result<(), String>)
        ensures
            reports(result, pull_complaint(*self)),
    {
        match self {
            PullOutcome::Pulled => Ok(()),
            PullOutcome::NoRemoteData => Err(String::from_str("No sync data found in OneDrive")),
            PullOutcome::LocalIsNewer => Err(
                String::from_str("Local database is newer or same age"),
            ),
            PullOutcome::Failed { fault, .. } => Err(fault.message()),
        }
    }
}

impl PushOutcome {
    /// The outcome as a result: `Err` when both tiers failed, with both
    /// faults in its text, and else `Ok`.
    pub fn to_result(&self) -> (result: Result<(), String>)
        ensures
            reports(result, push_complaint(*self)),
    {
        match self {
            PushOutcome::Failed { remote, local } => {
                let remote_text = remote.message();
                let local_text = local.message();
                let text = String::from_str("Both remote and local sync failed. Remote: ").concat(
                    remote_text.as_str(),
                );
                let text = text.concat(", Local: ");
                Err(text.concat(local_text.as_str()))
            },
            _ => Ok(()),
        }
    }
}

impl Outcome {
    /// The outcome as a result: `Ok`, or what the user is told.
    pub fn to_result(&self) -> (result: Result<(), String>)
        ensures
            reports(result, complaint(*self)),
    {
        match self {
            Outcome::Load(pull) => pull.to_result(),
            Outcome::Cycle { pull, push: PushOutcome::Withheld } => match pull {
                Some(PullOutcome::Failed { fault, .. }) => Err(fault.message()),
                _ => Err(String::from_str("Local database could not be restored")),
            },
            Outcome::Cycle { push, .. } => push.to_result(),
            _ => Ok(()),
        }
    }

    /// The fault that kept the settings from being stored, for the log, or
    /// `None` where they were stored or the task was another.
    pub fn unsaved(&self) -> (fault: Option<&Fault>)
        ensures
            fault == match *self {
                Outcome::Unsaved(kept) => Some(&kept),
                _ => None,
            },
    {
        match self {
            Outcome::Unsaved(kept) => Some(kept),
            _ => None,
        }
    }
}

} // verus!
