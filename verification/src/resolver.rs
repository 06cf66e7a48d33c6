//! Deciding which of two copies of the database is the newer one.
//!
//! Only file times and a row count are at hand, so every rule here is a
//! heuristic on numbers. The row count stands for the content: it can pick
//! the wrong side where one device deleted many records on purpose.

use vstd::prelude::*;
use crate::manager::SyncManager;

verus! {

/// Seconds in one day. A local file that is newer than the remote snapshot
/// by more than this is suspected of carrying a fresh time on old content.
pub const RESTORE_SUSPICION_SECS: u64 = 86_400;

/// Seconds by which the sidecar and the file system may disagree about one
/// and the same publication.
pub const SKEW_TOLERANCE_SECS: u64 = 2;

/// The time that stands for the remote snapshot: the later of what the
/// sidecar records and what the file system reports for the snapshot file.
pub open spec fn remote_modified(recorded: u64, reported: u64) -> u64 {
    if recorded >= reported {
        recorded
    } else {
        reported
    }
}

/// Whether the times alone leave the question open, so that the row counts
/// decide: the times are equal, or the local file is newer by more than a
/// day.
pub open spec fn rows_decide(remote: u64, local: u64) -> bool {
    remote == local || local - remote > RESTORE_SUSPICION_SECS
}

/// Whether the remote snapshot is to replace the local database: it is
/// newer; or it is as old and has more rows; or the local file is newer by
/// more than a day and the snapshot still has more rows.
pub open spec fn pull_warranted(remote: u64, local: u64, remote_rows: i64, local_rows: i64) -> bool {
    ||| remote > local
    ||| remote == local && remote_rows > local_rows
    ||| local - remote > RESTORE_SUSPICION_SECS && remote_rows > local_rows
}

/// Whether the local database is newer than the remote snapshot: its time is
/// strictly later than the time that stands for the snapshot.
pub open spec fn push_warranted(local: u64, remote: u64) -> bool {
    local > remote
}

/// Whether the local database is to be published when no pull took place:
/// there is no sidecar yet, or the database is strictly newer than the later
/// of the sidecar's time and the snapshot file's.
pub open spec fn push_due(sidecar_present: bool, recorded: u64, reported: u64, local: u64) -> bool {
    !sidecar_present || push_warranted(local, remote_modified(recorded, reported))
}

/// What is to be done about the remote snapshot.
#[derive(Debug, Clone, Copy, PartialEq, Eq, Structural)]
pub enum Verdict {
    /// The snapshot is to replace the local database.
    Pull,
    /// The snapshot or its sidecar is absent: there is nothing to pull.
    NoRemoteData,
    /// The local database is as new as the snapshot or newer: nothing to do.
    LocalIsNewer,
}

/// The verdict on the remote snapshot: no remote data where the snapshot or
/// its sidecar is missing, whatever the numbers; else a pull where the times
/// and rows call for one; else none.
pub open spec fn verdict(
    snapshot_present: bool,
    sidecar_present: bool,
    recorded: u64,
    reported: u64,
    local: u64,
    remote_rows: i64,
    local_rows: i64,
) -> Verdict {
    if !snapshot_present || !sidecar_present {
        Verdict::NoRemoteData
    } else if pull_warranted(remote_modified(recorded, reported), local, remote_rows, local_rows) {
        Verdict::Pull
    } else {
        Verdict::LocalIsNewer
    }
}

/// The time written into the sidecar of a push: the later of the clock and
/// the local file's time, so that a slow clock cannot make a push look older
/// than the file it publishes.
pub open spec fn push_stamp(now: u64, local: u64) -> u64 {
    if now >= local {
        now
    } else {
        local
    }
}

/// The row count that a reading stands for: a table that cannot be counted
/// counts as empty.
pub open spec fn rows_or_zero(rows: Option<i64>) -> i64 {
    match rows {
        Some(count) => count,
        None => 0,
    }
}

/// What a comparison of the two times says.
#[derive(Debug, Clone, Copy, PartialEq, Eq, Structural)]
pub enum Comparison {
    /// The remote snapshot is newer: pull.
    RemoteNewer,
    /// The times do not settle it: count the rows.
    RowsDecide,
    /// The local database is newer, by a day at most: keep it.
    LocalNewer,
}

/// What `compare_times` returns.
pub open spec fn comparison(remote: u64, local: u64) -> Comparison {
    if remote > local {
        Comparison::RemoteNewer
    } else if rows_decide(remote, local) {
        Comparison::RowsDecide
    } else {
        Comparison::LocalNewer
    }
}

/// Computes `remote_modified`. Where the two times are more than the skew
/// tolerance apart the larger one is taken, and within the tolerance the
/// later one: the later one in every case.
pub fn effective_remote_modified(recorded: u64, reported: u64) -> (stamp: u64)
    ensures
        stamp == remote_modified(recorded, reported),
{
    if recorded > reported && recorded - reported > SKEW_TOLERANCE_SECS {
        recorded
    } else if reported > recorded && reported - recorded > SKEW_TOLERANCE_SECS {
        reported
    } else if recorded >= reported {
        recorded
    } else {
        reported
    }
}

/// Compares the remote snapshot's time with the local database's.
pub fn compare_times(remote: u64, local: u64) -> (verdict: Comparison)
    ensures
        verdict == comparison(remote, local),
        verdict == Comparison::RemoteNewer ==> forall|r: i64, l: i64| pull_warranted(remote, local, r, l),
        verdict == Comparison::LocalNewer ==> forall|r: i64, l: i64| !pull_warranted(remote, local, r, l),
        verdict == Comparison::RowsDecide ==> forall|r: i64, l: i64|
            pull_warranted(remote, local, r, l) == (r > l),
{
    if remote > local {
        Comparison::RemoteNewer
    } else if remote == local || local - remote > RESTORE_SUSPICION_SECS {
        Comparison::RowsDecide
    } else {
        Comparison::LocalNewer
    }
}

/// Computes `push_stamp`.
pub fn stamp_for_push(now: u64, local: u64) -> (stamp: u64)
    ensures
        stamp == push_stamp(now, local),
        stamp >= now,
        stamp >= local,
{
    if now >= local {
        now
    } else {
        local
    }
}

/// Computes `rows_or_zero`.
pub fn counted_rows(rows: Option<i64>) -> (count: i64)
    ensures
        count == rows_or_zero(rows),
{
    match rows {
        Some(count) => count,
        None => 0,
    }
}

/// Computes `push_warranted`.
pub fn local_is_newer(local: u64, remote: u64) -> (newer: bool)
    ensures
        newer == push_warranted(local, remote),
{
    local > remote
}

impl SyncManager {
    /// The verdict on the remote snapshot, given whether the snapshot and
    /// its sidecar are there, the time in the sidecar, the time of the
    /// snapshot file, the time of the local database and the ledger rows in
    /// each. Where the snapshot or the sidecar is missing the numbers are
    /// not looked at.
    pub fn should_load_from_onedrive(
        snapshot_present: bool,
        sidecar_present: bool,
        recorded: u64,
        reported: u64,
        local_modified: u64,
        remote_rows: i64,
        local_rows: i64,
    ) -> (answer: Verdict)
        ensures
            answer == verdict(
                snapshot_present,
                sidecar_present,
                recorded,
                reported,
                local_modified,
                remote_rows,
                local_rows,
            ),
    {
        if !snapshot_present || !sidecar_present {
            return Verdict::NoRemoteData;
        }
        let remote: u64 = effective_remote_modified(recorded, reported);
        let pull = match compare_times(remote, local_modified) {
            Comparison::RemoteNewer => true,
            Comparison::RowsDecide => remote_rows > local_rows,
            Comparison::LocalNewer => false,
        };
        if pull {
            Verdict::Pull
        } else {
            Verdict::LocalIsNewer
        }
    }

    /// Whether the local database is to be published when no pull took
    /// place, given whether there is a sidecar, the time in it, the time of
    /// the snapshot file and the time of the local database. Equal times
    /// give no push.
    pub fn should_sync_local_to_onedrive(
        sidecar_present: bool,
        recorded: u64,
        reported: u64,
        local_modified: u64,
    ) -> (push: bool)
        ensures
            push == push_due(sidecar_present, recorded, reported, local_modified),
    {
        if !sidecar_present {
            true
        } else {
            local_is_newer(local_modified, effective_remote_modified(recorded, reported))
        }
    }
}

} // verus!
