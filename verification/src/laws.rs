//! What holds of every run of the engine, whatever the file system does.
//!
//! The files are modelled by their content alone, and the sidecars by what
//! they record. A run is the engine's operations, one after the other, each
//! with the driver's reply and the files as they are afterwards. The laws
//! speak of runs in which the files change only as the operations say, and
//! some of them of runs in which the driver's readings agree with given
//! facts.

use vstd::prelude::*;
use crate::engine::Engine;
use crate::engine::MAX_OPERATIONS;
use crate::engine::Outcome;
use crate::engine::PullOutcome;
use crate::engine::PushOutcome;
use crate::engine::Rollback;
use crate::engine::Step;
use crate::engine::Task;
use crate::protocol::Action;
use crate::protocol::File;
use crate::protocol::Reply;
use crate::protocol::Tier;
use crate::engine::Phase;
use crate::report::complaint;
use crate::resolver::pull_warranted;
use crate::resolver::verdict;
use crate::resolver::Verdict;
use crate::resolver::push_due;
use crate::resolver::remote_modified;
use crate::resolver::rows_decide;
use crate::resolver::rows_or_zero;

verus! {

/// What a sidecar records of its snapshot.
pub struct Record {
    pub last_modified: u64,
    pub file_size: u64,
}

/// The files as the laws see them. What is not in a map does not exist.
pub struct Disk {
    /// The files that hold a copy of the database, each with its content.
    pub files: Map<File, Seq<u8>>,
    /// The sidecars, by the tier whose snapshot they describe.
    pub sidecars: Map<Tier, Record>,
}

/// One operation as it went: what the driver replied, and the files
/// afterwards.
pub struct Exchange {
    pub reply: Reply,
    pub disk: Disk,
}

/// What a driver may read off the files while a pull and the look that
/// precedes a push are under way.
pub struct Facts {
    /// Whether the shared folder holds a snapshot.
    pub snapshot_present: bool,
    /// Whether the shared folder holds a sidecar.
    pub sidecar_present: bool,
    /// The time that the sidecar records.
    pub recorded: u64,
    /// The time of the snapshot file.
    pub reported: u64,
    /// The time of the local database.
    pub local: u64,
    /// The ledger rows that the snapshot counts as.
    pub remote_rows: i64,
    /// The ledger rows that the local database counts as.
    pub local_rows: i64,
}

/// The file exists and holds the content.
pub open spec fn holds(disk: Disk, file: File, content: Seq<u8>) -> bool {
    disk.files.dom().contains(file) && disk.files[file] == content
}

/// The file is on both disks or on neither, with the same content.
pub open spec fn same_at(one: Disk, other: Disk, file: File) -> bool {
    &&& one.files.dom().contains(file) == other.files.dom().contains(file)
    &&& one.files[file] == other.files[file]
}

/// The file that an operation writes to or deletes, if it does.
pub open spec fn target(action: Action) -> Option<File> {
    match action {
        Action::Copy { to, .. } => Some(to),
        Action::Remove(file) => Some(file),
        _ => None,
    }
}

/// Whether the files changed as the operation and its reply say.
///
/// A copy that succeeded had a source, and the destination holds what the
/// source held. A copy that did not succeed may have left anything in its
/// destination. A file that was deleted is gone; one that could not be
/// deleted is still there. A sidecar that was written records what it was
/// given; one that could not be written may hold anything. A size that was
/// read is the length of the file, which is there. Nothing else changes,
/// and no other operation changes anything.
pub open spec fn effect(before: Disk, action: Action, reply: Reply, after: Disk) -> bool {
    match action {
        Action::Copy { from, to } => {
            &&& after.sidecars == before.sidecars
            &&& if reply is Done {
                before.files.dom().contains(from) && after.files == before.files.insert(
                    to,
                    before.files[from],
                )
            } else {
                after.files.remove(to) == before.files.remove(to)
            }
        },
        Action::Remove(file) => {
            &&& after.sidecars == before.sidecars
            &&& if reply is Done {
                after.files == before.files.remove(file)
            } else {
                after.files == before.files
            }
        },
        Action::WriteSidecar { tier, last_modified, file_size } => {
            &&& after.files == before.files
            &&& if reply is Done {
                after.sidecars == before.sidecars.insert(tier, Record { last_modified, file_size })
            } else {
                after.sidecars.remove(tier) == before.sidecars.remove(tier)
            }
        },
        Action::ReadSize(file) => {
            &&& after == before
            &&& reply matches Reply::Number(size) ==> before.files.dom().contains(file) && size
                == before.files[file].len()
        },
        _ => after == before,
    }
}

/// Whether the reply reports that the operation did what it was asked to,
/// and, of a table, that it is there.
pub open spec fn granted(action: Action, reply: Reply) -> bool {
    match action {
        Action::FindSnapshot | Action::FindSidecar => reply is Flag,
        Action::CheckTable(_) => reply == Reply::Flag(true),
        Action::ReadSidecar => reply is Sidecar,
        Action::ReadModified(_) | Action::ReadClock | Action::ReadSize(_) => reply is Number,
        Action::CountRows(_) => reply is Rows,
        Action::ReadConfig(_) => reply is Config,
        Action::Halt => true,
        _ => reply is Done,
    }
}

/// Whether a reading agrees with the facts. Only the readings of a pull and
/// of the look that precedes a push are held to them; after a pull the
/// times are no longer what they were.
pub open spec fn truthful(facts: Facts, step: Step, reply: Reply) -> bool {
    match (step, reply) {
        (Step::PullFindSnapshot, Reply::Flag(found)) => found == facts.snapshot_present,
        (Step::PullFindSidecar, Reply::Flag(found)) => found == facts.sidecar_present,
        (Step::CheckFindSidecar, Reply::Flag(found)) => found == facts.sidecar_present,
        (Step::PullReadSidecar, Reply::Sidecar(metadata)) => metadata.last_modified
            == facts.recorded,
        (Step::CheckReadSidecar, Reply::Sidecar(metadata)) => metadata.last_modified
            == facts.recorded,
        (Step::PullReadRemoteTime { .. }, Reply::Number(time)) => time == facts.reported,
        (Step::CheckReadRemoteTime { .. }, Reply::Number(time)) => time == facts.reported,
        (Step::PullReadLocalTime { .. }, Reply::Number(time)) => time == facts.local,
        (Step::CheckReadLocalTime { .. }, Reply::Number(time)) => time == facts.local,
        (Step::PullCountRemote { .. }, Reply::Rows(rows)) => rows_or_zero(rows)
            == facts.remote_rows,
        (Step::PullCountLocal { .. }, Reply::Rows(rows)) => rows_or_zero(rows) == facts.local_rows,
        _ => true,
    }
}

/// Whether, from the engine and the files as given, the log is a run: each
/// exchange answers the operation that was pending, and the files changed
/// as that operation and its reply say.
pub open spec fn faithful(engine: Engine, disk: Disk, log: Seq<Exchange>) -> bool
    decreases log.len(),
{
    log.len() > 0 ==> {
        &&& effect(disk, engine.pending(), log[0].reply, log[0].disk)
        &&& faithful(engine.advanced(log[0].reply), log[0].disk, log.skip(1))
    }
}

/// Whether every reading in the log agrees with the facts.
pub open spec fn consistent(facts: Facts, engine: Engine, log: Seq<Exchange>) -> bool
    decreases log.len(),
{
    log.len() > 0 ==> {
        &&& truthful(facts, engine.step, log[0].reply)
        &&& consistent(facts, engine.advanced(log[0].reply), log.skip(1))
    }
}

/// Whether every operation in the log was granted.
pub open spec fn smooth(engine: Engine, log: Seq<Exchange>) -> bool
    decreases log.len(),
{
    log.len() > 0 ==> {
        &&& granted(engine.pending(), log[0].reply)
        &&& smooth(engine.advanced(log[0].reply), log.skip(1))
    }
}

/// The engine after the replies of the log.
pub open spec fn engine_after(engine: Engine, log: Seq<Exchange>) -> Engine
    decreases log.len(),
{
    if log.len() == 0 {
        engine
    } else {
        engine_after(engine.advanced(log[0].reply), log.skip(1))
    }
}

/// The files after the log.
pub open spec fn disk_after(disk: Disk, log: Seq<Exchange>) -> Disk {
    if log.len() == 0 {
        disk
    } else {
        log.last().disk
    }
}

/// Whether the operation would write over the local database.
pub open spec fn replaces_database(action: Action) -> bool {
    action matches Action::Copy { to, .. } && to == File::Database
}

/// Where the local database's first content is once a pull has ended. After
/// a pull that went through, the database holds what the snapshot held.
/// After one that could not restore the database, the backup holds what the
/// database held. After any other, the database holds what it held.
pub open spec fn pull_settled(outcome: PullOutcome, first: Disk, disk: Disk) -> bool {
    match outcome {
        PullOutcome::Pulled => first.files.dom().contains(File::Snapshot(Tier::Shared)) && holds(
            disk,
            File::Database,
            first.files[File::Snapshot(Tier::Shared)],
        ),
        PullOutcome::Failed { rollback: Rollback::Stranded(stamp), .. } => holds(
            disk,
            File::Backup(stamp),
            first.files[File::Database],
        ),
        _ => holds(disk, File::Database, first.files[File::Database]),
    }
}

/// As `pull_settled`, for a cycle that may have begun without a pull.
pub open spec fn pull_carried(pull: Option<PullOutcome>, first: Disk, disk: Disk) -> bool {
    match pull {
        Some(outcome) => pull_settled(outcome, first, disk),
        None => holds(disk, File::Database, first.files[File::Database]),
    }
}

/// The tier's snapshot holds what the local database holds.
pub open spec fn mirrors(disk: Disk, tier: Tier) -> bool {
    &&& disk.files.dom().contains(File::Database)
    &&& holds(disk, File::Snapshot(tier), disk.files[File::Database])
}

/// The tier's sidecar is there, is dated `stamp` and records the size of
/// the tier's snapshot.
pub open spec fn describes(disk: Disk, tier: Tier, stamp: u64) -> bool {
    &&& disk.sidecars.dom().contains(tier)
    &&& disk.sidecars[tier].last_modified == stamp
    &&& disk.sidecars[tier].file_size == disk.files[File::Snapshot(tier)].len()
}

/// What a push has published once it has ended: a snapshot that holds what
/// the database holds, and with it the sidecar that describes it.
pub open spec fn push_settled(outcome: PushOutcome, disk: Disk) -> bool {
    match outcome {
        PushOutcome::Pushed { stamp } => mirrors(disk, Tier::Shared) && describes(
            disk,
            Tier::Shared,
            stamp,
        ),
        PushOutcome::Degraded { stamp, .. } => mirrors(disk, Tier::Fallback) && describes(
            disk,
            Tier::Fallback,
            stamp,
        ),
        _ => true,
    }
}

/// What is published is as it was at the start: both snapshots and every
/// sidecar.
pub open spec fn published_as_first(first: Disk, disk: Disk) -> bool {
    &&& same_at(disk, first, File::Snapshot(Tier::Shared))
    &&& same_at(disk, first, File::Snapshot(Tier::Fallback))
    &&& disk.sidecars == first.sidecars
}

/// Whether the cycle has had no pull, or one that was declined before any
/// file was written to.
pub open spec fn calm(pull: Option<PullOutcome>) -> bool {
    match pull {
        None => true,
        Some(outcome) => outcome is NoRemoteData || outcome is LocalIsNewer,
    }
}

/// Where the content is that the files began with, at any point of a run.
///
/// Until a backup exists the database is as it was. From then until the
/// database has been verified or restored, the backup holds what the
/// database held. While the database is being verified it holds what the
/// snapshot held. After the pull, see `pull_settled`; during a push the
/// snapshot mirrors the database as soon as the copy is made, and the size
/// that goes into the sidecar is the snapshot's. A pull leaves what is
/// published alone, and as long as no operation has written anything the
/// files are as they were at the start: up to the backup in a pull, through
/// the look that precedes a push, and up to the copy in a push that follows
/// no pull or one that was declined.
pub open spec fn safe(engine: Engine, first: Disk, disk: Disk) -> bool {
    let database = File::Database;
    let snapshot = File::Snapshot(Tier::Shared);
    match engine.step {
        Step::ProbeLocate
        | Step::ProbeWrite
        | Step::ProbeRemove
        | Step::ConfigLocate
        | Step::ConfigReadShared
        | Step::ConfigReadLocal
        | Step::SaveLocate
        | Step::SaveShared
        | Step::SaveLocal => disk == first,
        Step::PullLocate
        | Step::PullFindSnapshot
        | Step::PullFindSidecar
        | Step::PullReadSidecar
        | Step::PullReadRemoteTime { .. }
        | Step::PullReadLocalTime { .. }
        | Step::PullCountRemote { .. }
        | Step::PullCountLocal { .. }
        | Step::PullReadClock { .. }
        | Step::PullBackup { .. } => {
            &&& holds(disk, database, first.files[database])
            &&& disk == first
        },
        Step::PullReplace { stamp, .. } => {
            &&& holds(disk, database, first.files[database])
            &&& holds(disk, File::Backup(stamp), first.files[database])
            &&& published_as_first(first, disk)
        },
        Step::PullSetTime { stamp, .. } | Step::PullVerify { stamp, .. } => {
            &&& holds(disk, File::Backup(stamp), first.files[database])
            &&& first.files.dom().contains(snapshot)
            &&& holds(disk, database, first.files[snapshot])
            &&& published_as_first(first, disk)
        },
        Step::PullRestore { stamp, .. } => {
            &&& holds(disk, File::Backup(stamp), first.files[database])
            &&& published_as_first(first, disk)
        },
        Step::PullDiscard { .. } => {
            &&& first.files.dom().contains(snapshot)
            &&& holds(disk, database, first.files[snapshot])
        },
        Step::CheckLocate
        | Step::CheckFindSidecar
        | Step::CheckReadSidecar
        | Step::CheckReadRemoteTime { .. }
        | Step::CheckReadLocalTime { .. }
        | Step::PushLocate
        | Step::PushCreateDir
        | Step::PushReadLocalTime
        | Step::PushReadClock { .. }
        | Step::PushCopy { .. } => {
            &&& pull_carried(engine.pull, first, disk)
            &&& calm(engine.pull) ==> disk == first
        },
        Step::FallbackLocate { .. }
        | Step::FallbackCreateDir { .. }
        | Step::FallbackCopy { .. } => pull_carried(engine.pull, first, disk),
        Step::PushSetTime { .. } | Step::PushReadSize { .. } => {
            &&& pull_carried(engine.pull, first, disk)
            &&& mirrors(disk, Tier::Shared)
        },
        Step::PushWriteSidecar { size, .. } => {
            &&& pull_carried(engine.pull, first, disk)
            &&& mirrors(disk, Tier::Shared)
            &&& size == disk.files[File::Snapshot(Tier::Shared)].len()
        },
        Step::FallbackReadClock { .. } | Step::FallbackReadSize { .. } => {
            &&& pull_carried(engine.pull, first, disk)
            &&& mirrors(disk, Tier::Fallback)
        },
        Step::FallbackWriteSidecar { size, .. } => {
            &&& pull_carried(engine.pull, first, disk)
            &&& mirrors(disk, Tier::Fallback)
            &&& size == disk.files[File::Snapshot(Tier::Fallback)].len()
        },
        Step::Finished(outcome) => match outcome {
            Outcome::Load(pull) => {
                &&& pull_settled(pull, first, disk)
                &&& calm(Some(pull)) ==> disk == first
                &&& pull.stranded() ==> published_as_first(first, disk)
            },
            Outcome::Cycle { pull, push } => {
                &&& pull_carried(pull, first, disk)
                &&& push_settled(push, disk)
                &&& push is Skipped && calm(pull) ==> disk == first
                &&& push is Withheld ==> published_as_first(first, disk)
            },
            _ => disk == first,
        },
    }
}

/// An operation leaves every file alone but the one it writes to or deletes.
pub proof fn lemma_effect_elsewhere(
    before: Disk,
    action: Action,
    reply: Reply,
    after: Disk,
    file: File,
)
    requires
        effect(before, action, reply, after),
    ensures
        target(action) != Some(file) ==> same_at(after, before, file),
{
    match action {
        Action::Copy { from, to } => {
            if !(reply is Done) && to != file {
                let kept = after.files.remove(to);
                let was = before.files.remove(to);
                assert(kept.dom().contains(file) == after.files.dom().contains(file));
                assert(was.dom().contains(file) == before.files.dom().contains(file));
                assert(kept[file] == after.files[file]);
                assert(was[file] == before.files[file]);
            }
        },
        _ => {},
    }
}

/// One exchange keeps `safe`.
pub proof fn lemma_safe_step(engine: Engine, first: Disk, disk: Disk, reply: Reply, next: Disk)
    requires
        first.files.dom().contains(File::Database),
        safe(engine, first, disk),
        effect(disk, engine.pending(), reply, next),
    ensures
        safe(engine.advanced(reply), first, next),
{
    let action = engine.pending();
    lemma_effect_elsewhere(disk, action, reply, next, File::Database);
    lemma_effect_elsewhere(disk, action, reply, next, File::Snapshot(Tier::Shared));
    lemma_effect_elsewhere(disk, action, reply, next, File::Snapshot(Tier::Fallback));
    match engine.step {
        Step::PullReplace { stamp, .. }
        | Step::PullSetTime { stamp, .. }
        | Step::PullVerify { stamp, .. }
        | Step::PullRestore { stamp, .. } => {
            lemma_effect_elsewhere(disk, action, reply, next, File::Backup(stamp));
        },
        _ => {},
    }
    match engine.pull {
        Some(PullOutcome::Failed { rollback: Rollback::Stranded(stamp), .. }) => {
            lemma_effect_elsewhere(disk, action, reply, next, File::Backup(stamp));
        },
        _ => {},
    }
}

/// The verdict on the remote snapshot that the facts give.
pub open spec fn verdict_on(facts: Facts) -> Verdict {
    verdict(
        facts.snapshot_present,
        facts.sidecar_present,
        facts.recorded,
        facts.reported,
        facts.local,
        facts.remote_rows,
        facts.local_rows,
    )
}

/// The verdict that a pull's outcome stands for, where no operation failed.
pub open spec fn verdict_given(outcome: PullOutcome) -> Option<Verdict> {
    match outcome {
        PullOutcome::Pulled => Some(Verdict::Pull),
        PullOutcome::NoRemoteData => Some(Verdict::NoRemoteData),
        PullOutcome::LocalIsNewer => Some(Verdict::LocalIsNewer),
        PullOutcome::Failed { .. } => None,
    }
}

/// Whether, by the facts, the remote snapshot is to replace the local
/// database: snapshot and sidecar are there, and the times and rows call
/// for it.
pub open spec fn pull_due(facts: Facts) -> bool {
    &&& facts.snapshot_present
    &&& facts.sidecar_present
    &&& pull_warranted(
        remote_modified(facts.recorded, facts.reported),
        facts.local,
        facts.remote_rows,
        facts.local_rows,
    )
}

/// Whether, by the facts, the local database is to be published when no
/// pull took place: there is no sidecar, or the database is strictly newer
/// than the later of the sidecar's time and the snapshot file's.
pub open spec fn push_called_for(facts: Facts) -> bool {
    push_due(facts.sidecar_present, facts.recorded, facts.reported, facts.local)
}

/// Whether a pull's outcome is one that the facts allow. The database is
/// written to only where the pull is due; the pull is declined as
/// unnecessary only where both files are there and it is not due, and for
/// want of remote data only where one of them is missing.
pub open spec fn verdict_follows(outcome: PullOutcome, facts: Facts) -> bool {
    match outcome {
        PullOutcome::Pulled => pull_due(facts),
        PullOutcome::NoRemoteData => !(facts.snapshot_present && facts.sidecar_present),
        PullOutcome::LocalIsNewer => facts.snapshot_present && facts.sidecar_present && !pull_due(
            facts,
        ),
        PullOutcome::Failed { rollback, .. } => !(rollback is Untouched) ==> pull_due(facts),
    }
}

/// What the engine has gathered agrees with the facts, and it has gone no
/// further than they allow.
pub open spec fn watchful(engine: Engine, facts: Facts) -> bool {
    let remote = remote_modified(facts.recorded, facts.reported);
    match engine.step {
        Step::PullFindSidecar => facts.snapshot_present,
        Step::PullReadSidecar => facts.snapshot_present && facts.sidecar_present,
        Step::PullReadRemoteTime { recorded } => {
            &&& facts.snapshot_present
            &&& facts.sidecar_present
            &&& recorded == facts.recorded
        },
        Step::PullReadLocalTime { remote: gathered } => {
            &&& facts.snapshot_present
            &&& facts.sidecar_present
            &&& gathered == remote
        },
        Step::PullCountRemote { remote: gathered } => {
            &&& facts.snapshot_present
            &&& facts.sidecar_present
            &&& gathered == remote
            &&& rows_decide(remote, facts.local)
        },
        Step::PullCountLocal { remote: gathered, remote_rows } => {
            &&& facts.snapshot_present
            &&& facts.sidecar_present
            &&& gathered == remote
            &&& rows_decide(remote, facts.local)
            &&& remote_rows == facts.remote_rows
        },
        Step::PullReadClock { .. }
        | Step::PullBackup { .. }
        | Step::PullReplace { .. }
        | Step::PullSetTime { .. }
        | Step::PullVerify { .. }
        | Step::PullRestore { .. }
        | Step::PullDiscard { .. } => pull_due(facts),
        Step::CheckReadSidecar => {
            &&& engine.pull matches Some(outcome) ==> verdict_follows(outcome, facts)
            &&& facts.sidecar_present
        },
        Step::CheckReadRemoteTime { recorded } => {
            &&& engine.pull matches Some(outcome) ==> verdict_follows(outcome, facts)
            &&& facts.sidecar_present
            &&& recorded == facts.recorded
        },
        Step::CheckReadLocalTime { remote: gathered } => {
            &&& engine.pull matches Some(outcome) ==> verdict_follows(outcome, facts)
            &&& facts.sidecar_present
            &&& gathered == remote
        },
        Step::Finished(Outcome::Load(outcome)) => verdict_follows(outcome, facts),
        Step::Finished(Outcome::Cycle { pull: Some(outcome), push }) => {
            &&& verdict_follows(outcome, facts)
            &&& push is Skipped ==> !push_called_for(facts)
        },
        _ => engine.pull matches Some(outcome) ==> verdict_follows(outcome, facts),
    }
}

/// Where a push is under way or done that followed no replacement of the
/// database, the facts called for it.
pub open spec fn pressed(engine: Engine, facts: Facts) -> bool {
    match engine.step {
        Step::Finished(Outcome::Cycle { pull: Some(outcome), push }) => !(outcome is Pulled) && !(
        push is Skipped) && !(push is Withheld) ==> push_called_for(facts),
        Step::Finished(_) => true,
        step => (step.phase() == Phase::Pushing || step.phase() == Phase::FallingBack) && (
        engine.pull matches Some(outcome) && !(outcome is Pulled)) ==> push_called_for(facts),
    }
}

/// Nothing has failed so far.
pub open spec fn unhindered(engine: Engine) -> bool {
    match engine.step {
        Step::PullRestore { .. } => false,
        Step::Finished(outcome) => match outcome {
            Outcome::Availability(available) => available,
            Outcome::Unsaved(_) => false,
            Outcome::Load(pull) => !(pull is Failed),
            Outcome::Cycle { pull, push } => {
                &&& pull matches Some(outcome) ==> !(outcome is Failed)
                &&& push is Pushed || push is Skipped
            },
            _ => true,
        },
        step => {
            &&& step.phase() != Phase::FallingBack
            &&& engine.pull matches Some(outcome) ==> !(outcome is Failed)
        },
    }
}

/// One reply keeps `well_formed`, and the task.
pub proof fn lemma_well_formed_step(engine: Engine, reply: Reply)
    requires
        engine.well_formed(),
    ensures
        engine.advanced(reply).well_formed(),
        engine.advanced(reply).task == engine.task,
{
}

/// One truthful reply keeps `watchful`.
pub proof fn lemma_watchful_step(engine: Engine, facts: Facts, reply: Reply)
    requires
        engine.well_formed(),
        watchful(engine, facts),
        truthful(facts, engine.step, reply),
    ensures
        watchful(engine.advanced(reply), facts),
{
}

/// One granted reply keeps `unhindered`.
pub proof fn lemma_unhindered_step(engine: Engine, reply: Reply)
    requires
        engine.well_formed(),
        unhindered(engine),
        granted(engine.pending(), reply),
    ensures
        unhindered(engine.advanced(reply)),
{
}

/// One reply that is granted and truthful keeps `pressed`.
pub proof fn lemma_pressed_step(engine: Engine, facts: Facts, reply: Reply)
    requires
        engine.well_formed(),
        watchful(engine, facts),
        pressed(engine, facts),
        truthful(facts, engine.step, reply),
        granted(engine.pending(), reply),
    ensures
        pressed(engine.advanced(reply), facts),
{
}

/// The files after a log that is not empty are those after its last
/// exchange, also when the log is gone through from the front.
proof fn lemma_disk_after_skip(disk: Disk, log: Seq<Exchange>)
    requires
        log.len() > 0,
    ensures
        disk_after(disk, log) == disk_after(log[0].disk, log.skip(1)),
{
    if log.len() > 1 {
        assert(log.skip(1).last() == log.last());
    }
}

/// A run keeps `well_formed` and the task.
pub proof fn lemma_well_formed_run(engine: Engine, log: Seq<Exchange>)
    requires
        engine.well_formed(),
    ensures
        engine_after(engine, log).well_formed(),
        engine_after(engine, log).task == engine.task,
    decreases log.len(),
{
    if log.len() > 0 {
        lemma_well_formed_step(engine, log[0].reply);
        lemma_well_formed_run(engine.advanced(log[0].reply), log.skip(1));
    }
}

/// A run keeps `well_formed`, the task and `safe`.
pub proof fn lemma_safe_run(engine: Engine, first: Disk, disk: Disk, log: Seq<Exchange>)
    requires
        first.files.dom().contains(File::Database),
        engine.well_formed(),
        safe(engine, first, disk),
        faithful(engine, disk, log),
    ensures
        engine_after(engine, log).well_formed(),
        engine_after(engine, log).task == engine.task,
        safe(engine_after(engine, log), first, disk_after(disk, log)),
    decreases log.len(),
{
    if log.len() > 0 {
        lemma_well_formed_step(engine, log[0].reply);
        lemma_safe_step(engine, first, disk, log[0].reply, log[0].disk);
        lemma_disk_after_skip(disk, log);
        lemma_safe_run(engine.advanced(log[0].reply), first, log[0].disk, log.skip(1));
    }
}

/// A run with truthful readings keeps `watchful`.
pub proof fn lemma_watchful_run(engine: Engine, facts: Facts, log: Seq<Exchange>)
    requires
        engine.well_formed(),
        watchful(engine, facts),
        consistent(facts, engine, log),
    ensures
        watchful(engine_after(engine, log), facts),
    decreases log.len(),
{
    if log.len() > 0 {
        lemma_well_formed_step(engine, log[0].reply);
        lemma_watchful_step(engine, facts, log[0].reply);
        lemma_watchful_run(engine.advanced(log[0].reply), facts, log.skip(1));
    }
}

/// A run with truthful readings in which every operation is granted keeps
/// `watchful` and `pressed`.
pub proof fn lemma_pressed_run(engine: Engine, facts: Facts, log: Seq<Exchange>)
    requires
        engine.well_formed(),
        watchful(engine, facts),
        pressed(engine, facts),
        consistent(facts, engine, log),
        smooth(engine, log),
    ensures
        pressed(engine_after(engine, log), facts),
    decreases log.len(),
{
    if log.len() > 0 {
        lemma_well_formed_step(engine, log[0].reply);
        lemma_watchful_step(engine, facts, log[0].reply);
        lemma_pressed_step(engine, facts, log[0].reply);
        lemma_pressed_run(engine.advanced(log[0].reply), facts, log.skip(1));
    }
}

/// A run in which every operation is granted keeps `unhindered`.
pub proof fn lemma_unhindered_run(engine: Engine, log: Seq<Exchange>)
    requires
        engine.well_formed(),
        unhindered(engine),
        smooth(engine, log),
    ensures
        unhindered(engine_after(engine, log)),
    decreases log.len(),
{
    if log.len() > 0 {
        lemma_well_formed_step(engine, log[0].reply);
        lemma_unhindered_step(engine, log[0].reply);
        lemma_unhindered_run(engine.advanced(log[0].reply), log.skip(1));
    }
}

/// No silent loss. Whatever a task does and wherever it fails, what the
/// local database held at the start is not lost without a verified
/// replacement: `safe` holds after every run. The database is written over
/// only while a backup holds what it held. And when a pull has ended
/// otherwise than by replacing the database, the database holds what it
/// held before, byte for byte, unless the restore itself failed, and then
/// the backup holds it.
pub proof fn law_no_silent_loss(task: Task, first: Disk, log: Seq<Exchange>)
    requires
        first.files.dom().contains(File::Database),
        faithful(Engine::begun(task), first, log),
    ensures
        safe(engine_after(Engine::begun(task), log), first, disk_after(first, log)),
        replaces_database(engine_after(Engine::begun(task), log).pending()) ==> exists|stamp: u64|
            holds(disk_after(first, log), File::Backup(stamp), first.files[File::Database]),
        forall|outcome: PullOutcome|
            engine_after(Engine::begun(task), log).step == Step::Finished(Outcome::Load(outcome))
                ==> pull_settled(outcome, first, disk_after(first, log)),
        forall|outcome: PullOutcome, push: PushOutcome|
            engine_after(Engine::begun(task), log).step == Step::Finished(
                Outcome::Cycle { pull: Some(outcome), push },
            ) ==> pull_settled(outcome, first, disk_after(first, log)),
{
    lemma_safe_run(Engine::begun(task), first, first, log);
    let engine = engine_after(Engine::begun(task), log);
    let disk = disk_after(first, log);
    match engine.step {
        Step::PullReplace { stamp, .. } | Step::PullRestore { stamp, .. } => {
            assert(holds(disk, File::Backup(stamp), first.files[File::Database]));
        },
        _ => {},
    }
}

/// A snapshot and its sidecar are a pair. When a cycle ends with the
/// database published, in the shared folder or in the local tier, that
/// tier's snapshot holds what the database holds, and its sidecar carries
/// the date of the push and the size of the snapshot.
pub proof fn law_push_publishes_a_pair(task: Task, first: Disk, log: Seq<Exchange>)
    requires
        first.files.dom().contains(File::Database),
        faithful(Engine::begun(task), first, log),
    ensures
        forall|pull: Option<PullOutcome>, push: PushOutcome|
            engine_after(Engine::begun(task), log).step == Step::Finished(
                Outcome::Cycle { pull, push },
            ) ==> push_settled(push, disk_after(first, log)),
{
    lemma_safe_run(Engine::begun(task), first, first, log);
}

/// The engine's verdict follows the facts. In a pull or an automatic cycle
/// whose readings agree with the facts, the database is written to only
/// where the pull is due, and the pull is declined only where it is not.
pub proof fn law_verdict_follows_facts(task: Task, facts: Facts, log: Seq<Exchange>)
    requires
        task is Load || task is Automatic,
        consistent(facts, Engine::begun(task), log),
    ensures
        watchful(engine_after(Engine::begun(task), log), facts),
        replaces_database(engine_after(Engine::begun(task), log).pending()) ==> pull_due(facts),
        forall|outcome: PullOutcome|
            engine_after(Engine::begun(task), log).step == Step::Finished(Outcome::Load(outcome))
                ==> verdict_follows(outcome, facts),
        forall|outcome: PullOutcome, push: PushOutcome|
            engine_after(Engine::begun(task), log).step == Step::Finished(
                Outcome::Cycle { pull: Some(outcome), push },
            ) ==> verdict_follows(outcome, facts),
{
    lemma_watchful_run(Engine::begun(task), facts, log);
}

/// The pull threshold. In a pull or an automatic cycle whose readings agree
/// with the facts and in which every operation is granted, the pull ends as
/// the verdict on the facts says. So the database is replaced if and only
/// if the pull is due: snapshot and sidecar are there, and the remote time
/// is later than the local one, or equal to it with more rows on the remote
/// side, or earlier by more than a day with more rows on the remote side.
/// And the pull ends for want of remote data if and only if the snapshot or
/// the sidecar is missing.
pub proof fn law_pull_threshold(task: Task, facts: Facts, log: Seq<Exchange>)
    requires
        task is Load || task is Automatic,
        consistent(facts, Engine::begun(task), log),
        smooth(Engine::begun(task), log),
    ensures
        pull_due(facts) <==> verdict_on(facts) == Verdict::Pull,
        forall|outcome: PullOutcome|
            engine_after(Engine::begun(task), log).step == Step::Finished(Outcome::Load(outcome))
                ==> verdict_given(outcome) == Some(verdict_on(facts)),
        forall|outcome: PullOutcome, push: PushOutcome|
            engine_after(Engine::begun(task), log).step == Step::Finished(
                Outcome::Cycle { pull: Some(outcome), push },
            ) ==> verdict_given(outcome) == Some(verdict_on(facts)),
{
    lemma_watchful_run(Engine::begun(task), facts, log);
    lemma_unhindered_run(Engine::begun(task), log);
}

/// The push threshold. In an automatic cycle whose readings agree with the
/// facts and in which every operation is granted, a pull that replaced the
/// database is followed by a push; after any other pull the push is skipped
/// if and only if there is a sidecar and the local time is not later than
/// the later of the sidecar's time and the snapshot file's.
pub proof fn law_push_threshold(facts: Facts, log: Seq<Exchange>)
    requires
        consistent(facts, Engine::begun(Task::Automatic), log),
        smooth(Engine::begun(Task::Automatic), log),
    ensures
        forall|outcome: PullOutcome, push: PushOutcome|
            engine_after(Engine::begun(Task::Automatic), log).step == Step::Finished(
                Outcome::Cycle { pull: Some(outcome), push },
            ) ==> {
                &&& outcome is Pulled ==> push is Pushed
                &&& !(outcome is Pulled) ==> (push is Skipped <==> !push_called_for(facts))
                &&& !(outcome is Pulled) ==> (push is Pushed <==> push_called_for(facts))
            },
{
    let start = Engine::begun(Task::Automatic);
    lemma_watchful_run(start, facts, log);
    lemma_pressed_run(start, facts, log);
    lemma_unhindered_run(start, log);
    lemma_well_formed_run(start, log);
}

/// Agreement writes nothing. Where snapshot and sidecar are there, the
/// remote time equals the local one and the snapshot counts no more rows
/// than the database, an automatic cycle whose readings agree with that and
/// in which every operation is granted ends without a pull, without a push
/// and without a complaint, and every file and sidecar is as it was at the
/// start.
pub proof fn law_agreement_writes_nothing(facts: Facts, first: Disk, log: Seq<Exchange>)
    requires
        first.files.dom().contains(File::Database),
        faithful(Engine::begun(Task::Automatic), first, log),
        consistent(facts, Engine::begun(Task::Automatic), log),
        smooth(Engine::begun(Task::Automatic), log),
        facts.snapshot_present,
        facts.sidecar_present,
        remote_modified(facts.recorded, facts.reported) == facts.local,
        facts.remote_rows <= facts.local_rows,
    ensures
        !(engine_after(Engine::begun(Task::Automatic), log).pending() is Copy),
        !(engine_after(Engine::begun(Task::Automatic), log).pending() is WriteSidecar),
        engine_after(Engine::begun(Task::Automatic), log).finished() ==> {
            &&& engine_after(Engine::begun(Task::Automatic), log).step == Step::Finished(
                Outcome::Cycle { pull: Some(PullOutcome::LocalIsNewer), push: PushOutcome::Skipped },
            )
            &&& complaint(
                Outcome::Cycle { pull: Some(PullOutcome::LocalIsNewer), push: PushOutcome::Skipped },
            ) is None
            &&& disk_after(first, log) == first
        },
{
    let start = Engine::begun(Task::Automatic);
    lemma_safe_run(start, first, first, log);
    lemma_watchful_run(start, facts, log);
    lemma_pressed_run(start, facts, log);
    lemma_unhindered_run(start, log);
}

/// A database that was left unrestored is not published. Where the copy
/// over the database fails and the restore fails too, an automatic cycle
/// ends there: the push is withheld, both snapshots and every sidecar are
/// as they were at the start, the backup holds what the database held, and
/// the cycle counts as failed.
pub proof fn law_stranded_database_is_not_published(first: Disk, log: Seq<Exchange>)
    requires
        first.files.dom().contains(File::Database),
        faithful(Engine::begun(Task::Automatic), first, log),
    ensures
        forall|outcome: PullOutcome, push: PushOutcome|
            engine_after(Engine::begun(Task::Automatic), log).step == Step::Finished(
                Outcome::Cycle { pull: Some(outcome), push },
            ) ==> (outcome.stranded() <==> push is Withheld),
        forall|outcome: PullOutcome, push: PushOutcome|
            engine_after(Engine::begun(Task::Automatic), log).step == Step::Finished(
                Outcome::Cycle { pull: Some(outcome), push },
            ) && outcome.stranded() ==> {
                &&& published_as_first(first, disk_after(first, log))
                &&& pull_settled(outcome, first, disk_after(first, log))
                &&& complaint(Outcome::Cycle { pull: Some(outcome), push }) is Some
            },
        engine_after(Engine::begun(Task::Automatic), log).pull matches Some(outcome)
            ==> !outcome.stranded(),
{
    lemma_safe_run(Engine::begun(Task::Automatic), first, first, log);
}

/// Idempotence of agreement. Where the local database and the remote
/// snapshot carry the same time and the snapshot counts no more rows than
/// the database, as when they are byte for byte the same, a pull or an
/// automatic cycle never asks for the database to be written over, and the
/// database holds at the end what it held at the start.
pub proof fn law_agreement_replaces_nothing(
    task: Task,
    facts: Facts,
    first: Disk,
    log: Seq<Exchange>,
)
    requires
        task is Load || task is Automatic,
        first.files.dom().contains(File::Database),
        faithful(Engine::begun(task), first, log),
        consistent(facts, Engine::begun(task), log),
        remote_modified(facts.recorded, facts.reported) == facts.local,
        facts.remote_rows <= facts.local_rows,
    ensures
        !replaces_database(engine_after(Engine::begun(task), log).pending()),
        holds(disk_after(first, log), File::Database, first.files[File::Database]),
{
    lemma_safe_run(Engine::begun(task), first, first, log);
    lemma_watchful_run(Engine::begun(task), facts, log);
}

/// Manual overrides pull, first half. A manual cycle never looks at the
/// remote copy and never asks for the database to be written over: the
/// database holds at the end what it held at the start, the push is never
/// skipped, and once it has gone through the shared snapshot holds what the
/// database holds. Where every operation is granted it goes through.
pub proof fn law_manual_sync_publishes_local(first: Disk, log: Seq<Exchange>)
    requires
        first.files.dom().contains(File::Database),
        faithful(Engine::begun(Task::Manual), first, log),
    ensures
        !replaces_database(engine_after(Engine::begun(Task::Manual), log).pending()),
        holds(disk_after(first, log), File::Database, first.files[File::Database]),
        engine_after(Engine::begun(Task::Manual), log).finished() ==> (engine_after(
            Engine::begun(Task::Manual),
            log,
        ).step matches Step::Finished(Outcome::Cycle { pull: None, push }) && !(push is Skipped) && (
        push matches PushOutcome::Pushed { stamp } ==> holds(
            disk_after(first, log),
            File::Snapshot(Tier::Shared),
            first.files[File::Database],
        ) && describes(disk_after(first, log), Tier::Shared, stamp)) && (smooth(
            Engine::begun(Task::Manual),
            log,
        ) ==> push is Pushed)),
{
    let start = Engine::begun(Task::Manual);
    lemma_safe_run(start, first, first, log);
    if smooth(start, log) {
        lemma_unhindered_run(start, log);
    }
}

/// Manual overrides pull, second half. With the remote snapshot strictly
/// newer than the local database, an automatic cycle whose readings agree
/// with that never declines the pull; and where every operation is granted
/// it ends with the database holding what the snapshot held at the start,
/// published back to the shared folder.
pub proof fn law_automatic_sync_adopts_newer_remote(
    facts: Facts,
    first: Disk,
    log: Seq<Exchange>,
)
    requires
        first.files.dom().contains(File::Database),
        faithful(Engine::begun(Task::Automatic), first, log),
        consistent(facts, Engine::begun(Task::Automatic), log),
        facts.snapshot_present,
        facts.sidecar_present,
        remote_modified(facts.recorded, facts.reported) > facts.local,
    ensures
        engine_after(Engine::begun(Task::Automatic), log).finished() ==> (engine_after(
            Engine::begun(Task::Automatic),
            log,
        ).step matches Step::Finished(Outcome::Cycle { pull: Some(pull), push }) && (pull is Pulled
            || pull is Failed) && (smooth(Engine::begun(Task::Automatic), log) ==> {
            &&& pull is Pulled
            &&& push is Pushed
            &&& first.files.dom().contains(File::Snapshot(Tier::Shared))
            &&& holds(
                disk_after(first, log),
                File::Database,
                first.files[File::Snapshot(Tier::Shared)],
            )
            &&& holds(
                disk_after(first, log),
                File::Snapshot(Tier::Shared),
                first.files[File::Snapshot(Tier::Shared)],
            )
        })),
{
    let start = Engine::begun(Task::Automatic);
    lemma_safe_run(start, first, first, log);
    lemma_watchful_run(start, facts, log);
    if smooth(start, log) {
        lemma_unhindered_run(start, log);
    }
}

/// Every reply brings the end nearer.
pub proof fn lemma_advance_nears_end(engine: Engine, reply: Reply)
    requires
        !engine.finished(),
    ensures
        engine.advanced(reply).step.remaining() < engine.step.remaining(),
{
}

/// A log that is as long as the bound on what is still to come leads to
/// the end.
pub proof fn lemma_run_ends(engine: Engine, log: Seq<Exchange>)
    requires
        log.len() >= engine.step.remaining(),
    ensures
        engine_after(engine, log).finished(),
    decreases log.len(),
{
    if log.len() > 0 {
        if engine.finished() {
            assert(engine.advanced(log[0].reply) == engine);
        } else {
            lemma_advance_nears_end(engine, log[0].reply);
        }
        lemma_run_ends(engine.advanced(log[0].reply), log.skip(1));
    }
}

/// The engine halts. Whatever the task and whatever the replies, after
/// `MAX_OPERATIONS` operations at most the task has ended.
pub proof fn law_engine_halts(task: Task, log: Seq<Exchange>)
    requires
        log.len() >= MAX_OPERATIONS,
    ensures
        engine_after(Engine::begun(task), log).finished(),
{
    lemma_run_ends(Engine::begun(task), log);
}

} // verus!
