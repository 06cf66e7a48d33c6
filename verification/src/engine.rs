//! The engine: one operation after another, each chosen from what the last
//! one reported.
//!
//! An [`Engine`] is a task in progress. `request` names the operation that
//! it waits for, `advance` takes the driver's reply and gives the engine as
//! it stands afterwards. The engine does nothing else: it never reads a
//! failure's text, and what it carries it hands on unchanged.

use vstd::prelude::*;
use crate::config::SyncConfig;
use crate::config::default_config;
use crate::manager::SyncManager;
use crate::protocol::Action;
use crate::protocol::Fault;
use crate::protocol::File;
use crate::protocol::Reply;
use crate::protocol::Table;
use crate::protocol::Tier;
use crate::protocol::classify;
use crate::protocol::fault_of;
use crate::resolver::Comparison;
use crate::resolver::compare_times;
use crate::resolver::comparison;
use crate::resolver::counted_rows;
use crate::resolver::effective_remote_modified;
use crate::resolver::local_is_newer;
use crate::resolver::push_stamp;
use crate::resolver::push_warranted;
use crate::resolver::remote_modified;
use crate::resolver::rows_or_zero;
use crate::resolver::stamp_for_push;

verus! {

/// The largest number of operations that a task can take.
pub const MAX_OPERATIONS: u64 = 36;

/// What an engine is there to do.
#[derive(Debug, Clone, Copy, PartialEq, Eq, Structural)]
pub enum Task {
    /// Find out whether the shared folder can be reached and written to.
    Probe,
    /// Read the settings: from the shared folder, else from the local
    /// directory, else the defaults.
    LoadConfig,
    /// Store the settings: in the shared folder, else in the local directory.
    SaveConfig,
    /// Replace the local database by the remote snapshot if that is newer.
    Load,
    /// A scheduled cycle: pull if the remote is newer, then push if a pull
    /// took place or the local database is newer.
    Automatic,
    /// A cycle that the user asked for: push, whatever the remote holds.
    Manual,
}

/// What became of the local database when a pull failed.
#[derive(Debug, Clone, Copy, PartialEq, Eq, Structural)]
pub enum Rollback {
    /// The failure came before the database was written to.
    Untouched,
    /// The database was written to and then restored from the backup.
    Restored,
    /// The database was written to and could not be restored. What it held
    /// is in the backup made at the given second, which is kept.
    Stranded(u64),
}

/// How a pull ended.
#[derive(Debug, PartialEq, Eq)]
pub enum PullOutcome {
    /// The remote snapshot has replaced the local database and has the
    /// required tables.
    Pulled,
    /// The snapshot or its sidecar is absent.
    NoRemoteData,
    /// The local database is as new as the snapshot or newer: nothing to do.
    LocalIsNewer,
    /// An operation failed.
    Failed { fault: Fault, rollback: Rollback },
}

/// How a push ended.
#[derive(Debug, PartialEq, Eq)]
pub enum PushOutcome {
    /// The local database is not newer than the snapshot: nothing published.
    Skipped,
    /// The database is published in the shared folder, dated `stamp`.
    Pushed { stamp: u64 },
    /// The shared folder failed; the database is published in the local
    /// backup tier, dated `stamp`.
    Degraded { remote: Fault, stamp: u64 },
    /// Both tiers failed.
    Failed { remote: Fault, local: Fault },
    /// The pull left the database neither replaced nor restored: what it
    /// holds is not published, and the cycle has failed.
    Withheld,
}

/// How a task ended.
#[derive(Debug, PartialEq, Eq)]
pub enum Outcome {
    /// Whether the shared folder can be used.
    Availability(bool),
    /// The settings to work with.
    Config(SyncConfig),
    /// The settings are stored in the tier.
    Saved(Tier),
    /// The settings could not be stored in either tier.
    Unsaved(Fault),
    /// A pull on its own.
    Load(PullOutcome),
    /// A cycle: its pull, where it began with one, and its push.
    Cycle { pull: Option<PullOutcome>, push: PushOutcome },
}

/// Where a task stands. Each step waits for the reply to one operation,
/// the one that `Step::pending` gives, and carries what later steps need of
/// the replies so far.
#[derive(Debug, PartialEq, Eq)]
#[allow(inconsistent_fields)]
pub enum Step {
    /// Probing: the shared folder is being looked for.
    ProbeLocate,
    /// Probing: the marker is being written.
    ProbeWrite,
    /// Probing: the marker is being deleted.
    ProbeRemove,
    /// Reading the settings: the shared folder is being looked for.
    ConfigLocate,
    /// Reading the settings from the shared folder.
    ConfigReadShared,
    /// Reading the settings from the local directory.
    ConfigReadLocal,
    /// Storing the settings: the shared folder is being looked for.
    SaveLocate,
    /// Storing the settings in the shared folder.
    SaveShared,
    /// Storing the settings in the local directory.
    SaveLocal,
    /// Pulling: the shared folder is being looked for.
    PullLocate,
    /// Pulling: is there a snapshot?
    PullFindSnapshot,
    /// Pulling: is there a sidecar?
    PullFindSidecar,
    /// Pulling: the sidecar is being read.
    PullReadSidecar,
    /// Pulling: the snapshot's time is being read; `recorded` is the
    /// sidecar's.
    PullReadRemoteTime { recorded: u64 },
    /// Pulling: the database's time is being read; `remote` is the time
    /// that stands for the snapshot.
    PullReadLocalTime { remote: u64 },
    /// Pulling: the snapshot's rows are being counted.
    PullCountRemote { remote: u64 },
    /// Pulling: the database's rows are being counted.
    PullCountLocal { remote: u64, remote_rows: i64 },
    /// Pulling: the clock is being read to name the backup.
    PullReadClock { remote: u64 },
    /// Pulling: the database is being copied to the backup named by `stamp`.
    PullBackup { remote: u64, stamp: u64 },
    /// Pulling: the snapshot is being copied over the database.
    PullReplace { remote: u64, stamp: u64 },
    /// Pulling: the database is being given the snapshot's time.
    PullSetTime { remote: u64, stamp: u64 },
    /// Pulling: the database is being looked through for `table`.
    PullVerify { table: Table, stamp: u64 },
    /// Pulling: the backup is being copied back after `fault`.
    PullRestore { fault: Fault, stamp: u64 },
    /// Pulling: the backup is being deleted.
    PullDiscard { stamp: u64 },
    /// Before a push: the shared folder is being looked for.
    CheckLocate,
    /// Before a push: is there a sidecar?
    CheckFindSidecar,
    /// Before a push: the sidecar is being read.
    CheckReadSidecar,
    /// Before a push: the snapshot's time is being read; `recorded` is the
    /// sidecar's.
    CheckReadRemoteTime { recorded: u64 },
    /// Before a push: the database's time is being read; `remote` is the
    /// time that stands for the snapshot.
    CheckReadLocalTime { remote: u64 },
    /// Pushing: the shared folder is being looked for.
    PushLocate,
    /// Pushing: the directory for snapshots is being created.
    PushCreateDir,
    /// Pushing: the database's time is being read.
    PushReadLocalTime,
    /// Pushing: the clock is being read; `local` is the database's time.
    PushReadClock { local: u64 },
    /// Pushing: the database is being copied to the snapshot; `stamp` is
    /// the time of this push.
    PushCopy { stamp: u64 },
    /// Pushing: the snapshot is being given the time of this push.
    PushSetTime { stamp: u64 },
    /// Pushing: the snapshot's size is being read.
    PushReadSize { stamp: u64 },
    /// Pushing: the sidecar is being written.
    PushWriteSidecar { stamp: u64, size: u64 },
    /// Falling back after `remote`: the local directory is being looked for.
    FallbackLocate { remote: Fault },
    /// Falling back: the directory for snapshots is being created.
    FallbackCreateDir { remote: Fault },
    /// Falling back: the database is being copied to the local snapshot.
    FallbackCopy { remote: Fault },
    /// Falling back: the clock is being read.
    FallbackReadClock { remote: Fault },
    /// Falling back: the local snapshot's size is being read.
    FallbackReadSize { remote: Fault, stamp: u64 },
    /// Falling back: the local sidecar is being written.
    FallbackWriteSidecar { remote: Fault, stamp: u64, size: u64 },
    /// The task has ended.
    Finished(Outcome),
}

/// A task in progress.
#[derive(Debug, PartialEq, Eq)]
pub struct Engine {
    /// What the engine is there to do.
    pub task: Task,
    /// How the pull of this cycle ended, once it has.
    pub pull: Option<PullOutcome>,
    /// Where the task stands.
    pub step: Step,
}

impl PullOutcome {
    /// Whether the pull wrote to the database and could neither complete
    /// nor undo that: the database holds neither what it held nor what the
    /// snapshot holds.
    pub open spec fn stranded(self) -> bool {
        self matches PullOutcome::Failed { rollback: Rollback::Stranded(_), .. }
    }

    /// Computes `stranded`.
    pub fn is_stranded(&self) -> (stranded: bool)
        ensures
            stranded == self.stranded(),
    {
        match self {
            PullOutcome::Failed { rollback: Rollback::Stranded(_), .. } => true,
            _ => false,
        }
    }
}

impl Outcome {
    /// Whether a probe found the shared folder usable. Any other outcome
    /// counts as not usable.
    pub fn is_available(&self) -> (available: bool)
        ensures
            available == (*self matches Outcome::Availability(found) && found),
    {
        match self {
            Outcome::Availability(found) => *found,
            _ => false,
        }
    }

    /// The settings that were read, if they are well formed. Settings that
    /// are not, and any other outcome, give the defaults: what is returned
    /// can be put in force.
    pub fn into_config(self) -> (config: SyncConfig)
        ensures
            config == match self {
                Outcome::Config(read) if read.well_formed() => read,
                _ => default_config(),
            },
            config.well_formed(),
    {
        match self {
            Outcome::Config(read) => if read.is_well_formed() {
                read
            } else {
                SyncConfig::default()
            },
            _ => SyncConfig::default(),
        }
    }

    /// How the pull of the task ended, if the task had one.
    pub fn into_pull(self) -> (pull: Option<PullOutcome>)
        ensures
            pull == match self {
                Outcome::Load(outcome) => Some(outcome),
                Outcome::Cycle { pull, .. } => pull,
                _ => None,
            },
    {
        match self {
            Outcome::Load(outcome) => Some(outcome),
            Outcome::Cycle { pull, .. } => pull,
            _ => None,
        }
    }
}

/// The part of a task that a step belongs to.
#[derive(Debug, Clone, Copy, PartialEq, Eq, Structural)]
pub enum Phase {
    /// Probing the shared folder.
    Probing,
    /// Reading the settings.
    Reading,
    /// Storing the settings.
    Storing,
    /// Pulling: from the first look at the shared folder to the removal of
    /// the backup.
    Pulling,
    /// Looking whether the local database is newer than the snapshot.
    Checking,
    /// Pushing to the shared folder.
    Pushing,
    /// Pushing to the local backup tier.
    FallingBack,
    /// The task has ended.
    Over,
}

impl Step {
    /// The part of its task that the step belongs to.
    pub open spec fn phase(self) -> Phase {
        match self {
            Step::ProbeLocate | Step::ProbeWrite | Step::ProbeRemove => Phase::Probing,
            Step::ConfigLocate | Step::ConfigReadShared | Step::ConfigReadLocal => Phase::Reading,
            Step::SaveLocate | Step::SaveShared | Step::SaveLocal => Phase::Storing,
            Step::PullLocate
            | Step::PullFindSnapshot
            | Step::PullFindSidecar
            | Step::PullReadSidecar
            | Step::PullReadRemoteTime { .. }
            | Step::PullReadLocalTime { .. }
            | Step::PullCountRemote { .. }
            | Step::PullCountLocal { .. }
            | Step::PullReadClock { .. }
            | Step::PullBackup { .. }
            | Step::PullReplace { .. }
            | Step::PullSetTime { .. }
            | Step::PullVerify { .. }
            | Step::PullRestore { .. }
            | Step::PullDiscard { .. } => Phase::Pulling,
            Step::CheckLocate
            | Step::CheckFindSidecar
            | Step::CheckReadSidecar
            | Step::CheckReadRemoteTime { .. }
            | Step::CheckReadLocalTime { .. } => Phase::Checking,
            Step::PushLocate
            | Step::PushCreateDir
            | Step::PushReadLocalTime
            | Step::PushReadClock { .. }
            | Step::PushCopy { .. }
            | Step::PushSetTime { .. }
            | Step::PushReadSize { .. }
            | Step::PushWriteSidecar { .. } => Phase::Pushing,
            Step::FallbackLocate { .. }
            | Step::FallbackCreateDir { .. }
            | Step::FallbackCopy { .. }
            | Step::FallbackReadClock { .. }
            | Step::FallbackReadSize { .. }
            | Step::FallbackWriteSidecar { .. } => Phase::FallingBack,
            Step::Finished(_) => Phase::Over,
        }
    }

    /// A bound on the operations that are still to come: no run from this
    /// step goes on for longer.
    pub open spec fn remaining(self) -> nat {
        match self {
            Step::Finished(_) => 0,
            Step::ProbeRemove | Step::ConfigReadLocal | Step::SaveLocal => 1,
            Step::ProbeWrite | Step::ConfigReadShared | Step::SaveShared => 2,
            Step::ProbeLocate | Step::ConfigLocate | Step::SaveLocate => 3,
            Step::FallbackWriteSidecar { .. } => 1,
            Step::FallbackReadSize { .. } => 2,
            Step::FallbackReadClock { .. } => 3,
            Step::FallbackCopy { .. } => 4,
            Step::FallbackCreateDir { .. } => 5,
            Step::FallbackLocate { .. } => 6,
            Step::PushWriteSidecar { .. } => 7,
            Step::PushReadSize { .. } => 8,
            Step::PushSetTime { .. } => 9,
            Step::PushCopy { .. } => 10,
            Step::PushReadClock { .. } => 11,
            Step::PushReadLocalTime => 12,
            Step::PushCreateDir => 13,
            Step::PushLocate => 14,
            Step::CheckReadLocalTime { .. } => 15,
            Step::CheckReadRemoteTime { .. } => 16,
            Step::CheckReadSidecar => 17,
            Step::CheckFindSidecar => 18,
            Step::CheckLocate => 19,
            Step::PullDiscard { .. } | Step::PullRestore { .. } => 20,
            Step::PullVerify { table: Table::Budgets, .. } => 21,
            Step::PullVerify { table: Table::Categories, .. } => 22,
            Step::PullVerify { table: Table::Transactions, .. } => 23,
            Step::PullVerify { table: Table::Accounts, .. } => 24,
            Step::PullSetTime { .. } => 25,
            Step::PullReplace { .. } => 26,
            Step::PullBackup { .. } => 27,
            Step::PullReadClock { .. } => 28,
            Step::PullCountLocal { .. } => 29,
            Step::PullCountRemote { .. } => 30,
            Step::PullReadLocalTime { .. } => 31,
            Step::PullReadRemoteTime { .. } => 32,
            Step::PullReadSidecar => 33,
            Step::PullFindSidecar => 34,
            Step::PullFindSnapshot => 35,
            Step::PullLocate => 36,
        }
    }

    /// The step that a task begins with.
    pub open spec fn first(task: Task) -> Step {
        match task {
            Task::Probe => Step::ProbeLocate,
            Task::LoadConfig => Step::ConfigLocate,
            Task::SaveConfig => Step::SaveLocate,
            Task::Load => Step::PullLocate,
            Task::Automatic => Step::PullLocate,
            Task::Manual => Step::PushLocate,
        }
    }

    /// The operation that the step waits for.
    pub open spec fn pending(self) -> Action {
        match self {
            Step::ProbeLocate => Action::Locate(Tier::Shared),
            Step::ProbeWrite => Action::WriteMarker,
            Step::ProbeRemove => Action::RemoveMarker,
            Step::ConfigLocate => Action::Locate(Tier::Shared),
            Step::ConfigReadShared => Action::ReadConfig(Tier::Shared),
            Step::ConfigReadLocal => Action::ReadConfig(Tier::Fallback),
            Step::SaveLocate => Action::Locate(Tier::Shared),
            Step::SaveShared => Action::WriteConfig(Tier::Shared),
            Step::SaveLocal => Action::WriteConfig(Tier::Fallback),
            Step::PullLocate => Action::Locate(Tier::Shared),
            Step::PullFindSnapshot => Action::FindSnapshot,
            Step::PullFindSidecar => Action::FindSidecar,
            Step::PullReadSidecar => Action::ReadSidecar,
            Step::PullReadRemoteTime { .. } => Action::ReadModified(File::Snapshot(Tier::Shared)),
            Step::PullReadLocalTime { .. } => Action::ReadModified(File::Database),
            Step::PullCountRemote { .. } => Action::CountRows(File::Snapshot(Tier::Shared)),
            Step::PullCountLocal { .. } => Action::CountRows(File::Database),
            Step::PullReadClock { .. } => Action::ReadClock,
            Step::PullBackup { stamp, .. } => Action::Copy {
                from: File::Database,
                to: File::Backup(stamp),
            },
            Step::PullReplace { .. } => Action::Copy {
                from: File::Snapshot(Tier::Shared),
                to: File::Database,
            },
            Step::PullSetTime { remote, .. } => Action::SetModified(File::Database, remote),
            Step::PullVerify { table, .. } => Action::CheckTable(table),
            Step::PullRestore { stamp, .. } => Action::Copy {
                from: File::Backup(stamp),
                to: File::Database,
            },
            Step::PullDiscard { stamp } => Action::Remove(File::Backup(stamp)),
            Step::CheckLocate => Action::Locate(Tier::Shared),
            Step::CheckFindSidecar => Action::FindSidecar,
            Step::CheckReadSidecar => Action::ReadSidecar,
            Step::CheckReadRemoteTime { .. } => Action::ReadModified(File::Snapshot(Tier::Shared)),
            Step::CheckReadLocalTime { .. } => Action::ReadModified(File::Database),
            Step::PushLocate => Action::Locate(Tier::Shared),
            Step::PushCreateDir => Action::CreateDir(Tier::Shared),
            Step::PushReadLocalTime => Action::ReadModified(File::Database),
            Step::PushReadClock { .. } => Action::ReadClock,
            Step::PushCopy { .. } => Action::Copy {
                from: File::Database,
                to: File::Snapshot(Tier::Shared),
            },
            Step::PushSetTime { stamp } => Action::SetModified(File::Snapshot(Tier::Shared), stamp),
            Step::PushReadSize { .. } => Action::ReadSize(File::Snapshot(Tier::Shared)),
            Step::PushWriteSidecar { stamp, size } => Action::WriteSidecar {
                tier: Tier::Shared,
                last_modified: stamp,
                file_size: size,
            },
            Step::FallbackLocate { .. } => Action::Locate(Tier::Fallback),
            Step::FallbackCreateDir { .. } => Action::CreateDir(Tier::Fallback),
            Step::FallbackCopy { .. } => Action::Copy {
                from: File::Database,
                to: File::Snapshot(Tier::Fallback),
            },
            Step::FallbackReadClock { .. } => Action::ReadClock,
            Step::FallbackReadSize { .. } => Action::ReadSize(File::Snapshot(Tier::Fallback)),
            Step::FallbackWriteSidecar { stamp, size, .. } => Action::WriteSidecar {
                tier: Tier::Fallback,
                last_modified: stamp,
                file_size: size,
            },
            Step::Finished(_) => Action::Halt,
        }
    }
}

impl Engine {
    /// The engine at the beginning of a task.
    pub open spec fn begun(task: Task) -> Engine {
        Engine { task, pull: None, step: Step::first(task) }
    }

    /// Whether the engine is one that `start` and `advance` can lead to:
    /// the step belongs to the task; a pull's outcome is held from the end
    /// of the pull to the end of the cycle, and only in an automatic cycle;
    /// the times are looked at only after a pull that did not replace the
    /// database, and only then is a push skipped; a push is withheld
    /// exactly after a pull that left the database unrestored; and settings
    /// that were read are well formed.
    pub open spec fn well_formed(self) -> bool {
        match self.step {
            Step::Finished(outcome) => self.pull is None && match outcome {
                Outcome::Availability(_) => self.task is Probe,
                Outcome::Config(config) => self.task is LoadConfig && config.well_formed(),
                Outcome::Saved(_) | Outcome::Unsaved(_) => self.task is SaveConfig,
                Outcome::Load(_) => self.task is Load,
                Outcome::Cycle { pull: Some(pull), push } => {
                    &&& self.task is Automatic
                    &&& push is Skipped ==> !(pull is Pulled)
                    &&& push is Withheld <==> pull.stranded()
                },
                Outcome::Cycle { pull: None, push } => {
                    &&& self.task is Manual
                    &&& !(push is Skipped)
                    &&& !(push is Withheld)
                },
            },
            step => match step.phase() {
                Phase::Probing => self.task is Probe && self.pull is None,
                Phase::Reading => self.task is LoadConfig && self.pull is None,
                Phase::Storing => self.task is SaveConfig && self.pull is None,
                Phase::Pulling => (self.task is Load || self.task is Automatic) && self.pull
                    is None,
                Phase::Checking => self.task is Automatic && (self.pull matches Some(pull)
                    && !(pull is Pulled) && !pull.stranded()),
                _ => match self.pull {
                    Some(pull) => self.task is Automatic && !pull.stranded(),
                    None => self.task is Manual,
                },
            },
        }
    }

    /// The operation that the engine waits for.
    pub open spec fn pending(self) -> Action {
        self.step.pending()
    }

    /// Whether the task has ended.
    pub open spec fn finished(self) -> bool {
        self.step is Finished
    }

    /// The engine at another step of the same task.
    pub open spec fn at(self, step: Step) -> Engine {
        Engine { step, ..self }
    }

    /// The engine once the task has ended with `outcome`.
    pub open spec fn ended(self, outcome: Outcome) -> Engine {
        self.at(Step::Finished(outcome))
    }

    /// The engine once its pull has ended. A pull on its own is over. In a
    /// cycle the push follows if the pull replaced the database. If the
    /// pull left the database unrestored the cycle is over: what the
    /// database holds is not to be published. In every other case the
    /// times are looked at first.
    pub open spec fn pull_ended(self, outcome: PullOutcome) -> Engine {
        match self.task {
            Task::Automatic => if outcome.stranded() {
                Engine {
                    task: self.task,
                    pull: None,
                    step: Step::Finished(
                        Outcome::Cycle { pull: Some(outcome), push: PushOutcome::Withheld },
                    ),
                }
            } else {
                Engine {
                    task: self.task,
                    pull: Some(outcome),
                    step: if outcome is Pulled {
                        Step::PushLocate
                    } else {
                        Step::CheckLocate
                    },
                }
            },
            _ => self.ended(Outcome::Load(outcome)),
        }
    }

    /// The engine once a pull has failed on the pending operation before
    /// the database was written to.
    pub open spec fn pull_failed(self, reply: Reply) -> Engine {
        self.pull_ended(
            PullOutcome::Failed {
                fault: fault_of(self.pending(), reply),
                rollback: Rollback::Untouched,
            },
        )
    }

    /// The engine once its push has ended: so has the cycle, and the
    /// outcome takes the pull's with it.
    pub open spec fn push_ended(self, outcome: PushOutcome) -> Engine {
        Engine {
            task: self.task,
            pull: None,
            step: Step::Finished(Outcome::Cycle { pull: self.pull, push: outcome }),
        }
    }

    /// The engine once the shared folder has failed on the pending
    /// operation: the local backup tier is tried.
    pub open spec fn fall_back(self, reply: Reply) -> Engine {
        self.at(Step::FallbackLocate { remote: fault_of(self.pending(), reply) })
    }

    /// The engine once the local backup tier has failed on the pending
    /// operation too.
    pub open spec fn both_failed(self, remote: Fault, reply: Reply) -> Engine {
        self.push_ended(PushOutcome::Failed { remote, local: fault_of(self.pending(), reply) })
    }

    /// The engine after the driver has answered the pending operation.
    pub open spec fn advanced(self, reply: Reply) -> Engine {
        match self.step {
            Step::ProbeLocate => match reply {
                Reply::Done => self.at(Step::ProbeWrite),
                _ => self.ended(Outcome::Availability(false)),
            },
            Step::ProbeWrite => match reply {
                Reply::Done => self.at(Step::ProbeRemove),
                _ => self.ended(Outcome::Availability(false)),
            },
            Step::ProbeRemove => self.ended(Outcome::Availability(true)),
            Step::ConfigLocate => match reply {
                Reply::Done => self.at(Step::ConfigReadShared),
                _ => self.at(Step::ConfigReadLocal),
            },
            Step::ConfigReadShared => match reply {
                Reply::Config(config) => if config.well_formed() {
                    self.ended(Outcome::Config(config))
                } else {
                    self.at(Step::ConfigReadLocal)
                },
                _ => self.at(Step::ConfigReadLocal),
            },
            Step::ConfigReadLocal => match reply {
                Reply::Config(config) => if config.well_formed() {
                    self.ended(Outcome::Config(config))
                } else {
                    self.ended(Outcome::Config(default_config()))
                },
                _ => self.ended(Outcome::Config(default_config())),
            },
            Step::SaveLocate => match reply {
                Reply::Done => self.at(Step::SaveShared),
                _ => self.at(Step::SaveLocal),
            },
            Step::SaveShared => match reply {
                Reply::Done => self.ended(Outcome::Saved(Tier::Shared)),
                _ => self.at(Step::SaveLocal),
            },
            Step::SaveLocal => match reply {
                Reply::Done => self.ended(Outcome::Saved(Tier::Fallback)),
                _ => self.ended(Outcome::Unsaved(fault_of(self.pending(), reply))),
            },
            Step::PullLocate => match reply {
                Reply::Done => self.at(Step::PullFindSnapshot),
                _ => self.pull_failed(reply),
            },
            Step::PullFindSnapshot => match reply {
                Reply::Flag(true) => self.at(Step::PullFindSidecar),
                Reply::Flag(false) => self.pull_ended(PullOutcome::NoRemoteData),
                _ => self.pull_failed(reply),
            },
            Step::PullFindSidecar => match reply {
                Reply::Flag(true) => self.at(Step::PullReadSidecar),
                Reply::Flag(false) => self.pull_ended(PullOutcome::NoRemoteData),
                _ => self.pull_failed(reply),
            },
            Step::PullReadSidecar => match reply {
                Reply::Sidecar(metadata) => self.at(
                    Step::PullReadRemoteTime { recorded: metadata.last_modified },
                ),
                _ => self.pull_failed(reply),
            },
            Step::PullReadRemoteTime { recorded } => match reply {
                Reply::Number(reported) => self.at(
                    Step::PullReadLocalTime { remote: remote_modified(recorded, reported) },
                ),
                _ => self.pull_failed(reply),
            },
            Step::PullReadLocalTime { remote } => match reply {
                Reply::Number(local) => match comparison(remote, local) {
                    Comparison::RemoteNewer => self.at(Step::PullReadClock { remote }),
                    Comparison::RowsDecide => self.at(Step::PullCountRemote { remote }),
                    Comparison::LocalNewer => self.pull_ended(PullOutcome::LocalIsNewer),
                },
                _ => self.pull_failed(reply),
            },
            Step::PullCountRemote { remote } => match reply {
                Reply::Rows(rows) => self.at(
                    Step::PullCountLocal { remote, remote_rows: rows_or_zero(rows) },
                ),
                _ => self.pull_failed(reply),
            },
            Step::PullCountLocal { remote, remote_rows } => match reply {
                Reply::Rows(rows) => if remote_rows > rows_or_zero(rows) {
                    self.at(Step::PullReadClock { remote })
                } else {
                    self.pull_ended(PullOutcome::LocalIsNewer)
                },
                _ => self.pull_failed(reply),
            },
            Step::PullReadClock { remote } => match reply {
                Reply::Number(now) => self.at(Step::PullBackup { remote, stamp: now }),
                _ => self.pull_failed(reply),
            },
            Step::PullBackup { remote, stamp } => match reply {
                Reply::Done => self.at(Step::PullReplace { remote, stamp }),
                _ => self.pull_failed(reply),
            },
            Step::PullReplace { remote, stamp } => match reply {
                Reply::Done => self.at(Step::PullSetTime { remote, stamp }),
                _ => self.at(Step::PullRestore { fault: fault_of(self.pending(), reply), stamp }),
            },
            Step::PullSetTime { remote, stamp } => self.at(
                Step::PullVerify { table: Table::Accounts, stamp },
            ),
            Step::PullVerify { table, stamp } => match reply {
                Reply::Flag(true) => match table.spec_next() {
                    Some(following) => self.at(Step::PullVerify { table: following, stamp }),
                    None => self.at(Step::PullDiscard { stamp }),
                },
                Reply::Flag(false) => self.at(
                    Step::PullRestore { fault: Fault::MissingTable(table), stamp },
                ),
                _ => self.at(Step::PullRestore { fault: fault_of(self.pending(), reply), stamp }),
            },
            Step::PullRestore { fault, stamp } => match reply {
                Reply::Done => self.pull_ended(
                    PullOutcome::Failed { fault, rollback: Rollback::Restored },
                ),
                _ => self.pull_ended(
                    PullOutcome::Failed { fault, rollback: Rollback::Stranded(stamp) },
                ),
            },
            Step::PullDiscard { stamp } => self.pull_ended(PullOutcome::Pulled),
            Step::CheckLocate => match reply {
                Reply::Done => self.at(Step::CheckFindSidecar),
                _ => self.at(Step::PushLocate),
            },
            Step::CheckFindSidecar => match reply {
                Reply::Flag(true) => self.at(Step::CheckReadSidecar),
                _ => self.at(Step::PushLocate),
            },
            Step::CheckReadSidecar => match reply {
                Reply::Sidecar(metadata) => self.at(
                    Step::CheckReadRemoteTime { recorded: metadata.last_modified },
                ),
                _ => self.at(Step::PushLocate),
            },
            Step::CheckReadRemoteTime { recorded } => match reply {
                Reply::Number(reported) => self.at(
                    Step::CheckReadLocalTime { remote: remote_modified(recorded, reported) },
                ),
                _ => self.at(Step::PushLocate),
            },
            Step::CheckReadLocalTime { remote } => match reply {
                Reply::Number(local) => if push_warranted(local, remote) {
                    self.at(Step::PushLocate)
                } else {
                    self.push_ended(PushOutcome::Skipped)
                },
                _ => self.at(Step::PushLocate),
            },
            Step::PushLocate => match reply {
                Reply::Done => self.at(Step::PushCreateDir),
                _ => self.fall_back(reply),
            },
            Step::PushCreateDir => match reply {
                Reply::Done => self.at(Step::PushReadLocalTime),
                _ => self.fall_back(reply),
            },
            Step::PushReadLocalTime => match reply {
                Reply::Number(local) => self.at(Step::PushReadClock { local }),
                _ => self.fall_back(reply),
            },
            Step::PushReadClock { local } => match reply {
                Reply::Number(now) => self.at(Step::PushCopy { stamp: push_stamp(now, local) }),
                _ => self.fall_back(reply),
            },
            Step::PushCopy { stamp } => match reply {
                Reply::Done => self.at(Step::PushSetTime { stamp }),
                _ => self.fall_back(reply),
            },
            Step::PushSetTime { stamp } => self.at(Step::PushReadSize { stamp }),
            Step::PushReadSize { stamp } => match reply {
                Reply::Number(size) => self.at(Step::PushWriteSidecar { stamp, size }),
                _ => self.fall_back(reply),
            },
            Step::PushWriteSidecar { stamp, size } => match reply {
                Reply::Done => self.push_ended(PushOutcome::Pushed { stamp }),
                _ => self.fall_back(reply),
            },
            Step::FallbackLocate { remote } => match reply {
                Reply::Done => self.at(Step::FallbackCreateDir { remote }),
                _ => self.both_failed(remote, reply),
            },
            Step::FallbackCreateDir { remote } => match reply {
                Reply::Done => self.at(Step::FallbackCopy { remote }),
                _ => self.both_failed(remote, reply),
            },
            Step::FallbackCopy { remote } => match reply {
                Reply::Done => self.at(Step::FallbackReadClock { remote }),
                _ => self.both_failed(remote, reply),
            },
            Step::FallbackReadClock { remote } => match reply {
                Reply::Number(now) => self.at(Step::FallbackReadSize { remote, stamp: now }),
                _ => self.both_failed(remote, reply),
            },
            Step::FallbackReadSize { remote, stamp } => match reply {
                Reply::Number(size) => self.at(Step::FallbackWriteSidecar { remote, stamp, size }),
                _ => self.both_failed(remote, reply),
            },
            Step::FallbackWriteSidecar { remote, stamp, size } => match reply {
                Reply::Done => self.push_ended(PushOutcome::Degraded { remote, stamp }),
                _ => self.both_failed(remote, reply),
            },
            Step::Finished(_) => self,
        }
    }
}

/// The engine at another step.
fn at(task: Task, pull: Option<PullOutcome>, step: Step) -> (next: Engine)
    ensures
        next == (Engine { task, pull, step }),
{
    Engine { task, pull, step }
}

/// The engine once the task has ended.
fn ended(task: Task, pull: Option<PullOutcome>, outcome: Outcome) -> (next: Engine)
    ensures
        next == (Engine { task, pull, step: Step::Finished(outcome) }),
{
    Engine { task, pull, step: Step::Finished(outcome) }
}

/// The engine once its pull has ended.
fn pull_ended(task: Task, pull: Option<PullOutcome>, outcome: PullOutcome) -> (next: Engine)
    ensures
        next == (Engine { task, pull, step: Step::PullLocate }).pull_ended(outcome),
{
    match task {
        Task::Automatic => {
            if outcome.is_stranded() {
                ended(task, None, Outcome::Cycle { pull: Some(outcome), push: PushOutcome::Withheld })
            } else {
                let step = match outcome {
                    PullOutcome::Pulled => Step::PushLocate,
                    _ => Step::CheckLocate,
                };
                Engine { task, pull: Some(outcome), step }
            }
        },
        _ => ended(task, pull, Outcome::Load(outcome)),
    }
}

/// The engine once a pull has failed before the database was written to.
fn pull_failed(task: Task, pull: Option<PullOutcome>, during: Action, reply: Reply) -> (next:
    Engine)
    ensures
        next == (Engine { task, pull, step: Step::PullLocate }).pull_ended(
            PullOutcome::Failed { fault: fault_of(during, reply), rollback: Rollback::Untouched },
        ),
{
    let fault = classify(during, reply);
    pull_ended(task, pull, PullOutcome::Failed { fault, rollback: Rollback::Untouched })
}

/// The engine once its push has ended.
fn push_ended(task: Task, pull: Option<PullOutcome>, outcome: PushOutcome) -> (next: Engine)
    ensures
        next == (Engine { task, pull, step: Step::PushLocate }).push_ended(outcome),
{
    ended(task, None, Outcome::Cycle { pull, push: outcome })
}

/// The engine once the shared folder has failed.
fn fall_back(task: Task, pull: Option<PullOutcome>, during: Action, reply: Reply) -> (next: Engine)
    ensures
        next == (Engine { task, pull, step: Step::FallbackLocate { remote: fault_of(during, reply) } }),
{
    let remote = classify(during, reply);
    Engine { task, pull, step: Step::FallbackLocate { remote } }
}

/// The engine once both tiers have failed.
fn both_failed(
    task: Task,
    pull: Option<PullOutcome>,
    remote: Fault,
    during: Action,
    reply: Reply,
) -> (next: Engine)
    ensures
        next == (Engine { task, pull, step: Step::PushLocate }).push_ended(
            PushOutcome::Failed { remote, local: fault_of(during, reply) },
        ),
{
    let local = classify(during, reply);
    push_ended(task, pull, PushOutcome::Failed { remote, local })
}

impl Step {
    /// Computes `first`.
    pub fn of(task: Task) -> (step: Step)
        ensures
            step == Step::first(task),
    {
        match task {
            Task::Probe => Step::ProbeLocate,
            Task::LoadConfig => Step::ConfigLocate,
            Task::SaveConfig => Step::SaveLocate,
            Task::Load => Step::PullLocate,
            Task::Automatic => Step::PullLocate,
            Task::Manual => Step::PushLocate,
        }
    }

    /// The operation that the step waits for.
    pub fn request(&self) -> (action: Action)
        ensures
            action == self.pending(),
    {
        match self {
            Step::ProbeLocate => Action::Locate(Tier::Shared),
            Step::ProbeWrite => Action::WriteMarker,
            Step::ProbeRemove => Action::RemoveMarker,
            Step::ConfigLocate => Action::Locate(Tier::Shared),
            Step::ConfigReadShared => Action::ReadConfig(Tier::Shared),
            Step::ConfigReadLocal => Action::ReadConfig(Tier::Fallback),
            Step::SaveLocate => Action::Locate(Tier::Shared),
            Step::SaveShared => Action::WriteConfig(Tier::Shared),
            Step::SaveLocal => Action::WriteConfig(Tier::Fallback),
            Step::PullLocate => Action::Locate(Tier::Shared),
            Step::PullFindSnapshot => Action::FindSnapshot,
            Step::PullFindSidecar => Action::FindSidecar,
            Step::PullReadSidecar => Action::ReadSidecar,
            Step::PullReadRemoteTime { .. } => Action::ReadModified(File::Snapshot(Tier::Shared)),
            Step::PullReadLocalTime { .. } => Action::ReadModified(File::Database),
            Step::PullCountRemote { .. } => Action::CountRows(File::Snapshot(Tier::Shared)),
            Step::PullCountLocal { .. } => Action::CountRows(File::Database),
            Step::PullReadClock { .. } => Action::ReadClock,
            Step::PullBackup { stamp, .. } => Action::Copy {
                from: File::Database,
                to: File::Backup(*stamp),
            },
            Step::PullReplace { .. } => Action::Copy {
                from: File::Snapshot(Tier::Shared),
                to: File::Database,
            },
            Step::PullSetTime { remote, .. } => Action::SetModified(File::Database, *remote),
            Step::PullVerify { table, .. } => Action::CheckTable(*table),
            Step::PullRestore { stamp, .. } => Action::Copy {
                from: File::Backup(*stamp),
                to: File::Database,
            },
            Step::PullDiscard { stamp } => Action::Remove(File::Backup(*stamp)),
            Step::CheckLocate => Action::Locate(Tier::Shared),
            Step::CheckFindSidecar => Action::FindSidecar,
            Step::CheckReadSidecar => Action::ReadSidecar,
            Step::CheckReadRemoteTime { .. } => Action::ReadModified(File::Snapshot(Tier::Shared)),
            Step::CheckReadLocalTime { .. } => Action::ReadModified(File::Database),
            Step::PushLocate => Action::Locate(Tier::Shared),
            Step::PushCreateDir => Action::CreateDir(Tier::Shared),
            Step::PushReadLocalTime => Action::ReadModified(File::Database),
            Step::PushReadClock { .. } => Action::ReadClock,
            Step::PushCopy { .. } => Action::Copy {
                from: File::Database,
                to: File::Snapshot(Tier::Shared),
            },
            Step::PushSetTime { stamp } => Action::SetModified(
                File::Snapshot(Tier::Shared),
                *stamp,
            ),
            Step::PushReadSize { .. } => Action::ReadSize(File::Snapshot(Tier::Shared)),
            Step::PushWriteSidecar { stamp, size } => Action::WriteSidecar {
                tier: Tier::Shared,
                last_modified: *stamp,
                file_size: *size,
            },
            Step::FallbackLocate { .. } => Action::Locate(Tier::Fallback),
            Step::FallbackCreateDir { .. } => Action::CreateDir(Tier::Fallback),
            Step::FallbackCopy { .. } => Action::Copy {
                from: File::Database,
                to: File::Snapshot(Tier::Fallback),
            },
            Step::FallbackReadClock { .. } => Action::ReadClock,
            Step::FallbackReadSize { .. } => Action::ReadSize(File::Snapshot(Tier::Fallback)),
            Step::FallbackWriteSidecar { stamp, size, .. } => Action::WriteSidecar {
                tier: Tier::Fallback,
                last_modified: *stamp,
                file_size: *size,
            },
            Step::Finished(_) => Action::Halt,
        }
    }
}

impl Engine {
    /// The engine at the beginning of a task.
    pub fn start(task: Task) -> (engine: Engine)
        ensures
            engine == Engine::begun(task),
            engine.well_formed(),
    {
        Engine { task, pull: None, step: Step::of(task) }
    }

    /// The operation that the engine waits for: `Halt` once the task has
    /// ended.
    pub fn request(&self) -> (action: Action)
        ensures
            action == self.pending(),
            (action == Action::Halt) == self.finished(),
    {
        self.step.request()
    }

    /// Whether the task has ended.
    pub fn is_finished(&self) -> (done: bool)
        ensures
            done == self.finished(),
    {
        match &self.step {
            Step::Finished(_) => true,
            _ => false,
        }
    }

    /// How the task ended, or `None` while it has not.
    pub fn into_outcome(self) -> (outcome: Option<Outcome>)
        ensures
            outcome == match self.step {
                Step::Finished(o) => Some(o),
                _ => None,
            },
    {
        match self.step {
            Step::Finished(outcome) => Some(outcome),
            _ => None,
        }
    }

    /// Takes the driver's reply to the pending operation and moves on.
    pub fn advance(self, reply: Reply) -> (next: Engine)
        ensures
            next == self.advanced(reply),
            self.well_formed() ==> next.well_formed(),
    {
        let during: Action = self.request();
        let Engine { task, pull, step } = self;
        match step {
            Step::ProbeLocate => match reply {
                Reply::Done => at(task, pull, Step::ProbeWrite),
                _ => ended(task, pull, Outcome::Availability(false)),
            },
            Step::ProbeWrite => match reply {
                Reply::Done => at(task, pull, Step::ProbeRemove),
                _ => ended(task, pull, Outcome::Availability(false)),
            },
            Step::ProbeRemove => ended(task, pull, Outcome::Availability(true)),
            Step::ConfigLocate => match reply {
                Reply::Done => at(task, pull, Step::ConfigReadShared),
                _ => at(task, pull, Step::ConfigReadLocal),
            },
            Step::ConfigReadShared => match reply {
                Reply::Config(config) => if config.is_well_formed() {
                    ended(task, pull, Outcome::Config(config))
                } else {
                    at(task, pull, Step::ConfigReadLocal)
                },
                _ => at(task, pull, Step::ConfigReadLocal),
            },
            Step::ConfigReadLocal => match reply {
                Reply::Config(config) => if config.is_well_formed() {
                    ended(task, pull, Outcome::Config(config))
                } else {
                    ended(task, pull, Outcome::Config(SyncConfig::default()))
                },
                _ => ended(task, pull, Outcome::Config(SyncConfig::default())),
            },
            Step::SaveLocate => match reply {
                Reply::Done => at(task, pull, Step::SaveShared),
                _ => at(task, pull, Step::SaveLocal),
            },
            Step::SaveShared => match reply {
                Reply::Done => ended(task, pull, Outcome::Saved(Tier::Shared)),
                _ => at(task, pull, Step::SaveLocal),
            },
            Step::SaveLocal => match reply {
                Reply::Done => ended(task, pull, Outcome::Saved(Tier::Fallback)),
                other => ended(task, pull, Outcome::Unsaved(classify(during, other))),
            },
            Step::PullLocate => match reply {
                Reply::Done => at(task, pull, Step::PullFindSnapshot),
                other => pull_failed(task, pull, during, other),
            },
            Step::PullFindSnapshot => match reply {
                Reply::Flag(true) => at(task, pull, Step::PullFindSidecar),
                Reply::Flag(false) => pull_ended(task, pull, PullOutcome::NoRemoteData),
                other => pull_failed(task, pull, during, other),
            },
            Step::PullFindSidecar => match reply {
                Reply::Flag(true) => at(task, pull, Step::PullReadSidecar),
                Reply::Flag(false) => pull_ended(task, pull, PullOutcome::NoRemoteData),
                other => pull_failed(task, pull, during, other),
            },
            Step::PullReadSidecar => match reply {
                Reply::Sidecar(metadata) => at(
                    task,
                    pull,
                    Step::PullReadRemoteTime { recorded: metadata.last_modified },
                ),
                other => pull_failed(task, pull, during, other),
            },
            Step::PullReadRemoteTime { recorded } => match reply {
                Reply::Number(reported) => at(
                    task,
                    pull,
                    Step::PullReadLocalTime {
                        remote: effective_remote_modified(recorded, reported),
                    },
                ),
                other => pull_failed(task, pull, during, other),
            },
            Step::PullReadLocalTime { remote } => match reply {
                Reply::Number(local) => match compare_times(remote, local) {
                    Comparison::RemoteNewer => at(task, pull, Step::PullReadClock { remote }),
                    Comparison::RowsDecide => at(task, pull, Step::PullCountRemote { remote }),
                    Comparison::LocalNewer => pull_ended(task, pull, PullOutcome::LocalIsNewer),
                },
                other => pull_failed(task, pull, during, other),
            },
            Step::PullCountRemote { remote } => match reply {
                Reply::Rows(rows) => at(
                    task,
                    pull,
                    Step::PullCountLocal { remote, remote_rows: counted_rows(rows) },
                ),
                other => pull_failed(task, pull, during, other),
            },
            Step::PullCountLocal { remote, remote_rows } => match reply {
                Reply::Rows(rows) => if remote_rows > counted_rows(rows) {
                    at(task, pull, Step::PullReadClock { remote })
                } else {
                    pull_ended(task, pull, PullOutcome::LocalIsNewer)
                },
                other => pull_failed(task, pull, during, other),
            },
            Step::PullReadClock { remote } => match reply {
                Reply::Number(now) => at(task, pull, Step::PullBackup { remote, stamp: now }),
                other => pull_failed(task, pull, during, other),
            },
            Step::PullBackup { remote, stamp } => match reply {
                Reply::Done => at(task, pull, Step::PullReplace { remote, stamp }),
                other => pull_failed(task, pull, during, other),
            },
            Step::PullReplace { remote, stamp } => match reply {
                Reply::Done => at(task, pull, Step::PullSetTime { remote, stamp }),
                other => at(task, pull, Step::PullRestore { fault: classify(during, other), stamp }),
            },
            Step::PullSetTime { remote, stamp } => at(
                task,
                pull,
                Step::PullVerify { table: Table::Accounts, stamp },
            ),
            Step::PullVerify { table, stamp } => match reply {
                Reply::Flag(true) => match table.next() {
                    Some(following) => at(task, pull, Step::PullVerify { table: following, stamp }),
                    None => at(task, pull, Step::PullDiscard { stamp }),
                },
                Reply::Flag(false) => at(
                    task,
                    pull,
                    Step::PullRestore { fault: Fault::MissingTable(table), stamp },
                ),
                other => at(task, pull, Step::PullRestore { fault: classify(during, other), stamp }),
            },
            Step::PullRestore { fault, stamp } => match reply {
                Reply::Done => pull_ended(
                    task,
                    pull,
                    PullOutcome::Failed { fault, rollback: Rollback::Restored },
                ),
                _ => pull_ended(
                    task,
                    pull,
                    PullOutcome::Failed { fault, rollback: Rollback::Stranded(stamp) },
                ),
            },
            Step::PullDiscard { stamp } => pull_ended(task, pull, PullOutcome::Pulled),
            Step::CheckLocate => match reply {
                Reply::Done => at(task, pull, Step::CheckFindSidecar),
                _ => at(task, pull, Step::PushLocate),
            },
            Step::CheckFindSidecar => match reply {
                Reply::Flag(true) => at(task, pull, Step::CheckReadSidecar),
                _ => at(task, pull, Step::PushLocate),
            },
            Step::CheckReadSidecar => match reply {
                Reply::Sidecar(metadata) => at(
                    task,
                    pull,
                    Step::CheckReadRemoteTime { recorded: metadata.last_modified },
                ),
                _ => at(task, pull, Step::PushLocate),
            },
            Step::CheckReadRemoteTime { recorded } => match reply {
                Reply::Number(reported) => at(
                    task,
                    pull,
                    Step::CheckReadLocalTime {
                        remote: effective_remote_modified(recorded, reported),
                    },
                ),
                _ => at(task, pull, Step::PushLocate),
            },
            Step::CheckReadLocalTime { remote } => match reply {
                Reply::Number(local) => if local_is_newer(local, remote) {
                    at(task, pull, Step::PushLocate)
                } else {
                    push_ended(task, pull, PushOutcome::Skipped)
                },
                _ => at(task, pull, Step::PushLocate),
            },
            Step::PushLocate => match reply {
                Reply::Done => at(task, pull, Step::PushCreateDir),
                other => fall_back(task, pull, during, other),
            },
            Step::PushCreateDir => match reply {
                Reply::Done => at(task, pull, Step::PushReadLocalTime),
                other => fall_back(task, pull, during, other),
            },
            Step::PushReadLocalTime => match reply {
                Reply::Number(local) => at(task, pull, Step::PushReadClock { local }),
                other => fall_back(task, pull, during, other),
            },
            Step::PushReadClock { local } => match reply {
                Reply::Number(now) => at(
                    task,
                    pull,
                    Step::PushCopy { stamp: stamp_for_push(now, local) },
                ),
                other => fall_back(task, pull, during, other),
            },
            Step::PushCopy { stamp } => match reply {
                Reply::Done => at(task, pull, Step::PushSetTime { stamp }),
                other => fall_back(task, pull, during, other),
            },
            Step::PushSetTime { stamp } => at(task, pull, Step::PushReadSize { stamp }),
            Step::PushReadSize { stamp } => match reply {
                Reply::Number(size) => at(task, pull, Step::PushWriteSidecar { stamp, size }),
                other => fall_back(task, pull, during, other),
            },
            Step::PushWriteSidecar { stamp, size } => match reply {
                Reply::Done => push_ended(task, pull, PushOutcome::Pushed { stamp }),
                other => fall_back(task, pull, during, other),
            },
            Step::FallbackLocate { remote } => match reply {
                Reply::Done => at(task, pull, Step::FallbackCreateDir { remote }),
                other => both_failed(task, pull, remote, during, other),
            },
            Step::FallbackCreateDir { remote } => match reply {
                Reply::Done => at(task, pull, Step::FallbackCopy { remote }),
                other => both_failed(task, pull, remote, during, other),
            },
            Step::FallbackCopy { remote } => match reply {
                Reply::Done => at(task, pull, Step::FallbackReadClock { remote }),
                other => both_failed(task, pull, remote, during, other),
            },
            Step::FallbackReadClock { remote } => match reply {
                Reply::Number(now) => at(task, pull, Step::FallbackReadSize { remote, stamp: now }),
                other => both_failed(task, pull, remote, during, other),
            },
            Step::FallbackReadSize { remote, stamp } => match reply {
                Reply::Number(size) => at(
                    task,
                    pull,
                    Step::FallbackWriteSidecar { remote, stamp, size },
                ),
                other => both_failed(task, pull, remote, during, other),
            },
            Step::FallbackWriteSidecar { remote, stamp, size } => match reply {
                Reply::Done => push_ended(task, pull, PushOutcome::Degraded { remote, stamp }),
                other => both_failed(task, pull, remote, during, other),
            },
            Step::Finished(outcome) => ended(task, pull, outcome),
        }
    }
}

impl SyncManager {
    /// The engine that finds out whether the shared folder can be used.
    pub fn check_onedrive_availability() -> (engine: Engine)
        ensures
            engine == Engine::begun(Task::Probe),
            engine.well_formed(),
    {
        Engine::start(Task::Probe)
    }

    /// The engine that reads the settings.
    pub fn load_config() -> (engine: Engine)
        ensures
            engine == Engine::begun(Task::LoadConfig),
            engine.well_formed(),
    {
        Engine::start(Task::LoadConfig)
    }

    /// The engine that stores the settings.
    pub fn save_config() -> (engine: Engine)
        ensures
            engine == Engine::begun(Task::SaveConfig),
            engine.well_formed(),
    {
        Engine::start(Task::SaveConfig)
    }

    /// The engine that replaces the local database by the remote snapshot
    /// if that is newer.
    pub fn load_from_onedrive() -> (engine: Engine)
        ensures
            engine == Engine::begun(Task::Load),
            engine.well_formed(),
    {
        Engine::start(Task::Load)
    }

    /// The engine of a scheduled cycle: pull if the remote is newer, then
    /// push if a pull took place or the local database is newer.
    pub fn perform_sync() -> (engine: Engine)
        ensures
            engine == Engine::begun(Task::Automatic),
            engine.well_formed(),
    {
        Engine::start(Task::Automatic)
    }

    /// The engine of a cycle that the user asked for: push, whatever the
    /// remote holds.
    pub fn perform_sync_upload_only() -> (engine: Engine)
        ensures
            engine == Engine::begun(Task::Manual),
            engine.well_formed(),
    {
        Engine::start(Task::Manual)
    }
}

} // verus!
