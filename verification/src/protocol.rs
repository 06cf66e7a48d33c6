//! What the engine asks of the file system, and what it is told in return.
//!
//! The engine never touches a file. It names one operation at a time, an
//! [`Action`]; whoever drives it performs the operation and hands back a
//! [`Reply`].

use vstd::prelude::*;
use crate::config::SyncConfig;
use crate::metadata::SyncMetadata;

verus! {

/// One of the two places a snapshot can be published to.
#[derive(Debug, Clone, Copy, PartialEq, Eq, Structural)]
pub enum Tier {
    /// The shared folder that the devices have in common.
    Shared,
    /// The local-only backup directory of this device.
    Fallback,
}

/// A file that holds a copy of the database.
#[derive(Debug, Clone, Copy, PartialEq, Eq, Structural)]
pub enum File {
    /// The database that the application works on.
    Database,
    /// The safety copy made at the given second, beside the database.
    Backup(u64),
    /// The snapshot published in a tier.
    Snapshot(Tier),
}

/// A table that a database must hold to be accepted.
#[derive(Debug, Clone, Copy, PartialEq, Eq, Structural)]
pub enum Table {
    Accounts,
    Transactions,
    Categories,
    Budgets,
}

impl Table {
    /// The table that is checked after this one, in the fixed order
    /// accounts, transactions, categories, budgets.
    pub open spec fn spec_next(self) -> Option<Table> {
        match self {
            Table::Accounts => Some(Table::Transactions),
            Table::Transactions => Some(Table::Categories),
            Table::Categories => Some(Table::Budgets),
            Table::Budgets => None,
        }
    }

    /// Computes `spec_next`.
    #[verifier::when_used_as_spec(spec_next)]
    pub fn next(self) -> (following: Option<Table>)
        ensures
            following == self.spec_next(),
    {
        match self {
            Table::Accounts => Some(Table::Transactions),
            Table::Transactions => Some(Table::Categories),
            Table::Categories => Some(Table::Budgets),
            Table::Budgets => None,
        }
    }

    /// The table's name in the database.
    pub open spec fn spec_name(self) -> Seq<char> {
        match self {
            Table::Accounts => "accounts"@,
            Table::Transactions => "transactions"@,
            Table::Categories => "categories"@,
            Table::Budgets => "budgets"@,
        }
    }

    /// Computes `spec_name`.
    pub fn name(self) -> (name: &'static str)
        ensures
            name@ == self.spec_name(),
    {
        match self {
            Table::Accounts => "accounts",
            Table::Transactions => "transactions",
            Table::Categories => "categories",
            Table::Budgets => "budgets",
        }
    }
}

/// One operation on the file system, named by the engine and performed by
/// its driver.
#[derive(Debug, Clone, Copy, PartialEq, Eq, Structural)]
pub enum Action {
    /// Find the root directory of a tier. Answer: `Done` or `Failed`.
    Locate(Tier),
    /// Create the tier's directory for snapshots where it is missing.
    /// Answer: `Done` or `Failed`.
    CreateDir(Tier),
    /// Write the marker file into the shared folder. Answer: `Done` or `Failed`.
    WriteMarker,
    /// Delete the marker file again. Answer: `Done` or `Failed`.
    RemoveMarker,
    /// Is there a snapshot in the shared folder? Answer: `Flag`.
    FindSnapshot,
    /// Is there a sidecar in the shared folder? Answer: `Flag`.
    FindSidecar,
    /// Read the sidecar in the shared folder. Answer: `Sidecar`, `Malformed`
    /// where it cannot be parsed, `Failed` where it cannot be read.
    ReadSidecar,
    /// The file's modification time in seconds since the epoch.
    /// Answer: `Number` or `Failed`.
    ReadModified(File),
    /// The current time in seconds since the epoch. Answer: `Number`.
    ReadClock,
    /// The file's size in bytes. Answer: `Number` or `Failed`.
    ReadSize(File),
    /// Count the rows of the ledger table in the file. Answer: `Rows`, with
    /// `None` where the table cannot be counted, or `Failed` where the file
    /// cannot be opened as a database.
    CountRows(File),
    /// Does the database hold the table? Answer: `Flag`, or `Failed` where
    /// the database cannot be opened.
    CheckTable(Table),
    /// Copy a file over another. Answer: `Done` or `Failed`.
    Copy { from: File, to: File },
    /// Set the file's modification time. Answer: `Done` or `Failed`.
    SetModified(File, u64),
    /// Delete the file. Answer: `Done` or `Failed`.
    Remove(File),
    /// Write the sidecar of the tier's snapshot. Answer: `Done` or `Failed`.
    WriteSidecar { tier: Tier, last_modified: u64, file_size: u64 },
    /// Read the settings stored in a tier. Answer: `Config`, `Malformed` or
    /// `Failed`.
    ReadConfig(Tier),
    /// Store the settings in a tier. Answer: `Done` or `Failed`.
    WriteConfig(Tier),
    /// Nothing is left to do.
    Halt,
}

/// What the driver reports of the operation it was asked for.
#[derive(Debug, PartialEq, Eq)]
pub enum Reply {
    /// The operation succeeded and has nothing to report.
    Done,
    /// The operation failed; the text says why.
    Failed(String),
    /// The answer to a yes-or-no question.
    Flag(bool),
    /// A time in seconds or a size in bytes.
    Number(u64),
    /// The sidecar that was read.
    Sidecar(SyncMetadata),
    /// What was read is not in the expected format; the text says why.
    Malformed(String),
    /// The number of rows, or `None` where they could not be counted.
    Rows(Option<i64>),
    /// The settings that were read.
    Config(SyncConfig),
}

/// Why an operation did not give the engine what it needed.
#[derive(Debug, PartialEq, Eq)]
pub enum Fault {
    /// The operation failed.
    Failed { during: Action, cause: String },
    /// What the operation read was not in the expected format.
    Malformed { during: Action, cause: String },
    /// The database that was copied in lacks a required table.
    MissingTable(Table),
    /// The driver's reply does not answer the operation.
    Unexpected { during: Action },
}

/// The fault that a reply stands for when it is not the answer that the
/// engine waited for.
pub open spec fn fault_of(during: Action, reply: Reply) -> Fault {
    match reply {
        Reply::Failed(cause) => Fault::Failed { during, cause },
        Reply::Malformed(cause) => Fault::Malformed { during, cause },
        _ => Fault::Unexpected { during },
    }
}

/// Computes `fault_of`.
pub fn classify(during: Action, reply: Reply) -> (fault: Fault)
    ensures
        fault == fault_of(during, reply),
{
    match reply {
        Reply::Failed(cause) => Fault::Failed { during, cause },
        Reply::Malformed(cause) => Fault::Malformed { during, cause },
        _ => Fault::Unexpected { during },
    }
}

} // verus!
