//! Where the files are: names of directories and files, and the paths that
//! are put together from text.

use vstd::prelude::*;
use crate::config::SyncConfig;
use crate::protocol::Tier;

verus! {

/// The file that holds the application's database.
pub const DATABASE_FILE: &'static str = "walnutbook.db";

/// The file that holds a snapshot, in either tier.
pub const SNAPSHOT_FILE: &'static str = "walnutbook_sync.db";

/// The file that holds a snapshot's sidecar, beside the snapshot.
pub const SIDECAR_FILE: &'static str = "sync_metadata.json";

/// The file that holds the settings, in the data directory of either tier.
pub const CONFIG_FILE: &'static str = "sync_config.json";

/// The file that is written and deleted to see whether the shared folder
/// can be written to.
pub const MARKER_FILE: &'static str = ".walnutbook_test";

/// The operating systems that name the shared folder differently.
#[derive(Debug, Clone, Copy, PartialEq, Eq, Structural)]
pub enum Platform {
    /// Paths are put together with a backslash.
    Windows,
    /// Paths are put together with a slash.
    Unix,
}

/// The name of the application's data directory: in the shared folder for
/// the shared tier, in the user's data directory for the local one.
pub open spec fn data_dir_name(tier: Tier) -> Seq<char> {
    match tier {
        Tier::Shared => "WalnutBook_Data"@,
        Tier::Fallback => "WalnutBook"@,
    }
}

/// The name of the directory for snapshots within the data directory.
pub open spec fn sync_dir_name(tier: Tier) -> Seq<char> {
    match tier {
        Tier::Shared => "sync"@,
        Tier::Fallback => "sync_backup"@,
    }
}

/// The character that stands for a digit.
pub open spec fn digit_char(digit: nat) -> char {
    if digit == 0 {
        '0'
    } else if digit == 1 {
        '1'
    } else if digit == 2 {
        '2'
    } else if digit == 3 {
        '3'
    } else if digit == 4 {
        '4'
    } else if digit == 5 {
        '5'
    } else if digit == 6 {
        '6'
    } else if digit == 7 {
        '7'
    } else if digit == 8 {
        '8'
    } else {
        '9'
    }
}

/// A number in decimal digits, without leading zeros.
pub open spec fn decimal(number: nat) -> Seq<char>
    decreases number,
{
    if number < 10 {
        seq![digit_char(number)]
    } else {
        decimal(number / 10).push(digit_char(number % 10))
    }
}

/// The path of the safety copy made at `stamp`: the database's path, then
/// `.backup_` and the second in decimal digits.
pub open spec fn backup_path_text(database: Seq<char>, stamp: u64) -> Seq<char> {
    database + ".backup_"@ + decimal(stamp as nat)
}

/// The path of the shared folder in the user's home directory.
pub open spec fn onedrive_path_text(home: Seq<char>, platform: Platform) -> Seq<char> {
    match platform {
        Platform::Windows => home + "\\OneDrive"@,
        Platform::Unix => home + "/OneDrive"@,
    }
}

/// The path of the shared folder: the one that the settings name, and the
/// usual one in the user's home directory where they name none.
pub open spec fn shared_folder_text(
    config: SyncConfig,
    home: Seq<char>,
    platform: Platform,
) -> Seq<char> {
    match config.onedrive_path {
        Some(path) => path@,
        None => onedrive_path_text(home, platform),
    }
}

impl Tier {
    /// Computes `data_dir_name`.
    pub fn data_dir_name(self) -> (name: &'static str)
        ensures
            name@ == data_dir_name(self),
    {
        match self {
            Tier::Shared => "WalnutBook_Data",
            Tier::Fallback => "WalnutBook",
        }
    }

    /// Computes `sync_dir_name`.
    pub fn sync_dir_name(self) -> (name: &'static str)
        ensures
            name@ == sync_dir_name(self),
    {
        match self {
            Tier::Shared => "sync",
            Tier::Fallback => "sync_backup",
        }
    }
}

/// The text of one digit.
fn digit_text(digit: u64) -> (text: &'static str)
    requires
        digit < 10,
    ensures
        text@ == seq![digit_char(digit as nat)],
{
    proof {
        reveal_strlit("0");
        reveal_strlit("1");
        reveal_strlit("2");
        reveal_strlit("3");
        reveal_strlit("4");
        reveal_strlit("5");
        reveal_strlit("6");
        reveal_strlit("7");
        reveal_strlit("8");
        reveal_strlit("9");
    }
    let text = if digit == 0 {
        "0"
    } else if digit == 1 {
        "1"
    } else if digit == 2 {
        "2"
    } else if digit == 3 {
        "3"
    } else if digit == 4 {
        "4"
    } else if digit == 5 {
        "5"
    } else if digit == 6 {
        "6"
    } else if digit == 7 {
        "7"
    } else if digit == 8 {
        "8"
    } else {
        "9"
    };
    assert(text@ =~= seq![digit_char(digit as nat)]);
    text
}

/// Writes a number in decimal digits.
pub fn decimal_text(number: u64) -> (text: String)
    ensures
        text@ == decimal(number as nat),
    decreases number,
{
    if number < 10 {
        String::from_str(digit_text(number))
    } else {
        let head = decimal_text(number / 10);
        let text = head.concat(digit_text(number % 10));
        assert(text@ =~= decimal(number as nat));
        text
    }
}

/// The path of the safety copy of the database made at `stamp`.
pub fn backup_path(database: &str, stamp: u64) -> (path: String)
    ensures
        path@ == backup_path_text(database@, stamp),
{
    let digits = decimal_text(stamp);
    String::from_str(database).concat(".backup_").concat(digits.as_str())
}

/// The path of the shared folder, given the user's home directory.
pub fn get_onedrive_path(home: &str, platform: Platform) -> (path: String)
    ensures
        path@ == onedrive_path_text(home@, platform),
{
    match platform {
        Platform::Windows => String::from_str(home).concat("\\OneDrive"),
        Platform::Unix => String::from_str(home).concat("/OneDrive"),
    }
}

/// The path of the shared folder under the given settings.
pub fn shared_folder(config: &SyncConfig, home: &str, platform: Platform) -> (path: String)
    ensures
        path@ == shared_folder_text(*config, home@, platform),
{
    match &config.onedrive_path {
        Some(path) => path.clone(),
        None => get_onedrive_path(home, platform),
    }
}

} // verus!
