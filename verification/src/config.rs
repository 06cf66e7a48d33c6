//! Synchronisation settings.

use vstd::prelude::*;

verus! {

/// How synchronisation is set up on this device.
#[derive(Debug, PartialEq, Eq)]
pub struct SyncConfig {
    /// Whether cycles run on their own, on the timer and after each change.
    pub auto_sync_enabled: bool,
    /// Minutes between two scheduled cycles: at least `MIN_INTERVAL_MINUTES`
    /// in settings that are well formed.
    pub sync_interval_minutes: u64,
    /// Where the shared folder is, when it is not at its usual place.
    pub onedrive_path: Option<String>,
    /// Whether the user wants the local backup tier as a stand-in. The
    /// field is kept and stored with the other settings; the engine does
    /// not consult it and falls back to the local tier in every case.
    pub fallback_to_local: bool,
}

/// The shortest interval between two scheduled cycles, in minutes.
pub const MIN_INTERVAL_MINUTES: u64 = 1;

impl SyncConfig {
    /// Whether the settings can be put in force: the interval is not
    /// shorter than the shortest one.
    pub open spec fn well_formed(self) -> bool {
        self.sync_interval_minutes >= MIN_INTERVAL_MINUTES
    }

    /// Computes `well_formed`.
    pub fn is_well_formed(&self) -> (valid: bool)
        ensures
            valid == self.well_formed(),
    {
        self.sync_interval_minutes >= MIN_INTERVAL_MINUTES
    }
}

/// The settings of a first run: automatic, every five minutes, with the
/// local tier as fallback and the shared folder at its usual place.
pub open spec fn default_config() -> SyncConfig {
    SyncConfig {
        auto_sync_enabled: true,
        sync_interval_minutes: 5,
        onedrive_path: None,
        fallback_to_local: true,
    }
}

impl Default for SyncConfig {
    fn default() -> (config: Self)
        ensures
            config == default_config(),
            config.well_formed(),
    {
        SyncConfig {
            auto_sync_enabled: true,
            sync_interval_minutes: 5,
            onedrive_path: None,
            fallback_to_local: true,
        }
    }
}

impl Clone for SyncConfig {
    fn clone(&self) -> (copy: Self)
        ensures
            copy == *self,
    {
        let onedrive_path = match &self.onedrive_path {
            Some(path) => Some(path.clone()),
            None => None,
        };
        SyncConfig {
            auto_sync_enabled: self.auto_sync_enabled,
            sync_interval_minutes: self.sync_interval_minutes,
            onedrive_path,
            fallback_to_local: self.fallback_to_local,
        }
    }
}

} // verus!
