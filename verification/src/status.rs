//! What the engine reports of itself.

use vstd::prelude::*;

verus! {

/// Failed cycles in a row after which scheduled synchronisation switches
/// itself off.
pub const MAX_RETRIES: u32 = 5;

/// The state of synchronisation in this process.
#[derive(Debug, PartialEq, Eq)]
pub struct SyncStatus {
    /// Whether scheduled cycles run.
    pub is_enabled: bool,
    /// When the last cycle succeeded, in seconds since the epoch.
    pub last_sync: Option<u64>,
    /// Whether a cycle is under way.
    pub sync_in_progress: bool,
    /// What went wrong in the last cycle, if it failed.
    pub error_message: Option<String>,
    /// The kind of the last failure.
    pub error_type: Option<String>,
    /// Whether the shared folder could be reached when it was last probed.
    pub onedrive_available: bool,
    /// Cycles that failed since the last success.
    pub retry_count: u32,
    /// When the last cycle failed, in seconds since the epoch.
    pub last_error_time: Option<u64>,
}

/// A `SyncStatus` with its texts as sequences of characters.
pub struct StatusView {
    pub is_enabled: bool,
    pub last_sync: Option<u64>,
    pub sync_in_progress: bool,
    pub error_message: Option<Seq<char>>,
    pub error_type: Option<Seq<char>>,
    pub onedrive_available: bool,
    pub retry_count: u32,
    pub last_error_time: Option<u64>,
}

/// The text of an optional string.
pub open spec fn text_of(text: Option<String>) -> Option<Seq<char>> {
    match text {
        Some(s) => Some(s@),
        None => None,
    }
}

impl View for SyncStatus {
    type V = StatusView;

    open spec fn view(&self) -> StatusView {
        StatusView {
            is_enabled: self.is_enabled,
            last_sync: self.last_sync,
            sync_in_progress: self.sync_in_progress,
            error_message: text_of(self.error_message),
            error_type: text_of(self.error_type),
            onedrive_available: self.onedrive_available,
            retry_count: self.retry_count,
            last_error_time: self.last_error_time,
        }
    }
}

/// The tag under which every failed cycle is filed.
pub open spec fn failure_tag() -> Seq<char> {
    "sync_failed"@
}

/// The message that replaces the last failure's once scheduled
/// synchronisation has switched itself off.
pub open spec fn disabled_message() -> Seq<char> {
    "Auto sync disabled due to repeated failures"@
}

/// The retry count after one more failure. It stops at the largest value
/// that the counter can hold.
pub open spec fn bumped(count: u32) -> u32 {
    if count < u32::MAX {
        (count + 1) as u32
    } else {
        count
    }
}

impl StatusView {
    /// The status before anything is known: disabled, idle, no history.
    pub open spec fn initial() -> StatusView {
        StatusView {
            is_enabled: false,
            last_sync: None,
            sync_in_progress: false,
            error_message: None,
            error_type: None,
            onedrive_available: false,
            retry_count: 0,
            last_error_time: None,
        }
    }

    /// The status after a cycle that succeeded at `now`: the success is
    /// dated, every trace of earlier failures is gone and the cycle is over.
    pub open spec fn succeeded(self, now: u64) -> StatusView {
        StatusView {
            last_sync: Some(now),
            sync_in_progress: false,
            error_message: None,
            error_type: None,
            retry_count: 0,
            last_error_time: None,
            ..self
        }
    }

    /// The status after a cycle that failed at `now` with `message`: the
    /// failure is recorded and counted and the cycle is over.
    pub open spec fn failed(self, message: Seq<char>, now: u64) -> StatusView {
        StatusView {
            sync_in_progress: false,
            error_message: Some(message),
            error_type: Some(failure_tag()),
            retry_count: bumped(self.retry_count),
            last_error_time: Some(now),
            ..self
        }
    }

    /// The status after a scheduled cycle that failed: as `failed`, and once
    /// the count has reached `MAX_RETRIES` synchronisation is disabled and
    /// the message says so.
    pub open spec fn failed_on_schedule(self, message: Seq<char>, now: u64) -> StatusView {
        let recorded = self.failed(message, now);
        if recorded.retry_count >= MAX_RETRIES {
            StatusView { is_enabled: false, error_message: Some(disabled_message()), ..recorded }
        } else {
            recorded
        }
    }
}

impl SyncStatus {
    /// The status before anything is known.
    pub fn new() -> (status: Self)
        ensures
            status@ == StatusView::initial(),
    {
        SyncStatus {
            is_enabled: false,
            last_sync: None,
            sync_in_progress: false,
            error_message: None,
            error_type: None,
            onedrive_available: false,
            retry_count: 0,
            last_error_time: None,
        }
    }

    /// Records a cycle that succeeded at `now`.
    pub fn record_success(&mut self, now: u64)
        ensures
            final(self)@ == old(self)@.succeeded(now),
    {
        self.last_sync = Some(now);
        self.error_message = None;
        self.error_type = None;
        self.retry_count = 0;
        self.last_error_time = None;
        self.sync_in_progress = false;
    }

    /// Records a cycle that failed at `now` with `message`.
    pub fn record_failure(&mut self, message: String, now: u64)
        ensures
            final(self)@ == old(self)@.failed(message@, now),
    {
        self.error_message = Some(message);
        self.error_type = Some(String::from_str("sync_failed"));
        self.retry_count = self.retry_count.saturating_add(1);
        self.last_error_time = Some(now);
        self.sync_in_progress = false;
    }

    /// Records a scheduled cycle that failed at `now` with `message`, and
    /// disables synchronisation once `MAX_RETRIES` cycles have failed in a row.
    pub fn record_scheduled_failure(&mut self, message: String, now: u64)
        ensures
            final(self)@ == old(self)@.failed_on_schedule(message@, now),
    {
        self.record_failure(message, now);
        if self.retry_count >= MAX_RETRIES {
            self.is_enabled = false;
            self.error_message = Some(String::from_str("Auto sync disabled due to repeated failures"));
        }
    }
}

impl Clone for SyncStatus {
    fn clone(&self) -> (copy: Self)
        ensures
            copy == *self,
    {
        let error_message = match &self.error_message {
            Some(text) => Some(text.clone()),
            None => None,
        };
        let error_type = match &self.error_type {
            Some(text) => Some(text.clone()),
            None => None,
        };
        SyncStatus {
            is_enabled: self.is_enabled,
            last_sync: self.last_sync,
            sync_in_progress: self.sync_in_progress,
            error_message,
            error_type,
            onedrive_available: self.onedrive_available,
            retry_count: self.retry_count,
            last_error_time: self.last_error_time,
        }
    }
}

} // verus!
