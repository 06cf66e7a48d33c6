//! The sidecar: a small descriptor that travels with every snapshot.

use vstd::prelude::*;

verus! {

/// What the sidecar of a snapshot records. A snapshot and its sidecar are a
/// pair: where either is absent there is no remote data.
#[derive(Debug, PartialEq, Eq)]
pub struct SyncMetadata {
    /// Seconds since the epoch at which the snapshot was published.
    pub last_modified: u64,
    /// Size of the snapshot in bytes.
    pub file_size: u64,
    /// Version of the sidecar's format.
    pub version: String,
}

/// The format version that this engine writes.
pub open spec fn format_version() -> Seq<char> {
    "1.0"@
}

impl SyncMetadata {
    /// The sidecar for a snapshot of `file_size` bytes published at
    /// `last_modified`, in the current format.
    pub fn new(last_modified: u64, file_size: u64) -> (metadata: Self)
        ensures
            metadata.last_modified == last_modified,
            metadata.file_size == file_size,
            metadata.version@ == format_version(),
    {
        SyncMetadata { last_modified, file_size, version: String::from_str("1.0") }
    }
}

impl Clone for SyncMetadata {
    fn clone(&self) -> (copy: Self)
        ensures
            copy == *self,
    {
        SyncMetadata {
            last_modified: self.last_modified,
            file_size: self.file_size,
            version: self.version.clone(),
        }
    }
}

} // verus!
