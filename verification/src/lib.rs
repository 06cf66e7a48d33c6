//! Bookkeeping records, and the engine that keeps one database file in step
//! with a copy in a folder that several devices share.
//!
//! The devices do not talk to each other. Each one pulls the shared
//! snapshot when that is newer than its own database and pushes its
//! database when that is newer than the snapshot, a whole file at a time.
//!
//! Nothing here touches a file, a database or a clock:
//!
//! - [`resolver`] decides from times and row counts which copy is newer.
//! - [`engine`] turns a task into operations, one at a time, each chosen
//!   from the reply to the last: back up before overwriting, verify after,
//!   restore on failure, fall back to a local tier when the shared folder
//!   fails. [`protocol`] holds the operations and replies.
//! - [`manager`] holds the settings and the status and keeps the schedule:
//!   one cycle at a time, and none after five failures in a row.
//! - [`laws`] proves what holds of every run: no content is lost, nothing
//!   is replaced where the copies agree, a manual cycle only publishes.
//! - [`report`] and [`error`] put outcomes into words, [`layout`] names the
//!   files, [`models`] holds the application's plain records.

pub mod config;
pub mod engine;
pub mod error;
pub mod laws;
pub mod layout;
pub mod manager;
pub mod metadata;
pub mod models;
pub mod protocol;
pub mod report;
pub mod resolver;
pub mod status;
