//! Errors the download engine reports.

use vstd::prelude::*;

verus! {

/// Engine errors. Failures that come from the network, the file system or
/// the database carry the text of the underlying error.
#[derive(Debug, Clone)]
pub enum KhukriError {
    Http(String),
    Io(String),
    Db(String),
    Migration(String),
    PermanentError { status: u16, url: String },
    DiskSpaceError { bytes: u64 },
    NoRangeSupport,
    MaxRetriesExceeded { attempts: u8 },
    Cancelled,
    Aborted,
    NoContentLength,
    Join(String),
    InvalidConfig { field: String, reason: String },
}

} // verus!
