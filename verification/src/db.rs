//! Rows of the persisted download and segment tables.

use vstd::prelude::*;

verus! {

/// One row of the `downloads` table.
#[derive(Debug, Clone)]
pub struct DownloadRow {
    pub id: String,
    pub url: String,
    pub file_path: String,
    pub total_bytes: Option<i64>,
    pub status: String,
    pub priority: String,
    pub throttle_bytes_per_sec: Option<i64>,
    pub media_quality: Option<String>,
    pub request_source: Option<String>,
    pub failure_reason: Option<String>,
    pub created_at: i64,
}

/// One row of the `segments` table; `completed` is 0 or 1.
#[derive(Debug, Clone)]
pub struct SegmentRow {
    pub id: i64,
    pub download_id: String,
    pub start_byte: i64,
    pub end_byte: i64,
    pub completed: i64,
}

} // verus!
