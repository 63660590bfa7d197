//! The decisions a download makes: which transfer path it takes, how it
//! reads server responses, how its progress is reported, and how its
//! segment tasks' results combine into one outcome.

use vstd::prelude::*;
use crate::text::opt_str;
use crate::error::KhukriError;
use crate::retry::permanent_status;
use crate::text::{cat3, dec, dec_string, eq_str, owned, parse_u64, spec_parse_u64, to_chars};
use crate::trusted::{spec_uuid_v5_url, uuid_v5_url};

verus! {

#[derive(Debug, Clone, Copy, PartialEq, Eq, Structural)]
pub enum DownloadStatus {
    Queued,
    Active,
    Paused,
    Complete,
    Failed,
}

#[derive(Debug, Clone)]
pub struct DownloadProgress {
    pub id: String,
    pub status: DownloadStatus,
    pub bytes_done: u64,
    pub total_bytes: Option<u64>,
    pub speed_bps: u64,
    pub eta_seconds: Option<u64>,
    pub segments_done: u32,
    pub segments_total: Option<u32>,
}

/// The progress a new download reports before it starts: queued, nothing done.
pub fn initial_progress(id: String) -> (p: DownloadProgress)
    ensures
        p.id == id,
        p.status == DownloadStatus::Queued,
        p.bytes_done == 0,
        p.total_bytes.is_none(),
        p.speed_bps == 0,
        p.eta_seconds.is_none(),
        p.segments_done == 0,
        p.segments_total.is_none(),
{
    DownloadProgress {
        id,
        status: DownloadStatus::Queued,
        bytes_done: 0,
        total_bytes: None,
        speed_bps: 0,
        eta_seconds: None,
        segments_done: 0,
        segments_total: None,
    }
}

/// Seconds left at `speed_bps`, when the total is known, the speed is not
/// zero and bytes remain.
pub open spec fn eta_for(total: Option<u64>, done: u64, speed_bps: u64) -> Option<u64> {
    match total {
        Some(t) => if speed_bps == 0 || done >= t {
            None
        } else {
            Some(((t - done) / (speed_bps as int)) as u64)
        },
        None => None,
    }
}

pub fn eta_seconds(total: Option<u64>, done: u64, speed_bps: u64) -> (r: Option<u64>)
    ensures
        r == eta_for(total, done, speed_bps),
{
    match total {
        Some(t) => {
            if speed_bps == 0 || done >= t {
                None
            } else {
                Some((t - done) / speed_bps)
            }
        },
        None => None,
    }
}

/// A fresh progress snapshot: the given status, counters and speed, with
/// the ETA derived from them; the id and total size are kept, and the
/// segment total is absent while its counter is zero.
pub fn progress_snapshot(
    prev: &DownloadProgress,
    status: DownloadStatus,
    bytes_done: u64,
    speed_bps: u64,
    segments_done: u32,
    segments_total_counter: u32,
) -> (p: DownloadProgress)
    ensures
        p.id == prev.id,
        p.status == status,
        p.bytes_done == bytes_done,
        p.total_bytes == prev.total_bytes,
        p.speed_bps == speed_bps,
        p.eta_seconds == eta_for(prev.total_bytes, bytes_done, speed_bps),
        p.segments_done == segments_done,
        p.segments_total == (if segments_total_counter == 0 {
            None
        } else {
            Some(segments_total_counter)
        }),
{
    DownloadProgress {
        id: prev.id.clone(),
        status,
        bytes_done,
        total_bytes: prev.total_bytes,
        speed_bps,
        eta_seconds: eta_seconds(prev.total_bytes, bytes_done, speed_bps),
        segments_done,
        segments_total: if segments_total_counter == 0 {
            None
        } else {
            Some(segments_total_counter)
        },
    }
}

/// Records the sizes learnt about a download: the total bytes are replaced;
/// a segment total, when given, replaces the previous one.
pub fn with_totals(prev: &DownloadProgress, total_bytes: Option<u64>, segments_total: Option<u32>) -> (p: DownloadProgress)
    ensures
        p.id == prev.id,
        p.status == prev.status,
        p.bytes_done == prev.bytes_done,
        p.total_bytes == total_bytes,
        p.speed_bps == prev.speed_bps,
        p.eta_seconds == prev.eta_seconds,
        p.segments_done == prev.segments_done,
        p.segments_total == (if segments_total.is_some() {
            segments_total
        } else {
            prev.segments_total
        }),
{
    DownloadProgress {
        id: prev.id.clone(),
        status: prev.status,
        bytes_done: prev.bytes_done,
        total_bytes,
        speed_bps: prev.speed_bps,
        eta_seconds: prev.eta_seconds,
        segments_done: prev.segments_done,
        segments_total: match segments_total {
            Some(t) => Some(t),
            None => prev.segments_total,
        },
    }
}

/// The key a download's id is derived from: `<url>|<file path>`.
pub open spec fn id_key(url: Seq<char>, file_path: Seq<char>) -> Seq<char> {
    url + "|"@ + file_path
}

/// A download's stable id: the URL-namespace version-5 UUID of
/// `<url>|<file path>`, so the same URL and path always give the same id.
pub fn download_id_for(url: &str, file_path: &str) -> (r: String)
    ensures
        r@ == spec_uuid_v5_url(id_key(url@, file_path@)),
{
    let key = cat3(url, "|", file_path);
    uuid_v5_url(key.as_str())
}

// ── Probing the server ───────────────────────────────────────────────────────

/// How the transfer proceeds once the size and range support are known.
#[derive(Debug, Clone, Copy, PartialEq, Eq, Structural)]
pub enum TransferMode {
    /// Parallel byte-range segments of a file of the given, non-zero size.
    Segmented(u64),
    /// One GET streamed to disk; the size, when known, is pre-allocated.
    Streaming(Option<u64>),
}

pub open spec fn mode_for(total_bytes: Option<u64>, accepts_ranges: bool) -> TransferMode {
    match total_bytes {
        Some(size) => if accepts_ranges && size > 0 {
            TransferMode::Segmented(size)
        } else {
            TransferMode::Streaming(Some(size))
        },
        None => TransferMode::Streaming(None),
    }
}

/// Segmented when the size is known, non-zero, and the server accepts
/// ranges; streamed otherwise (an empty file has no byte range to split).
pub fn transfer_mode(total_bytes: Option<u64>, accepts_ranges: bool) -> (r: TransferMode)
    ensures
        r == mode_for(total_bytes, accepts_ranges),
{
    match total_bytes {
        Some(size) => if accepts_ranges && size > 0 {
            TransferMode::Segmented(size)
        } else {
            TransferMode::Streaming(Some(size))
        },
        None => TransferMode::Streaming(None),
    }
}

/// The size a `Content-Length` header value announces, if it is a decimal
/// `u64`. `None` stands for a missing or non-text header.
pub fn parse_content_length(header: Option<&str>) -> (r: Option<u64>)
    ensures
        r == match opt_str(header) {
            Some(h) => spec_parse_u64(h),
            None => None,
        },
{
    match header {
        Some(h) => {
            let c = to_chars(h);
            parse_u64(c.as_slice())
        },
        None => None,
    }
}

/// Whether an `Accept-Ranges` header value announces byte ranges.
pub fn accepts_byte_ranges(header: Option<&str>) -> (r: bool)
    ensures
        r == (opt_str(header) == Some("bytes"@)),
{
    match header {
        Some(h) => {
            let c = to_chars(h);
            eq_str(c.as_slice(), "bytes")
        },
        None => false,
    }
}

/// How a HEAD or GET response status is taken.
#[derive(Debug, Clone, Copy, PartialEq, Eq, Structural)]
pub enum ProbeStatus {
    /// A permanent failure: reported at once, never retried.
    Permanent,
    /// A server error: retried.
    ServerError,
    /// Anything else: the response is used.
    Usable,
}

pub open spec fn probe_status_for(status: u16) -> ProbeStatus {
    if permanent_status(status) {
        ProbeStatus::Permanent
    } else if status >= 500 {
        ProbeStatus::ServerError
    } else {
        ProbeStatus::Usable
    }
}

pub fn classify_probe_status(status: u16) -> (r: ProbeStatus)
    ensures
        r == probe_status_for(status),
{
    if crate::retry::is_permanent_failure(status) {
        ProbeStatus::Permanent
    } else if status >= 500 {
        ProbeStatus::ServerError
    } else {
        ProbeStatus::Usable
    }
}

/// How the response to a segment's range request is taken.
#[derive(Debug, Clone, Copy, PartialEq, Eq, Structural)]
pub enum SegmentStatus {
    /// A permanent failure: never retried.
    Permanent,
    /// 206 Partial Content: the range is written at its offset.
    Partial,
    /// Another 4xx/5xx: an HTTP error the retry policy decides on.
    HttpError,
    /// Any other status (200, 3xx): the server ignored the range.
    NoRangeSupport,
}

pub open spec fn segment_status_for(status: u16) -> SegmentStatus {
    if permanent_status(status) {
        SegmentStatus::Permanent
    } else if status == 206 {
        SegmentStatus::Partial
    } else if status >= 400 {
        SegmentStatus::HttpError
    } else {
        SegmentStatus::NoRangeSupport
    }
}

pub fn classify_segment_status(status: u16) -> (r: SegmentStatus)
    ensures
        r == segment_status_for(status),
{
    if crate::retry::is_permanent_failure(status) {
        SegmentStatus::Permanent
    } else if status == 206 {
        SegmentStatus::Partial
    } else if status >= 400 {
        SegmentStatus::HttpError
    } else {
        SegmentStatus::NoRangeSupport
    }
}

/// The `Range` header value for the inclusive byte range `[start, end]`.
pub fn range_header_value(start: u64, end: u64) -> (r: String)
    ensures
        r@ == "bytes="@ + dec(start as nat) + "-"@ + dec(end as nat),
{
    let mut r = owned("bytes=");
    let s = dec_string(start);
    r.append(s.as_str());
    r.append("-");
    let e = dec_string(end);
    r.append(e.as_str());
    r
}

/// The throttle a download runs under: a cap of zero means unlimited.
pub fn effective_throttle(bytes_per_sec: Option<u64>) -> (r: Option<u64>)
    ensures
        r == (match bytes_per_sec {
            Some(b) => if b > 0 {
                Some(b)
            } else {
                None
            },
            None => None,
        }),
{
    match bytes_per_sec {
        Some(b) => if b > 0 {
            Some(b)
        } else {
            None
        },
        None => None,
    }
}

// ── Ending a download ────────────────────────────────────────────────────────

/// The stored status and the reported status after the transfer ended:
/// complete on success, paused when cancelled, failed otherwise.
pub open spec fn final_status_for(outcome: Result<(), KhukriError>) -> (Seq<char>, DownloadStatus) {
    match outcome {
        Ok(()) => ("complete"@, DownloadStatus::Complete),
        Err(KhukriError::Cancelled) => ("paused"@, DownloadStatus::Paused),
        Err(_) => ("failed"@, DownloadStatus::Failed),
    }
}

pub fn final_status(outcome: &Result<(), KhukriError>) -> (r: (&'static str, DownloadStatus))
    ensures
        (r.0@, r.1) == final_status_for(*outcome),
{
    match outcome {
        Ok(()) => ("complete", DownloadStatus::Complete),
        Err(KhukriError::Cancelled) => ("paused", DownloadStatus::Paused),
        Err(_) => ("failed", DownloadStatus::Failed),
    }
}

/// How one segment task ended.
#[derive(Debug, Clone)]
pub enum SegmentTaskResult {
    Done,
    Failed(KhukriError),
    /// The task panicked; the text describes the join error.
    Panicked(String),
}

/// What collecting the segment tasks does next.
#[derive(Debug, Clone)]
pub enum CollectStep {
    /// Stop collecting and report the download as cancelled.
    StopCancelled,
    /// Go on with the next task, remembering this first error (if any).
    Continue(Option<KhukriError>),
}

/// One step of collecting segment results, in task order: a cancellation
/// ends the download at once; an abort (a task stopped because another one
/// failed) is skipped; the first other failure is remembered.
pub fn collect_step(first_error: Option<KhukriError>, result: SegmentTaskResult) -> (r: CollectStep)
    ensures
        match result {
            SegmentTaskResult::Failed(KhukriError::Cancelled) => r is StopCancelled,
            SegmentTaskResult::Done | SegmentTaskResult::Failed(KhukriError::Aborted) => r
                == CollectStep::Continue(first_error),
            SegmentTaskResult::Failed(e) => r == CollectStep::Continue(
                if first_error.is_some() {
                    first_error
                } else {
                    Some(e)
                },
            ),
            SegmentTaskResult::Panicked(m) => r == CollectStep::Continue(
                if first_error.is_some() {
                    first_error
                } else {
                    Some(KhukriError::Join(m))
                },
            ),
        },
{
    match result {
        SegmentTaskResult::Done => CollectStep::Continue(first_error),
        SegmentTaskResult::Failed(e) => match e {
            KhukriError::Cancelled => CollectStep::StopCancelled,
            KhukriError::Aborted => CollectStep::Continue(first_error),
            _ => {
                if first_error.is_some() {
                    CollectStep::Continue(first_error)
                } else {
                    CollectStep::Continue(Some(e))
                }
            },
        },
        SegmentTaskResult::Panicked(m) => {
            if first_error.is_some() {
                CollectStep::Continue(first_error)
            } else {
                CollectStep::Continue(Some(KhukriError::Join(m)))
            }
        },
    }
}

/// The segmented transfer's outcome once every task was collected:
/// cancelled if cancellation was requested, else the first error, else done.
pub fn collect_finish(first_error: Option<KhukriError>, cancelled: bool) -> (r: Result<(), KhukriError>)
    ensures
        cancelled ==> r == Err::<(), KhukriError>(KhukriError::Cancelled),
        !cancelled ==> match first_error {
            Some(e) => r == Err::<(), KhukriError>(e),
            None => r is Ok,
        },
{
    if cancelled {
        return Err(KhukriError::Cancelled);
    }
    match first_error {
        Some(e) => Err(e),
        None => Ok(()),
    }
}

} // verus!
