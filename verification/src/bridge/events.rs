//! The events the bridge sends to the browser, and the bridge's scheduling
//! and recovery decisions.

use vstd::prelude::*;
use crate::bridge::media::YtDlpProgress;
use crate::bridge::protocol::BridgeEvent;
use crate::download::{DownloadProgress, DownloadStatus};
use crate::text::{eq_str, owned, to_chars};

verus! {

pub open spec fn status_text(status: DownloadStatus) -> Seq<char> {
    match status {
        DownloadStatus::Queued => "queued"@,
        DownloadStatus::Active => "active"@,
        DownloadStatus::Paused => "paused"@,
        DownloadStatus::Complete => "complete"@,
        DownloadStatus::Failed => "failed"@,
    }
}

pub fn status_label(status: DownloadStatus) -> (r: &'static str)
    ensures
        r@ == status_text(status),
{
    match status {
        DownloadStatus::Queued => "queued",
        DownloadStatus::Active => "active",
        DownloadStatus::Paused => "paused",
        DownloadStatus::Complete => "complete",
        DownloadStatus::Failed => "failed",
    }
}

/// The browser event for an engine progress snapshot.
pub fn progress_event(progress: &DownloadProgress, source: Option<String>, output_path: Option<String>) -> (e: BridgeEvent)
    ensures
        e.kind@ == "progress"@,
        e.id == progress.id,
        e.status@ == status_text(progress.status),
        e.bytes_done == progress.bytes_done,
        e.total_bytes == progress.total_bytes,
        e.speed_bps == progress.speed_bps,
        e.eta_seconds == progress.eta_seconds,
        e.segments_done == progress.segments_done,
        e.segments_total == progress.segments_total,
        e.source == source,
        e.output_path == output_path,
        e.message.is_none(),
{
    BridgeEvent {
        kind: owned("progress"),
        id: progress.id.clone(),
        status: owned(status_label(progress.status)),
        bytes_done: progress.bytes_done,
        total_bytes: progress.total_bytes,
        speed_bps: progress.speed_bps,
        eta_seconds: progress.eta_seconds,
        segments_done: progress.segments_done,
        segments_total: progress.segments_total,
        source,
        output_path,
        message: None,
    }
}

/// The browser event for a yt-dlp progress line: always `active`, no
/// segments, the yt-dlp phase as message.
pub fn media_progress_event(
    id: &str,
    progress: &YtDlpProgress,
    source: Option<String>,
    output_path: Option<String>,
) -> (e: BridgeEvent)
    ensures
        e.kind@ == "progress"@,
        e.id@ == id@,
        e.status@ == "active"@,
        e.bytes_done == progress.bytes_done,
        e.total_bytes == progress.total_bytes,
        e.speed_bps == progress.speed_bps,
        e.eta_seconds == progress.eta_seconds,
        e.segments_done == 0,
        e.segments_total.is_none(),
        e.source == source,
        e.output_path == output_path,
        e.message == Some(progress.phase),
{
    BridgeEvent {
        kind: owned("progress"),
        id: owned(id),
        status: owned("active"),
        bytes_done: progress.bytes_done,
        total_bytes: progress.total_bytes,
        speed_bps: progress.speed_bps,
        eta_seconds: progress.eta_seconds,
        segments_done: 0,
        segments_total: None,
        source,
        output_path,
        message: Some(progress.phase.clone()),
    }
}

/// An event that carries only a kind, id, status, and optional output path
/// and message; every counter is zero.
pub fn simple_event(
    kind: &str,
    id: String,
    status: &str,
    source: Option<String>,
    output_path: Option<String>,
    message: Option<String>,
) -> (e: BridgeEvent)
    ensures
        e.kind@ == kind@,
        e.id == id,
        e.status@ == status@,
        e.bytes_done == 0,
        e.total_bytes.is_none(),
        e.speed_bps == 0,
        e.eta_seconds.is_none(),
        e.segments_done == 0,
        e.segments_total.is_none(),
        e.source == source,
        e.output_path == output_path,
        e.message == message,
{
    BridgeEvent {
        kind: owned(kind),
        id,
        status: owned(status),
        bytes_done: 0,
        total_bytes: None,
        speed_bps: 0,
        eta_seconds: None,
        segments_done: 0,
        segments_total: None,
        source,
        output_path,
        message,
    }
}

/// Whether the scheduler lets downloads start at `hour`: always when it is
/// disabled; otherwise within `start..=end`, a window that wraps past
/// midnight when `start > end`.
pub open spec fn window_open(enabled: bool, start: u8, end: u8, hour: u8) -> bool {
    if !enabled {
        true
    } else if start <= end {
        start <= hour && hour <= end
    } else {
        hour >= start || hour <= end
    }
}

pub fn scheduler_window_open(enabled: bool, start_hour: u8, end_hour: u8, hour: u8) -> (r: bool)
    ensures
        r == window_open(enabled, start_hour, end_hour, hour),
{
    if !enabled {
        return true;
    }
    if start_hour <= end_hour {
        start_hour <= hour && hour <= end_hour
    } else {
        hour >= start_hour || hour <= end_hour
    }
}

/// Law: a window that is enabled is open at its start and at its end hour,
/// whether or not it wraps past midnight.
pub proof fn lemma_window_contains_bounds(start: u8, end: u8)
    ensures
        window_open(true, start, end, start),
        window_open(true, start, end, end),
{
}

/// After a media job failed, the status to report instead of a failure
/// when the job was stopped on purpose: a paused or complete job stays so;
/// a cancelled job, or one whose row is gone, is reported cancelled.
pub open spec fn preserved_for(current: Option<Seq<char>>) -> Option<Seq<char>> {
    match current {
        None => Some("cancelled"@),
        Some(s) => if s == "paused"@ {
            Some("paused"@)
        } else if s == "cancelled"@ {
            Some("cancelled"@)
        } else if s == "complete"@ {
            Some("complete"@)
        } else {
            None
        },
    }
}

pub fn preserved_status(current: Option<&str>) -> (r: Option<&'static str>)
    ensures
        match r {
            Some(s) => preserved_for(crate::text::opt_str(current)) == Some(s@),
            None => preserved_for(crate::text::opt_str(current)).is_none(),
        },
{
    match current {
        None => Some("cancelled"),
        Some(s) => {
            let c = to_chars(s);
            if eq_str(c.as_slice(), "paused") {
                Some("paused")
            } else if eq_str(c.as_slice(), "cancelled") {
                Some("cancelled")
            } else if eq_str(c.as_slice(), "complete") {
                Some("complete")
            } else {
                None
            }
        },
    }
}

} // verus!
