//! The desktop download list: requests, list items and progress events,
//! where downloads are saved, and which queued download starts next.

use vstd::prelude::*;
use crate::text::{opt_str, opt_view};
use crate::bridge::events::{status_label, status_text};
use crate::bridge::request::{distinct_names, filter_headers, forwarded_headers, pair_views};
use crate::config::{DownloadConfig, Priority, ThrottleConfig};
use crate::db::DownloadRow;
use crate::desktop::settings::AppSettings;
use crate::download::{DownloadProgress, DownloadStatus};
use crate::text::{
    after_last, after_last_chars, before_first, before_first_chars, cat, chars_eq, eq_str, from_chars,
    lex_less, lex_lt, lower, lowercase_chars, owned, to_chars, trim, trim_chars, trim_end_char,
    trim_end_char_chars, lemma_lex_irreflexive, lemma_lex_total, lemma_lex_transitive,
};
use crate::trusted::{path_file_name, path_join, path_parent, spec_file_name, spec_join, spec_parent};

verus! {

/// A download request from the user interface.
#[derive(Debug, Clone)]
pub struct StartDownloadRequest {
    pub url: String,
    pub file_path: String,
    pub priority: Option<String>,
    pub override_threads: Option<u8>,
    pub bytes_per_sec: Option<u64>,
    pub quality: Option<String>,
    pub source: Option<String>,
    pub custom_headers: Vec<(String, String)>,
}

/// One row of the download list shown to the user.
#[derive(Debug, Clone)]
pub struct DownloadListItem {
    pub id: String,
    pub url: String,
    pub file_path: String,
    pub file_exists: bool,
    pub total_bytes: Option<i64>,
    pub status: String,
    pub priority: String,
    pub throttle_bytes_per_sec: Option<i64>,
    pub media_quality: Option<String>,
    pub request_source: Option<String>,
    pub failure_reason: Option<String>,
    pub created_at: i64,
}

/// A progress update for the user interface.
#[derive(Debug, Clone)]
pub struct DownloadProgressEvent {
    pub id: String,
    pub status: String,
    pub bytes_done: u64,
    pub total_bytes: Option<u64>,
    pub speed_bps: u64,
    pub eta_seconds: Option<u64>,
    pub segments_done: u32,
    pub segments_total: Option<u32>,
}

/// The priority a request names (any case); `normal` when it names none
/// or an unknown one.
pub open spec fn priority_for(value: Option<Seq<char>>) -> Priority {
    let v = lower(
        match value {
            Some(s) => s,
            None => "normal"@,
        },
    );
    if v == "high"@ {
        Priority::High
    } else if v == "low"@ {
        Priority::Low
    } else {
        Priority::Normal
    }
}

/// Law: the priority labels parse back to their priorities in any case —
/// `high`, `low` and `normal` to High, Low and Normal — so every priority's
/// label round-trips; a missing or unknown value is Normal.
pub proof fn lemma_priority_labels(value: Seq<char>, p: Priority)
    ensures
        lower(value) == "high"@ ==> priority_for(Some(value)) == Priority::High,
        lower(value) == "low"@ ==> priority_for(Some(value)) == Priority::Low,
        lower(value) == "normal"@ ==> priority_for(Some(value)) == Priority::Normal,
        priority_for(None) == Priority::Normal,
        priority_for(Some(p.label())) == p,
{
    reveal_strlit("high");
    reveal_strlit("low");
    reveal_strlit("normal");
    assert(lower("high"@) =~= "high"@);
    assert(lower("low"@) =~= "low"@);
    assert(lower("normal"@) =~= "normal"@);
}

pub fn parse_priority(value: Option<&str>) -> (r: Priority)
    ensures
        r == priority_for(opt_str(value)),
{
    let v = match value {
        Some(s) => s,
        None => "normal",
    };
    let c = to_chars(v);
    let l = lowercase_chars(c.as_slice());
    if eq_str(l.as_slice(), "high") {
        Priority::High
    } else if eq_str(l.as_slice(), "low") {
        Priority::Low
    } else {
        Priority::Normal
    }
}

/// The rank of a stored priority label (any case): high 2, normal 1, else 0.
pub open spec fn rank_of(value: Seq<char>) -> u8 {
    if lower(value) == "high"@ {
        2
    } else if lower(value) == "normal"@ {
        1
    } else {
        0
    }
}

pub fn priority_rank(value: &str) -> (r: u8)
    ensures
        r == rank_of(value@),
{
    let c = to_chars(value);
    let l = lowercase_chars(c.as_slice());
    if eq_str(l.as_slice(), "high") {
        2
    } else if eq_str(l.as_slice(), "normal") {
        1
    } else {
        0
    }
}

/// The file name a URL suggests: the last path segment before any query,
/// else `download.bin`.
pub open spec fn inferred_filename(url: Seq<char>) -> Seq<char> {
    let parsed = trim_end_char(before_first(url, '?'), '/');
    if after_last(parsed, '/').len() == 0 {
        "download.bin"@
    } else {
        after_last(parsed, '/')
    }
}

pub fn infer_download_filename(url: &str) -> (r: String)
    ensures
        r@ == inferred_filename(url@),
{
    let u = to_chars(url);
    let q = before_first_chars(u.as_slice(), '?');
    let parsed = trim_end_char_chars(q.as_slice(), '/');
    let name = after_last_chars(parsed.as_slice(), '/');
    if name.len() == 0 {
        owned("download.bin")
    } else {
        from_chars(name.as_slice())
    }
}

/// Where a download is saved, given what the user typed: a directory (by
/// preference, by a trailing separator, because it is one, or because it
/// has no file name) gets the URL's file name appended; anything else is
/// the file path itself. `is_dir` tells whether the trimmed input names an
/// existing directory.
pub open spec fn download_target(raw: Seq<char>, url: Seq<char>, prefer_directory: bool, is_dir: bool) -> Seq<char> {
    let t = trim(raw);
    let ends_with_separator = t.len() > 0 && (t.last() == '/' || t.last() == '\\');
    let looks_like_directory = prefer_directory || ends_with_separator || is_dir || spec_file_name(t).is_none();
    if !looks_like_directory {
        t
    } else {
        spec_join(t, inferred_filename(url))
    }
}

pub fn normalized_download_target(raw: &str, url: &str, prefer_directory: bool, is_dir: bool) -> (r: String)
    ensures
        r@ == download_target(raw@, url@, prefer_directory, is_dir),
{
    let c = to_chars(raw);
    let t = trim_chars(c.as_slice());
    let candidate = from_chars(t.as_slice());
    let ends_with_separator = t.len() > 0 && (t[t.len() - 1] == '/' || t[t.len() - 1] == '\\');
    let looks_like_directory = prefer_directory || ends_with_separator || is_dir || path_file_name(
        candidate.as_str(),
    ).is_none();
    if !looks_like_directory {
        return candidate;
    }
    let name = infer_download_filename(url);
    path_join(candidate.as_str(), name.as_str())
}

/// Where a requested download is saved: an empty request uses the default
/// download directory; the default directory typed out is also taken as a
/// directory. `is_dir` tells whether the trimmed request names an existing
/// directory.
pub open spec fn output_path_for(raw: Seq<char>, default_path: Seq<char>, url: Seq<char>, is_dir: bool) -> Seq<char> {
    if trim(raw).len() == 0 {
        download_target(default_path, url, true, is_dir)
    } else {
        download_target(trim(raw), url, trim(raw) == trim(default_path), is_dir)
    }
}

pub fn normalize_output_path(raw: &str, settings: &AppSettings, url: &str, is_dir: bool) -> (r: String)
    ensures
        r@ == output_path_for(raw@, settings.general.default_download_path@, url@, is_dir),
{
    let c = to_chars(raw);
    let t = trim_chars(c.as_slice());
    if t.len() == 0 {
        return normalized_download_target(settings.general.default_download_path.as_str(), url, true, is_dir);
    }
    let d = to_chars(settings.general.default_download_path.as_str());
    let dt = trim_chars(d.as_slice());
    let is_default_directory = chars_eq(t.as_slice(), dt.as_slice());
    let trimmed = from_chars(t.as_slice());
    proof {
        crate::text::lemma_trim_idempotent(raw@);
    }
    normalized_download_target(trimmed.as_str(), url, is_default_directory, is_dir)
}

/// The list item for a stored download; `file_exists` tells whether its
/// file is on disk.
pub fn map_download_row(row: DownloadRow, file_exists: bool) -> (r: DownloadListItem)
    ensures
        r.id == row.id,
        r.url == row.url,
        r.file_path == row.file_path,
        r.file_exists == file_exists,
        r.total_bytes == row.total_bytes,
        r.status == row.status,
        r.priority == row.priority,
        r.throttle_bytes_per_sec == row.throttle_bytes_per_sec,
        r.media_quality == row.media_quality,
        r.request_source == row.request_source,
        r.failure_reason == row.failure_reason,
        r.created_at == row.created_at,
{
    DownloadListItem {
        id: row.id,
        url: row.url,
        file_path: row.file_path,
        file_exists,
        total_bytes: row.total_bytes,
        status: row.status,
        priority: row.priority,
        throttle_bytes_per_sec: row.throttle_bytes_per_sec,
        media_quality: row.media_quality,
        request_source: row.request_source,
        failure_reason: row.failure_reason,
        created_at: row.created_at,
    }
}

/// The request that restarts a stored download: same URL, path, priority,
/// throttle (when not negative), quality and source; no thread override
/// and no custom headers.
pub fn request_from_row(row: &DownloadRow) -> (r: StartDownloadRequest)
    ensures
        r.url == row.url,
        r.file_path == row.file_path,
        r.priority == Some(row.priority),
        r.override_threads.is_none(),
        r.bytes_per_sec == (match row.throttle_bytes_per_sec {
            Some(v) => if v >= 0 {
                Some(v as u64)
            } else {
                None
            },
            None => None,
        }),
        r.quality == row.media_quality,
        r.source == row.request_source,
        r.custom_headers@.len() == 0,
{
    StartDownloadRequest {
        url: row.url.clone(),
        file_path: row.file_path.clone(),
        priority: Some(row.priority.clone()),
        override_threads: None,
        bytes_per_sec: match row.throttle_bytes_per_sec {
            Some(v) => if v >= 0 {
                Some(v as u64)
            } else {
                None
            },
            None => None,
        },
        quality: clone_opt(&row.media_quality),
        source: clone_opt(&row.request_source),
        custom_headers: Vec::new(),
    }
}

pub fn clone_opt(o: &Option<String>) -> (r: Option<String>)
    ensures
        r == *o,
{
    match o {
        Some(s) => Some(s.clone()),
        None => None,
    }
}

/// The user-interface event for an engine progress snapshot.
pub fn map_progress_event(progress: &DownloadProgress) -> (e: DownloadProgressEvent)
    ensures
        e.id == progress.id,
        e.status@ == status_text(progress.status),
        e.bytes_done == progress.bytes_done,
        e.total_bytes == progress.total_bytes,
        e.speed_bps == progress.speed_bps,
        e.eta_seconds == progress.eta_seconds,
        e.segments_done == progress.segments_done,
        e.segments_total == progress.segments_total,
{
    DownloadProgressEvent {
        id: progress.id.clone(),
        status: owned(status_label(progress.status)),
        bytes_done: progress.bytes_done,
        total_bytes: progress.total_bytes,
        speed_bps: progress.speed_bps,
        eta_seconds: progress.eta_seconds,
        segments_done: progress.segments_done,
        segments_total: progress.segments_total,
    }
}

/// A request completed from the settings: a missing thread override or
/// bandwidth cap is taken from the performance settings.
pub fn request_with_settings(request: StartDownloadRequest, settings: &AppSettings) -> (r: StartDownloadRequest)
    ensures
        r.url == request.url,
        r.file_path == request.file_path,
        r.priority == request.priority,
        r.override_threads == (if request.override_threads.is_none() {
            settings.performance.thread_override
        } else {
            request.override_threads
        }),
        r.bytes_per_sec == (if request.bytes_per_sec.is_none() {
            settings.performance.bandwidth_cap
        } else {
            request.bytes_per_sec
        }),
        r.quality == request.quality,
        r.source == request.source,
        r.custom_headers == request.custom_headers,
{
    let mut request = request;
    if request.override_threads.is_none() {
        request.override_threads = settings.performance.thread_override;
    }
    if request.bytes_per_sec.is_none() {
        request.bytes_per_sec = settings.performance.bandwidth_cap;
    }
    request
}

/// The headers the desktop forwards for a media request: custom headers
/// except hop-by-hop and authorization headers (cookies are kept), plus a
/// `Referer` when none was given. The custom headers come with distinct
/// names, as a map's keys do.
pub fn browser_headers(page_url: Option<&str>, custom_headers: Vec<(String, String)>) -> (r: Vec<(String, String)>)
    requires
        distinct_names(custom_headers@),
    ensures
        pair_views(r@) == forwarded_headers(opt_str(page_url), custom_headers@, false),
{
    filter_headers(page_url, custom_headers, false)
}

/// Whether downloads may start at `hour` under the scheduler settings;
/// hours above 23 are taken as 23.
pub open spec fn desktop_window_open(enabled: bool, start: u8, end: u8, hour: u8) -> bool {
    let s = if start > 23 {
        23u8
    } else {
        start
    };
    let e = if end > 23 {
        23u8
    } else {
        end
    };
    crate::bridge::events::window_open(enabled, s, e, hour)
}

pub fn is_scheduler_window_open(settings: &AppSettings, hour: u8) -> (r: bool)
    ensures
        r == desktop_window_open(settings.scheduler.enabled, settings.scheduler.start_hour, settings.scheduler.end_hour, hour),
{
    let start = if settings.scheduler.start_hour > 23 {
        23
    } else {
        settings.scheduler.start_hour
    };
    let end = if settings.scheduler.end_hour > 23 {
        23
    } else {
        settings.scheduler.end_hour
    };
    crate::bridge::events::scheduler_window_open(settings.scheduler.enabled, start, end, hour)
}

/// The proxy downloads go through: the trimmed proxy URL when the proxy is
/// enabled and the URL is not blank.
pub fn configured_proxy_url(settings: &AppSettings) -> (r: Option<String>)
    ensures
        r.is_some() == (settings.proxy.enabled && trim(settings.proxy.url@).len() > 0),
        r matches Some(u) ==> u@ == trim(settings.proxy.url@),
{
    if !settings.proxy.enabled {
        return None;
    }
    let c = to_chars(settings.proxy.url.as_str());
    let t = trim_chars(c.as_slice());
    if t.len() == 0 {
        None
    } else {
        Some(from_chars(t.as_slice()))
    }
}

pub open spec fn any_status(queue: Seq<DownloadListItem>, a: Seq<char>, b: Seq<char>) -> bool {
    exists|i: int| 0 <= i < queue.len() && ((#[trigger] queue[i]).status@ == a || queue[i].status@ == b)
}

/// Whether "Pause All" (something active or queued) and "Resume All"
/// (something paused) apply to the list.
pub fn tray_action_state(queue: &[DownloadListItem]) -> (r: (bool, bool))
    ensures
        r.0 == any_status(queue@, "active"@, "queued"@),
        r.1 == any_status(queue@, "paused"@, "paused"@),
{
    let mut can_pause = false;
    let mut can_resume = false;
    let mut i: usize = 0;
    while i < queue.len()
        invariant
            i <= queue.len(),
            can_pause == exists|k: int| 0 <= k < i && ((#[trigger] queue@[k]).status@ == "active"@ || queue@[k].status@ == "queued"@),
            can_resume == exists|k: int| 0 <= k < i && ((#[trigger] queue@[k]).status@ == "paused"@ || queue@[k].status@ == "paused"@),
        decreases queue.len() - i,
    {
        let c = to_chars(queue[i].status.as_str());
        if eq_str(c.as_slice(), "active") || eq_str(c.as_slice(), "queued") {
            can_pause = true;
        }
        if eq_str(c.as_slice(), "paused") {
            can_resume = true;
        }
        i = i + 1;
    }
    (can_pause, can_resume)
}

// ── Which queued download starts next ────────────────────────────────────────

/// Row `a` starts before row `b`: higher priority rank first, then the
/// older one, then the smaller id.
pub open spec fn precedes(a: DownloadRow, b: DownloadRow) -> bool {
    ||| rank_of(a.priority@) > rank_of(b.priority@)
    ||| (rank_of(a.priority@) == rank_of(b.priority@) && a.created_at < b.created_at)
    ||| (rank_of(a.priority@) == rank_of(b.priority@) && a.created_at == b.created_at && lex_lt(a.id@, b.id@))
}

pub open spec fn same_key(a: DownloadRow, b: DownloadRow) -> bool {
    rank_of(a.priority@) == rank_of(b.priority@) && a.created_at == b.created_at && a.id@ == b.id@
}

proof fn lemma_precedes_order(a: DownloadRow, b: DownloadRow, c: DownloadRow)
    ensures
        !precedes(a, a),
        precedes(a, b) && precedes(b, c) ==> precedes(a, c),
        !same_key(a, b) ==> precedes(a, b) || precedes(b, a),
        precedes(a, b) && !precedes(c, b) ==> precedes(a, c),
        same_key(a, b) ==> (precedes(a, c) == precedes(b, c) && precedes(c, a) == precedes(c, b)),
{
    lemma_lex_irreflexive(a.id@);
    if precedes(a, b) && precedes(b, c) && lex_lt(a.id@, b.id@) && lex_lt(b.id@, c.id@) {
        lemma_lex_transitive(a.id@, b.id@, c.id@);
    }
    if !same_key(a, b) && a.id@ != b.id@ {
        lemma_lex_total(a.id@, b.id@);
    }
    if !same_key(c, b) && c.id@ != b.id@ {
        lemma_lex_total(c.id@, b.id@);
    }
    if precedes(a, b) && !precedes(c, b) {
        if !same_key(c, b) {
            assert(precedes(b, c));
            if lex_lt(a.id@, b.id@) && lex_lt(b.id@, c.id@) {
                lemma_lex_transitive(a.id@, b.id@, c.id@);
            }
        }
    }
}

/// A row the scheduler may start: queued and not already running.
pub open spec fn eligible(row: DownloadRow, active_ids: Seq<String>) -> bool {
    row.status@ == "queued"@ && !(exists|k: int| 0 <= k < active_ids.len() && (#[trigger] active_ids[k])@ == row.id@)
}

/// Row `i` is the one that starts next: eligible, not preceded by any
/// eligible row, and strictly ahead of every eligible row listed before it.
pub open spec fn is_next_row(rows: Seq<DownloadRow>, active_ids: Seq<String>, i: int) -> bool {
    &&& 0 <= i < rows.len()
    &&& eligible(rows[i], active_ids)
    &&& forall|j: int| 0 <= j < rows.len() && eligible(rows[j], active_ids) ==> !precedes(#[trigger] rows[j], rows[i])
    &&& forall|j: int| 0 <= j < i && eligible(rows[j], active_ids) ==> precedes(rows[i], #[trigger] rows[j])
}

fn contains_id(ids: &[String], id: &String) -> (r: bool)
    ensures
        r == exists|k: int| 0 <= k < ids@.len() && (#[trigger] ids@[k])@ == id@,
{
    let mut i: usize = 0;
    while i < ids.len()
        invariant
            i <= ids.len(),
            forall|k: int| 0 <= k < i ==> (#[trigger] ids@[k])@ != id@,
        decreases ids.len() - i,
    {
        if ids[i] == *id {
            return true;
        }
        i = i + 1;
    }
    false
}

fn row_precedes(a: &DownloadRow, b: &DownloadRow) -> (r: bool)
    ensures
        r == precedes(*a, *b),
{
    let ra = priority_rank(a.priority.as_str());
    let rb = priority_rank(b.priority.as_str());
    if ra != rb {
        return ra > rb;
    }
    if a.created_at != b.created_at {
        return a.created_at < b.created_at;
    }
    let ia = to_chars(a.id.as_str());
    let ib = to_chars(b.id.as_str());
    lex_less(ia.as_slice(), ib.as_slice())
}

/// The queued download that starts next, if any: highest priority first,
/// then the oldest, then the smallest id (the first such row on ties).
pub fn next_queued(rows: &[DownloadRow], active_ids: &[String]) -> (r: Option<usize>)
    ensures
        match r {
            Some(i) => is_next_row(rows@, active_ids@, i as int),
            None => forall|j: int| 0 <= j < rows@.len() ==> !eligible(#[trigger] rows@[j], active_ids@),
        },
{
    let mut best: Option<usize> = None;
    let mut i: usize = 0;
    while i < rows.len()
        invariant
            i <= rows.len(),
            match best {
                Some(b) => {
                    &&& b < i
                    &&& eligible(rows@[b as int], active_ids@)
                    &&& forall|j: int| 0 <= j < i && eligible(rows@[j], active_ids@) ==> !precedes(#[trigger] rows@[j], rows@[b as int])
                    &&& forall|j: int| 0 <= j < b && eligible(rows@[j], active_ids@) ==> precedes(rows@[b as int], #[trigger] rows@[j])
                },
                None => forall|j: int| 0 <= j < i ==> !eligible(#[trigger] rows@[j], active_ids@),
            },
        decreases rows.len() - i,
    {
        let row = &rows[i];
        let c = to_chars(row.status.as_str());
        let is_eligible = eq_str(c.as_slice(), "queued") && !contains_id(active_ids, &row.id);
        if is_eligible {
            match best {
                None => {
                    proof {
                        let ri = rows@[i as int];
                        lemma_precedes_order(ri, ri, ri);
                    }
                    best = Some(i);
                },
                Some(b) => {
                    if row_precedes(row, &rows[b]) {
                        proof {
                            let ri = rows@[i as int];
                            let rb = rows@[b as int];
                            assert forall|j: int| 0 <= j < i + 1 && eligible(rows@[j], active_ids@) implies !precedes(#[trigger] rows@[j], ri) by {
                                lemma_precedes_order(rows@[j], ri, rb);
                                lemma_precedes_order(ri, ri, ri);
                            }
                            assert forall|j: int| 0 <= j < i && eligible(rows@[j], active_ids@) implies precedes(ri, #[trigger] rows@[j]) by {
                                lemma_precedes_order(ri, rb, rows@[j]);
                                if j < b {
                                    lemma_precedes_order(ri, rb, rows@[j]);
                                }
                            }
                        }
                        best = Some(i);
                    } else {
                        proof {
                            let ri = rows@[i as int];
                            let rb = rows@[b as int];
                            lemma_precedes_order(rb, rb, rb);
                        }
                    }
                },
            }
        }
        i = i + 1;
    }
    best
}

/// Whether a new download waits in the queue instead of starting: when the
/// scheduler window is closed or every slot is taken.
pub fn should_queue(scheduler_open: bool, active_count: usize, max_concurrent: usize) -> (r: bool)
    ensures
        r == (!scheduler_open || active_count >= max_concurrent),
{
    !scheduler_open || active_count >= max_concurrent
}

/// What resuming a download does once it is no longer running.
#[derive(Debug, Clone)]
pub enum ResumeDecision {
    /// It is active or queued already: report it as it is.
    Unchanged,
    /// It is paused: start (or queue) it again.
    Restart,
    /// Anything else cannot be resumed.
    Refuse(String),
}

pub fn resume_decision(status: &str) -> (r: ResumeDecision)
    ensures
        (status@ == "active"@ || status@ == "queued"@) ==> r is Unchanged,
        !(status@ == "active"@ || status@ == "queued"@) && status@ == "paused"@ ==> r is Restart,
        !(status@ == "active"@ || status@ == "queued"@ || status@ == "paused"@) ==> (r matches ResumeDecision::Refuse(m)
            && m@ == "only paused downloads can be resumed: "@ + status@),
{
    let c = to_chars(status);
    if eq_str(c.as_slice(), "active") || eq_str(c.as_slice(), "queued") {
        ResumeDecision::Unchanged
    } else if !eq_str(c.as_slice(), "paused") {
        ResumeDecision::Refuse(cat("only paused downloads can be resumed: ", status))
    } else {
        ResumeDecision::Restart
    }
}

/// A list item for a download that was just started before its row could
/// be read back: unknown size, not on disk, the throttle when it fits.
pub fn pending_list_item(
    id: String,
    request: &StartDownloadRequest,
    file_path: String,
    priority: Priority,
    status: &str,
    created_at: i64,
) -> (r: DownloadListItem)
    ensures
        r.id == id,
        r.url == request.url,
        r.file_path == file_path,
        !r.file_exists,
        r.total_bytes.is_none(),
        r.status@ == status@,
        r.priority@ == priority.label(),
        r.throttle_bytes_per_sec == (match request.bytes_per_sec {
            Some(v) => if v <= i64::MAX {
                Some(v as i64)
            } else {
                None
            },
            None => None,
        }),
        r.media_quality == request.quality,
        r.request_source == request.source,
        r.failure_reason.is_none(),
        r.created_at == created_at,
{
    DownloadListItem {
        id,
        url: request.url.clone(),
        file_path,
        file_exists: false,
        total_bytes: None,
        status: owned(status),
        priority: owned(priority.as_str()),
        throttle_bytes_per_sec: match request.bytes_per_sec {
            Some(v) => if v <= 9223372036854775807u64 {
                Some(v as i64)
            } else {
                None
            },
            None => None,
        },
        media_quality: clone_opt(&request.quality),
        request_source: clone_opt(&request.source),
        failure_reason: None,
        created_at,
    }
}

/// The folder to show for a downloaded file, given whether the path exists
/// and is a directory: the directory itself, or the file's parent.
pub fn folder_to_open(file_path: &str, exists: bool, is_dir: bool) -> (r: Result<String, String>)
    ensures
        !exists ==> (r matches Err(e) && e@ == "downloaded file is missing: "@ + file_path@),
        exists && is_dir ==> (r matches Ok(p) && p@ == file_path@),
        exists && !is_dir ==> match spec_parent(file_path@) {
            Some(p) => r matches Ok(q) && q@ == p,
            None => r matches Err(e) && e@ == "download path has no parent directory"@,
        },
{
    if !exists {
        return Err(cat("downloaded file is missing: ", file_path));
    }
    if is_dir {
        return Ok(owned(file_path));
    }
    match path_parent(file_path) {
        Some(p) => Ok(p),
        None => Err(owned("download path has no parent directory")),
    }
}

/// The engine configuration for a download the desktop starts: confined to
/// the default download directory, with the request's priority, thread
/// override, bandwidth cap and headers, and the configured proxy.
pub fn desktop_download_config(request: StartDownloadRequest, output_path: String, settings: &AppSettings) -> (r:
    DownloadConfig)
    ensures
        r.url == request.url,
        r.file_path == output_path,
        r.allowed_root == Some(settings.general.default_download_path),
        r.priority == priority_for(opt_view(request.priority)),
        r.override_threads == request.override_threads,
        r.throttle.bytes_per_sec == request.bytes_per_sec,
        r.proxy_url.is_some() == (settings.proxy.enabled && trim(settings.proxy.url@).len() > 0),
        r.proxy_url matches Some(u) ==> u@ == trim(settings.proxy.url@),
        r.custom_headers == request.custom_headers,
        r.retry.max_retries == 3,
        r.retry.base_delay_ms == 1000,
{
    let priority = match &request.priority {
        Some(p) => parse_priority(Some(p.as_str())),
        None => parse_priority(None),
    };
    let mut config = DownloadConfig::new(request.url, output_path);
    config.allowed_root = Some(settings.general.default_download_path.clone());
    config.priority = priority;
    config.override_threads = request.override_threads;
    config.throttle = ThrottleConfig { bytes_per_sec: request.bytes_per_sec };
    config.proxy_url = configured_proxy_url(settings);
    config.custom_headers = request.custom_headers;
    config
}

/// What to record once a download's task stopped.
#[derive(Debug, Clone)]
pub enum StopRecord {
    /// Completed: store the final path (when yt-dlp reported one) and mark it complete.
    Complete { final_path: Option<String> },
    /// Stopped at the user's request: mark it cancelled and delete its file.
    Cancel,
    /// Paused: mark it paused.
    Pause,
    /// Failed: store the reason.
    Fail { reason: String },
    /// The row is already right.
    Keep,
}

/// After a media job stopped with `status`: a completed job records its
/// path, a stopped job is cancelled when the user cancelled it and paused
/// otherwise, a failed job records its reason (or a generic one).
pub fn media_stop_record(
    status: DownloadStatus,
    cancelled: bool,
    final_path: Option<String>,
    failure_reason: Option<String>,
) -> (r: StopRecord)
    ensures
        match status {
            DownloadStatus::Complete => r == StopRecord::Complete { final_path },
            DownloadStatus::Paused => if cancelled {
                r is Cancel
            } else {
                r is Pause
            },
            DownloadStatus::Failed => r matches StopRecord::Fail { reason } && reason@ == match failure_reason {
                Some(f) => f@,
                None => "yt-dlp download failed"@,
            },
            _ => r is Keep,
        },
{
    match status {
        DownloadStatus::Complete => StopRecord::Complete { final_path },
        DownloadStatus::Paused => if cancelled {
            StopRecord::Cancel
        } else {
            StopRecord::Pause
        },
        DownloadStatus::Failed => StopRecord::Fail {
            reason: match failure_reason {
                Some(f) => f,
                None => owned("yt-dlp download failed"),
            },
        },
        _ => StopRecord::Keep,
    }
}

/// After an engine download stopped with `status`: the engine stored its
/// status already; only a cancelled download that stopped paused is
/// marked cancelled (and its file deleted).
pub fn engine_stop_record(status: DownloadStatus, cancelled: bool) -> (r: StopRecord)
    ensures
        (cancelled && status == DownloadStatus::Paused) ==> r is Cancel,
        !(cancelled && status == DownloadStatus::Paused) ==> r is Keep,
{
    if cancelled && status == DownloadStatus::Paused {
        StopRecord::Cancel
    } else {
        StopRecord::Keep
    }
}

} // verus!
