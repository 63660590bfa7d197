use khukri::config::{ancestor_step, AncestorStep, AncestorWalk, DownloadConfig, Priority, ResolvedPaths, RetryConfig};
use khukri::db::SegmentRow;
use khukri::download::{
    download_id_for, accepts_byte_ranges, classify_probe_status, classify_segment_status, effective_throttle, eta_seconds,
    final_status, parse_content_length, range_header_value, transfer_mode, DownloadStatus, ProbeStatus,
    SegmentStatus, TransferMode,
};
use khukri::error::KhukriError;
use khukri::queue::DownloadQueue;
use khukri::retry::{backoff_base_ms, backoff_delay, is_permanent_failure, jittered_delay_ms, retry_step, AttemptOutcome, RetryDecision};
use khukri::segment::{build_segments, calc_thread_count, can_reuse_segments, resolved_thread_count, segment_pairs};

#[test]
fn test_below_200mb_clamps_to_4() {
    assert_eq!(calc_thread_count(0), 4);
    assert_eq!(calc_thread_count(100 * 1024 * 1024), 4);
    assert_eq!(calc_thread_count(199 * 1024 * 1024), 4);
}

#[test]
fn test_500mb_gives_10() {
    assert_eq!(calc_thread_count(500 * 1024 * 1024), 10);
}

#[test]
fn test_3200mb_gives_64() {
    assert_eq!(calc_thread_count(3200 * 1024 * 1024), 64);
}

#[test]
fn test_10gb_clamped_to_64() {
    assert_eq!(calc_thread_count(10 * 1024 * 1024 * 1024), 64);
}

#[test]
fn test_segments_cover_full_range() {
    let total = 1_000_000u64;
    let segs = build_segments(total, 4);
    assert_eq!(segs[0].start_byte, 0);
    assert_eq!(segs.last().unwrap().end_byte, total - 1);
    for w in segs.windows(2) {
        assert_eq!(w[0].end_byte + 1, w[1].start_byte);
    }
}

#[test]
fn segment_lengths_add_up() {
    let segs = build_segments(10, 3);
    let pairs: Vec<(u64, u64)> = segs.iter().map(|s| (s.start_byte, s.end_byte)).collect();
    assert_eq!(pairs, vec![(0, 2), (3, 5), (6, 9)]);
    let total: u64 = segs.iter().map(|s| s.len()).sum();
    assert_eq!(total, 10);
    assert_eq!(segment_pairs(&segs), pairs);
}

#[test]
fn thread_count_respects_override_and_size() {
    let mib = 1024 * 1024;
    assert_eq!(resolved_thread_count(100 * mib, Some(8)), 8);
    assert_eq!(resolved_thread_count(100 * mib, Some(0)), 1);
    assert_eq!(resolved_thread_count(100 * mib, Some(200)), 64);
    assert_eq!(resolved_thread_count(3, None), 1);
    assert_eq!(resolved_thread_count(0, None), 1);
    assert_eq!(resolved_thread_count(500 * mib, None), 10);
}

#[test]
fn segments_hold_at_least_one_mebibyte() {
    let mib = 1024 * 1024;
    assert_eq!(resolved_thread_count(2 * mib, None), 2);
    assert_eq!(resolved_thread_count(2 * mib - 1, None), 1);
    assert_eq!(resolved_thread_count(mib - 1, Some(8)), 1);
    assert_eq!(resolved_thread_count(10 * mib, Some(32)), 10);
    assert_eq!(resolved_thread_count(1_000_000, Some(8)), 1);
}

#[test]
fn stored_segments_are_reused_only_when_they_match() {
    let rows = vec![
        SegmentRow { id: 1, download_id: "d".to_string(), start_byte: 0, end_byte: 4, completed: 1 },
        SegmentRow { id: 2, download_id: "d".to_string(), start_byte: 5, end_byte: 9, completed: 0 },
    ];
    assert!(can_reuse_segments(&rows, &[(0, 4), (5, 9)]));
    assert!(!can_reuse_segments(&rows, &[(0, 4), (5, 8)]));
    assert!(!can_reuse_segments(&rows, &[(0, 9)]));
}

// ── Retry ────────────────────────────────────────────────────────────────────

/// Runs the retry loop over the given outcomes, counting the calls.
fn run_retry(config: &RetryConfig, outcomes: &[AttemptOutcome]) -> (RetryDecision, usize) {
    let mut attempt: u8 = 0;
    loop {
        let outcome = outcomes[attempt as usize];
        match retry_step(config, attempt, outcome) {
            RetryDecision::RetryAfter { attempt: a } => attempt = a + 1,
            other => return (other, attempt as usize + 1),
        }
    }
}

#[test]
fn test_two_failures_then_success() {
    let config = RetryConfig { max_retries: 3, base_delay_ms: 1 };
    let (decision, calls) = run_retry(
        &config,
        &[AttemptOutcome::Transient, AttemptOutcome::Transient, AttemptOutcome::Succeeded],
    );
    assert_eq!(decision, RetryDecision::Finish);
    assert_eq!(calls, 3);
}

#[test]
fn test_permanent_error_not_retried() {
    let config = RetryConfig { max_retries: 3, base_delay_ms: 1 };
    assert!(is_permanent_failure(404));
    let (decision, calls) = run_retry(&config, &[AttemptOutcome::Permanent, AttemptOutcome::Succeeded]);
    assert_eq!(decision, RetryDecision::FailPermanent);
    assert_eq!(calls, 1);
}

#[test]
fn test_exceeds_max_retries() {
    let config = RetryConfig { max_retries: 2, base_delay_ms: 1 };
    let (decision, calls) = run_retry(&config, &[AttemptOutcome::Transient; 5]);
    assert_eq!(decision, RetryDecision::GiveUp { attempts: 2 });
    assert_eq!(calls, 3);
}

#[test]
fn permanent_statuses_are_recognized() {
    for s in [400u16, 401, 403, 404, 405, 410] {
        assert!(is_permanent_failure(s));
    }
    for s in [200u16, 206, 429, 500, 503] {
        assert!(!is_permanent_failure(s));
    }
}

#[test]
fn backoff_doubles_and_saturates() {
    assert_eq!(backoff_base_ms(1000, 0), 1000);
    assert_eq!(backoff_base_ms(1000, 3), 8000);
    assert_eq!(backoff_base_ms(u64::MAX / 2, 4), u64::MAX);
    assert_eq!(jittered_delay_ms(1000, 1, 50, true), 2050);
    assert_eq!(jittered_delay_ms(1000, 1, 50, false), 1950);
    for _ in 0..20 {
        let d = backoff_delay(1000, 2);
        assert!((3600..=4400).contains(&d));
    }
}

#[test]
fn small_backoffs_keep_within_ten_percent() {
    for _ in 0..20 {
        assert_eq!(backoff_delay(1, 0), 1);
        assert_eq!(backoff_delay(9, 0), 9);
        let d = backoff_delay(10, 0);
        assert!((9..=11).contains(&d));
    }
    assert_eq!(backoff_delay(0, 5), 0);
}

// ── Configuration ───────────────────────────────────────────────────────────

#[test]
fn test_validate_rejects_zero_override_threads() {
    let mut cfg = DownloadConfig::new("https://example.com/file.bin".to_string(), "out.bin".to_string());
    cfg.override_threads = Some(0);
    assert!(matches!(
        cfg.validate(None),
        Err(KhukriError::InvalidConfig { ref field, .. }) if field == "override_threads"
    ));
}

#[test]
fn test_validate_accepts_reasonable_config() {
    let cfg = DownloadConfig::new("https://example.com/file.bin".to_string(), "out.bin".to_string());
    assert!(cfg.validate(None).is_ok());
}

fn field_of(result: Result<(), KhukriError>) -> (String, String) {
    match result {
        Err(KhukriError::InvalidConfig { field, reason }) => (field, reason),
        other => panic!("expected an invalid configuration, got {:?}", other),
    }
}

#[test]
fn validation_names_the_failing_field() {
    let cfg = DownloadConfig::new("   ".to_string(), "out.bin".to_string());
    assert_eq!(field_of(cfg.validate(None)), ("url".to_string(), "URL must not be empty".to_string()));

    let cfg = DownloadConfig::new("ftp://example.com/x".to_string(), "out.bin".to_string());
    assert_eq!(
        field_of(cfg.validate(None)),
        ("url".to_string(), "URL scheme 'ftp' not allowed (http/https only)".to_string())
    );

    let cfg = DownloadConfig::new("http://192.168.1.5/x".to_string(), "out.bin".to_string());
    assert_eq!(field_of(cfg.validate(None)).0, "url");

    let cfg = DownloadConfig::new("http://172.20.0.1/file.bin".to_string(), "out.bin".to_string());
    assert_eq!(field_of(cfg.validate(None)).0, "url");
    let cfg = DownloadConfig::new("http://172.16.4.2/file.bin".to_string(), "out.bin".to_string());
    assert_eq!(field_of(cfg.validate(None)).0, "url");
    let cfg = DownloadConfig::new("http://172.31.255.1/file.bin".to_string(), "out.bin".to_string());
    assert_eq!(field_of(cfg.validate(None)).0, "url");
    for host in ["172.15.0.1", "172.32.0.1", "172.3.0.1", "172.160.0.1"] {
        let cfg = DownloadConfig::new(format!("http://{host}/file.bin"), "out.bin".to_string());
        assert!(cfg.validate(None).is_ok(), "{host}");
    }

    let cfg = DownloadConfig::new("http://LOCALHOST:8080/x".to_string(), "out.bin".to_string());
    assert_eq!(field_of(cfg.validate(None)).0, "url");

    let cfg = DownloadConfig::new("https://example.com/x".to_string(), String::new());
    assert_eq!(field_of(cfg.validate(None)), ("file_path".to_string(), "output path must not be empty".to_string()));

    let mut cfg = DownloadConfig::new("https://example.com/x".to_string(), "out.bin".to_string());
    cfg.override_threads = Some(129);
    assert_eq!(field_of(cfg.validate(None)).1, "must be in range 1..=128");

    let mut cfg = DownloadConfig::new("https://example.com/x".to_string(), "out.bin".to_string());
    cfg.proxy_url = Some("  ".to_string());
    assert_eq!(field_of(cfg.validate(None)), ("proxy_url".to_string(), "proxy URL must not be empty".to_string()));

    let mut cfg = DownloadConfig::new("https://example.com/x".to_string(), "out.bin".to_string());
    cfg.custom_headers = vec![("Bad Name".to_string(), "v".to_string())];
    let (field, reason) = field_of(cfg.validate(None));
    assert_eq!(field, "custom_headers");
    assert_eq!(reason, "invalid header name 'Bad Name': invalid HTTP header name");

    let mut cfg = DownloadConfig::new("https://example.com/x".to_string(), "out.bin".to_string());
    cfg.custom_headers = vec![("X-Ok".to_string(), "line\nbreak".to_string())];
    assert_eq!(field_of(cfg.validate(None)).1, "invalid header value for 'X-Ok': failed to parse header value");
}

/// Walks up from `path`, treating the first `missing` cursors as absent.
fn walk_from(path: &str, missing: usize) -> (AncestorWalk, Vec<AncestorStep>) {
    let mut walk = AncestorWalk::new(path);
    let mut steps = Vec::new();
    for i in 0..=missing {
        steps.push(walk.advance(i == missing));
    }
    (walk, steps)
}

fn resolved(root: &str, walk: AncestorWalk, ancestor: Result<&str, &str>) -> ResolvedPaths {
    ResolvedPaths {
        root: Ok(root.to_string()),
        walk,
        ancestor: ancestor.map(|a| a.to_string()).map_err(|e| e.to_string()),
    }
}

#[test]
fn outputs_must_stay_under_the_allowed_root() {
    let mut cfg = DownloadConfig::new("https://example.com/x".to_string(), "/srv/out/x.bin".to_string());
    cfg.allowed_root = Some("/srv/out".to_string());
    let (walk, steps) = walk_from("/srv/out/x.bin", 1);
    assert!(matches!(&steps[0], AncestorStep::Probe { parent, name } if parent == "/srv/out" && name == "x.bin"));
    assert!(matches!(steps[1], AncestorStep::Canonicalize));
    assert_eq!(walk.cursor, "/srv/out");
    assert_eq!(walk.finish("/srv/out"), "/srv/out/x.bin");
    assert!(cfg.validate(Some(&resolved("/srv/out", walk, Ok("/srv/out")))).is_ok());

    let mut cfg = DownloadConfig::new("https://example.com/x".to_string(), "/etc/x.bin".to_string());
    cfg.allowed_root = Some("/srv/out".to_string());
    let (walk, _) = walk_from("/etc/x.bin", 1);
    assert_eq!(
        field_of(cfg.validate(Some(&resolved("/srv/out", walk, Ok("/etc"))))),
        ("file_path".to_string(), "path '/etc/x.bin' is outside allowed root '/srv/out'".to_string())
    );
}

#[test]
fn missing_directories_are_appended_after_the_canonical_ancestor() {
    let mut cfg = DownloadConfig::new("https://example.com/x".to_string(), "/srv/out/sub/deeper/f.bin".to_string());
    cfg.allowed_root = Some("/srv/out".to_string());
    let (walk, _) = walk_from("/srv/out/sub/deeper/f.bin", 3);
    assert_eq!(walk.tail, vec!["f.bin".to_string(), "deeper".to_string(), "sub".to_string()]);
    assert_eq!(walk.finish("/data/out"), "/data/out/sub/deeper/f.bin");
    assert!(cfg.validate(Some(&resolved("/srv/out", walk, Ok("/srv/out")))).is_ok());

    // A symlink inside the root that leads outside it is resolved by the
    // canonicalization of the existing ancestor.
    let mut cfg = DownloadConfig::new("https://example.com/x".to_string(), "/srv/out/link/f.bin".to_string());
    cfg.allowed_root = Some("/srv/out".to_string());
    let (walk, _) = walk_from("/srv/out/link/f.bin", 1);
    assert_eq!(
        field_of(cfg.validate(Some(&resolved("/srv/out", walk, Ok("/tmp/elsewhere"))))).0,
        "file_path"
    );

    // A sibling whose name merely starts with the root's is outside it.
    let mut cfg = DownloadConfig::new("https://example.com/x".to_string(), "/srv/outside/f.bin".to_string());
    cfg.allowed_root = Some("/srv/out".to_string());
    let (walk, _) = walk_from("/srv/outside/f.bin", 0);
    assert_eq!(field_of(cfg.validate(Some(&resolved("/srv/out", walk, Ok("/srv/outside/f.bin"))))).0, "file_path");
}

#[test]
fn a_path_with_no_existing_ancestor_cannot_be_resolved() {
    let mut walk = AncestorWalk::new("x.bin");
    assert!(matches!(walk.advance(false), AncestorStep::Probe { .. }));
    assert!(matches!(walk.advance(false), AncestorStep::NoAncestor));
    assert!(matches!(ancestor_step("/", false), AncestorStep::NoAncestor));
    assert!(matches!(ancestor_step("/", true), AncestorStep::Canonicalize));
    let mut cfg = DownloadConfig::new("https://example.com/x".to_string(), "x.bin".to_string());
    cfg.allowed_root = Some("/srv/out".to_string());
    let paths = resolved("/srv/out", walk, Err("no existing ancestor found for output path"));
    assert_eq!(
        field_of(cfg.validate(Some(&paths))),
        (
            "file_path".to_string(),
            "cannot resolve output path: no existing ancestor found for output path".to_string()
        )
    );
    let paths = ResolvedPaths {
        root: Err("No such file or directory (os error 2)".to_string()),
        walk: AncestorWalk::new("x.bin"),
        ancestor: Ok("/srv/out".to_string()),
    };
    assert_eq!(field_of(cfg.validate(Some(&paths))).0, "allowed_root");
}

#[test]
fn priorities_have_labels_and_ranks() {
    assert_eq!(Priority::High.as_str(), "high");
    assert_eq!(Priority::Low.as_str(), "low");
    assert_eq!(Priority::Normal.rank(), 1);
    assert_eq!(Priority::default(), Priority::Low);
}

// ── Queue ────────────────────────────────────────────────────────────────────

fn make_config(url: &str, priority: Priority) -> DownloadConfig {
    let mut c = DownloadConfig::new(url.to_string(), format!("/tmp/{url}"));
    c.priority = priority;
    c
}

#[test]
fn test_priority_ordering() {
    let mut queue = DownloadQueue::new(3);
    queue.push(make_config("low.bin", Priority::Low));
    queue.push(make_config("high.bin", Priority::High));
    queue.push(make_config("normal.bin", Priority::Normal));

    assert_eq!(queue.pop().unwrap().priority, Priority::High);
    assert_eq!(queue.pop().unwrap().priority, Priority::Normal);
    assert_eq!(queue.pop().unwrap().priority, Priority::Low);
}

#[test]
fn equal_priorities_start_in_arrival_order() {
    let mut queue = DownloadQueue::new(1);
    queue.push(make_config("a.bin", Priority::Normal));
    queue.push(make_config("b.bin", Priority::Normal));
    queue.push(make_config("c.bin", Priority::High));
    assert_eq!(queue.stats(), (0, 3, 1));

    let first = queue.try_promote().unwrap();
    assert_eq!(first.url, "c.bin");
    assert!(queue.try_promote().is_none());
    assert_eq!(queue.stats(), (1, 2, 1));

    queue.finish_one();
    assert_eq!(queue.try_promote().unwrap().url, "a.bin");
    queue.set_max_concurrent(2);
    assert_eq!(queue.try_promote().unwrap().url, "b.bin");
    assert!(queue.try_promote().is_none());
}

// ── Transfers ────────────────────────────────────────────────────────────────

#[test]
fn probe_decides_the_transfer_mode() {
    assert_eq!(parse_content_length(Some("1234")), Some(1234));
    assert_eq!(parse_content_length(Some("abc")), None);
    assert_eq!(parse_content_length(None), None);
    assert!(accepts_byte_ranges(Some("bytes")));
    assert!(!accepts_byte_ranges(Some("none")));
    assert_eq!(transfer_mode(Some(10), true), TransferMode::Segmented(10));
    assert_eq!(transfer_mode(Some(10), false), TransferMode::Streaming(Some(10)));
    assert_eq!(transfer_mode(None, true), TransferMode::Streaming(None));
    assert_eq!(transfer_mode(Some(0), true), TransferMode::Streaming(Some(0)));
}

#[test]
fn statuses_are_classified() {
    assert_eq!(classify_probe_status(403), ProbeStatus::Permanent);
    assert_eq!(classify_probe_status(503), ProbeStatus::ServerError);
    assert_eq!(classify_probe_status(200), ProbeStatus::Usable);
    assert_eq!(classify_segment_status(206), SegmentStatus::Partial);
    assert_eq!(classify_segment_status(200), SegmentStatus::NoRangeSupport);
    assert_eq!(classify_segment_status(500), SegmentStatus::HttpError);
    assert_eq!(classify_segment_status(410), SegmentStatus::Permanent);
}

#[test]
fn range_headers_and_eta() {
    assert_eq!(range_header_value(0, 1023), "bytes=0-1023");
    assert_eq!(eta_seconds(Some(1000), 400, 100), Some(6));
    assert_eq!(eta_seconds(Some(1000), 1000, 100), None);
    assert_eq!(eta_seconds(Some(1000), 0, 0), None);
    assert_eq!(eta_seconds(None, 0, 10), None);
    assert_eq!(effective_throttle(Some(0)), None);
    assert_eq!(effective_throttle(Some(512)), Some(512));
}

#[test]
fn final_status_follows_the_outcome() {
    assert_eq!(final_status(&Ok(())), ("complete", DownloadStatus::Complete));
    assert_eq!(final_status(&Err(KhukriError::Cancelled)), ("paused", DownloadStatus::Paused));
    assert_eq!(final_status(&Err(KhukriError::NoRangeSupport)), ("failed", DownloadStatus::Failed));
}

#[test]
fn proxies_reqwest_refuses_are_invalid() {
    let mut cfg = DownloadConfig::new("https://example.com/x".to_string(), "out.bin".to_string());
    cfg.proxy_url = Some("http://[bad".to_string());
    let (field, reason) = field_of(cfg.validate(None));
    assert_eq!(field, "proxy_url");
    assert_eq!(reason, "invalid proxy URL: builder error");

    cfg.proxy_url = Some("socks5://127.0.0.1:9050".to_string());
    assert!(cfg.validate(None).is_ok());
}

#[test]
fn download_ids_are_name_based_uuids() {
    let a = download_id_for("https://example.com/f.bin", "/tmp/f.bin");
    let b = download_id_for("https://example.com/f.bin", "/tmp/f.bin");
    let c = download_id_for("https://example.com/f.bin", "/tmp/g.bin");
    assert_eq!(a, b);
    assert_ne!(a, c);
    assert_eq!(a.len(), 36);
    assert_eq!(a.matches('-').count(), 4);
    assert_eq!(&a[14..15], "5");
}
