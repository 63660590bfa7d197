use khukri::config::Priority;
use khukri::db::DownloadRow;
use khukri::desktop::bootstrap::{app_pool_config, managed_sidecar_dir, settings_path};
use khukri::desktop::downloads::{
    desktop_download_config, engine_stop_record, media_stop_record, StartDownloadRequest, StopRecord, folder_to_open, infer_download_filename, next_queued, normalize_output_path, parse_priority, priority_rank,
    resume_decision, should_queue, tray_action_state, DownloadListItem, ResumeDecision,
};
use khukri::desktop::media::{
    missing_output_message, build_arguments, format_selector, is_macho_header, media_temp_dir, prepare_sidecar_for_execution,
    should_use_ytdlp, starts_with_shebang, MediaJob, MediaQuality, SidecarPrep, PreparedSidecars,
};
use khukri::desktop::native_host::{bridge_candidate_paths, bridge_names, missing_bridge_message, registration_failure_message};
use khukri::desktop::settings::{default_settings, normalize, reset_section, supported_browser_session, validate};
use khukri::desktop::updater::{
    canary_version, checksum_for_asset, current_effective_version, parse_release_checksum, platform_release_asset_name,
    record_update_failure, record_update_success, release_decision, sha256_hex, stage_failure_reason, staging_names,
    update_check_due, verify_binary, GithubAsset, ReleaseDecision, UpdateStage, start_update_check, update_step,
    UpdateAction, UpdateContext, UpdateEvent, UpdatePhase, swap_plan, SwapStep,
};
use khukri::download::DownloadStatus;
use khukri::platform::Platform;
use std::path::Path;

fn join(a: &str, b: &str) -> String {
    Path::new(a).join(b).display().to_string()
}

fn tray_item(status: &str) -> DownloadListItem {
    DownloadListItem {
        id: format!("test-{status}"),
        url: "https://example.com/file.bin".to_string(),
        file_path: "/tmp/file.bin".to_string(),
        file_exists: false,
        total_bytes: None,
        status: status.to_string(),
        priority: "normal".to_string(),
        throttle_bytes_per_sec: None,
        media_quality: None,
        request_source: None,
        failure_reason: None,
        created_at: 0,
    }
}

#[test]
fn tray_action_state_tracks_pause_and_resume_availability() {
    assert_eq!(tray_action_state(&[]), (false, false));
    assert_eq!(tray_action_state(&[tray_item("active")]), (true, false));
    assert_eq!(tray_action_state(&[tray_item("queued")]), (true, false));
    assert_eq!(tray_action_state(&[tray_item("paused")]), (false, true));
    assert_eq!(
        tray_action_state(&[tray_item("complete"), tray_item("failed"), tray_item("cancelled")]),
        (false, false)
    );
    assert_eq!(tray_action_state(&[tray_item("active"), tray_item("paused")]), (true, true));
}

#[test]
fn empty_output_uses_default_directory_and_url_filename() {
    let default_dir = join("/tmp", "khukri-default-output");
    let mut settings = default_settings("/data");
    settings.general.default_download_path = default_dir.clone();
    let path = normalize_output_path("", &settings, "https://example.com/files/sample.bin?token=abc", false);
    assert_eq!(path, join(&default_dir, "sample.bin"));
}

#[test]
fn explicit_default_directory_value_is_treated_as_directory() {
    let default_dir = join("/tmp", "khukri-default-output");
    let mut settings = default_settings("/data");
    settings.general.default_download_path = default_dir.clone();
    let raw = settings.general.default_download_path.clone();
    let path = normalize_output_path(&raw, &settings, "https://example.com/files/sample.bin", false);
    assert_eq!(path, join(&default_dir, "sample.bin"));
}

#[test]
fn explicit_files_and_directories_are_told_apart() {
    let settings = default_settings("/data");
    assert_eq!(normalize_output_path("/srv/a.iso", &settings, "https://x.org/b.iso", false), "/srv/a.iso");
    assert_eq!(normalize_output_path("/srv/", &settings, "https://x.org/b.iso", false), "/srv/b.iso");
    assert_eq!(normalize_output_path("/srv/box", &settings, "https://x.org/b.iso", true), "/srv/box/b.iso");
}

#[test]
fn open_download_folder_reports_missing_file() {
    let error = folder_to_open("/tmp/khukri-missing-file", false, false).unwrap_err();
    assert!(error.contains("downloaded file is missing"));
    assert_eq!(folder_to_open("/srv/dl/a.bin", true, false), Ok("/srv/dl".to_string()));
    assert_eq!(folder_to_open("/srv/dl", true, true), Ok("/srv/dl".to_string()));
}

#[test]
fn detects_media_request() {
    assert!(should_use_ytdlp(Some("stream"), None));
    assert!(should_use_ytdlp(None, Some("720p")));
    assert!(!should_use_ytdlp(Some("browser"), None));
}

#[test]
fn media_selector_falls_back_to_progressive_when_ffmpeg_missing() {
    assert_eq!(format_selector(MediaQuality::Best, false), "best[acodec!=none][vcodec!=none]/best");
    assert_eq!(
        format_selector(MediaQuality::P720, false),
        "best[height<=720][acodec!=none][vcodec!=none]/best[height<=720]/best"
    );
    assert_eq!(
        khukri::bridge::media::format_selector(khukri::bridge::media::MediaQuality::Best, false),
        "best[acodec!=none][vcodec!=none]/best"
    );
    assert_eq!(
        khukri::bridge::media::format_selector(khukri::bridge::media::MediaQuality::P1080, false),
        "best[height<=1080][acodec!=none][vcodec!=none]/best[height<=1080]/best"
    );
}

#[test]
fn ffmpeg_override_is_forwarded_to_ytdlp() {
    let binary_path = join(&join("/tmp", "khukri-ffmpeg-test"), "ffmpeg.exe");
    let temp = media_temp_dir("/data", "job-1");
    let args = build_arguments(
        &MediaJob {
            id: "job-1".to_string(),
            url: "https://example.com/watch?v=abc".to_string(),
            output_path: "D:/downloads/sample.bin".to_string(),
            quality: MediaQuality::Best,
            headers: Vec::new(),
        },
        Some(&binary_path),
        &temp,
    );

    assert!(args.contains(&"--no-playlist".to_string()));
    assert!(args.windows(2).any(|part| part[0] == "--paths" && part[1].starts_with("home:") && part[1].contains("downloads")));
    assert!(args.windows(2).any(|part| part[0] == "--paths" && part[1].starts_with("temp:") && part[1].contains("media-temp")));
    assert!(args.windows(2).any(|part| part[0] == "--ffmpeg-location" && part[1] == binary_path));
    assert_eq!(args.last().unwrap(), "https://example.com/watch?v=abc");
}

#[test]
fn sidecars_are_prepared_once_on_macos() {
    assert_eq!(prepare_sidecar_for_execution(Platform::MacosArm64, false), SidecarPrep::StripAndSign);
    assert_eq!(prepare_sidecar_for_execution(Platform::MacosArm64, true), SidecarPrep::Ready);
    assert_eq!(prepare_sidecar_for_execution(Platform::LinuxX64, false), SidecarPrep::Ready);
    assert!(is_macho_header(&[0xcf, 0xfa, 0xed, 0xfe, 7]));
    assert!(!is_macho_header(&[0xcf, 0xfa, 0xed]));
    assert!(starts_with_shebang(b"#!/usr/bin/env python3"));
    assert!(!starts_with_shebang(b"#"));
}

// ── Settings ─────────────────────────────────────────────────────────────────

#[test]
fn browser_session_values_are_allowlisted() {
    assert!(supported_browser_session(None));
    assert!(supported_browser_session(Some("chrome")));
    assert!(!supported_browser_session(Some("chrome:../../secret")));
}

#[test]
fn invalid_queue_and_proxy_settings_are_rejected() {
    let mut settings = default_settings("/data");
    settings.general.max_concurrent = 0;
    assert!(validate(&settings).is_err());

    settings.general.max_concurrent = 3;
    settings.proxy.enabled = true;
    settings.proxy.url = "not-a-proxy".to_string();
    assert!(validate(&settings).is_err());
}

#[test]
fn defaults_are_valid_and_survive_normalization() {
    let mut settings = default_settings("/data");
    assert!(validate(&settings).is_ok());
    let before = settings.clone();
    normalize(&mut settings, "/data/downloads");
    assert_eq!(settings.general.max_concurrent, before.general.max_concurrent);
    assert_eq!(settings.general.default_download_path, before.general.default_download_path);
    assert_eq!(settings.appearance.theme, "system");
}

#[test]
fn normalization_repairs_out_of_range_values() {
    let mut settings = default_settings("/data");
    settings.general.max_concurrent = 0;
    settings.general.default_download_path = "  ".to_string();
    settings.appearance.theme = "neon".to_string();
    settings.proxy.enabled = true;
    settings.proxy.url = "  ".to_string();
    normalize(&mut settings, "/data/downloads");
    assert!(validate(&settings).is_ok());
    assert_eq!(settings.general.default_download_path, "/data/downloads");
}

#[test]
fn sections_reset_to_their_defaults() {
    let defaults = default_settings("/data");
    let mut settings = default_settings("/data");
    settings.general.max_concurrent = 9;
    settings.proxy.enabled = true;
    assert!(reset_section(&mut settings, "general", defaults.clone()).is_ok());
    assert_eq!(settings.general.max_concurrent, 3);
    assert!(settings.proxy.enabled);
    assert_eq!(reset_section(&mut settings, "colors", defaults), Err("unknown settings section: colors".to_string()));
    assert!(settings.proxy.enabled);
}

// ── The download list ───────────────────────────────────────────────────────

fn row(id: &str, status: &str, priority: &str, created_at: i64) -> DownloadRow {
    DownloadRow {
        id: id.to_string(),
        url: "https://example.com/f".to_string(),
        file_path: "/tmp/f".to_string(),
        total_bytes: None,
        status: status.to_string(),
        priority: priority.to_string(),
        throttle_bytes_per_sec: None,
        media_quality: None,
        request_source: None,
        failure_reason: None,
        created_at,
    }
}

#[test]
fn queued_downloads_start_by_priority_then_age() {
    let rows = vec![
        row("a", "queued", "low", 1),
        row("b", "queued", "normal", 5),
        row("c", "queued", "NORMAL", 3),
        row("d", "paused", "high", 0),
    ];
    assert_eq!(next_queued(&rows, &[]), Some(2));
    assert_eq!(next_queued(&rows, &["c".to_string()]), Some(1));
    assert_eq!(next_queued(&rows[3..], &[]), None);
}

#[test]
fn priorities_and_queueing() {
    assert_eq!(parse_priority(Some("HIGH")), Priority::High);
    assert_eq!(parse_priority(Some("weird")), Priority::Normal);
    assert_eq!(parse_priority(None), Priority::Normal);
    assert_eq!(priority_rank("High"), 2);
    assert_eq!(priority_rank("low"), 0);
    assert!(should_queue(false, 0, 3));
    assert!(should_queue(true, 3, 3));
    assert!(!should_queue(true, 2, 3));
    assert_eq!(infer_download_filename("https://example.com/a/b.zip?x=1"), "b.zip");
    assert_eq!(infer_download_filename("https://example.com/"), "example.com");
}

#[test]
fn only_paused_downloads_resume() {
    assert!(matches!(resume_decision("paused"), ResumeDecision::Restart));
    assert!(matches!(resume_decision("active"), ResumeDecision::Unchanged));
    match resume_decision("failed") {
        ResumeDecision::Refuse(m) => assert_eq!(m, "only paused downloads can be resumed: failed"),
        _ => panic!("failed downloads are not resumed"),
    }
}

// ── yt-dlp updates ──────────────────────────────────────────────────────────

#[test]
fn checksum_manifest_parses_expected_asset() {
    let manifest = "abc123  yt-dlp.exe\nfff999  yt-dlp_linux\n";
    assert_eq!(parse_release_checksum(manifest, "yt-dlp_linux"), Some("fff999".to_string()));
}

#[test]
fn checksum_manifest_handles_binary_markers_and_misses() {
    let manifest = "  111 *yt-dlp_macos  \nlonely\n222 yt-dlp_linux";
    assert_eq!(parse_release_checksum(manifest, "yt-dlp_macos"), Some("111".to_string()));
    assert_eq!(parse_release_checksum(manifest, "yt-dlp_linux"), Some("222".to_string()));
    assert_eq!(parse_release_checksum(manifest, "lonely"), None);
    assert_eq!(
        checksum_for_asset(manifest, "yt-dlp.exe"),
        Err("checksum for yt-dlp.exe not found in release manifest".to_string())
    );
}

#[test]
fn sha256_is_hex_encoded() {
    assert_eq!(sha256_hex(b"abc"), "ba7816bf8f01cfea414140de5dae2223b00361a396177a9cb410ff61f20015ad");
    assert!(verify_binary(b"abc", "BA7816BF8F01CFEA414140DE5DAE2223B00361A396177A9CB410FF61F20015AD").is_ok());
    assert_eq!(verify_binary(b"abd", "ba7816bf"), Err("yt-dlp update failed: checksum mismatch".to_string()));
}

#[test]
fn update_checks_are_rate_limited() {
    let mut settings = default_settings("/data");
    assert!(update_check_due(&settings, false, 100));
    settings.ytdlp_last_check = Some(100);
    assert!(!update_check_due(&settings, false, 100 + 86_399));
    assert!(update_check_due(&settings, false, 100 + 86_400));
    assert!(update_check_due(&settings, true, 101));
    settings.ytdlp_last_rate_limit = true;
    assert!(update_check_due(&settings, false, 100 + 3600));
    settings.ytdlp_auto_update = false;
    assert!(!update_check_due(&settings, false, 100 + 100_000));
}

#[test]
fn failures_are_announced_once() {
    let mut settings = default_settings("/data");
    assert!(record_update_failure(&mut settings, "boom", true));
    assert!(settings.ytdlp_last_rate_limit);
    assert!(!record_update_failure(&mut settings, "boom", false));
    assert!(record_update_failure(&mut settings, "other", false));
    record_update_success(&mut settings, "2025.01.01".to_string());
    assert_eq!(settings.ytdlp_last_notified_failure, None);
    assert!(record_update_failure(&mut settings, "other", false));
}

#[test]
fn releases_are_chosen_by_tag_and_assets() {
    let assets = vec![
        GithubAsset { name: "yt-dlp_linux".to_string(), browser_download_url: "u1".to_string() },
        GithubAsset { name: "SHA2-256SUMS".to_string(), browser_download_url: "u2".to_string() },
    ];
    assert!(matches!(release_decision(" 2025.01.01 ", &assets, "2025.01.01", Ok("yt-dlp_linux")), ReleaseDecision::UpToDate));
    assert!(matches!(
        release_decision("2025.02.01", &assets, "2025.01.01", Ok("yt-dlp_linux")),
        ReleaseDecision::Download { checksums: 1, binary: 0 }
    ));
    match release_decision("2025.02.01", &assets, "2025.01.01", Ok("yt-dlp.exe")) {
        ReleaseDecision::Fail { reason, version } => {
            assert_eq!(reason, "yt-dlp release does not include asset for this platform: yt-dlp.exe");
            assert_eq!(version, Some("2025.02.01".to_string()));
        },
        other => panic!("unexpected decision {:?}", other),
    }
    match release_decision("2025.02.01", &assets[..1], "2025.01.01", Ok("yt-dlp_linux")) {
        ReleaseDecision::Fail { reason, .. } => assert_eq!(reason, "yt-dlp release checksums asset not found"),
        other => panic!("unexpected decision {:?}", other),
    }
}

#[test]
fn installed_version_falls_back_to_the_bundled_one() {
    let mut settings = default_settings("/data");
    assert_eq!(current_effective_version(&settings, " 2024.12.01\n"), "2024.12.01");
    settings.ytdlp_version = Some("2025.01.01".to_string());
    assert_eq!(current_effective_version(&settings, "2024.12.01"), "2025.01.01");
    settings.ytdlp_version = Some("  ".to_string());
    assert_eq!(current_effective_version(&settings, "2024.12.01"), "2024.12.01");
}

#[test]
fn canary_output_is_the_version() {
    assert_eq!(canary_version(true, "0", " 2025.02.01\n"), Ok("2025.02.01".to_string()));
    assert_eq!(canary_version(true, "0", "  "), Err("canary execution returned no version output".to_string()));
    assert_eq!(canary_version(false, "exit status: 1", "x"), Err("canary execution failed with status exit status: 1".to_string()));
}

#[test]
fn update_messages_and_names() {
    assert_eq!(platform_release_asset_name(Platform::LinuxX64), Ok("yt-dlp_linux"));
    assert_eq!(platform_release_asset_name(Platform::MacosArm64), Ok("yt-dlp_macos"));
    assert!(platform_release_asset_name(Platform::Other).is_err());
    assert_eq!(stage_failure_reason(UpdateStage::BinaryDownload, "404"), "yt-dlp binary download failed: 404");
    assert_eq!(staging_names("yt-dlp"), ("yt-dlp.tmp".to_string(), "yt-dlp.bak".to_string()));
}

// ── The bundled bridge and the data directory ──────────────────────────────

#[test]
fn bridge_names_follow_the_platform() {
    assert_eq!(bridge_names(Platform::LinuxX64), vec!["khukri-bridge", "khukri-bridge-x86_64-unknown-linux-gnu"]);
    assert!(bridge_names(Platform::Other).is_empty());
    assert_eq!(
        bridge_candidate_paths("/opt/khukri", Platform::MacosArm64),
        vec!["/opt/khukri/khukri-bridge".to_string(), "/opt/khukri/khukri-bridge-aarch64-apple-darwin".to_string()]
    );
    assert_eq!(missing_bridge_message("/opt/khukri/khukri"), "bundled native bridge was not found next to /opt/khukri/khukri");
    assert_eq!(registration_failure_message("  denied\n"), "native host registration failed: denied");
}

#[test]
fn data_files_live_in_the_data_directory() {
    let cfg = app_pool_config("/data");
    assert_eq!(cfg.url, "sqlite:/data/state.db?mode=rwc");
    assert_eq!(cfg.max_connections, 5);
    assert_eq!(settings_path("/data"), "/data/settings.json");
    assert_eq!(managed_sidecar_dir("/data"), "/data/sidecar");
}

fn linux_ctx(force: bool) -> UpdateContext {
    UpdateContext { force, bundled_version: "2024.12.01\n".to_string(), platform: Platform::LinuxX64 }
}

fn release_assets() -> Vec<GithubAsset> {
    vec![
        GithubAsset { name: "SHA2-256SUMS".to_string(), browser_download_url: "https://x/sums".to_string() },
        GithubAsset { name: "yt-dlp_linux".to_string(), browser_download_url: "https://x/bin".to_string() },
    ]
}

#[test]
fn an_update_run_goes_through_every_step() {
    let mut settings = default_settings("/data");
    assert!(start_update_check(&mut settings, false, 1_000));
    assert_eq!(settings.ytdlp_last_check, Some(1_000));
    let ctx = linux_ctx(false);

    let (phase, action) = update_step(
        &mut settings,
        &ctx,
        UpdatePhase::FetchingRelease,
        UpdateEvent::ReleaseFetched { tag: "2025.02.01".to_string(), assets: release_assets() },
    );
    assert!(matches!(&action, UpdateAction::FetchChecksums { url } if url == "https://x/sums"));
    let body = "ba7816bf8f01cfea414140de5dae2223b00361a396177a9cb410ff61f20015ad  yt-dlp_linux\n".to_string();
    let (phase, action) = update_step(&mut settings, &ctx, phase, UpdateEvent::ChecksumsFetched { body });
    assert!(matches!(&action, UpdateAction::FetchBinary { url } if url == "https://x/bin"));
    let (phase, action) = update_step(&mut settings, &ctx, phase, UpdateEvent::BinaryFetched { bytes: b"abc".to_vec() });
    assert!(matches!(&action, UpdateAction::RunCanary { bytes } if bytes == b"abc"));
    let (phase, action) = update_step(
        &mut settings,
        &ctx,
        phase,
        UpdateEvent::CanaryFinished { result: Ok("2025.02.01".to_string()) },
    );
    assert!(matches!(action, UpdateAction::Install));
    let (phase, action) = update_step(&mut settings, &ctx, phase, UpdateEvent::Installed);
    assert!(matches!(phase, UpdatePhase::Done));
    match action {
        UpdateAction::Finish { save: true, event: Some(e) } => {
            assert_eq!(e.kind, "updated");
            assert_eq!(e.message, "yt-dlp updated to 2025.02.01");
            assert_eq!(e.version, Some("2025.02.01".to_string()));
        }
        _ => panic!("the run should finish with an update notice"),
    }
    assert_eq!(settings.ytdlp_version, Some("2025.02.01".to_string()));
}

#[test]
fn a_tampered_binary_is_refused_and_reported_once() {
    let mut settings = default_settings("/data");
    let ctx = linux_ctx(false);
    for round in 0..2 {
        let phase = UpdatePhase::FetchingBinary { tag: "2025.02.01".to_string(), expected_sha: "00".to_string() };
        let (phase, action) = update_step(&mut settings, &ctx, phase, UpdateEvent::BinaryFetched { bytes: b"abc".to_vec() });
        assert!(matches!(phase, UpdatePhase::Done));
        match action {
            UpdateAction::Finish { save: true, event } => {
                if round == 0 {
                    let e = event.expect("the first failure is announced");
                    assert_eq!(e.kind, "failed");
                    assert_eq!(e.message, "yt-dlp update failed: checksum mismatch");
                } else {
                    assert!(event.is_none());
                }
            }
            _ => panic!("a mismatch ends the run"),
        }
    }
}

#[test]
fn an_update_run_handles_current_releases_and_errors() {
    let mut settings = default_settings("/data");
    let (_, action) = update_step(
        &mut settings,
        &linux_ctx(true),
        UpdatePhase::FetchingRelease,
        UpdateEvent::ReleaseFetched { tag: "2024.12.01".to_string(), assets: Vec::new() },
    );
    match action {
        UpdateAction::Finish { save: true, event: Some(e) } => assert_eq!(e.kind, "noop"),
        _ => panic!("a forced check reports that nothing is to do"),
    }

    let (_, action) = update_step(
        &mut settings,
        &linux_ctx(false),
        UpdatePhase::FetchingRelease,
        UpdateEvent::ReleaseFetchFailed { rate_limited: true, error: "403".to_string() },
    );
    assert!(settings.ytdlp_last_rate_limit);
    match action {
        UpdateAction::Finish { event: Some(e), .. } => {
            assert_eq!(e.message, "yt-dlp update check is rate-limited; backing off for one hour")
        }
        _ => panic!("a rate limit is reported"),
    }

    let before = settings.clone();
    let (phase, action) = update_step(&mut settings, &linux_ctx(false), UpdatePhase::Done, UpdateEvent::Installed);
    assert!(matches!(phase, UpdatePhase::Done));
    assert!(matches!(action, UpdateAction::Finish { save: false, event: None }));
    assert_eq!(settings.ytdlp_version, before.ytdlp_version);
}

#[test]
fn desktop_downloads_are_configured_from_request_and_settings() {
    let mut settings = default_settings("/data");
    settings.proxy.enabled = true;
    settings.proxy.url = "http://proxy:8080".to_string();
    let request = StartDownloadRequest {
        url: "https://x.org/f.bin".to_string(),
        file_path: String::new(),
        priority: Some("HIGH".to_string()),
        override_threads: Some(4),
        bytes_per_sec: Some(2048),
        quality: None,
        source: None,
        custom_headers: vec![("X-A".to_string(), "1".to_string())],
    };
    let cfg = desktop_download_config(request, "/data/downloads/f.bin".to_string(), &settings);
    assert_eq!(cfg.priority, Priority::High);
    assert_eq!(cfg.allowed_root, Some(settings.general.default_download_path.clone()));
    assert_eq!(cfg.override_threads, Some(4));
    assert_eq!(cfg.throttle.bytes_per_sec, Some(2048));
    assert_eq!(cfg.proxy_url, Some("http://proxy:8080".to_string()));
    assert_eq!(cfg.custom_headers.len(), 1);
}

#[test]
fn stopped_downloads_are_recorded() {
    assert!(matches!(
        media_stop_record(DownloadStatus::Complete, false, Some("/a.mp4".to_string()), None),
        StopRecord::Complete { final_path: Some(p) } if p == "/a.mp4"
    ));
    assert!(matches!(media_stop_record(DownloadStatus::Paused, true, None, None), StopRecord::Cancel));
    assert!(matches!(media_stop_record(DownloadStatus::Paused, false, None, None), StopRecord::Pause));
    assert!(matches!(
        media_stop_record(DownloadStatus::Failed, false, None, None),
        StopRecord::Fail { reason } if reason == "yt-dlp download failed"
    ));
    assert!(matches!(engine_stop_record(DownloadStatus::Paused, true), StopRecord::Cancel));
    assert!(matches!(engine_stop_record(DownloadStatus::Failed, true), StopRecord::Keep));
    assert_eq!(missing_output_message("/a.mp4"), "yt-dlp finished but final merged file was not found: /a.mp4");
}

#[test]
fn swap_keeps_the_active_binary_until_it_is_replaced() {
    let (remove, back_up, replace) = (SwapStep::RemoveBackup, SwapStep::BackUpActive, SwapStep::ReplaceActive);
    assert_eq!(swap_plan(true, true), vec![remove, back_up, replace]);
    assert_eq!(swap_plan(true, false), vec![back_up, replace]);
    assert_eq!(swap_plan(false, true), vec![remove, replace]);
    assert_eq!(swap_plan(false, false), vec![replace]);
}

#[test]
fn each_sidecar_is_prepared_once_per_canonical_path() {
    let mut prepared = PreparedSidecars::new();
    let path = "/Applications/Khukri.app/Contents/MacOS/yt-dlp";
    assert_eq!(prepared.prep(Platform::MacosArm64, path), SidecarPrep::StripAndSign);
    prepared.record(path);
    assert!(prepared.contains(path));
    assert_eq!(prepared.prep(Platform::MacosArm64, path), SidecarPrep::Ready);
    assert_eq!(prepared.prep(Platform::MacosX64, "/other/ffmpeg"), SidecarPrep::StripAndSign);
    assert_eq!(PreparedSidecars::new().prep(Platform::LinuxX64, path), SidecarPrep::Ready);
}
