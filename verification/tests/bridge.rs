use khukri::bridge::events::{
    media_progress_event, preserved_status, progress_event, scheduler_window_open, simple_event, status_label,
};
use khukri::bridge::media::{
    build_arguments, classify_number, format_media_failure, format_selector, output_template,
    parse_detail_line, parse_final_path_line, platform_ffmpeg_name, platform_sidecar_name, progress_payload,
    should_use_ytdlp, MediaQuality, NumberField, YtDlpJob, YtDlpProgress,
};
use khukri::bridge::dispatch::{bridge_download_config, output_path_in, resolved_filename};
use khukri::bridge::paths::sqlite_url;
use khukri::desktop::settings::default_settings;
use khukri::bridge::protocol::{decode_frame, decode_length, encode_frame, encode_length};
use khukri::bridge::registration::{requested, validate_extension_origin};
use khukri::bridge::request::{browser_headers, filename_from_url, has_distinct_names, sanitize_filename};
use khukri::download::{initial_progress, DownloadStatus};
use khukri::platform::Platform;

fn sample_job(quality: MediaQuality) -> YtDlpJob {
    YtDlpJob {
        id: "job-1".to_string(),
        url: "https://example.com/watch?v=abc".to_string(),
        output_path: "D:/downloads/sample.bin".to_string(),
        quality,
        headers: vec![("Referer".to_string(), "https://example.com".to_string())],
    }
}

#[test]
fn quality_defaults_to_best() {
    assert_eq!(MediaQuality::parse(None), MediaQuality::Best);
    assert_eq!(MediaQuality::parse(Some("unknown")), MediaQuality::Best);
}

#[test]
fn quality_specific_arguments_are_built() {
    let audio_args = build_arguments(&sample_job(MediaQuality::AudioOnly), Some("ffmpeg"));
    assert!(audio_args.windows(2).any(|part| part == ["-x", "--audio-format"]));
    assert!(audio_args.contains(&"mp3".to_string()));

    let hd_args = build_arguments(&sample_job(MediaQuality::P1080), Some("ffmpeg"));
    assert!(hd_args.contains(&"best[height<=1080]/bestvideo[height<=1080]+bestaudio/best".to_string()));
}

#[test]
fn final_path_lines_parse() {
    let path = parse_final_path_line("__KHUKRI_FINAL_PATH__:\"D:\\\\downloads\\\\sample.mp4\"")
        .expect("path should parse");
    assert_eq!(path, "D:\\downloads\\sample.mp4");
}

#[test]
fn stream_and_blade_sources_use_ytdlp() {
    assert!(should_use_ytdlp(Some("blade"), None));
    assert!(should_use_ytdlp(Some("stream"), None));
    assert!(should_use_ytdlp(Some("browser"), Some("720p")));
    assert!(!should_use_ytdlp(Some("browser"), None));
}

#[test]
fn selector_falls_back_to_progressive_when_ffmpeg_missing() {
    assert_eq!(format_selector(MediaQuality::Best, false), "best[acodec!=none][vcodec!=none]/best");
    assert_eq!(
        format_selector(MediaQuality::P1080, false),
        "best[height<=1080][acodec!=none][vcodec!=none]/best[height<=1080]/best"
    );
}

#[test]
fn placeholder_origin_is_rejected() {
    assert!(validate_extension_origin("chrome-extension://replace-with-your-extension-id/").is_err());
    assert!(validate_extension_origin("chrome-extension://replace-with-your-extension-id/extra").is_err());
}

#[test]
fn valid_chrome_origin_is_accepted() {
    assert!(validate_extension_origin("chrome-extension://abcdefghijklmnopabcdefghijklmnop/").is_ok());
}

#[test]
fn valid_moz_origin_is_accepted() {
    assert!(validate_extension_origin("moz-extension://some-uuid/").is_ok());
}

#[test]
fn http_origin_is_rejected() {
    assert!(validate_extension_origin("https://evil.com/").is_err());
}

#[test]
fn blocked_headers_are_stripped() {
    let raw = vec![
        ("Host".to_string(), "evil.com".to_string()),
        ("Content-Length".to_string(), "9999".to_string()),
        ("Connection".to_string(), "keep-alive".to_string()),
        ("Authorization".to_string(), "Bearer tok".to_string()),
        ("Cookie".to_string(), "SID=secret".to_string()),
        ("Set-Cookie".to_string(), "SID=secret".to_string()),
        ("Transfer-Encoding".to_string(), "chunked".to_string()),
        ("X-Custom".to_string(), "ok".to_string()),
    ];
    let result = browser_headers(None, raw);
    let names: Vec<String> = result.iter().map(|(key, _)| key.to_ascii_lowercase()).collect();
    for blocked in ["host", "content-length", "connection", "authorization", "cookie", "set-cookie", "transfer-encoding"] {
        assert!(!names.contains(&blocked.to_string()));
    }
    assert!(names.contains(&"x-custom".to_string()));
}

#[test]
fn header_names_must_be_distinct() {
    let pair = |k: &str| (k.to_string(), "v".to_string());
    assert!(has_distinct_names(&vec![]));
    assert!(has_distinct_names(&vec![pair("A"), pair("B"), pair("a")]));
    assert!(!has_distinct_names(&vec![pair("A"), pair("B"), pair("A")]));
}

#[test]
fn referer_is_injected_only_when_absent() {
    let result = browser_headers(Some("https://example.com/page"), Vec::new());
    assert_eq!(result[0].1, "https://example.com/page");

    let raw = vec![("Referer".to_string(), "https://custom.com/".to_string())];
    let result = browser_headers(Some("https://page.com/"), raw);
    assert_eq!(result.len(), 1);
    assert_eq!(result[0].1, "https://custom.com/");
}

#[test]
fn filenames_are_sanitized() {
    for (input, expected) in [
        ("../etc/passwd", "passwd"),
        ("/etc/passwd", "passwd"),
        ("file:name?.bin", "file_name_.bin"),
        ("", "download.bin"),
        ("   ", "download.bin"),
    ] {
        assert_eq!(sanitize_filename(input), expected);
    }
}

#[test]
fn filenames_are_derived_without_query_or_fragment() {
    for (url, expected) in [
        ("https://example.com/file.zip?token=abc", "file.zip"),
        ("https://example.com/file.zip#section", "file.zip"),
        ("https://example.com/file.zip?token=abc#anchor", "file.zip"),
        ("https://example.com/", "download.bin"),
        ("https://example.com/dir/file.zip/", "file.zip"),
        ("https://example.com", "download.bin"),
        ("https://example.com/a/..", "download.bin"),
    ] {
        assert_eq!(filename_from_url(url), expected);
    }
}

#[test]
fn sanitizing_twice_changes_nothing() {
    for input in ["../etc/passwd", "a<b>c:d|e*f", "..", ".", "x/..", "  ", "report.pdf", "C:\\x\\y.txt"] {
        let once = sanitize_filename(input);
        assert_ne!(once, ".");
        assert_ne!(once, "..");
        assert_eq!(sanitize_filename(&once), once);
    }
    for url in ["https://example.com/f%20g.zip?x=1#y", "https://example.com/a:b", "https://h/p/q#frag"] {
        let name = filename_from_url(url);
        assert!(!name.contains('?') && !name.contains('#') && !name.contains('/'));
        assert_eq!(sanitize_filename(&name), name);
    }
}

// ── Framing ──────────────────────────────────────────────────────────────────

#[test]
fn frame_length_is_little_endian() {
    assert_eq!(encode_length(258), [2, 1, 0, 0]);
    assert_eq!(decode_length([2, 1, 0, 0]), 258);
    assert_eq!(decode_length(encode_length(0x0102_0304)), 0x0102_0304);
}

#[test]
fn encoded_frame_decodes_to_its_body() {
    let body = b"{\"type\":\"ping\"}".to_vec();
    let framed = encode_frame(&body);
    assert_eq!(framed.len(), body.len() + 4);
    assert_eq!(&framed[0..4], &[15, 0, 0, 0]);
    assert_eq!(decode_frame(&framed), Some(body.clone()));

    let mut two = framed.clone();
    two.extend(encode_frame(b"second"));
    assert_eq!(decode_frame(&two), Some(body));
}

#[test]
fn short_frames_are_not_decoded() {
    assert_eq!(decode_frame(&[5, 0, 0]), None);
    assert_eq!(decode_frame(&[5, 0, 0, 0, b'a']), None);
}

// ── Registration ─────────────────────────────────────────────────────────────

#[test]
fn registration_flags_are_recognized() {
    assert!(requested(&["bridge".to_string(), "--register".to_string()]));
    assert!(requested(&["bridge".to_string(), "--repair".to_string()]));
    assert!(!requested(&["bridge".to_string(), "--help".to_string()]));
}

#[test]
fn origin_errors_name_the_origin() {
    let e = validate_extension_origin("https://evil.com/").unwrap_err();
    assert_eq!(e, "KHUKRI_EXTENSION_ORIGIN must start with chrome-extension:// or moz-extension://, got: https://evil.com/");
}

// ── Media helpers ────────────────────────────────────────────────────────────

#[test]
fn quality_names_are_recognized() {
    assert_eq!(MediaQuality::parse(Some(" 1080P ")), MediaQuality::P1080);
    assert_eq!(MediaQuality::parse(Some("720p")), MediaQuality::P720);
    assert_eq!(MediaQuality::parse(Some("audio_only")), MediaQuality::AudioOnly);
    assert_eq!(MediaQuality::parse(Some("audio")), MediaQuality::AudioOnly);
}

#[test]
fn output_template_keeps_the_stem() {
    assert_eq!(output_template("D:/downloads/sample.bin"), "D:/downloads/sample.%(ext)s");
}

#[test]
fn progress_lines_yield_their_payload() {
    assert_eq!(progress_payload("  __KHUKRI_PROGRESS__:{\"a\":1}  "), Some("{\"a\":1}".to_string()));
    assert_eq!(progress_payload("[download] 10%"), None);
}

#[test]
fn number_fields_are_classified() {
    assert!(matches!(classify_number(None), NumberField::Absent));
    assert!(matches!(classify_number(Some(" NA ")), NumberField::Absent));
    assert!(matches!(classify_number(Some("none")), NumberField::Absent));
    assert!(matches!(classify_number(Some(" 1048576 ")), NumberField::Integer(1_048_576)));
    match classify_number(Some(" 12.5 ")) {
        NumberField::Other(s) => assert_eq!(s, "12.5"),
        _ => panic!("a fraction is not an integer"),
    }
}

#[test]
fn detail_lines_skip_markers_and_blanks() {
    assert_eq!(parse_detail_line("  ERROR: Unsupported URL  "), Some("ERROR: Unsupported URL".to_string()));
    assert_eq!(parse_detail_line("   "), None);
    assert_eq!(parse_detail_line("__KHUKRI_PROGRESS__:{}"), None);
    assert_eq!(parse_detail_line("__KHUKRI_FINAL_PATH__:\"x\""), None);
}

#[test]
fn media_failures_mention_the_detail() {
    assert_eq!(format_media_failure("1", Some("boom")), "yt-dlp failed (1): boom");
    assert_eq!(format_media_failure("1", Some("")), "yt-dlp exited with status 1");
    assert_eq!(format_media_failure("2", None), "yt-dlp exited with status 2");
}

#[test]
fn platform_binaries_are_named() {
    assert_eq!(platform_sidecar_name(Platform::LinuxX64), Ok("yt-dlp-x86_64-unknown-linux-gnu"));
    assert!(platform_sidecar_name(Platform::Other).is_err());
    assert_eq!(platform_ffmpeg_name(Platform::WindowsX64), Ok("ffmpeg-x86_64-pc-windows-msvc.exe"));
}

// ── Events ───────────────────────────────────────────────────────────────────

#[test]
fn status_labels_are_lower_case() {
    assert_eq!(status_label(DownloadStatus::Queued), "queued");
    assert_eq!(status_label(DownloadStatus::Complete), "complete");
    assert_eq!(status_label(DownloadStatus::Failed), "failed");
}

#[test]
fn progress_events_copy_the_progress() {
    let mut p = initial_progress("abc".to_string());
    p.bytes_done = 10;
    let e = progress_event(&p, Some("browser".to_string()), None);
    assert_eq!(e.kind, "progress");
    assert_eq!(e.id, "abc");
    assert_eq!(e.status, "queued");
    assert_eq!(e.bytes_done, 10);
    assert_eq!(e.source, Some("browser".to_string()));
    assert_eq!(e.message, None);

    let mp = YtDlpProgress { phase: "downloading".to_string(), bytes_done: 5, total_bytes: Some(9), speed_bps: 2, eta_seconds: Some(2) };
    let e = media_progress_event("m1", &mp, None, None);
    assert_eq!(e.status, "active");
    assert_eq!(e.segments_done, 0);
    assert_eq!(e.message, Some("downloading".to_string()));

    let e = simple_event("error", "bridge".to_string(), "failed", None, None, Some("bad".to_string()));
    assert_eq!(e.kind, "error");
    assert_eq!(e.bytes_done, 0);
}

#[test]
fn scheduler_window_wraps_midnight() {
    assert!(scheduler_window_open(false, 9, 17, 3));
    assert!(scheduler_window_open(true, 9, 17, 9));
    assert!(!scheduler_window_open(true, 9, 17, 18));
    assert!(scheduler_window_open(true, 22, 6, 23));
    assert!(scheduler_window_open(true, 22, 6, 2));
    assert!(!scheduler_window_open(true, 22, 6, 12));
}

#[test]
fn finished_statuses_are_preserved() {
    assert_eq!(preserved_status(Some("complete")), Some("complete"));
    assert_eq!(preserved_status(None), Some("cancelled"));
    assert_eq!(preserved_status(Some("active")), None);
}

#[test]
fn sqlite_url_opens_for_writing() {
    assert_eq!(sqlite_url("/data/state.db"), "sqlite:/data/state.db?mode=rwc");
}

#[test]
fn browser_downloads_land_in_the_output_root() {
    assert_eq!(resolved_filename(Some("../a.zip"), "https://x.org/b.zip"), "a.zip");
    assert_eq!(resolved_filename(None, "https://x.org/b.zip?t=1"), "b.zip");
    assert_eq!(output_path_in("/dl", None, "https://x.org/files/c.iso"), "/dl/c.iso");

    let mut settings = default_settings("/data");
    settings.proxy.enabled = true;
    settings.proxy.url = " socks5://127.0.0.1:9050 ".to_string();
    settings.performance.bandwidth_cap = Some(1024);
    settings.performance.thread_override = Some(8);
    let headers = vec![("X-A".to_string(), "1".to_string())];
    let cfg = bridge_download_config("https://x.org/c.iso".to_string(), "/dl", "/dl/c.iso".to_string(), headers.clone(), &settings);
    assert_eq!(cfg.allowed_root, Some("/dl".to_string()));
    assert_eq!(cfg.proxy_url, Some("socks5://127.0.0.1:9050".to_string()));
    assert_eq!(cfg.throttle.bytes_per_sec, Some(1024));
    assert_eq!(cfg.override_threads, Some(8));
    assert_eq!(cfg.custom_headers, headers);
    assert_eq!(cfg.file_path, "/dl/c.iso");
}
