//! yt-dlp media jobs started from the browser: quality selection, the
//! yt-dlp command line, and reading yt-dlp's output lines.

use vstd::prelude::*;
use crate::text::{opt_str, opt_view};
use crate::platform::Platform;
use crate::text::{
    cat, cat3, eq_str, from_chars, has_prefix, is_blank, lower, lowercase_chars, owned,
    starts_with, to_chars, trim, trim_chars, slice_vec,
};
use crate::trusted::{
    json_decode_string, path_file_stem, path_join, path_parent, spec_file_stem, spec_join,
    spec_json_string, spec_parent,
};

verus! {

pub open spec fn progress_prefix() -> Seq<char> {
    "__KHUKRI_PROGRESS__:"@
}

pub open spec fn final_path_prefix() -> Seq<char> {
    "__KHUKRI_FINAL_PATH__:"@
}

#[derive(Debug, Clone, Copy, PartialEq, Eq, Structural)]
pub enum MediaQuality {
    Best,
    P1080,
    P720,
    AudioOnly,
}

/// The quality a request names: `1080p`, `720p` or audio, any case, blanks
/// around ignored; everything else (and no quality) is `Best`.
pub open spec fn quality_for(raw: Option<Seq<char>>) -> MediaQuality {
    let s = lower(trim(
        match raw {
            Some(r) => r,
            None => "best"@,
        },
    ));
    if s == "1080p"@ {
        MediaQuality::P1080
    } else if s == "720p"@ {
        MediaQuality::P720
    } else if s == "audio-only"@ || s == "audio_only"@ || s == "audio"@ {
        MediaQuality::AudioOnly
    } else {
        MediaQuality::Best
    }
}

/// Law: the quality names a request may carry parse to the quality they
/// name, whatever their case and blanks around them: `audio-only`,
/// `audio_only` and `audio` to audio only, `1080p` and `720p` to those
/// heights, and `best` (or no quality at all) to the best available.
pub proof fn lemma_quality_names(raw: Seq<char>)
    ensures
        lower(trim(raw)) == "audio-only"@ ==> quality_for(Some(raw)) == MediaQuality::AudioOnly,
        lower(trim(raw)) == "audio_only"@ ==> quality_for(Some(raw)) == MediaQuality::AudioOnly,
        lower(trim(raw)) == "audio"@ ==> quality_for(Some(raw)) == MediaQuality::AudioOnly,
        lower(trim(raw)) == "1080p"@ ==> quality_for(Some(raw)) == MediaQuality::P1080,
        lower(trim(raw)) == "720p"@ ==> quality_for(Some(raw)) == MediaQuality::P720,
        lower(trim(raw)) == "best"@ ==> quality_for(Some(raw)) == MediaQuality::Best,
        quality_for(None) == MediaQuality::Best,
{
    reveal_strlit("audio-only");
    reveal_strlit("audio_only");
    reveal_strlit("audio");
    reveal_strlit("1080p");
    reveal_strlit("720p");
    reveal_strlit("best");
    assert("audio-only"@.len() == 10 && "audio_only"@.len() == 10);
    assert("1080p"@.len() == 5 && "720p"@.len() == 4);
    assert("audio"@ != "1080p"@) by {
        assert("audio"@[0] != "1080p"@[0]);
    }
    assert("best"@ != "720p"@ && "best"@ != "1080p"@ && "best"@ != "audio"@);
    assert("best"@ != "audio-only"@ && "best"@ != "audio_only"@);
    assert(lower(trim("best"@)) == "best"@) by {
        crate::text::lemma_trim_start_at("best"@, 0);
        crate::text::lemma_trim_end_at("best"@, 4);
        assert("best"@.subrange(0, 4) =~= "best"@);
        assert(lower("best"@) =~= "best"@);
    }
}

impl MediaQuality {
    pub fn parse(raw: Option<&str>) -> (r: Self)
        ensures
            r == quality_for(opt_str(raw)),
    {
        let s = match raw {
            Some(r) => r,
            None => "best",
        };
        let c = to_chars(s);
        let t = trim_chars(c.as_slice());
        let l = lowercase_chars(t.as_slice());
        let l = l.as_slice();
        if eq_str(l, "1080p") {
            MediaQuality::P1080
        } else if eq_str(l, "720p") {
            MediaQuality::P720
        } else if eq_str(l, "audio-only") || eq_str(l, "audio_only") || eq_str(l, "audio") {
            MediaQuality::AudioOnly
        } else {
            MediaQuality::Best
        }
    }

    /// The yt-dlp format selector when FFmpeg can merge streams.
    pub open spec fn selector(self) -> Seq<char> {
        match self {
            MediaQuality::Best => "best/bestvideo+bestaudio"@,
            MediaQuality::P1080 => "best[height<=1080]/bestvideo[height<=1080]+bestaudio/best"@,
            MediaQuality::P720 => "best[height<=720]/bestvideo[height<=720]+bestaudio/best"@,
            MediaQuality::AudioOnly => "bestaudio/best"@,
        }
    }

    pub fn format_selector(self) -> (r: &'static str)
        ensures
            r@ == self.selector(),
    {
        match self {
            MediaQuality::Best => "best/bestvideo+bestaudio",
            MediaQuality::P1080 => "best[height<=1080]/bestvideo[height<=1080]+bestaudio/best",
            MediaQuality::P720 => "best[height<=720]/bestvideo[height<=720]+bestaudio/best",
            MediaQuality::AudioOnly => "bestaudio/best",
        }
    }
}

/// The selector used without FFmpeg: progressive streams only.
pub open spec fn progressive_selector(q: MediaQuality) -> Seq<char> {
    match q {
        MediaQuality::Best => "best[acodec!=none][vcodec!=none]/best"@,
        MediaQuality::P1080 => "best[height<=1080][acodec!=none][vcodec!=none]/best[height<=1080]/best"@,
        MediaQuality::P720 => "best[height<=720][acodec!=none][vcodec!=none]/best[height<=720]/best"@,
        MediaQuality::AudioOnly => "bestaudio/best"@,
    }
}

pub open spec fn selector_for(q: MediaQuality, ffmpeg_available: bool) -> Seq<char> {
    if ffmpeg_available {
        q.selector()
    } else {
        progressive_selector(q)
    }
}

pub fn format_selector(quality: MediaQuality, ffmpeg_available: bool) -> (r: &'static str)
    ensures
        r@ == selector_for(quality, ffmpeg_available),
{
    if ffmpeg_available {
        return quality.format_selector();
    }
    match quality {
        MediaQuality::Best => "best[acodec!=none][vcodec!=none]/best",
        MediaQuality::P1080 => "best[height<=1080][acodec!=none][vcodec!=none]/best[height<=1080]/best",
        MediaQuality::P720 => "best[height<=720][acodec!=none][vcodec!=none]/best[height<=720]/best",
        MediaQuality::AudioOnly => "bestaudio/best",
    }
}

#[derive(Debug, Clone)]
pub struct YtDlpJob {
    pub id: String,
    pub url: String,
    pub output_path: String,
    pub quality: MediaQuality,
    pub headers: Vec<(String, String)>,
}

#[derive(Debug, Clone)]
pub struct YtDlpProgress {
    pub phase: String,
    pub bytes_done: u64,
    pub total_bytes: Option<u64>,
    pub speed_bps: u64,
    pub eta_seconds: Option<u64>,
}

#[derive(Debug, Clone)]
pub struct YtDlpOutcome {
    pub final_path: String,
}

/// Media requests go to yt-dlp: any request naming a quality, and requests
/// from the YouTube blade or a detected stream.
pub open spec fn uses_ytdlp(source: Option<Seq<char>>, quality: Option<Seq<char>>) -> bool {
    quality.is_some() || source == Some("blade"@) || source == Some("stream"@)
}

pub fn should_use_ytdlp(source: Option<&str>, quality: Option<&str>) -> (r: bool)
    ensures
        r == uses_ytdlp(opt_str(source), opt_str(quality)),
{
    if quality.is_some() {
        return true;
    }
    match source {
        Some(s) => {
            let c = to_chars(s);
            eq_str(c.as_slice(), "blade") || eq_str(c.as_slice(), "stream")
        },
        None => false,
    }
}

/// The non-blank file stem of `path`, else `download`.
pub open spec fn stem_or_default(path: Seq<char>) -> Seq<char> {
    match spec_file_stem(path) {
        Some(s) => if trim(s).len() == 0 {
            "download"@
        } else {
            s
        },
        None => "download"@,
    }
}

pub fn file_stem_or_default(path: &str) -> (r: String)
    ensures
        r@ == stem_or_default(path@),
{
    match path_file_stem(path) {
        Some(s) => {
            let c = to_chars(s.as_str());
            if is_blank(c.as_slice()) {
                owned("download")
            } else {
                s
            }
        },
        None => owned("download"),
    }
}

/// yt-dlp's output template: `<stem>.%(ext)s` in the output file's directory.
pub open spec fn template_for(output_path: Seq<char>) -> Seq<char> {
    let parent = match spec_parent(output_path) {
        Some(p) => p,
        None => "."@,
    };
    spec_join(parent, stem_or_default(output_path) + ".%(ext)s"@)
}

pub fn output_template(output_path: &str) -> (r: String)
    ensures
        r@ == template_for(output_path@),
{
    let parent = match path_parent(output_path) {
        Some(p) => p,
        None => owned("."),
    };
    let stem = file_stem_or_default(output_path);
    let name = cat(stem.as_str(), ".%(ext)s");
    path_join(parent.as_str(), name.as_str())
}

pub open spec fn string_views(v: Seq<String>) -> Seq<Seq<char>> {
    v.map_values(|s: String| s@)
}

pub open spec fn progress_template() -> Seq<char> {
    "download:__KHUKRI_PROGRESS__:{\"status\":\"%(progress.status)s\",\"downloaded_bytes\":\"%(progress.downloaded_bytes)s\",\"total_bytes\":\"%(progress.total_bytes)s\",\"speed\":\"%(progress.speed)s\",\"eta\":\"%(progress.eta)s\"}"@
}

/// `--add-header name:value` for each header, in order.
pub open spec fn header_args(h: Seq<(String, String)>) -> Seq<Seq<char>>
    decreases h.len(),
{
    if h.len() == 0 {
        Seq::empty()
    } else {
        header_args(h.drop_last()) + seq!["--add-header"@, h.last().0@ + ":"@ + h.last().1@]
    }
}

/// The yt-dlp command line for `job`; `ffmpeg_binary` is the FFmpeg found
/// for merging, if any.
pub open spec fn ytdlp_args(job: YtDlpJob, ffmpeg_binary: Option<Seq<char>>) -> Seq<Seq<char>> {
    let base = seq![
        "--no-config"@,
        "--newline"@,
        "--progress"@,
        "--progress-template"@,
        progress_template(),
        "--print"@,
        "after_move:__KHUKRI_FINAL_PATH__:%(filepath)j"@,
        "-o"@,
        template_for(job.output_path@),
        "-f"@,
        selector_for(job.quality, ffmpeg_binary.is_some()),
    ];
    let with_ffmpeg = match ffmpeg_binary {
        Some(f) => {
            let loc = match spec_parent(f) {
                Some(d) => seq!["--ffmpeg-location"@, d],
                None => Seq::empty(),
            };
            let merge = if job.quality is AudioOnly {
                Seq::empty()
            } else {
                seq!["--merge-output-format"@, "mp4"@]
            };
            base + loc + merge
        },
        None => base,
    };
    let with_audio = if job.quality is AudioOnly {
        with_ffmpeg + seq!["-x"@, "--audio-format"@, "mp3"@]
    } else {
        with_ffmpeg
    };
    with_audio + header_args(job.headers@) + seq![job.url@]
}

fn push_str(v: &mut Vec<String>, s: &str)
    ensures
        final(v)@.len() == old(v)@.len() + 1,
        string_views(final(v)@) == string_views(old(v)@).push(s@),
{
    v.push(owned(s));
    assert(string_views(v@) =~= string_views(old(v)@).push(s@));
}

/// Appends `s`, keeping track of the texts held.
pub fn push_string(v: &mut Vec<String>, s: String)
    ensures
        string_views(final(v)@) == string_views(old(v)@).push(s@),
{
    let ghost sv = s@;
    v.push(s);
    assert(string_views(v@) =~= string_views(old(v)@).push(sv));
}

/// The arguments yt-dlp is started with.
pub fn build_arguments(job: &YtDlpJob, ffmpeg_binary: Option<&str>) -> (r: Vec<String>)
    ensures
        string_views(r@) == ytdlp_args(*job, opt_str(ffmpeg_binary)),
{
    let mut args: Vec<String> = Vec::new();
    push_str(&mut args, "--no-config");
    push_str(&mut args, "--newline");
    push_str(&mut args, "--progress");
    push_str(&mut args, "--progress-template");
    push_str(
        &mut args,
        "download:__KHUKRI_PROGRESS__:{\"status\":\"%(progress.status)s\",\"downloaded_bytes\":\"%(progress.downloaded_bytes)s\",\"total_bytes\":\"%(progress.total_bytes)s\",\"speed\":\"%(progress.speed)s\",\"eta\":\"%(progress.eta)s\"}",
    );
    push_str(&mut args, "--print");
    push_str(&mut args, "after_move:__KHUKRI_FINAL_PATH__:%(filepath)j");
    push_str(&mut args, "-o");
    push_string(&mut args, output_template(job.output_path.as_str()));
    push_str(&mut args, "-f");
    push_str(&mut args, format_selector(job.quality, ffmpeg_binary.is_some()));
    let ghost base = string_views(args@);
    if let Some(ffmpeg) = ffmpeg_binary {
        if let Some(dir) = path_parent(ffmpeg) {
            push_str(&mut args, "--ffmpeg-location");
            push_string(&mut args, dir);
        }
        if !(job.quality == MediaQuality::AudioOnly) {
            push_str(&mut args, "--merge-output-format");
            push_str(&mut args, "mp4");
        }
    }
    if job.quality == MediaQuality::AudioOnly {
        push_str(&mut args, "-x");
        push_str(&mut args, "--audio-format");
        push_str(&mut args, "mp3");
    }
    let ghost before_headers = string_views(args@);
    let mut i: usize = 0;
    while i < job.headers.len()
        invariant
            i <= job.headers@.len(),
            string_views(args@) == before_headers + header_args(job.headers@.subrange(0, i as int)),
        decreases job.headers@.len() - i,
    {
        let ghost prefix = job.headers@.subrange(0, (i + 1) as int);
        assert(prefix.drop_last() =~= job.headers@.subrange(0, i as int));
        push_str(&mut args, "--add-header");
        let pair = cat3(job.headers[i].0.as_str(), ":", job.headers[i].1.as_str());
        push_string(&mut args, pair);
        i = i + 1;
    }
    assert(job.headers@.subrange(0, job.headers@.len() as int) =~= job.headers@);
    push_string(&mut args, job.url.clone());
    assert(string_views(args@) =~= ytdlp_args(*job, opt_str(ffmpeg_binary)));
    args
}

// ── Output lines ─────────────────────────────────────────────────────────────

/// The JSON after the progress marker of a (trimmed) output line.
pub open spec fn progress_payload_of(line: Seq<char>) -> Option<Seq<char>> {
    let t = trim(line);
    if starts_with(t, progress_prefix()) {
        Some(t.subrange(progress_prefix().len() as int, t.len() as int))
    } else {
        None
    }
}

/// The part of a trimmed line after `prefix`, if the line starts with it.
fn strip_prefix_trimmed(line: &str, prefix: &str) -> (r: Option<String>)
    ensures
        starts_with(trim(line@), prefix@) ==> r.is_some() && r.unwrap()@ == trim(line@).subrange(
            prefix@.len() as int,
            trim(line@).len() as int,
        ),
        !starts_with(trim(line@), prefix@) ==> r.is_none(),
{
    let c = to_chars(line);
    let t = trim_chars(c.as_slice());
    if has_prefix(t.as_slice(), prefix) {
        let p = to_chars(prefix);
        let rest = slice_vec(t.as_slice(), p.len(), t.len());
        Some(from_chars(rest.as_slice()))
    } else {
        None
    }
}

/// The JSON payload of a progress line, if `line` is one.
pub fn progress_payload(line: &str) -> (r: Option<String>)
    ensures
        opt_view(r) == progress_payload_of(line@),
{
    strip_prefix_trimmed(line, "__KHUKRI_PROGRESS__:")
}

/// The file path of a final-path line: the JSON string after the marker.
pub open spec fn final_path_of(line: Seq<char>) -> Option<Seq<char>> {
    let t = trim(line);
    if starts_with(t, final_path_prefix()) {
        spec_json_string(t.subrange(final_path_prefix().len() as int, t.len() as int))
    } else {
        None
    }
}

pub fn parse_final_path_line(line: &str) -> (r: Option<String>)
    ensures
        opt_view(r) == final_path_of(line@),
{
    match strip_prefix_trimmed(line, "__KHUKRI_FINAL_PATH__:") {
        Some(payload) => json_decode_string(payload.as_str()),
        None => None,
    }
}

/// A line worth reporting as failure detail: any non-blank line that is not
/// a progress or final-path line, trimmed.
pub open spec fn detail_of(line: Seq<char>) -> Option<Seq<char>> {
    let t = trim(line);
    if t.len() == 0 || starts_with(t, progress_prefix()) || starts_with(t, final_path_prefix()) {
        None
    } else {
        Some(t)
    }
}

pub fn parse_detail_line(line: &str) -> (r: Option<String>)
    ensures
        opt_view(r) == detail_of(line@),
{
    let c = to_chars(line);
    let t = trim_chars(c.as_slice());
    if t.len() == 0 || has_prefix(t.as_slice(), "__KHUKRI_PROGRESS__:") || has_prefix(
        t.as_slice(),
        "__KHUKRI_FINAL_PATH__:",
    ) {
        None
    } else {
        Some(from_chars(t.as_slice()))
    }
}

/// The failure message for a yt-dlp exit `status`, with the last detail line
/// when there is a non-empty one.
pub open spec fn failure_message(status: Seq<char>, detail: Option<Seq<char>>) -> Seq<char> {
    match detail {
        Some(d) => if d.len() > 0 {
            "yt-dlp failed ("@ + status + "): "@ + d
        } else {
            "yt-dlp exited with status "@ + status
        },
        None => "yt-dlp exited with status "@ + status,
    }
}

pub fn format_media_failure(status: &str, detail: Option<&str>) -> (r: String)
    ensures
        r@ == failure_message(status@, opt_str(detail)),
{
    match detail {
        Some(d) => {
            if !d.is_empty() {
                let mut s = cat3("yt-dlp failed (", status, "): ");
                s.append(d);
                s
            } else {
                cat("yt-dlp exited with status ", status)
            }
        },
        None => cat("yt-dlp exited with status ", status),
    }
}

/// How a numeric field of yt-dlp's progress JSON reads.
#[derive(Debug, Clone)]
pub enum NumberField {
    /// Missing, blank, `NA` or `none` (any case).
    Absent,
    /// A `u64` in decimal.
    Integer(u64),
    /// Some other text (trimmed), such as a fractional number.
    Other(String),
}

pub open spec fn number_field_of(value: Option<Seq<char>>) -> NumberField {
    match value {
        None => NumberField::Absent,
        Some(v) => {
            let t = trim(v);
            if t.len() == 0 || lower(t) == "na"@ || lower(t) == "none"@ {
                NumberField::Absent
            } else if crate::text::spec_parse_u64(t).is_some() {
                NumberField::Integer(crate::text::spec_parse_u64(t).unwrap())
            } else {
                NumberField::Other(arbitrary())
            }
        },
    }
}

/// Reads a numeric progress field; `Other` carries the trimmed text.
pub fn classify_number(value: Option<&str>) -> (r: NumberField)
    ensures
        match (r, number_field_of(opt_str(value))) {
            (NumberField::Absent, NumberField::Absent) => true,
            (NumberField::Integer(a), NumberField::Integer(b)) => a == b,
            (NumberField::Other(s), NumberField::Other(_)) => s@ == trim(value.unwrap()@),
            _ => false,
        },
{
    match value {
        None => NumberField::Absent,
        Some(v) => {
            let c = to_chars(v);
            let t = trim_chars(c.as_slice());
            let l = lowercase_chars(t.as_slice());
            if t.len() == 0 || eq_str(l.as_slice(), "na") || eq_str(l.as_slice(), "none") {
                return NumberField::Absent;
            }
            match crate::text::parse_u64(t.as_slice()) {
                Some(n) => NumberField::Integer(n),
                None => NumberField::Other(from_chars(t.as_slice())),
            }
        },
    }
}

pub open spec fn platform_sidecar_name_spec(platform: Platform) -> Result<Seq<char>, Seq<char>> {
    match platform {
        Platform::WindowsX64 => Ok("yt-dlp-x86_64-pc-windows-msvc.exe"@),
        Platform::LinuxX64 => Ok("yt-dlp-x86_64-unknown-linux-gnu"@),
        Platform::MacosX64 => Ok("yt-dlp-x86_64-apple-darwin"@),
        Platform::MacosArm64 => Ok("yt-dlp-aarch64-apple-darwin"@),
        Platform::Other => Err("yt-dlp sidecar is not configured for this target triple"@),
    }
}

/// The yt-dlp sidecar's file name for a platform.
pub fn platform_sidecar_name(platform: Platform) -> (r: Result<&'static str, String>)
    ensures
        match platform {
            Platform::WindowsX64 => r matches Ok(s) && s@ == "yt-dlp-x86_64-pc-windows-msvc.exe"@,
            Platform::LinuxX64 => r matches Ok(s) && s@ == "yt-dlp-x86_64-unknown-linux-gnu"@,
            Platform::MacosX64 => r matches Ok(s) && s@ == "yt-dlp-x86_64-apple-darwin"@,
            Platform::MacosArm64 => r matches Ok(s) && s@ == "yt-dlp-aarch64-apple-darwin"@,
            Platform::Other => r matches Err(e) && e@ == "yt-dlp sidecar is not configured for this target triple"@,
        },
{
    match platform {
        Platform::WindowsX64 => Ok("yt-dlp-x86_64-pc-windows-msvc.exe"),
        Platform::LinuxX64 => Ok("yt-dlp-x86_64-unknown-linux-gnu"),
        Platform::MacosX64 => Ok("yt-dlp-x86_64-apple-darwin"),
        Platform::MacosArm64 => Ok("yt-dlp-aarch64-apple-darwin"),
        Platform::Other => Err(owned("yt-dlp sidecar is not configured for this target triple")),
    }
}

/// The FFmpeg sidecar's file name for a platform.
pub fn platform_ffmpeg_name(platform: Platform) -> (r: Result<&'static str, String>)
    ensures
        match platform {
            Platform::WindowsX64 => r matches Ok(s) && s@ == "ffmpeg-x86_64-pc-windows-msvc.exe"@,
            Platform::LinuxX64 => r matches Ok(s) && s@ == "ffmpeg-x86_64-unknown-linux-gnu"@,
            Platform::MacosX64 => r matches Ok(s) && s@ == "ffmpeg-x86_64-apple-darwin"@,
            Platform::MacosArm64 => r matches Ok(s) && s@ == "ffmpeg-aarch64-apple-darwin"@,
            Platform::Other => r matches Err(e) && e@ == "ffmpeg sidecar is not configured for this target triple"@,
        },
{
    match platform {
        Platform::WindowsX64 => Ok("ffmpeg-x86_64-pc-windows-msvc.exe"),
        Platform::LinuxX64 => Ok("ffmpeg-x86_64-unknown-linux-gnu"),
        Platform::MacosX64 => Ok("ffmpeg-x86_64-apple-darwin"),
        Platform::MacosArm64 => Ok("ffmpeg-aarch64-apple-darwin"),
        Platform::Other => Err(owned("ffmpeg sidecar is not configured for this target triple")),
    }
}

/// Where the bridge looks for a sidecar binary named `name`, in order: the
/// managed sidecar directory, next to the executable and in its `sidecar`
/// directory, the same one and two directories up, and `sidecar` under the
/// working directory (when known).
pub open spec fn sidecar_candidates(
    data_dir: Seq<char>,
    exe: Seq<char>,
    cwd: Option<Seq<char>>,
    name: Seq<char>,
) -> Seq<Seq<char>> {
    let first = seq![spec_join(spec_join(data_dir, "sidecar"@), name)];
    let from_exe = match spec_parent(exe) {
        Some(dir) => {
            let here = seq![spec_join(dir, name), spec_join(spec_join(dir, "sidecar"@), name)];
            match spec_parent(dir) {
                Some(target) => {
                    let up = seq![spec_join(target, name), spec_join(spec_join(target, "sidecar"@), name)];
                    match spec_parent(target) {
                        Some(root) => here + up + seq![spec_join(spec_join(root, "sidecar"@), name)],
                        None => here + up,
                    }
                },
                None => here,
            }
        },
        None => Seq::empty(),
    };
    let from_cwd = match cwd {
        Some(c) => seq![spec_join(spec_join(c, "sidecar"@), name)],
        None => Seq::empty(),
    };
    first + from_exe + from_cwd
}

fn sidecar_in(dir: &str, name: &str) -> (r: String)
    ensures
        r@ == spec_join(spec_join(dir@, "sidecar"@), name@),
{
    let s = path_join(dir, "sidecar");
    path_join(s.as_str(), name)
}

pub fn sidecar_candidate_paths(data_dir: &str, exe: &str, cwd: Option<&str>, name: &str) -> (r: Vec<String>)
    ensures
        string_views(r@) == sidecar_candidates(data_dir@, exe@, opt_str(cwd), name@),
{
    let mut v: Vec<String> = Vec::new();
    push_string(&mut v, sidecar_in(data_dir, name));
    if let Some(dir) = path_parent(exe) {
        push_string(&mut v, path_join(dir.as_str(), name));
        push_string(&mut v, sidecar_in(dir.as_str(), name));
        if let Some(target) = path_parent(dir.as_str()) {
            push_string(&mut v, path_join(target.as_str(), name));
            push_string(&mut v, sidecar_in(target.as_str(), name));
            if let Some(root) = path_parent(target.as_str()) {
                push_string(&mut v, sidecar_in(root.as_str(), name));
            }
        }
    }
    if let Some(c) = cwd {
        push_string(&mut v, sidecar_in(c, name));
    }
    assert(string_views(v@) =~= sidecar_candidates(data_dir@, exe@, opt_str(cwd), name@));
    v
}

} // verus!
