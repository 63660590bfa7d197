//! Media jobs the desktop app runs with yt-dlp: quality selection, the
//! command line, where the output lands, and how progress is reported.

use vstd::prelude::*;
use crate::text::opt_str;
use crate::bridge::media::{
    progressive_selector, stem_or_default, file_stem_or_default, header_args, string_views,
    quality_for, push_string,
};
use crate::download::{DownloadProgress, DownloadStatus};
use crate::platform::Platform;
use crate::text::{cat, cat3, owned};
use crate::trusted::{path_join, path_parent, spec_join, spec_parent};

verus! {

#[derive(Debug, Clone, Copy, PartialEq, Eq, Structural)]
pub enum MediaQuality {
    Best,
    P1080,
    P720,
    AudioOnly,
}

impl MediaQuality {
    /// The same quality reading as the bridge's: `1080p`, `720p`, audio, else best.
    pub fn parse(raw: Option<&str>) -> (r: Self)
        ensures
            r == Self::from_bridge(quality_for(opt_str(raw))),
    {
        match crate::bridge::media::MediaQuality::parse(raw) {
            crate::bridge::media::MediaQuality::Best => MediaQuality::Best,
            crate::bridge::media::MediaQuality::P1080 => MediaQuality::P1080,
            crate::bridge::media::MediaQuality::P720 => MediaQuality::P720,
            crate::bridge::media::MediaQuality::AudioOnly => MediaQuality::AudioOnly,
        }
    }

    pub open spec fn from_bridge(q: crate::bridge::media::MediaQuality) -> Self {
        match q {
            crate::bridge::media::MediaQuality::Best => MediaQuality::Best,
            crate::bridge::media::MediaQuality::P1080 => MediaQuality::P1080,
            crate::bridge::media::MediaQuality::P720 => MediaQuality::P720,
            crate::bridge::media::MediaQuality::AudioOnly => MediaQuality::AudioOnly,
        }
    }

    pub open spec fn as_bridge(self) -> crate::bridge::media::MediaQuality {
        match self {
            MediaQuality::Best => crate::bridge::media::MediaQuality::Best,
            MediaQuality::P1080 => crate::bridge::media::MediaQuality::P1080,
            MediaQuality::P720 => crate::bridge::media::MediaQuality::P720,
            MediaQuality::AudioOnly => crate::bridge::media::MediaQuality::AudioOnly,
        }
    }

    /// The selector when FFmpeg can merge: H.264 video with M4A audio
    /// preferred, capped at the chosen height.
    pub open spec fn selector(self) -> Seq<char> {
        match self {
            MediaQuality::Best => "bestvideo[vcodec^=avc1]+bestaudio[ext=m4a]/bestvideo[ext=mp4]+bestaudio[ext=m4a]/bestvideo+bestaudio/best"@,
            MediaQuality::P1080 => "bestvideo[vcodec^=avc1][height<=1080]+bestaudio[ext=m4a]/bestvideo[ext=mp4][height<=1080]+bestaudio[ext=m4a]/bestvideo[height<=1080]+bestaudio/best[height<=1080][acodec!=none]/best"@,
            MediaQuality::P720 => "bestvideo[vcodec^=avc1][height<=720]+bestaudio[ext=m4a]/bestvideo[ext=mp4][height<=720]+bestaudio[ext=m4a]/bestvideo[height<=720]+bestaudio/best[height<=720][acodec!=none]/best"@,
            MediaQuality::AudioOnly => "bestaudio/best"@,
        }
    }

    pub fn format_selector(self) -> (r: &'static str)
        ensures
            r@ == self.selector(),
    {
        match self {
            MediaQuality::Best => "bestvideo[vcodec^=avc1]+bestaudio[ext=m4a]/bestvideo[ext=mp4]+bestaudio[ext=m4a]/bestvideo+bestaudio/best",
            MediaQuality::P1080 => "bestvideo[vcodec^=avc1][height<=1080]+bestaudio[ext=m4a]/bestvideo[ext=mp4][height<=1080]+bestaudio[ext=m4a]/bestvideo[height<=1080]+bestaudio/best[height<=1080][acodec!=none]/best",
            MediaQuality::P720 => "bestvideo[vcodec^=avc1][height<=720]+bestaudio[ext=m4a]/bestvideo[ext=mp4][height<=720]+bestaudio[ext=m4a]/bestvideo[height<=720]+bestaudio/best[height<=720][acodec!=none]/best",
            MediaQuality::AudioOnly => "bestaudio/best",
        }
    }
}

pub open spec fn selector_for(q: MediaQuality, ffmpeg_available: bool) -> Seq<char> {
    if ffmpeg_available {
        q.selector()
    } else {
        progressive_selector(q.as_bridge())
    }
}

pub fn format_selector(quality: MediaQuality, ffmpeg_available: bool) -> (r: &'static str)
    ensures
        r@ == selector_for(quality, ffmpeg_available),
{
    if ffmpeg_available {
        return quality.format_selector();
    }
    match quality {
        MediaQuality::Best => "best[acodec!=none][vcodec!=none]/best",
        MediaQuality::P1080 => "best[height<=1080][acodec!=none][vcodec!=none]/best[height<=1080]/best",
        MediaQuality::P720 => "best[height<=720][acodec!=none][vcodec!=none]/best[height<=720]/best",
        MediaQuality::AudioOnly => "bestaudio/best",
    }
}

#[derive(Debug, Clone)]
pub struct MediaJob {
    pub id: String,
    pub url: String,
    pub output_path: String,
    pub quality: MediaQuality,
    pub headers: Vec<(String, String)>,
}

/// The directory the output lands in: the output path's parent, else `.`.
pub open spec fn output_dir_of(output_path: Seq<char>) -> Seq<char> {
    match spec_parent(output_path) {
        Some(p) => p,
        None => "."@,
    }
}

pub fn output_dir(output_path: &str) -> (r: String)
    ensures
        r@ == output_dir_of(output_path@),
{
    match path_parent(output_path) {
        Some(p) => p,
        None => owned("."),
    }
}

/// yt-dlp's output template relative to the home path: `<stem>.%(ext)s`.
pub fn output_template(output_path: &str) -> (r: String)
    ensures
        r@ == stem_or_default(output_path@) + ".%(ext)s"@,
{
    let stem = file_stem_or_default(output_path);
    cat(stem.as_str(), ".%(ext)s")
}

/// Where the merged MP4 is expected when yt-dlp does not print its path.
pub fn expected_output_path(output_path: &str) -> (r: String)
    ensures
        r@ == spec_join(output_dir_of(output_path@), stem_or_default(output_path@) + ".mp4"@),
{
    let dir = output_dir(output_path);
    let stem = file_stem_or_default(output_path);
    let name = cat(stem.as_str(), ".mp4");
    path_join(dir.as_str(), name.as_str())
}

/// The per-job temporary directory: `media-temp/<job id>` under the data directory.
pub fn media_temp_dir(data_dir: &str, job_id: &str) -> (r: String)
    ensures
        r@ == spec_join(spec_join(data_dir@, "media-temp"@), job_id@),
{
    let t = path_join(data_dir, "media-temp");
    path_join(t.as_str(), job_id)
}

/// The desktop's yt-dlp command line: no playlists, output and temporary
/// files in fixed directories, the FFmpeg binary (when found) passed
/// directly.
pub open spec fn ytdlp_args(job: MediaJob, ffmpeg_binary: Option<Seq<char>>, temp_dir: Seq<char>) -> Seq<Seq<char>> {
    let base = seq![
        "--no-config"@,
        "--no-playlist"@,
        "--newline"@,
        "--progress"@,
        "--progress-template"@,
        crate::bridge::media::progress_template(),
        "--print"@,
        "after_move:__KHUKRI_FINAL_PATH__:%(filepath)j"@,
        "--paths"@,
        "home:"@ + output_dir_of(job.output_path@),
        "--paths"@,
        "temp:"@ + temp_dir,
        "-o"@,
        stem_or_default(job.output_path@) + ".%(ext)s"@,
        "-f"@,
        selector_for(job.quality, ffmpeg_binary.is_some()),
    ];
    let with_ffmpeg = match ffmpeg_binary {
        Some(f) => {
            let merge = if job.quality is AudioOnly {
                Seq::empty()
            } else {
                seq!["--merge-output-format"@, "mp4"@]
            };
            base + seq!["--ffmpeg-location"@, f] + merge
        },
        None => base,
    };
    let with_audio = if job.quality is AudioOnly {
        with_ffmpeg + seq!["-x"@, "--audio-format"@, "mp3"@]
    } else {
        with_ffmpeg
    };
    with_audio + header_args(job.headers@) + seq![job.url@]
}

fn push_str(v: &mut Vec<String>, s: &str)
    ensures
        string_views(final(v)@) == string_views(old(v)@).push(s@),
{
    v.push(owned(s));
    assert(string_views(v@) =~= string_views(old(v)@).push(s@));
}

/// The arguments the desktop starts yt-dlp with; `media_temp_dir` is the
/// job's temporary directory.
pub fn build_arguments(job: &MediaJob, ffmpeg_binary: Option<&str>, media_temp_dir: &str) -> (r: Vec<String>)
    ensures
        string_views(r@) == ytdlp_args(*job, opt_str(ffmpeg_binary), media_temp_dir@),
{
    let mut args: Vec<String> = Vec::new();
    push_str(&mut args, "--no-config");
    push_str(&mut args, "--no-playlist");
    push_str(&mut args, "--newline");
    push_str(&mut args, "--progress");
    push_str(&mut args, "--progress-template");
    push_str(
        &mut args,
        "download:__KHUKRI_PROGRESS__:{\"status\":\"%(progress.status)s\",\"downloaded_bytes\":\"%(progress.downloaded_bytes)s\",\"total_bytes\":\"%(progress.total_bytes)s\",\"speed\":\"%(progress.speed)s\",\"eta\":\"%(progress.eta)s\"}",
    );
    push_str(&mut args, "--print");
    push_str(&mut args, "after_move:__KHUKRI_FINAL_PATH__:%(filepath)j");
    push_str(&mut args, "--paths");
    let dir = output_dir(job.output_path.as_str());
    push_string(&mut args, cat("home:", dir.as_str()));
    push_str(&mut args, "--paths");
    push_string(&mut args, cat("temp:", media_temp_dir));
    push_str(&mut args, "-o");
    push_string(&mut args, output_template(job.output_path.as_str()));
    push_str(&mut args, "-f");
    push_str(&mut args, format_selector(job.quality, ffmpeg_binary.is_some()));
    if let Some(ffmpeg) = ffmpeg_binary {
        push_str(&mut args, "--ffmpeg-location");
        push_str(&mut args, ffmpeg);
        if !(job.quality == MediaQuality::AudioOnly) {
            push_str(&mut args, "--merge-output-format");
            push_str(&mut args, "mp4");
        }
    }
    if job.quality == MediaQuality::AudioOnly {
        push_str(&mut args, "-x");
        push_str(&mut args, "--audio-format");
        push_str(&mut args, "mp3");
    }
    let ghost before_headers = string_views(args@);
    let mut i: usize = 0;
    while i < job.headers.len()
        invariant
            i <= job.headers@.len(),
            string_views(args@) == before_headers + header_args(job.headers@.subrange(0, i as int)),
        decreases job.headers@.len() - i,
    {
        let ghost prefix = job.headers@.subrange(0, (i + 1) as int);
        assert(prefix.drop_last() =~= job.headers@.subrange(0, i as int));
        push_str(&mut args, "--add-header");
        let pair = cat3(job.headers[i].0.as_str(), ":", job.headers[i].1.as_str());
        push_string(&mut args, pair);
        i = i + 1;
    }
    assert(job.headers@.subrange(0, job.headers@.len() as int) =~= job.headers@);
    push_string(&mut args, job.url.clone());
    assert(string_views(args@) =~= ytdlp_args(*job, opt_str(ffmpeg_binary), media_temp_dir@));
    args
}

/// The yt-dlp binary's name for a platform (the bridge's sidecar names).
pub fn platform_ytdlp_name(platform: Platform) -> (r: Result<&'static str, String>)
    ensures
        match (r, crate::bridge::media::platform_sidecar_name_spec(platform)) {
            (Ok(a), Ok(b)) => a@ == b,
            (Err(a), Err(b)) => a@ == b,
            _ => false,
        },
{
    crate::bridge::media::platform_sidecar_name(platform)
}

/// The FFmpeg binary's name for a platform; other platforms get a name that
/// matches no file.
pub fn platform_ffmpeg_name(platform: Platform) -> (r: &'static str)
    ensures
        r@ == match platform {
            Platform::WindowsX64 => "ffmpeg-x86_64-pc-windows-msvc.exe"@,
            Platform::LinuxX64 => "ffmpeg-x86_64-unknown-linux-gnu"@,
            Platform::MacosX64 => "ffmpeg-x86_64-apple-darwin"@,
            Platform::MacosArm64 => "ffmpeg-aarch64-apple-darwin"@,
            Platform::Other => "ffmpeg-unsupported-target"@,
        },
{
    match platform {
        Platform::WindowsX64 => "ffmpeg-x86_64-pc-windows-msvc.exe",
        Platform::LinuxX64 => "ffmpeg-x86_64-unknown-linux-gnu",
        Platform::MacosX64 => "ffmpeg-x86_64-apple-darwin",
        Platform::MacosArm64 => "ffmpeg-aarch64-apple-darwin",
        Platform::Other => "ffmpeg-unsupported-target",
    }
}

/// Where the desktop looks for a sidecar named `name`: the managed sidecar
/// directory, `sidecar` under the working directory, and `sidecar` beside
/// `src-tauri` under it.
pub fn sidecar_candidate_paths(data_dir: &str, cwd: &str, name: &str) -> (r: Vec<String>)
    ensures
        string_views(r@) == seq![
            spec_join(spec_join(data_dir@, "sidecar"@), name@),
            spec_join(spec_join(cwd@, "sidecar"@), name@),
            spec_join(spec_join(spec_join(spec_join(cwd@, "src-tauri"@), ".."@), "sidecar"@), name@),
        ],
{
    let mut v: Vec<String> = Vec::new();
    let a = path_join(data_dir, "sidecar");
    push_string(&mut v, path_join(a.as_str(), name));
    let b = path_join(cwd, "sidecar");
    push_string(&mut v, path_join(b.as_str(), name));
    let c1 = path_join(cwd, "src-tauri");
    let c2 = path_join(c1.as_str(), "..");
    let c3 = path_join(c2.as_str(), "sidecar");
    push_string(&mut v, path_join(c3.as_str(), name));
    assert(string_views(v@) =~= seq![
        spec_join(spec_join(data_dir@, "sidecar"@), name@),
        spec_join(spec_join(cwd@, "sidecar"@), name@),
        spec_join(spec_join(spec_join(spec_join(cwd@, "src-tauri"@), ".."@), "sidecar"@), name@),
    ]);
    v
}

/// The error when no sidecar candidate exists.
pub fn missing_sidecar_message(name: &str, env_name: &str) -> (r: String)
    ensures
        r@ == "could not find sidecar "@ + name@ + "; override with "@ + env_name@,
{
    let mut s = cat3("could not find sidecar ", name, "; override with ");
    s.append(env_name);
    s
}

/// What preparing a sidecar for execution involves.
#[derive(Debug, Clone, Copy, PartialEq, Eq, Structural)]
pub enum SidecarPrep {
    /// Nothing to do (not macOS, or this binary was already prepared).
    Ready,
    /// Strip the quarantine attribute, then ad-hoc sign the binary if it is
    /// Mach-O, then remember it as prepared.
    StripAndSign,
}

/// Only macOS binaries need preparing, and each only once.
pub fn prepare_sidecar_for_execution(platform: Platform, already_prepared: bool) -> (r: SidecarPrep)
    ensures
        r == (if (platform is MacosX64 || platform is MacosArm64) && !already_prepared {
            SidecarPrep::StripAndSign
        } else {
            SidecarPrep::Ready
        }),
{
    if (platform == Platform::MacosX64 || platform == Platform::MacosArm64) && !already_prepared {
        SidecarPrep::StripAndSign
    } else {
        SidecarPrep::Ready
    }
}

/// The sidecar binaries already prepared in this process, by canonical path.
pub struct PreparedSidecars {
    pub paths: Vec<String>,
}

impl View for PreparedSidecars {
    type V = Set<Seq<char>>;

    open spec fn view(&self) -> Set<Seq<char>> {
        Set::new(|p: Seq<char>| exists|i: int| 0 <= i < self.paths@.len() && (#[trigger] self.paths@[i])@ == p)
    }
}

/// What preparing the binary at `canonical` involves, given the binaries
/// already prepared.
pub open spec fn prep_for(platform: Platform, prepared: Set<Seq<char>>, canonical: Seq<char>) -> SidecarPrep {
    if (platform is MacosX64 || platform is MacosArm64) && !prepared.contains(canonical) {
        SidecarPrep::StripAndSign
    } else {
        SidecarPrep::Ready
    }
}

impl PreparedSidecars {
    /// None prepared yet.
    pub fn new() -> (r: Self)
        ensures
            r@ == Set::<Seq<char>>::empty(),
    {
        let r = PreparedSidecars { paths: Vec::new() };
        assert(r@ =~= Set::<Seq<char>>::empty());
        r
    }

    /// Whether the binary at `canonical` was prepared already.
    pub fn contains(&self, canonical: &str) -> (r: bool)
        ensures
            r == self@.contains(canonical@),
    {
        let target = owned(canonical);
        let mut i: usize = 0;
        while i < self.paths.len()
            invariant
                i <= self.paths@.len(),
                target@ == canonical@,
                forall|j: int| 0 <= j < i ==> (#[trigger] self.paths@[j])@ != canonical@,
            decreases self.paths.len() - i,
        {
            if self.paths[i] == target {
                assert(self@.contains(canonical@)) by {
                    assert(self.paths@[i as int]@ == canonical@);
                }
                return true;
            }
            i = i + 1;
        }
        false
    }

    /// What preparing the binary at `canonical` involves on `platform`.
    pub fn prep(&self, platform: Platform, canonical: &str) -> (r: SidecarPrep)
        ensures
            r == prep_for(platform, self@, canonical@),
    {
        let already = self.contains(canonical);
        prepare_sidecar_for_execution(platform, already)
    }

    /// Remembers that the binary at `canonical` has been prepared.
    pub fn record(&mut self, canonical: &str)
        ensures
            final(self)@ == old(self)@.insert(canonical@),
    {
        let ghost before = self.paths@;
        self.paths.push(owned(canonical));
        proof {
            assert forall|p: Seq<char>| #[trigger] self@.contains(p) == old(self)@.insert(canonical@).contains(p) by {
                if old(self)@.contains(p) {
                    let i = choose|i: int| 0 <= i < before.len() && (#[trigger] before[i])@ == p;
                    assert(self.paths@[i] == before[i]);
                }
                if p == canonical@ {
                    assert(self.paths@[before.len() as int]@ == p);
                }
                if self@.contains(p) {
                    let i = choose|i: int| 0 <= i < self.paths@.len() && (#[trigger] self.paths@[i])@ == p;
                    if i < before.len() {
                        assert(before[i] == self.paths@[i]);
                    }
                }
            }
            assert(self@ =~= old(self)@.insert(canonical@));
        }
    }
}

/// Law: each sidecar is prepared at most once per canonical path — once a
/// binary has been recorded as prepared, preparing it again (under the
/// same canonical path) does nothing, and off macOS nothing is ever done.
pub proof fn lemma_sidecar_prepared_once(platform: Platform, prepared: Set<Seq<char>>, canonical: Seq<char>)
    ensures
        prep_for(platform, prepared.insert(canonical), canonical) == SidecarPrep::Ready,
        !(platform is MacosX64 || platform is MacosArm64) ==> prep_for(platform, prepared, canonical)
            == SidecarPrep::Ready,
{
}

/// Whether the first bytes of a file are a Mach-O or universal-binary magic
/// number (either byte order); fewer than four bytes are not.
pub open spec fn is_macho(head: Seq<u8>) -> bool {
    head.len() >= 4 && {
        let (a, b, c, d) = (head[0], head[1], head[2], head[3]);
        ||| (a == 0xfe && b == 0xed && c == 0xfa && d == 0xce)
        ||| (a == 0xce && b == 0xfa && c == 0xed && d == 0xfe)
        ||| (a == 0xfe && b == 0xed && c == 0xfa && d == 0xcf)
        ||| (a == 0xcf && b == 0xfa && c == 0xed && d == 0xfe)
        ||| (a == 0xca && b == 0xfe && c == 0xba && d == 0xbe)
        ||| (a == 0xbe && b == 0xba && c == 0xfe && d == 0xca)
        ||| (a == 0xca && b == 0xfe && c == 0xba && d == 0xbf)
        ||| (a == 0xbf && b == 0xba && c == 0xfe && d == 0xca)
    }
}

pub fn is_macho_header(head: &[u8]) -> (r: bool)
    ensures
        r == is_macho(head@),
{
    if head.len() < 4 {
        return false;
    }
    let (a, b, c, d) = (head[0], head[1], head[2], head[3]);
    (a == 0xfe && b == 0xed && c == 0xfa && d == 0xce) || (a == 0xce && b == 0xfa && c == 0xed && d
        == 0xfe) || (a == 0xfe && b == 0xed && c == 0xfa && d == 0xcf) || (a == 0xcf && b == 0xfa
        && c == 0xed && d == 0xfe) || (a == 0xca && b == 0xfe && c == 0xba && d == 0xbe) || (a
        == 0xbe && b == 0xba && c == 0xfe && d == 0xca) || (a == 0xca && b == 0xfe && c == 0xba
        && d == 0xbf) || (a == 0xbf && b == 0xba && c == 0xfe && d == 0xca)
}

/// Whether a file starts with `#!` (a script yt-dlp ships on macOS).
pub fn starts_with_shebang(head: &[u8]) -> (r: bool)
    ensures
        r == (head@.len() >= 2 && head@[0] == 35 && head@[1] == 33),
{
    head.len() >= 2 && head[0] == 35 && head[1] == 33
}

// ── Progress of a media job ─────────────────────────────────────────────────

/// A progress line's numbers applied to the job's progress: it becomes
/// active, and bytes, total, speed and ETA are replaced.
pub fn apply_media_progress(p: &mut DownloadProgress, bytes_done: u64, total_bytes: Option<u64>, speed_bps: u64, eta_seconds: Option<u64>)
    ensures
        final(p).id == old(p).id,
        final(p).status == DownloadStatus::Active,
        final(p).bytes_done == bytes_done,
        final(p).total_bytes == total_bytes,
        final(p).speed_bps == speed_bps,
        final(p).eta_seconds == eta_seconds,
        final(p).segments_done == old(p).segments_done,
        final(p).segments_total == old(p).segments_total,
{
    p.status = DownloadStatus::Active;
    p.bytes_done = bytes_done;
    p.total_bytes = total_bytes;
    p.speed_bps = speed_bps;
    p.eta_seconds = eta_seconds;
}

/// The job's progress once it stopped with `status` (paused or failed):
/// speed zero and no ETA; everything else kept.
pub fn stop_media_progress(p: &mut DownloadProgress, status: DownloadStatus)
    ensures
        final(p).id == old(p).id,
        final(p).status == status,
        final(p).bytes_done == old(p).bytes_done,
        final(p).total_bytes == old(p).total_bytes,
        final(p).speed_bps == 0,
        final(p).eta_seconds.is_none(),
        final(p).segments_done == old(p).segments_done,
        final(p).segments_total == old(p).segments_total,
{
    p.status = status;
    p.speed_bps = 0;
    p.eta_seconds = None;
}

/// The job's progress once it completed: speed zero, no ETA, and all bytes
/// done when the total is known.
pub fn complete_media_progress(p: &mut DownloadProgress)
    ensures
        final(p).id == old(p).id,
        final(p).status == DownloadStatus::Complete,
        final(p).bytes_done == (match old(p).total_bytes {
            Some(t) => t,
            None => old(p).bytes_done,
        }),
        final(p).total_bytes == old(p).total_bytes,
        final(p).speed_bps == 0,
        final(p).eta_seconds.is_none(),
        final(p).segments_done == old(p).segments_done,
        final(p).segments_total == old(p).segments_total,
{
    p.status = DownloadStatus::Complete;
    p.speed_bps = 0;
    p.eta_seconds = None;
    if let Some(t) = p.total_bytes {
        p.bytes_done = t;
    }
}

/// Media requests go to yt-dlp (the same rule as the bridge's).
pub fn should_use_ytdlp(source: Option<&str>, quality: Option<&str>) -> (r: bool)
    ensures
        r == crate::bridge::media::uses_ytdlp(opt_str(source), opt_str(quality)),
{
    crate::bridge::media::should_use_ytdlp(source, quality)
}

/// The failure when yt-dlp succeeded but the merged file is not there.
pub fn missing_output_message(final_path: &str) -> (r: String)
    ensures
        r@ == "yt-dlp finished but final merged file was not found: "@ + final_path@,
{
    cat("yt-dlp finished but final merged file was not found: ", final_path)
}

} // verus!
