//! Application settings: defaults, validation before saving, and repair of
//! settings loaded from disk.

use vstd::prelude::*;
use crate::text::{opt_str, opt_view};
use crate::text::{
    cat, eq_str, has_prefix, is_blank, owned, starts_with, to_chars, trim, trim_chars, is_ws,
    lemma_trim_start_at,
};
use crate::trusted::{path_join, spec_join};

verus! {

#[derive(Debug, Clone)]
pub struct GeneralSettings {
    pub default_download_path: String,
    pub max_concurrent: u8,
}

#[derive(Debug, Clone)]
pub struct PerformanceSettings {
    pub thread_override: Option<u8>,
    pub bandwidth_cap: Option<u64>,
}

#[derive(Debug, Clone)]
pub struct SchedulerSettings {
    pub enabled: bool,
    pub start_hour: u8,
    pub end_hour: u8,
}

#[derive(Debug, Clone)]
pub struct ProxySettings {
    pub enabled: bool,
    pub url: String,
}

#[derive(Debug, Clone)]
pub struct AppearanceSettings {
    pub theme: String,
}

#[derive(Debug, Clone)]
pub struct AppSettings {
    pub general: GeneralSettings,
    pub performance: PerformanceSettings,
    pub scheduler: SchedulerSettings,
    pub proxy: ProxySettings,
    pub appearance: AppearanceSettings,
    pub browser_session: Option<String>,
    pub onboarding_complete: bool,
    pub ytdlp_auto_update: bool,
    pub ytdlp_last_check: Option<i64>,
    pub ytdlp_version: Option<String>,
    pub ytdlp_last_notified_failure: Option<String>,
    pub ytdlp_last_rate_limit: bool,
}

/// The settings a fresh installation starts with; downloads go to
/// `downloads` under the application data directory `data_dir`.
pub fn default_settings(data_dir: &str) -> (s: AppSettings)
    ensures
        s.general.default_download_path@ == spec_join(data_dir@, "downloads"@),
        s.general.max_concurrent == 3,
        s.performance.thread_override.is_none(),
        s.performance.bandwidth_cap.is_none(),
        !s.scheduler.enabled,
        s.scheduler.start_hour == 0,
        s.scheduler.end_hour == 23,
        !s.proxy.enabled,
        s.proxy.url@.len() == 0,
        s.appearance.theme@ == "system"@,
        s.browser_session.is_none(),
        !s.onboarding_complete,
        s.ytdlp_auto_update,
        s.ytdlp_last_check.is_none(),
        s.ytdlp_version.is_none(),
        s.ytdlp_last_notified_failure.is_none(),
        !s.ytdlp_last_rate_limit,
{
    AppSettings {
        general: GeneralSettings { default_download_path: path_join(data_dir, "downloads"), max_concurrent: 3 },
        performance: PerformanceSettings { thread_override: None, bandwidth_cap: None },
        scheduler: SchedulerSettings { enabled: false, start_hour: 0, end_hour: 23 },
        proxy: ProxySettings { enabled: false, url: String::new() },
        appearance: AppearanceSettings { theme: owned("system") },
        browser_session: None,
        onboarding_complete: false,
        ytdlp_auto_update: true,
        ytdlp_last_check: None,
        ytdlp_version: None,
        ytdlp_last_notified_failure: None,
        ytdlp_last_rate_limit: false,
    }
}

/// Browsers whose session (cookies) yt-dlp may borrow; no selection is fine.
pub open spec fn session_supported(v: Option<Seq<char>>) -> bool {
    match v {
        None => true,
        Some(s) => s == "brave"@ || s == "chrome"@ || s == "chromium"@ || s == "edge"@ || s == "firefox"@
            || s == "opera"@ || s == "safari"@ || s == "vivaldi"@ || s == "whale"@,
    }
}

pub fn supported_browser_session(value: Option<&str>) -> (r: bool)
    ensures
        r == session_supported(opt_str(value)),
{
    match value {
        None => true,
        Some(v) => {
            let c = to_chars(v);
            let s = c.as_slice();
            eq_str(s, "brave") || eq_str(s, "chrome") || eq_str(s, "chromium") || eq_str(s, "edge")
                || eq_str(s, "firefox") || eq_str(s, "opera") || eq_str(s, "safari") || eq_str(
                s,
                "vivaldi",
            ) || eq_str(s, "whale")
        },
    }
}

pub open spec fn theme_supported(t: Seq<char>) -> bool {
    t == "system"@ || t == "light"@ || t == "dark"@
}

pub open spec fn proxy_scheme_ok(url: Seq<char>) -> bool {
    starts_with(url, "http://"@) || starts_with(url, "https://"@) || starts_with(url, "socks5://"@)
}

/// Why settings may not be saved (the first failing rule), if they may not.
pub open spec fn settings_error(s: AppSettings) -> Option<Seq<char>> {
    if trim(s.general.default_download_path@).len() == 0 {
        Some("default download path must not be empty"@)
    } else if !(1 <= s.general.max_concurrent <= 16) {
        Some("max concurrent downloads must be between 1 and 16"@)
    } else if s.performance.thread_override.is_some() && !(1 <= s.performance.thread_override.unwrap()
        <= 128) {
        Some("worker threads must be between 1 and 128"@)
    } else if s.scheduler.start_hour > 23 || s.scheduler.end_hour > 23 {
        Some("scheduler hours must be between 0 and 23"@)
    } else if s.proxy.enabled && !proxy_scheme_ok(trim(s.proxy.url@)) {
        Some("proxy URL must start with http://, https://, or socks5://"@)
    } else if !theme_supported(s.appearance.theme@) {
        Some("unsupported appearance theme"@)
    } else if !session_supported(opt_view(s.browser_session)) {
        Some("unsupported browser session selection"@)
    } else {
        None
    }
}

fn proxy_scheme_accepted(url: &[char]) -> (r: bool)
    ensures
        r == proxy_scheme_ok(url@),
{
    has_prefix(url, "http://") || has_prefix(url, "https://") || has_prefix(url, "socks5://")
}

fn theme_accepted(theme: &String) -> (r: bool)
    ensures
        r == theme_supported(theme@),
{
    let c = to_chars(theme.as_str());
    eq_str(c.as_slice(), "system") || eq_str(c.as_slice(), "light") || eq_str(c.as_slice(), "dark")
}

fn session_accepted(session: &Option<String>) -> (r: bool)
    ensures
        r == session_supported(opt_view(*session)),
{
    match session {
        Some(s) => supported_browser_session(Some(s.as_str())),
        None => supported_browser_session(None),
    }
}

/// Checks settings before they are saved.
pub fn validate(settings: &AppSettings) -> (r: Result<(), String>)
    ensures
        match settings_error(*settings) {
            Some(m) => r matches Err(e) && e@ == m,
            None => r is Ok,
        },
{
    let p = to_chars(settings.general.default_download_path.as_str());
    if is_blank(p.as_slice()) {
        return Err(owned("default download path must not be empty"));
    }
    if !(1 <= settings.general.max_concurrent && settings.general.max_concurrent <= 16) {
        return Err(owned("max concurrent downloads must be between 1 and 16"));
    }
    if let Some(threads) = settings.performance.thread_override {
        if !(1 <= threads && threads <= 128) {
            return Err(owned("worker threads must be between 1 and 128"));
        }
    }
    if settings.scheduler.start_hour > 23 || settings.scheduler.end_hour > 23 {
        return Err(owned("scheduler hours must be between 0 and 23"));
    }
    if settings.proxy.enabled {
        let u = to_chars(settings.proxy.url.as_str());
        let t = trim_chars(u.as_slice());
        if !proxy_scheme_accepted(t.as_slice()) {
            return Err(owned("proxy URL must start with http://, https://, or socks5://"));
        }
    }
    if !theme_accepted(&settings.appearance.theme) {
        return Err(owned("unsupported appearance theme"));
    }
    if !session_accepted(&settings.browser_session) {
        return Err(owned("unsupported browser session selection"));
    }
    Ok(())
}

pub open spec fn clamp_u8(x: u8, lo: u8, hi: u8) -> u8 {
    if x < lo {
        lo
    } else if x > hi {
        hi
    } else {
        x
    }
}

/// `after` is `before` repaired as `normalize` repairs loaded settings:
/// out-of-range values are clamped or reset to their defaults, unknown
/// choices are dropped, a proxy without a known scheme is turned off, and
/// everything else is kept.
pub open spec fn is_normalization(before: AppSettings, after: AppSettings, default_path: Seq<char>) -> bool {
    &&& after.general.default_download_path@ == (if trim(before.general.default_download_path@).len() == 0 {
        default_path
    } else {
        before.general.default_download_path@
    })
    &&& after.general.max_concurrent == clamp_u8(before.general.max_concurrent, 1, 16)
    &&& after.performance.thread_override == (match before.performance.thread_override {
        Some(t) => if 1 <= t <= 128 {
            Some(t)
        } else {
            None
        },
        None => None,
    })
    &&& after.performance.bandwidth_cap == before.performance.bandwidth_cap
    &&& after.scheduler.enabled == before.scheduler.enabled
    &&& after.scheduler.start_hour == (if before.scheduler.start_hour > 23 {
        23
    } else {
        before.scheduler.start_hour
    })
    &&& after.scheduler.end_hour == (if before.scheduler.end_hour > 23 {
        23
    } else {
        before.scheduler.end_hour
    })
    &&& after.appearance.theme@ == (if theme_supported(before.appearance.theme@) {
        before.appearance.theme@
    } else {
        "system"@
    })
    &&& opt_view(after.browser_session) == (if session_supported(opt_view(before.browser_session)) {
        opt_view(before.browser_session)
    } else {
        None
    })
    &&& (if before.proxy.enabled && !proxy_scheme_ok(before.proxy.url@) {
        !after.proxy.enabled && after.proxy.url@.len() == 0
    } else {
        after.proxy.enabled == before.proxy.enabled && after.proxy.url@ == before.proxy.url@
    })
    &&& after.onboarding_complete == before.onboarding_complete
    &&& after.ytdlp_auto_update == before.ytdlp_auto_update
    &&& after.ytdlp_last_check == before.ytdlp_last_check
    &&& opt_view(after.ytdlp_version) == opt_view(before.ytdlp_version)
    &&& opt_view(after.ytdlp_last_notified_failure) == opt_view(before.ytdlp_last_notified_failure)
    &&& after.ytdlp_last_rate_limit == before.ytdlp_last_rate_limit
}

/// Repairs settings loaded from disk; `default_download_path` replaces a
/// blank download path.
pub fn normalize(settings: &mut AppSettings, default_download_path: &str)
    ensures
        is_normalization(*old(settings), *final(settings), default_download_path@),
{
    let p = to_chars(settings.general.default_download_path.as_str());
    if is_blank(p.as_slice()) {
        settings.general.default_download_path = owned(default_download_path);
    }
    let m = settings.general.max_concurrent;
    settings.general.max_concurrent = if m < 1 {
        1
    } else if m > 16 {
        16
    } else {
        m
    };
    if let Some(threads) = settings.performance.thread_override {
        if !(1 <= threads && threads <= 128) {
            settings.performance.thread_override = None;
        }
    }
    if settings.scheduler.start_hour > 23 {
        settings.scheduler.start_hour = 23;
    }
    if settings.scheduler.end_hour > 23 {
        settings.scheduler.end_hour = 23;
    }
    if !theme_accepted(&settings.appearance.theme) {
        settings.appearance.theme = owned("system");
    }
    if !session_accepted(&settings.browser_session) {
        settings.browser_session = None;
    }
    if settings.proxy.enabled {
        let u = to_chars(settings.proxy.url.as_str());
        if !proxy_scheme_accepted(u.as_slice()) {
            settings.proxy.enabled = false;
            settings.proxy.url = String::new();
        }
    }
}

proof fn lemma_prefix_survives_trim(url: Seq<char>, p: Seq<char>)
    requires
        starts_with(url, p),
        p.len() > 0,
        !is_ws(p[0]),
        !is_ws(p.last()),
    ensures
        starts_with(trim(url), p),
{
    assert(url[0] == p[0]);
    lemma_trim_start_at(url, 0);
    assert(url.subrange(0, url.len() as int) =~= url);
    let mut hi = url.len() as int;
    lemma_trim_end_bound(url, p);
}

proof fn lemma_trim_end_bound(url: Seq<char>, p: Seq<char>)
    requires
        starts_with(url, p),
        p.len() > 0,
        !is_ws(p.last()),
    ensures
        starts_with(crate::text::trim_end(url), p),
    decreases url.len(),
{
    if url.len() > 0 && is_ws(url.last()) {
        assert(url.len() > p.len()) by {
            if url.len() == p.len() {
                assert(url.subrange(0, p.len() as int) =~= url);
                assert(url.last() == p.last());
            }
        }
        let t = url.drop_last();
        assert(t.subrange(0, p.len() as int) =~= url.subrange(0, p.len() as int));
        lemma_trim_end_bound(t, p);
    }
}

/// Law: repaired settings always pass validation, provided the default
/// download path is not blank.
pub proof fn lemma_normalized_settings_are_valid(before: AppSettings, after: AppSettings, default_path: Seq<char>)
    requires
        is_normalization(before, after, default_path),
        trim(default_path).len() > 0,
    ensures
        settings_error(after).is_none(),
{
    reveal_strlit("http://");
    reveal_strlit("https://");
    reveal_strlit("socks5://");
    reveal_strlit("system");
    if after.proxy.enabled {
        let u = after.proxy.url@;
        assert(proxy_scheme_ok(u));
        if starts_with(u, "http://"@) {
            lemma_prefix_survives_trim(u, "http://"@);
        } else if starts_with(u, "https://"@) {
            lemma_prefix_survives_trim(u, "https://"@);
        } else {
            lemma_prefix_survives_trim(u, "socks5://"@);
        }
    }
}

/// Law: repairing settings that already pass validation changes nothing,
/// unless an enabled proxy URL starts with whitespace (validation trims
/// it, the repair does not).
pub proof fn lemma_valid_settings_are_kept(before: AppSettings, after: AppSettings, default_path: Seq<char>)
    requires
        is_normalization(before, after, default_path),
        settings_error(before).is_none(),
        before.proxy.enabled ==> proxy_scheme_ok(before.proxy.url@),
    ensures
        after.general.default_download_path@ == before.general.default_download_path@,
        after.general.max_concurrent == before.general.max_concurrent,
        after.performance.thread_override == before.performance.thread_override,
        after.scheduler.start_hour == before.scheduler.start_hour,
        after.scheduler.end_hour == before.scheduler.end_hour,
        after.appearance.theme@ == before.appearance.theme@,
        opt_view(after.browser_session) == opt_view(before.browser_session),
        after.proxy.enabled == before.proxy.enabled,
        after.proxy.url@ == before.proxy.url@,
{
}

/// Puts one section of `settings` (named as in the settings screen) back to
/// its value in `defaults`; an unknown name is refused and nothing changes.
pub fn reset_section(settings: &mut AppSettings, section: &str, defaults: AppSettings) -> (r: Result<(), String>)
    ensures
        section@ == "general"@ ==> r is Ok && *final(settings) == (AppSettings { general: defaults.general, ..*old(settings) }),
        section@ == "performance"@ ==> r is Ok && *final(settings) == (AppSettings { performance: defaults.performance, ..*old(settings) }),
        section@ == "scheduler"@ ==> r is Ok && *final(settings) == (AppSettings { scheduler: defaults.scheduler, ..*old(settings) }),
        section@ == "proxy"@ ==> r is Ok && *final(settings) == (AppSettings { proxy: defaults.proxy, ..*old(settings) }),
        section@ == "appearance"@ ==> r is Ok && *final(settings) == (AppSettings { appearance: defaults.appearance, ..*old(settings) }),
        !(section@ == "general"@ || section@ == "performance"@ || section@ == "scheduler"@ || section@ == "proxy"@
            || section@ == "appearance"@) ==> (r matches Err(e) && e@ == "unknown settings section: "@ + section@
            && *final(settings) == *old(settings)),
{
    proof {
        reveal_strlit("general");
        reveal_strlit("performance");
        reveal_strlit("scheduler");
        reveal_strlit("proxy");
        reveal_strlit("appearance");
        assert("general"@.len() == 7 && "performance"@.len() == 11 && "scheduler"@.len() == 9);
        assert("proxy"@.len() == 5 && "appearance"@.len() == 10);
    }
    let c = to_chars(section);
    if eq_str(c.as_slice(), "general") {
        settings.general = defaults.general;
    } else if eq_str(c.as_slice(), "performance") {
        settings.performance = defaults.performance;
    } else if eq_str(c.as_slice(), "scheduler") {
        settings.scheduler = defaults.scheduler;
    } else if eq_str(c.as_slice(), "proxy") {
        settings.proxy = defaults.proxy;
    } else if eq_str(c.as_slice(), "appearance") {
        settings.appearance = defaults.appearance;
    } else {
        return Err(cat("unknown settings section: ", section));
    }
    Ok(())
}

} // verus!
