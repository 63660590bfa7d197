//! Keeping the managed yt-dlp sidecar current: when to check, which
//! release assets to fetch, how a download is verified, and how failures
//! are remembered so each is announced once.

use vstd::prelude::*;
use crate::text::opt_view;
use crate::desktop::settings::AppSettings;
use crate::platform::Platform;
use crate::text::{
    cat, chars_eq, chars_eq_ignore_case, contains, contains_str, eq_ignore_case, eq_str,
    find_char, first_index, from_chars, has_char, is_ws, is_ws_exec, lower, owned, slice_vec,
    to_chars, trim, trim_chars, lemma_first_index_unique, lemma_exists_first,
};
use crate::trusted::{sha256, spec_sha256};

verus! {

/// The user's preferences are the same in both: everything but the
/// updater's own bookkeeping.
pub open spec fn keeps_preferences(before: AppSettings, after: AppSettings) -> bool {
    &&& after.general == before.general
    &&& after.performance == before.performance
    &&& after.scheduler == before.scheduler
    &&& after.proxy == before.proxy
    &&& after.appearance == before.appearance
    &&& after.browser_session == before.browser_session
    &&& after.onboarding_complete == before.onboarding_complete
    &&& after.ytdlp_auto_update == before.ytdlp_auto_update
}

/// Check at most once a day, or once an hour after being rate-limited.
pub open spec fn backoff_secs(rate_limited: bool) -> int {
    if rate_limited {
        3600
    } else {
        86400
    }
}

/// `now - last`, saturating at the `i64` bounds.
pub open spec fn elapsed_since(now: i64, last: i64) -> int {
    let d = now - last;
    if d > i64::MAX {
        i64::MAX as int
    } else if d < i64::MIN {
        i64::MIN as int
    } else {
        d
    }
}

/// Whether to look for a new yt-dlp now: always when forced; otherwise only
/// with automatic updates on, and when the last check is long enough ago
/// (or there was none).
pub open spec fn check_due(force: bool, auto_update: bool, last_check: Option<i64>, rate_limited: bool, now: i64) -> bool {
    force || (auto_update && match last_check {
        Some(last) => elapsed_since(now, last) >= backoff_secs(rate_limited),
        None => true,
    })
}

pub fn update_check_due(settings: &AppSettings, force: bool, now: i64) -> (r: bool)
    ensures
        r == check_due(force, settings.ytdlp_auto_update, settings.ytdlp_last_check, settings.ytdlp_last_rate_limit, now),
{
    if !force && !settings.ytdlp_auto_update {
        return false;
    }
    let backoff: i64 = if settings.ytdlp_last_rate_limit {
        3600
    } else {
        86400
    };
    if force {
        return true;
    }
    match settings.ytdlp_last_check {
        Some(last) => {
            let elapsed: i64 = match now.checked_sub(last) {
                Some(d) => d,
                None => if last < 0 {
                    i64::MAX
                } else {
                    i64::MIN
                },
            };
            elapsed >= backoff
        },
        None => true,
    }
}

/// Records that a check starts now and clears the rate-limit flag.
pub fn record_check_started(settings: &mut AppSettings, now: i64)
    ensures
        final(settings).ytdlp_last_check == Some(now),
        !final(settings).ytdlp_last_rate_limit,
        final(settings).ytdlp_version == old(settings).ytdlp_version,
        final(settings).ytdlp_last_notified_failure == old(settings).ytdlp_last_notified_failure,
        keeps_preferences(*old(settings), *final(settings)),
{
    settings.ytdlp_last_check = Some(now);
    settings.ytdlp_last_rate_limit = false;
}

/// The installed version: the recorded one when it is not blank, else the
/// bundled one (trimmed).
pub open spec fn effective_version(recorded: Option<Seq<char>>, bundled: Seq<char>) -> Seq<char> {
    match recorded {
        Some(v) => if trim(v).len() > 0 {
            v
        } else {
            trim(bundled)
        },
        None => trim(bundled),
    }
}

pub fn current_effective_version(settings: &AppSettings, bundled: &str) -> (r: String)
    ensures
        r@ == effective_version(opt_view(settings.ytdlp_version), bundled@),
{
    if let Some(v) = &settings.ytdlp_version {
        let c = to_chars(v.as_str());
        let t = trim_chars(c.as_slice());
        if t.len() > 0 {
            return v.clone();
        }
    }
    let b = to_chars(bundled);
    let t = trim_chars(b.as_slice());
    from_chars(t.as_slice())
}

/// One downloadable file of a release.
#[derive(Debug, Clone)]
pub struct GithubAsset {
    pub name: String,
    pub browser_download_url: String,
}

/// What to do with the latest release.
#[derive(Debug, Clone)]
pub enum ReleaseDecision {
    /// The installed version is the latest.
    UpToDate,
    /// The update cannot go on; report `reason` (for `version`, if known).
    Fail { reason: String, version: Option<String> },
    /// Fetch the checksum manifest and the binary at these asset indices.
    Download { checksums: usize, binary: usize },
}

pub open spec fn is_checksum_asset(name: Seq<char>) -> bool {
    eq_ignore_case(name, "SHA2-256SUMS"@) || contains(name, "SHA2-256SUMS"@)
}

/// Names a checksum manifest has.
pub open spec fn checksum_manifest() -> spec_fn(Seq<char>) -> bool {
    |n: Seq<char>| is_checksum_asset(n)
}

/// The name `name` itself.
pub open spec fn asset_named(name: Seq<char>) -> spec_fn(Seq<char>) -> bool {
    |n: Seq<char>| n == name
}

pub open spec fn first_asset_where(assets: Seq<GithubAsset>, i: int, pred: spec_fn(Seq<char>) -> bool) -> bool {
    0 <= i < assets.len() && pred(assets[i].name@) && forall|j: int| 0 <= j < i ==> !pred(#[trigger] assets[j].name@)
}

pub open spec fn some_asset_where(assets: Seq<GithubAsset>, pred: spec_fn(Seq<char>) -> bool) -> bool {
    exists|i: int| 0 <= i < assets.len() && pred(#[trigger] assets[i].name@)
}

fn find_checksum_asset(assets: &[GithubAsset]) -> (r: Option<usize>)
    ensures
        match r {
            Some(i) => first_asset_where(assets@, i as int, checksum_manifest()),
            None => !some_asset_where(assets@, checksum_manifest()),
        },
{
    let target = to_chars("SHA2-256SUMS");
    let mut i: usize = 0;
    while i < assets.len()
        invariant
            i <= assets.len(),
            target@ == "SHA2-256SUMS"@,
            forall|j: int| 0 <= j < i ==> !is_checksum_asset(#[trigger] assets@[j].name@),
        decreases assets.len() - i,
    {
        let n = to_chars(assets[i].name.as_str());
        if chars_eq_ignore_case(n.as_slice(), target.as_slice()) || contains_str(n.as_slice(), "SHA2-256SUMS") {
            return Some(i);
        }
        i = i + 1;
    }
    None
}

fn find_asset_named(assets: &[GithubAsset], name: &str) -> (r: Option<usize>)
    ensures
        match r {
            Some(i) => first_asset_where(assets@, i as int, asset_named(name@)),
            None => !some_asset_where(assets@, asset_named(name@)),
        },
{
    let mut i: usize = 0;
    while i < assets.len()
        invariant
            i <= assets.len(),
            forall|j: int| 0 <= j < i ==> (#[trigger] assets@[j].name@) != name@,
        decreases assets.len() - i,
    {
        let n = to_chars(assets[i].name.as_str());
        if eq_str(n.as_slice(), name) {
            return Some(i);
        }
        i = i + 1;
    }
    None
}

/// The index of the first asset whose name satisfies `pred`.
pub open spec fn first_index_where(assets: Seq<GithubAsset>, pred: spec_fn(Seq<char>) -> bool) -> int {
    choose|i: int| first_asset_where(assets, i, pred)
}

proof fn lemma_first_asset_unique(assets: Seq<GithubAsset>, pred: spec_fn(Seq<char>) -> bool, i: int)
    requires
        first_asset_where(assets, i, pred),
    ensures
        first_index_where(assets, pred) == i,
{
    let k = first_index_where(assets, pred);
    assert(first_asset_where(assets, k, pred));
    if k < i {
        assert(!pred(assets[k].name@));
    } else if k > i {
        assert(!pred(assets[i].name@));
    }
}

/// What to do with a release, as values.
pub enum DecisionView {
    UpToDate,
    Fail(Seq<char>, Option<Seq<char>>),
    Download(int, int),
}

pub open spec fn decision_view(d: ReleaseDecision) -> DecisionView {
    match d {
        ReleaseDecision::UpToDate => DecisionView::UpToDate,
        ReleaseDecision::Fail { reason, version } => DecisionView::Fail(reason@, opt_view(version)),
        ReleaseDecision::Download { checksums, binary } => DecisionView::Download(checksums as int, binary as int),
    }
}

pub open spec fn result_view(r: Result<&str, String>) -> Result<Seq<char>, Seq<char>> {
    match r {
        Ok(s) => Ok(s@),
        Err(e) => Err(e@),
    }
}

/// The decision on release `tag`: nothing to do when it is the installed
/// version (blanks aside); otherwise a failure when this platform has no
/// asset name, the release has no checksum manifest or no asset of that
/// name; otherwise download the first manifest and the first such asset.
pub open spec fn release_outcome(
    tag: Seq<char>,
    assets: Seq<GithubAsset>,
    current_version: Seq<char>,
    asset_name: Result<Seq<char>, Seq<char>>,
) -> DecisionView {
    if trim(tag) == trim(current_version) {
        DecisionView::UpToDate
    } else {
        match asset_name {
            Err(e) => DecisionView::Fail(e, None),
            Ok(name) => if !some_asset_where(assets, checksum_manifest()) {
                DecisionView::Fail("yt-dlp release checksums asset not found"@, Some(tag))
            } else if !some_asset_where(assets, asset_named(name)) {
                DecisionView::Fail("yt-dlp release does not include asset for this platform: "@ + name, Some(tag))
            } else {
                DecisionView::Download(
                    first_index_where(assets, checksum_manifest()),
                    first_index_where(assets, asset_named(name)),
                )
            },
        }
    }
}

/// Decides on the latest release `tag` with `assets`, given the installed
/// version and this platform's asset name (or why there is none).
pub fn release_decision(
    tag: &str,
    assets: &[GithubAsset],
    current_version: &str,
    asset_name: Result<&str, String>,
) -> (r: ReleaseDecision)
    ensures
        decision_view(r) == release_outcome(tag@, assets@, current_version@, result_view(asset_name)),
        r matches ReleaseDecision::Download { checksums, binary } ==> checksums < assets@.len() && binary
            < assets@.len(),
{
    let t = to_chars(tag);
    let tt = trim_chars(t.as_slice());
    let c = to_chars(current_version);
    let ct = trim_chars(c.as_slice());
    if chars_eq(tt.as_slice(), ct.as_slice()) {
        return ReleaseDecision::UpToDate;
    }
    let name = match asset_name {
        Ok(n) => n,
        Err(e) => {
            return ReleaseDecision::Fail { reason: e, version: None };
        },
    };
    let checksums = match find_checksum_asset(assets) {
        Some(i) => {
            proof {
                lemma_first_asset_unique(assets@, checksum_manifest(), i as int);
            }
            i
        },
        None => {
            return ReleaseDecision::Fail {
                reason: owned("yt-dlp release checksums asset not found"),
                version: Some(owned(tag)),
            };
        },
    };
    let binary = match find_asset_named(assets, name) {
        Some(i) => {
            proof {
                lemma_first_asset_unique(assets@, asset_named(name@), i as int);
            }
            i
        },
        None => {
            return ReleaseDecision::Fail {
                reason: cat("yt-dlp release does not include asset for this platform: ", name),
                version: Some(owned(tag)),
            };
        },
    };
    proof {
        assert(checksum_manifest()(assets@[checksums as int].name@));
        assert(asset_named(name@)(assets@[binary as int].name@));
    }
    ReleaseDecision::Download { checksums, binary }
}

/// Records that the installed version is `tag`.
pub fn record_version(settings: &mut AppSettings, tag: String)
    ensures
        final(settings).ytdlp_version == Some(tag),
        final(settings).ytdlp_last_check == old(settings).ytdlp_last_check,
        final(settings).ytdlp_last_rate_limit == old(settings).ytdlp_last_rate_limit,
        final(settings).ytdlp_last_notified_failure == old(settings).ytdlp_last_notified_failure,
        keeps_preferences(*old(settings), *final(settings)),
{
    settings.ytdlp_version = Some(tag);
}

/// Records a successful update to `tag`: the version changes and earlier
/// failures and rate limits are forgotten.
pub fn record_update_success(settings: &mut AppSettings, tag: String)
    ensures
        final(settings).ytdlp_version == Some(tag),
        final(settings).ytdlp_last_notified_failure.is_none(),
        !final(settings).ytdlp_last_rate_limit,
        final(settings).ytdlp_last_check == old(settings).ytdlp_last_check,
        keeps_preferences(*old(settings), *final(settings)),
{
    settings.ytdlp_version = Some(tag);
    settings.ytdlp_last_notified_failure = None;
    settings.ytdlp_last_rate_limit = false;
}

/// `after` is `before` with a failure for `reason` recorded, and `announce`
/// says whether it is announced: only when it is not the last failure
/// announced.
pub open spec fn records_failure(
    before: AppSettings,
    after: AppSettings,
    reason: Seq<char>,
    rate_limited: bool,
    announce: bool,
) -> bool {
    &&& announce == (opt_view(before.ytdlp_last_notified_failure) != Some(reason))
    &&& after.ytdlp_last_rate_limit == rate_limited
    &&& opt_view(after.ytdlp_last_notified_failure) == Some(reason)
    &&& after.ytdlp_last_check == before.ytdlp_last_check
    &&& after.ytdlp_version == before.ytdlp_version
    &&& keeps_preferences(before, after)
}

/// Records a failed update: remembers whether it was rate-limited and the
/// failure's reason; returns whether the failure is new (and should be
/// announced).
pub fn record_update_failure(settings: &mut AppSettings, reason: &str, rate_limited: bool) -> (announce: bool)
    ensures
        records_failure(*old(settings), *final(settings), reason@, rate_limited, announce),
{
    settings.ytdlp_last_rate_limit = rate_limited;
    let already_sent = match &settings.ytdlp_last_notified_failure {
        Some(m) => {
            let mc = to_chars(m.as_str());
            eq_str(mc.as_slice(), reason)
        },
        None => false,
    };
    if !already_sent {
        settings.ytdlp_last_notified_failure = Some(owned(reason));
    }
    !already_sent
}

/// Law: the same failure is announced once in a row — recording a reason
/// right after recording the same reason announces nothing, while a
/// different reason is announced.
pub proof fn lemma_failure_announced_once(
    s0: AppSettings,
    s1: AppSettings,
    s2: AppSettings,
    first: Seq<char>,
    second: Seq<char>,
    rate_limited1: bool,
    rate_limited2: bool,
    announce1: bool,
    announce2: bool,
)
    requires
        records_failure(s0, s1, first, rate_limited1, announce1),
        records_failure(s1, s2, second, rate_limited2, announce2),
    ensures
        announce2 <==> first != second,
{
}

/// Why the release could not be fetched: a rate limit (HTTP 403) backs
/// off; any other error is reported with its text.
pub fn fetch_failure_reason(rate_limited: bool, error: &str) -> (r: String)
    ensures
        rate_limited ==> r@ == "yt-dlp update check is rate-limited; backing off for one hour"@,
        !rate_limited ==> r@ == "yt-dlp update check failed: "@ + error@,
{
    if rate_limited {
        owned("yt-dlp update check is rate-limited; backing off for one hour")
    } else {
        cat("yt-dlp update check failed: ", error)
    }
}

// ── The checksum manifest ────────────────────────────────────────────────────

/// The lines of `body`: the pieces between newlines.
pub open spec fn pieces(body: Seq<char>) -> Seq<Seq<char>>
    decreases body.len(),
{
    if has_char(body, '\n') {
        proof {
            let w = choose|w: int| 0 <= w < body.len() && body[w] == '\n';
            lemma_exists_first(body, '\n', w);
        }
        seq![body.subrange(0, first_index(body, '\n'))] + pieces(
            body.subrange(first_index(body, '\n') + 1, body.len() as int),
        )
    } else {
        seq![body]
    }
}

/// The first whitespace-separated word of a trimmed line.
pub open spec fn first_word(t: Seq<char>) -> Seq<char> {
    if exists|i: int| 0 <= i < t.len() && is_ws(t[i]) {
        t.subrange(0, choose|i: int| #[trigger] is_first_ws(t, i))
    } else {
        t
    }
}

pub open spec fn is_first_ws(t: Seq<char>, i: int) -> bool {
    0 <= i < t.len() && is_ws(t[i]) && forall|j: int| 0 <= j < i ==> !is_ws(t[j])
}

pub open spec fn is_last_ws(t: Seq<char>, i: int) -> bool {
    0 <= i < t.len() && is_ws(t[i]) && forall|j: int| i < j < t.len() ==> !is_ws(t[j])
}

/// The last whitespace-separated word of a trimmed line.
pub open spec fn last_word(t: Seq<char>) -> Seq<char> {
    if exists|i: int| 0 <= i < t.len() && is_ws(t[i]) {
        t.subrange((choose|i: int| #[trigger] is_last_ws(t, i)) + 1, t.len() as int)
    } else {
        t
    }
}

/// `s` without leading `*` (the binary-mode marker of checksum files).
pub open spec fn strip_stars(s: Seq<char>) -> Seq<char>
    decreases s.len(),
{
    if s.len() > 0 && s[0] == '*' {
        strip_stars(s.drop_first())
    } else {
        s
    }
}

/// The checksum a manifest line gives for `asset`: a line of at least two
/// words whose last word (without leading `*`) is the asset's name; its
/// first word is the checksum.
pub open spec fn line_checksum(line: Seq<char>, asset: Seq<char>) -> Option<Seq<char>> {
    let t = trim(line);
    if t.len() == 0 || !(exists|i: int| 0 <= i < t.len() && is_ws(t[i])) {
        None
    } else if strip_stars(last_word(t)) == asset {
        Some(first_word(t))
    } else {
        None
    }
}

/// The checksum of the first line, from line `k` on, that names `asset`.
pub open spec fn manifest_checksum_from(lines: Seq<Seq<char>>, asset: Seq<char>, k: int) -> Option<Seq<char>>
    decreases lines.len() - k,
{
    if k < 0 || k >= lines.len() {
        None
    } else if line_checksum(lines[k], asset).is_some() {
        line_checksum(lines[k], asset)
    } else {
        manifest_checksum_from(lines, asset, k + 1)
    }
}

pub open spec fn manifest_checksum(body: Seq<char>, asset: Seq<char>) -> Option<Seq<char>> {
    manifest_checksum_from(pieces(body), asset, 0)
}

fn find_ws(s: &[char]) -> (r: Option<usize>)
    ensures
        match r {
            Some(i) => is_first_ws(s@, i as int),
            None => forall|j: int| 0 <= j < s@.len() ==> !is_ws(#[trigger] s@[j]),
        },
{
    let mut i: usize = 0;
    while i < s.len()
        invariant
            i <= s.len(),
            forall|j: int| 0 <= j < i ==> !is_ws(#[trigger] s@[j]),
        decreases s.len() - i,
    {
        if is_ws_exec(s[i]) {
            return Some(i);
        }
        i = i + 1;
    }
    None
}

fn rfind_ws(s: &[char]) -> (r: Option<usize>)
    ensures
        match r {
            Some(i) => is_last_ws(s@, i as int),
            None => forall|j: int| 0 <= j < s@.len() ==> !is_ws(#[trigger] s@[j]),
        },
{
    let mut i: usize = s.len();
    while i > 0
        invariant
            i <= s.len(),
            forall|j: int| i <= j < s@.len() ==> !is_ws(#[trigger] s@[j]),
        decreases i,
    {
        if is_ws_exec(s[i - 1]) {
            return Some(i - 1);
        }
        i = i - 1;
    }
    None
}

proof fn lemma_first_ws_unique(t: Seq<char>, i: int)
    requires
        is_first_ws(t, i),
    ensures
        (choose|k: int| #[trigger] is_first_ws(t, k)) == i,
{
    let k = choose|k: int| #[trigger] is_first_ws(t, k);
    assert(is_first_ws(t, k));
    if k < i {
        assert(!is_ws(t[k]));
    } else if k > i {
        assert(!is_ws(t[i]));
    }
}

proof fn lemma_last_ws_unique(t: Seq<char>, i: int)
    requires
        is_last_ws(t, i),
    ensures
        (choose|k: int| #[trigger] is_last_ws(t, k)) == i,
{
    let k = choose|k: int| #[trigger] is_last_ws(t, k);
    assert(is_last_ws(t, k));
    if k < i {
        assert(!is_ws(t[i]));
    } else if k > i {
        assert(!is_ws(t[k]));
    }
}

proof fn lemma_strip_stars_at(s: Seq<char>, lo: int)
    requires
        0 <= lo <= s.len(),
        forall|j: int| 0 <= j < lo ==> s[j] == '*',
        lo == s.len() || s[lo] != '*',
    ensures
        strip_stars(s) == s.subrange(lo, s.len() as int),
    decreases lo,
{
    if lo == 0 {
        assert(s.subrange(0, s.len() as int) =~= s);
    } else {
        let t = s.drop_first();
        assert forall|j: int| 0 <= j < lo - 1 implies t[j] == '*' by {
            assert(t[j] == s[j + 1]);
        }
        lemma_strip_stars_at(t, lo - 1);
        assert(t.subrange(lo - 1, t.len() as int) =~= s.subrange(lo, s.len() as int));
    }
}

fn strip_stars_chars(s: &[char]) -> (r: Vec<char>)
    ensures
        r@ == strip_stars(s@),
{
    let mut lo: usize = 0;
    while lo < s.len() && s[lo] == '*'
        invariant
            lo <= s.len(),
            forall|j: int| 0 <= j < lo ==> s@[j] == '*',
        decreases s.len() - lo,
    {
        lo = lo + 1;
    }
    proof {
        lemma_strip_stars_at(s@, lo as int);
    }
    slice_vec(s, lo, s.len())
}

fn checksum_of_line(line: &[char], asset: &[char]) -> (r: Option<Vec<char>>)
    ensures
        match line_checksum(line@, asset@) {
            Some(c) => r.is_some() && r.unwrap()@ == c,
            None => r.is_none(),
        },
{
    let t = trim_chars(line);
    if t.len() == 0 {
        return None;
    }
    let first = match find_ws(t.as_slice()) {
        Some(i) => i,
        None => {
            return None;
        },
    };
    let last = match rfind_ws(t.as_slice()) {
        Some(i) => i,
        None => {
            return None;
        },
    };
    proof {
        lemma_first_ws_unique(t@, first as int);
        lemma_last_ws_unique(t@, last as int);
    }
    let lw = slice_vec(t.as_slice(), last + 1, t.len());
    let name = strip_stars_chars(lw.as_slice());
    if chars_eq(name.as_slice(), asset) {
        Some(slice_vec(t.as_slice(), 0, first))
    } else {
        None
    }
}

/// The checksum `body` (a `SHA2-256SUMS` manifest) lists for `asset_name`:
/// from the first line of at least two words whose last word, without
/// leading `*`, is the name.
pub fn parse_release_checksum(body: &str, asset_name: &str) -> (r: Option<String>)
    ensures
        match manifest_checksum(body@, asset_name@) {
            Some(c) => r.is_some() && r.unwrap()@ == c,
            None => r.is_none(),
        },
{
    let b = to_chars(body);
    let asset = to_chars(asset_name);
    let mut rest: Vec<char> = b;
    let ghost lines = pieces(body@);
    let ghost mut k: int = 0;
    loop
        invariant
            lines == pieces(body@),
            0 <= k < lines.len(),
            pieces(rest@) == lines.subrange(k, lines.len() as int),
            manifest_checksum(body@, asset_name@) == manifest_checksum_from(lines, asset_name@, k),
            asset@ == asset_name@,
        decreases rest@.len(),
    {
        let ghost old_rest = rest@;
        let (line, next, more) = match find_char(rest.as_slice(), '\n') {
            Some(i) => {
                proof {
                    lemma_first_index_unique(rest@, '\n', i as int);
                }
                (slice_vec(rest.as_slice(), 0, i), slice_vec(rest.as_slice(), i + 1, rest.len()), true)
            },
            None => (slice_vec(rest.as_slice(), 0, rest.len()), Vec::new(), false),
        };
        proof {
            if !more {
                assert(line@ =~= old_rest);
            }
            assert(pieces(old_rest)[0] == line@);
            assert(lines[k] == line@);
        }
        match checksum_of_line(line.as_slice(), asset.as_slice()) {
            Some(c) => {
                return Some(from_chars(c.as_slice()));
            },
            None => {},
        }
        if !more {
            proof {
                assert(pieces(old_rest).len() == 1);
                assert(k + 1 == lines.len());
                assert(line_checksum(lines[k], asset_name@).is_none());
                assert(manifest_checksum_from(lines, asset_name@, k + 1).is_none());
            }
            return None;
        }
        proof {
            assert(pieces(old_rest) =~= seq![line@] + pieces(next@));
            assert(pieces(next@) =~= pieces(old_rest).subrange(1, pieces(old_rest).len() as int));
            assert(pieces(next@) =~= lines.subrange(k + 1, lines.len() as int));
            assert(pieces(next@).len() >= 1) by {
                lemma_pieces_nonempty(next@);
            }
            k = k + 1;
        }
        rest = next;
    }
}

proof fn lemma_pieces_nonempty(s: Seq<char>)
    ensures
        pieces(s).len() >= 1,
    decreases s.len(),
{
    if has_char(s, '\n') {
        let w = choose|w: int| 0 <= w < s.len() && s[w] == '\n';
        lemma_exists_first(s, '\n', w);
        lemma_pieces_nonempty(s.subrange(first_index(s, '\n') + 1, s.len() as int));
    }
}

/// The checksum the manifest lists for `asset_name`, or why there is none.
pub fn checksum_for_asset(body: &str, asset_name: &str) -> (r: Result<String, String>)
    ensures
        match manifest_checksum(body@, asset_name@) {
            Some(c) => r matches Ok(v) && v@ == c,
            None => r matches Err(e) && e@ == "checksum for "@ + asset_name@ + " not found in release manifest"@,
        },
{
    match parse_release_checksum(body, asset_name) {
        Some(c) => Ok(c),
        None => Err(crate::text::cat3("checksum for ", asset_name, " not found in release manifest")),
    }
}

/// The steps of an update that can fail after the release was chosen.
#[derive(Debug, Clone, Copy, PartialEq, Eq)]
pub enum UpdateStage {
    ChecksumDownload,
    BinaryDownload,
    Canary,
}

/// The reason reported when `stage` failed with `error`.
pub fn stage_failure_reason(stage: UpdateStage, error: &str) -> (r: String)
    ensures
        r@ == match stage {
            UpdateStage::ChecksumDownload => "yt-dlp checksum download failed: "@ + error@,
            UpdateStage::BinaryDownload => "yt-dlp binary download failed: "@ + error@,
            UpdateStage::Canary => "yt-dlp update failed: "@ + error@,
        },
{
    match stage {
        UpdateStage::ChecksumDownload => cat("yt-dlp checksum download failed: ", error),
        UpdateStage::BinaryDownload => cat("yt-dlp binary download failed: ", error),
        UpdateStage::Canary => cat("yt-dlp update failed: ", error),
    }
}

/// The file names used while swapping in a new sidecar: the new binary is
/// written to `<name>.tmp`, the old one kept as `<name>.bak`.
pub fn staging_names(sidecar_name: &str) -> (r: (String, String))
    ensures
        r.0@ == sidecar_name@ + ".tmp"@,
        r.1@ == sidecar_name@ + ".bak"@,
{
    (cat(sidecar_name, ".tmp"), cat(sidecar_name, ".bak"))
}

// ── Swapping in the new binary ──────────────────────────────────────────────

/// One file-system step of installing a verified, staged binary.
#[derive(Debug, Clone, Copy, PartialEq, Eq, Structural)]
pub enum SwapStep {
    /// Delete the backup left by the previous update.
    RemoveBackup,
    /// Copy the active binary to the backup path; the active binary stays.
    BackUpActive,
    /// Rename the staged binary over the active path, replacing it in one step.
    ReplaceActive,
}

/// The three sidecar files, each absent or holding some binary (told apart
/// by an integer).
pub struct SwapFiles {
    pub active: Option<int>,
    pub backup: Option<int>,
    pub staged: Option<int>,
}

/// Whether `step` can be carried out on `files`: a copy needs its source,
/// a rename needs the staged file.
pub open spec fn swap_step_enabled(files: SwapFiles, step: SwapStep) -> bool {
    match step {
        SwapStep::RemoveBackup => true,
        SwapStep::BackUpActive => files.active is Some,
        SwapStep::ReplaceActive => files.staged is Some,
    }
}

/// The files after `step`.
pub open spec fn apply_swap_step(files: SwapFiles, step: SwapStep) -> SwapFiles {
    match step {
        SwapStep::RemoveBackup => SwapFiles { backup: None, ..files },
        SwapStep::BackUpActive => SwapFiles { backup: files.active, ..files },
        SwapStep::ReplaceActive => SwapFiles { active: files.staged, staged: None, ..files },
    }
}

/// The files after running `steps` in order.
pub open spec fn run_swap(files: SwapFiles, steps: Seq<SwapStep>) -> SwapFiles
    decreases steps.len(),
{
    if steps.len() == 0 {
        files
    } else {
        apply_swap_step(run_swap(files, steps.drop_last()), steps.last())
    }
}

pub open spec fn swap_plan_for(active_exists: bool, backup_exists: bool) -> Seq<SwapStep> {
    (if backup_exists { seq![SwapStep::RemoveBackup] } else { Seq::empty() })
        + (if active_exists { seq![SwapStep::BackUpActive] } else { Seq::empty() })
        + seq![SwapStep::ReplaceActive]
}

/// The steps that install a staged binary: drop the old backup, copy the
/// active binary to the backup path, then rename the staged binary over
/// the active one.
pub fn swap_plan(active_exists: bool, backup_exists: bool) -> (r: Vec<SwapStep>)
    ensures
        r@ == swap_plan_for(active_exists, backup_exists),
{
    let mut steps: Vec<SwapStep> = Vec::new();
    if backup_exists {
        steps.push(SwapStep::RemoveBackup);
    }
    if active_exists {
        steps.push(SwapStep::BackUpActive);
    }
    steps.push(SwapStep::ReplaceActive);
    proof {
        assert(steps@ =~= swap_plan_for(active_exists, backup_exists));
    }
    steps
}

/// Law: installing never leaves the sidecar missing. Every step of the plan
/// can be carried out when it comes; where an active binary existed, one is
/// present after every step; and at the end the staged binary is the
/// active one, the previous active binary is the backup, and nothing is
/// left staged.
pub proof fn lemma_swap_keeps_a_binary(files: SwapFiles)
    requires
        files.staged is Some,
    ensures
        ({
            let plan = swap_plan_for(files.active is Some, files.backup is Some);
            &&& forall|k: int| 0 <= k < plan.len() ==> #[trigger] swap_step_enabled(
                run_swap(files, plan.take(k)),
                plan[k],
            )
            &&& forall|k: int| 0 <= k <= plan.len() && files.active is Some ==> (#[trigger] run_swap(
                files,
                plan.take(k),
            )).active is Some
            &&& run_swap(files, plan).active == files.staged
            &&& run_swap(files, plan).backup == files.active
            &&& run_swap(files, plan).staged is None
        }),
{
    let plan = swap_plan_for(files.active is Some, files.backup is Some);
    assert(plan.take(plan.len() as int) =~= plan);
    assert forall|k: int| 0 < k <= plan.len() implies plan.take(k).drop_last() =~= plan.take(k - 1) by {}
    reveal_with_fuel(run_swap, 4);
}

// ── The downloaded binary ───────────────────────────────────────────────────

pub open spec fn hex_digit(n: nat) -> char {
    if n < 10 {
        ((48 + n) as u32) as char
    } else {
        ((87 + n) as u32) as char
    }
}

/// Lower-case hexadecimal, two digits per byte.
pub open spec fn hex(bytes: Seq<u8>) -> Seq<char>
    decreases bytes.len(),
{
    if bytes.len() == 0 {
        Seq::empty()
    } else {
        hex(bytes.drop_last()) + seq![hex_digit((bytes.last() / 16) as nat), hex_digit((bytes.last() % 16) as nat)]
    }
}

fn hex_digit_exec(n: u8) -> (c: char)
    requires
        n < 16,
    ensures
        c == hex_digit(n as nat),
{
    if n < 10 {
        (48u8 + n) as char
    } else {
        (87u8 + n) as char
    }
}

/// The SHA-256 digest of `bytes` in lower-case hexadecimal.
pub fn sha256_hex(bytes: &[u8]) -> (r: String)
    ensures
        r@ == hex(spec_sha256(bytes@)),
        r@.len() == 64,
{
    let digest = sha256(bytes);
    let mut out = String::new();
    let mut i: usize = 0;
    while i < digest.len()
        invariant
            i <= digest.len(),
            digest@.len() == 32,
            out@ == hex(digest@.subrange(0, i as int)),
            out@.len() == 2 * i,
        decreases digest.len() - i,
    {
        let b = digest[i];
        crate::trusted::string_push(&mut out, hex_digit_exec(b / 16));
        crate::trusted::string_push(&mut out, hex_digit_exec(b % 16));
        assert(digest@.subrange(0, (i + 1) as int).drop_last() =~= digest@.subrange(0, i as int));
        i = i + 1;
    }
    assert(digest@.subrange(0, 32) =~= digest@);
    out
}

/// Checks a downloaded binary against the manifest's checksum (compared
/// without regard to case).
pub fn verify_binary(bytes: &[u8], expected_sha: &str) -> (r: Result<(), String>)
    ensures
        eq_ignore_case(hex(spec_sha256(bytes@)), expected_sha@) ==> r is Ok,
        !eq_ignore_case(hex(spec_sha256(bytes@)), expected_sha@) ==> (r matches Err(e)
            && e@ == "yt-dlp update failed: checksum mismatch"@),
{
    let actual = sha256_hex(bytes);
    let a = to_chars(actual.as_str());
    let e = to_chars(expected_sha);
    if chars_eq_ignore_case(a.as_slice(), e.as_slice()) {
        Ok(())
    } else {
        Err(owned("yt-dlp update failed: checksum mismatch"))
    }
}

/// The version a test run of the new binary printed: its trimmed output,
/// when it ran successfully and printed something.
pub fn canary_version(success: bool, status: &str, stdout: &str) -> (r: Result<String, String>)
    ensures
        !success ==> (r matches Err(e) && e@ == "canary execution failed with status "@ + status@),
        success && trim(stdout@).len() == 0 ==> (r matches Err(e) && e@ == "canary execution returned no version output"@),
        success && trim(stdout@).len() > 0 ==> (r matches Ok(v) && v@ == trim(stdout@)),
{
    if !success {
        return Err(cat("canary execution failed with status ", status));
    }
    let c = to_chars(stdout);
    let t = trim_chars(c.as_slice());
    if t.len() == 0 {
        return Err(owned("canary execution returned no version output"));
    }
    Ok(from_chars(t.as_slice()))
}

/// The release asset that carries yt-dlp for a platform.
pub open spec fn release_asset_for(platform: Platform) -> Result<Seq<char>, Seq<char>> {
    match platform {
        Platform::WindowsX64 => Ok("yt-dlp.exe"@),
        Platform::LinuxX64 => Ok("yt-dlp_linux"@),
        Platform::MacosX64 | Platform::MacosArm64 => Ok("yt-dlp_macos"@),
        Platform::Other => Err("yt-dlp release asset is not configured for this target triple"@),
    }
}

pub fn platform_release_asset_name(platform: Platform) -> (r: Result<&'static str, String>)
    ensures
        result_view(r) == release_asset_for(platform),
{
    match platform {
        Platform::WindowsX64 => Ok("yt-dlp.exe"),
        Platform::LinuxX64 => Ok("yt-dlp_linux"),
        Platform::MacosX64 | Platform::MacosArm64 => Ok("yt-dlp_macos"),
        Platform::Other => Err(owned("yt-dlp release asset is not configured for this target triple")),
    }
}

/// The managed sidecar's file name for a platform.
pub fn platform_sidecar_name(platform: Platform) -> (r: Result<&'static str, String>)
    ensures
        match (r, crate::bridge::media::platform_sidecar_name_spec(platform)) {
            (Ok(a), Ok(b)) => a@ == b,
            (Err(a), Err(_)) => a@ == "yt-dlp updater is not configured for this target triple"@,
            _ => false,
        },
{
    match platform {
        Platform::Other => Err(owned("yt-dlp updater is not configured for this target triple")),
        _ => crate::bridge::media::platform_sidecar_name(platform),
    }
}

/// An update notification for the user interface.
#[derive(Debug, Clone)]
pub struct YtdlpUpdateEvent {
    pub kind: String,
    pub message: String,
    pub version: Option<String>,
}

/// "Already current" (sent on a forced check).
pub fn noop_event(version: Option<String>) -> (e: YtdlpUpdateEvent)
    ensures
        e.kind@ == "noop"@,
        e.message@ == "yt-dlp is already current."@,
        e.version == version,
{
    YtdlpUpdateEvent { kind: owned("noop"), message: owned("yt-dlp is already current."), version }
}

/// "Updated to `tag`", carrying the version the new binary reports.
pub fn updated_event(tag: &str, reported_version: String) -> (e: YtdlpUpdateEvent)
    ensures
        e.kind@ == "updated"@,
        e.message@ == "yt-dlp updated to "@ + tag@,
        e.version == Some(reported_version),
{
    YtdlpUpdateEvent { kind: owned("updated"), message: cat("yt-dlp updated to ", tag), version: Some(reported_version) }
}

/// "Failed", with the reason and the release concerned (if known).
pub fn failed_event(reason: String, version: Option<String>) -> (e: YtdlpUpdateEvent)
    ensures
        e.kind@ == "failed"@,
        e.message == reason,
        e.version == version,
{
    YtdlpUpdateEvent { kind: owned("failed"), message: reason, version }
}

// ── One update run ───────────────────────────────────────────────────────────

/// Starts an update run when one is due (see `check_due`): the check time
/// is recorded and the rate-limit flag cleared. Returns whether the run
/// goes on; when it does not, nothing changes.
pub fn start_update_check(settings: &mut AppSettings, force: bool, now: i64) -> (r: bool)
    ensures
        r == check_due(
            force,
            old(settings).ytdlp_auto_update,
            old(settings).ytdlp_last_check,
            old(settings).ytdlp_last_rate_limit,
            now,
        ),
        r ==> final(settings).ytdlp_last_check == Some(now) && !final(settings).ytdlp_last_rate_limit
            && final(settings).ytdlp_version == old(settings).ytdlp_version
            && final(settings).ytdlp_last_notified_failure == old(settings).ytdlp_last_notified_failure
            && keeps_preferences(*old(settings), *final(settings)),
        !r ==> *final(settings) == *old(settings),
{
    if !update_check_due(settings, force, now) {
        return false;
    }
    record_check_started(settings, now);
    true
}

/// What an update run is told about itself.
pub struct UpdateContext {
    /// The user asked for this check.
    pub force: bool,
    /// The version shipped with the application.
    pub bundled_version: String,
    pub platform: Platform,
}

/// Where an update run stands.
pub enum UpdatePhase {
    /// Waiting for the latest release.
    FetchingRelease,
    /// Waiting for the checksum manifest of release `tag`; the binary is
    /// `asset_name`, to be fetched from `binary_url`.
    FetchingChecksums { tag: String, asset_name: String, binary_url: String },
    /// Waiting for the binary of release `tag`, which must hash to `expected_sha`.
    FetchingBinary { tag: String, expected_sha: String },
    /// Waiting for the staged binary's test run.
    RunningCanary { tag: String },
    /// Waiting for the staged binary (which reported `reported`) to replace
    /// the installed one.
    Installing { tag: String, reported: String },
    /// The run is over.
    Done,
}

/// What happened since the last step.
pub enum UpdateEvent {
    ReleaseFetched { tag: String, assets: Vec<GithubAsset> },
    /// The release could not be fetched; `rate_limited` when the server
    /// answered 403.
    ReleaseFetchFailed { rate_limited: bool, error: String },
    ChecksumsFetched { body: String },
    BinaryFetched { bytes: Vec<u8> },
    /// A download failed with `error`.
    FetchFailed { error: String },
    /// The staged binary's version, or why its test run failed.
    CanaryFinished { result: Result<String, String> },
    /// The staged binary is installed.
    Installed,
}

/// What to do next.
pub enum UpdateAction {
    FetchChecksums { url: String },
    FetchBinary { url: String },
    /// Write `bytes` to the staging file and run it once.
    RunCanary { bytes: Vec<u8> },
    /// Swap the staged binary in, keeping the old one as a backup.
    Install,
    /// The run is over: save the settings when `save`, then send `event`.
    Finish { save: bool, event: Option<YtdlpUpdateEvent> },
}

/// The run ends in failure with `reason` (about release `version`): the
/// failure is remembered, and announced only when it differs from the last
/// one announced.
pub open spec fn is_failure_step(
    before: AppSettings,
    after: AppSettings,
    r: (UpdatePhase, UpdateAction),
    reason: Seq<char>,
    version: Option<Seq<char>>,
    rate_limited: bool,
) -> bool {
    let announce = opt_view(before.ytdlp_last_notified_failure) != Some(reason);
    &&& r.0 is Done
    &&& r.1 matches UpdateAction::Finish { save, event } && save && (event is Some <==> announce) && (
    event matches Some(e) ==> e.kind@ == "failed"@ && e.message@ == reason && opt_view(e.version) == version)
    &&& records_failure(before, after, reason, rate_limited, announce)
}

/// The run goes on to `r.0` with action `r.1`, leaving the settings alone.
pub open spec fn is_quiet_step(before: AppSettings, after: AppSettings) -> bool {
    after == before
}

fn fail_run(settings: &mut AppSettings, reason: String, version: Option<String>, rate_limited: bool) -> (r: (
    UpdatePhase,
    UpdateAction,
))
    ensures
        is_failure_step(*old(settings), *final(settings), r, reason@, opt_view(version), rate_limited),
{
    let announce = record_update_failure(settings, reason.as_str(), rate_limited);
    let event = if announce {
        Some(failed_event(reason, version))
    } else {
        None
    };
    (UpdatePhase::Done, UpdateAction::Finish { save: true, event })
}

fn stop_run() -> (r: (UpdatePhase, UpdateAction))
    ensures
        r.0 is Done,
        r.1 matches UpdateAction::Finish { save, event } && !save && event is None,
{
    (UpdatePhase::Done, UpdateAction::Finish { save: false, event: None })
}

/// What one step of an update run does: the transition from `before` to
/// `after` and the result `r` for `event` in `phase`.
pub open spec fn update_transition(
    before: AppSettings,
    after: AppSettings,
    ctx: UpdateContext,
    phase: UpdatePhase,
    event: UpdateEvent,
    r: (UpdatePhase, UpdateAction),
) -> bool {
    match (phase, event) {
        (UpdatePhase::FetchingRelease, UpdateEvent::ReleaseFetchFailed { rate_limited, error }) => is_failure_step(
            before,
            after,
            r,
            if rate_limited {
                "yt-dlp update check is rate-limited; backing off for one hour"@
            } else {
                "yt-dlp update check failed: "@ + error@
            },
            None,
            rate_limited,
        ),
        (UpdatePhase::FetchingRelease, UpdateEvent::ReleaseFetched { tag, assets }) => match release_outcome(
            tag@,
            assets@,
            effective_version(opt_view(before.ytdlp_version), ctx.bundled_version@),
            release_asset_for(ctx.platform),
        ) {
            DecisionView::UpToDate => {
                &&& r.0 is Done
                &&& r.1 matches UpdateAction::Finish { save, event } && save && (ctx.force ==> (event matches Some(
                    e,
                ) && e.kind@ == "noop"@ && e.message@ == "yt-dlp is already current."@ && opt_view(e.version)
                    == Some(tag@))) && (!ctx.force ==> event is None)
                &&& after.ytdlp_version == Some(tag)
                &&& after.ytdlp_last_check == before.ytdlp_last_check
                &&& after.ytdlp_last_rate_limit == before.ytdlp_last_rate_limit
                &&& after.ytdlp_last_notified_failure == before.ytdlp_last_notified_failure
                &&& keeps_preferences(before, after)
            },
            DecisionView::Fail(reason, version) => is_failure_step(
                before,
                after,
                r,
                reason,
                version,
                false,
            ),
            DecisionView::Download(c, b) => {
                &&& r.0 matches UpdatePhase::FetchingChecksums { tag: t, asset_name: n, binary_url: u } && t@
                    == tag@ && Ok::<Seq<char>, Seq<char>>(n@) == release_asset_for(ctx.platform) && u@
                    == assets@[b].browser_download_url@
                &&& r.1 matches UpdateAction::FetchChecksums { url } && url@ == assets@[c].browser_download_url@
                &&& is_quiet_step(before, after)
            },
        },
        (UpdatePhase::FetchingChecksums { tag, asset_name, binary_url }, UpdateEvent::FetchFailed { error }) =>
            is_failure_step(
            before,
            after,
            r,
            "yt-dlp checksum download failed: "@ + error@,
            Some(tag@),
            false,
        ),
        (UpdatePhase::FetchingChecksums { tag, asset_name, binary_url }, UpdateEvent::ChecksumsFetched { body }) =>
            match manifest_checksum(body@, asset_name@) {
            None => is_failure_step(
                before,
                after,
                r,
                "checksum for "@ + asset_name@ + " not found in release manifest"@,
                Some(tag@),
                false,
            ),
            Some(sha) => {
                &&& r.0 matches UpdatePhase::FetchingBinary { tag: t, expected_sha: e } && t@ == tag@ && e@ == sha
                &&& r.1 matches UpdateAction::FetchBinary { url } && url@ == binary_url@
                &&& is_quiet_step(before, after)
            },
        },
        (UpdatePhase::FetchingBinary { tag, expected_sha }, UpdateEvent::FetchFailed { error }) => is_failure_step(
            before,
            after,
            r,
            "yt-dlp binary download failed: "@ + error@,
            Some(tag@),
            false,
        ),
        (UpdatePhase::FetchingBinary { tag, expected_sha }, UpdateEvent::BinaryFetched { bytes }) => if eq_ignore_case(
            hex(spec_sha256(bytes@)),
            expected_sha@,
        ) {
            &&& r.0 matches UpdatePhase::RunningCanary { tag: t } && t@ == tag@
            &&& r.1 matches UpdateAction::RunCanary { bytes: b } && b@ == bytes@
            &&& is_quiet_step(before, after)
        } else {
            is_failure_step(
                before,
                after,
                r,
                "yt-dlp update failed: checksum mismatch"@,
                Some(tag@),
                false,
            )
        },
        (UpdatePhase::RunningCanary { tag }, UpdateEvent::CanaryFinished { result }) => match result {
            Err(error) => is_failure_step(
                before,
                after,
                r,
                "yt-dlp update failed: "@ + error@,
                Some(tag@),
                false,
            ),
            Ok(reported) => {
                &&& r.0 matches UpdatePhase::Installing { tag: t, reported: v } && t@ == tag@ && v@ == reported@
                &&& r.1 is Install
                &&& is_quiet_step(before, after)
            },
        },
        (UpdatePhase::Installing { tag, reported }, UpdateEvent::Installed) => {
            &&& r.0 is Done
            &&& r.1 matches UpdateAction::Finish { save, event } && save && (event matches Some(e) && e.kind@
                == "updated"@ && e.message@ == "yt-dlp updated to "@ + tag@ && opt_view(e.version) == Some(
                reported@,
            ))
            &&& after.ytdlp_version == Some(tag)
            &&& after.ytdlp_last_notified_failure.is_none()
            &&& !after.ytdlp_last_rate_limit
            &&& after.ytdlp_last_check == before.ytdlp_last_check
            &&& keeps_preferences(before, after)
        },
        _ => {
            &&& r.0 is Done
            &&& r.1 matches UpdateAction::Finish { save, event } && !save && event is None
            &&& is_quiet_step(before, after)
        },
    }
}

/// One step of an update run: given where the run stands and what just
/// happened, updates the settings and says where the run goes and what to
/// do next (see `update_transition`). An event that does not fit the phase
/// ends the run quietly.
pub fn update_step(settings: &mut AppSettings, ctx: &UpdateContext, phase: UpdatePhase, event: UpdateEvent) -> (r: (
    UpdatePhase,
    UpdateAction,
))
    ensures
        update_transition(*old(settings), *final(settings), *ctx, phase, event, r),
{
    match phase {
        UpdatePhase::FetchingRelease => match event {
            UpdateEvent::ReleaseFetchFailed { rate_limited, error } => {
                let reason = fetch_failure_reason(rate_limited, error.as_str());
                fail_run(settings, reason, None, rate_limited)
            },
            UpdateEvent::ReleaseFetched { tag, assets } => {
                let current = current_effective_version(settings, ctx.bundled_version.as_str());
                let asset_name = platform_release_asset_name(ctx.platform);
                let decision = release_decision(tag.as_str(), assets.as_slice(), current.as_str(), asset_name);
                match decision {
                    ReleaseDecision::UpToDate => {
                        record_version(settings, tag);
                        let event = if ctx.force {
                            Some(noop_event(crate::desktop::downloads::clone_opt(&settings.ytdlp_version)))
                        } else {
                            None
                        };
                        (UpdatePhase::Done, UpdateAction::Finish { save: true, event })
                    },
                    ReleaseDecision::Fail { reason, version } => fail_run(settings, reason, version, false),
                    ReleaseDecision::Download { checksums, binary } => {
                        let name = match platform_release_asset_name(ctx.platform) {
                            Ok(n) => owned(n),
                            Err(e) => e,
                        };
                        (
                            UpdatePhase::FetchingChecksums {
                                tag,
                                asset_name: name,
                                binary_url: assets[binary].browser_download_url.clone(),
                            },
                            UpdateAction::FetchChecksums { url: assets[checksums].browser_download_url.clone() },
                        )
                    },
                }
            },
            _ => stop_run(),
        },
        UpdatePhase::FetchingChecksums { tag, asset_name, binary_url } => match event {
            UpdateEvent::FetchFailed { error } => {
                let reason = stage_failure_reason(UpdateStage::ChecksumDownload, error.as_str());
                fail_run(settings, reason, Some(tag), false)
            },
            UpdateEvent::ChecksumsFetched { body } => match checksum_for_asset(body.as_str(), asset_name.as_str()) {
                Ok(sha) => (
                    UpdatePhase::FetchingBinary { tag, expected_sha: sha },
                    UpdateAction::FetchBinary { url: binary_url },
                ),
                Err(reason) => fail_run(settings, reason, Some(tag), false),
            },
            _ => stop_run(),
        },
        UpdatePhase::FetchingBinary { tag, expected_sha } => match event {
            UpdateEvent::FetchFailed { error } => {
                let reason = stage_failure_reason(UpdateStage::BinaryDownload, error.as_str());
                fail_run(settings, reason, Some(tag), false)
            },
            UpdateEvent::BinaryFetched { bytes } => match verify_binary(bytes.as_slice(), expected_sha.as_str()) {
                Ok(()) => (UpdatePhase::RunningCanary { tag }, UpdateAction::RunCanary { bytes }),
                Err(reason) => fail_run(settings, reason, Some(tag), false),
            },
            _ => stop_run(),
        },
        UpdatePhase::RunningCanary { tag } => match event {
            UpdateEvent::CanaryFinished { result } => match result {
                Ok(reported) => (UpdatePhase::Installing { tag, reported }, UpdateAction::Install),
                Err(error) => {
                    let reason = stage_failure_reason(UpdateStage::Canary, error.as_str());
                    fail_run(settings, reason, Some(tag), false)
                },
            },
            _ => stop_run(),
        },
        UpdatePhase::Installing { tag, reported } => match event {
            UpdateEvent::Installed => {
                let message_tag = owned(tag.as_str());
                record_update_success(settings, tag);
                (
                    UpdatePhase::Done,
                    UpdateAction::Finish { save: true, event: Some(updated_event(message_tag.as_str(), reported)) },
                )
            },
            _ => stop_run(),
        },
        UpdatePhase::Done => stop_run(),
    }
}

/// Law: an update run only ever runs or installs a binary that was
/// verified — the staged binary is run only when its SHA-256 equals the
/// checksum expected for the release, that checksum is the one the release
/// manifest lists for this platform's asset, installing follows only a
/// successful test run, and every failure ends the run without installing
/// anything.
pub proof fn lemma_only_verified_binaries_are_installed(
    before: AppSettings,
    after: AppSettings,
    ctx: UpdateContext,
    phase: UpdatePhase,
    event: UpdateEvent,
    r: (UpdatePhase, UpdateAction),
)
    requires
        update_transition(before, after, ctx, phase, event, r),
    ensures
        r.0 matches UpdatePhase::FetchingBinary { expected_sha, .. } ==> (phase matches UpdatePhase::FetchingChecksums {
            asset_name,
            ..
        } && event matches UpdateEvent::ChecksumsFetched { body } && manifest_checksum(body@, asset_name@) == Some(
            expected_sha@,
        )),
        r.1 matches UpdateAction::RunCanary { bytes } ==> (phase matches UpdatePhase::FetchingBinary { expected_sha, .. }
            && eq_ignore_case(hex(spec_sha256(bytes@)), expected_sha@)),
        r.1 is Install ==> phase is RunningCanary && (event matches UpdateEvent::CanaryFinished { result }
            && result is Ok),
        r.0 is Done ==> r.1 is Finish,
{
}

} // verus!
