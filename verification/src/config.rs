//! Download configuration: priority, throttling, retry policy and the
//! validated per-download configuration.

use vstd::prelude::*;
use crate::error::KhukriError;
use crate::text::{
    cat, cat3, eq_str, has_prefix, is_blank, lower, lowercase_chars, owned, starts_with, to_chars, trim,
};
use crate::trusted::{
    check_proxy_url, check_header_name, check_header_value, parse_url, path_components, path_file_name,
    path_join, path_parent, spec_components, spec_file_name, spec_join, spec_parent, spec_proxy_accepts,
    spec_url_parse, valid_header_name, valid_header_value,
};

verus! {

broadcast use {crate::text::lemma_starts_with_concat, crate::text::lemma_starts_with_self};

// ── Priority ─────────────────────────────────────────────────────────────────

/// Download priority; the queue starts High before Normal before Low.
#[derive(Debug, Clone, Copy, PartialEq, Eq, Structural)]
pub enum Priority {
    Low,
    Normal,
    High,
}

impl Priority {
    /// Scheduling rank: Low 0, Normal 1, High 2.
    pub open spec fn spec_rank(self) -> u8 {
        match self {
            Priority::Low => 0,
            Priority::Normal => 1,
            Priority::High => 2,
        }
    }

    /// The label stored for the priority.
    pub open spec fn label(self) -> Seq<char> {
        match self {
            Priority::Low => "low"@,
            Priority::Normal => "normal"@,
            Priority::High => "high"@,
        }
    }

    pub fn as_str(&self) -> (r: &'static str)
        ensures
            r@ == self.label(),
    {
        match self {
            Priority::Low => "low",
            Priority::Normal => "normal",
            Priority::High => "high",
        }
    }

    pub fn rank(&self) -> (r: u8)
        ensures
            r == self.spec_rank(),
    {
        match self {
            Priority::Low => 0,
            Priority::Normal => 1,
            Priority::High => 2,
        }
    }
}

impl Default for Priority {
    fn default() -> (r: Self)
        ensures
            r == Priority::Low,
    {
        Priority::Low
    }
}

// ── ThrottleConfig / RetryConfig ─────────────────────────────────────────────

/// Bandwidth cap for a download. `None` = unlimited.
#[derive(Debug, Clone, Copy, PartialEq, Eq, Structural)]
pub struct ThrottleConfig {
    pub bytes_per_sec: Option<u64>,
}

impl Default for ThrottleConfig {
    fn default() -> (r: Self)
        ensures
            r.bytes_per_sec.is_none(),
    {
        ThrottleConfig { bytes_per_sec: None }
    }
}

#[derive(Debug, Clone, Copy, PartialEq, Eq, Structural)]
pub struct RetryConfig {
    pub max_retries: u8,
    pub base_delay_ms: u64,
}

impl Default for RetryConfig {
    /// Three retries, starting one second apart.
    fn default() -> (r: Self)
        ensures
            r.max_retries == 3,
            r.base_delay_ms == 1000,
    {
        RetryConfig { max_retries: 3, base_delay_ms: 1_000 }
    }
}

// ── Canonical paths ─────────────────────────────────────────────────────────

/// One decision of the walk from the output path up to its deepest existing
/// ancestor.
pub enum AncestorStep {
    /// The cursor exists: canonicalize it.
    Canonicalize,
    /// The cursor does not exist: remember its `name` and go up to `parent`.
    Probe { parent: String, name: String },
    /// The cursor does not exist and has no name or no parent to go up to.
    NoAncestor,
}

/// What the walk decides at `cursor`, given whether it exists.
pub open spec fn ancestor_step_is(cursor: Seq<char>, exists: bool, r: AncestorStep) -> bool {
    if exists {
        r is Canonicalize
    } else {
        match (spec_file_name(cursor), spec_parent(cursor)) {
            (Some(n), Some(p)) => r matches AncestorStep::Probe { parent, name } && parent@ == p && name@ == n,
            _ => r is NoAncestor,
        }
    }
}

/// The next step of the walk at `cursor`.
pub fn ancestor_step(cursor: &str, exists: bool) -> (r: AncestorStep)
    ensures
        ancestor_step_is(cursor@, exists, r),
{
    if exists {
        return AncestorStep::Canonicalize;
    }
    match path_file_name(cursor) {
        Some(name) => match path_parent(cursor) {
            Some(parent) => AncestorStep::Probe { parent, name },
            None => AncestorStep::NoAncestor,
        },
        None => AncestorStep::NoAncestor,
    }
}

/// `path`'s ancestor `k` levels up, if it has one.
pub open spec fn ancestor_of(path: Seq<char>, k: nat) -> Option<Seq<char>>
    decreases k,
{
    if k == 0 {
        Some(path)
    } else {
        match ancestor_of(path, (k - 1) as nat) {
            Some(c) => spec_parent(c),
            None => None,
        }
    }
}

/// The file name of `path`'s ancestor `k` levels up, if both exist.
pub open spec fn ancestor_name(path: Seq<char>, k: nat) -> Option<Seq<char>> {
    match ancestor_of(path, k) {
        Some(c) => spec_file_name(c),
        None => None,
    }
}

/// The walk went `tail.len()` levels up from `path` to `cursor`, and
/// `tail[k]` is the file name of the ancestor `k` levels up.
pub open spec fn walked(path: Seq<char>, tail: Seq<String>, cursor: Seq<char>) -> bool {
    &&& ancestor_of(path, tail.len()) == Some(cursor)
    &&& forall|k: int| 0 <= k < tail.len() ==> ancestor_name(path, k as nat) == Some((#[trigger] tail[k])@)
}

/// `base` with the names of `tail` appended, the last one first.
pub open spec fn rejoin(base: Seq<char>, tail: Seq<String>) -> Seq<char>
    decreases tail.len(),
{
    if tail.len() == 0 {
        base
    } else {
        rejoin(spec_join(base, tail.last()@), tail.drop_last())
    }
}

/// Appends the names the walk left behind to the canonical ancestor, in
/// path order.
pub fn reappend_tail(canonical: &str, tail: &Vec<String>) -> (r: String)
    ensures
        r@ == rejoin(canonical@, tail@),
{
    let mut r = owned(canonical);
    let mut i: usize = tail.len();
    assert(tail@.subrange(0, i as int) =~= tail@);
    while i > 0
        invariant
            i <= tail.len(),
            rejoin(canonical@, tail@) == rejoin(r@, tail@.subrange(0, i as int)),
        decreases i,
    {
        proof {
            let t = tail@.subrange(0, i as int);
            assert(t.last() == tail@[i - 1]);
            assert(t.drop_last() =~= tail@.subrange(0, i - 1));
        }
        r = path_join(r.as_str(), tail[i - 1].as_str());
        i = i - 1;
    }
    proof {
        assert(tail@.subrange(0, 0) =~= Seq::<String>::empty());
    }
    r
}

/// Going up from `cursor` to its parent, past its name, keeps the walk
/// consistent.
proof fn lemma_walk_up(path: Seq<char>, tail: Seq<String>, cursor: Seq<char>, name: String, parent: Seq<char>)
    requires
        walked(path, tail, cursor),
        spec_file_name(cursor) == Some(name@),
        spec_parent(cursor) == Some(parent),
    ensures
        walked(path, tail.push(name), parent),
{
    let t = tail.push(name);
    assert(ancestor_of(path, t.len()) == spec_parent(cursor));
    assert forall|k: int| 0 <= k < t.len() implies ancestor_name(path, k as nat) == Some((#[trigger] t[k])@) by {
        if k < tail.len() {
            assert(t[k] == tail[k]);
        }
    }
}

/// The walk from an output path up to its deepest existing ancestor: the
/// path it started from, where it stands, and the names it went up past.
pub struct AncestorWalk {
    pub path: String,
    pub cursor: String,
    pub tail: Vec<String>,
}

impl AncestorWalk {
    pub open spec fn wf(&self) -> bool {
        walked(self.path@, self.tail@, self.cursor@)
    }

    /// A walk standing at `path`.
    pub fn new(path: &str) -> (w: Self)
        ensures
            w.wf(),
            w.path@ == path@,
            w.cursor@ == path@,
            w.tail@.len() == 0,
    {
        AncestorWalk { path: owned(path), cursor: owned(path), tail: Vec::new() }
    }

    /// Takes the next step, given whether the cursor exists: on `Probe`
    /// the walk records the cursor's name and moves to its parent;
    /// otherwise it stays where it is.
    pub fn advance(&mut self, exists: bool) -> (r: AncestorStep)
        requires
            old(self).wf(),
        ensures
            final(self).wf(),
            final(self).path == old(self).path,
            ancestor_step_is(old(self).cursor@, exists, r),
            match r {
                AncestorStep::Probe { parent, name } => final(self).cursor@ == parent@ && final(self).tail@
                    == old(self).tail@.push(name),
                _ => final(self).cursor == old(self).cursor && final(self).tail@ == old(self).tail@,
            },
    {
        let step = ancestor_step(self.cursor.as_str(), exists);
        match &step {
            AncestorStep::Probe { parent, name } => {
                proof {
                    lemma_walk_up(self.path@, self.tail@, self.cursor@, *name, parent@);
                }
                self.tail.push(name.clone());
                self.cursor = parent.clone();
            },
            _ => {},
        }
        step
    }

    /// The canonical output path: the canonicalized ancestor with the names
    /// the walk went up past appended again.
    pub fn finish(&self, canonical: &str) -> (r: String)
        ensures
            r@ == rejoin(canonical@, self.tail@),
    {
        reappend_tail(canonical, &self.tail)
    }
}

/// The canonical allowed root and the resolution of the output path, as the
/// file system gave them: the walk up from the output path, and its last
/// cursor canonicalized (or why that failed).
pub struct ResolvedPaths {
    pub root: Result<String, String>,
    pub walk: AncestorWalk,
    pub ancestor: Result<String, String>,
}

impl ResolvedPaths {
    /// The canonical output path: the canonical ancestor with the missing
    /// names appended again.
    pub open spec fn target(self) -> Seq<char> {
        rejoin(self.ancestor->Ok_0@, self.walk.tail@)
    }
}

/// `Path::starts_with`: the root's components are a prefix of the target's.
pub open spec fn components_prefix(root: Seq<Seq<char>>, target: Seq<Seq<char>>) -> bool {
    &&& root.len() <= target.len()
    &&& forall|i: int| 0 <= i < root.len() ==> #[trigger] root[i] == target[i]
}

/// Whether `target` lies under `root`, component by component.
pub fn path_starts_with(target: &str, root: &str) -> (r: bool)
    ensures
        r == components_prefix(spec_components(root@), spec_components(target@)),
{
    let rc = path_components(root);
    let tc = path_components(target);
    proof {
        assert(forall|i: int| 0 <= i < rc@.len() ==> #[trigger] spec_components(root@)[i] == rc@[i]@);
        assert(forall|i: int| 0 <= i < tc@.len() ==> #[trigger] spec_components(target@)[i] == tc@[i]@);
    }
    if rc.len() > tc.len() {
        return false;
    }
    let mut i: usize = 0;
    while i < rc.len()
        invariant
            i <= rc.len() <= tc.len(),
            rc@.map_values(|c: String| c@) == spec_components(root@),
            tc@.map_values(|c: String| c@) == spec_components(target@),
            forall|j: int| 0 <= j < i ==> (#[trigger] rc@[j])@ == tc@[j]@,
        decreases rc.len() - i,
    {
        if rc[i] != tc[i] {
            proof {
                assert(spec_components(root@)[i as int] == rc@[i as int]@);
                assert(spec_components(target@)[i as int] == tc@[i as int]@);
            }
            return false;
        }
        i = i + 1;
    }
    proof {
        assert forall|j: int| 0 <= j < spec_components(root@).len() implies #[trigger] spec_components(
            root@,
        )[j] == spec_components(target@)[j] by {
            assert(spec_components(root@)[j] == rc@[j]@);
            assert(spec_components(target@)[j] == tc@[j]@);
        }
    }
    true
}

// ── DownloadConfig ───────────────────────────────────────────────────────────

#[derive(Debug, Clone)]
pub struct DownloadConfig {
    pub url: String,
    pub file_path: String,
    pub allowed_root: Option<String>,
    /// Override the auto-calculated thread count. None = use formula.
    pub override_threads: Option<u8>,
    pub retry: RetryConfig,
    pub priority: Priority,
    pub throttle: ThrottleConfig,
    pub proxy_url: Option<String>,
    pub custom_headers: Vec<(String, String)>,
}

/// The first check a configuration fails, in the order `validate` runs them.
#[derive(Debug, Clone, Copy, PartialEq, Eq, Structural)]
pub enum ConfigFault {
    EmptyUrl,
    UnparsableUrl,
    SchemeNotAllowed,
    PrivateHost,
    EmptyFilePath,
    RootUnresolved,
    TargetUnresolved,
    OutsideRoot,
    ThreadsOutOfRange,
    EmptyProxy,
    InvalidProxy,
    InvalidHeaderName(usize),
    InvalidHeaderValue(usize),
}

/// Whether `h` is an address of 172.16.0.0/12: `172.` followed by a second
/// octet from 16 to 31 and a dot.
pub open spec fn in_private_172(h: Seq<char>) -> bool {
    &&& h.len() >= 7
    &&& starts_with(h, "172."@)
    &&& h[6] == '.'
    &&& {
        ||| (h[4] == '1' && '6' <= h[5] && h[5] <= '9')
        ||| (h[4] == '2' && '0' <= h[5] && h[5] <= '9')
        ||| (h[4] == '3' && (h[5] == '0' || h[5] == '1'))
    }
}

fn private_172(h: &[char]) -> (r: bool)
    ensures
        r == in_private_172(h@),
{
    if h.len() < 7 || !has_prefix(h, "172.") || h[6] != '.' {
        return false;
    }
    let (a, b) = (h[4], h[5]);
    (a == '1' && '6' <= b && b <= '9') || (a == '2' && '0' <= b && b <= '9') || (a == '3' && (b == '0' || b
        == '1'))
}

/// Hosts that downloads may not target: localhost, loopback, private and
/// link-local addresses (given lower-cased).
pub open spec fn is_blocked_host(h: Seq<char>) -> bool {
    ||| h == "localhost"@
    ||| h == "127.0.0.1"@
    ||| h == "::1"@
    ||| h == "[::1]"@
    ||| starts_with(h, "10."@)
    ||| in_private_172(h)
    ||| starts_with(h, "192.168."@)
    ||| starts_with(h, "169.254."@)
}

pub open spec fn header_ok_name(h: (String, String)) -> bool {
    valid_header_name(vstd::utf8::encode_utf8(h.0@))
}

pub open spec fn header_ok_value(h: (String, String)) -> bool {
    valid_header_value(vstd::utf8::encode_utf8(h.1@))
}

/// First invalid custom header at or after index `i`.
pub open spec fn header_fault_from(h: Seq<(String, String)>, i: int) -> Option<ConfigFault>
    decreases h.len() - i,
{
    if i < 0 || i >= h.len() {
        None
    } else if !header_ok_name(h[i]) {
        Some(ConfigFault::InvalidHeaderName(i as usize))
    } else if !header_ok_value(h[i]) {
        Some(ConfigFault::InvalidHeaderValue(i as usize))
    } else {
        header_fault_from(h, i + 1)
    }
}

impl DownloadConfig {
    /// The first check the configuration fails, or `None` when it is valid.
    pub open spec fn fault(self, resolved: Option<ResolvedPaths>) -> Option<ConfigFault> {
        let parsed = spec_url_parse(self.url@);
        if trim(self.url@).len() == 0 {
            Some(ConfigFault::EmptyUrl)
        } else if parsed.is_none() {
            Some(ConfigFault::UnparsableUrl)
        } else if !(parsed.unwrap().0 == "http"@ || parsed.unwrap().0 == "https"@) {
            Some(ConfigFault::SchemeNotAllowed)
        } else if parsed.unwrap().1.is_some() && is_blocked_host(lower(parsed.unwrap().1.unwrap())) {
            Some(ConfigFault::PrivateHost)
        } else if self.file_path@.len() == 0 {
            Some(ConfigFault::EmptyFilePath)
        } else if self.allowed_root.is_some() && resolved.unwrap().root.is_err() {
            Some(ConfigFault::RootUnresolved)
        } else if self.allowed_root.is_some() && resolved.unwrap().ancestor.is_err() {
            Some(ConfigFault::TargetUnresolved)
        } else if self.allowed_root.is_some() && !components_prefix(
            spec_components(resolved.unwrap().root->Ok_0@),
            spec_components(resolved.unwrap().target()),
        ) {
            Some(ConfigFault::OutsideRoot)
        } else if self.override_threads.is_some() && (self.override_threads.unwrap() == 0
            || self.override_threads.unwrap() > 128) {
            Some(ConfigFault::ThreadsOutOfRange)
        } else if self.proxy_url.is_some() && trim(self.proxy_url.unwrap()@).len() == 0 {
            Some(ConfigFault::EmptyProxy)
        } else if self.proxy_url.is_some() && !spec_proxy_accepts(self.proxy_url.unwrap()@) {
            Some(ConfigFault::InvalidProxy)
        } else {
            header_fault_from(self.custom_headers@, 0)
        }
    }

    /// The field an error for `f` names.
    pub open spec fn fault_field(f: ConfigFault) -> Seq<char> {
        match f {
            ConfigFault::EmptyUrl | ConfigFault::UnparsableUrl | ConfigFault::SchemeNotAllowed
            | ConfigFault::PrivateHost => "url"@,
            ConfigFault::EmptyFilePath | ConfigFault::TargetUnresolved
            | ConfigFault::OutsideRoot => "file_path"@,
            ConfigFault::RootUnresolved => "allowed_root"@,
            ConfigFault::ThreadsOutOfRange => "override_threads"@,
            ConfigFault::EmptyProxy | ConfigFault::InvalidProxy => "proxy_url"@,
            ConfigFault::InvalidHeaderName(_) | ConfigFault::InvalidHeaderValue(_) => "custom_headers"@,
        }
    }

    /// What the error's reason starts with (all of it, where it is fixed).
    pub open spec fn fault_reason_prefix(self, resolved: Option<ResolvedPaths>, f: ConfigFault) -> Seq<char> {
        match f {
            ConfigFault::EmptyUrl => "URL must not be empty"@,
            ConfigFault::UnparsableUrl => "invalid URL: "@,
            ConfigFault::SchemeNotAllowed => "URL scheme '"@ + spec_url_parse(self.url@).unwrap().0
                + "' not allowed (http/https only)"@,
            ConfigFault::PrivateHost => "private or localhost addresses not allowed in downloads"@,
            ConfigFault::EmptyFilePath => "output path must not be empty"@,
            ConfigFault::RootUnresolved => "cannot canonicalize allowed root: "@
                + resolved.unwrap().root->Err_0@,
            ConfigFault::TargetUnresolved => "cannot resolve output path: "@
                + resolved.unwrap().ancestor->Err_0@,
            ConfigFault::OutsideRoot => "path '"@ + resolved.unwrap().target()
                + "' is outside allowed root '"@ + resolved.unwrap().root->Ok_0@ + "'"@,
            ConfigFault::ThreadsOutOfRange => "must be in range 1..=128"@,
            ConfigFault::EmptyProxy => "proxy URL must not be empty"@,
            ConfigFault::InvalidProxy => "invalid proxy URL: builder error"@,
            ConfigFault::InvalidHeaderName(i) => "invalid header name '"@ + self.custom_headers@[i as int].0@
                + "': invalid HTTP header name"@,
            ConfigFault::InvalidHeaderValue(i) => "invalid header value for '"@
                + self.custom_headers@[i as int].0@ + "': failed to parse header value"@,
        }
    }

    /// Whether the reason is exactly `fault_reason_prefix` (and not longer).
    pub open spec fn reason_is_fixed(f: ConfigFault) -> bool {
        !(f is UnparsableUrl)
    }

    /// A configuration with the defaults: no root restriction, formula thread
    /// count, default retry policy, Low priority, no throttle, no proxy and
    /// no custom headers.
    pub fn new(url: String, file_path: String) -> (r: Self)
        ensures
            r.url == url,
            r.file_path == file_path,
            r.allowed_root.is_none(),
            r.override_threads.is_none(),
            r.retry.max_retries == 3,
            r.retry.base_delay_ms == 1000,
            r.priority == Priority::Low,
            r.throttle.bytes_per_sec.is_none(),
            r.proxy_url.is_none(),
            r.custom_headers@.len() == 0,
    {
        DownloadConfig {
            url,
            file_path,
            allowed_root: None,
            override_threads: None,
            retry: RetryConfig::default(),
            priority: Priority::default(),
            throttle: ThrottleConfig::default(),
            proxy_url: None,
            custom_headers: Vec::new(),
        }
    }

    /// Checks the configuration before any network or disk work. `resolved`
    /// carries the canonicalized allowed root and the walk from `file_path`
    /// up to its deepest existing ancestor with that ancestor canonicalized;
    /// it is read only when `allowed_root` is set. The output path is inside
    /// the root when the canonical ancestor, with the missing names appended
    /// again, starts with the canonical root.
    pub fn validate(&self, resolved: Option<&ResolvedPaths>) -> (r: Result<(), KhukriError>)
        requires
            self.allowed_root.is_some() ==> resolved.is_some() && resolved.unwrap().walk.wf()
                && resolved.unwrap().walk.path@ == self.file_path@,
        ensures
            match self.fault(opt_deref(resolved)) {
                None => r.is_ok(),
                Some(f) => match r {
                    Err(KhukriError::InvalidConfig { field, reason }) => {
                        &&& field@ == Self::fault_field(f)
                        &&& starts_with(reason@, self.fault_reason_prefix(opt_deref(resolved), f))
                        &&& Self::reason_is_fixed(f) ==> reason@ == self.fault_reason_prefix(
                            opt_deref(resolved),
                            f,
                        )
                    },
                    _ => false,
                },
            },
    {
        let url = to_chars(self.url.as_str());
        if is_blank(url.as_slice()) {
            return Err(invalid("url", owned("URL must not be empty")));
        }
        let parsed = match parse_url(self.url.as_str()) {
            Ok(p) => p,
            Err(e) => {
                let reason = cat("invalid URL: ", e.as_str());
                return Err(invalid("url", reason));
            }
        };
        let scheme = to_chars(parsed.scheme.as_str());
        if !(eq_str(scheme.as_slice(), "http") || eq_str(scheme.as_slice(), "https")) {
            let reason = cat3(
                "URL scheme '",
                parsed.scheme.as_str(),
                "' not allowed (http/https only)",
            );
            return Err(invalid("url", reason));
        }
        if let Some(host) = &parsed.host {
            let hc = to_chars(host.as_str());
            let lowered = lowercase_chars(hc.as_slice());
            if blocked_host(lowered.as_slice()) {
                return Err(
                    invalid("url", owned("private or localhost addresses not allowed in downloads")),
                );
            }
        }
        if self.file_path.as_str().is_empty() {
            return Err(invalid("file_path", owned("output path must not be empty")));
        }
        if self.allowed_root.is_some() {
            let paths = resolved.unwrap();
            match &paths.root {
                Err(e) => {
                    return Err(
                        invalid("allowed_root", cat("cannot canonicalize allowed root: ", e.as_str())),
                    );
                },
                Ok(root) => match &paths.ancestor {
                    Err(e) => {
                        return Err(
                            invalid("file_path", cat("cannot resolve output path: ", e.as_str())),
                        );
                    },
                    Ok(ancestor) => {
                        let target = paths.walk.finish(ancestor.as_str());
                        if !path_starts_with(target.as_str(), root.as_str()) {
                            let mut reason = cat3("path '", target.as_str(), "' is outside allowed root '");
                            reason.append(root.as_str());
                            reason.append("'");
                            return Err(invalid("file_path", reason));
                        }
                    },
                },
            }
        }
        if let Some(threads) = self.override_threads {
            if threads == 0 || threads > 128 {
                return Err(invalid("override_threads", owned("must be in range 1..=128")));
            }
        }
        if let Some(proxy_url) = &self.proxy_url {
            let pc = to_chars(proxy_url.as_str());
            if is_blank(pc.as_slice()) {
                return Err(invalid("proxy_url", owned("proxy URL must not be empty")));
            }
            if let Err(e) = check_proxy_url(proxy_url.as_str()) {
                let reason = cat("invalid proxy URL: ", e.as_str());
                proof {
                    reveal_strlit("invalid proxy URL: ");
                    reveal_strlit("builder error");
                    reveal_strlit("invalid proxy URL: builder error");
                    assert(reason@ =~= "invalid proxy URL: builder error"@);
                }
                return Err(invalid("proxy_url", reason));
            }
        }
        let mut i: usize = 0;
        while i < self.custom_headers.len()
            invariant
                i <= self.custom_headers@.len(),
                self.fault(opt_deref(resolved)) == header_fault_from(self.custom_headers@, i as int),
            decreases self.custom_headers@.len() - i,
        {
            let name = &self.custom_headers[i].0;
            let value = &self.custom_headers[i].1;
            proof {
                let h = self.custom_headers@;
                assert(h[i as int].0 == *name);
                assert(h[i as int].1 == *value);
                assert(header_fault_from(h, i as int) == if !header_ok_name(h[i as int]) {
                    Some(ConfigFault::InvalidHeaderName(i))
                } else if !header_ok_value(h[i as int]) {
                    Some(ConfigFault::InvalidHeaderValue(i))
                } else {
                    header_fault_from(h, i + 1)
                });
            }
            if let Err(e) = check_header_name(name.as_str()) {
                let mut reason = cat3("invalid header name '", name.as_str(), "': ");
                reason.append(e.as_str());
                proof {
                    reveal_strlit("': ");
                    reveal_strlit("invalid HTTP header name");
                    reveal_strlit("': invalid HTTP header name");
                    assert(reason@ =~= "invalid header name '"@ + name@ + "': invalid HTTP header name"@);
                }
                return Err(invalid("custom_headers", reason));
            }
            if let Err(e) = check_header_value(value.as_str()) {
                let mut reason = cat3("invalid header value for '", name.as_str(), "': ");
                reason.append(e.as_str());
                proof {
                    reveal_strlit("': ");
                    reveal_strlit("failed to parse header value");
                    reveal_strlit("': failed to parse header value");
                    assert(reason@ =~= "invalid header value for '"@ + name@ + "': failed to parse header value"@);
                }
                return Err(invalid("custom_headers", reason));
            }
            i = i + 1;
        }
        Ok(())
    }
}

/// Law: a thread override inside 1..=128 changes nothing about whether a
/// configuration is valid — it validates exactly as it would without the
/// override — and one outside that range is refused as `override_threads`
/// when nothing else is wrong.
pub proof fn lemma_thread_override_range(cfg: DownloadConfig, resolved: Option<ResolvedPaths>, t: u8)
    ensures
        1 <= t <= 128 ==> (DownloadConfig { override_threads: Some(t), ..cfg }).fault(resolved) == (
        DownloadConfig { override_threads: None, ..cfg }).fault(resolved),
        (t == 0 || t > 128) && (DownloadConfig { override_threads: None, ..cfg }).fault(resolved) is None
            ==> (DownloadConfig { override_threads: Some(t), ..cfg }).fault(resolved) == Some(
            ConfigFault::ThreadsOutOfRange,
        ),
{
}

pub open spec fn opt_deref(r: Option<&ResolvedPaths>) -> Option<ResolvedPaths> {
    match r {
        Some(p) => Some(*p),
        None => None,
    }
}

fn invalid(field: &str, reason: String) -> (r: KhukriError)
    ensures
        r == (KhukriError::InvalidConfig { field: r->field, reason }),
        r->field@ == field@,
{
    KhukriError::InvalidConfig { field: owned(field), reason }
}

/// Whether a lower-cased host is one that downloads may not target.
pub fn blocked_host(h: &[char]) -> (r: bool)
    ensures
        r == is_blocked_host(h@),
{
    eq_str(h, "localhost") || eq_str(h, "127.0.0.1") || eq_str(h, "::1") || eq_str(h, "[::1]")
        || has_prefix(h, "10.") || private_172(h) || has_prefix(h, "192.168.")
        || has_prefix(h, "169.254.")
}

} // verus!
