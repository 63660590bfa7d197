//! Calls into std and outside crates whose behaviour Verus cannot read.
//! Each item states, in its contract, what the called function does.

use vstd::prelude::*;
use crate::text::{is_part_of, opt_view};
use vstd::string::StringSliceAdditionalSpecFns;
use rand::Rng;
use sha2::Digest;

verus! {

/// `String::push`: appends one character to the string.
#[verifier::external_body]
pub(crate) fn string_push(s: &mut String, c: char)
    ensures
        final(s)@ == old(s)@.push(c),
{
    s.push(c);
}

} // verus!

verus! {

// ── url ─────────────────────────────────────────────────────────────────────

/// Scheme and host of a parsed URL.
pub struct UrlParts {
    pub scheme: String,
    pub host: Option<String>,
}

/// What `url::Url::parse` makes of `input`: `None` when it rejects the
/// input, otherwise the URL's scheme and its host (`Url::host_str`).
pub uninterp spec fn spec_url_parse(input: Seq<char>) -> Option<(Seq<char>, Option<Seq<char>>)>;

/// `url::Url::parse`, reduced to the scheme and host of the result. The
/// error text is `ParseError`'s `Display` output; the contract says nothing
/// of it.
#[verifier::external_body]
pub(crate) fn parse_url(input: &str) -> (r: Result<UrlParts, String>)
    ensures
        match r {
            Ok(p) => spec_url_parse(input@) == Some((p.scheme@, opt_view(p.host))),
            Err(_) => spec_url_parse(input@).is_none(),
        },
{
    match url::Url::parse(input) {
        Ok(u) => Ok(UrlParts { scheme: u.scheme().to_string(), host: u.host_str().map(|h| h.to_string()) }),
        Err(e) => Err(e.to_string()),
    }
}

// ── reqwest ─────────────────────────────────────────────────────────────────

/// Whether `reqwest::Proxy::all` accepts `proxy_url`.
pub uninterp spec fn spec_proxy_accepts(proxy_url: Seq<char>) -> bool;

/// `reqwest::Proxy::all`: `Ok` exactly when reqwest accepts the proxy URL.
/// Every error it returns for a URL is a builder error without a URL, whose
/// `Display` text is `builder error`.
#[verifier::external_body]
pub(crate) fn check_proxy_url(proxy_url: &str) -> (r: Result<(), String>)
    ensures
        r.is_ok() == spec_proxy_accepts(proxy_url@),
        r matches Err(e) ==> e@ == "builder error"@,
{
    match reqwest::Proxy::all(proxy_url) {
        Ok(_) => Ok(()),
        Err(e) => Err(e.to_string()),
    }
}

/// A byte allowed in an HTTP header name (an RFC 7230 `tchar`: digits,
/// letters of either case, and ``!#$%&'*+-.^_`|~``): what `http`'s
/// `HEADER_CHARS` table maps to a non-zero byte.
pub open spec fn is_header_name_byte(b: u8) -> bool {
    ||| (48 <= b && b <= 57)
    ||| (97 <= b && b <= 122)
    ||| (65 <= b && b <= 90)
    ||| b == 33 || b == 35 || b == 36 || b == 37 || b == 38 || b == 39
    ||| b == 42 || b == 43 || b == 45 || b == 46 || b == 94 || b == 95
    ||| b == 96 || b == 124 || b == 126
}

/// `HeaderName::from_bytes` succeeds exactly on non-empty names of at most
/// 65535 bytes made of token bytes.
pub open spec fn valid_header_name(bytes: Seq<u8>) -> bool {
    &&& 1 <= bytes.len() <= 65535
    &&& forall|i: int| 0 <= i < bytes.len() ==> is_header_name_byte(#[trigger] bytes[i])
}

/// `HeaderValue::from_str` succeeds exactly when every byte is a tab or lies
/// in 32..=255 without 127.
pub open spec fn valid_header_value(bytes: Seq<u8>) -> bool {
    forall|i: int| 0 <= i < bytes.len() ==> ((#[trigger] bytes[i] >= 32 && bytes[i] != 127) || bytes[i] == 9)
}

/// `reqwest::header::HeaderName::from_bytes` on the UTF-8 bytes of `name`:
/// `Ok` exactly when it accepts them; the error is the `Display` text of
/// `http`'s `InvalidHeaderName`.
#[verifier::external_body]
pub(crate) fn check_header_name(name: &str) -> (r: Result<(), String>)
    ensures
        r.is_ok() == valid_header_name(name.spec_bytes()),
        r matches Err(e) ==> e@ == "invalid HTTP header name"@,
{
    reqwest::header::HeaderName::from_bytes(name.as_bytes()).map(|_| ()).map_err(|e| e.to_string())
}

/// `reqwest::header::HeaderValue::from_str`: `Ok` exactly when it accepts
/// `value`; the error is the `Display` text of `http`'s `InvalidHeaderValue`.
#[verifier::external_body]
pub(crate) fn check_header_value(value: &str) -> (r: Result<(), String>)
    ensures
        r.is_ok() == valid_header_value(value.spec_bytes()),
        r matches Err(e) ==> e@ == "failed to parse header value"@,
{
    reqwest::header::HeaderValue::from_str(value).map(|_| ()).map_err(|e| e.to_string())
}

} // verus!

verus! {

// ── rand ─────────────────────────────────────────────────────────────────────

/// `rand::thread_rng().gen_range(0..=max)`: a uniformly random number in
/// `0..=max`. Only the range is stated.
#[verifier::external_body]
pub(crate) fn random_up_to(max: u64) -> (r: u64)
    ensures
        r <= max,
{
    rand::thread_rng().gen_range(0..=max)
}

/// `rand::thread_rng().gen::<bool>()`: a fair random boolean. Nothing is
/// stated of its value.
#[verifier::external_body]
pub(crate) fn random_bool() -> (r: bool) {
    rand::thread_rng().gen::<bool>()
}

} // verus!

verus! {

// ── std::path ────────────────────────────────────────────────────────────────
// The path rules are those of the platform the library is built for.

/// `Path::file_name` of `path`, as a string.
pub uninterp spec fn spec_file_name(path: Seq<char>) -> Option<Seq<char>>;

/// `Path::parent` of `path`, as a string.
pub uninterp spec fn spec_parent(path: Seq<char>) -> Option<Seq<char>>;

/// `Path::file_stem` of `path`, as a string.
pub uninterp spec fn spec_file_stem(path: Seq<char>) -> Option<Seq<char>>;

/// `Path::join(base, part)`, displayed as a string.
pub uninterp spec fn spec_join(base: Seq<char>, part: Seq<char>) -> Seq<char>;

/// `Path::components` of `path`, each component as a string.
pub uninterp spec fn spec_components(path: Seq<char>) -> Seq<Seq<char>>;

/// A normal path component: not empty, no separator, and not `.` or `..`.
pub open spec fn is_normal_component(n: Seq<char>) -> bool {
    &&& n.len() > 0
    &&& forall|i: int| 0 <= i < n.len() ==> #[trigger] n[i] != '/'
    &&& n != "."@
    &&& n != ".."@
}

/// A path that is one normal component and cannot hold a separator or a
/// drive prefix on any platform.
pub open spec fn is_bare_name(p: Seq<char>) -> bool {
    &&& is_normal_component(p)
    &&& forall|i: int| 0 <= i < p.len() ==> #[trigger] p[i] != '\\' && p[i] != ':'
}

/// `std::path::Path::file_name`: the final component of `path` when it is a
/// normal file or directory name. The contract claims what the std
/// documentation gives: a name it returns is a normal component (never empty,
/// never `.` or `..`, never holding `/`) sliced out of `path`, and a path that
/// is a single bare name is its own file name.
#[verifier::external_body]
pub(crate) fn path_file_name(path: &str) -> (r: Option<String>)
    ensures
        opt_view(r) == spec_file_name(path@),
        r matches Some(n) ==> is_normal_component(n@) && is_part_of(n@, path@),
        is_bare_name(path@) ==> opt_view(r) == Some(path@),
{
    std::path::Path::new(path).file_name().and_then(|n| n.to_str()).map(|n| n.to_string())
}

/// `std::path::Path::parent`: `path` without its final component.
#[verifier::external_body]
pub(crate) fn path_parent(path: &str) -> (r: Option<String>)
    ensures
        opt_view(r) == spec_parent(path@),
{
    std::path::Path::new(path).parent().and_then(|p| p.to_str()).map(|p| p.to_string())
}

/// `std::path::Path::file_stem`: the final component without its extension.
#[verifier::external_body]
pub(crate) fn path_file_stem(path: &str) -> (r: Option<String>)
    ensures
        opt_view(r) == spec_file_stem(path@),
{
    std::path::Path::new(path).file_stem().and_then(|s| s.to_str()).map(|s| s.to_string())
}

/// `std::path::Path::join`: `part` appended to `base` (or `part` alone when
/// it is absolute), displayed as a string.
#[verifier::external_body]
pub(crate) fn path_join(base: &str, part: &str) -> (r: String)
    ensures
        r@ == spec_join(base@, part@),
{
    std::path::Path::new(base).join(part).to_string_lossy().into_owned()
}

/// `std::path::Path::components`: the components of `path` in order, each
/// as a string (the root as `/`, a drive prefix as written).
#[verifier::external_body]
pub(crate) fn path_components(path: &str) -> (r: Vec<String>)
    ensures
        r@.map_values(|c: String| c@) == spec_components(path@),
{
    std::path::Path::new(path).components().map(|c| c.as_os_str().to_string_lossy().into_owned()).collect()
}

} // verus!

verus! {

// ── serde_json ───────────────────────────────────────────────────────────────

/// What `serde_json::from_str::<String>` makes of `json`: the decoded string,
/// or `None` when `json` is not a JSON string literal.
pub uninterp spec fn spec_json_string(json: Seq<char>) -> Option<Seq<char>>;

/// `serde_json::from_str::<String>`: decodes a JSON string literal.
#[verifier::external_body]
pub(crate) fn json_decode_string(json: &str) -> (r: Option<String>)
    ensures
        opt_view(r) == spec_json_string(json@),
{
    serde_json::from_str::<String>(json).ok()
}

} // verus!

verus! {

// ── uuid ─────────────────────────────────────────────────────────────────────

/// The hyphenated lower-case text of the version-5 UUID that
/// `uuid::Uuid::new_v5(&Uuid::NAMESPACE_URL, name)` derives from the UTF-8
/// bytes of `name`.
pub uninterp spec fn spec_uuid_v5_url(name: Seq<char>) -> Seq<char>;

/// `uuid::Uuid::new_v5` in the URL namespace, then `to_string`.
#[verifier::external_body]
pub(crate) fn uuid_v5_url(name: &str) -> (r: String)
    ensures
        r@ == spec_uuid_v5_url(name@),
{
    uuid::Uuid::new_v5(&uuid::Uuid::NAMESPACE_URL, name.as_bytes()).to_string()
}

} // verus!

verus! {

// ── sha2 ─────────────────────────────────────────────────────────────────────

/// The SHA-256 digest of `bytes`.
pub uninterp spec fn spec_sha256(bytes: Seq<u8>) -> Seq<u8>;

/// `sha2::Sha256::digest`: the 32-byte SHA-256 digest of `bytes`.
#[verifier::external_body]
pub(crate) fn sha256(bytes: &[u8]) -> (r: Vec<u8>)
    ensures
        r@ == spec_sha256(bytes@),
        r@.len() == 32,
{
    sha2::Sha256::digest(bytes).to_vec()
}

} // verus!
