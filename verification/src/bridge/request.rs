//! Normalizing what the browser hands over: file names and request headers.

use vstd::prelude::*;
use crate::text::opt_str;
use crate::text::{
    after_last, after_last_chars, before_first, before_first_chars, eq_ignore_case, from_chars,
    is_blank, lower, lowercase_chars, eq_str, chars_eq_ignore_case, owned, split_once,
    split_once_char, split_once_char_chars, split_once_chars, to_chars, trim, trim_end_char,
    trim_end_char_chars, trim_start,
};
use crate::text::{is_part_of, lemma_part_lacks, lemma_part_of_part};
use crate::trusted::{is_bare_name, is_normal_component, path_file_name, spec_file_name};

verus! {

/// Characters that may not appear in a file name on common platforms.
pub open spec fn is_forbidden_in_name(c: char) -> bool {
    c == '<' || c == '>' || c == ':' || c == '"' || c == '/' || c == '\\' || c == '|' || c == '?'
        || c == '*'
}

pub open spec fn replace_forbidden(s: Seq<char>) -> Seq<char> {
    s.map_values(|c: char| if is_forbidden_in_name(c) { '_' } else { c })
}

/// The sanitized form of `name`: its final path component with forbidden
/// characters replaced by `_`, or `download.bin` when nothing is left.
pub open spec fn sanitized(name: Seq<char>) -> Seq<char> {
    let base = match spec_file_name(name) {
        Some(n) => n,
        None => "download.bin"@,
    };
    let mapped = replace_forbidden(base);
    if trim(mapped).len() == 0 {
        "download.bin"@
    } else {
        mapped
    }
}

fn replace_forbidden_chars(s: &[char]) -> (r: Vec<char>)
    ensures
        r@ == replace_forbidden(s@),
{
    let mut r: Vec<char> = Vec::new();
    let mut i: usize = 0;
    while i < s.len()
        invariant
            i <= s.len(),
            r@ == replace_forbidden(s@.subrange(0, i as int)),
        decreases s.len() - i,
    {
        let c = s[i];
        let d = if c == '<' || c == '>' || c == ':' || c == '"' || c == '/' || c == '\\' || c == '|'
            || c == '?' || c == '*' {
            '_'
        } else {
            c
        };
        r.push(d);
        i = i + 1;
        assert(replace_forbidden(s@.subrange(0, i as int)) =~= replace_forbidden(
            s@.subrange(0, (i - 1) as int),
        ).push(d));
    }
    assert(s@.subrange(0, s.len() as int) =~= s@);
    r
}

/// A name that can be used as a file name as it is: not blank, free of
/// forbidden characters, and not a reference to a directory (`.` or `..`).
pub open spec fn safe_file_name(n: Seq<char>) -> bool {
    &&& trim(n).len() > 0
    &&& forall|i: int| 0 <= i < n.len() ==> !is_forbidden_in_name(#[trigger] n[i])
    &&& n != "."@
    &&& n != ".."@
}

proof fn lemma_replace_forbidden_fixes_clean(s: Seq<char>)
    requires
        forall|i: int| 0 <= i < s.len() ==> !is_forbidden_in_name(#[trigger] s[i]),
    ensures
        replace_forbidden(s) == s,
{
    assert(replace_forbidden(s) =~= s);
}

proof fn lemma_replace_forbidden_keeps_dots(s: Seq<char>)
    ensures
        replace_forbidden(s) == "."@ ==> s == "."@,
        replace_forbidden(s) == ".."@ ==> s == ".."@,
{
    reveal_strlit(".");
    reveal_strlit("..");
    let r = replace_forbidden(s);
    assert forall|i: int| 0 <= i < s.len() && r[i] == '.' implies s[i] == '.' by {
        assert(r[i] == (if is_forbidden_in_name(s[i]) { '_' } else { s[i] }));
    }
    assert(r.len() == s.len());
    if r == "."@ {
        assert(r[0] == '.');
        assert(s[0] == '.');
        assert(s =~= "."@);
    }
    if r == ".."@ {
        assert(r[0] == '.' && r[1] == '.');
        assert(s[0] == '.' && s[1] == '.');
        assert(s =~= ".."@);
    }
}

/// A safe local file name for a name the browser suggested. The result is
/// always a safe file name, and a name that is already safe comes back
/// unchanged, so sanitizing twice gives what sanitizing once gave.
pub fn sanitize_filename(name: &str) -> (r: String)
    ensures
        r@ == sanitized(name@),
        safe_file_name(r@),
        safe_file_name(name@) ==> r@ == name@,
        forall|i: int| 0 <= i < r@.len() ==> #[trigger] r@[i] == '_' || "download.bin"@.contains(r@[i])
            || name@.contains(r@[i]),
{
    proof {
        lemma_sanitized_is_safe(name@);
        reveal_strlit("download.bin");
        reveal_strlit(".");
        reveal_strlit("..");
    }
    let base = match path_file_name(name) {
        Some(n) => n,
        None => owned("download.bin"),
    };
    proof {
        assert(is_normal_component(base@)) by {
            if !is_normal_component(base@) {
                assert(base@ == "download.bin"@);
                assert(base@[0] == 'd');
            }
        }
        lemma_replace_forbidden_keeps_dots(base@);
        if safe_file_name(name@) {
            assert(is_bare_name(name@)) by {
                assert forall|i: int| 0 <= i < name@.len() implies #[trigger] name@[i] != '/' && name@[i]
                    != '\\' && name@[i] != ':' by {
                    assert(!is_forbidden_in_name(name@[i]));
                }
                if name@.len() == 0 {
                    crate::text::lemma_trim_start_at(name@, 0);
                    crate::text::lemma_trim_end_at(trim_start(name@), 0);
                }
            }
            lemma_replace_forbidden_fixes_clean(name@);
        }
        assert forall|i: int| 0 <= i < base@.len() implies #[trigger] "download.bin"@.contains(base@[i])
            || name@.contains(base@[i]) by {
            if base@ == "download.bin"@ {
                assert("download.bin"@[i] == base@[i]);
            } else {
                let j = choose|j: int| 0 <= j && j + base@.len() <= name@.len() && #[trigger] name@.subrange(
                    j,
                    j + base@.len(),
                ) == base@;
                assert(name@[j + i] == base@[i]);
            }
        }
    }
    let bc = to_chars(base.as_str());
    let mapped = replace_forbidden_chars(bc.as_slice());
    if is_blank(mapped.as_slice()) {
        let r = owned("download.bin");
        proof {
            assert forall|i: int| 0 <= i < r@.len() implies "download.bin"@.contains(#[trigger] r@[i]) by {
                assert("download.bin"@[i] == r@[i]);
            }
        }
        r
    } else {
        proof {
            assert forall|i: int| 0 <= i < mapped@.len() implies #[trigger] mapped@[i] == '_' || base@[i]
                == mapped@[i] by {
                assert(mapped@[i] == (if is_forbidden_in_name(bc@[i]) { '_' } else { bc@[i] }));
            }
        }
        from_chars(mapped.as_slice())
    }
}

/// Law: a sanitized name is never blank and never contains a character
/// that is forbidden in file names (path separators included).
pub proof fn lemma_sanitized_is_safe(name: Seq<char>)
    ensures
        trim(sanitized(name)).len() > 0,
        forall|i: int| 0 <= i < sanitized(name).len() ==> !is_forbidden_in_name(#[trigger] sanitized(name)[i]),
{
    reveal_strlit("download.bin");
    let base = match spec_file_name(name) {
        Some(n) => n,
        None => "download.bin"@,
    };
    let mapped = replace_forbidden(base);
    if trim(mapped).len() == 0 {
        assert(trim("download.bin"@) =~= "download.bin"@) by {
            crate::text::lemma_trim_start_at("download.bin"@, 0);
            crate::text::lemma_trim_end_at("download.bin"@, 12);
            assert("download.bin"@.subrange(0, 12) =~= "download.bin"@);
        }
    }
}

/// The file name a download URL suggests: the last path segment, without
/// query or fragment, sanitized; `download.bin` when the URL has no path.
pub open spec fn url_filename(url: Seq<char>) -> Seq<char> {
    let trimmed = trim_end_char(before_first(before_first(url, '?'), '#'), '/');
    let path_part = match split_once(trimmed, "://"@) {
        Some((_, remainder)) => match split_once_char(remainder, '/') {
            Some((_, path)) => Some(path),
            None => None,
        },
        None => Some(trimmed),
    };
    match path_part {
        None => "download.bin"@,
        Some(p) => if p.len() == 0 {
            "download.bin"@
        } else if after_last(p, '/').len() == 0 {
            "download.bin"@
        } else {
            sanitized(after_last(p, '/'))
        },
    }
}

/// `download.bin`, the name used when nothing better is known, is safe.
proof fn lemma_default_name_is_safe()
    ensures
        safe_file_name("download.bin"@),
        forall|i: int| 0 <= i < "download.bin"@.len() ==> #[trigger] "download.bin"@[i] != '#',
{
    reveal_strlit("download.bin");
    reveal_strlit(".");
    reveal_strlit("..");
    assert(trim("download.bin"@) =~= "download.bin"@) by {
        crate::text::lemma_trim_start_at("download.bin"@, 0);
        crate::text::lemma_trim_end_at("download.bin"@, 12);
        assert("download.bin"@.subrange(0, 12) =~= "download.bin"@);
    }
}

/// The name a download URL suggests. It is always a safe file name, and
/// neither the query nor the fragment reaches it: it never holds `?`, `#`
/// or `/`.
pub fn filename_from_url(url: &str) -> (r: String)
    ensures
        r@ == url_filename(url@),
        safe_file_name(r@),
        forall|i: int| 0 <= i < r@.len() ==> #[trigger] r@[i] != '#',
{
    proof {
        lemma_default_name_is_safe();
    }
    let u = to_chars(url);
    let no_query = before_first_chars(u.as_slice(), '?');
    let no_fragment = before_first_chars(no_query.as_slice(), '#');
    let trimmed = trim_end_char_chars(no_fragment.as_slice(), '/');
    let sep = to_chars("://");
    let path_part: Vec<char> = match split_once_chars(trimmed.as_slice(), sep.as_slice()) {
        Some((_, remainder)) => match split_once_char_chars(remainder.as_slice(), '/') {
            Some((_, path)) => {
                proof {
                    lemma_part_of_part(path@, remainder@, trimmed@);
                    lemma_part_of_part(path@, trimmed@, no_fragment@);
                }
                path
            },
            None => {
                return owned("download.bin");
            },
        },
        None => trimmed,
    };
    assert(is_part_of(path_part@, no_fragment@));
    if path_part.len() == 0 {
        return owned("download.bin");
    }
    let candidate = after_last_chars(path_part.as_slice(), '/');
    if candidate.len() == 0 {
        return owned("download.bin");
    }
    let cs = from_chars(candidate.as_slice());
    let r = sanitize_filename(cs.as_str());
    proof {
        assert(is_part_of(candidate@, no_fragment@)) by {
            lemma_part_of_part(candidate@, path_part@, no_fragment@);
        }
        lemma_part_lacks(candidate@, no_fragment@, '#');
        assert forall|i: int| 0 <= i < r@.len() implies #[trigger] r@[i] != '#' by {
            if r@[i] == '#' {
                if "download.bin"@.contains(r@[i]) {
                    let k = choose|k: int| 0 <= k < "download.bin"@.len() && "download.bin"@[k] == r@[i];
                    assert("download.bin"@[k] != '#');
                } else {
                    assert(cs@.contains(r@[i]));
                    let k = choose|k: int| 0 <= k < cs@.len() && cs@[k] == r@[i];
                    assert(candidate@[k] != '#');
                }
            }
        }
    }
    r
}

// ── Headers ──────────────────────────────────────────────────────────────────

/// Header names the bridge never forwards (given lower-cased); the desktop
/// app forwards cookies, so `with_cookies` drops `cookie` and `set-cookie`
/// from the list.
pub open spec fn is_blocked_header(lower_name: Seq<char>, with_cookies: bool) -> bool {
    ||| lower_name == "host"@
    ||| lower_name == "content-length"@
    ||| lower_name == "transfer-encoding"@
    ||| lower_name == "connection"@
    ||| lower_name == "keep-alive"@
    ||| lower_name == "upgrade"@
    ||| lower_name == "proxy-authenticate"@
    ||| lower_name == "proxy-authorization"@
    ||| lower_name == "te"@
    ||| lower_name == "trailer"@
    ||| lower_name == "authorization"@
    ||| (with_cookies && (lower_name == "cookie"@ || lower_name == "set-cookie"@))
}

pub fn blocked_header(name: &String, with_cookies: bool) -> (r: bool)
    ensures
        r == is_blocked_header(lower(name@), with_cookies),
{
    let nc = to_chars(name.as_str());
    let l = lowercase_chars(nc.as_slice());
    let s = l.as_slice();
    eq_str(s, "host") || eq_str(s, "content-length") || eq_str(s, "transfer-encoding") || eq_str(
        s,
        "connection",
    ) || eq_str(s, "keep-alive") || eq_str(s, "upgrade") || eq_str(s, "proxy-authenticate")
        || eq_str(s, "proxy-authorization") || eq_str(s, "te") || eq_str(s, "trailer") || eq_str(
        s,
        "authorization",
    ) || (with_cookies && (eq_str(s, "cookie") || eq_str(s, "set-cookie")))
}

/// The headers of `h` that are forwarded, in order.
pub open spec fn kept_headers(h: Seq<(String, String)>, with_cookies: bool) -> Seq<(String, String)>
    decreases h.len(),
{
    if h.len() == 0 {
        Seq::empty()
    } else if is_blocked_header(lower(h.last().0@), with_cookies) {
        kept_headers(h.drop_last(), with_cookies)
    } else {
        kept_headers(h.drop_last(), with_cookies).push(h.last())
    }
}

pub open spec fn has_referer(h: Seq<(String, String)>) -> bool {
    exists|i: int| 0 <= i < h.len() && eq_ignore_case((#[trigger] h[i]).0@, "Referer"@)
}

/// The headers forwarded for a browser request: the custom headers minus
/// the blocked ones, then a `Referer` of the page when none was given.
pub open spec fn forwarded_headers(
    page_url: Option<Seq<char>>,
    h: Seq<(String, String)>,
    with_cookies: bool,
) -> Seq<(Seq<char>, Seq<char>)> {
    let kept = kept_headers(h, with_cookies).map_values(|p: (String, String)| (p.0@, p.1@));
    match page_url {
        Some(p) => if has_referer(kept_headers(h, with_cookies)) {
            kept
        } else {
            kept.push(("Referer"@, p))
        },
        None => kept,
    }
}

pub open spec fn pair_views(v: Seq<(String, String)>) -> Seq<(Seq<char>, Seq<char>)> {
    v.map_values(|p: (String, String)| (p.0@, p.1@))
}

pub fn filter_headers(
    page_url: Option<&str>,
    custom_headers: Vec<(String, String)>,
    with_cookies: bool,
) -> (r: Vec<(String, String)>)
    ensures
        pair_views(r@) == forwarded_headers(opt_str(page_url), custom_headers@, with_cookies),
{
    let mut headers: Vec<(String, String)> = Vec::new();
    let mut i: usize = 0;
    while i < custom_headers.len()
        invariant
            i <= custom_headers@.len(),
            headers@ == kept_headers(custom_headers@.subrange(0, i as int), with_cookies),
        decreases custom_headers@.len() - i,
    {
        let ghost prefix = custom_headers@.subrange(0, (i + 1) as int);
        assert(prefix.drop_last() =~= custom_headers@.subrange(0, i as int));
        let name = custom_headers[i].0.clone();
        let value = custom_headers[i].1.clone();
        if !blocked_header(&name, with_cookies) {
            headers.push((name, value));
        }
        i = i + 1;
    }
    assert(custom_headers@.subrange(0, custom_headers@.len() as int) =~= custom_headers@);
    if let Some(page_url) = page_url {
        let mut found = false;
        let mut j: usize = 0;
        let referer = to_chars("Referer");
        while j < headers.len()
            invariant
                j <= headers@.len(),
                referer@ == "Referer"@,
                found == exists|k: int| 0 <= k < j && eq_ignore_case((#[trigger] headers@[k]).0@, "Referer"@),
            decreases headers@.len() - j,
        {
            let nc = to_chars(headers[j].0.as_str());
            if chars_eq_ignore_case(nc.as_slice(), referer.as_slice()) {
                found = true;
            }
            j = j + 1;
        }
        if !found {
            headers.push((owned("Referer"), owned(page_url)));
        }
    }
    assert(pair_views(headers@) =~= forwarded_headers(opt_str(page_url), custom_headers@, with_cookies));
    headers
}

/// No two headers share a name, as with the keys of a map.
pub open spec fn distinct_names(h: Seq<(String, String)>) -> bool {
    forall|i: int, j: int| 0 <= i < j < h.len() ==> (#[trigger] h[i]).0@ != (#[trigger] h[j]).0@
}

/// Whether no two headers share a name.
pub fn has_distinct_names(h: &Vec<(String, String)>) -> (r: bool)
    ensures
        r == distinct_names(h@),
{
    let mut i: usize = 0;
    while i < h.len()
        invariant
            i <= h.len(),
            forall|a: int, b: int| 0 <= a < b < h@.len() && a < i ==> (#[trigger] h@[a]).0@ != (#[trigger] h@[b]).0@,
        decreases h.len() - i,
    {
        let mut j: usize = i + 1;
        while j < h.len()
            invariant
                i < h.len(),
                i + 1 <= j <= h.len(),
                forall|a: int, b: int| 0 <= a < b < h@.len() && a < i ==> (#[trigger] h@[a]).0@ != (#[trigger] h@[b]).0@,
                forall|b: int| i < b < j ==> h@[i as int].0@ != (#[trigger] h@[b]).0@,
            decreases h.len() - j,
        {
            if h[i].0 == h[j].0 {
                return false;
            }
            j = j + 1;
        }
        i = i + 1;
    }
    true
}

/// The headers the bridge forwards for a browser request: custom headers
/// except hop-by-hop, authorization and cookie headers, plus the page as
/// `Referer` unless the browser sent one. The custom headers come with
/// distinct names, as a map's keys do.
pub fn browser_headers(page_url: Option<&str>, custom_headers: Vec<(String, String)>) -> (r: Vec<(String, String)>)
    requires
        distinct_names(custom_headers@),
    ensures
        pair_views(r@) == forwarded_headers(opt_str(page_url), custom_headers@, true),
{
    filter_headers(page_url, custom_headers, true)
}

proof fn lemma_kept_headers(h: Seq<(String, String)>, with_cookies: bool)
    ensures
        forall|i: int|
            0 <= i < kept_headers(h, with_cookies).len() ==> !is_blocked_header(
                lower((#[trigger] kept_headers(h, with_cookies)[i]).0@),
                with_cookies,
            ) && h.contains(kept_headers(h, with_cookies)[i]),
        forall|i: int|
            0 <= i < h.len() && !is_blocked_header(lower((#[trigger] h[i]).0@), with_cookies) ==> kept_headers(
                h,
                with_cookies,
            ).contains(h[i]),
    decreases h.len(),
{
    if h.len() > 0 {
        let init = h.drop_last();
        lemma_kept_headers(init, with_cookies);
        let k = kept_headers(h, with_cookies);
        assert forall|i: int| 0 <= i < k.len() implies !is_blocked_header(lower((#[trigger] k[i]).0@), with_cookies)
            && h.contains(k[i]) by {
            if i < kept_headers(init, with_cookies).len() {
                let x = kept_headers(init, with_cookies)[i];
                let j = choose|j: int| 0 <= j < init.len() && init[j] == x;
                assert(h[j] == x);
            } else {
                assert(h[h.len() - 1] == k[i]);
            }
        }
        assert forall|i: int| 0 <= i < h.len() && !is_blocked_header(lower((#[trigger] h[i]).0@), with_cookies)
            implies k.contains(h[i]) by {
            if i < h.len() - 1 {
                assert(init[i] == h[i]);
                let kk = kept_headers(init, with_cookies);
                let j = choose|j: int| 0 <= j < kk.len() && kk[j] == h[i];
                assert(k[j] == h[i]);
            } else {
                assert(k[k.len() - 1] == h[i]);
            }
        }
    }
}

/// Law: no blocked header is ever forwarded, every header that is not
/// blocked is forwarded, nothing is forwarded that was not sent, and a page
/// URL always yields a `Referer` — the page itself only when the browser
/// sent none.
pub proof fn lemma_forwarded_headers(page_url: Option<Seq<char>>, h: Seq<(String, String)>, with_cookies: bool)
    ensures
        forall|i: int|
            0 <= i < kept_headers(h, with_cookies).len() ==> !is_blocked_header(
                lower((#[trigger] kept_headers(h, with_cookies)[i]).0@),
                with_cookies,
            ) && h.contains(kept_headers(h, with_cookies)[i]),
        forall|i: int|
            0 <= i < h.len() && !is_blocked_header(lower((#[trigger] h[i]).0@), with_cookies) ==> kept_headers(
                h,
                with_cookies,
            ).contains(h[i]),
        page_url.is_none() ==> forwarded_headers(page_url, h, with_cookies) == pair_views(
            kept_headers(h, with_cookies),
        ),
        page_url.is_some() && has_referer(kept_headers(h, with_cookies)) ==> forwarded_headers(
            page_url,
            h,
            with_cookies,
        ) == pair_views(kept_headers(h, with_cookies)),
        page_url.is_some() && !has_referer(kept_headers(h, with_cookies)) ==> forwarded_headers(
            page_url,
            h,
            with_cookies,
        ) == pair_views(kept_headers(h, with_cookies)).push(("Referer"@, page_url.unwrap())),
{
    lemma_kept_headers(h, with_cookies);
}

} // verus!
