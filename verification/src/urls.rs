//! URL text operations and the boundary to the `url` crate.
//!
//! A URL is carried through the library as its serialization, a `String`.
//! The `url` crate computes what only it can state — joining a reference
//! against a base, normalizing a base to its directory, form-encoding a
//! query pair, mapping a `file:` URL to a filesystem path — behind trusted
//! wrappers.  Everything that merely reads the serialization (scheme
//! dispatch, the HTTP-to-HTTPS upgrade, stripping the query) is verified
//! here directly: a serialization always begins with its scheme followed
//! by `:`, a literal `?` only ever starts the query component, and a
//! literal `#` only ever starts the fragment.

use vstd::prelude::*;
use vstd::string::StrSliceExecFns;
use vstd::string::StringExecFns;
use crate::scan::{spec_find, lemma_spec_find, lemma_find_is_first};

verus! {

/// True when `p` is a prefix of `s`.
pub open spec fn spec_starts_with(s: Seq<char>, p: Seq<char>) -> bool {
    p.len() <= s.len() && forall|i: int| 0 <= i < p.len() ==> s[i] == p[i]
}

/// Whether `s` begins with `p`.
pub fn str_starts_with(s: &str, p: &str) -> (r: bool)
    ensures
        r == spec_starts_with(s@, p@),
{
    let n = p.unicode_len();
    let m = s.unicode_len();
    if n > m {
        return false;
    }
    let mut i: usize = 0;
    while i < n
        invariant
            i <= n,
            n == p@.len(),
            n <= s@.len(),
            m == s@.len(),
            forall|j: int| 0 <= j < i ==> s@[j] == p@[j],
        decreases n - i,
    {
        if s.get_char(i) != p.get_char(i) {
            return false;
        }
        i = i + 1;
    }
    true
}

/// Index of the first occurrence of `c` in `s`, or the length of `s` when
/// `c` does not occur.
pub fn find_char(s: &str, c: char) -> (r: usize)
    ensures
        r == spec_find(s@, c),
        r <= s@.len(),
        r < s@.len() ==> s@[r as int] == c,
        forall|j: int| 0 <= j < r ==> s@[j] != c,
{
    let n = s.unicode_len();
    let mut i: usize = 0;
    while i < n
        invariant
            i <= n,
            n == s@.len(),
            forall|j: int| 0 <= j < i ==> s@[j] != c,
        decreases n - i,
    {
        if s.get_char(i) == c {
            proof {
                lemma_find_is_first(s@, c, i as int);
            }
            return i;
        }
        i = i + 1;
    }
    proof {
        lemma_find_is_first(s@, c, n as int);
    }
    n
}

/// The serialization with its query component removed: everything from the
/// `?` that starts the query up to the fragment (or the end) is dropped,
/// while the fragment, if any, is kept.  A serialization whose first `?`
/// lies inside the fragment, or that has none, is returned unchanged.
pub open spec fn strip_query_spec(s: Seq<char>) -> Seq<char> {
    let h = spec_find(s, '#');
    let q = spec_find(s.take(h), '?');
    if q == h {
        s
    } else {
        s.take(q) + s.skip(h)
    }
}

/// Removes the query component of a URL serialization, keeping the fragment.
pub fn strip_query(s: &str) -> (r: String)
    ensures
        r@ == strip_query_spec(s@),
{
    let n = s.unicode_len();
    let h = find_char(s, '#');
    proof {
        lemma_spec_find(s@, '#');
    }
    let prefix = s.substring_char(0, h);
    proof {
        assert(prefix@ =~= s@.take(h as int));
    }
    let q = find_char(prefix, '?');
    proof {
        lemma_spec_find(prefix@, '?');
    }
    if q == h {
        String::from_str(s)
    } else {
        let mut out = String::from_str(s.substring_char(0, q));
        out.append(s.substring_char(h, n));
        proof {
            assert(s@.subrange(0, q as int) =~= s@.take(q as int));
            assert(s@.subrange(h as int, n as int) =~= s@.skip(h as int));
        }
        out
    }
}

/// The security normalization applied to every resolved URL when the
/// "upgrade insecure requests" option is on: a serialization whose scheme
/// is exactly `http` is rewritten to `https`, and everything after the
/// scheme — authority, path, query and fragment — is kept verbatim.  Any
/// other serialization is left untouched.
pub open spec fn upgrade_spec(s: Seq<char>) -> Seq<char> {
    if spec_starts_with(s, "http://"@) {
        "https://"@ + s.skip(7)
    } else {
        s
    }
}

/// Rewrites the scheme of an `http` URL to `https`, in place.
pub fn upgrade_insecure(s: String) -> (r: String)
    ensures
        r@ == upgrade_spec(s@),
{
    proof {
        reveal_strlit("http://");
        reveal_strlit("https://");
    }
    if str_starts_with(s.as_str(), "http://") {
        let n = s.as_str().unicode_len();
        let rest = s.as_str().substring_char(7, n);
        let mut out = String::from_str("https://");
        out.append(rest);
        proof {
            assert(s@.subrange(7, n as int) =~= s@.skip(7));
        }
        out
    } else {
        s
    }
}

/// The upgrade is idempotent — a second application changes nothing — and
/// it only ever rewrites the scheme `http` to `https`: the serialization
/// after the scheme (host, path, query, fragment) is carried over verbatim,
/// and a URL of any other scheme is left as it was.
pub proof fn lemma_upgrade_idempotent(s: Seq<char>)
    ensures
        upgrade_spec(upgrade_spec(s)) == upgrade_spec(s),
        spec_starts_with(s, "http://"@) ==> upgrade_spec(s) == "https://"@ + s.skip(7),
        !spec_starts_with(s, "http://"@) ==> upgrade_spec(s) == s,
{
    reveal_strlit("http://");
    reveal_strlit("https://");
    if spec_starts_with(s, "http://"@) {
        let u = "https://"@ + s.skip(7);
        assert(u[4] == 's');
        assert(!spec_starts_with(u, "http://"@)) by {
            assert("http://"@[4] == ':');
        }
    }
}

/// The serialization of the URL obtained by resolving `reference` against
/// the URL whose serialization is `base`, or `None` when the two cannot be
/// parsed and joined.  What this resolves to is defined by the `url` crate.
pub uninterp spec fn join_of(base: Seq<char>, reference: Seq<char>) -> Option<Seq<char>>;

/// The text of the parse error that resolving `reference` against `base`
/// fails with, when it fails: each of the `url` crate's parse errors
/// displays as a fixed message, so the text is a function of the two
/// strings alone.
pub uninterp spec fn join_err_of(base: Seq<char>, reference: Seq<char>) -> Seq<char>;

/// Relies on `url::Url::parse` and `url::Url::join`: resolves `reference`
/// against the base URL following standard relative-reference semantics and
/// returns the serialization of the result; otherwise the text of the parse
/// failure, as `url::ParseError` displays it.
#[verifier::external_body]
pub(crate) fn join_url(base: &str, reference: &str) -> (r: Result<String, String>)
    ensures
        r is Ok <==> join_of(base@, reference@) is Some,
        r matches Ok(u) ==> Some(u@) == join_of(base@, reference@),
        r matches Err(t) ==> t@ == join_err_of(base@, reference@),
{
    match url::Url::parse(base) {
        Ok(b) => match b.join(reference) {
            Ok(u) => Ok(String::from(u)),
            Err(e) => Err(e.to_string()),
        },
        Err(e) => Err(e.to_string()),
    }
}

/// The serialization of `base` with its last path segment replaced by an
/// empty one, so that relative references resolve as against a directory;
/// `None` when `base` does not parse as an absolute URL.
pub uninterp spec fn dir_base_of(base: Seq<char>) -> Option<Seq<char>>;

/// Relies on `url::Url::parse` and `url::PathSegmentsMut` (`pop`,
/// `pop_if_empty`, `push`): drops the trailing path segment and ends the
/// path with an empty segment.  A URL that cannot be a base keeps its path
/// as it was.
#[verifier::external_body]
pub(crate) fn normalize_base_url(base: &str) -> (r: Option<String>)
    ensures
        r is Some <==> dir_base_of(base@) is Some,
        r matches Some(b) ==> Some(b@) == dir_base_of(base@),
{
    let mut u = match url::Url::parse(base) {
        Ok(u) => u,
        Err(_) => return None,
    };
    if let Ok(mut segments) = u.path_segments_mut() {
        segments.pop().pop_if_empty().push("");
    }
    Some(String::from(u))
}

/// The serialization of the URL `u` with the form-urlencoded pair
/// `name=value` appended to its query, or `None` when `u` does not parse.
pub uninterp spec fn with_pair_of(u: Seq<char>, name: Seq<char>, value: Seq<char>) -> Option<
    Seq<char>,
>;

/// Relies on `url::Url::query_pairs_mut` and
/// `form_urlencoded::Serializer::append_pair`: appends one name/value pair
/// to the URL's query, percent-encoded as a form field.
#[verifier::external_body]
pub(crate) fn append_query_pair(u: &str, name: &str, value: &str) -> (r: Option<String>)
    ensures
        r is Some <==> with_pair_of(u@, name@, value@) is Some,
        r matches Some(w) ==> Some(w@) == with_pair_of(u@, name@, value@),
{
    let mut parsed = match url::Url::parse(u) {
        Ok(p) => p,
        Err(_) => return None,
    };
    parsed.query_pairs_mut().append_pair(name, value);
    Some(String::from(parsed))
}

/// Relies on `url::Url::to_file_path`: converts a `file:` URL into a local
/// filesystem path.  The mapping is platform-defined, so nothing is claimed
/// of the returned text; `None` when the URL does not parse, is not a
/// local-file URL, or its path is not valid UTF-8.
#[verifier::external_body]
pub(crate) fn file_url_to_path(u: &str) -> Option<String> {
    let parsed = url::Url::parse(u).ok()?;
    let path = parsed.to_file_path().ok()?;
    Some(path.to_str()?.to_string())
}

} // verus!
