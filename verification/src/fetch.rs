//! The fetch service: request and response values, scheme dispatch, and
//! the assembly of the uniform success/error outcome.
//!
//! The service itself performs no I/O.  A caller resolves the request URL,
//! asks `plan_fetch` which branch applies, performs the one read or send
//! that the branch names, and hands the raw outcome back to the matching
//! `..._finish` function, which builds the response the fetch contract
//! promises.  Every decision — which scheme goes where, which header is
//! acceptable, which status counts as success, which error carries what —
//! is made here, under contract.

use vstd::prelude::*;
use vstd::string::StrSliceExecFns;
use vstd::string::StringExecFns;
use crate::urls::strip_query_spec;
use crate::urls::strip_query;
use crate::urls::file_url_to_path;

verus! {

/// The request method of an embedded navigation or fetch.
#[derive(Clone, Copy, PartialEq, Eq, Structural, Debug)]
pub enum NavigationMethod {
    Get,
    Post,
}

/// A fetch request: method, target URL, header mapping and optional body.
/// Immutable once constructed.
#[derive(Debug)]
pub struct Request {
    /// The request method.
    pub method: NavigationMethod,
    /// The target URL, possibly relative to the navigator's base.
    pub url: String,
    /// Header name/value pairs, in insertion order.
    pub headers: Vec<(String, String)>,
    /// The request body, if any.
    pub body: Option<Vec<u8>>,
}

impl Request {
    /// A GET request for `url`, with no headers and no body.
    pub fn get(url: String) -> (r: Request)
        ensures
            r.method == NavigationMethod::Get,
            r.url@ == url@,
            r.headers@.len() == 0,
            r.body is None,
    {
        Request { method: NavigationMethod::Get, url, headers: Vec::new(), body: None }
    }

    /// A POST request for `url` carrying `body`, with no headers.
    pub fn post(url: String, body: Option<Vec<u8>>) -> (r: Request)
        ensures
            r.method == NavigationMethod::Post,
            r.url@ == url@,
            r.headers@.len() == 0,
            r.body == body,
    {
        Request { method: NavigationMethod::Post, url, headers: Vec::new(), body }
    }
}

/// The successful outcome of a fetch.
#[derive(Debug)]
pub struct SuccessResponse {
    /// The final URL, after any redirects.
    pub url: String,
    /// The response body.
    pub body: Vec<u8>,
    /// The numeric HTTP status; 0 for filesystem access.
    pub status: u16,
    /// Whether the final URL differs from the requested one.
    pub redirected: bool,
}

/// The failing outcome of a fetch: the URL it concerns and the kind of
/// failure.  No partial body is carried.
#[derive(Debug)]
pub struct ErrorResponse {
    /// The URL the failure concerns.
    pub url: String,
    /// What went wrong.
    pub error: FetchErrorKind,
}

/// The error taxonomy of the fetch service.
#[derive(Debug)]
pub enum FetchErrorKind {
    /// The request URL could not be resolved; carries the parse error text.
    InvalidUrl(String),
    /// No HTTP client capability is available.
    NetworkUnavailable,
    /// A header name or value cannot be encoded; carries the offending text.
    HeaderEncoding(String),
    /// The HTTP layer failed below the protocol; carries its message.
    Transport(String),
    /// A non-success HTTP status; carries the status and the redirect flag.
    HttpNotOk(u16, bool),
    /// A filesystem read failed; carries the error text and the path.
    Filesystem(String, String),
}

/// Which branch a resolved fetch takes.
#[derive(Debug)]
pub enum FetchPlan {
    /// Read from the local filesystem; `url` is the resolved URL.
    File { url: String },
    /// Send over the HTTP transport; `url` is the resolved URL.
    Http { url: String },
}

/// What the filesystem branch reads and reports: the resolved URL goes into
/// the response unchanged (its query kept, by the embedding runtime's
/// convention of exposing query strings to script code even for local
/// files), while the URL handed to the path conversion has the query
/// stripped first.
#[derive(Debug)]
pub struct FileTarget {
    /// The URL reported in the response, query and all.
    pub response_url: String,
    /// The resolved URL with its query stripped, the one converted to a path.
    pub read_url: String,
    /// The filesystem path to read.
    pub path: String,
}

/// Prepares the filesystem branch for a resolved `file:` URL: strips the
/// query, converts what is left to a path, and fails — carrying the text
/// below and the resolved URL — when no path can be made of it.
pub fn file_fetch_target(resolved: &String) -> (r: Result<FileTarget, ErrorResponse>)
    ensures
        r matches Ok(t) ==> t.response_url@ == resolved@ && t.read_url@ == strip_query_spec(
            resolved@,
        ),
        r matches Err(e) ==> e.url@ == resolved@ && (e.error matches FetchErrorKind::Filesystem(
            m,
            p,
        ) && m@ == "Unable to create path out of URL"@ && p@ == ""@),
{
    let read_url = strip_query(resolved.as_str());
    match file_url_to_path(read_url.as_str()) {
        Some(path) => Ok(FileTarget { response_url: resolved.clone(), read_url, path }),
        None => {
            proof {
                reveal_strlit("");
                assert(""@ =~= Seq::<char>::empty());
            }
            Err(
                ErrorResponse {
                    url: resolved.clone(),
                    error: FetchErrorKind::Filesystem(
                        String::from_str("Unable to create path out of URL"),
                        String::new(),
                    ),
                },
            )
        },
    }
}

/// Builds the outcome of the filesystem branch from the bytes the read
/// produced, or from its error text.  A successful read always reports
/// status 0 and no redirect, under the response URL handed in.
pub fn file_fetch_finish(response_url: String, path: String, read: Result<Vec<u8>, String>) -> (r:
    Result<SuccessResponse, ErrorResponse>)
    ensures
        read matches Ok(b) ==> (r matches Ok(resp) && resp.url@ == response_url@ && resp.body@
            == b@ && resp.status == 0 && resp.redirected == false),
        read matches Err(m) ==> (r matches Err(e) && e.url@ == response_url@ && (
        e.error matches FetchErrorKind::Filesystem(msg, p) && msg@ == m@ && p@ == path@)),
{
    match read {
        Ok(body) => Ok(SuccessResponse { url: response_url, body, status: 0, redirected: false }),
        Err(message) => Err(
            ErrorResponse {
                url: response_url,
                error: FetchErrorKind::Filesystem(message, path),
            },
        ),
    }
}

/// What the filesystem branch does about a failed read.
#[derive(Debug, PartialEq, Eq, Structural)]
pub enum FileReadFollowup {
    /// Let the user grant read access to a directory, then retry the read,
    /// once; what the retry yields is delivered whatever it is.
    RetryAfterGrant,
    /// Deliver the failure as it stands.
    Deliver,
}

/// Decides the follow-up of a failed read in the filesystem branch: only a
/// permission failure is escalated to the consent-and-grant collaborator,
/// and the read retried only when the user consented; any other failure,
/// and a declined consent, deliver the error text as it stands.  The
/// escalation happens at most once: the outcome of a retried read goes
/// straight to `file_fetch_finish`.
pub fn file_read_followup(permission_denied: bool, consent_granted: bool) -> (r: FileReadFollowup)
    ensures
        r == FileReadFollowup::RetryAfterGrant <==> permission_denied && consent_granted,
{
    if permission_denied && consent_granted {
        FileReadFollowup::RetryAfterGrant
    } else {
        FileReadFollowup::Deliver
    }
}

/// Whether `c` may appear in a header name: the HTTP token characters —
/// letters, digits, and the marks ! # $ % & ' * + - . ^ _ ` | ~.
pub open spec fn valid_header_name_char(c: char) -> bool {
    let n = c as u32;
    (97 <= n <= 122)  // a-z
    || (65 <= n <= 90)  // A-Z
    || (48 <= n <= 57)  // 0-9
    || n == 33 || (35 <= n <= 39) || n == 42 || n == 43 || n == 45 || n == 46 || n == 94 || n == 95
        || n == 96 || n == 124 || n == 126
}

/// Whether `s` can be encoded as a header name: non-empty and made of
/// token characters only.
pub open spec fn valid_header_name(s: Seq<char>) -> bool {
    s.len() > 0 && forall|i: int| 0 <= i < s.len() ==> valid_header_name_char(#[trigger] s[i])
}

/// Whether `c` may appear in a header value: horizontal tab, or any
/// character other than the control characters below space and delete.
pub open spec fn valid_header_value_char(c: char) -> bool {
    let n = c as u32;
    n == 9 || (n >= 32 && n != 127)
}

/// Whether `s` can be encoded as a header value.
pub open spec fn valid_header_value(s: Seq<char>) -> bool {
    forall|i: int| 0 <= i < s.len() ==> valid_header_value_char(#[trigger] s[i])
}

/// Whether the header pair `h` can be encoded at all.
pub open spec fn valid_header(h: (String, String)) -> bool {
    valid_header_name(h.0@) && valid_header_value(h.1@)
}

/// The text reported for an unencodable header: its name when the name is
/// at fault, its value otherwise.
pub open spec fn header_error_text(h: (String, String)) -> Seq<char> {
    if !valid_header_name(h.0@) {
        h.0@
    } else {
        h.1@
    }
}

/// `j` is the first index of `headers` holding an unencodable pair.
pub open spec fn first_invalid_header_at(headers: Seq<(String, String)>, j: int) -> bool {
    0 <= j < headers.len() && !valid_header(headers[j]) && (forall|i: int|
        0 <= i < j ==> valid_header(#[trigger] headers[i]))
}

/// Whether `s` can be encoded as a header name.
pub fn check_header_name(s: &str) -> (r: bool)
    ensures
        r == valid_header_name(s@),
{
    let n = s.unicode_len();
    if n == 0 {
        return false;
    }
    let mut i: usize = 0;
    while i < n
        invariant
            i <= n,
            n == s@.len(),
            forall|j: int| 0 <= j < i ==> valid_header_name_char(#[trigger] s@[j]),
        decreases n - i,
    {
        let c = s.get_char(i) as u32;
        let token = (97 <= c && c <= 122) || (65 <= c && c <= 90) || (48 <= c && c <= 57) || c == 33
            || (35 <= c && c <= 39) || c == 42 || c == 43 || c == 45 || c == 46 || c == 94 || c
            == 95 || c == 96 || c == 124 || c == 126;
        if !token {
            return false;
        }
        i = i + 1;
    }
    true
}

/// Whether `s` can be encoded as a header value.
pub fn check_header_value(s: &str) -> (r: bool)
    ensures
        r == valid_header_value(s@),
{
    let n = s.unicode_len();
    let mut i: usize = 0;
    while i < n
        invariant
            i <= n,
            n == s@.len(),
            forall|j: int| 0 <= j < i ==> valid_header_value_char(#[trigger] s@[j]),
        decreases n - i,
    {
        let c = s.get_char(i) as u32;
        if !(c == 9 || (c >= 32 && c != 127)) {
            return false;
        }
        i = i + 1;
    }
    true
}

/// The index of the first header pair that cannot be encoded, or `None`
/// when every pair can.
pub fn first_invalid_header(headers: &Vec<(String, String)>) -> (r: Option<usize>)
    ensures
        r is None ==> forall|i: int| 0 <= i < headers@.len() ==> valid_header(#[trigger] headers@[i]),
        r matches Some(j) ==> first_invalid_header_at(headers@, j as int),
{
    let mut i: usize = 0;
    while i < headers.len()
        invariant
            i <= headers@.len(),
            forall|j: int| 0 <= j < i ==> valid_header(#[trigger] headers@[j]),
        decreases headers@.len() - i,
    {
        let ok = check_header_name(headers[i].0.as_str()) && check_header_value(
            headers[i].1.as_str(),
        );
        if !ok {
            return Some(i);
        }
        i = i + 1;
    }
    None
}

/// The checks the HTTP branch makes before any network I/O: an absent
/// client capability yields the network-unavailable error, and the first
/// header that cannot be encoded yields the header-encoding error carrying
/// its name (when the name is at fault) or its value.  Both errors report
/// the resolved URL.
pub fn http_preflight(client_available: bool, url: &String, headers: &Vec<(String, String)>) -> (r:
    Result<(), ErrorResponse>)
    ensures
        !client_available ==> (r matches Err(e) && e.url@ == url@
            && e.error matches FetchErrorKind::NetworkUnavailable),
        client_available && (forall|i: int|
            0 <= i < headers@.len() ==> valid_header(#[trigger] headers@[i])) ==> r is Ok,
        client_available ==> (r matches Err(e) ==> e.url@ == url@ && (
        e.error matches FetchErrorKind::HeaderEncoding(t) && exists|j: int|
            first_invalid_header_at(headers@, j) && t@ == header_error_text(
                #[trigger] headers@[j],
            ))),
        r is Ok ==> client_available && (forall|i: int|
            0 <= i < headers@.len() ==> valid_header(#[trigger] headers@[i])),
{
    if !client_available {
        return Err(
            ErrorResponse { url: url.clone(), error: FetchErrorKind::NetworkUnavailable },
        );
    }
    match first_invalid_header(headers) {
        None => Ok(()),
        Some(j) => {
            let text = if !check_header_name(headers[j].0.as_str()) {
                headers[j].0.clone()
            } else {
                headers[j].1.clone()
            };
            Err(
                ErrorResponse { url: url.clone(), error: FetchErrorKind::HeaderEncoding(text) },
            )
        },
    }
}

/// The failing outcome of a transport-level fault (DNS, connection, TLS,
/// or reading the body), tagged with the underlying message.
pub fn transport_error(url: String, message: String) -> (r: ErrorResponse)
    ensures
        r.url@ == url@,
        r.error matches FetchErrorKind::Transport(m) && m@ == message@,
{
    ErrorResponse { url, error: FetchErrorKind::Transport(message) }
}

/// Whether `status` counts as success: the 2xx and 3xx ranges.
pub open spec fn status_is_success(status: u16) -> bool {
    200 <= status < 400
}

/// Whether the fetch was redirected: the effective URL the transport
/// reports differs from the requested one.
pub open spec fn was_redirected(requested: Seq<char>, effective: Option<String>) -> bool {
    match effective {
        Some(e) => e@ != requested,
        None => false,
    }
}

/// Builds the outcome of the HTTP branch once the transport has answered.
///
/// The effective URL, when the transport reports one, replaces the
/// requested URL in the outcome; the fetch counts as redirected exactly
/// when that effective URL differs from the requested one.  A 2xx or 3xx
/// status yields success carrying the buffered body; any other status
/// yields the non-success error carrying the numeric status and the
/// redirect flag.
pub fn http_fetch_finish(
    requested_url: String,
    effective_url: Option<String>,
    status: u16,
    body: Vec<u8>,
) -> (r: Result<SuccessResponse, ErrorResponse>)
    ensures
        ({
            let u = match effective_url {
                Some(e) => e@,
                None => requested_url@,
            };
            let redirected = was_redirected(requested_url@, effective_url);
            if status_is_success(status) {
                r matches Ok(resp) && resp.url@ == u && resp.body@ == body@ && resp.status
                    == status && resp.redirected == redirected
            } else {
                r matches Err(e) && e.url@ == u && (e.error matches FetchErrorKind::HttpNotOk(
                    s,
                    rd,
                ) && s == status && rd == redirected)
            }
        }),
{
    let (url, redirected) = match effective_url {
        Some(e) => {
            let differs = e != requested_url;
            (e, differs)
        },
        None => (requested_url, false),
    };
    if 200 <= status && status < 400 {
        Ok(SuccessResponse { url, body, status, redirected })
    } else {
        Err(ErrorResponse { url, error: FetchErrorKind::HttpNotOk(status, redirected) })
    }
}

} // verus!
