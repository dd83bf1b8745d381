//! The HTTP binding: which request is meant for which operation, and the
//! response that reports each result of the service.
//!
//! Requests and responses are plain values here. Paths arrive without a
//! trailing slash; bodies arrive decoded.

use vstd::prelude::*;
use vstd::string::*;
use crate::database::Link;
use crate::service::ServiceError;

verus! {

/// The body of a create request.
#[derive(Debug, PartialEq, Eq)]
pub struct CreateLinkRequest {
    pub url: String,
}

/// The body that reports a created link.
#[derive(Debug, PartialEq, Eq)]
pub struct CreateLinkResponse {
    pub id: String,
    pub url: String,
}

/// The body that reports a failure: a fixed message, never the store's own
/// words.
#[derive(Debug, PartialEq, Eq)]
pub struct ErrorResponse {
    pub error: String,
}

/// The request methods that the binding tells apart.
#[derive(Clone, Copy, Debug, PartialEq, Eq, Structural)]
pub enum Method {
    Get,
    Post,
    Delete,
    Other,
}

/// The operation that a request is meant for.
#[derive(Debug, PartialEq, Eq)]
pub enum Route {
    /// `POST /api/links`
    CreateLink,
    /// `DELETE /api/links/{id}`
    DeleteLink(String),
    /// `GET /{id}`
    Redirect(String),
    /// Everything else.
    Unknown,
}

/// A `Route` with its identifier as a sequence of characters.
pub ghost enum Target {
    CreateLink,
    DeleteLink(Seq<char>),
    Redirect(Seq<char>),
    Unknown,
}

impl View for Route {
    type V = Target;

    open spec fn view(&self) -> Target {
        match self {
            Route::CreateLink => Target::CreateLink,
            Route::DeleteLink(id) => Target::DeleteLink(id@),
            Route::Redirect(id) => Target::Redirect(id@),
            Route::Unknown => Target::Unknown,
        }
    }
}

/// What a response carries as its body.
#[derive(Debug, PartialEq, Eq)]
pub enum Body {
    Empty,
    Created(CreateLinkResponse),
    Error(ErrorResponse),
}

/// A `Body` with its strings as sequences of characters.
pub ghost enum Content {
    Empty,
    Created { id: Seq<char>, url: Seq<char> },
    Error { error: Seq<char> },
}

impl View for Body {
    type V = Content;

    open spec fn view(&self) -> Content {
        match self {
            Body::Empty => Content::Empty,
            Body::Created(created) => Content::Created { id: created.id@, url: created.url@ },
            Body::Error(failed) => Content::Error { error: failed.error@ },
        }
    }
}

/// A response: the status code, the `Location` header if there is one, and
/// the body.
#[derive(Debug, PartialEq, Eq)]
pub struct Response {
    pub status: u16,
    pub location: Option<String>,
    pub body: Body,
}

/// A `Response` with its strings as sequences of characters.
pub ghost struct Reply {
    pub status: u16,
    pub location: Option<Seq<char>>,
    pub body: Content,
}

impl View for Response {
    type V = Reply;

    open spec fn view(&self) -> Reply {
        Reply {
            status: self.status,
            location: match self.location {
                Some(url) => Some(url@),
                None => None,
            },
            body: self.body@,
        }
    }
}

/// 201, with the new link in the body.
pub open spec fn created(id: Seq<char>, url: Seq<char>) -> Reply {
    Reply { status: 201, location: None, body: Content::Created { id, url } }
}

/// 204, with nothing in the body.
pub open spec fn no_content() -> Reply {
    Reply { status: 204, location: None, body: Content::Empty }
}

/// 303, with the target in the `Location` header and nothing in the body.
pub open spec fn see_other(url: Seq<char>) -> Reply {
    Reply { status: 303, location: Some(url), body: Content::Empty }
}

/// A failure: the status and the fixed message.
pub open spec fn failure(status: u16, error: Seq<char>) -> Reply {
    Reply { status, location: None, body: Content::Error { error } }
}

/// 404, with the one body that every miss gets.
pub open spec fn not_found() -> Reply {
    failure(404, "Not found"@)
}

/// 500 for a pool that gave no connection.
pub open spec fn no_connection() -> Reply {
    failure(500, "Database connection failed"@)
}

/// 400 for a create request whose body could not be decoded.
pub open spec fn bad_body() -> Reply {
    failure(400, "Invalid request body"@)
}

/// The response to a create request, by the service's result.
pub open spec fn create_reply(result: Result<Link, ServiceError>) -> Reply {
    match result {
        Ok(link) => created(link.id@, link.url@),
        Err(ServiceError::ServiceUnavailable) => no_connection(),
        Err(_) => failure(500, "Failed to create link"@),
    }
}

/// The response to a delete request, by the service's result.
pub open spec fn delete_reply(result: Result<(), ServiceError>) -> Reply {
    match result {
        Ok(_) => no_content(),
        Err(ServiceError::InvalidId) => failure(400, "Invalid ID format"@),
        Err(ServiceError::ServiceUnavailable) => no_connection(),
        Err(_) => failure(500, "Failed to delete link"@),
    }
}

/// The response to a redirect request, by the service's result.
pub open spec fn redirect_reply(result: Result<String, ServiceError>) -> Reply {
    match result {
        Ok(url) => see_other(url@),
        Err(ServiceError::NotFound) => not_found(),
        Err(ServiceError::ServiceUnavailable) => no_connection(),
        Err(_) => failure(500, "Failed to get link"@),
    }
}

fn error_response(status: u16, message: &str) -> (response: Response)
    ensures
        response@ == failure(status, message@),
{
    Response {
        status,
        location: None,
        body: Body::Error(ErrorResponse { error: String::from_str(message) }),
    }
}

/// The response to every request that no route takes, and to a redirect
/// request for an identifier that no link has.
pub fn not_found_response() -> (response: Response)
    ensures
        response@ == not_found(),
{
    error_response(404, "Not found")
}

/// The response to a create request whose body could not be decoded.
pub fn bad_body_response() -> (response: Response)
    ensures
        response@ == bad_body(),
{
    error_response(400, "Invalid request body")
}

/// The response to a create request.
pub fn create_response(result: Result<Link, ServiceError>) -> (response: Response)
    ensures
        response@ == create_reply(result),
{
    match result {
        Ok(link) => Response {
            status: 201,
            location: None,
            body: Body::Created(CreateLinkResponse { id: link.id, url: link.url }),
        },
        Err(ServiceError::ServiceUnavailable) => error_response(500, "Database connection failed"),
        Err(_) => error_response(500, "Failed to create link"),
    }
}

/// The response to a delete request.
pub fn delete_response(result: Result<(), ServiceError>) -> (response: Response)
    ensures
        response@ == delete_reply(result),
{
    match result {
        Ok(_) => Response { status: 204, location: None, body: Body::Empty },
        Err(ServiceError::InvalidId) => error_response(400, "Invalid ID format"),
        Err(ServiceError::ServiceUnavailable) => error_response(500, "Database connection failed"),
        Err(_) => error_response(500, "Failed to delete link"),
    }
}

/// The response to a redirect request.
pub fn redirect_response(result: Result<String, ServiceError>) -> (response: Response)
    ensures
        response@ == redirect_reply(result),
{
    match result {
        Ok(url) => Response { status: 303, location: Some(url), body: Body::Empty },
        Err(ServiceError::NotFound) => not_found_response(),
        Err(ServiceError::ServiceUnavailable) => error_response(500, "Database connection failed"),
        Err(_) => error_response(500, "Failed to get link"),
    }
}

/// One path segment: not empty, and without a slash.
pub open spec fn is_segment(s: Seq<char>) -> bool {
    s.len() > 0 && forall|i: int| 0 <= i < s.len() ==> #[trigger] s[i] != '/'
}

/// `path` begins with `prefix`.
pub open spec fn has_prefix(path: Seq<char>, prefix: Seq<char>) -> bool {
    path.len() >= prefix.len() && path.take(prefix.len() as int) == prefix
}

/// The route table. A path that is `prefix` and one segment names the
/// segment as the identifier; the method has to fit as well.
pub open spec fn route_of(method: Method, path: Seq<char>) -> Target {
    let under_links = "/api/links/"@;
    let under_root = "/"@;
    if method == Method::Post && path == "/api/links"@ {
        Target::CreateLink
    } else if method == Method::Delete && has_prefix(path, under_links) && is_segment(
        path.skip(under_links.len() as int),
    ) {
        Target::DeleteLink(path.skip(under_links.len() as int))
    } else if method == Method::Get && has_prefix(path, under_root) && is_segment(
        path.skip(under_root.len() as int),
    ) {
        Target::Redirect(path.skip(under_root.len() as int))
    } else {
        Target::Unknown
    }
}

fn same_text(a: &str, b: &str) -> (same: bool)
    ensures
        same == (a@ == b@),
{
    String::from_str(a) == String::from_str(b)
}

/// Tells whether `s` is one path segment. Text that is all ASCII, as a
/// request path is, is read byte by byte; any other text character by
/// character.
fn is_one_segment(s: &str) -> (ok: bool)
    ensures
        ok == is_segment(s@),
{
    if s.is_ascii() {
        let bytes = s.as_bytes();
        proof {
            is_ascii_spec_bytes(s);
        }
        let n = bytes.len();
        let mut i: usize = 0;
        while i < n
            invariant
                n == s@.len(),
                bytes@.len() == n,
                forall|j: int| 0 <= j < n ==> bytes@[j] == (#[trigger] s@[j]) as u8,
                forall|j: int| 0 <= j < n ==> '\0' <= #[trigger] s@[j] <= '\u{7f}',
                forall|j: int| 0 <= j < i ==> #[trigger] s@[j] != '/',
            decreases n - i,
        {
            if bytes[i] == 47u8 {
                assert(s@[i as int] == '/');
                return false;
            }
            assert(s@[i as int] != '/');
            i += 1;
        }
        n > 0
    } else {
        let n = s.unicode_len();
        let mut i: usize = 0;
        while i < n
            invariant
                n == s@.len(),
                forall|j: int| 0 <= j < i ==> #[trigger] s@[j] != '/',
            decreases n - i,
        {
            if s.get_char(i) == '/' {
                return false;
            }
            i += 1;
        }
        n > 0
    }
}

/// What follows `prefix` in `path`, where `path` is `prefix` and one segment.
fn segment_after(path: &str, prefix: &str) -> (rest: Option<String>)
    ensures
        match rest {
            Some(s) => has_prefix(path@, prefix@) && s@ == path@.skip(prefix@.len() as int)
                && is_segment(s@),
            None => !(has_prefix(path@, prefix@) && is_segment(path@.skip(prefix@.len() as int))),
        },
{
    let n = path.unicode_len();
    let k = prefix.unicode_len();
    if n <= k {
        return None;
    }
    let head = path.substring_char(0, k);
    assert(path@.subrange(0, k as int) == path@.take(k as int));
    if !same_text(head, prefix) {
        return None;
    }
    let tail = path.substring_char(k, n);
    assert(path@.subrange(k as int, n as int) == path@.skip(k as int));
    if is_one_segment(tail) {
        Some(String::from_str(tail))
    } else {
        None
    }
}

/// Finds the operation that a request is meant for.
pub fn route(method: Method, path: &str) -> (found: Route)
    ensures
        found@ == route_of(method, path@),
{
    match method {
        Method::Post => {
            if same_text(path, "/api/links") {
                Route::CreateLink
            } else {
                Route::Unknown
            }
        },
        Method::Delete => {
            match segment_after(path, "/api/links/") {
                Some(id) => Route::DeleteLink(id),
                None => Route::Unknown,
            }
        },
        Method::Get => {
            match segment_after(path, "/") {
                Some(id) => Route::Redirect(id),
                None => Route::Unknown,
            }
        },
        Method::Other => Route::Unknown,
    }
}

} // verus!
