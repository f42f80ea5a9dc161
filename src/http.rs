//! The authenticated HTTP client: what a request carries, which requests are
//! refused before any network activity, and how an outcome is classified.

use vstd::prelude::*;
use crate::session::{jar_cookie_seq, opt_view, StoredSession};
use crate::text::{is_prefix, starts_with_text, views};

verus! {

/// One request or response header.
#[derive(Debug, PartialEq, Eq)]
pub struct Header {
    pub name: String,
    pub value: String,
}

impl View for Header {
    type V = (Seq<char>, Seq<char>);

    open spec fn view(&self) -> (Seq<char>, Seq<char>) {
        (self.name@, self.value@)
    }
}

pub open spec fn header_views(h: Seq<Header>) -> Seq<(Seq<char>, Seq<char>)> {
    h.map_values(|x: Header| x@)
}

/// A request as a caller describes it.
#[derive(Debug, PartialEq, Eq)]
pub struct Request {
    pub url: String,
    pub method: String,
    pub headers: Option<Vec<Header>>,
    /// The body, as JSON text.
    pub body: Option<String>,
}

/// A request as it goes out: the cookies are those of its jar, scoped to `url`.
#[derive(Debug, PartialEq, Eq)]
pub struct OutboundRequest {
    pub url: String,
    pub method: String,
    pub headers: Vec<Header>,
    pub cookies: Vec<String>,
    pub body: Option<String>,
}

/// `o` sends these values.
pub open spec fn sends(
    o: OutboundRequest,
    url: Seq<char>,
    method: Seq<char>,
    headers: Seq<(Seq<char>, Seq<char>)>,
    cookies: Seq<Seq<char>>,
    body: Option<Seq<char>>,
) -> bool {
    &&& o.url@ == url
    &&& o.method@ == method
    &&& header_views(o.headers@) == headers
    &&& views(o.cookies@) == cookies
    &&& opt_view(o.body) == body
}

/// The header that every request carries.
pub open spec fn identifying_header() -> (Seq<char>, Seq<char>) {
    ("User-Agent"@, "Spectre/2.0"@)
}

/// What the network gave back for a request.
#[derive(Debug, PartialEq, Eq)]
pub struct HttpResponse {
    pub status: u16,
    /// The values of the response's `Set-Cookie` headers, in order.
    pub set_cookies: Vec<String>,
    /// The body text, or why it could not be read.
    pub body: Result<String, String>,
}

/// How a request ended.
#[derive(Debug, PartialEq, Eq)]
pub enum HttpOutcome {
    /// No response came (name resolution, connection, TLS); the message says why.
    Failed(String),
    Received(HttpResponse),
}

#[derive(Debug, PartialEq, Eq)]
pub enum HttpError {
    /// The URL does not start with `http://` or `https://`.
    InvalidUrl,
    /// No response, or a body that could not be read; the message says why.
    TransportError(String),
    /// A response outside 2xx, with its body where it could be read.
    HttpStatusError { status: u16, body: Option<String> },
    /// The store could not be opened, read or written.
    StoreError(String),
    /// A body that should have been a number or JSON was not; it is carried here.
    SerializationError(String),
}

pub open spec fn is_success(status: u16) -> bool {
    200 <= status && status < 300
}

/// The result that an outcome gives: the body of a 2xx response, else the error.
pub open spec fn classified(o: HttpOutcome) -> Result<String, HttpError> {
    match o {
        HttpOutcome::Failed(m) => Err(HttpError::TransportError(m)),
        HttpOutcome::Received(r) => if is_success(r.status) {
            match r.body {
                Ok(t) => Ok(t),
                Err(m) => Err(HttpError::TransportError(m)),
            }
        } else {
            Err(
                HttpError::HttpStatusError {
                    status: r.status,
                    body: match r.body {
                        Ok(t) => Some(t),
                        Err(_) => None,
                    },
                },
            )
        },
    }
}

/// The `Set-Cookie` values of an outcome; none where no response came.
pub open spec fn set_cookies_of(o: HttpOutcome) -> Seq<Seq<char>> {
    match o {
        HttpOutcome::Failed(_) => Seq::empty(),
        HttpOutcome::Received(r) => views(r.set_cookies@),
    }
}

/// The result that `outcome` gives to its caller.
pub fn classify_response(outcome: HttpOutcome) -> (r: Result<String, HttpError>)
    ensures
        r == classified(outcome),
{
    match outcome {
        HttpOutcome::Failed(m) => Err(HttpError::TransportError(m)),
        HttpOutcome::Received(r) => {
            if 200 <= r.status && r.status < 300 {
                match r.body {
                    Ok(t) => Ok(t),
                    Err(m) => Err(HttpError::TransportError(m)),
                }
            } else {
                let body = match r.body {
                    Ok(t) => Some(t),
                    Err(_) => None,
                };
                Err(HttpError::HttpStatusError { status: r.status, body })
            }
        },
    }
}

/// A URL that a request may go to.
pub open spec fn is_web_url(url: Seq<char>) -> bool {
    is_prefix("http://"@, url) || is_prefix("https://"@, url)
}

pub fn check_url(url: &str) -> (r: Result<(), HttpError>)
    ensures
        r is Ok <==> is_web_url(url@),
        r is Err ==> r == Err::<(), HttpError>(HttpError::InvalidUrl),
{
    if starts_with_text(url, "http://") || starts_with_text(url, "https://") {
        Ok(())
    } else {
        Err(HttpError::InvalidUrl)
    }
}

/// The request to `url`, with the identifying header, then `extra`, and the
/// session's cookies in its jar.
pub fn outbound(
    session: &StoredSession,
    url: String,
    method: String,
    extra: Vec<Header>,
    body: Option<String>,
) -> (r: OutboundRequest)
    ensures
        sends(
            r,
            url@,
            method@,
            seq![identifying_header()] + header_views(extra@),
            jar_cookie_seq(session@),
            opt_view(body),
        ),
{
    let mut headers: Vec<Header> = Vec::new();
    headers.push(
        Header { name: String::from_str("User-Agent"), value: String::from_str("Spectre/2.0") },
    );
    let mut extra = extra;
    let ghost all = extra@;
    let n = extra.len();
    let mut i: usize = 0;
    while i < n
        invariant
            n == all.len(),
            i <= n,
            extra@ == all,
            header_views(headers@) == seq![identifying_header()] + header_views(all).subrange(
                0,
                i as int,
            ),
        decreases n - i,
    {
        let h = Header { name: extra[i].name.clone(), value: extra[i].value.clone() };
        let ghost prev = headers@;
        headers.push(h);
        assert(header_views(headers@) =~= header_views(prev).push(all[i as int]@));
        assert(header_views(all).subrange(0, i + 1) =~= header_views(all).subrange(
            0,
            i as int,
        ).push(all[i as int]@));
        i = i + 1;
    }
    assert(header_views(all).subrange(0, n as int) =~= header_views(all));
    OutboundRequest { url, method, headers, cookies: session.jar_cookies(), body }
}

/// The request that `req` describes, sent with the session's cookies, or
/// `InvalidUrl` (and nothing to send) where its URL is not `http(s)://`.
pub fn vrc_get_request(session: &StoredSession, req: Request) -> (r: Result<OutboundRequest, HttpError>)
    ensures
        r is Err <==> !is_web_url(req.url@),
        r matches Err(e) ==> e is InvalidUrl,
        r matches Ok(o) ==> sends(
            o,
            req.url@,
            req.method@,
            seq![identifying_header()] + match req.headers {
                Some(h) => header_views(h@),
                None => Seq::empty(),
            },
            jar_cookie_seq(session@),
            opt_view(req.body),
        ),
{
    match check_url(req.url.as_str()) {
        Err(e) => Err(e),
        Ok(()) => {
            let extra = match req.headers {
                Some(h) => h,
                None => Vec::new(),
            };
            Ok(outbound(session, req.url, req.method, extra, req.body))
        },
    }
}

} // verus!
