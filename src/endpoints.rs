//! The endpoint catalog, and the two public endpoints that need no session:
//! the server time and the visitor count.

use vstd::prelude::*;
use crate::http::{
    classified, classify_response, identifying_header, outbound, sends, HttpError, HttpOutcome,
    OutboundRequest, Request,
};
use crate::session::StoredSession;
use crate::text::{parse_u32_text, parsed_u32, trim_text, trimmed};

verus! {

/// Where every catalog path starts.
pub open spec fn api_base() -> Seq<char> {
    "https://api.vrchat.cloud/api/1/"@
}

/// `r` describes a request with this URL and method, no headers and no body.
pub open spec fn describes(r: Request, url: Seq<char>, method: Seq<char>) -> bool {
    &&& r.url@ == url
    &&& r.method@ == method
    &&& r.headers.is_none()
    &&& r.body.is_none()
}

pub open spec fn digit_char(d: int) -> char {
    if d == 0 { '0' } else if d == 1 { '1' } else if d == 2 { '2' } else if d == 3 { '3' }
    else if d == 4 { '4' } else if d == 5 { '5' } else if d == 6 { '6' } else if d == 7 { '7' }
    else if d == 8 { '8' } else { '9' }
}

/// The decimal digits of `n`, without leading zeros.
pub open spec fn decimal_of(n: nat) -> Seq<char>
    decreases n,
{
    if n < 10 {
        seq![digit_char(n as int)]
    } else {
        decimal_of(n / 10).push(digit_char((n % 10) as int))
    }
}

fn digit_text(d: u64) -> (r: &'static str)
    requires
        d < 10,
    ensures
        r@ == seq![digit_char(d as int)],
{
    proof {
        reveal_strlit("0");
        reveal_strlit("1");
        reveal_strlit("2");
        reveal_strlit("3");
        reveal_strlit("4");
        reveal_strlit("5");
        reveal_strlit("6");
        reveal_strlit("7");
        reveal_strlit("8");
        reveal_strlit("9");
    }
    let r = match d {
        0 => "0",
        1 => "1",
        2 => "2",
        3 => "3",
        4 => "4",
        5 => "5",
        6 => "6",
        7 => "7",
        8 => "8",
        _ => "9",
    };
    assert(r@ =~= seq![digit_char(d as int)]);
    r
}

/// `n` in decimal.
pub fn decimal_text(n: u64) -> (r: String)
    ensures
        r@ == decimal_of(n as nat),
    decreases n,
{
    if n < 10 {
        String::from_str(digit_text(n))
    } else {
        let mut r = decimal_text(n / 10);
        r.append(digit_text(n % 10));
        r
    }
}

fn api_request(path: &str, method: &str) -> (r: Request)
    ensures
        describes(r, api_base() + path@, method@),
{
    let mut url = String::from_str("https://api.vrchat.cloud/api/1/");
    url.append(path);
    Request { url, method: String::from_str(method), headers: None, body: None }
}

fn api_request_with(path: &str, tail: &str, suffix: &str, method: &str) -> (r: Request)
    ensures
        describes(r, api_base() + path@ + tail@ + suffix@, method@),
{
    let mut url = String::from_str("https://api.vrchat.cloud/api/1/");
    url.append(path);
    url.append(tail);
    url.append(suffix);
    Request { url, method: String::from_str(method), headers: None, body: None }
}

/// The friends who are online.
pub fn get_vrc_friends() -> (r: Request)
    ensures
        describes(r, api_base() + "auth/user/friends?offline=false"@, "GET"@),
{
    api_request("auth/user/friends?offline=false", "GET")
}

/// One user's profile.
pub fn get_vrc_user(user_id: &str) -> (r: Request)
    ensures
        describes(r, api_base() + "users/"@ + user_id@, "GET"@),
{
    let r = api_request_with("users/", user_id, "", "GET");
    proof {
        reveal_strlit("");
    }
    assert(api_base() + "users/"@ + user_id@ + ""@ =~= api_base() + "users/"@ + user_id@);
    r
}

/// One world instance.
pub fn get_vrc_instance(instance_id: &str) -> (r: Request)
    ensures
        describes(r, api_base() + "instances/"@ + instance_id@, "GET"@),
{
    let r = api_request_with("instances/", instance_id, "", "GET");
    proof {
        reveal_strlit("");
    }
    assert(api_base() + "instances/"@ + instance_id@ + ""@ =~= api_base() + "instances/"@
        + instance_id@);
    r
}

/// One page of the user's own avatars, newest first, starting at `offset`.
pub fn get_vrc_avatar_list(offset: u16) -> (r: Request)
    ensures
        describes(
            r,
            api_base() + "avatars?user=me&sort=updated&n=100&releaseStatus=all&order=descending&offset="@
                + decimal_of(offset as nat),
            "GET"@,
        ),
{
    let n = decimal_text(offset as u64);
    let r = api_request_with(
        "avatars?user=me&sort=updated&n=100&releaseStatus=all&order=descending&offset=",
        n.as_str(),
        "",
        "GET",
    );
    proof {
        reveal_strlit("");
    }
    assert(api_base() + "avatars?user=me&sort=updated&n=100&releaseStatus=all&order=descending&offset="@
        + n@ + ""@ =~= api_base()
        + "avatars?user=me&sort=updated&n=100&releaseStatus=all&order=descending&offset="@ + n@);
    r
}

/// The user's favorite friends.
pub fn get_vrc_favorites() -> (r: Request)
    ensures
        describes(r, api_base() + "favorites?n=100&type=friend"@, "GET"@),
{
    api_request("favorites?n=100&type=friend", "GET")
}

/// All of the user's notifications.
pub fn get_vrc_notifications() -> (r: Request)
    ensures
        describes(r, api_base() + "notifications?type=all"@, "GET"@),
{
    api_request("notifications?type=all", "GET")
}

/// Marks one notification as seen.
pub fn put_vrc_see_notification(notification_id: &str) -> (r: Request)
    ensures
        describes(
            r,
            api_base() + "auth/user/notifications/"@ + notification_id@ + "/see"@,
            "PUT"@,
        ),
{
    api_request_with("auth/user/notifications/", notification_id, "/see", "PUT")
}

pub open spec fn time_url() -> Seq<char> {
    "https://vrchat.com/api/1/time"@
}

pub open spec fn visits_url() -> Seq<char> {
    "https://vrchat.com/api/1/visits"@
}

/// The request for the server time; it carries no cookie.
pub fn time_request() -> (r: OutboundRequest)
    ensures
        sends(r, time_url(), "GET"@, seq![identifying_header()], Seq::empty(), None),
{
    let r = outbound(
        &StoredSession::logged_out(),
        String::from_str("https://vrchat.com/api/1/time"),
        String::from_str("GET"),
        Vec::new(),
        None,
    );
    assert(seq![identifying_header()] + crate::http::header_views(Seq::empty()) =~= seq![
        identifying_header(),
    ]);
    assert(crate::session::jar_cookie_seq(
        crate::session::SessionState { auth: None, otp: None },
    ) =~= Seq::empty());
    r
}

/// The request for the visitor count; it carries no cookie.
pub fn visits_request() -> (r: OutboundRequest)
    ensures
        sends(r, visits_url(), "GET"@, seq![identifying_header()], Seq::empty(), None),
{
    let r = outbound(
        &StoredSession::logged_out(),
        String::from_str("https://vrchat.com/api/1/visits"),
        String::from_str("GET"),
        Vec::new(),
        None,
    );
    assert(seq![identifying_header()] + crate::http::header_views(Seq::empty()) =~= seq![
        identifying_header(),
    ]);
    assert(crate::session::jar_cookie_seq(
        crate::session::SessionState { auth: None, otp: None },
    ) =~= Seq::empty());
    r
}

/// The server time: the body of a 2xx response, trimmed.
pub fn get_vrc_time(outcome: HttpOutcome) -> (r: Result<String, HttpError>)
    ensures
        r is Ok <==> classified(outcome) is Ok,
        r matches Ok(t) ==> t@ == trimmed(classified(outcome)->Ok_0@),
        r matches Err(e) ==> classified(outcome) == Err::<String, HttpError>(e),
{
    match classify_response(outcome) {
        Ok(body) => Ok(trim_text(body.as_str()).to_owned()),
        Err(e) => Err(e),
    }
}

/// The visitor count: the body of a 2xx response, trimmed and read as a
/// decimal `u32`; a body that is no such number gives `SerializationError`
/// with the body.
pub fn get_vrc_users(outcome: HttpOutcome) -> (r: Result<u32, HttpError>)
    ensures
        classified(outcome) matches Ok(body) ==> match parsed_u32(trimmed(body@)) {
            Some(n) => r == Ok::<u32, HttpError>(n),
            None => r == Err::<u32, HttpError>(HttpError::SerializationError(body)),
        },
        classified(outcome) matches Err(e) ==> r == Err::<u32, HttpError>(e),
{
    match classify_response(outcome) {
        Ok(body) => match parse_u32_text(trim_text(body.as_str())) {
            Some(n) => Ok(n),
            None => Err(HttpError::SerializationError(body)),
        },
        Err(e) => Err(e),
    }
}

} // verus!
