//! The authentication flow: login with basic credentials, second-factor
//! verification by TOTP or e-mailed code, and logout. Each step is a request
//! to send and, once its outcome is known, a change of the stored session.
//! Nothing here judges a session valid or expired: the remote API does.

use vstd::prelude::*;
use vstd::utf8::encode_utf8;
use crate::encoding::{base64_of, base64_standard, json_string, json_string_of};
use crate::http::{
    classified, identifying_header, is_success, outbound, sends, set_cookies_of, Header,
    HttpError, HttpOutcome, OutboundRequest,
};
use crate::session::{absorbed, jar_cookie_seq, StoredSession};

verus! {

/// What the user endpoint reports about a login, as the interface shows it.
#[derive(Debug, PartialEq, Eq)]
pub struct UserResponse {
    pub username: Option<String>,
    pub requires_two_factor_auth: Option<Vec<String>>,
    pub message: Option<String>,
    pub response_body: Option<String>,
}

pub open spec fn login_url() -> Seq<char> {
    "https://api.vrchat.cloud/api/1/auth/user"@
}

pub open spec fn totp_url() -> Seq<char> {
    "https://api.vrchat.cloud/api/1/auth/twofactorauth/totp/verify"@
}

pub open spec fn email_otp_url() -> Seq<char> {
    "https://api.vrchat.cloud/api/1/auth/twofactorauth/emailotp/verify"@
}

pub open spec fn logout_url() -> Seq<char> {
    "https://api.vrchat.cloud/api/1/logout"@
}

/// The `Authorization` value for basic authentication as `username`.
pub open spec fn basic_credentials(username: Seq<char>, password: Seq<char>) -> Seq<char> {
    "Basic "@ + base64_of(encode_utf8(username + ":"@ + password))
}

/// The JSON body `{"code":...}` that carries a verification code.
pub open spec fn code_body(code: Seq<char>) -> Seq<char> {
    "{\"code\":"@ + json_string_of(code) + "}"@
}

pub open spec fn json_header() -> (Seq<char>, Seq<char>) {
    ("Content-Type"@, "application/json"@)
}

/// A 2xx response came back.
pub open spec fn accepted(o: HttpOutcome) -> bool {
    o matches HttpOutcome::Received(r) && is_success(r.status)
}

/// The login request: a GET of the user endpoint with basic credentials,
/// carrying whatever cookies the session holds, so that a login whose second
/// factor is pending can be resumed.
pub fn login_request(session: &StoredSession, username: &str, password: &str) -> (r: OutboundRequest)
    ensures
        sends(
            r,
            login_url(),
            "GET"@,
            seq![identifying_header(), ("Authorization"@, basic_credentials(username@, password@))],
            jar_cookie_seq(session@),
            None,
        ),
{
    let mut credentials = String::from_str(username);
    credentials.append(":");
    credentials.append(password);
    let mut value = String::from_str("Basic ");
    value.append(base64_standard(credentials.as_str()).as_str());
    let mut extra: Vec<Header> = Vec::new();
    extra.push(Header { name: String::from_str("Authorization"), value });
    let r = outbound(
        session,
        String::from_str("https://api.vrchat.cloud/api/1/auth/user"),
        String::from_str("GET"),
        extra,
        None,
    );
    assert(seq![identifying_header()] + crate::http::header_views(extra@) =~= seq![
        identifying_header(),
        ("Authorization"@, basic_credentials(username@, password@)),
    ]);
    r
}

fn code_request(session: &StoredSession, url: &str, code: &str) -> (r: OutboundRequest)
    ensures
        sends(
            r,
            url@,
            "POST"@,
            seq![identifying_header(), json_header()],
            jar_cookie_seq(session@),
            Some(code_body(code@)),
        ),
{
    let mut body = String::from_str("{\"code\":");
    body.append(json_string(code).as_str());
    body.append("}");
    let mut extra: Vec<Header> = Vec::new();
    extra.push(
        Header {
            name: String::from_str("Content-Type"),
            value: String::from_str("application/json"),
        },
    );
    let r = outbound(session, String::from_str(url), String::from_str("POST"), extra, Some(body));
    assert(seq![identifying_header()] + crate::http::header_views(extra@) =~= seq![
        identifying_header(),
        json_header(),
    ]);
    r
}

/// The request that verifies a TOTP code: a POST of `{"code":...}`.
pub fn totp_request(session: &StoredSession, code: &str) -> (r: OutboundRequest)
    ensures
        sends(
            r,
            totp_url(),
            "POST"@,
            seq![identifying_header(), json_header()],
            jar_cookie_seq(session@),
            Some(code_body(code@)),
        ),
{
    code_request(session, "https://api.vrchat.cloud/api/1/auth/twofactorauth/totp/verify", code)
}

/// The request that verifies an e-mailed code: a POST of `{"code":...}`.
pub fn email_otp_request(session: &StoredSession, code: &str) -> (r: OutboundRequest)
    ensures
        sends(
            r,
            email_otp_url(),
            "POST"@,
            seq![identifying_header(), json_header()],
            jar_cookie_seq(session@),
            Some(code_body(code@)),
        ),
{
    code_request(
        session,
        "https://api.vrchat.cloud/api/1/auth/twofactorauth/emailotp/verify",
        code,
    )
}

/// The logout request: an authenticated PUT.
pub fn logout_request(session: &StoredSession) -> (r: OutboundRequest)
    ensures
        sends(
            r,
            logout_url(),
            "PUT"@,
            seq![identifying_header()],
            jar_cookie_seq(session@),
            None,
        ),
{
    let r = outbound(
        session,
        String::from_str("https://api.vrchat.cloud/api/1/logout"),
        String::from_str("PUT"),
        Vec::new(),
        None,
    );
    assert(seq![identifying_header()] + crate::http::header_views(Seq::<Header>::empty())
        =~= seq![identifying_header()]);
    r
}

fn absorb_auth_response(session: &mut StoredSession, outcome: HttpOutcome) -> (r: Result<
    String,
    HttpError,
>)
    ensures
        r == classified(outcome),
        r is Ok ==> final(session)@ == absorbed(old(session)@, set_cookies_of(outcome)),
        r is Err ==> final(session)@ == old(session)@,
{
    match outcome {
        HttpOutcome::Failed(m) => Err(HttpError::TransportError(m)),
        HttpOutcome::Received(r) => {
            if 200 <= r.status && r.status < 300 {
                match r.body {
                    Ok(t) => {
                        session.absorb_cookies(&r.set_cookies);
                        Ok(t)
                    },
                    Err(m) => Err(HttpError::TransportError(m)),
                }
            } else {
                let body = match r.body {
                    Ok(t) => Some(t),
                    Err(_) => None,
                };
                Err(HttpError::HttpStatusError { status: r.status, body })
            }
        },
    }
}

/// Completes a login: the response body on success, with any `auth=` and
/// `twoFactorAuth=` cookies of the response kept; on failure the session
/// stays as it was.
pub fn get_login(session: &mut StoredSession, outcome: HttpOutcome) -> (r: Result<String, HttpError>)
    ensures
        r == classified(outcome),
        r is Ok ==> final(session)@ == absorbed(old(session)@, set_cookies_of(outcome)),
        r is Err ==> final(session)@ == old(session)@,
{
    absorb_auth_response(session, outcome)
}

/// Completes a TOTP verification, as `get_login` completes a login.
pub fn get_totp(session: &mut StoredSession, outcome: HttpOutcome) -> (r: Result<String, HttpError>)
    ensures
        r == classified(outcome),
        r is Ok ==> final(session)@ == absorbed(old(session)@, set_cookies_of(outcome)),
        r is Err ==> final(session)@ == old(session)@,
{
    absorb_auth_response(session, outcome)
}

/// Completes an e-mailed code verification, as `get_login` completes a login.
pub fn get_otp(session: &mut StoredSession, outcome: HttpOutcome) -> (r: Result<String, HttpError>)
    ensures
        r == classified(outcome),
        r is Ok ==> final(session)@ == absorbed(old(session)@, set_cookies_of(outcome)),
        r is Err ==> final(session)@ == old(session)@,
{
    absorb_auth_response(session, outcome)
}

/// Completes a logout. Once a 2xx response has come, the primary cookie is
/// forgotten (even where its body cannot be read); the second-factor cookie
/// stays. Otherwise the session stays as it was.
pub fn get_logout(session: &mut StoredSession, outcome: HttpOutcome) -> (r: Result<String, HttpError>)
    ensures
        r == classified(outcome),
        accepted(outcome) ==> final(session)@.auth.is_none() && final(session)@.otp == old(
            session,
        )@.otp,
        !accepted(outcome) ==> final(session)@ == old(session)@,
{
    let ok = match &outcome {
        HttpOutcome::Received(r) => 200 <= r.status && r.status < 300,
        HttpOutcome::Failed(_) => false,
    };
    if ok {
        session.clear_auth();
    }
    crate::http::classify_response(outcome)
}

} // verus!
