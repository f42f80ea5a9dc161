use spectre::auth::{
    email_otp_request, get_login, get_logout, get_otp, get_totp, login_request,
    logout_request, totp_request,
};
use spectre::endpoints::{
    decimal_text, get_vrc_avatar_list, get_vrc_favorites, get_vrc_friends, get_vrc_instance,
    get_vrc_notifications, get_vrc_time, get_vrc_user, get_vrc_users, put_vrc_see_notification,
    time_request, visits_request,
};
use spectre::http::{
    check_url, classify_response, vrc_get_request, Header, HttpError, HttpOutcome, HttpResponse,
    Request,
};
use spectre::session::{extract_cookies, CookieKind, StoredSession};
use spectre::text::{parse_u32_text, split_text, trim_text};

fn response(status: u16, set_cookies: &[&str], body: &str) -> HttpOutcome {
    HttpOutcome::Received(HttpResponse {
        status,
        set_cookies: set_cookies.iter().map(|s| s.to_string()).collect(),
        body: Ok(body.to_string()),
    })
}

fn header(name: &str, value: &str) -> Header {
    Header { name: name.to_string(), value: value.to_string() }
}

fn get(url: &str) -> Request {
    Request { url: url.to_string(), method: "GET".to_string(), headers: None, body: None }
}

#[test]
fn invalid_url_is_refused() {
    let s = StoredSession::logged_out();
    for url in ["ftp://example.com", "example.com", "", "HTTP://x", "http:/x", " https://x"] {
        assert_eq!(vrc_get_request(&s, get(url)), Err(HttpError::InvalidUrl));
        assert_eq!(check_url(url), Err(HttpError::InvalidUrl));
    }
    assert!(vrc_get_request(&s, get("http://example.com")).is_ok());
    assert!(vrc_get_request(&s, get("https://")).is_ok());
}

#[test]
fn request_carries_method_headers_body_and_cookies() {
    let s = StoredSession {
        auth_cookie: Some("auth=a".to_string()),
        otp_cookie: Some("twoFactorAuth=t".to_string()),
    };
    let req = Request {
        url: "https://api.vrchat.cloud/api/1/x".to_string(),
        method: "PUT".to_string(),
        headers: Some(vec![header("X-Test", "1")]),
        body: Some("{\"a\":1}".to_string()),
    };
    let out = vrc_get_request(&s, req).unwrap();
    assert_eq!(out.url, "https://api.vrchat.cloud/api/1/x");
    assert_eq!(out.method, "PUT");
    assert_eq!(out.headers, vec![header("User-Agent", "Spectre/2.0"), header("X-Test", "1")]);
    assert_eq!(out.cookies, vec!["auth=a".to_string(), "twoFactorAuth=t".to_string()]);
    assert_eq!(out.body, Some("{\"a\":1}".to_string()));
}

#[test]
fn status_classification() {
    assert_eq!(classify_response(response(200, &[], "body")), Ok("body".to_string()));
    assert_eq!(classify_response(response(204, &[], "")), Ok("".to_string()));
    assert_eq!(
        classify_response(response(404, &[], "missing")),
        Err(HttpError::HttpStatusError { status: 404, body: Some("missing".to_string()) })
    );
    assert_eq!(
        classify_response(response(500, &[], "oops")),
        Err(HttpError::HttpStatusError { status: 500, body: Some("oops".to_string()) })
    );
    assert_eq!(
        classify_response(HttpOutcome::Failed("connection refused".to_string())),
        Err(HttpError::TransportError("connection refused".to_string()))
    );
    assert_eq!(
        classify_response(HttpOutcome::Received(HttpResponse {
            status: 200,
            set_cookies: vec![],
            body: Err("truncated".to_string()),
        })),
        Err(HttpError::TransportError("truncated".to_string()))
    );
    assert_eq!(
        classify_response(HttpOutcome::Received(HttpResponse {
            status: 503,
            set_cookies: vec![],
            body: Err("truncated".to_string()),
        })),
        Err(HttpError::HttpStatusError { status: 503, body: None })
    );
}

#[test]
fn login_then_totp_then_catalog_call() {
    let mut s = StoredSession::logged_out();
    let before = StoredSession::logged_out();
    let body = get_login(
        &mut s,
        response(200, &["auth=abc123; Path=/"], "{\"requiresTwoFactorAuth\":[\"totp\"]}"),
    );
    assert_eq!(body, Ok("{\"requiresTwoFactorAuth\":[\"totp\"]}".to_string()));
    assert_eq!(s.auth_cookie, Some("auth=abc123; Path=/".to_string()));
    assert_eq!(s.otp_cookie, None);
    assert_eq!(
        s.changes_since(&before),
        vec![spectre::session::save_login_cookies("auth=abc123; Path=/".to_string())]
    );

    let req = totp_request(&s, "123456");
    assert_eq!(req.cookies, vec!["auth=abc123; Path=/".to_string()]);
    assert_eq!(get_totp(&mut s, response(200, &["twoFactorAuth=xyz789"], "{\"verified\":true}")), Ok("{\"verified\":true}".to_string()));
    assert_eq!(s.auth_cookie, Some("auth=abc123; Path=/".to_string()));
    assert_eq!(s.otp_cookie, Some("twoFactorAuth=xyz789".to_string()));

    let out = vrc_get_request(&s, get_vrc_friends()).unwrap();
    assert_eq!(
        out.cookies,
        vec!["auth=abc123; Path=/".to_string(), "twoFactorAuth=xyz789".to_string()]
    );
}

#[test]
fn failed_login_leaves_session() {
    let mut s = StoredSession { auth_cookie: Some("auth=old".to_string()), otp_cookie: None };
    let r = get_login(&mut s, response(401, &["auth=new"], "bad credentials"));
    assert_eq!(
        r,
        Err(HttpError::HttpStatusError { status: 401, body: Some("bad credentials".to_string()) })
    );
    assert_eq!(s.auth_cookie, Some("auth=old".to_string()));
    let r = get_otp(&mut s, HttpOutcome::Failed("dns".to_string()));
    assert_eq!(r, Err(HttpError::TransportError("dns".to_string())));
    assert_eq!(s.auth_cookie, Some("auth=old".to_string()));
}

#[test]
fn response_without_cookies_keeps_stored_ones() {
    let mut s = StoredSession {
        auth_cookie: Some("auth=old".to_string()),
        otp_cookie: Some("twoFactorAuth=old".to_string()),
    };
    assert!(get_otp(&mut s, response(200, &["other=1"], "{}")).is_ok());
    assert_eq!(s.auth_cookie, Some("auth=old".to_string()));
    assert_eq!(s.otp_cookie, Some("twoFactorAuth=old".to_string()));
}

#[test]
fn logout_clears_primary_only() {
    let mut s = StoredSession {
        auth_cookie: Some("auth=abc123".to_string()),
        otp_cookie: Some("twoFactorAuth=xyz789".to_string()),
    };
    let failed = get_logout(&mut s, response(500, &[], "down"));
    assert!(failed.is_err());
    assert_eq!(s.auth_cookie, Some("auth=abc123".to_string()));
    assert_eq!(get_logout(&mut s, response(200, &[], "{\"ok\":true}")), Ok("{\"ok\":true}".to_string()));
    assert_eq!(s.auth_cookie, None);
    assert_eq!(s.otp_cookie, Some("twoFactorAuth=xyz789".to_string()));
    let req = logout_request(&s);
    assert_eq!(req.method, "PUT");
    assert_eq!(req.url, "https://api.vrchat.cloud/api/1/logout");
}

#[test]
fn visitor_count_parse_failure() {
    assert_eq!(
        get_vrc_users(response(200, &[], "not-a-number")),
        Err(HttpError::SerializationError("not-a-number".to_string()))
    );
    assert_eq!(get_vrc_users(response(200, &[], " 12345\n")), Ok(12345));
    assert_eq!(get_vrc_users(response(200, &[], "+7")), Ok(7));
    assert_eq!(get_vrc_users(response(200, &[], "4294967295")), Ok(4294967295));
    assert_eq!(
        get_vrc_users(response(200, &[], "4294967296")),
        Err(HttpError::SerializationError("4294967296".to_string()))
    );
    assert_eq!(
        get_vrc_users(response(502, &[], "")),
        Err(HttpError::HttpStatusError { status: 502, body: Some("".to_string()) })
    );
}

#[test]
fn server_time_is_trimmed() {
    assert_eq!(
        get_vrc_time(response(200, &[], "  2024-01-01T00:00:00Z\n")),
        Ok("2024-01-01T00:00:00Z".to_string())
    );
    let r = time_request();
    assert_eq!(r.url, "https://vrchat.com/api/1/time");
    assert_eq!(r.headers, vec![header("User-Agent", "Spectre/2.0")]);
    assert!(r.cookies.is_empty());
    assert_eq!(visits_request().url, "https://vrchat.com/api/1/visits");
}

#[test]
fn login_request_sends_basic_credentials() {
    let s = StoredSession { auth_cookie: None, otp_cookie: Some("twoFactorAuth=t; x=y".to_string()) };
    let r = login_request(&s, "user", "pass");
    assert_eq!(r.url, "https://api.vrchat.cloud/api/1/auth/user");
    assert_eq!(r.method, "GET");
    assert_eq!(
        r.headers,
        vec![header("User-Agent", "Spectre/2.0"), header("Authorization", "Basic dXNlcjpwYXNz")]
    );
    assert_eq!(r.cookies, vec!["twoFactorAuth=t".to_string(), "x=y".to_string()]);
    assert_eq!(r.body, None);
}

#[test]
fn code_requests_send_json_body() {
    let s = StoredSession::logged_out();
    let r = totp_request(&s, "123456");
    assert_eq!(r.url, "https://api.vrchat.cloud/api/1/auth/twofactorauth/totp/verify");
    assert_eq!(r.method, "POST");
    assert_eq!(r.body, Some("{\"code\":\"123456\"}".to_string()));
    assert_eq!(
        r.headers,
        vec![header("User-Agent", "Spectre/2.0"), header("Content-Type", "application/json")]
    );
    let r = email_otp_request(&s, "a\"b");
    assert_eq!(r.url, "https://api.vrchat.cloud/api/1/auth/twofactorauth/emailotp/verify");
    assert_eq!(r.body, Some("{\"code\":\"a\\\"b\"}".to_string()));
}

#[test]
fn catalog_requests() {
    assert_eq!(get_vrc_friends().url, "https://api.vrchat.cloud/api/1/auth/user/friends?offline=false");
    assert_eq!(get_vrc_user("usr_1").url, "https://api.vrchat.cloud/api/1/users/usr_1");
    assert_eq!(get_vrc_instance("wrld_1:2").url, "https://api.vrchat.cloud/api/1/instances/wrld_1:2");
    assert_eq!(
        get_vrc_avatar_list(300).url,
        "https://api.vrchat.cloud/api/1/avatars?user=me&sort=updated&n=100&releaseStatus=all&order=descending&offset=300"
    );
    assert_eq!(get_vrc_favorites().url, "https://api.vrchat.cloud/api/1/favorites?n=100&type=friend");
    assert_eq!(get_vrc_notifications().url, "https://api.vrchat.cloud/api/1/notifications?type=all");
    let see = put_vrc_see_notification("not_9");
    assert_eq!(see.url, "https://api.vrchat.cloud/api/1/auth/user/notifications/not_9/see");
    assert_eq!(see.method, "PUT");
    assert_eq!(get_vrc_user("x").method, "GET");
}

#[test]
fn decimal_rendering() {
    assert_eq!(decimal_text(0), "0");
    assert_eq!(decimal_text(7), "7");
    assert_eq!(decimal_text(65535), "65535");
    assert_eq!(decimal_text(1000), "1000");
}

#[test]
fn cookie_extraction_filters_and_joins() {
    let headers = vec![
        "auth=abc; Path=/".to_string(),
        "twoFactorAuth=xyz; Path=/".to_string(),
        "other=1".to_string(),
        "auth=def".to_string(),
    ];
    assert_eq!(extract_cookies(&headers, CookieKind::Primary), "auth=abc; Path=/; auth=def");
    assert_eq!(extract_cookies(&headers, CookieKind::Otp), "twoFactorAuth=xyz; Path=/");
    assert_eq!(extract_cookies(&vec![], CookieKind::Primary), "");
}

#[test]
fn text_helpers() {
    assert_eq!(trim_text("\u{3000} a b \t\n"), "a b");
    assert_eq!(trim_text("   "), "");
    assert_eq!(split_text("a;b;", ';'), vec!["a".to_string(), "b".to_string(), "".to_string()]);
    assert_eq!(split_text("", ';'), vec!["".to_string()]);
    assert_eq!(parse_u32_text("+"), None);
    assert_eq!(parse_u32_text("-1"), None);
    assert_eq!(parse_u32_text("007"), Some(7));
}
