use spectre::session::{
    clear_login_cookies, load_login_cookies, load_otp_cookies, save_login_cookies,
    save_otp_cookies, CookieKind, EntryField, StoreEntry, StoreOp, StoredSession,
};

fn entry_of(op: StoreOp) -> (String, StoreEntry) {
    match op {
        StoreOp::Put { key, entry } => (key, entry),
        StoreOp::Remove { key } => panic!("expected a write under {}", key),
    }
}

#[test]
fn login_cookie_round_trip() {
    for s in ["auth=authcookie_123; Path=/", "", "  spaced  ", "quote\"and\\slash"] {
        let (_, entry) = entry_of(save_login_cookies(s.to_string()));
        assert_eq!(load_login_cookies(Some(&entry)), Some(s.to_string()));
    }
}

#[test]
fn otp_cookie_round_trip() {
    let s = "twoFactorAuth=xyz789; Path=/; twoFactorAuth=second";
    let (_, entry) = entry_of(save_otp_cookies(s.to_string()));
    assert_eq!(load_otp_cookies(Some(&entry)), Some(s.to_string()));
}

#[test]
fn empty_store_reads_none() {
    assert_eq!(load_login_cookies(None), None);
    assert_eq!(load_otp_cookies(None), None);
}

#[test]
fn wrapping_is_asymmetric() {
    let (key, entry) = entry_of(save_login_cookies("auth=a".to_string()));
    assert_eq!(key, "cookies");
    assert_eq!(
        entry.fields,
        vec![EntryField { name: "value".to_string(), text: Some("auth=a".to_string()) }]
    );
    let (key, entry) = entry_of(save_otp_cookies("twoFactorAuth=t".to_string()));
    assert_eq!(key, "otp_cookies");
    assert_eq!(
        entry.fields,
        vec![EntryField { name: "otp".to_string(), text: Some("twoFactorAuth=t".to_string()) }]
    );
    // An entry of one kind holds nothing when read as the other.
    assert_eq!(load_login_cookies(Some(&entry)), None);
}

#[test]
fn load_skips_other_and_non_string_fields() {
    let entry = StoreEntry {
        fields: vec![
            EntryField { name: "other".to_string(), text: Some("x".to_string()) },
            EntryField { name: "value".to_string(), text: Some("auth=b".to_string()) },
        ],
    };
    assert_eq!(load_login_cookies(Some(&entry)), Some("auth=b".to_string()));
    let entry = StoreEntry {
        fields: vec![EntryField { name: "value".to_string(), text: None }],
    };
    assert_eq!(load_login_cookies(Some(&entry)), None);
}

#[test]
fn clear_removes_primary_key() {
    assert_eq!(clear_login_cookies(), StoreOp::Remove { key: "cookies".to_string() });
}

#[test]
fn session_from_store_entries() {
    let (_, auth) = entry_of(save_login_cookies("auth=a".to_string()));
    let (_, otp) = entry_of(save_otp_cookies("twoFactorAuth=t".to_string()));
    let s = StoredSession::from_store(Some(&auth), Some(&otp));
    assert_eq!(s.auth_cookie, Some("auth=a".to_string()));
    assert_eq!(s.otp_cookie, Some("twoFactorAuth=t".to_string()));
    let s = StoredSession::from_store(None, None);
    assert_eq!(s, StoredSession::logged_out());
}

#[test]
fn jar_trims_and_splits_cookies() {
    let s = StoredSession {
        auth_cookie: Some("  auth=abc123; Path=/ ".to_string()),
        otp_cookie: Some("twoFactorAuth=x ; other=y;".to_string()),
    };
    assert_eq!(
        s.jar_cookies(),
        vec![
            "auth=abc123; Path=/".to_string(),
            "twoFactorAuth=x".to_string(),
            "other=y".to_string(),
            "".to_string(),
        ]
    );
    assert!(StoredSession::logged_out().jar_cookies().is_empty());
}

#[test]
fn changes_since_writes_only_what_changed() {
    let before = StoredSession { auth_cookie: Some("auth=a".to_string()), otp_cookie: None };
    let after = StoredSession {
        auth_cookie: Some("auth=a".to_string()),
        otp_cookie: Some("twoFactorAuth=t".to_string()),
    };
    assert_eq!(after.changes_since(&before), vec![save_otp_cookies("twoFactorAuth=t".to_string())]);
    let cleared = StoredSession { auth_cookie: None, otp_cookie: Some("twoFactorAuth=t".to_string()) };
    assert_eq!(cleared.changes_since(&after), vec![clear_login_cookies()]);
    assert!(after.changes_since(&after).is_empty());
}

#[test]
fn cookie_kind_names() {
    assert_eq!(CookieKind::Primary.store_key(), "cookies");
    assert_eq!(CookieKind::Otp.store_key(), "otp_cookies");
    assert_eq!(CookieKind::Primary.marker(), "auth=");
    assert_eq!(CookieKind::Otp.marker(), "twoFactorAuth=");
}
