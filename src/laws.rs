//! What holds of the store's entries and of the session across calls.

use vstd::prelude::*;
use crate::session::{
    absorbed, extracted, field_text, jar_cookie_seq, session_changes, store_key_of, unwrapped,
    wrapped, wrapper_field_of, CookieKind, SessionState, StoreChange,
};
use crate::text::trimmed;

verus! {

/// An entry written for a cookie reads back as that same cookie, for either
/// kind and every cookie text.
pub proof fn cookie_round_trip(kind: CookieKind, cookie: Seq<char>)
    ensures
        unwrapped(kind, Some(wrapped(kind, cookie))) == Some(cookie),
{
    assert(wrapped(kind, cookie)[0].0 == wrapper_field_of(kind));
}

/// With no entry stored, there is no cookie to read, of either kind.
pub proof fn missing_entry_reads_nothing(kind: CookieKind)
    ensures
        unwrapped(kind, None) == None::<Seq<char>>,
{
}

/// The primary cookie is wrapped in a field named `value` and the
/// second-factor cookie in one named `otp`; the two are never swapped, so an
/// entry of one kind holds nothing when read as the other.
pub proof fn wrapping_is_asymmetric(cookie: Seq<char>)
    ensures
        wrapped(CookieKind::Primary, cookie) == seq![("value"@, Some(cookie))],
        wrapped(CookieKind::Otp, cookie) == seq![("otp"@, Some(cookie))],
        unwrapped(CookieKind::Otp, Some(wrapped(CookieKind::Primary, cookie))).is_none(),
        unwrapped(CookieKind::Primary, Some(wrapped(CookieKind::Otp, cookie))).is_none(),
{
    reveal_strlit("value");
    reveal_strlit("otp");
    assert("value"@ != "otp"@) by {
        assert("value"@.len() != "otp"@.len());
    }
    let p = wrapped(CookieKind::Primary, cookie);
    let o = wrapped(CookieKind::Otp, cookie);
    assert(p.drop_first() =~= Seq::<(Seq<char>, Option<Seq<char>>)>::empty());
    assert(o.drop_first() =~= Seq::<(Seq<char>, Option<Seq<char>>)>::empty());
    assert(field_text(p.drop_first(), "otp"@).is_none());
    assert(field_text(o.drop_first(), "value"@).is_none());
}

/// Logging out of a session that holds a primary cookie changes the store
/// in one way only: the primary entry is removed, and the second-factor
/// entry is left as it is.
pub proof fn logout_removes_primary_entry_only(s: SessionState)
    requires
        s.auth.is_some(),
    ensures
        session_changes(s, SessionState { auth: None, otp: s.otp }) == seq![
            StoreChange::Remove(store_key_of(CookieKind::Primary)),
        ],
{
    assert(session_changes(s, SessionState { auth: None, otp: s.otp }) =~= seq![
        StoreChange::Remove(store_key_of(CookieKind::Primary)),
    ]);
}


/// A primary cookie that a login or verification response carried is the
/// first cookie, trimmed, in the jar of every request that follows, and the
/// second-factor cookies of the session are still in that jar.
pub proof fn response_cookie_reaches_next_jar(s: SessionState, headers: Seq<Seq<char>>)
    requires
        extracted(headers, CookieKind::Primary).len() > 0,
    ensures
        jar_cookie_seq(absorbed(s, headers))[0] == trimmed(extracted(headers, CookieKind::Primary)),
        extracted(headers, CookieKind::Otp).len() == 0 && s.otp.is_some() ==> jar_cookie_seq(
            absorbed(s, headers),
        ).subrange(1, jar_cookie_seq(absorbed(s, headers)).len() as int) == jar_cookie_seq(
            SessionState { auth: None, otp: s.otp },
        ),
{
    let after = absorbed(s, headers);
    if extracted(headers, CookieKind::Otp).len() == 0 && s.otp.is_some() {
        let j = jar_cookie_seq(after);
        assert(j.subrange(1, j.len() as int) =~= jar_cookie_seq(
            SessionState { auth: None, otp: s.otp },
        ));
    }
}

} // verus!
