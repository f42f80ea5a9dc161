//! The persisted session: the two cookie entries of the store, how each is
//! wrapped and unwrapped, the cookies that a request's jar receives, and the
//! cookies that a response leaves behind.

use vstd::prelude::*;
use crate::text::{
    contains_text, has_substring, split_on, split_text, trim_text, trimmed, views,
};

verus! {

/// One of the two cookie entries of the store.
#[derive(Clone, Copy, Debug, PartialEq, Eq, Structural)]
pub enum CookieKind {
    /// The primary session cookie (`auth=...`).
    Primary,
    /// The second-factor cookie (`twoFactorAuth=...`).
    Otp,
}

/// The key under which the store keeps an entry.
pub open spec fn store_key_of(kind: CookieKind) -> Seq<char> {
    match kind {
        CookieKind::Primary => "cookies"@,
        CookieKind::Otp => "otp_cookies"@,
    }
}

/// The name of the one field that wraps an entry's cookie text.
pub open spec fn wrapper_field_of(kind: CookieKind) -> Seq<char> {
    match kind {
        CookieKind::Primary => "value"@,
        CookieKind::Otp => "otp"@,
    }
}

/// The text that marks a response cookie as one of this kind.
pub open spec fn marker_of(kind: CookieKind) -> Seq<char> {
    match kind {
        CookieKind::Primary => "auth="@,
        CookieKind::Otp => "twoFactorAuth="@,
    }
}

impl CookieKind {
    pub fn store_key(&self) -> (r: String)
        ensures
            r@ == store_key_of(*self),
    {
        match self {
            CookieKind::Primary => String::from_str("cookies"),
            CookieKind::Otp => String::from_str("otp_cookies"),
        }
    }

    pub fn wrapper_field(&self) -> (r: String)
        ensures
            r@ == wrapper_field_of(*self),
    {
        match self {
            CookieKind::Primary => String::from_str("value"),
            CookieKind::Otp => String::from_str("otp"),
        }
    }

    pub fn marker(&self) -> (r: &'static str)
        ensures
            r@ == marker_of(*self),
    {
        match self {
            CookieKind::Primary => "auth=",
            CookieKind::Otp => "twoFactorAuth=",
        }
    }
}

pub open spec fn opt_view(o: Option<String>) -> Option<Seq<char>> {
    match o {
        Some(s) => Some(s@),
        None => None,
    }
}

/// A field of a stored entry: its name, and its text where it holds a string.
#[derive(Debug, PartialEq, Eq)]
pub struct EntryField {
    pub name: String,
    pub text: Option<String>,
}

impl View for EntryField {
    type V = (Seq<char>, Option<Seq<char>>);

    open spec fn view(&self) -> (Seq<char>, Option<Seq<char>>) {
        (self.name@, opt_view(self.text))
    }
}

/// A stored entry: a JSON object, field by field.
#[derive(Debug, PartialEq, Eq)]
pub struct StoreEntry {
    pub fields: Vec<EntryField>,
}

pub type EntryModel = Seq<(Seq<char>, Option<Seq<char>>)>;

impl View for StoreEntry {
    type V = EntryModel;

    open spec fn view(&self) -> EntryModel {
        self.fields@.map_values(|f: EntryField| f@)
    }
}

pub open spec fn entry_view(e: Option<&StoreEntry>) -> Option<EntryModel> {
    match e {
        Some(e) => Some(e@),
        None => None,
    }
}

/// The text of the first field named `name`, where that field holds a string.
pub open spec fn field_text(fields: EntryModel, name: Seq<char>) -> Option<Seq<char>>
    decreases fields.len(),
{
    if fields.len() == 0 {
        None
    } else if fields[0].0 == name {
        fields[0].1
    } else {
        field_text(fields.drop_first(), name)
    }
}

/// The entry that holds `cookie` for `kind`: one field, named for the kind.
pub open spec fn wrapped(kind: CookieKind, cookie: Seq<char>) -> EntryModel {
    seq![(wrapper_field_of(kind), Some(cookie))]
}

/// The cookie text that an entry (or its absence) holds for `kind`.
pub open spec fn unwrapped(kind: CookieKind, entry: Option<EntryModel>) -> Option<Seq<char>> {
    match entry {
        Some(e) => field_text(e, wrapper_field_of(kind)),
        None => None,
    }
}

/// A change to the store, as its model.
pub enum StoreChange {
    Put(Seq<char>, EntryModel),
    Remove(Seq<char>),
}

/// A change for the application to make to the store.
#[derive(Debug, PartialEq, Eq)]
pub enum StoreOp {
    /// Write `entry` under `key`, replacing what was there.
    Put { key: String, entry: StoreEntry },
    /// Delete the entry under `key`; an absent key is no error.
    Remove { key: String },
}

impl View for StoreOp {
    type V = StoreChange;

    open spec fn view(&self) -> StoreChange {
        match self {
            StoreOp::Put { key, entry } => StoreChange::Put(key@, entry@),
            StoreOp::Remove { key } => StoreChange::Remove(key@),
        }
    }
}

pub fn save_entry(kind: CookieKind, cookies: String) -> (r: StoreOp)
    ensures
        r@ == StoreChange::Put(store_key_of(kind), wrapped(kind, cookies@)),
{
    let mut fields: Vec<EntryField> = Vec::new();
    fields.push(EntryField { name: kind.wrapper_field(), text: Some(cookies) });
    let entry = StoreEntry { fields };
    assert(entry@ =~= wrapped(kind, cookies@));
    StoreOp::Put { key: kind.store_key(), entry }
}

pub fn load_entry(kind: CookieKind, entry: Option<&StoreEntry>) -> (r: Option<String>)
    ensures
        opt_view(r) == unwrapped(kind, entry_view(entry)),
{
    match entry {
        None => None,
        Some(e) => {
            let name = kind.wrapper_field();
            let n = e.fields.len();
            let mut i: usize = 0;
            assert(e@.subrange(0, n as int) =~= e@);
            while i < n
                invariant
                    n == e@.len(),
                    entry_view(entry) == Some(e@),
                    i <= n,
                    name@ == wrapper_field_of(kind),
                    field_text(e@, name@) == field_text(e@.subrange(i as int, n as int), name@),
                decreases n - i,
            {
                let f = &e.fields[i];
                assert(e@.subrange(i as int, n as int).drop_first() =~= e@.subrange(
                    i + 1,
                    n as int,
                ));
                assert(e@.subrange(i as int, n as int)[0] == f@);
                if f.name == name {
                    assert(field_text(e@.subrange(i as int, n as int), name@) == opt_view(f.text));
                    let r = match &f.text {
                        Some(t) => Some(t.clone()),
                        None => None,
                    };
                    assert(opt_view(r) == opt_view(f.text));
                    return r;
                }
                i = i + 1;
            }
            None
        },
    }
}

pub fn clear_entry(kind: CookieKind) -> (r: StoreOp)
    ensures
        r@ == StoreChange::Remove(store_key_of(kind)),
{
    StoreOp::Remove { key: kind.store_key() }
}

/// The change that stores `cookies` as the primary session cookie.
pub fn save_login_cookies(cookies: String) -> (r: StoreOp)
    ensures
        r@ == StoreChange::Put(store_key_of(CookieKind::Primary), wrapped(CookieKind::Primary, cookies@)),
{
    save_entry(CookieKind::Primary, cookies)
}

/// The primary session cookie that the stored entry holds, if any.
pub fn load_login_cookies(entry: Option<&StoreEntry>) -> (r: Option<String>)
    ensures
        opt_view(r) == unwrapped(CookieKind::Primary, entry_view(entry)),
        entry.is_none() ==> r.is_none(),
{
    load_entry(CookieKind::Primary, entry)
}

/// The change that forgets the primary session cookie.
pub fn clear_login_cookies() -> (r: StoreOp)
    ensures
        r@ == StoreChange::Remove(store_key_of(CookieKind::Primary)),
{
    clear_entry(CookieKind::Primary)
}

/// The change that stores `cookies` as the second-factor cookie.
pub fn save_otp_cookies(cookies: String) -> (r: StoreOp)
    ensures
        r@ == StoreChange::Put(store_key_of(CookieKind::Otp), wrapped(CookieKind::Otp, cookies@)),
{
    save_entry(CookieKind::Otp, cookies)
}

/// The second-factor cookie that the stored entry holds, if any.
pub fn load_otp_cookies(entry: Option<&StoreEntry>) -> (r: Option<String>)
    ensures
        opt_view(r) == unwrapped(CookieKind::Otp, entry_view(entry)),
        entry.is_none() ==> r.is_none(),
{
    load_entry(CookieKind::Otp, entry)
}


/// The response cookies (whole `Set-Cookie` values) that hold `marker`, in order.
pub open spec fn cookies_with(headers: Seq<Seq<char>>, marker: Seq<char>) -> Seq<Seq<char>>
    decreases headers.len(),
{
    if headers.len() == 0 {
        Seq::empty()
    } else {
        let rest = cookies_with(headers.drop_last(), marker);
        if has_substring(headers.last(), marker) {
            rest.push(headers.last())
        } else {
            rest
        }
    }
}

/// `parts` joined with `sep` between each two.
pub open spec fn joined(parts: Seq<Seq<char>>, sep: Seq<char>) -> Seq<char>
    decreases parts.len(),
{
    if parts.len() == 0 {
        Seq::empty()
    } else if parts.len() == 1 {
        parts[0]
    } else {
        joined(parts.drop_last(), sep) + sep + parts.last()
    }
}

/// The cookie text of `kind` that a response's `Set-Cookie` values carry:
/// those that hold the kind's marker, joined with `"; "`.
pub open spec fn extracted(headers: Seq<Seq<char>>, kind: CookieKind) -> Seq<char> {
    joined(cookies_with(headers, marker_of(kind)), "; "@)
}

/// The `Set-Cookie` values that hold the marker of `kind`, joined with `"; "`.
pub fn extract_cookies(headers: &Vec<String>, kind: CookieKind) -> (r: String)
    ensures
        r@ == extracted(views(headers@), kind),
{
    let marker = kind.marker();
    let n = headers.len();
    let mut out = String::new();
    let mut found = false;
    let mut i: usize = 0;
    while i < n
        invariant
            n == headers@.len(),
            i <= n,
            marker@ == marker_of(kind),
            found == (cookies_with(views(headers@).subrange(0, i as int), marker@).len() > 0),
            out@ == joined(cookies_with(views(headers@).subrange(0, i as int), marker@), "; "@),
        decreases n - i,
    {
        let ghost before = views(headers@).subrange(0, i as int);
        let ghost after = views(headers@).subrange(0, i + 1);
        assert(after.drop_last() =~= before);
        assert(after.last() == headers@[i as int]@);
        let h = &headers[i];
        let ghost rest = cookies_with(before, marker@);
        if contains_text(h.as_str(), marker) {
            assert(cookies_with(after, marker@) == rest.push(h@));
            assert(rest.push(h@).drop_last() =~= rest);
            if found {
                out.append("; ");
                out.append(h.as_str());
            } else {
                out = h.clone();
            }
            found = true;
        }
        i = i + 1;
    }
    assert(views(headers@).subrange(0, n as int) =~= views(headers@));
    out
}

/// What the store holds, as its model: each cookie text, where present.
pub struct SessionState {
    pub auth: Option<Seq<char>>,
    pub otp: Option<Seq<char>>,
}

/// The session as the store holds it. No cookie means logged out; a primary
/// cookie alone means that a second factor may still be owed.
#[derive(Debug, PartialEq, Eq)]
pub struct StoredSession {
    pub auth_cookie: Option<String>,
    pub otp_cookie: Option<String>,
}

impl View for StoredSession {
    type V = SessionState;

    open spec fn view(&self) -> SessionState {
        SessionState { auth: opt_view(self.auth_cookie), otp: opt_view(self.otp_cookie) }
    }
}

/// The cookies that a request's jar receives: the primary cookie trimmed,
/// then each `;`-separated piece of the second-factor cookie trimmed.
pub open spec fn jar_cookie_seq(s: SessionState) -> Seq<Seq<char>> {
    let primary = match s.auth {
        Some(c) => seq![trimmed(c)],
        None => Seq::empty(),
    };
    let second = match s.otp {
        Some(c) => split_on(c, ';').map_values(|p: Seq<char>| trimmed(p)),
        None => Seq::empty(),
    };
    primary + second
}

/// `current`, replaced by `found` where a response carried any.
pub open spec fn kept(current: Option<Seq<char>>, found: Seq<char>) -> Option<Seq<char>> {
    if found.len() > 0 {
        Some(found)
    } else {
        current
    }
}

/// The session after a successful login or verification response whose
/// `Set-Cookie` values are `headers`.
pub open spec fn absorbed(s: SessionState, headers: Seq<Seq<char>>) -> SessionState {
    SessionState {
        auth: kept(s.auth, extracted(headers, CookieKind::Primary)),
        otp: kept(s.otp, extracted(headers, CookieKind::Otp)),
    }
}

/// The store changes that take one cookie entry from `before` to `after`.
pub open spec fn entry_changes(kind: CookieKind, before: Option<Seq<char>>, after: Option<Seq<char>>) -> Seq<StoreChange> {
    if before == after {
        Seq::empty()
    } else {
        match after {
            Some(c) => seq![StoreChange::Put(store_key_of(kind), wrapped(kind, c))],
            None => seq![StoreChange::Remove(store_key_of(kind))],
        }
    }
}

/// The store changes that take the session from `before` to `after`.
pub open spec fn session_changes(before: SessionState, after: SessionState) -> Seq<StoreChange> {
    entry_changes(CookieKind::Primary, before.auth, after.auth) + entry_changes(
        CookieKind::Otp,
        before.otp,
        after.otp,
    )
}

pub open spec fn change_views(ops: Seq<StoreOp>) -> Seq<StoreChange> {
    ops.map_values(|o: StoreOp| o@)
}

fn same_text(a: &Option<String>, b: &Option<String>) -> (r: bool)
    ensures
        r == (opt_view(*a) == opt_view(*b)),
{
    match (a, b) {
        (Some(x), Some(y)) => *x == *y,
        (None, None) => true,
        _ => false,
    }
}

fn push_entry_change(
    ops: &mut Vec<StoreOp>,
    kind: CookieKind,
    before: &Option<String>,
    after: &Option<String>,
)
    ensures
        change_views(final(ops)@) == change_views(old(ops)@) + entry_changes(
            kind,
            opt_view(*before),
            opt_view(*after),
        ),
{
    let ghost start = old(ops)@;
    if same_text(before, after) {
        assert(change_views(ops@) =~= change_views(start) + Seq::<StoreChange>::empty());
        return;
    }
    let op = match after {
        Some(c) => save_entry(kind, c.clone()),
        None => clear_entry(kind),
    };
    ops.push(op);
    assert(change_views(ops@) =~= change_views(start) + seq![op@]);
}

impl StoredSession {
    /// The session with no cookie stored.
    pub fn logged_out() -> (r: StoredSession)
        ensures
            r@.auth.is_none(),
            r@.otp.is_none(),
    {
        StoredSession { auth_cookie: None, otp_cookie: None }
    }

    /// The session that the two stored entries hold (`None`: no entry).
    pub fn from_store(cookies: Option<&StoreEntry>, otp_cookies: Option<&StoreEntry>) -> (r: StoredSession)
        ensures
            r@.auth == unwrapped(CookieKind::Primary, entry_view(cookies)),
            r@.otp == unwrapped(CookieKind::Otp, entry_view(otp_cookies)),
    {
        StoredSession {
            auth_cookie: load_login_cookies(cookies),
            otp_cookie: load_otp_cookies(otp_cookies),
        }
    }

    /// The cookies for a request's jar, each to be added on its own.
    pub fn jar_cookies(&self) -> (r: Vec<String>)
        ensures
            views(r@) == jar_cookie_seq(self@),
    {
        let mut r: Vec<String> = Vec::new();
        match &self.auth_cookie {
            Some(c) => {
                r.push(trim_text(c.as_str()).to_owned());
            },
            None => {},
        }
        let ghost primary = views(r@);
        match &self.otp_cookie {
            Some(c) => {
                let pieces = split_text(c.as_str(), ';');
                let n = pieces.len();
                let mut i: usize = 0;
                while i < n
                    invariant
                        n == pieces@.len(),
                        i <= n,
                        views(pieces@) == split_on(c@, ';'),
                        views(r@) == primary + views(pieces@).subrange(0, i as int).map_values(
                            |p: Seq<char>| trimmed(p),
                        ),
                    decreases n - i,
                {
                    let ghost prev = r@;
                    r.push(trim_text(pieces[i].as_str()).to_owned());
                    assert(views(r@) =~= views(prev).push(trimmed(views(pieces@)[i as int])));
                    assert(views(pieces@).subrange(0, i + 1).map_values(|p: Seq<char>| trimmed(p))
                        =~= views(pieces@).subrange(0, i as int).map_values(
                        |p: Seq<char>| trimmed(p),
                    ).push(trimmed(views(pieces@)[i as int])));
                    i = i + 1;
                }
                assert(views(pieces@).subrange(0, n as int) =~= views(pieces@));
            },
            None => {
                assert(views(r@) =~= primary + Seq::<Seq<char>>::empty());
            },
        }
        assert(views(r@) =~= jar_cookie_seq(self@));
        r
    }

    /// Keeps the cookies of each kind that a successful response carried.
    pub fn absorb_cookies(&mut self, set_cookies: &Vec<String>)
        ensures
            final(self)@ == absorbed(old(self)@, views(set_cookies@)),
    {
        let auth = extract_cookies(set_cookies, CookieKind::Primary);
        let otp = extract_cookies(set_cookies, CookieKind::Otp);
        if !auth.as_str().is_empty() {
            self.auth_cookie = Some(auth);
        }
        if !otp.as_str().is_empty() {
            self.otp_cookie = Some(otp);
        }
    }

    /// Forgets the primary cookie; the second-factor cookie stays.
    pub fn clear_auth(&mut self)
        ensures
            final(self)@.auth.is_none(),
            final(self)@.otp == old(self)@.otp,
    {
        self.auth_cookie = None;
    }

    /// The store changes that bring the store from `before` to this session.
    pub fn changes_since(&self, before: &StoredSession) -> (r: Vec<StoreOp>)
        ensures
            change_views(r@) == session_changes(before@, self@),
    {
        let mut ops: Vec<StoreOp> = Vec::new();
        assert(change_views(ops@) =~= Seq::<StoreChange>::empty());
        push_entry_change(&mut ops, CookieKind::Primary, &before.auth_cookie, &self.auth_cookie);
        push_entry_change(&mut ops, CookieKind::Otp, &before.otp_cookie, &self.otp_cookie);
        assert(change_views(ops@) =~= session_changes(before@, self@));
        ops
    }
}

} // verus!
