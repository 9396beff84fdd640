//! The session: an in-memory cookie store, the login flag, and the
//! per-service access registry.
//!
//! The caller performs the network traffic; before each request it asks the
//! session for the `Cookie` header that fits the request's host, and after
//! each response it hands every `Set-Cookie` header back, scoped to the
//! responding host.  Both directions are verified against the store's view.

use vstd::prelude::*;

use crate::strutil::{find_char, lemma_spec_find_char_some, spec_find_char, spec_trim, substring,
    str_eq, trim};

verus! {

/// One stored cookie, scoped to the host that set it.
#[derive(Debug, Clone)]
pub struct CookieEntry {
    /// The host the cookie was set by, and is sent back to.
    pub host: String,
    /// The cookie's name.
    pub name: String,
    /// The cookie's value.
    pub value: String,
}

/// The view of one stored cookie.
pub struct CookieView {
    /// The view of the scoping host.
    pub host: Seq<char>,
    /// The view of the name.
    pub name: Seq<char>,
    /// The view of the value.
    pub value: Seq<char>,
}

impl View for CookieEntry {
    type V = CookieView;

    open spec fn view(&self) -> CookieView {
        CookieView { host: self.host@, name: self.name@, value: self.value@ }
    }
}

/// The in-memory cookie store: a sequence of host-scoped cookies, oldest
/// first, with one entry per host and name.
#[derive(Debug, Clone)]
pub struct CookieStore {
    entries: Vec<CookieEntry>,
}

impl View for CookieStore {
    type V = Seq<CookieView>;

    closed spec fn view(&self) -> Seq<CookieView> {
        self.entries@.map_values(|e: CookieEntry| e@)
    }
}

/// `s` with the cookie `c` merged in: the first entry with `c`'s host and
/// name is replaced, or `c` is appended when there is none.
pub open spec fn spec_upsert(s: Seq<CookieView>, c: CookieView) -> Seq<CookieView>
    decreases s.len(),
{
    if s.len() == 0 {
        seq![c]
    } else if s.first().host == c.host && s.first().name == c.name {
        seq![c] + s.drop_first()
    } else {
        seq![s.first()] + spec_upsert(s.drop_first(), c)
    }
}

proof fn lemma_upsert_update(s: Seq<CookieView>, c: CookieView, i: int)
    requires
        0 <= i < s.len(),
        s[i].host == c.host && s[i].name == c.name,
        forall|k: int| 0 <= k < i ==> !(s[k].host == c.host && s[k].name == c.name),
    ensures
        spec_upsert(s, c) == s.update(i, c),
    decreases s.len(),
{
    if i == 0 {
        assert(spec_upsert(s, c) =~= s.update(0, c));
    } else {
        assert(forall|k: int| 0 <= k < i - 1 ==> s.drop_first()[k] == s[k + 1]);
        lemma_upsert_update(s.drop_first(), c, i - 1);
        assert(spec_upsert(s, c) =~= s.update(i, c));
    }
}

proof fn lemma_upsert_append(s: Seq<CookieView>, c: CookieView)
    requires
        forall|k: int| 0 <= k < s.len() ==> !(s[k].host == c.host && s[k].name == c.name),
    ensures
        spec_upsert(s, c) == s.push(c),
    decreases s.len(),
{
    if s.len() == 0 {
        assert(spec_upsert(s, c) =~= s.push(c));
    } else {
        assert(forall|k: int| 0 <= k < s.len() - 1 ==> s.drop_first()[k] == s[k + 1]);
        lemma_upsert_append(s.drop_first(), c);
        assert(spec_upsert(s, c) =~= s.push(c));
    }
}

/// The `Cookie` header value that the entries scoped to `host` make up:
/// `name=value` pairs in storage order, joined by `; `; empty when no entry
/// is scoped to `host`.
pub open spec fn spec_cookie_header(s: Seq<CookieView>, host: Seq<char>) -> Seq<char>
    decreases s.len(),
{
    if s.len() == 0 {
        Seq::empty()
    } else {
        let rest = spec_cookie_header(s.drop_last(), host);
        let e = s.last();
        if e.host == host {
            if rest.len() == 0 {
                e.name + "="@ + e.value
            } else {
                rest + "; "@ + e.name + "="@ + e.value
            }
        } else {
            rest
        }
    }
}

/// The name and value of a `Set-Cookie` header: the text before the first
/// `;`, cut at its first `=`, both sides trimmed.  Headers without `=`, or
/// with an empty name, are ignored.
pub open spec fn spec_parse_set_cookie(s: Seq<char>) -> Option<(Seq<char>, Seq<char>)> {
    let pair = match spec_find_char(s, ';', 0) {
        None => s,
        Some(j) => s.subrange(0, j),
    };
    match spec_find_char(pair, '=', 0) {
        None => None,
        Some(e) => {
            let name = spec_trim(pair.subrange(0, e));
            let value = spec_trim(pair.subrange(e + 1, pair.len() as int));
            if name.len() == 0 {
                None
            } else {
                Some((name, value))
            }
        },
    }
}

/// Parse a `Set-Cookie` header value, exactly as [`spec_parse_set_cookie`]
/// states.
pub fn parse_set_cookie(s: &str) -> (r: Option<(String, String)>)
    ensures
        r is Some <==> spec_parse_set_cookie(s@) is Some,
        r matches Some(p) ==> Some((p.0@, p.1@)) == spec_parse_set_cookie(s@),
{
    let n = s.unicode_len();
    let pair_end = match find_char(s, ';', 0) {
        None => n,
        Some(j) => {
            proof {
                lemma_spec_find_char_some(s@, ';', 0, j as int);
            }
            j
        },
    };
    let pair = substring(s, 0, pair_end);
    proof {
        if spec_find_char(s@, ';', 0) is None {
            assert(s@.subrange(0, n as int) =~= s@);
        }
    }
    let pair_str = pair.as_str();
    let e = match find_char(pair_str, '=', 0) {
        None => {
            return None;
        },
        Some(v) => v,
    };
    proof {
        lemma_spec_find_char_some(pair_str@, '=', 0, e as int);
    }
    let head = substring(pair_str, 0, e);
    let name = trim(head.as_str());
    let tail = substring(pair_str, e + 1, pair.as_str().unicode_len());
    let value = trim(tail.as_str());
    if name.as_str().unicode_len() == 0 {
        return None;
    }
    Some((name, value))
}

impl CookieStore {
    /// An empty store.
    pub fn new() -> (r: Self)
        ensures
            r@ == Seq::<CookieView>::empty(),
    {
        let r = CookieStore { entries: Vec::new() };
        assert(r@ =~= Seq::<CookieView>::empty());
        r
    }

    /// Merge one cookie into the store, replacing the entry with the same
    /// host and name if one exists.
    pub fn upsert(&mut self, host: String, name: String, value: String)
        ensures
            final(self)@ == spec_upsert(
                old(self)@,
                CookieView { host: host@, name: name@, value: value@ },
            ),
    {
        let ghost c = CookieView { host: host@, name: name@, value: value@ };
        let n = self.entries.len();
        let mut i: usize = 0;
        while i < n
            invariant
                n == self.entries@.len(),
                i <= n,
                self@ == old(self)@,
                c == (CookieView { host: host@, name: name@, value: value@ }),
                forall|k: int|
                    0 <= k < i ==> !(self@[k].host == c.host && self@[k].name == c.name),
            decreases n - i,
        {
            let same_host = str_eq(self.entries[i].host.as_str(), host.as_str());
            let same_name = str_eq(self.entries[i].name.as_str(), name.as_str());
            if same_host && same_name {
                let entry = CookieEntry { host, name, value };
                let ghost old_view = self@;
                self.entries.set(i, entry);
                proof {
                    assert(self@ =~= old_view.update(i as int, c));
                    lemma_upsert_update(old_view, c, i as int);
                }
                return ;
            }
            i += 1;
        }
        let entry = CookieEntry { host, name, value };
        let ghost old_view = self@;
        self.entries.push(entry);
        proof {
            assert(self@ =~= old_view.push(c));
            lemma_upsert_append(old_view, c);
        }
    }

    /// The `Cookie` header value for `host`, or nothing when no stored
    /// cookie is scoped to it.
    pub fn header_for(&self, host: &str) -> (r: Option<String>)
        ensures
            r matches Some(h) ==> h@ == spec_cookie_header(self@, host@) && h@.len() > 0,
            r is None ==> spec_cookie_header(self@, host@).len() == 0,
    {
        let n = self.entries.len();
        let mut acc = String::new();
        let mut i: usize = 0;
        assert(self@.take(0) =~= Seq::<CookieView>::empty());
        while i < n
            invariant
                n == self.entries@.len(),
                i <= n,
                acc@ == spec_cookie_header(self@.take(i as int), host@),
            decreases n - i,
        {
            assert(self@.take(i + 1 as int).drop_last() =~= self@.take(i as int));
            assert(self@.take(i + 1 as int).last() == self@[i as int]);
            if str_eq(self.entries[i].host.as_str(), host) {
                if acc.as_str().unicode_len() > 0 {
                    acc.append("; ");
                }
                acc.append(self.entries[i].name.as_str());
                acc.append("=");
                acc.append(self.entries[i].value.as_str());
            }
            i += 1;
        }
        assert(self@.take(n as int) =~= self@);
        if acc.as_str().unicode_len() == 0 {
            None
        } else {
            Some(acc)
        }
    }
}

/// The credential of the course-and-grade service: the value sent as the
/// bearer of the `Authorization` header.
#[derive(Debug, Clone, PartialEq, Eq)]
pub struct MyCQUAccessInfo {
    /// The bearer token.
    pub auth_header: String,
}

impl View for MyCQUAccessInfo {
    type V = Seq<char>;

    open spec fn view(&self) -> Seq<char> {
        self.auth_header@
    }
}

/// The credential of the campus-card service: authorization to try, plus a
/// lazily fetched secondary token used as a cookie value.
#[derive(Debug, Clone, PartialEq, Eq)]
pub struct CardAccessInfo {
    /// The secondary token; absent until first fetched, then cached.
    pub synjones_auth: Option<String>,
}

impl View for CardAccessInfo {
    type V = Option<Seq<char>>;

    open spec fn view(&self) -> Option<Seq<char>> {
        match self.synjones_auth {
            None => None,
            Some(ref s) => Some(s@),
        }
    }
}

/// The view of the access registry.
pub struct AccessInfosView {
    /// The course-and-grade credential, if granted.
    pub mycqu_access_info: Option<Seq<char>>,
    /// The campus-card credential, if granted.
    pub card_access_info: Option<Option<Seq<char>>>,
}

/// The access registry: at most one credential per known downstream
/// service.  An absent entry means the service has not been granted yet.
#[derive(Debug, Clone, PartialEq, Eq)]
pub struct AccessInfos {
    /// The course-and-grade credential, if granted.
    pub mycqu_access_info: Option<MyCQUAccessInfo>,
    /// The campus-card credential, if granted.
    pub card_access_info: Option<CardAccessInfo>,
}

impl View for AccessInfos {
    type V = AccessInfosView;

    open spec fn view(&self) -> AccessInfosView {
        AccessInfosView {
            mycqu_access_info: match self.mycqu_access_info {
                None => None,
                Some(ref a) => Some(a@),
            },
            card_access_info: match self.card_access_info {
                None => None,
                Some(ref c) => Some(c@),
            },
        }
    }
}

/// The registry with no credential granted.
pub open spec fn spec_empty_access_infos() -> AccessInfosView {
    AccessInfosView { mycqu_access_info: None, card_access_info: None }
}

impl Default for AccessInfos {
    /// The registry starts with no credential.
    fn default() -> (r: Self)
        ensures
            r@ == spec_empty_access_infos(),
    {
        AccessInfos { mycqu_access_info: None, card_access_info: None }
    }
}

/// The view of a session.
pub struct SessionView {
    /// The views of the stored cookies.
    pub cookies: Seq<CookieView>,
    /// Whether a single-sign-on login has completed.
    pub is_login: bool,
    /// The access registry's view.
    pub access_infos: AccessInfosView,
}

/// A session: the cookie store, the login flag, and the access registry.
/// Flows mutate it only on their successful completions.
#[derive(Debug, Clone)]
pub struct Session {
    cookies: CookieStore,
    is_login: bool,
    access_infos: AccessInfos,
}

impl View for Session {
    type V = SessionView;

    closed spec fn view(&self) -> SessionView {
        SessionView {
            cookies: self.cookies@,
            is_login: self.is_login,
            access_infos: self.access_infos@,
        }
    }
}

/// `s` after a successful course-and-grade grant stored `token`: only that
/// registry entry changes.
pub open spec fn spec_apply_mycqu_grant(s: SessionView, token: Seq<char>) -> SessionView {
    SessionView {
        access_infos: AccessInfosView { mycqu_access_info: Some(token), ..s.access_infos },
        ..s
    }
}

/// `s` after a successful campus-card grant: only that registry entry
/// changes, and it holds no secondary token yet.
pub open spec fn spec_apply_card_grant(s: SessionView) -> SessionView {
    SessionView {
        access_infos: AccessInfosView { card_access_info: Some(None), ..s.access_infos },
        ..s
    }
}

/// `s` after the campus-card secondary token `auth` was cached.
pub open spec fn spec_apply_card_synjones(s: SessionView, auth: Seq<char>) -> SessionView {
    SessionView {
        access_infos: AccessInfosView { card_access_info: Some(Some(auth)), ..s.access_infos },
        ..s
    }
}

/// The view of a freshly created session: no cookies, not logged in, no
/// credential granted.
pub open spec fn spec_fresh_session() -> SessionView {
    SessionView {
        cookies: Seq::empty(),
        is_login: false,
        access_infos: spec_empty_access_infos(),
    }
}

impl Default for Session {
    /// The default session is a fresh one.
    fn default() -> (r: Self)
        ensures
            r@ == spec_fresh_session(),
    {
        Session::new()
    }
}

impl Session {
    /// A fresh session.
    pub fn new() -> (r: Self)
        ensures
            r@ == spec_fresh_session(),
    {
        let r = Session {
            cookies: CookieStore::new(),
            is_login: false,
            access_infos: AccessInfos::default(),
        };
        assert(r@ =~= spec_fresh_session()) by {
            assert(r@.cookies =~= spec_fresh_session().cookies);
        }
        r
    }

    /// Whether a single-sign-on login has completed on this session.
    pub fn is_login(&self) -> (r: bool)
        ensures
            r == self@.is_login,
    {
        self.is_login
    }

    /// The access registry.
    pub fn access_infos(&self) -> (r: &AccessInfos)
        ensures
            r@ == self@.access_infos,
    {
        &self.access_infos
    }

    /// Replace the access registry wholesale.
    pub fn set_access_infos(self, infos: AccessInfos) -> (r: Self)
        ensures
            r@ == (SessionView { access_infos: infos@, ..self@ }),
    {
        Session { access_infos: infos, ..self }
    }

    /// Record whether the session is logged in.
    pub fn set_login(&mut self, v: bool)
        ensures
            final(self)@ == (SessionView { is_login: v, ..old(self)@ }),
    {
        self.is_login = v;
    }

    /// Store the course-and-grade credential.
    pub fn set_mycqu_access(&mut self, auth_header: String)
        ensures
            final(self)@ == spec_apply_mycqu_grant(old(self)@, auth_header@),
    {
        self.access_infos.mycqu_access_info = Some(MyCQUAccessInfo { auth_header });
    }

    /// Store the campus-card grant, with no secondary token yet.
    pub fn set_card_access(&mut self)
        ensures
            final(self)@ == spec_apply_card_grant(old(self)@),
    {
        self.access_infos.card_access_info = Some(CardAccessInfo { synjones_auth: None });
    }

    /// Cache the campus-card secondary token.  Demands that the card grant
    /// is already present.
    pub fn set_card_synjones(&mut self, auth: String)
        requires
            old(self)@.access_infos.card_access_info is Some,
        ensures
            final(self)@ == spec_apply_card_synjones(old(self)@, auth@),
    {
        self.access_infos.card_access_info = Some(CardAccessInfo { synjones_auth: Some(auth) });
    }

    /// The `Cookie` header value for `host`, or nothing when no stored
    /// cookie is scoped to it.
    pub fn cookie_header_for(&self, host: &str) -> (r: Option<String>)
        ensures
            r matches Some(h) ==> h@ == spec_cookie_header(self@.cookies, host@) && h@.len() > 0,
            r is None ==> spec_cookie_header(self@.cookies, host@).len() == 0,
    {
        self.cookies.header_for(host)
    }

    /// Merge one `Set-Cookie` header from a response into the store, scoped
    /// to `host`, the host the response came from.  Headers that do not
    /// parse leave the store unchanged.
    pub fn absorb_set_cookie(&mut self, host: &str, set_cookie: &str)
        ensures
            final(self)@ == (SessionView {
                cookies: match spec_parse_set_cookie(set_cookie@) {
                    None => old(self)@.cookies,
                    Some(p) => spec_upsert(
                        old(self)@.cookies,
                        CookieView { host: host@, name: p.0, value: p.1 },
                    ),
                },
                ..old(self)@
            }),
    {
        match parse_set_cookie(set_cookie) {
            None => (),
            Some((name, value)) => {
                self.cookies.upsert(host.to_owned(), name, value);
            },
        }
    }
}

/// Fail-fast: a freshly created session is not logged in and holds no
/// credential for any service.  Every grant precheck and every guarded
/// data call turns on exactly these fields — `access_mycqu_precheck` and
/// `access_card_precheck` report `NotLogin`, and `mycqu_auth_header`,
/// `card_guard` and `card_fee_plan` report `NotAccess` — each before any
/// network step is taken.
pub proof fn lemma_fresh_session_fail_fast(s: SessionView)
    requires
        s == spec_fresh_session(),
    ensures
        !s.is_login,
        s.access_infos.mycqu_access_info is None,
        s.access_infos.card_access_info is None,
{
}

/// A successful grant populates the registry for exactly its own service:
/// the entry granted becomes present, the other entry and the login flag
/// are untouched.  On a session that held no other grant, no other grant
/// appears.
pub proof fn lemma_grant_exactly_one_service(s: SessionView, token: Seq<char>)
    ensures
        spec_apply_mycqu_grant(s, token).access_infos.mycqu_access_info == Some(token),
        spec_apply_mycqu_grant(s, token).access_infos.card_access_info
            == s.access_infos.card_access_info,
        spec_apply_mycqu_grant(s, token).is_login == s.is_login,
        spec_apply_card_grant(s).access_infos.card_access_info == Some(None::<Seq<char>>),
        spec_apply_card_grant(s).access_infos.mycqu_access_info
            == s.access_infos.mycqu_access_info,
        spec_apply_card_grant(s).is_login == s.is_login,
{
}

/// The campus-card secondary token is fetched at most once per session:
/// once `spec_apply_card_synjones` has cached it, the card entry holds it,
/// so `card_fee_plan` — whose contract turns on exactly this entry —
/// returns the cached token and never again demands the fetch.
pub proof fn lemma_card_token_cached(s: SessionView, auth: Seq<char>)
    ensures
        spec_apply_card_synjones(s, auth).access_infos.card_access_info == Some(Some(auth)),
        spec_apply_card_synjones(s, auth).access_infos.mycqu_access_info
            == s.access_infos.mycqu_access_info,
        spec_apply_card_synjones(s, auth).is_login == s.is_login,
{
}

} // verus!
