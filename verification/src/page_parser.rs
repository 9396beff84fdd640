//! The page scraper: every small value this client pulls out of an HTML
//! fragment or a redirect URL.
//!
//! The remote pages are not parsed as documents.  Each value is an opaque
//! string cut out by substring search, and each scrape is specified exactly
//! by the search it performs: where the scrape rule finds its markers, what
//! it cuts out, and when it fails.

use vstd::prelude::*;

use crate::strutil::{
    find_char, find_from, match_at, match_at_exec, rfind_char, spec_find, spec_find_char,
    spec_rfind_char, substring,
};
use crate::strutil::{
    lemma_spec_find_char_some, lemma_spec_find_some, lemma_spec_rfind_char_some,
};

verus! {

/// The two values the login page carries: the base64 salt the password is
/// encrypted against, and the opaque flow key the login form must echo.
#[derive(Debug, Clone, PartialEq, Eq)]
pub struct SSOLoginPageData {
    /// The base64 salt, from the element marked `login-croypto`.
    pub login_croypto: String,
    /// The flow key, from the element marked `login-page-flowkey`.
    pub login_page_flowkey: String,
}

/// The text of the first element whose opening tag carries `marker`: the
/// characters between the `>` that closes the tag and the next `<`.
pub open spec fn spec_elem_text(html: Seq<char>, marker: Seq<char>) -> Option<Seq<char>> {
    match spec_find(html, marker, 0) {
        None => None,
        Some(i) => match spec_find_char(html, '>', i + marker.len()) {
            None => None,
            Some(j) => match spec_find_char(html, '<', j + 1) {
                None => None,
                Some(k) => Some(html.subrange(j + 1, k)),
            },
        },
    }
}

/// Cut out the text of the first element whose opening tag carries
/// `marker`, exactly as [`spec_elem_text`] states.
pub fn elem_text(html: &str, marker: &str) -> (r: Option<String>)
    ensures
        r is Some <==> spec_elem_text(html@, marker@) is Some,
        r matches Some(t) ==> Some(t@) == spec_elem_text(html@, marker@),
{
    let n = html.unicode_len();
    let i = match find_from(html, marker, 0) {
        None => {
            return None;
        },
        Some(v) => v,
    };
    proof {
        lemma_spec_find_some(html@, marker@, 0, i as int);
    }
    let after = i + marker.unicode_len();
    let j = match find_char(html, '>', after) {
        None => {
            return None;
        },
        Some(v) => v,
    };
    proof {
        lemma_spec_find_char_some(html@, '>', after as int, j as int);
    }
    let k = match find_char(html, '<', j + 1) {
        None => {
            return None;
        },
        Some(v) => v,
    };
    proof {
        lemma_spec_find_char_some(html@, '<', j + 1 as int, k as int);
    }
    Some(substring(html, j + 1, k))
}

/// The marker of the login page's salt element.
pub open spec fn spec_croypto_marker() -> Seq<char> {
    "id=\"login-croypto\""@
}

/// The marker of the login page's flow-key element.
pub open spec fn spec_flowkey_marker() -> Seq<char> {
    "id=\"login-page-flowkey\""@
}

/// Scrape the login page for its salt and flow key.  Succeeds exactly when
/// both elements are present, and then returns their texts.
pub fn sso_login_parser(login_html: &str) -> (r: Option<SSOLoginPageData>)
    ensures
        r is Some <==> (spec_elem_text(login_html@, spec_croypto_marker()) is Some
            && spec_elem_text(login_html@, spec_flowkey_marker()) is Some),
        r matches Some(d) ==> {
            &&& Some(d.login_croypto@) == spec_elem_text(login_html@, spec_croypto_marker())
            &&& Some(d.login_page_flowkey@) == spec_elem_text(
                login_html@,
                spec_flowkey_marker(),
            )
        },
{
    let croypto = match elem_text(login_html, "id=\"login-croypto\"") {
        None => {
            return None;
        },
        Some(v) => v,
    };
    let flowkey = match elem_text(login_html, "id=\"login-page-flowkey\"") {
        None => {
            return None;
        },
        Some(v) => v,
    };
    Some(SSOLoginPageData { login_croypto: croypto, login_page_flowkey: flowkey })
}

/// The marker of the card page's hidden ticket field.
pub open spec fn spec_ticket_field_marker() -> Seq<char> {
    "id=\"ssoticketid\""@
}

/// The marker that opens the ticket field's value.
pub open spec fn spec_value_marker() -> Seq<char> {
    "value=\""@
}

/// The ticket the card page hides in its form: the quoted `value` of the
/// field marked `ssoticketid`, provided that value opens before the
/// field's tag closes.
pub open spec fn spec_card_ticket(html: Seq<char>) -> Option<Seq<char>> {
    let m = spec_ticket_field_marker();
    let vm = spec_value_marker();
    match spec_find(html, m, 0) {
        None => None,
        Some(i) => match spec_find_char(html, '>', i + m.len()) {
            None => None,
            Some(e) => match spec_find(html, vm, i + m.len()) {
                None => None,
                Some(j) => if j < e {
                    match spec_find_char(html, '"', j + vm.len()) {
                        None => None,
                        Some(k) => Some(html.subrange(j + vm.len(), k)),
                    }
                } else {
                    None
                },
            },
        },
    }
}

/// Scrape the card page for the hidden ticket, exactly as
/// [`spec_card_ticket`] states.
pub fn card_access_parser(html: &str) -> (r: Option<String>)
    ensures
        r is Some <==> spec_card_ticket(html@) is Some,
        r matches Some(t) ==> Some(t@) == spec_card_ticket(html@),
{
    let n = html.unicode_len();
    let marker = "id=\"ssoticketid\"";
    let value_marker = "value=\"";
    let i = match find_from(html, marker, 0) {
        None => {
            return None;
        },
        Some(v) => v,
    };
    proof {
        lemma_spec_find_some(html@, marker@, 0, i as int);
    }
    let after = i + marker.unicode_len();
    let e = match find_char(html, '>', after) {
        None => {
            return None;
        },
        Some(v) => v,
    };
    let j = match find_from(html, value_marker, after) {
        None => {
            return None;
        },
        Some(v) => v,
    };
    if j >= e {
        return None;
    }
    proof {
        lemma_spec_find_some(html@, value_marker@, after as int, j as int);
    }
    let start = j + value_marker.unicode_len();
    let k = match find_char(html, '"', start) {
        None => {
            return None;
        },
        Some(v) => v,
    };
    proof {
        lemma_spec_find_char_some(html@, '"', start as int, k as int);
    }
    Some(substring(html, start, k))
}

/// The marker that opens an authorization code in a redirect URL.
pub open spec fn spec_code_marker() -> Seq<char> {
    "?code="@
}

/// The authorization code carried by `s` at or after `from`: at the first
/// position where `?code=` is followed by at least one character before the
/// next `&`, the characters between them.
pub open spec fn spec_find_code_from(s: Seq<char>, from: int) -> Option<Seq<char>>
    decreases s.len() - from + 1,
{
    let m = spec_code_marker();
    if from < 0 {
        spec_find_code_from(s, 0)
    } else if from > s.len() {
        None
    } else if match_at(s, m, from) {
        let start = from + m.len();
        match spec_find_char(s, '&', start as int) {
            None => None,
            Some(j) => if j > start {
                Some(s.subrange(start as int, j))
            } else {
                spec_find_code_from(s, from + 1)
            },
        }
    } else if from == s.len() {
        None
    } else {
        spec_find_code_from(s, from + 1)
    }
}

/// Pull the authorization code out of a redirect URL, exactly as
/// [`spec_find_code_from`] states at position zero.
pub fn find_code(location: &str) -> (r: Option<String>)
    ensures
        r is Some <==> spec_find_code_from(location@, 0) is Some,
        r matches Some(t) ==> Some(t@) == spec_find_code_from(location@, 0),
{
    let marker = "?code=";
    let n = location.unicode_len();
    let m = marker.unicode_len();
    let mut cur: usize = 0;
    loop
        invariant
            n == location@.len(),
            marker@ == spec_code_marker(),
            m == spec_code_marker().len(),
            cur <= n + 1,
            spec_find_code_from(location@, 0) == spec_find_code_from(location@, cur as int),
        decreases n + 1 - cur,
    {
        if cur > n {
            return None;
        }
        if match_at_exec(location, marker, cur) {
            let start = cur + m;
            match find_char(location, '&', start) {
                None => {
                    assert(spec_find_code_from(location@, cur as int) is None);
                    return None;
                },
                Some(j) => {
                    proof {
                        lemma_spec_find_char_some(location@, '&', start as int, j as int);
                    }
                    if j > start {
                        return Some(substring(location, start, j));
                    }
                },
            }
        } else if cur == n {
            return None;
        }
        cur += 1;
    }
}

/// The marker that opens a page ticket in a scraped body.
pub open spec fn spec_page_ticket_marker() -> Seq<char> {
    "ticket="@
}

/// The page ticket carried by `s` at or after `from`: at the first position
/// where `ticket=` is followed, on the same line, by a closing `'`, the
/// characters up to the last such `'` on that line.
pub open spec fn spec_page_ticket_from(s: Seq<char>, from: int) -> Option<Seq<char>>
    decreases s.len() - from + 1,
{
    let m = spec_page_ticket_marker();
    if from < 0 {
        spec_page_ticket_from(s, 0)
    } else if from > s.len() {
        None
    } else if match_at(s, m, from) {
        let start = from + m.len();
        let line_end = match spec_find_char(s, '\n', start as int) {
            None => s.len() as int,
            Some(j) => j,
        };
        match spec_rfind_char(s, '\'', start as int, line_end) {
            None => if from == s.len() {
                None
            } else {
                spec_page_ticket_from(s, from + 1)
            },
            Some(k) => Some(s.subrange(start as int, k)),
        }
    } else if from == s.len() {
        None
    } else {
        spec_page_ticket_from(s, from + 1)
    }
}

/// Pull the page ticket out of a scraped body, exactly as
/// [`spec_page_ticket_from`] states at position zero.
pub fn find_page_ticket(body: &str) -> (r: Option<String>)
    ensures
        r is Some <==> spec_page_ticket_from(body@, 0) is Some,
        r matches Some(t) ==> Some(t@) == spec_page_ticket_from(body@, 0),
{
    let marker = "ticket=";
    let n = body.unicode_len();
    let m = marker.unicode_len();
    let mut cur: usize = 0;
    loop
        invariant
            n == body@.len(),
            marker@ == spec_page_ticket_marker(),
            m == spec_page_ticket_marker().len(),
            cur <= n + 1,
            spec_page_ticket_from(body@, 0) == spec_page_ticket_from(body@, cur as int),
        decreases n + 1 - cur,
    {
        if cur > n {
            return None;
        }
        if match_at_exec(body, marker, cur) {
            let start = cur + m;
            let line_end = match find_char(body, '\n', start) {
                None => n,
                Some(j) => {
                    proof {
                        lemma_spec_find_char_some(body@, '\n', start as int, j as int);
                    }
                    j
                },
            };
            match rfind_char(body, '\'', start, line_end) {
                None => {
                    if cur == n {
                        return None;
                    }
                },
                Some(k) => {
                    proof {
                        lemma_spec_rfind_char_some(
                            body@,
                            '\'',
                            start as int,
                            line_end as int,
                            k as int,
                        );
                    }
                    return Some(substring(body, start, k));
                },
            }
        } else if cur == n {
            return None;
        }
        cur += 1;
    }
}

} // verus!
