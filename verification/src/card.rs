//! The campus-card service grant: a ticket/bearer scrape in two stages,
//! the second lazy, plus the card data records.

use vstd::prelude::*;

use crate::consts::{
    card_blade_auth_url, card_get_dorm_fee_url, card_hall_ticket_url, card_page_ticket_post_form_url,
    card_page_url, spec_card_blade_auth_url, spec_card_get_dorm_fee_url,
    spec_card_hall_ticket_url, spec_card_page_ticket_post_form_url, spec_card_page_url,
};
use crate::errors::{ApiError, CardError, CardResult};
use crate::http::{pairs_view, HttpRequest, HttpRequestView, HttpResponse, Method};
use crate::jsonval::{json_nested_str_field, json_nested_str_field_of, json_str_field,
    json_str_field_of};
use crate::page_parser::{card_access_parser, find_page_ticket, spec_card_ticket,
    spec_page_ticket_from};
use crate::session::Session;
use crate::strutil::str_eq;

verus! {

/// The grant demands a prior login: fail with `NotLogin` before any network
/// step when the session has none.
pub fn access_card_precheck(session: &Session) -> (r: CardResult<()>)
    ensures
        r is Ok <==> session@.is_login,
        r matches Err(e) ==> e is NotLogin,
{
    if session.is_login() {
        Ok(())
    } else {
        Err(ApiError::NotLogin)
    }
}

/// Read the landing response's `Location` header, the address of the card
/// page that hides the ticket; a missing header cannot be read as the
/// expected model.
pub fn card_landing_step(res: &HttpResponse) -> (r: CardResult<String>)
    ensures
        match res@.location {
            Some(u) => r matches Ok(url) && url@ == u,
            None => r matches Err(e) && (e matches ApiError::ModelParse { msg } && msg@
                == "Expected response has \"Location\" but not found"@),
        },
{
    match res.location {
        Some(ref url) => Ok(url.clone()),
        None => Err(
            ApiError::ModelParse {
                msg: "Expected response has \"Location\" but not found".to_owned(),
            },
        ),
    }
}

/// Scrape the card page body for the hidden ticket; its absence is an
/// unclassified parse failure.
pub fn card_ticket_step(body: &str) -> (r: CardResult<String>)
    ensures
        r is Ok <==> spec_card_ticket(body@) is Some,
        r matches Ok(t) ==> Some(t@) == spec_card_ticket(body@),
        r matches Err(e) ==> e matches ApiError::Whatever { message } && message@
            == "Unable to parse card page"@,
{
    match card_access_parser(body) {
        Some(ticket) => Ok(ticket),
        None => Err(ApiError::Whatever { message: "Unable to parse card page".to_owned() }),
    }
}

/// The form that redeems the scraped ticket at the hall endpoint.
pub open spec fn spec_hall_ticket_form(ticket: Seq<char>) -> Seq<(Seq<char>, Seq<char>)> {
    seq![
        ("errorcode"@, "1"@),
        ("ssoticketid"@, ticket),
        ("continueurl"@, spec_card_hall_ticket_url()),
    ]
}

/// The request that redeems the scraped ticket at the hall endpoint.
pub fn hall_ticket_request(sso_ticket_id: &str) -> (r: HttpRequest)
    ensures
        r@ == (HttpRequestView {
            method: Method::Post,
            url: spec_card_hall_ticket_url(),
            query: Seq::empty(),
            form: spec_hall_ticket_form(sso_ticket_id@),
            bearer: None,
            extra_cookie: None,
        }),
{
    let mut form: Vec<(String, String)> = Vec::new();
    form.push(("errorcode".to_owned(), "1".to_owned()));
    form.push(("ssoticketid".to_owned(), sso_ticket_id.to_owned()));
    form.push(("continueurl".to_owned(), card_hall_ticket_url().to_owned()));
    assert(pairs_view(form@) =~= spec_hall_ticket_form(sso_ticket_id@));
    HttpRequest::post_form(card_hall_ticket_url().to_owned(), form)
}

/// Judge the hall-ticket response: 200 and 302 both complete the grant;
/// anything else is an access error.
pub fn hall_ticket_step(status: u16) -> (r: CardResult<()>)
    ensures
        r is Ok <==> (status == 200 || status == 302),
        r matches Err(e) ==> e matches ApiError::Inner { source } && source is AccessError,
{
    if status == 200 || status == 302 {
        Ok(())
    } else {
        Err(ApiError::Inner { source: CardError::AccessError })
    }
}

/// The card guard: a guarded card request may proceed exactly when the
/// registry holds the card grant; otherwise `NotAccess`, before any network
/// step.
pub fn card_guard(session: &Session) -> (r: CardResult<()>)
    ensures
        r is Ok <==> session@.access_infos.card_access_info is Some,
        r matches Err(e) ==> e is NotAccess,
{
    match session.access_infos().card_access_info {
        None => Err(ApiError::NotAccess),
        Some(_) => Ok(()),
    }
}

/// What a dormitory-fee call must do about the secondary token.
#[derive(Debug)]
pub enum FeeTokenPlan {
    /// No token is cached yet: scrape a page ticket and redeem it first.
    FetchToken,
    /// A token is cached: use it, with no further exchange.
    UseToken {
        /// The cached token, sent as the `synjones-auth` cookie.
        synjones_auth: String,
    },
}

/// Decide the secondary-token stage: `NotAccess` without the card grant;
/// with it, fetch the token only when none is cached yet.
pub fn card_fee_plan(session: &Session) -> (r: CardResult<FeeTokenPlan>)
    ensures
        r is Ok <==> session@.access_infos.card_access_info is Some,
        r matches Err(e) ==> e is NotAccess,
        session@.access_infos.card_access_info matches Some(inner) ==> match inner {
            None => r matches Ok(p) && p is FetchToken,
            Some(auth) => r matches Ok(p) && (p matches FeeTokenPlan::UseToken { synjones_auth }
                && synjones_auth@ == auth),
        },
{
    match session.access_infos().card_access_info {
        None => Err(ApiError::NotAccess),
        Some(ref info) => match info.synjones_auth {
            None => Ok(FeeTokenPlan::FetchToken),
            Some(ref auth) => Ok(FeeTokenPlan::UseToken { synjones_auth: auth.clone() }),
        },
    }
}

/// The form posted to the card page to obtain a page ticket: the fixed menu
/// names, target, application type and flow id.
pub open spec fn spec_page_ticket_form() -> Seq<(Seq<char>, Seq<char>)> {
    seq![
        ("EMenuName"@, "电费、网费"@),
        ("MenuName"@, "电费、网费"@),
        ("Url"@, spec_card_page_ticket_post_form_url()),
        ("apptype"@, "4"@),
        ("flowID"@, "10002"@),
    ]
}

/// The request that asks the card page for a page ticket.
pub fn page_ticket_request() -> (r: HttpRequest)
    ensures
        r@ == (HttpRequestView {
            method: Method::Post,
            url: spec_card_page_url(),
            query: Seq::empty(),
            form: spec_page_ticket_form(),
            bearer: None,
            extra_cookie: None,
        }),
{
    let mut form: Vec<(String, String)> = Vec::new();
    form.push(("EMenuName".to_owned(), "电费、网费".to_owned()));
    form.push(("MenuName".to_owned(), "电费、网费".to_owned()));
    form.push(("Url".to_owned(), card_page_ticket_post_form_url().to_owned()));
    form.push(("apptype".to_owned(), "4".to_owned()));
    form.push(("flowID".to_owned(), "10002".to_owned()));
    assert(pairs_view(form@) =~= spec_page_ticket_form());
    HttpRequest::post_form(card_page_url().to_owned(), form)
}

/// Read the page ticket out of the card page's response: anything but 200
/// fails, and so does a body that carries no ticket.
pub fn page_ticket_step(res: &HttpResponse) -> (r: CardResult<String>)
    ensures
        r is Ok <==> res@.status == 200 && spec_page_ticket_from(res@.body, 0) is Some,
        r matches Ok(t) ==> Some(t@) == spec_page_ticket_from(res@.body, 0),
        res@.status != 200 ==> (r matches Err(e) && (e matches ApiError::Website { msg } && msg@
            == "Get Page Ticket Error"@)),
        res@.status == 200 && spec_page_ticket_from(res@.body, 0) is None ==> (r matches Err(e)
            && (e matches ApiError::Website { msg } && msg@ == "Page Ticket Not Found"@)),
{
    if res.status != 200 {
        return Err(ApiError::Website { msg: "Get Page Ticket Error".to_owned() });
    }
    match find_page_ticket(res.body.as_str()) {
        Some(ticket) => Ok(ticket),
        None => Err(ApiError::Website { msg: "Page Ticket Not Found".to_owned() }),
    }
}

/// The form that redeems a page ticket for the secondary token.
pub open spec fn spec_blade_auth_form(ticket: Seq<char>) -> Seq<(Seq<char>, Seq<char>)> {
    seq![("ticket"@, ticket), ("json"@, "true"@)]
}

/// The request that redeems a page ticket at the token endpoint.
pub fn blade_auth_request(ticket: &str) -> (r: HttpRequest)
    ensures
        r@ == (HttpRequestView {
            method: Method::Post,
            url: spec_card_blade_auth_url(),
            query: Seq::empty(),
            form: spec_blade_auth_form(ticket@),
            bearer: None,
            extra_cookie: None,
        }),
{
    let mut form: Vec<(String, String)> = Vec::new();
    form.push(("ticket".to_owned(), ticket.to_owned()));
    form.push(("json".to_owned(), "true".to_owned()));
    assert(pairs_view(form@) =~= spec_blade_auth_form(ticket@));
    HttpRequest::post_form(card_blade_auth_url().to_owned(), form)
}

/// The secondary token as cached: the token the endpoint returned, behind
/// the fixed `bearer ` prefix.
pub open spec fn spec_synjones_auth_of(token: Seq<char>) -> Seq<char> {
    "bearer "@ + token
}

/// Read the secondary token out of the token response: anything but 200
/// fails, and so does a body without a string under `data.access_token`;
/// otherwise the token behind its `bearer ` prefix.
pub fn synjones_auth_step(res: &HttpResponse) -> (r: CardResult<String>)
    ensures
        r is Ok <==> res@.status == 200 && json_nested_str_field_of(
            res@.body,
            "data"@,
            "access_token"@,
        ) is Some,
        r matches Ok(t) ==> json_nested_str_field_of(res@.body, "data"@, "access_token"@)
            matches Some(token) && t@ == spec_synjones_auth_of(token),
        res@.status != 200 ==> (r matches Err(e) && (e matches ApiError::Website { msg } && msg@
            == "Get Synjones Auth Error"@)),
        res@.status == 200 && json_nested_str_field_of(res@.body, "data"@, "access_token"@)
            is None ==> (r matches Err(e) && (e matches ApiError::Website { msg } && msg@
            == "Synjones Auth Token Not Found"@)),
{
    if res.status != 200 {
        return Err(ApiError::Website { msg: "Get Synjones Auth Error".to_owned() });
    }
    match json_nested_str_field(res.body.as_str(), "data", "access_token") {
        None => Err(ApiError::Website { msg: "Synjones Auth Token Not Found".to_owned() }),
        Some(token) => {
            let mut auth = "bearer ".to_owned();
            auth.append(token.as_str());
            Ok(auth)
        },
    }
}

/// The cookie a dormitory-fee request must carry: the cached secondary
/// token under the `synjones-auth` name.
pub open spec fn spec_synjones_cookie(auth: Seq<char>) -> Seq<char> {
    "synjones-auth="@ + auth
}

/// The form a dormitory-fee request posts: the campus-dependent fee item,
/// the room, and the fixed level and type.
pub open spec fn spec_dorm_fee_form(room: Seq<char>, is_huxi: bool) -> Seq<
    (Seq<char>, Seq<char>),
> {
    seq![
        ("feeitemid"@, if is_huxi { "182"@ } else { "181"@ }),
        ("json"@, "true"@),
        ("level"@, "2"@),
        ("room"@, room),
        ("type"@, "IEC"@),
    ]
}

/// The request that asks for a dormitory's fees, carrying the secondary
/// token as its cookie.
pub fn dorm_fee_request(room: &str, is_huxi: bool, synjones_auth: &str) -> (r: HttpRequest)
    ensures
        r@ == (HttpRequestView {
            method: Method::Post,
            url: spec_card_get_dorm_fee_url(),
            query: Seq::empty(),
            form: spec_dorm_fee_form(room@, is_huxi),
            bearer: None,
            extra_cookie: Some(spec_synjones_cookie(synjones_auth@)),
        }),
{
    let mut form: Vec<(String, String)> = Vec::new();
    if is_huxi {
        form.push(("feeitemid".to_owned(), "182".to_owned()));
    } else {
        form.push(("feeitemid".to_owned(), "181".to_owned()));
    }
    form.push(("json".to_owned(), "true".to_owned()));
    form.push(("level".to_owned(), "2".to_owned()));
    form.push(("room".to_owned(), room.to_owned()));
    form.push(("type".to_owned(), "IEC".to_owned()));
    assert(pairs_view(form@) =~= spec_dorm_fee_form(room@, is_huxi));
    let mut cookie = "synjones-auth=".to_owned();
    cookie.append(synjones_auth);
    let mut req = HttpRequest::post_form(card_get_dorm_fee_url().to_owned(), form);
    req.extra_cookie = Some(cookie);
    req
}

/// Judge the dormitory-fee response's envelope: it passes exactly when the
/// status is 200 and the body's `msg` field is the string `success`; the
/// record itself is read under `map.showData` by the caller.
pub fn dorm_fee_check(res: &HttpResponse) -> (r: CardResult<()>)
    ensures
        r is Ok <==> res@.status == 200 && json_str_field_of(res@.body, "msg"@)
            == Some("success"@),
        res@.status != 200 ==> (r matches Err(e) && (e matches ApiError::Website { msg } && msg@
            == "Get Dorm Fee Error"@)),
        res@.status == 200 && json_str_field_of(res@.body, "msg"@) != Some("success"@) ==> (r
            matches Err(e) && (e matches ApiError::Website { msg } && msg@
            == "Website response format incorrect"@)),
{
    if res.status != 200 {
        return Err(ApiError::Website { msg: "Get Dorm Fee Error".to_owned() });
    }
    let ok = match json_str_field(res.body.as_str(), "msg") {
        Some(m) => str_eq(m.as_str(), "success"),
        None => false,
    };
    if ok {
        Ok(())
    } else {
        Err(ApiError::Website { msg: "Website response format incorrect".to_owned() })
    }
}

/// A campus card.
#[derive(Debug, Clone, PartialEq, Eq)]
pub struct Card {
    /// The card's account number.
    pub id: u64,
    /// The balance, in cents.
    pub amount: u64,
}

/// One entry of a campus card's bill.
#[derive(Debug, Clone, PartialEq, Eq)]
pub struct Bill {
    /// The transaction's name.
    pub name: String,
    /// The transaction's time.
    pub date: String,
    /// The transaction's place.
    pub place: String,
    /// The transaction's amount, in cents.
    pub tran_amount: i64,
    /// The balance after it, in cents.
    pub acc_amount: i64,
}

/// A dormitory's remaining subsidy, which the two campuses report in
/// different shapes.
#[derive(Debug, Clone, PartialEq, Eq)]
pub enum Subsidy {
    /// The newer campus reports electricity and water separately.
    Huxi {
        /// Remaining subsidised electricity.
        electricity: String,
        /// Remaining subsidised water.
        water: String,
    },
    /// The older campus reports one subsidy balance.
    Old {
        /// The remaining subsidy.
        subsidies: String,
    },
}

/// A dormitory's utility-fee record.
#[derive(Debug, Clone, PartialEq, Eq)]
pub struct EnergyFees {
    /// The account balance.
    pub balance: String,
    /// The remaining subsidy.
    pub subsidies: Subsidy,
}

} // verus!
