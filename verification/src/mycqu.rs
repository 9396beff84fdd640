//! The course-and-grade service grant: an OAuth-style code/token exchange,
//! and the guarded-request helper its data calls go through.

use vstd::prelude::*;

use crate::consts::{
    mycqu_authorize_url, mycqu_token_index_url, mycqu_token_url, spec_mycqu_authorize_url,
    spec_mycqu_token_index_url, spec_mycqu_token_url,
};
use crate::errors::{ApiError, ApiResult, MyCQUError, MyCQUResult, RsMyCQUError};
use crate::http::{pairs_view, HttpRequest, HttpRequestView, HttpResponse, Method};
use crate::jsonval::{json_str_field, json_str_field_of};
use crate::page_parser::{find_code, spec_find_code_from};
use crate::session::Session;
use crate::strutil::str_eq;

verus! {

/// The grant demands a prior login: fail with `NotLogin` before any network
/// step when the session has none.
pub fn access_mycqu_precheck(session: &Session) -> (r: MyCQUResult<()>)
    ensures
        r is Ok <==> session@.is_login,
        r matches Err(e) ==> e is NotLogin,
{
    if session.is_login() {
        Ok(())
    } else {
        Err(ApiError::NotLogin)
    }
}

/// The error every grant step reports when a service-ticket step fails
/// after the login precheck passed.
pub fn wrap_unexpected_sso<E: RsMyCQUError>() -> (r: ApiError<E>)
    ensures
        r matches ApiError::Whatever { message } && message@ == "Unexpected SSOError happened"@,
{
    ApiError::Whatever { message: "Unexpected SSOError happened".to_owned() }
}

/// The request that opens the code exchange: a GET of the authorize
/// endpoint, whose response redirects with the code.
pub fn authorize_request() -> (r: HttpRequest)
    ensures
        r@ == (HttpRequestView {
            method: Method::Get,
            url: spec_mycqu_authorize_url(),
            query: Seq::empty(),
            form: Seq::empty(),
            bearer: None,
            extra_cookie: None,
        }),
{
    HttpRequest::get(mycqu_authorize_url().to_owned())
}

/// Read the authorization code out of the authorize response's `Location`
/// header; a missing header or an absent code is an access error.
pub fn oauth_code_step(res: &HttpResponse) -> (r: MyCQUResult<String>)
    ensures
        match res@.location {
            None => r matches Err(e) && (e matches ApiError::Inner { source } && source
                is AccessError),
            Some(l) => match spec_find_code_from(l, 0) {
                None => r matches Err(e) && (e matches ApiError::Inner { source } && source
                    is AccessError),
                Some(code) => r matches Ok(c) && c@ == code,
            },
        },
{
    match res.location {
        None => Err(ApiError::Inner { source: MyCQUError::AccessError }),
        Some(ref location) => match find_code(location.as_str()) {
            None => Err(ApiError::Inner { source: MyCQUError::AccessError }),
            Some(code) => Ok(code),
        },
    }
}

/// The form the token exchange posts: the fixed client credentials, the
/// code, the fixed redirect target, and the grant type.
pub open spec fn spec_token_form(code: Seq<char>) -> Seq<(Seq<char>, Seq<char>)> {
    seq![
        ("client_id"@, "enroll-prod"@),
        ("client_secret"@, "app-a-1234"@),
        ("code"@, code),
        ("redirect_uri"@, spec_mycqu_token_index_url()),
        ("grant_type"@, "authorization_code"@),
    ]
}

/// The request that redeems the code at the token endpoint.
pub fn token_request(code: &str) -> (r: HttpRequest)
    ensures
        r@ == (HttpRequestView {
            method: Method::Post,
            url: spec_mycqu_token_url(),
            query: Seq::empty(),
            form: spec_token_form(code@),
            bearer: None,
            extra_cookie: None,
        }),
{
    let mut form: Vec<(String, String)> = Vec::new();
    form.push(("client_id".to_owned(), "enroll-prod".to_owned()));
    form.push(("client_secret".to_owned(), "app-a-1234".to_owned()));
    form.push(("code".to_owned(), code.to_owned()));
    form.push(("redirect_uri".to_owned(), mycqu_token_index_url().to_owned()));
    form.push(("grant_type".to_owned(), "authorization_code".to_owned()));
    assert(pairs_view(form@) =~= spec_token_form(code@));
    HttpRequest::post_form(mycqu_token_url().to_owned(), form)
}

/// Read the bearer token out of the token response's JSON body: the string
/// under `access_token`; its absence is an access error.
pub fn token_step(body: &str) -> (r: MyCQUResult<String>)
    ensures
        r is Ok <==> json_str_field_of(body@, "access_token"@) is Some,
        r matches Ok(t) ==> Some(t@) == json_str_field_of(body@, "access_token"@),
        r matches Err(e) ==> e matches ApiError::Inner { source } && source is AccessError,
{
    match json_str_field(body, "access_token") {
        Some(token) => Ok(token),
        None => Err(ApiError::Inner { source: MyCQUError::AccessError }),
    }
}

/// The bearer value a guarded course-service request must attach.  Fails
/// with `NotAccess`, before any network step, exactly when the registry
/// holds no course-service credential.
pub fn mycqu_auth_header(session: &Session) -> (r: MyCQUResult<String>)
    ensures
        r is Ok <==> session@.access_infos.mycqu_access_info is Some,
        r matches Ok(t) ==> Some(t@) == session@.access_infos.mycqu_access_info,
        r matches Err(e) ==> e is NotAccess,
{
    match session.access_infos().mycqu_access_info {
        None => Err(ApiError::NotAccess),
        Some(ref info) => Ok(info.auth_header.clone()),
    }
}

/// Judge a guarded response's status: 401 means the stored credential no
/// longer serves, reported as `NotAccess` even though a credential was
/// attached; anything else passes.
pub fn guard_response_status<E: RsMyCQUError>(status: u16) -> (r: ApiResult<(), E>)
    ensures
        r is Ok <==> status != 401,
        r matches Err(e) ==> e is NotAccess,
{
    if status == 401 {
        Err(ApiError::NotAccess)
    } else {
        Ok(())
    }
}

/// Judge a data response's JSON envelope: it passes exactly when its
/// `status` field is the string `success`; otherwise the report carries the
/// envelope's `msg` field, or an empty message when there is none.
pub fn check_website_response(body: &str) -> (r: MyCQUResult<()>)
    ensures
        r is Ok <==> json_str_field_of(body@, "status"@) == Some("success"@),
        r matches Err(e) ==> e matches ApiError::Website { msg } && msg@ == match json_str_field_of(
            body@,
            "msg"@,
        ) {
            Some(m) => m,
            None => Seq::<char>::empty(),
        },
{
    let ok = match json_str_field(body, "status") {
        Some(status) => str_eq(status.as_str(), "success"),
        None => false,
    };
    if ok {
        Ok(())
    } else {
        let msg = match json_str_field(body, "msg") {
            Some(m) => m,
            None => String::new(),
        };
        Err(ApiError::Website { msg })
    }
}

/// A user record of the course-and-grade service.
#[derive(Debug, Clone, PartialEq, Eq)]
pub struct User {
    /// The user's name.
    pub name: String,
    /// The unified authentication id.
    pub id: String,
    /// The student or staff number.
    pub code: String,
    /// The role, such as `student` or `instructor`.
    pub role: String,
    /// The mail address, when the service knows one.
    pub email: Option<String>,
    /// The phone number, when the service knows one.
    pub phone_number: Option<String>,
}

/// One invigilator of an exam.
#[derive(Debug, Clone, PartialEq, Eq)]
pub struct Invigilator {
    /// The invigilator's name.
    pub name: String,
    /// The invigilator's department, possibly abbreviated.
    pub dept: String,
}

} // verus!
