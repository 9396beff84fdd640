//! The single-sign-on login flow, and the service-ticket exchange every
//! downstream grant starts with.
//!
//! The flow is a state machine over response summaries.  The caller sends
//! the requests; each function here decides one step exactly: probe the
//! login endpoint, then either complete a silent login by following two
//! redirects, or scrape the page, encrypt the password and submit the form.

use vstd::prelude::*;
use vstd::string::StringSliceAdditionalSpecFns;

use crate::consts::{spec_sso_login_url, spec_sso_logout_url, sso_login_url, sso_logout_url};
use crate::encrypt::{encrypt_password, spec_encrypt_password};
use crate::errors::{is_location_error, ApiError, SSOError, SSOResult};
use crate::http::{pairs_view, HttpRequest, HttpRequestView, HttpResponse, Method};
use crate::page_parser::{
    spec_croypto_marker, spec_elem_text, spec_flowkey_marker, sso_login_parser, SSOLoginPageData,
};
use crate::strutil::{spec_uint_str, u16_to_string};

verus! {

/// The outcome of a completed login flow.
#[derive(Debug, PartialEq, Eq, Structural)]
pub enum LoginResult {
    /// The session is logged in.
    Success,
    /// The gateway rejected the credentials: an ordinary outcome the caller
    /// branches on, not a fault.
    IncorrectLoginCredentials,
}

/// What the login page's first response led to.
#[derive(Debug)]
pub enum LoginPageResponse {
    /// The caller already holds a session; following `login_url` completes
    /// a silent login.
    HasLogin {
        /// The address of the second redirect hop.
        login_url: String,
    },
    /// Credentials are needed; the page's salt and flow key are here.
    NormalLogin {
        /// The scraped salt and flow key.
        login_page_data: SSOLoginPageData,
    },
}

/// The step the first login-page response demands.
#[derive(Debug)]
pub enum LoginPageStep {
    /// Already authenticated, and a fresh login was forced: log out, fetch
    /// the page again, and treat it as a credential login.
    Relogin,
    /// Already authenticated: follow this address; its response carries the
    /// second hop.
    FollowJump {
        /// The address of the first redirect hop.
        url: String,
    },
    /// Not authenticated: scrape the page body for salt and flow key.
    ParsePage,
}

/// The request that opens the login flow: a bare GET of the login endpoint.
pub fn login_page_request() -> (r: HttpRequest)
    ensures
        r@ == (HttpRequestView {
            method: Method::Get,
            url: spec_sso_login_url(),
            query: Seq::empty(),
            form: Seq::empty(),
            bearer: None,
            extra_cookie: None,
        }),
{
    HttpRequest::get(sso_login_url().to_owned())
}

/// The request that logs the session out: a bare GET of the logout
/// endpoint.
pub fn logout_request() -> (r: HttpRequest)
    ensures
        r@ == (HttpRequestView {
            method: Method::Get,
            url: spec_sso_logout_url(),
            query: Seq::empty(),
            form: Seq::empty(),
            bearer: None,
            extra_cookie: None,
        }),
{
    HttpRequest::get(sso_logout_url().to_owned())
}

/// The message reported when the login page answers with an unexpected
/// status.
pub open spec fn spec_login_page_status_msg(status: int) -> Seq<char> {
    "status code "@ + spec_uint_str(status)
        + " is got (302 expected) when sending login post, but can not find the element span.login_auth_error#msg"@
}

/// `e` reports the unexpected status the login page answered with.
pub open spec fn is_login_page_status_error(e: ApiError<SSOError>, status: int) -> bool {
    e matches ApiError::Inner { source } && source matches SSOError::UnknownSSOError { msg }
        && msg@ == spec_login_page_status_msg(status)
}

/// Decide what the first login-page response demands: 302 means the caller
/// is already authenticated (log out first when a fresh login is forced,
/// else follow the redirect), 200 means credentials are needed, anything
/// else is a protocol error carrying the status.
pub fn classify_login_page(res: &HttpResponse, force_relogin: bool) -> (r: SSOResult<
    LoginPageStep,
>)
    ensures
        res@.status == 302 && force_relogin ==> (r matches Ok(s) && s is Relogin),
        res@.status == 302 && !force_relogin ==> match res@.location {
            Some(u) => r matches Ok(s) && (s matches LoginPageStep::FollowJump { url } && url@
                == u),
            None => r matches Err(e) && is_location_error(e),
        },
        res@.status == 200 ==> (r matches Ok(s) && s is ParsePage),
        res@.status != 302 && res@.status != 200 ==> (r matches Err(e)
            && is_login_page_status_error(e, res@.status as int)),
{
    if res.status == 302 {
        if force_relogin {
            Ok(LoginPageStep::Relogin)
        } else {
            match res.location {
                Some(ref url) => Ok(LoginPageStep::FollowJump { url: url.clone() }),
                None => Err(ApiError::location_error()),
            }
        }
    } else if res.status == 200 {
        Ok(LoginPageStep::ParsePage)
    } else {
        let mut msg = "status code ".to_owned();
        msg.append(u16_to_string(res.status).as_str());
        msg.append(
            " is got (302 expected) when sending login post, but can not find the element span.login_auth_error#msg",
        );
        Err(ApiError::Inner { source: SSOError::UnknownSSOError { msg } })
    }
}

/// Read the second redirect hop of a silent login: its `Location` header is
/// the address whose fetch completes the login; a missing header is a
/// protocol error.
pub fn login_jump_target(res: &HttpResponse) -> (r: SSOResult<LoginPageResponse>)
    ensures
        match res@.location {
            Some(u) => r matches Ok(lp) && (lp matches LoginPageResponse::HasLogin { login_url }
                && login_url@ == u),
            None => r matches Err(e) && is_location_error(e),
        },
{
    match res.location {
        Some(ref url) => Ok(LoginPageResponse::HasLogin { login_url: url.clone() }),
        None => Err(ApiError::location_error()),
    }
}

/// Scrape the login page body for its salt and flow key; an absent element
/// is a protocol error.
pub fn launch_normal_login_result(body: &str) -> (r: SSOResult<LoginPageResponse>)
    ensures
        r is Ok <==> (spec_elem_text(body@, spec_croypto_marker()) is Some && spec_elem_text(
            body@,
            spec_flowkey_marker(),
        ) is Some),
        r matches Ok(lp) ==> lp matches LoginPageResponse::NormalLogin { login_page_data } && {
            &&& Some(login_page_data.login_croypto@) == spec_elem_text(
                body@,
                spec_croypto_marker(),
            )
            &&& Some(login_page_data.login_page_flowkey@) == spec_elem_text(
                body@,
                spec_flowkey_marker(),
            )
        },
        r matches Err(e) ==> e matches ApiError::Website { msg } && msg@
            == "Failed to parse login page"@,
{
    match sso_login_parser(body) {
        Some(data) => Ok(LoginPageResponse::NormalLogin { login_page_data: data }),
        None => Err(
            ApiError::Website { msg: "Failed to parse login page".to_owned() },
        ),
    }
}

/// The form a credential login submits: the seven fixed fields, with the
/// flow key echoed, the salt echoed, and the password encrypted against it.
pub open spec fn spec_login_form(
    username: Seq<char>,
    croypto: Seq<char>,
    flowkey: Seq<char>,
    cipher: Seq<char>,
) -> Seq<(Seq<char>, Seq<char>)> {
    seq![
        ("username"@, username),
        ("type"@, "UsernamePassword"@),
        ("_eventId"@, "submit"@),
        ("geolocation"@, ""@),
        ("execution"@, flowkey),
        ("croypto"@, croypto),
        ("password"@, cipher),
    ]
}

/// Build the login form from the scraped page data, encrypting `password`
/// against the page's salt.  Fails exactly when the salt cannot serve.
pub fn launch_login_data(username: &str, password: &str, login_page_data: &SSOLoginPageData) -> (r:
    SSOResult<Vec<(String, String)>>)
    ensures
        r is Ok <==> spec_encrypt_password(
            login_page_data.login_croypto@,
            password.spec_bytes(),
        ) is Some,
        r matches Ok(form) ==> spec_encrypt_password(
            login_page_data.login_croypto@,
            password.spec_bytes(),
        ) matches Some(cipher) && pairs_view(form@) == spec_login_form(
            username@,
            login_page_data.login_croypto@,
            login_page_data.login_page_flowkey@,
            cipher,
        ),
        r matches Err(e) ==> e == (ApiError::Inner::<SSOError> {
            source: SSOError::PasswordEncryptError,
        }),
{
    let cipher = match encrypt_password(login_page_data.login_croypto.as_str(), password) {
        Err(e) => {
            return Err(e);
        },
        Ok(c) => c,
    };
    let mut form: Vec<(String, String)> = Vec::new();
    form.push(("username".to_owned(), username.to_owned()));
    form.push(("type".to_owned(), "UsernamePassword".to_owned()));
    form.push(("_eventId".to_owned(), "submit".to_owned()));
    form.push(("geolocation".to_owned(), "".to_owned()));
    form.push(("execution".to_owned(), login_page_data.login_page_flowkey.clone()));
    form.push(("croypto".to_owned(), login_page_data.login_croypto.clone()));
    form.push(("password".to_owned(), cipher));
    assert(pairs_view(form@) =~= spec_login_form(
        username@,
        login_page_data.login_croypto@,
        login_page_data.login_page_flowkey@,
        spec_encrypt_password(login_page_data.login_croypto@, password.spec_bytes()).unwrap(),
    ));
    Ok(form)
}

/// The request that submits the login form.
pub fn login_submit_request(form: Vec<(String, String)>) -> (r: HttpRequest)
    ensures
        r@ == (HttpRequestView {
            method: Method::Post,
            url: spec_sso_login_url(),
            query: Seq::empty(),
            form: pairs_view(form@),
            bearer: None,
            extra_cookie: None,
        }),
{
    HttpRequest::post_form(sso_login_url().to_owned(), form)
}

/// The step the form submission's response demands.
#[derive(Debug)]
pub enum LoginSubmitStep {
    /// Accepted: follow this address once, then the session is logged in.
    Follow {
        /// The address of the confirming hop.
        url: String,
    },
    /// The credentials were wrong: an ordinary outcome, not a fault.
    Incorrect,
}

/// The message reported when the form submission answers with an
/// unexpected status.
pub open spec fn spec_submit_status_msg(status: int) -> Seq<char> {
    "Unexpected status code: "@ + spec_uint_str(status)
}

/// `e` reports the unexpected status the form submission answered with.
pub open spec fn is_submit_status_error(e: ApiError<SSOError>, status: int) -> bool {
    e matches ApiError::Inner { source } && source matches SSOError::UnknownSSOError { msg }
        && msg@ == spec_submit_status_msg(status)
}

/// Decide what the form submission's response demands: 302 means accepted
/// (follow the redirect once; a missing `Location` is a protocol error),
/// 401 means wrong credentials, anything else is a protocol error carrying
/// the status.
pub fn login_submit_step(res: &HttpResponse) -> (r: SSOResult<LoginSubmitStep>)
    ensures
        res@.status == 302 ==> match res@.location {
            Some(u) => r matches Ok(s) && (s matches LoginSubmitStep::Follow { url } && url@
                == u),
            None => r matches Err(e) && is_location_error(e),
        },
        res@.status == 401 ==> (r matches Ok(s) && s is Incorrect),
        res@.status != 302 && res@.status != 401 ==> (r matches Err(e) && is_submit_status_error(
            e,
            res@.status as int,
        )),
{
    if res.status == 302 {
        match res.location {
            Some(ref url) => Ok(LoginSubmitStep::Follow { url: url.clone() }),
            None => Err(ApiError::location_error()),
        }
    } else if res.status == 401 {
        Ok(LoginSubmitStep::Incorrect)
    } else {
        let mut msg = "Unexpected status code: ".to_owned();
        msg.append(u16_to_string(res.status).as_str());
        Err(ApiError::Inner { source: SSOError::UnknownSSOError { msg } })
    }
}

/// The request that opens a service-ticket exchange: a GET of the login
/// endpoint naming the downstream service.
pub fn service_request(service: &str) -> (r: HttpRequest)
    ensures
        r@ == (HttpRequestView {
            method: Method::Get,
            url: spec_sso_login_url(),
            query: seq![("service"@, service@)],
            form: Seq::empty(),
            bearer: None,
            extra_cookie: None,
        }),
{
    let mut req = HttpRequest::get(sso_login_url().to_owned());
    let mut query: Vec<(String, String)> = Vec::new();
    query.push(("service".to_owned(), service.to_owned()));
    req.query = query;
    assert(pairs_view(req.query@) =~= seq![("service"@, service@)]);
    req
}

/// Decide what the service-ticket response demands: anything but 302 means
/// the gateway does not hold a login; a missing `Location` is a protocol
/// error; otherwise the address to follow onto the service's own domain.
pub fn service_redirect_step(res: &HttpResponse) -> (r: SSOResult<String>)
    ensures
        res@.status != 302 ==> (r matches Err(e) && e is NotLogin),
        res@.status == 302 ==> match res@.location {
            Some(u) => r matches Ok(jump) && jump@ == u,
            None => r matches Err(e) && is_location_error(e),
        },
{
    if res.status != 302 {
        return Err(ApiError::NotLogin);
    }
    match res.location {
        Some(ref url) => Ok(url.clone()),
        None => Err(ApiError::location_error()),
    }
}

} // verus!
