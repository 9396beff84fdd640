use rsmycqu::card::{
    blade_auth_request, card_landing_step, card_ticket_step, dorm_fee_check, dorm_fee_request,
    hall_ticket_request, hall_ticket_step, page_ticket_request, page_ticket_step,
    synjones_auth_step,
};
use rsmycqu::errors::{ApiError, CardError, MyCQUError, SSOError};
use rsmycqu::http::{HttpResponse, Method};
use rsmycqu::mycqu::{
    authorize_request, check_website_response, oauth_code_step, token_request, token_step,
};
use rsmycqu::session::Session;
use rsmycqu::sso::{
    classify_login_page, launch_login_data, launch_normal_login_result, login_jump_target,
    login_page_request, login_submit_request, login_submit_step, logout_request, service_request,
    service_redirect_step, LoginPageResponse, LoginPageStep, LoginResult, LoginSubmitStep,
};

fn response(status: u16, location: Option<&str>, body: &str) -> HttpResponse {
    HttpResponse {
        status,
        location: location.map(|s| s.to_string()),
        body: body.to_string(),
    }
}

const LOGIN_PAGE: &str = "<html><body>\
    <p id=\"login-croypto\">IGEOE4OMIBo=</p>\
    <p id=\"login-page-flowkey\">e1s1</p>\
    </body></html>";

#[test]
fn login_requests_address_the_login_and_logout_endpoints() {
    let probe = login_page_request();
    assert!(matches!(probe.method, Method::Get));
    assert_eq!(probe.url, "https://sso.cqu.edu.cn/login");
    assert!(probe.form.is_empty() && probe.query.is_empty());
    let out = logout_request();
    assert_eq!(out.url, "https://sso.cqu.edu.cn/logout");
}

#[test]
fn login_page_classification_follows_the_protocol() {
    let silent = classify_login_page(&response(302, Some("https://next.hop/a"), ""), false);
    assert!(matches!(
        silent.unwrap(),
        LoginPageStep::FollowJump { url } if url == "https://next.hop/a"
    ));

    let forced = classify_login_page(&response(302, Some("https://next.hop/a"), ""), true);
    assert!(matches!(forced.unwrap(), LoginPageStep::Relogin));

    let missing = classify_login_page(&response(302, None, ""), false);
    assert!(matches!(
        missing,
        Err(ApiError::Website { msg }) if msg == "Expected response has \"Location\" but not found"
    ));

    let page = classify_login_page(&response(200, None, LOGIN_PAGE), false);
    assert!(matches!(page.unwrap(), LoginPageStep::ParsePage));

    let odd = classify_login_page(&response(503, None, ""), false);
    assert!(matches!(
        odd,
        Err(ApiError::Inner { source: SSOError::UnknownSSOError { msg } })
            if msg.starts_with("status code 503 is got (302 expected)")
    ));
}

#[test]
fn a_full_credential_login_marks_the_session() {
    let mut session = Session::new();

    // Probe: 200, so credentials are needed; scrape the page.
    let step = classify_login_page(&response(200, None, LOGIN_PAGE), false).unwrap();
    assert!(matches!(step, LoginPageStep::ParsePage));
    let page = launch_normal_login_result(LOGIN_PAGE).unwrap();
    let data = match page {
        LoginPageResponse::NormalLogin { login_page_data } => login_page_data,
        LoginPageResponse::HasLogin { .. } => unreachable!(),
    };

    // Build and submit the form.
    let form = launch_login_data("studentA", "abc123456", &data).unwrap();
    assert_eq!(form.len(), 7);
    assert_eq!(form[0], ("username".to_string(), "studentA".to_string()));
    assert_eq!(form[1], ("type".to_string(), "UsernamePassword".to_string()));
    assert_eq!(form[2], ("_eventId".to_string(), "submit".to_string()));
    assert_eq!(form[3], ("geolocation".to_string(), "".to_string()));
    assert_eq!(form[4], ("execution".to_string(), "e1s1".to_string()));
    assert_eq!(form[5], ("croypto".to_string(), "IGEOE4OMIBo=".to_string()));
    assert_eq!(
        form[6],
        ("password".to_string(), "9p5YTOsEgya0j7w0dbg/CA==".to_string())
    );
    let submit = login_submit_request(form);
    assert!(matches!(submit.method, Method::Post));
    assert_eq!(submit.url, "https://sso.cqu.edu.cn/login");

    // Accepted: follow once, then the session is logged in.
    let accepted = login_submit_step(&response(302, Some("https://sso.cqu.edu.cn/ok"), ""));
    assert!(matches!(
        accepted.unwrap(),
        LoginSubmitStep::Follow { url } if url == "https://sso.cqu.edu.cn/ok"
    ));
    session.set_login(true);
    assert!(session.is_login());
    let outcome = LoginResult::Success;
    assert_eq!(outcome, LoginResult::Success);
}

#[test]
fn wrong_credentials_are_an_ordinary_outcome() {
    let rejected = login_submit_step(&response(401, None, ""));
    assert!(matches!(rejected.unwrap(), LoginSubmitStep::Incorrect));
    let odd = login_submit_step(&response(500, None, ""));
    assert!(matches!(
        odd,
        Err(ApiError::Inner { source: SSOError::UnknownSSOError { msg } })
            if msg == "Unexpected status code: 500"
    ));
}

#[test]
fn silent_login_reads_the_second_hop() {
    let lp = login_jump_target(&response(302, Some("https://final.hop/b"), "")).unwrap();
    assert!(matches!(
        lp,
        LoginPageResponse::HasLogin { login_url } if login_url == "https://final.hop/b"
    ));
    assert!(matches!(
        login_jump_target(&response(302, None, "")),
        Err(ApiError::Website { .. })
    ));
}

#[test]
fn the_service_ticket_step_demands_a_redirect() {
    let req = service_request("https://my.cqu.edu.cn/authserver/authentication/cas");
    assert_eq!(req.url, "https://sso.cqu.edu.cn/login");
    assert_eq!(
        req.query,
        vec![(
            "service".to_string(),
            "https://my.cqu.edu.cn/authserver/authentication/cas".to_string()
        )]
    );

    assert!(matches!(
        service_redirect_step(&response(200, None, "")),
        Err(ApiError::NotLogin)
    ));
    assert!(matches!(
        service_redirect_step(&response(302, None, "")),
        Err(ApiError::Website { .. })
    ));
    assert_eq!(
        service_redirect_step(&response(302, Some("https://svc/land"), "")).unwrap(),
        "https://svc/land"
    );
}

#[test]
fn the_oauth_exchange_reads_code_then_token() {
    let auth = authorize_request();
    assert!(auth.url.starts_with("https://my.cqu.edu.cn/authserver/oauth/authorize"));

    let code = oauth_code_step(&response(
        302,
        Some("https://my.cqu.edu.cn/enroll/token-index?code=ZbfCVZ&state="),
        "",
    ))
    .unwrap();
    assert_eq!(code, "ZbfCVZ");
    assert!(matches!(
        oauth_code_step(&response(302, None, "")),
        Err(ApiError::Inner { source: MyCQUError::AccessError })
    ));
    assert!(matches!(
        oauth_code_step(&response(302, Some("https://no.code/here"), "")),
        Err(ApiError::Inner { source: MyCQUError::AccessError })
    ));

    let req = token_request(&code);
    assert_eq!(req.url, "https://my.cqu.edu.cn/authserver/oauth/token");
    assert_eq!(req.form[0], ("client_id".to_string(), "enroll-prod".to_string()));
    assert_eq!(req.form[1], ("client_secret".to_string(), "app-a-1234".to_string()));
    assert_eq!(req.form[2], ("code".to_string(), "ZbfCVZ".to_string()));
    assert_eq!(
        req.form[3],
        ("redirect_uri".to_string(), "https://my.cqu.edu.cn/enroll/token-index".to_string())
    );
    assert_eq!(
        req.form[4],
        ("grant_type".to_string(), "authorization_code".to_string())
    );

    assert_eq!(
        token_step("{\"access_token\":\"tok-9\",\"scope\":\"all\"}").unwrap(),
        "tok-9"
    );
    assert!(matches!(
        token_step("{\"scope\":\"all\"}"),
        Err(ApiError::Inner { source: MyCQUError::AccessError })
    ));
    assert!(matches!(
        token_step("not json"),
        Err(ApiError::Inner { source: MyCQUError::AccessError })
    ));
    assert!(matches!(
        token_step("{\"access_token\":42}"),
        Err(ApiError::Inner { source: MyCQUError::AccessError })
    ));
}

#[test]
fn the_website_envelope_check_reads_status_and_msg() {
    assert!(check_website_response("{\"status\":\"success\",\"data\":{}}").is_ok());
    assert!(matches!(
        check_website_response("{\"status\":\"error\",\"msg\":\"broken\"}"),
        Err(ApiError::Website { msg }) if msg == "broken"
    ));
    assert!(matches!(
        check_website_response("{\"status\":\"error\"}"),
        Err(ApiError::Website { msg }) if msg.is_empty()
    ));
}

#[test]
fn the_card_grant_scrapes_and_redeems_the_ticket() {
    assert_eq!(
        card_landing_step(&response(302, Some("http://card.cqu.edu.cn/land"), "")).unwrap(),
        "http://card.cqu.edu.cn/land"
    );
    assert!(matches!(
        card_landing_step(&response(302, None, "")),
        Err(ApiError::ModelParse { .. })
    ));

    let html = "<input id=\"ssoticketid\" value=\"T123\">";
    assert_eq!(card_ticket_step(html).unwrap(), "T123");
    assert!(matches!(
        card_ticket_step("<html></html>"),
        Err(ApiError::Whatever { .. })
    ));

    let req = hall_ticket_request("T123");
    assert_eq!(req.url, "http://card.cqu.edu.cn/cassyno/index");
    assert_eq!(req.form[0], ("errorcode".to_string(), "1".to_string()));
    assert_eq!(req.form[1], ("ssoticketid".to_string(), "T123".to_string()));
    assert_eq!(
        req.form[2],
        ("continueurl".to_string(), "http://card.cqu.edu.cn/cassyno/index".to_string())
    );

    assert!(hall_ticket_step(200).is_ok());
    assert!(hall_ticket_step(302).is_ok());
    assert!(matches!(
        hall_ticket_step(403),
        Err(ApiError::Inner { source: CardError::AccessError })
    ));
}

#[test]
fn the_fee_flow_scrapes_redeems_and_caches() {
    let req = page_ticket_request();
    assert_eq!(req.url, "http://card.cqu.edu.cn/Page/Page");
    assert_eq!(req.form[0], ("EMenuName".to_string(), "电费、网费".to_string()));
    assert_eq!(req.form[1], ("MenuName".to_string(), "电费、网费".to_string()));
    assert_eq!(
        req.form[2],
        ("Url".to_string(), "http://card.cqu.edu.cn:8080/blade-auth/token/thirdToToken/fwdt"
            .to_string())
    );
    assert_eq!(req.form[3], ("apptype".to_string(), "4".to_string()));
    assert_eq!(req.form[4], ("flowID".to_string(), "10002".to_string()));

    let body = "var url = 'http://x?ticket=TICKET99'\n";
    assert_eq!(page_ticket_step(&response(200, None, body)).unwrap(), "TICKET99");
    assert!(matches!(
        page_ticket_step(&response(500, None, body)),
        Err(ApiError::Website { msg }) if msg == "Get Page Ticket Error"
    ));
    assert!(matches!(
        page_ticket_step(&response(200, None, "no marker")),
        Err(ApiError::Website { msg }) if msg == "Page Ticket Not Found"
    ));

    let blade = blade_auth_request("TICKET99");
    assert_eq!(blade.url, "http://card.cqu.edu.cn:8080/blade-auth/token/fwdt");
    assert_eq!(blade.form[0], ("ticket".to_string(), "TICKET99".to_string()));
    assert_eq!(blade.form[1], ("json".to_string(), "true".to_string()));

    let auth = synjones_auth_step(&response(
        200,
        None,
        "{\"data\":{\"access_token\":\"zz9\"}}",
    ))
    .unwrap();
    assert_eq!(auth, "bearer zz9");
    assert!(matches!(
        synjones_auth_step(&response(500, None, "")),
        Err(ApiError::Website { msg }) if msg == "Get Synjones Auth Error"
    ));
    assert!(matches!(
        synjones_auth_step(&response(200, None, "{\"data\":{}}")),
        Err(ApiError::Website { msg }) if msg == "Synjones Auth Token Not Found"
    ));

    let fee = dorm_fee_request("b5321", true, &auth);
    assert_eq!(fee.url, "http://card.cqu.edu.cn:8080/charge/feeitem/getThirdData");
    assert_eq!(fee.form[0], ("feeitemid".to_string(), "182".to_string()));
    assert_eq!(fee.form[3], ("room".to_string(), "b5321".to_string()));
    assert_eq!(fee.extra_cookie.as_deref(), Some("synjones-auth=bearer zz9"));
    let old_campus = dorm_fee_request("a1", false, &auth);
    assert_eq!(old_campus.form[0], ("feeitemid".to_string(), "181".to_string()));

    assert!(dorm_fee_check(&response(200, None, "{\"msg\":\"success\",\"map\":{}}")).is_ok());
    assert!(matches!(
        dorm_fee_check(&response(500, None, "")),
        Err(ApiError::Website { msg }) if msg == "Get Dorm Fee Error"
    ));
    assert!(matches!(
        dorm_fee_check(&response(200, None, "{\"msg\":\"fail\"}")),
        Err(ApiError::Website { msg }) if msg == "Website response format incorrect"
    ));
}
