use rsmycqu::card::{card_fee_plan, card_guard, FeeTokenPlan};
use rsmycqu::errors::ApiError;
use rsmycqu::mycqu::{guard_response_status, mycqu_auth_header};
use rsmycqu::errors::MyCQUError;
use rsmycqu::session::Session;

#[test]
fn cookies_are_attached_and_absorbed_per_host() {
    let mut session = Session::new();
    assert_eq!(session.cookie_header_for("sso.cqu.edu.cn"), None);

    session.absorb_set_cookie("sso.cqu.edu.cn", "JSESSIONID=abc123; Path=/; HttpOnly");
    session.absorb_set_cookie("sso.cqu.edu.cn", "route=xyz");
    session.absorb_set_cookie("card.cqu.edu.cn", "hallticket=t1");

    assert_eq!(
        session.cookie_header_for("sso.cqu.edu.cn").unwrap(),
        "JSESSIONID=abc123; route=xyz"
    );
    assert_eq!(
        session.cookie_header_for("card.cqu.edu.cn").unwrap(),
        "hallticket=t1"
    );
    assert_eq!(session.cookie_header_for("my.cqu.edu.cn"), None);
}

#[test]
fn a_reset_cookie_replaces_the_stored_value() {
    let mut session = Session::new();
    session.absorb_set_cookie("sso.cqu.edu.cn", "JSESSIONID=one");
    session.absorb_set_cookie("sso.cqu.edu.cn", "JSESSIONID=two; Path=/");
    assert_eq!(
        session.cookie_header_for("sso.cqu.edu.cn").unwrap(),
        "JSESSIONID=two"
    );
}

#[test]
fn cookie_values_keep_their_own_equals_signs() {
    let mut session = Session::new();
    session.absorb_set_cookie("sso.cqu.edu.cn", "token=a=b=c; Secure");
    assert_eq!(
        session.cookie_header_for("sso.cqu.edu.cn").unwrap(),
        "token=a=b=c"
    );
}

#[test]
fn unreadable_set_cookie_headers_are_ignored() {
    let mut session = Session::new();
    session.absorb_set_cookie("sso.cqu.edu.cn", "no equals sign here");
    session.absorb_set_cookie("sso.cqu.edu.cn", "=value-without-name");
    assert_eq!(session.cookie_header_for("sso.cqu.edu.cn"), None);
}

#[test]
fn fresh_sessions_fail_fast() {
    let session = Session::new();
    assert!(!session.is_login());
    // The guarded data calls refuse before any network step.
    assert!(matches!(mycqu_auth_header(&session), Err(ApiError::NotAccess)));
    assert!(matches!(card_guard(&session), Err(ApiError::NotAccess)));
    assert!(matches!(card_fee_plan(&session), Err(ApiError::NotAccess)));
    // The login-gated grant prechecks refuse too.
    assert!(matches!(
        rsmycqu::mycqu::access_mycqu_precheck(&session),
        Err(ApiError::NotLogin)
    ));
    assert!(matches!(
        rsmycqu::card::access_card_precheck(&session),
        Err(ApiError::NotLogin)
    ));
}

#[test]
fn grants_populate_exactly_their_own_service() {
    let mut session = Session::new();
    session.set_login(true);
    assert!(session.is_login());

    session.set_mycqu_access("token-1".to_string());
    assert_eq!(mycqu_auth_header(&session).unwrap(), "token-1");
    assert!(session.access_infos().mycqu_access_info.is_some());
    assert!(session.access_infos().card_access_info.is_none());
    assert!(matches!(card_guard(&session), Err(ApiError::NotAccess)));

    session.set_card_access();
    assert!(card_guard(&session).is_ok());
    assert!(session.access_infos().mycqu_access_info.is_some());
}

#[test]
fn card_token_is_fetched_once_then_cached() {
    let mut session = Session::new();
    session.set_login(true);
    session.set_card_access();

    let mut fetches: u32 = 0;
    for _ in 0..3 {
        match card_fee_plan(&session).unwrap() {
            FeeTokenPlan::FetchToken => {
                fetches += 1;
                // What the auth endpoint would have produced.
                session.set_card_synjones("bearer tok".to_string());
            }
            FeeTokenPlan::UseToken { synjones_auth } => {
                assert_eq!(synjones_auth, "bearer tok");
            }
        }
    }
    assert_eq!(fetches, 1);
}

#[test]
fn a_401_returns_not_access_even_with_a_credential_attached() {
    let mut session = Session::new();
    session.set_login(true);
    session.set_mycqu_access("token-1".to_string());
    assert!(mycqu_auth_header(&session).is_ok());
    assert!(matches!(
        guard_response_status::<MyCQUError>(401),
        Err(ApiError::NotAccess)
    ));
    assert!(guard_response_status::<MyCQUError>(200).is_ok());
    assert!(guard_response_status::<MyCQUError>(500).is_ok());
}
