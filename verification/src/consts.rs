//! The fixed endpoint URLs of the gateway and its downstream services.
//!
//! Each URL comes as a pair: a spec function naming its characters, and an
//! exec function pinned to it, so the flows' contracts can state exactly
//! which endpoint each step addresses.

use vstd::prelude::*;

verus! {

/// The view of the login endpoint.
pub open spec fn spec_sso_login_url() -> Seq<char> {
    "https://sso.cqu.edu.cn/login"@
}

/// The login endpoint: the silent-login probe and the credential target.
pub fn sso_login_url() -> (r: &'static str)
    ensures
        r@ == spec_sso_login_url(),
{
    "https://sso.cqu.edu.cn/login"
}

/// The view of the logout endpoint.
pub open spec fn spec_sso_logout_url() -> Seq<char> {
    "https://sso.cqu.edu.cn/logout"@
}

/// The logout endpoint.
pub fn sso_logout_url() -> (r: &'static str)
    ensures
        r@ == spec_sso_logout_url(),
{
    "https://sso.cqu.edu.cn/logout"
}

/// The view of the course-service authorize endpoint, with its fixed client
/// id, scope and redirect target.
pub open spec fn spec_mycqu_authorize_url() -> Seq<char> {
    "https://my.cqu.edu.cn/authserver/oauth/authorize?client_id=enroll-prod&response_type=code&scope=all&state=&redirect_uri=https://my.cqu.edu.cn/enroll/token-index"@
}

/// The course-service authorize endpoint.
pub fn mycqu_authorize_url() -> (r: &'static str)
    ensures
        r@ == spec_mycqu_authorize_url(),
{
    "https://my.cqu.edu.cn/authserver/oauth/authorize?client_id=enroll-prod&response_type=code&scope=all&state=&redirect_uri=https://my.cqu.edu.cn/enroll/token-index"
}

/// The view of the course-service token endpoint.
pub open spec fn spec_mycqu_token_url() -> Seq<char> {
    "https://my.cqu.edu.cn/authserver/oauth/token"@
}

/// The course-service token endpoint.
pub fn mycqu_token_url() -> (r: &'static str)
    ensures
        r@ == spec_mycqu_token_url(),
{
    "https://my.cqu.edu.cn/authserver/oauth/token"
}

/// The view of the course-service redirect target the token exchange names.
pub open spec fn spec_mycqu_token_index_url() -> Seq<char> {
    "https://my.cqu.edu.cn/enroll/token-index"@
}

/// The course-service redirect target the token exchange names.
pub fn mycqu_token_index_url() -> (r: &'static str)
    ensures
        r@ == spec_mycqu_token_index_url(),
{
    "https://my.cqu.edu.cn/enroll/token-index"
}

/// The view of the course-service address handed to the service-ticket
/// exchange.
pub open spec fn spec_mycqu_service_url() -> Seq<char> {
    "https://my.cqu.edu.cn/authserver/authentication/cas"@
}

/// The course-service address handed to the service-ticket exchange.
pub fn mycqu_service_url() -> (r: &'static str)
    ensures
        r@ == spec_mycqu_service_url(),
{
    "https://my.cqu.edu.cn/authserver/authentication/cas"
}

/// The view of the card-service address handed to the service-ticket
/// exchange.
pub open spec fn spec_card_service_url() -> Seq<char> {
    "http://card.cqu.edu.cn:7280/ias/prelogin?sysid=FWDT"@
}

/// The card-service address handed to the service-ticket exchange.
pub fn card_service_url() -> (r: &'static str)
    ensures
        r@ == spec_card_service_url(),
{
    "http://card.cqu.edu.cn:7280/ias/prelogin?sysid=FWDT"
}

/// The view of the card hall-ticket endpoint, also the continuation the
/// ticket is redeemed against.
pub open spec fn spec_card_hall_ticket_url() -> Seq<char> {
    "http://card.cqu.edu.cn/cassyno/index"@
}

/// The card hall-ticket endpoint.
pub fn card_hall_ticket_url() -> (r: &'static str)
    ensures
        r@ == spec_card_hall_ticket_url(),
{
    "http://card.cqu.edu.cn/cassyno/index"
}

/// The view of the card page endpoint the page ticket is scraped from.
pub open spec fn spec_card_page_url() -> Seq<char> {
    "http://card.cqu.edu.cn/Page/Page"@
}

/// The card page endpoint the page ticket is scraped from.
pub fn card_page_url() -> (r: &'static str)
    ensures
        r@ == spec_card_page_url(),
{
    "http://card.cqu.edu.cn/Page/Page"
}

/// The view of the target URL named in the page-ticket form.
pub open spec fn spec_card_page_ticket_post_form_url() -> Seq<char> {
    "http://card.cqu.edu.cn:8080/blade-auth/token/thirdToToken/fwdt"@
}

/// The target URL named in the page-ticket form.
pub fn card_page_ticket_post_form_url() -> (r: &'static str)
    ensures
        r@ == spec_card_page_ticket_post_form_url(),
{
    "http://card.cqu.edu.cn:8080/blade-auth/token/thirdToToken/fwdt"
}

/// The view of the card token endpoint the page ticket is redeemed at.
pub open spec fn spec_card_blade_auth_url() -> Seq<char> {
    "http://card.cqu.edu.cn:8080/blade-auth/token/fwdt"@
}

/// The card token endpoint the page ticket is redeemed at.
pub fn card_blade_auth_url() -> (r: &'static str)
    ensures
        r@ == spec_card_blade_auth_url(),
{
    "http://card.cqu.edu.cn:8080/blade-auth/token/fwdt"
}

/// The view of the dormitory-fee endpoint.
pub open spec fn spec_card_get_dorm_fee_url() -> Seq<char> {
    "http://card.cqu.edu.cn:8080/charge/feeitem/getThirdData"@
}

/// The dormitory-fee endpoint.
pub fn card_get_dorm_fee_url() -> (r: &'static str)
    ensures
        r@ == spec_card_get_dorm_fee_url(),
{
    "http://card.cqu.edu.cn:8080/charge/feeitem/getThirdData"
}

} // verus!
