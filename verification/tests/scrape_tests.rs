use rsmycqu::page_parser::{card_access_parser, find_code, find_page_ticket, sso_login_parser};

#[test]
fn test_parse_code() {
    let location = "https://my.cqu.edu.cn/enroll/token-index?code=ZbfCVZ&state=";
    assert_eq!(find_code(location).unwrap(), "ZbfCVZ");
}

#[test]
fn find_code_needs_a_nonempty_code() {
    assert!(find_code("https://my.cqu.edu.cn/enroll/token-index?code=&state=").is_none());
    assert!(find_code("https://my.cqu.edu.cn/enroll/token-index?code=ZbfCVZ").is_none());
    assert!(find_code("https://my.cqu.edu.cn/enroll/token-index").is_none());
    // An empty first code does not hide a later, proper one.
    assert_eq!(find_code("x?code=&y?code=ab&z").unwrap(), "ab");
}

#[test]
fn page_ticket_is_cut_at_the_last_quote_of_the_line() {
    let body = "<html><script>window.location = \
                'http://card.cqu.edu.cn/page?ticket=4552BB7524AB492E83587A9E57E9E995'\n\
                </script></html>";
    assert_eq!(
        find_page_ticket(body).unwrap(),
        "4552BB7524AB492E83587A9E57E9E995"
    );
}

#[test]
fn page_ticket_takes_the_last_quote_greedily() {
    // Both quotes sit on the marker's line: the capture runs to the last.
    assert_eq!(find_page_ticket("ticket=AB'CD'\nrest").unwrap(), "AB'CD");
    // A quote on the next line does not count.
    assert!(find_page_ticket("ticket=AB\n'").is_none());
}

#[test]
fn login_page_scrape_reads_both_elements() {
    let html = "<html><body>\
                <p id=\"login-croypto\">IGEOE4OMIBo=</p>\
                <p id=\"login-page-flowkey\">e1s1</p>\
                </body></html>";
    let data = sso_login_parser(html).unwrap();
    assert_eq!(data.login_croypto, "IGEOE4OMIBo=");
    assert_eq!(data.login_page_flowkey, "e1s1");
}

#[test]
fn login_page_scrape_fails_without_either_element() {
    let only_croypto = "<p id=\"login-croypto\">IGEOE4OMIBo=</p>";
    assert!(sso_login_parser(only_croypto).is_none());
    let only_flowkey = "<p id=\"login-page-flowkey\">e1s1</p>";
    assert!(sso_login_parser(only_flowkey).is_none());
}

#[test]
fn card_page_scrape_reads_the_hidden_ticket() {
    let html = "<form><input type=\"hidden\" id=\"ssoticketid\" name=\"ssoticketid\" \
                value=\"4552BB7524AB492E83587A9E57E9E995\"></form>";
    assert_eq!(
        card_access_parser(html).unwrap(),
        "4552BB7524AB492E83587A9E57E9E995"
    );
}

#[test]
fn card_page_scrape_stays_inside_the_tag() {
    // The value sits in a later tag, past the ticket field's closing angle.
    let html = "<input id=\"ssoticketid\"><input value=\"other\">";
    assert!(card_access_parser(html).is_none());
}
