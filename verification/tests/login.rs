use growatt::{GrowattError, GrowattServer};

fn strings(values: &[&str]) -> Vec<String> {
    values.iter().map(|v| v.to_string()).collect()
}

fn logged_in() -> GrowattServer {
    let mut server = GrowattServer::new();
    let headers = strings(&["JSESSIONID=OLD; Path=/", "SERVERID=node1|x|y;Path=/"]);
    assert!(server.login(&headers, "{\"result\":1}".to_string()).is_ok());
    server
}

#[test]
fn login_derives_referer_from_session_cookie() {
    let mut server = GrowattServer::new();
    let headers = strings(&["JSESSIONID=ABC123; Path=/"]);
    let body = "{\"result\":1}".to_string();
    let outcome = server.login(&headers, body.clone());
    assert_eq!(outcome, Ok(body));
    assert_eq!(server.referer(), "https://server.growatt.com/index;jsessionid=ABC123");
    assert_eq!(server.cookie(), &strings(&["JSESSIONID=ABC123; Path=/"]));
}

#[test]
fn login_returns_the_raw_body() {
    let mut server = GrowattServer::new();
    let body = "{ \"back\" : \"dashboard\", \"result\" : 1 }".to_string();
    assert_eq!(server.login(&Vec::new(), body.clone()), Ok(body));
}

#[test]
fn login_keeps_session_and_server_cookies_in_order() {
    let mut server = GrowattServer::new();
    let headers = strings(&[
        "JSESSIONID=9F3C; Path=/; HttpOnly",
        "lang=en; Path=/",
        "SERVERID=4c5e|Zx|Zy;Path=/",
    ]);
    assert!(server.login(&headers, "{\"result\":1}".to_string()).is_ok());
    assert_eq!(
        server.cookie(),
        &strings(&["JSESSIONID=9F3C; Path=/; HttpOnly", "SERVERID=4c5e|Zx|Zy;Path=/"])
    );
    assert_eq!(server.referer(), "https://server.growatt.com/index;jsessionid=9F3C");
}

#[test]
fn login_keeps_a_value_twice_when_both_patterns_match() {
    let mut server = GrowattServer::new();
    let headers = strings(&["JSESSIONID=A1; SERVERID=s7"]);
    assert!(server.login(&headers, "{\"result\":1}".to_string()).is_ok());
    assert_eq!(
        server.cookie(),
        &strings(&["JSESSIONID=A1; SERVERID=s7", "JSESSIONID=A1; SERVERID=s7"])
    );
    assert_eq!(server.referer(), "https://server.growatt.com/index;jsessionid=A1");
}

#[test]
fn login_ignores_values_that_match_neither_pattern() {
    let mut server = GrowattServer::new();
    let headers = strings(&["theme=dark", "JSESSIONID=", "serverid=lower"]);
    assert!(server.login(&headers, "{\"result\":1}".to_string()).is_ok());
    assert!(server.cookie().is_empty());
    assert_eq!(server.referer(), "");
}

#[test]
fn login_takes_the_referer_from_the_last_session_cookie() {
    let mut server = GrowattServer::new();
    let headers = strings(&["JSESSIONID=first", "JSESSIONID=second; Path=/", "other=1"]);
    assert!(server.login(&headers, "{\"result\":2}".to_string()).is_ok());
    assert_eq!(server.referer(), "https://server.growatt.com/index;jsessionid=second");
    assert_eq!(server.cookie(), &strings(&["JSESSIONID=first", "JSESSIONID=second; Path=/"]));
}

#[test]
fn login_with_a_server_cookie_alone_keeps_it_without_referer() {
    let mut server = GrowattServer::new();
    let headers = strings(&["SERVERID=abc"]);
    assert!(server.login(&headers, "{\"result\":1}".to_string()).is_ok());
    assert_eq!(server.cookie(), &strings(&["SERVERID=abc"]));
    assert_eq!(server.referer(), "");
}

#[test]
fn login_without_set_cookie_leaves_the_session_empty() {
    let mut server = logged_in();
    assert_eq!(
        server.login(&Vec::new(), "{\"result\":1}".to_string()),
        Ok("{\"result\":1}".to_string())
    );
    assert!(server.cookie().is_empty());
    assert_eq!(server.referer(), "");
}

#[test]
fn login_failure_is_reported_and_clears_the_session() {
    let mut server = logged_in();
    let headers = strings(&["JSESSIONID=NEW; Path=/"]);
    let outcome = server.login(&headers, "{\"result\":0}".to_string());
    assert_eq!(outcome, Err(GrowattError::AuthenticationFailure));
    assert!(server.cookie().is_empty());
    assert_eq!(server.referer(), "");
}

#[test]
fn login_with_a_body_that_is_not_json_fails_closed() {
    let mut server = logged_in();
    let headers = strings(&["JSESSIONID=NEW; Path=/"]);
    let outcome = server.login(&headers, "<html>busy</html>".to_string());
    assert_eq!(outcome, Err(GrowattError::AuthenticationFailure));
    assert!(server.cookie().is_empty());
    assert_eq!(server.referer(), "");
}

#[test]
fn login_with_a_header_that_is_not_text_is_malformed() {
    let mut server = logged_in();
    let headers = strings(&["JSESSIONID=GOOD", "JSESSIONID=caf\u{e9}"]);
    let outcome = server.login(&headers, "{\"result\":1}".to_string());
    assert_eq!(outcome, Err(GrowattError::MalformedResponse));
    assert!(server.cookie().is_empty());
    assert_eq!(server.referer(), "");
}

#[test]
fn login_reports_a_bad_header_before_a_bad_body() {
    let mut server = GrowattServer::new();
    let headers = strings(&["SERVERID=\u{1}"]);
    let outcome = server.login(&headers, "{\"result\":0}".to_string());
    assert_eq!(outcome, Err(GrowattError::MalformedResponse));
}

#[test]
fn login_succeeds_after_a_failed_attempt() {
    let mut server = GrowattServer::new();
    let rejected = server.login(&strings(&["JSESSIONID=BAD; Path=/"]), "{\"result\":0}".to_string());
    assert_eq!(rejected, Err(GrowattError::AuthenticationFailure));
    let request = server.login_request("right", "secret");
    assert_eq!(request, GrowattServer::new().login_request("right", "secret"));
    let body = "{\"result\":1}".to_string();
    let accepted = server.login(&strings(&["JSESSIONID=GOOD; Path=/"]), body.clone());
    assert_eq!(accepted, Ok(body));
    assert_eq!(server.referer(), "https://server.growatt.com/index;jsessionid=GOOD");
    assert_eq!(server.cookie(), &strings(&["JSESSIONID=GOOD; Path=/"]));
}

#[test]
fn login_leaves_the_same_session_whatever_came_before() {
    let headers = strings(&["JSESSIONID=S1; Path=/", "SERVERID=n2"]);
    let mut fresh = GrowattServer::new();
    let mut used = logged_in();
    assert!(fresh.login(&headers, "{\"result\":1}".to_string()).is_ok());
    assert!(used.login(&headers, "{\"result\":1}".to_string()).is_ok());
    assert_eq!(fresh.cookie(), used.cookie());
    assert_eq!(fresh.referer(), used.referer());
    assert_eq!(fresh.server_url(), used.server_url());
}

#[test]
fn login_keeps_the_server_address() {
    let mut server = GrowattServer::with_server_url("http://localhost:8080/".to_string());
    assert!(server.login(&strings(&["JSESSIONID=Z"]), "{\"result\":1}".to_string()).is_ok());
    assert_eq!(server.server_url(), "http://localhost:8080/");
    assert!(server.login(&Vec::new(), "{}".to_string()).is_err());
    assert_eq!(server.server_url(), "http://localhost:8080/");
}

#[test]
fn new_client_has_no_session() {
    let server = GrowattServer::new();
    assert_eq!(server.server_url(), "https://server.growatt.com/");
    assert!(server.cookie().is_empty());
    assert_eq!(server.referer(), "");
    let default = GrowattServer::default();
    assert_eq!(default.server_url(), "https://server.growatt.com/");
    assert!(default.cookie().is_empty());
    assert_eq!(default.referer(), "");
}
