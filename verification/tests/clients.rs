use brewfatherlog::brewfather::interpret_submit_response;
use brewfatherlog::errors::{BrewfatherError, GrainfatherError};
use brewfatherlog::grainfather::{
    complete_login, history_from_param, interpret_fermenter_list, prepare_login,
};

fn cookie(name: &str, value: &str) -> (Vec<u8>, Vec<u8>) {
    (name.as_bytes().to_vec(), value.as_bytes().to_vec())
}

#[test]
fn submit_ok_marker_is_success() {
    assert!(interpret_submit_response(200, "{\"result\":\"OK\"}".to_string()).is_ok());
}

#[test]
fn submit_success_marker_is_success() {
    assert!(interpret_submit_response(200, "{\"result\":\"success\"}".to_string()).is_ok());
}

#[test]
fn submit_other_marker_is_unexpected_result() {
    let err = interpret_submit_response(200, "{\"result\":\"failed\"}".to_string()).unwrap_err();
    assert_eq!(err, BrewfatherError::UnexpectedResult { result: "failed".to_string() });
}

#[test]
fn submit_empty_object_is_no_result() {
    let err = interpret_submit_response(200, "{}".to_string()).unwrap_err();
    assert_eq!(err, BrewfatherError::NoResult);
}

#[test]
fn submit_null_marker_is_no_result() {
    let err = interpret_submit_response(200, "{\"result\":null}".to_string()).unwrap_err();
    assert_eq!(err, BrewfatherError::NoResult);
}

#[test]
fn submit_unexpected_status_carries_body() {
    let err = interpret_submit_response(500, "oops".to_string()).unwrap_err();
    assert_eq!(
        err,
        BrewfatherError::UnexpectedStatusCode { status_code: 500, payload: "oops".to_string() }
    );
}

#[test]
fn submit_undecodable_ack_is_transport() {
    let err = interpret_submit_response(200, "not json".to_string()).unwrap_err();
    assert!(matches!(err, BrewfatherError::Transport { .. }));
    let err = interpret_submit_response(200, "{\"result\":5}".to_string()).unwrap_err();
    assert!(matches!(err, BrewfatherError::Transport { .. }));
}

#[test]
fn login_page_token_is_scraped() {
    let body = "var cfg = [a,\"csrfToken\":\"tok123\",b]".to_string();
    let prep = prepare_login(200, vec![cookie("sid", "abc")], body).unwrap();
    assert_eq!(prep.csrf_token, b"tok123".to_vec());
    assert_eq!(prep.cookie_headers, vec![b"sid=abc".to_vec()]);
}

#[test]
fn login_page_first_marked_segment_is_authoritative() {
    // the first comma-delimited segment mentioning the marker is used, even
    // if a later one also matches
    let body = "x,\"csrfToken\":\"first\",\"csrfToken\":\"second\"".to_string();
    let prep = prepare_login(200, vec![cookie("a", "b")], body).unwrap();
    assert_eq!(prep.csrf_token, b"first".to_vec());
}

#[test]
fn login_page_without_token_fails() {
    let err = prepare_login(200, vec![cookie("sid", "abc")], "nothing here".to_string())
        .unwrap_err();
    assert_eq!(err, GrainfatherError::UnableToFindCSRFToken);
}

#[test]
fn login_page_marked_segment_without_colon_fails() {
    let err =
        prepare_login(200, vec![cookie("sid", "abc")], "x,csrfToken,y".to_string()).unwrap_err();
    assert_eq!(err, GrainfatherError::UnableToFindCSRFToken);
}

#[test]
fn login_page_without_cookies_fails() {
    let err = prepare_login(200, vec![], "\"csrfToken\":\"t\"".to_string()).unwrap_err();
    assert_eq!(err, GrainfatherError::NoSetCookieHeader);
}

#[test]
fn login_page_with_unusable_cookie_fails() {
    let err = prepare_login(
        200,
        vec![cookie("sid", "a\nb")],
        "\"csrfToken\":\"t\"".to_string(),
    )
    .unwrap_err();
    assert_eq!(err, GrainfatherError::InvalidSetCookieHeader);
}

#[test]
fn login_page_unexpected_status_carries_body() {
    let err = prepare_login(503, vec![cookie("sid", "abc")], "down".to_string()).unwrap_err();
    assert_eq!(
        err,
        GrainfatherError::UnexpectedStatusCode { status_code: 503, payload: "down".to_string() }
    );
}

#[test]
fn login_completion_picks_remember_cookie() {
    let cookies = vec![cookie("other", "1"), cookie("remember_web_abc", "xyz")];
    let token = complete_login(200, cookies, String::new()).unwrap();
    assert_eq!(token, b"remember_web_abc=xyz".to_vec());
}

#[test]
fn login_completion_without_remember_cookie_fails() {
    let cookies = vec![cookie("other", "1"), cookie("remember", "xyz")];
    let err = complete_login(200, cookies, String::new()).unwrap_err();
    assert_eq!(err, GrainfatherError::UnableToFindAuthCookie);
}

#[test]
fn login_completion_unexpected_status_carries_body() {
    let err = complete_login(401, vec![], "denied".to_string()).unwrap_err();
    assert_eq!(
        err,
        GrainfatherError::UnexpectedStatusCode { status_code: 401, payload: "denied".to_string() }
    );
}

#[test]
fn fermenter_list_is_decoded() {
    let payload =
        "[{\"id\":7,\"name\":\"FermA\"},{\"id\":9,\"name\":\"FermB\",\"extra\":2}]".to_string();
    let fs = interpret_fermenter_list(200, payload).unwrap();
    assert_eq!(fs.len(), 2);
    assert_eq!(fs[0].id.as_u64(), 7);
    assert_eq!(fs[0].name, "FermA");
    assert_eq!(fs[1].id.as_u64(), 9);
    assert_eq!(fs[1].name, "FermB");
}

#[test]
fn fermenter_list_bad_payload_is_transport() {
    let err = interpret_fermenter_list(200, "[{\"id\":\"x\",\"name\":\"y\"}]".to_string())
        .unwrap_err();
    assert!(matches!(err, GrainfatherError::Transport { .. }));
    let err = interpret_fermenter_list(200, "{\"id\":1}".to_string()).unwrap_err();
    assert!(matches!(err, GrainfatherError::Transport { .. }));
}

#[test]
fn fermenter_list_unexpected_status_carries_body() {
    let err = interpret_fermenter_list(502, "bad".to_string()).unwrap_err();
    assert_eq!(
        err,
        GrainfatherError::UnexpectedStatusCode { status_code: 502, payload: "bad".to_string() }
    );
}

#[test]
fn history_from_param_formats_one_hour_lookback() {
    // one hour and 123 milliseconds after the epoch: the window starts at
    // 123 milliseconds
    let s = history_from_param(3_600_000 + 123).unwrap();
    assert_eq!(s, "1970-01-01T00:00:00.123Z");
}
