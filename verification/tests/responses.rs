use ferrosonic::error::SubsonicError;
use ferrosonic::subsonic::response::{
    check_detail, check_ping, check_response, check_status, is_ok_status, ApiErrorBody,
};
use ferrosonic::text::{decimal_string, str_eq, strings_eq_ignore_ascii_case, trim_whitespace};

fn body(code: i32, message: &str) -> Option<ApiErrorBody> {
    Some(ApiErrorBody { code, message: message.to_string() })
}

fn api(r: Result<impl std::fmt::Debug, SubsonicError>) -> (i32, String) {
    match r {
        Err(SubsonicError::Api { code, message }) => (code, message),
        other => panic!("expected an API error, got {:?}", other),
    }
}

fn parse(r: Result<impl std::fmt::Debug, SubsonicError>) -> String {
    match r {
        Err(SubsonicError::Parse(m)) => m,
        other => panic!("expected a parse error, got {:?}", other),
    }
}

#[test]
fn only_ok_is_success() {
    assert!(is_ok_status("ok"));
    assert!(!is_ok_status("OK"));
    assert!(!is_ok_status("failed"));
    assert!(!is_ok_status(""));
}

#[test]
fn generic_request_checks() {
    assert_eq!(check_response("ok", None, Some(7)).unwrap(), 7);
    assert_eq!(parse(check_response::<i32>("ok", None, None)), "Empty response data");
    assert_eq!(api(check_response("failed", body(40, "Wrong username or password"), Some(1))), (40, "Wrong username or password".to_string()));
    assert_eq!(api(check_response::<i32>("failed", None, None)), (0, "Unknown error".to_string()));
}

#[test]
fn ping_fails_only_with_an_error() {
    assert!(check_ping("ok", body(10, "x")).is_ok());
    assert!(check_ping("failed", None).is_ok());
    assert_eq!(api(check_ping("failed", body(70, "Not found"))), (70, "Not found".to_string()));
}

#[test]
fn detail_checks_use_their_own_empty_message() {
    assert_eq!(check_detail("ok", None, Some("a"), "Empty artist data").unwrap(), "a");
    assert_eq!(check_detail("failed", None, Some("a"), "Empty artist data").unwrap(), "a");
    assert_eq!(parse(check_detail::<u8>("failed", None, None, "Empty album data")), "Empty album data");
    assert_eq!(api(check_detail::<u8>("failed", body(50, "denied"), None, "Empty playlist data")), (50, "denied".to_string()));
}

#[test]
fn status_checks_for_rating() {
    assert!(check_status("ok", None).is_ok());
    assert_eq!(api(check_status("failed", None)), (0, "Unknown error".to_string()));
    assert_eq!(api(check_status("failed", body(60, "trial"))), (60, "trial".to_string()));
}

#[test]
fn other_error_variants_exist() {
    let e = SubsonicError::AuthFailed;
    assert!(matches!(e, SubsonicError::AuthFailed));
    let e = SubsonicError::NotConfigured;
    assert!(matches!(e, SubsonicError::NotConfigured));
}

#[test]
fn text_helpers() {
    assert_eq!(decimal_string(0), "0");
    assert_eq!(decimal_string(48000), "48000");
    assert_eq!(decimal_string(u64::MAX), "18446744073709551615");
    assert!(str_eq("abc", "abc"));
    assert!(!str_eq("abc", "abd"));
    assert!(!str_eq("abc", "ab"));
    assert!(strings_eq_ignore_ascii_case("Rock", "rOCK"));
    assert!(!strings_eq_ignore_ascii_case("É", "é"));
    assert_eq!(trim_whitespace("  a b \t\n"), "a b");
    assert_eq!(trim_whitespace("\u{3000}x\u{a0}"), "x");
    assert_eq!(trim_whitespace("   "), "");
}
