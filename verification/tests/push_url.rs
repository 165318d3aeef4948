use kuma_agent::push::{build_push_url, push_reply_outcome, reply_outcome, PushError};

fn url(base: &str, token: &str, is_up: bool, latency: u128, msg: &str) -> String {
    match build_push_url(base, token, is_up, latency, msg) {
        Ok(u) => u,
        Err(e) => panic!("unexpected error: {}", e.message()),
    }
}

#[test]
fn short_token_is_appended_to_base_url() {
    assert_eq!(
        url("https://kuma.example.com", "s9fX2j90K1", true, 12, "OK"),
        "https://kuma.example.com/api/push/s9fX2j90K1?status=up&msg=OK&ping=12"
    );
}

#[test]
fn base_url_is_trimmed_and_loses_trailing_slashes() {
    assert_eq!(
        url("  https://kuma.example.com///  ", "  tok  ", false, 0, "Request timed out"),
        "https://kuma.example.com/api/push/tok?status=down&msg=Request timed out&ping=0"
    );
}

#[test]
fn pasted_push_url_reports_this_call() {
    let given = "https://kuma.yourdomain.com/api/push/s9fX2j90K1?status=up&msg=OK&ping=";
    assert_eq!(
        url("", given, false, 12, "Request timed out"),
        "https://kuma.yourdomain.com/api/push/s9fX2j90K1?status=down&msg=Request timed out&ping=12"
    );
    assert_eq!(
        url("https://other", &format!("  {}\t", given), true, 1, "OK"),
        "https://kuma.yourdomain.com/api/push/s9fX2j90K1?status=up&msg=OK&ping=1"
    );
}

#[test]
fn pasted_push_url_is_like_its_token() {
    let pasted = "https://kuma.yourdomain.com/api/push/s9fX2j90K1?status=up&msg=OK&ping=";
    assert_eq!(
        url("", pasted, false, 12, "Request timed out"),
        url("https://kuma.yourdomain.com/", "s9fX2j90K1", false, 12, "Request timed out")
    );
}

#[test]
fn full_url_placeholders_are_filled() {
    assert_eq!(
        url("", "http://k/api/push/t?status={STATUS}&msg={MSG}&ping={PING}", false, 340, "Port 9100 closed"),
        "http://k/api/push/t?status=down&msg=Port 9100 closed&ping=340"
    );
    assert_eq!(
        url("", "https://k/p?status={STATUS}&x={EXPING}&y={PING}{PING}", true, 7, "m"),
        "https://k/p?status=up&x=7&y=77"
    );
}

#[test]
fn full_url_without_status_gets_query_parameters() {
    assert_eq!(
        url("", "https://k/api/push/t", true, 3, "OK"),
        "https://k/api/push/t?status=up&ping=3&msg=OK"
    );
    assert_eq!(
        url("", "https://k/api/push/t?a=1", false, 0, "down now"),
        "https://k/api/push/t?a=1&status=down&ping=0&msg=down now"
    );
}

#[test]
fn message_placeholder_is_not_filled_twice() {
    assert_eq!(
        url("", "https://k/p?status=x&m={MSG}", true, 5, "{PING}"),
        "https://k/p?status=x&m={PING}"
    );
}

#[test]
fn large_latency_is_written_in_full() {
    assert_eq!(
        url("http://k", "t", true, u128::MAX, "OK"),
        format!("http://k/api/push/t?status=up&msg=OK&ping={}", u128::MAX)
    );
}

#[test]
fn blank_token_is_refused() {
    let e = build_push_url("https://kuma.example.com", " \t\u{3000} ", true, 1, "OK").unwrap_err();
    assert!(matches!(e, PushError::EmptyToken));
    assert_eq!(e.message(), "Empty push token");
}

#[test]
fn short_token_without_base_url_is_refused() {
    let e = build_push_url(" // ", "tok", true, 1, "OK").unwrap_err();
    assert!(matches!(e, PushError::MissingBaseUrl));
    assert_eq!(e.message(), "Kuma Base URL is not configured and token is not a full URL");
}

#[test]
fn success_codes_are_accepted() {
    assert_eq!(push_reply_outcome(200).unwrap(), 200);
    assert_eq!(push_reply_outcome(204).unwrap(), 204);
    assert_eq!(push_reply_outcome(299).unwrap(), 299);
}

#[test]
fn rejected_reply_names_the_status() {
    assert_eq!(push_reply_outcome(404).unwrap_err().message(), "Server returned HTTP 404 Not Found");
    assert_eq!(
        push_reply_outcome(500).unwrap_err().message(),
        "Server returned HTTP 500 Internal Server Error"
    );
    assert_eq!(
        push_reply_outcome(301).unwrap_err().message(),
        "Server returned HTTP 301 Moved Permanently"
    );
    assert_eq!(
        push_reply_outcome(599).unwrap_err().message(),
        "Server returned HTTP 599 <unknown status code>"
    );
}

#[test]
fn reply_outcome_keeps_the_reason() {
    assert_eq!(reply_outcome(201, None).unwrap(), 201);
    let e = reply_outcome(418, Some("I'm a teapot".to_string())).unwrap_err();
    assert_eq!(e.message(), "Server returned HTTP 418 I'm a teapot");
}

#[test]
fn network_error_message() {
    let e = PushError::Network { detail: "dns failure".to_string() };
    assert_eq!(e.message(), "Network error: dns failure");
}
