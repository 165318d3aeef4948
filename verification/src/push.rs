//! The push request that reports a monitor's state to Uptime Kuma:
//! which URL is requested, and what a reply means.
use vstd::prelude::*;

use crate::config::opt_view;

use crate::text::{
    before_char, chars_before, lacks_char, lemma_before_char_of_join, lemma_contains_middle,
    chars_contain, chars_of, chars_start_with, contains, decimal, decimal_chars, push_chars, push_str,
    replace_all, replace_chars, starts_with, string_from_chars, strip_trailing, strip_trailing_chars,
    trim, trim_chars,
};

verus! {

/// Why a push report did not reach Uptime Kuma.
#[derive(Debug)]
pub enum PushError {
    /// The push token is empty or blank.
    EmptyToken,
    /// The token is not a full URL and no base URL is configured.
    MissingBaseUrl,
    /// The server answered with a status outside `200..300`.
    Rejected { status_code: u16, reason: Option<String> },
    /// The request failed before a reply came back.
    Network { detail: String },
}

/// The status word of a report.
pub open spec fn status_word(is_up: bool) -> Seq<char> {
    if is_up {
        "up"@
    } else {
        "down"@
    }
}

/// A token that is already a complete push URL.
pub open spec fn is_full_url(token: Seq<char>) -> bool {
    starts_with(token, "http://"@) || starts_with(token, "https://"@)
}

/// The placeholders of a full push URL filled in, in the order status,
/// ping, extended ping, message.
pub open spec fn fill_placeholders(
    url: Seq<char>,
    status: Seq<char>,
    ping: Seq<char>,
    msg: Seq<char>,
) -> Seq<char> {
    replace_all(
        replace_all(replace_all(replace_all(url, "{STATUS}"@, status), "{PING}"@, ping), "{EXPING}"@, ping),
        "{MSG}"@,
        msg,
    )
}

/// A full URL that holds at least one placeholder.
pub open spec fn has_placeholder(url: Seq<char>) -> bool {
    ||| contains(url, "{STATUS}"@)
    ||| contains(url, "{PING}"@)
    ||| contains(url, "{EXPING}"@)
    ||| contains(url, "{MSG}"@)
}

/// A push URL as Uptime Kuma hands it out: no placeholders, and its own
/// `status=` value already in the query.
pub open spec fn is_pasted_push_url(url: Seq<char>) -> bool {
    !has_placeholder(url) && contains(url, "status="@)
}

/// The query of a report: its status, message and ping.
pub open spec fn report_query(is_up: bool, latency_ms: nat, msg: Seq<char>) -> Seq<char> {
    "?status="@ + status_word(is_up) + "&msg="@ + msg + "&ping="@ + decimal(latency_ms)
}

/// The URL requested for a token that is a full URL. A URL pasted from
/// Uptime Kuma keeps its address and gets this report's query in place of
/// the values it was handed out with. A URL with placeholders has them
/// filled in; where it then carries no `status=` parameter, the status,
/// ping and message are appended as query parameters.
pub open spec fn full_url_request(token: Seq<char>, is_up: bool, latency_ms: nat, msg: Seq<char>) -> Seq<char> {
    let u = fill_placeholders(token, status_word(is_up), decimal(latency_ms), msg);
    if is_pasted_push_url(token) {
        before_char(token, '?') + report_query(is_up, latency_ms, msg)
    } else if contains(u, "status="@) {
        u
    } else {
        u + (if contains(u, "?"@) { "&"@ } else { "?"@ }) + "status="@ + status_word(is_up)
            + "&ping="@ + decimal(latency_ms) + "&msg="@ + msg
    }
}

/// The configured base URL as it is used: trimmed, without trailing slashes.
pub open spec fn base_of(kuma_base_url: Seq<char>) -> Seq<char> {
    strip_trailing(trim(kuma_base_url), '/')
}

/// The URL requested for a short token under a base URL.
pub open spec fn short_token_request(
    base: Seq<char>,
    token: Seq<char>,
    is_up: bool,
    latency_ms: nat,
    msg: Seq<char>,
) -> Seq<char> {
    base + "/api/push/"@ + token + report_query(is_up, latency_ms, msg)
}

/// The URL that a push report requests, or why none can be built.
pub open spec fn push_url(
    kuma_base_url: Seq<char>,
    token: Seq<char>,
    is_up: bool,
    latency_ms: nat,
    msg: Seq<char>,
) -> Result<Seq<char>, PushError> {
    let t = trim(token);
    if t.len() == 0 {
        Err(PushError::EmptyToken)
    } else if is_full_url(t) {
        Ok(full_url_request(t, is_up, latency_ms, msg))
    } else if base_of(kuma_base_url).len() == 0 {
        Err(PushError::MissingBaseUrl)
    } else {
        Ok(short_token_request(base_of(kuma_base_url), t, is_up, latency_ms, msg))
    }
}

/// A push URL pasted from Uptime Kuma (no placeholders, its own `status=`
/// value) reports this call's status, message and ping: its address is
/// kept and its query is replaced by the report's.
pub proof fn pasted_push_url_reports_this_call(
    kuma_base_url: Seq<char>,
    token: Seq<char>,
    is_up: bool,
    latency_ms: nat,
    msg: Seq<char>,
)
    requires
        is_full_url(trim(token)),
        is_pasted_push_url(trim(token)),
    ensures
        push_url(kuma_base_url, token, is_up, latency_ms, msg) == Ok::<Seq<char>, PushError>(
            before_char(trim(token), '?') + report_query(is_up, latency_ms, msg),
        ),
{
    let t = trim(token);
    reveal_strlit("http://");
    assert(t.len() > 0) by {
        if t.len() == 0 {
            reveal_strlit("https://");
        }
    }
}

/// Pasting the full push URL `<base>/api/push/<token>?...` that Uptime
/// Kuma hands out reports exactly what the short token reports under that
/// base URL.
pub proof fn pasted_push_url_is_like_its_token(
    configured_base_url: Seq<char>,
    pasted: Seq<char>,
    kuma_base_url: Seq<char>,
    key: Seq<char>,
    query: Seq<char>,
    is_up: bool,
    latency_ms: nat,
    msg: Seq<char>,
)
    requires
        base_of(kuma_base_url).len() > 0,
        trim(key) == key,
        key.len() > 0,
        !is_full_url(key),
        lacks_char(base_of(kuma_base_url) + "/api/push/"@ + key, '?'),
        trim(pasted) == base_of(kuma_base_url) + "/api/push/"@ + key + seq!['?'] + query,
        is_full_url(trim(pasted)),
        is_pasted_push_url(trim(pasted)),
    ensures
        push_url(configured_base_url, pasted, is_up, latency_ms, msg) == push_url(
            kuma_base_url,
            key,
            is_up,
            latency_ms,
            msg,
        ),
{
    let page = base_of(kuma_base_url) + "/api/push/"@ + key;
    pasted_push_url_reports_this_call(configured_base_url, pasted, is_up, latency_ms, msg);
    lemma_before_char_of_join(page, '?', query);
    let rq = report_query(is_up, latency_ms, msg);
    assert(short_token_request(base_of(kuma_base_url), key, is_up, latency_ms, msg) =~= page + rq);
}

/// Every URL that a report requests carries a `status=` parameter, so that
/// Uptime Kuma never falls back to its default status.
pub proof fn every_push_url_carries_a_status(
    kuma_base_url: Seq<char>,
    token: Seq<char>,
    is_up: bool,
    latency_ms: nat,
    msg: Seq<char>,
)
    ensures
        push_url(kuma_base_url, token, is_up, latency_ms, msg) matches Ok(u) ==> contains(
            u,
            "status="@,
        ),
{
    reveal_strlit("?status=");
    reveal_strlit("status=");
    let t = trim(token);
    let word = status_word(is_up);
    let rest = word + "&msg="@ + msg + "&ping="@ + decimal(latency_ms);
    assert("?status="@ =~= seq!['?'] + "status="@);
    if t.len() > 0 {
        if is_full_url(t) {
            let u = fill_placeholders(t, word, decimal(latency_ms), msg);
            if is_pasted_push_url(t) {
                let head = before_char(t, '?') + seq!['?'];
                assert(before_char(t, '?') + report_query(is_up, latency_ms, msg) =~= head + "status="@
                    + rest);
                lemma_contains_middle(head, "status="@, rest);
            } else if !contains(u, "status="@) {
                let sep: Seq<char> = if contains(u, "?"@) {
                    "&"@
                } else {
                    "?"@
                };
                let tail = word + "&ping="@ + decimal(latency_ms) + "&msg="@ + msg;
                assert(u + sep + "status="@ + word + "&ping="@ + decimal(latency_ms) + "&msg="@ + msg
                    =~= (u + sep) + "status="@ + tail);
                lemma_contains_middle(u + sep, "status="@, tail);
            }
        } else if base_of(kuma_base_url).len() > 0 {
            let head = base_of(kuma_base_url) + "/api/push/"@ + t + seq!['?'];
            assert(short_token_request(base_of(kuma_base_url), t, is_up, latency_ms, msg) =~= head
                + "status="@ + rest);
            lemma_contains_middle(head, "status="@, rest);
        }
    }
}

/// A full URL that is not pasted from Uptime Kuma and whose filled-in form
/// names no status gets the report's status, ping and message appended as
/// query parameters; the URL then names this report's status.
pub proof fn unnamed_status_is_appended(
    kuma_base_url: Seq<char>,
    token: Seq<char>,
    is_up: bool,
    latency_ms: nat,
    msg: Seq<char>,
)
    requires
        is_full_url(trim(token)),
        !is_pasted_push_url(trim(token)),
        !contains(fill_placeholders(trim(token), status_word(is_up), decimal(latency_ms), msg), "status="@),
    ensures
        ({
            let u = fill_placeholders(trim(token), status_word(is_up), decimal(latency_ms), msg);
            let sep: Seq<char> = if contains(u, "?"@) {
                "&"@
            } else {
                "?"@
            };
            let url = u + sep + "status="@ + status_word(is_up) + "&ping="@ + decimal(latency_ms)
                + "&msg="@ + msg;
            &&& push_url(kuma_base_url, token, is_up, latency_ms, msg) == Ok::<Seq<char>, PushError>(url)
            &&& contains(url, "status="@ + status_word(is_up))
        }),
{
    reveal_strlit("http://");
    let t = trim(token);
    assert(t.len() > 0) by {
        if t.len() == 0 {
            reveal_strlit("https://");
        }
    }
    let u = fill_placeholders(t, status_word(is_up), decimal(latency_ms), msg);
    let sep: Seq<char> = if contains(u, "?"@) {
        "&"@
    } else {
        "?"@
    };
    let tail = "&ping="@ + decimal(latency_ms) + "&msg="@ + msg;
    assert(u + sep + "status="@ + status_word(is_up) + "&ping="@ + decimal(latency_ms) + "&msg="@ + msg
        =~= (u + sep) + ("status="@ + status_word(is_up)) + tail);
    lemma_contains_middle(u + sep, "status="@ + status_word(is_up), tail);
}

/// With a base URL configured, a short token always gives a URL under that
/// base, which reports the state that was asked for.
pub proof fn short_token_gets_base_url(
    kuma_base_url: Seq<char>,
    token: Seq<char>,
    is_up: bool,
    latency_ms: nat,
    msg: Seq<char>,
)
    requires
        trim(token).len() > 0,
        !is_full_url(trim(token)),
        base_of(kuma_base_url).len() > 0,
    ensures
        push_url(kuma_base_url, token, is_up, latency_ms, msg) matches Ok(url) && starts_with(
            url,
            base_of(kuma_base_url) + "/api/push/"@ + trim(token) + "?status="@ + status_word(is_up),
        ),
{
    let b = base_of(kuma_base_url);
    let prefix = b + "/api/push/"@ + trim(token) + "?status="@ + status_word(is_up);
    let url = short_token_request(b, trim(token), is_up, latency_ms, msg);
    assert(url.subrange(0, prefix.len() as int) =~= prefix);
}

/// A token that is not blank is never refused as empty. The reports that a
/// monitoring cycle plans carry such tokens only: a device report exists
/// only for a device whose token is not blank, and the heartbeat only where
/// the agent's token is not blank.
pub proof fn present_token_is_not_refused(
    kuma_base_url: Seq<char>,
    token: Seq<char>,
    is_up: bool,
    latency_ms: nat,
    msg: Seq<char>,
)
    requires
        trim(token).len() > 0,
    ensures
        !(push_url(kuma_base_url, token, is_up, latency_ms, msg) matches Err(PushError::EmptyToken)),
{
}

/// A built URL, taken by its characters.
pub open spec fn url_view(r: Result<String, PushError>) -> Result<Seq<char>, PushError> {
    match r {
        Ok(s) => Ok(s@),
        Err(e) => Err(e),
    }
}

/// The message that reports a failed push.
pub open spec fn error_text(e: PushError) -> Seq<char> {
    match e {
        PushError::EmptyToken => "Empty push token"@,
        PushError::MissingBaseUrl => "Kuma Base URL is not configured and token is not a full URL"@,
        PushError::Rejected { status_code, reason } => "Server returned HTTP "@ + decimal(
            status_code as nat,
        ) + " "@ + match reason {
            Some(s) => s@,
            None => "<unknown status code>"@,
        },
        PushError::Network { detail } => "Network error: "@ + detail@,
    }
}

impl PushError {
    /// The message that reports this failure.
    pub fn message(&self) -> (m: String)
        ensures
            m@ == error_text(*self),
    {
        let mut v: Vec<char> = Vec::new();
        match self {
            PushError::EmptyToken => push_str(&mut v, "Empty push token"),
            PushError::MissingBaseUrl => push_str(
                &mut v,
                "Kuma Base URL is not configured and token is not a full URL",
            ),
            PushError::Rejected { status_code, reason } => {
                push_str(&mut v, "Server returned HTTP ");
                push_chars(&mut v, &decimal_chars(*status_code as u128));
                push_str(&mut v, " ");
                match reason {
                    Some(s) => push_str(&mut v, s.as_str()),
                    None => push_str(&mut v, "<unknown status code>"),
                }
            },
            PushError::Network { detail } => {
                push_str(&mut v, "Network error: ");
                push_str(&mut v, detail.as_str());
            },
        }
        string_from_chars(&v)
    }
}

/// The URL that reports `is_up`, `latency_ms` and `msg` for `token`.
///
/// A token that starts with `http://` or `https://` (after trimming) is used
/// as the URL itself, with its placeholders `{STATUS}`, `{PING}`, `{EXPING}`
/// and `{MSG}` filled in; any other token is appended to the base URL as
/// `<base>/api/push/<token>?status=..&msg=..&ping=..`.
pub fn build_push_url(
    kuma_base_url: &str,
    token: &str,
    is_up: bool,
    latency_ms: u128,
    msg: &str,
) -> (r: Result<String, PushError>)
    ensures
        url_view(r) == push_url(kuma_base_url@, token@, is_up, latency_ms as nat, msg@),
{
    let t = trim_chars(&chars_of(token));
    if t.len() == 0 {
        return Err(PushError::EmptyToken);
    }
    let status = if is_up {
        chars_of("up")
    } else {
        chars_of("down")
    };
    let ping = decimal_chars(latency_ms);
    let msg_chars = chars_of(msg);
    if chars_start_with(&t, &chars_of("http://")) || chars_start_with(&t, &chars_of("https://")) {
        let p_status = chars_of("{STATUS}");
        let p_ping = chars_of("{PING}");
        let p_exping = chars_of("{EXPING}");
        let p_msg = chars_of("{MSG}");
        proof {
            reveal_strlit("{STATUS}");
            reveal_strlit("{PING}");
            reveal_strlit("{EXPING}");
            reveal_strlit("{MSG}");
        }
        let pasted = !(chars_contain(&t, &p_status) || chars_contain(&t, &p_ping) || chars_contain(
            &t,
            &p_exping,
        ) || chars_contain(&t, &p_msg)) && chars_contain(&t, &chars_of("status="));
        if pasted {
            let mut u = chars_before(&t, '?');
            push_str(&mut u, "?status=");
            push_chars(&mut u, &status);
            push_str(&mut u, "&msg=");
            push_chars(&mut u, &msg_chars);
            push_str(&mut u, "&ping=");
            push_chars(&mut u, &ping);
            assert(u@ =~= before_char(t@, '?') + report_query(is_up, latency_ms as nat, msg@));
            return Ok(string_from_chars(&u));
        }
        let u1 = replace_chars(&t, &p_status, &status);
        let u2 = replace_chars(&u1, &p_ping, &ping);
        let u3 = replace_chars(&u2, &p_exping, &ping);
        let mut u = replace_chars(&u3, &p_msg, &msg_chars);
        if !chars_contain(&u, &chars_of("status=")) {
            if chars_contain(&u, &chars_of("?")) {
                push_str(&mut u, "&");
            } else {
                push_str(&mut u, "?");
            }
            push_str(&mut u, "status=");
            push_chars(&mut u, &status);
            push_str(&mut u, "&ping=");
            push_chars(&mut u, &ping);
            push_str(&mut u, "&msg=");
            push_chars(&mut u, &msg_chars);
        }
        Ok(string_from_chars(&u))
    } else {
        let base = strip_trailing_chars(&trim_chars(&chars_of(kuma_base_url)), '/');
        if base.len() == 0 {
            return Err(PushError::MissingBaseUrl);
        }
        let mut u = base;
        push_str(&mut u, "/api/push/");
        push_chars(&mut u, &t);
        push_str(&mut u, "?status=");
        push_chars(&mut u, &status);
        push_str(&mut u, "&msg=");
        push_chars(&mut u, &msg_chars);
        push_str(&mut u, "&ping=");
        push_chars(&mut u, &ping);
        assert(u@ =~= short_token_request(
            base_of(kuma_base_url@),
            t@,
            is_up,
            latency_ms as nat,
            msg@,
        ));
        Ok(string_from_chars(&u))
    }
}

/// The reason phrase that the HTTP status registry gives `code`, if any.
pub uninterp spec fn canonical_reason(code: u16) -> Option<Seq<char>>;

/// Calls `reqwest::StatusCode::from_u16` and its `canonical_reason`: the
/// contract claims that the result is the registry's reason phrase for
/// `code`, named `canonical_reason`. `from_u16` accepts every code from 100
/// to 999, so the `Err` arm is never taken under `requires`.
#[verifier::external_body]
fn status_reason(code: u16) -> (r: Option<String>)
    requires
        100 <= code <= 999,
    ensures
        opt_view(r) == canonical_reason(code),
{
    match reqwest::StatusCode::from_u16(code) {
        Ok(status) => match status.canonical_reason() {
            Some(text) => Some(text.to_string()),
            None => None,
        },
        Err(_) => None,
    }
}

/// Whether an HTTP status code means success (`200..300`).
pub open spec fn is_success_code(code: u16) -> bool {
    200 <= code < 300
}

/// What a reply with status `code` and reason phrase `reason` means: the
/// code itself on success, otherwise a rejection that carries both.
pub fn reply_outcome(code: u16, reason: Option<String>) -> (r: Result<u16, PushError>)
    ensures
        is_success_code(code) ==> r == Ok::<u16, PushError>(code),
        !is_success_code(code) ==> r == Err::<u16, PushError>(
            PushError::Rejected { status_code: code, reason },
        ),
{
    if 200 <= code && code < 300 {
        Ok(code)
    } else {
        Err(PushError::Rejected { status_code: code, reason })
    }
}

/// What a reply with status `code` means, the rejection carrying the
/// registry's reason phrase for the code.
pub fn push_reply_outcome(code: u16) -> (r: Result<u16, PushError>)
    requires
        100 <= code <= 999,
    ensures
        is_success_code(code) ==> r == Ok::<u16, PushError>(code),
        !is_success_code(code) ==> (r matches Err(PushError::Rejected { status_code, reason })
            && status_code == code && opt_view(reason) == canonical_reason(code)),
{
    let reason = status_reason(code);
    reply_outcome(code, reason)
}

} // verus!
