//! Messages between the agent and its settings page.
use vstd::prelude::*;

use crate::text::{chars_equal, chars_of, push_str, string_from_chars};

verus! {

/// `s` with each backslash and each single quote preceded by a backslash,
/// so that it can stand inside a single-quoted JavaScript string.
pub open spec fn escape_quoted(s: Seq<char>) -> Seq<char>
    decreases s.len(),
{
    if s.len() == 0 {
        Seq::empty()
    } else if s[0] == '\\' || s[0] == '\'' {
        seq!['\\', s[0]] + escape_quoted(s.drop_first())
    } else {
        seq![s[0]] + escape_quoted(s.drop_first())
    }
}

/// Reading back text escaped by `escape_quoted`: each backslash stands for
/// the character after it. On such text this is what a single-quoted
/// JavaScript string denotes; other JavaScript escapes (`\n`, `\u..`) are
/// not modelled, as escaped text holds none.
pub open spec fn unescape_quoted(s: Seq<char>) -> Seq<char>
    decreases s.len(),
{
    if s.len() == 0 {
        Seq::empty()
    } else if s[0] == '\\' && s.len() >= 2 {
        seq![s[1]] + unescape_quoted(s.subrange(2, s.len() as int))
    } else {
        seq![s[0]] + unescape_quoted(s.drop_first())
    }
}

/// The page reads back exactly the text that was escaped for it.
pub proof fn escape_round_trip(s: Seq<char>)
    ensures
        unescape_quoted(escape_quoted(s)) == s,
    decreases s.len(),
{
    if s.len() > 0 {
        escape_round_trip(s.drop_first());
        let e = escape_quoted(s);
        if s[0] == '\\' || s[0] == '\'' {
            assert(e.subrange(2, e.len() as int) =~= escape_quoted(s.drop_first()));
        } else {
            assert(e.drop_first() =~= escape_quoted(s.drop_first()));
        }
        assert(s =~= seq![s[0]] + s.drop_first());
    }
}

/// What JavaScript reads for the escape `\c` inside a string literal:
/// the single-character escapes `\b \f \n \r \t \v \0` stand for control
/// characters; numeric escapes (`\1`..`\9`, `\x`, `\u`) and line
/// continuations are not modelled (`None`); every other character stands
/// for itself.
pub open spec fn js_escape(c: char) -> Option<char> {
    let u = c as u32;
    if c == 'b' {
        Some('\u{8}')
    } else if c == 'f' {
        Some('\u{c}')
    } else if c == 'n' {
        Some('\n')
    } else if c == 'r' {
        Some('\r')
    } else if c == 't' {
        Some('\t')
    } else if c == 'v' {
        Some('\u{b}')
    } else if c == '0' {
        Some('\0')
    } else if (0x31 <= u <= 0x39) || c == 'x' || c == 'u' || c == '\n' || c == '\r' || u == 0x2028
        || u == 0x2029 {
        None
    } else {
        Some(c)
    }
}

/// The text that the body `s` of a single-quoted JavaScript string literal
/// denotes under JavaScript's escape rules, or `None` where `s` is no such
/// body (a lone backslash at the end, an unescaped quote or line break, or
/// an escape that is not modelled).
pub open spec fn js_quoted_value(s: Seq<char>) -> Option<Seq<char>>
    decreases s.len(),
{
    if s.len() == 0 {
        Some(Seq::empty())
    } else if s[0] == '\\' {
        if s.len() < 2 {
            None
        } else {
            match (js_escape(s[1]), js_quoted_value(s.subrange(2, s.len() as int))) {
                (Some(c), Some(r)) => Some(seq![c] + r),
                _ => None,
            }
        }
    } else if s[0] == '\'' || s[0] == '\n' || s[0] == '\r' {
        None
    } else {
        match js_quoted_value(s.drop_first()) {
            Some(r) => Some(seq![s[0]] + r),
            None => None,
        }
    }
}

/// Under JavaScript's own escape rules, the escaped text read as the body
/// of a single-quoted string denotes exactly the original text, whenever
/// that text holds no raw line break (JSON text never does).
pub proof fn escaped_text_reads_back_in_javascript(s: Seq<char>)
    requires
        forall|i: int| 0 <= i < s.len() ==> #[trigger] s[i] != '\n' && s[i] != '\r',
    ensures
        js_quoted_value(escape_quoted(s)) == Some(s),
    decreases s.len(),
{
    if s.len() > 0 {
        let rest = s.drop_first();
        assert forall|i: int| 0 <= i < rest.len() implies #[trigger] rest[i] != '\n' && rest[i]
            != '\r' by {
            assert(rest[i] == s[i + 1]);
        }
        escaped_text_reads_back_in_javascript(rest);
        let e = escape_quoted(s);
        if s[0] == '\\' || s[0] == '\'' {
            assert(e.subrange(2, e.len() as int) =~= escape_quoted(rest));
            assert(js_escape(s[0]) == Some(s[0]));
        } else {
            assert(e.drop_first() =~= escape_quoted(rest));
        }
        assert(s =~= seq![s[0]] + rest);
    }
}

/// Text without backslashes and quotes is handed to the page unchanged.
pub proof fn plain_text_is_not_escaped(s: Seq<char>)
    requires
        forall|i: int| 0 <= i < s.len() ==> #[trigger] s[i] != '\\' && s[i] != '\'',
    ensures
        escape_quoted(s) == s,
    decreases s.len(),
{
    if s.len() > 0 {
        let rest = s.drop_first();
        assert forall|i: int| 0 <= i < rest.len() implies #[trigger] rest[i] != '\\' && rest[i]
            != '\'' by {
            assert(rest[i] == s[i + 1]);
        }
        plain_text_is_not_escaped(rest);
        assert(s =~= seq![s[0]] + rest);
    }
}

/// The script that hands `json` to the settings page:
/// `window.postMessage('<json escaped>', '*')`.
pub fn post_message_script(json: &str) -> (js: String)
    ensures
        js@ == "window.postMessage('"@ + escape_quoted(json@) + "', '*')"@,
{
    let src = chars_of(json);
    let mut out = chars_of("window.postMessage('");
    let ghost head = out@;
    let mut i: usize = 0;
    proof {
        assert(src@.subrange(0, src.len() as int) =~= src@);
    }
    while i < src.len()
        invariant
            i <= src.len(),
            out@ + escape_quoted(src@.subrange(i as int, src.len() as int)) == head + escape_quoted(
                src@,
            ),
        decreases src.len() - i,
    {
        let c = src[i];
        let ghost before = out@;
        let ghost rest = src@.subrange(i as int, src.len() as int);
        proof {
            assert(rest.drop_first() =~= src@.subrange(i + 1, src.len() as int));
        }
        if c == '\\' || c == '\'' {
            out.push('\\');
            out.push(c);
            proof {
                assert(before + (seq!['\\', c] + escape_quoted(rest.drop_first())) =~= out@
                    + escape_quoted(rest.drop_first()));
            }
        } else {
            out.push(c);
            proof {
                assert(before + (seq![c] + escape_quoted(rest.drop_first())) =~= out@
                    + escape_quoted(rest.drop_first()));
            }
        }
        i = i + 1;
    }
    proof {
        assert(src@.subrange(i as int, src.len() as int) =~= Seq::<char>::empty());
        assert(out@ + Seq::<char>::empty() =~= out@);
    }
    push_str(&mut out, "', '*')");
    string_from_chars(&out)
}

/// What a message from the settings page asks for.
#[derive(Clone, Copy, Debug, PartialEq, Eq, Structural)]
pub enum PageRequest {
    /// The page asks for the current settings.
    RequestConfig,
    /// The page asks to be closed.
    CloseWindow,
    /// The message carries data (settings to save, or a device to test).
    Data,
}

/// What the message `msg` from the settings page asks for.
pub fn classify_page_message(msg: &str) -> (r: PageRequest)
    ensures
        msg@ == "request_config"@ ==> r == PageRequest::RequestConfig,
        msg@ != "request_config"@ && msg@ == "close_window"@ ==> r == PageRequest::CloseWindow,
        msg@ != "request_config"@ && msg@ != "close_window"@ ==> r == PageRequest::Data,
{
    let m = chars_of(msg);
    if chars_equal(&m, &chars_of("request_config")) {
        PageRequest::RequestConfig
    } else if chars_equal(&m, &chars_of("close_window")) {
        PageRequest::CloseWindow
    } else {
        PageRequest::Data
    }
}

} // verus!
