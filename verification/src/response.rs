//! Response formatting: turning a bridge outcome into an HTTP body.
//!
//! Two body shapes are in use. The raw passthrough returns a successful
//! payload verbatim and wraps an error text in a minimal one-element
//! `errors` list by literal substitution, with no escaping — a documented
//! fragility kept as-is. The structured envelope always produces a
//! `{"data": ..., "errors": ...}` object with exactly those two keys.
//! Every body is served with HTTP status 200: errors live in the body, not
//! in the status line.

use crate::bridge::outcome_view;
use vstd::prelude::*;

verus! {

/// The raw-passthrough error body: the error text, unescaped, substituted
/// into a one-element `errors` list.
pub open spec fn raw_error_body_text(error: Seq<char>) -> Seq<char> {
    "{\"errors\":[\""@ + error + "\"]}"@
}

/// The raw-passthrough body for a bridge outcome: a successful payload
/// verbatim, an error text wrapped in the minimal `errors` object.
pub open spec fn raw_body_text(outcome: Result<Seq<char>, Seq<char>>) -> Seq<char> {
    match outcome {
        Result::Ok(payload) => payload,
        Result::Err(error) => raw_error_body_text(error),
    }
}

/// Builds the raw-passthrough error body. The error text is substituted
/// literally: an embedded double quote or control character is not escaped.
pub fn raw_error_body(error: &str) -> (r: String)
    ensures
        r@ == raw_error_body_text(error@),
{
    let mut body = String::from_str("{\"errors\":[\"");
    body.append(error);
    body.append("\"]}");
    body
}

/// Builds the raw-passthrough body for a bridge outcome. Both HTTP routes
/// share this formatting: the body is a function of the outcome alone.
pub fn raw_response_body(outcome: Result<String, String>) -> (r: String)
    ensures
        r@ == raw_body_text(outcome_view(&outcome)),
{
    match outcome {
        Result::Ok(payload) => payload,
        Result::Err(error) => raw_error_body(error.as_str()),
    }
}

/// The response body depends on the bridge outcome alone, never on the HTTP
/// method that carried the request: two routes that decode to the same
/// outcome produce byte-identical bodies.
pub proof fn lemma_body_depends_on_outcome_alone(
    get_outcome: Result<Seq<char>, Seq<char>>,
    post_outcome: Result<Seq<char>, Seq<char>>,
)
    requires
        get_outcome == post_outcome,
    ensures
        raw_body_text(get_outcome) == raw_body_text(post_outcome),
{
}

/// The lower-case hexadecimal digit for a value below sixteen.
pub open spec fn hex_digit_char(n: int) -> char {
    if n == 0 {
        '0'
    } else if n == 1 {
        '1'
    } else if n == 2 {
        '2'
    } else if n == 3 {
        '3'
    } else if n == 4 {
        '4'
    } else if n == 5 {
        '5'
    } else if n == 6 {
        '6'
    } else if n == 7 {
        '7'
    } else if n == 8 {
        '8'
    } else if n == 9 {
        '9'
    } else if n == 10 {
        'a'
    } else if n == 11 {
        'b'
    } else if n == 12 {
        'c'
    } else if n == 13 {
        'd'
    } else if n == 14 {
        'e'
    } else {
        'f'
    }
}

/// The JSON string-literal encoding of one character: quote, backslash and
/// the named control characters get their two-character escapes, any other
/// control character its six-character escape, and everything else stands
/// for itself.
pub open spec fn escaped_char(c: char) -> Seq<char> {
    if c == '"' {
        "\\\""@
    } else if c == '\\' {
        "\\\\"@
    } else if c == '\n' {
        "\\n"@
    } else if c == '\r' {
        "\\r"@
    } else if c == '\t' {
        "\\t"@
    } else if (c as int) < 32 {
        "\\u00"@ + seq![hex_digit_char((c as int) / 16), hex_digit_char((c as int) % 16)]
    } else {
        seq![c]
    }
}

/// The JSON string-literal encoding of a text, character by character.
pub open spec fn json_escaped_text(s: Seq<char>) -> Seq<char>
    decreases s.len(),
{
    if s.len() == 0 {
        Seq::<char>::empty()
    } else {
        json_escaped_text(s.drop_last()) + escaped_char(s.last())
    }
}

/// Relies on String::push: appends the given character to the end of the
/// string. The standard library gives this method no further behaviour.
#[verifier::external_body]
fn push_char(s: &mut String, c: char)
    ensures
        final(s)@ == old(s)@.push(c),
{
    s.push(c);
}

/// The lower-case hexadecimal digit for a value below sixteen.
fn hex_digit(n: u32) -> (c: char)
    requires
        n < 16,
    ensures
        c == hex_digit_char(n as int),
{
    match n {
        0 => '0',
        1 => '1',
        2 => '2',
        3 => '3',
        4 => '4',
        5 => '5',
        6 => '6',
        7 => '7',
        8 => '8',
        9 => '9',
        10 => 'a',
        11 => 'b',
        12 => 'c',
        13 => 'd',
        14 => 'e',
        _ => 'f',
    }
}

/// Encodes a text as the contents of a JSON string literal.
pub fn json_escape(s: &str) -> (r: String)
    ensures
        r@ == json_escaped_text(s@),
{
    let mut out = String::new();
    let len = s.unicode_len();
    let mut i: usize = 0;
    while i < len
        invariant
            len == s@.len(),
            i <= len,
            out@ == json_escaped_text(s@.subrange(0, i as int)),
        decreases len - i,
    {
        let c = s.get_char(i);
        proof {
            assert(s@.subrange(0, i + 1).drop_last() =~= s@.subrange(0, i as int));
            assert(s@.subrange(0, i + 1).last() == c);
        }
        if c == '"' {
            out.append("\\\"");
        } else if c == '\\' {
            out.append("\\\\");
        } else if c == '\n' {
            out.append("\\n");
        } else if c == '\r' {
            out.append("\\r");
        } else if c == '\t' {
            out.append("\\t");
        } else if (c as u32) < 32 {
            out.append("\\u00");
            push_char(&mut out, hex_digit((c as u32) / 16));
            push_char(&mut out, hex_digit((c as u32) % 16));
            proof {
                assert(out@ =~= json_escaped_text(s@.subrange(0, i as int)) + escaped_char(c));
            }
        } else {
            push_char(&mut out, c);
            proof {
                assert(out@ =~= json_escaped_text(s@.subrange(0, i as int)) + escaped_char(c));
            }
        }
        i = i + 1;
    }
    proof {
        assert(s@.subrange(0, len as int) =~= s@);
    }
    out
}

/// The structured envelope with the given texts in its two fields.
pub open spec fn envelope_text(data_field: Seq<char>, errors_field: Seq<char>) -> Seq<char> {
    "{\"data\":"@ + data_field + ",\"errors\":"@ + errors_field + "}"@
}

/// The envelope for a payload that the caller's JSON parser accepted.
pub open spec fn structured_success_text(payload: Seq<char>) -> Seq<char> {
    envelope_text(payload, "null"@)
}

/// The envelope for a failed request: a null `data` field and a one-element
/// `errors` list holding the escaped error text.
pub open spec fn structured_failure_text(error: Seq<char>) -> Seq<char> {
    envelope_text("null"@, "[\""@ + json_escaped_text(error) + "\"]"@)
}

/// The structured-envelope body for a checked outcome.
pub open spec fn structured_body_text(checked: Result<Seq<char>, Seq<char>>) -> Seq<char> {
    match checked {
        Result::Ok(payload) => structured_success_text(payload),
        Result::Err(error) => structured_failure_text(error),
    }
}

/// Builds the structured-envelope body. `checked` is the outcome after the
/// caller has run its JSON parser over a successful bridge payload: a
/// payload the parser accepted, or the text of the parse failure or of the
/// bridge failure.
pub fn structured_body(checked: Result<String, String>) -> (r: String)
    ensures
        r@ == structured_body_text(outcome_view(&checked)),
{
    let mut body = String::from_str("{\"data\":");
    match checked {
        Result::Ok(payload) => {
            body.append(payload.as_str());
            body.append(",\"errors\":");
            body.append("null");
            body.append("}");
            proof {
                assert(body@ =~= structured_success_text(payload@));
            }
        },
        Result::Err(error) => {
            let escaped = json_escape(error.as_str());
            body.append("null");
            body.append(",\"errors\":");
            body.append("[\"");
            body.append(escaped.as_str());
            body.append("\"]");
            body.append("}");
            proof {
                assert(body@ =~= structured_failure_text(error@));
            }
        },
    }
    body
}

/// The structured envelope always carries exactly the two keys `data` and
/// `errors`, and at most one of the two fields is non-null for a one-shot
/// query: a successful payload rides in `data` with `errors` null, and any
/// failure rides in `errors` with `data` null.
pub proof fn lemma_envelope_fields(checked: Result<Seq<char>, Seq<char>>)
    ensures
        checked matches Result::Ok(payload) ==> structured_body_text(checked) == envelope_text(
            payload,
            "null"@,
        ),
        checked matches Result::Err(error) ==> structured_body_text(checked) == envelope_text(
            "null"@,
            "[\""@ + json_escaped_text(error) + "\"]"@,
        ),
{
}

/// The interactive query-editor page, served unchanged on every request.
pub const GRAPHIQL_PAGE: &'static str = "<!DOCTYPE html>\n<html>\n<head>\n<title>GraphiQL</title>\n<style>body{margin:0}#graphiql{height:100vh}</style>\n<link rel=\"stylesheet\" href=\"https://unpkg.com/graphiql/graphiql.min.css\"/>\n</head>\n<body>\n<div id=\"graphiql\">Loading...</div>\n<script src=\"https://unpkg.com/react/umd/react.production.min.js\"></script>\n<script src=\"https://unpkg.com/react-dom/umd/react-dom.production.min.js\"></script>\n<script src=\"https://unpkg.com/graphiql/graphiql.min.js\"></script>\n<script>\nReactDOM.render(\nReact.createElement(GraphiQL, {fetcher: GraphiQL.createFetcher({url: '/graphql'})}),\ndocument.getElementById('graphiql'));\n</script>\n</body>\n</html>\n";

/// The text of the interactive query-editor page.
pub open spec fn graphiql_page_text() -> Seq<char> {
    GRAPHIQL_PAGE@
}

/// The body of the query-editor route. The raw query string of the request
/// is taken and ignored: the page is the same static payload whatever the
/// request carried, and no engine state enters into it.
pub fn graphiql_body(_raw_query: &str) -> (r: &'static str)
    ensures
        r@ == graphiql_page_text(),
{
    GRAPHIQL_PAGE
}

} // verus!
