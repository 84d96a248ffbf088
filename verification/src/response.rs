//! What the client makes of an HTTP response: the error for a failed
//! status, an empty object for a blank body, or the parsed JSON.

use vstd::prelude::*;
use crate::text::{chars_of, decimal_text, push_text, push_signed, push_unsigned, signed_text};

verus! {

#[verifier::external_type_specification]
#[verifier::external_body]
pub struct ExJsonValue(serde_json::Value);

/// An API failure: the HTTP status and a message.
pub struct ApiFailure {
    pub status: u16,
    pub message: String,
}

/// A successful response body.
pub enum ResponseBody {
    /// The body was blank; it stands for an empty JSON object.
    EmptyObject,
    Json(serde_json::Value),
}

/// A status in 200..=299.
pub open spec fn is_success_status(code: u16) -> bool {
    200 <= code < 300
}

/// The status is a success (`StatusCode::is_success`).
pub fn status_is_success(code: u16) -> (r: bool)
    ensures
        r == is_success_status(code),
{
    200 <= code && code < 300
}

/// The characters with the Unicode property White_Space, which is what
/// `char::is_whitespace` and `str::trim` go by.
pub open spec fn is_white_space(c: char) -> bool {
    let n = c as u32;
    ||| 0x9 <= n <= 0xD
    ||| n == 0x20
    ||| n == 0x85
    ||| n == 0xA0
    ||| n == 0x1680
    ||| 0x2000 <= n <= 0x200A
    ||| n == 0x2028
    ||| n == 0x2029
    ||| n == 0x202F
    ||| n == 0x205F
    ||| n == 0x3000
}

/// Nothing but white space (`text.trim().is_empty()`).
pub open spec fn is_blank(text: Seq<char>) -> bool {
    forall|i: int| 0 <= i < text.len() ==> #[trigger] is_white_space(text[i])
}

fn white_space(c: char) -> (r: bool)
    ensures
        r == is_white_space(c),
{
    let n = c as u32;
    (0x9 <= n && n <= 0xD) || n == 0x20 || n == 0x85 || n == 0xA0 || n == 0x1680 || (0x2000 <= n
        && n <= 0x200A) || n == 0x2028 || n == 0x2029 || n == 0x202F || n == 0x205F || n == 0x3000
}

/// Whether the text is blank.
pub fn text_is_blank(text: &str) -> (r: bool)
    ensures
        r == is_blank(text@),
{
    let cs = chars_of(text);
    let mut k: usize = 0;
    while k < cs.len()
        invariant
            k <= cs.len(),
            cs@ == text@,
            forall|i: int| 0 <= i < k ==> #[trigger] is_white_space(cs@[i]),
        decreases cs.len() - k,
    {
        if !white_space(cs[k]) {
            return false;
        }
        k = k + 1;
    }
    true
}

/// The reason phrase that the `http` crate knows for a status code
/// (`StatusCode::canonical_reason`).
pub uninterp spec fn http_canonical_reason(code: u16) -> Option<Seq<char>>;

/// Calls `reqwest::StatusCode::from_u16(code)` and its `canonical_reason`.
/// `from_u16` accepts codes from 100 to 999.
#[verifier::external_body]
fn canonical_reason(code: u16) -> (r: Option<String>)
    requires
        100 <= code <= 999,
    ensures
        r.deep_view() == http_canonical_reason(code),
{
    reqwest::StatusCode::from_u16(code).unwrap().canonical_reason().map(|s| s.to_string())
}

/// How a status code is displayed: the code and its reason phrase.
pub open spec fn status_display(code: u16) -> Seq<char> {
    decimal_text(code as nat) + " "@ + match http_canonical_reason(code) {
        Some(r) => r,
        None => "<unknown status code>"@,
    }
}

/// The text of a status code as `StatusCode` displays it.
pub fn status_text(code: u16) -> (r: String)
    requires
        100 <= code <= 999,
    ensures
        r@ == status_display(code),
{
    let mut s = String::new();
    push_unsigned(&mut s, code as u64);
    push_text(&mut s, " ");
    match canonical_reason(code) {
        Some(reason) => push_text(&mut s, reason.as_str()),
        None => push_text(&mut s, "<unknown status code>"),
    }
    s
}

/// The error text of `serde_json::from_str::<Value>(text)`, or `None` when
/// it parses.
pub uninterp spec fn serde_json_parse_error(text: Seq<char>) -> Option<Seq<char>>;

/// The value that `serde_json::from_str::<Value>(text)` parses a text to.
pub uninterp spec fn serde_json_parsed_value(text: Seq<char>) -> serde_json::Value;

/// Calls `serde_json::from_str::<serde_json::Value>`; the error is taken as
/// its display text. The contract says when the text parses, to which value
/// (named `serde_json_parsed_value`), and what the error reads.
#[verifier::external_body]
fn parse_json(text: &str) -> (r: Result<serde_json::Value, String>)
    ensures
        match r {
            Ok(v) => serde_json_parse_error(text@) is None && v == serde_json_parsed_value(text@),
            Err(e) => serde_json_parse_error(text@) == Some(e@),
        },
{
    serde_json::from_str::<serde_json::Value>(text).map_err(|e| e.to_string())
}

/// The message of a failed status.
pub open spec fn http_error_message(code: u16, error_text: Seq<char>) -> Seq<char> {
    "HTTP error "@ + status_display(code) + ": "@ + error_text
}

/// The message of a body that is not JSON.
pub open spec fn json_error_message(parse_error: Seq<char>, body: Seq<char>) -> Seq<char> {
    "Chyba parsování JSON: "@ + parse_error + ". Response: "@ + body
}

/// What a response comes to. A failed status gives an API error with the
/// status and the error text; a blank body gives an empty object; a JSON
/// body gives its parsed value; a body that is not JSON gives an API error
/// with status 500.
pub fn interpret_response(status: u16, body: String) -> (r: Result<ResponseBody, ApiFailure>)
    requires
        100 <= status <= 999,
    ensures
        !is_success_status(status) ==> (r matches Err(e) && e.status == status && e.message@
            == http_error_message(status, body@)),
        is_success_status(status) && is_blank(body@) ==> r matches Ok(ResponseBody::EmptyObject),
        is_success_status(status) && !is_blank(body@) ==> match serde_json_parse_error(body@) {
            None => (r matches Ok(ResponseBody::Json(v)) && v == serde_json_parsed_value(body@)),
            Some(p) => (r matches Err(e) && e.status == 500 && e.message@ == json_error_message(
                p,
                body@,
            )),
        },
{
    if !status_is_success(status) {
        let mut message = String::new();
        push_text(&mut message, "HTTP error ");
        let st = status_text(status);
        push_text(&mut message, st.as_str());
        push_text(&mut message, ": ");
        push_text(&mut message, body.as_str());
        return Err(ApiFailure { status, message });
    }
    if text_is_blank(body.as_str()) {
        return Ok(ResponseBody::EmptyObject);
    }
    match parse_json(body.as_str()) {
        Ok(v) => Ok(ResponseBody::Json(v)),
        Err(e) => {
            let mut message = String::new();
            push_text(&mut message, "Chyba parsování JSON: ");
            push_text(&mut message, e.as_str());
            push_text(&mut message, ". Response: ");
            push_text(&mut message, body.as_str());
            Err(ApiFailure { status: 500, message })
        },
    }
}

/// Whether a JSON value is an object with no members.
pub uninterp spec fn json_is_empty_object(v: serde_json::Value) -> bool;

/// Calls `serde_json::Value::as_object` and `Map::is_empty`: `true` exactly
/// for an object without members (named `json_is_empty_object`).
#[verifier::external_body]
fn is_empty_json_object(v: &serde_json::Value) -> (r: bool)
    ensures
        r == json_is_empty_object(*v),
{
    match v.as_object() {
        Some(m) => m.is_empty(),
        None => false,
    }
}

/// Whether the answer to an issue update carries no issue, so that the
/// issue must be read again: a blank body, or an empty JSON object.
pub fn update_reply_needs_reread(body: &ResponseBody) -> (r: bool)
    ensures
        r == match body {
            ResponseBody::EmptyObject => true,
            ResponseBody::Json(v) => json_is_empty_object(*v),
        },
{
    match body {
        ResponseBody::EmptyObject => true,
        ResponseBody::Json(v) => is_empty_json_object(v),
    }
}

/// Downloading an attachment fails on any status that is not a success.
pub fn check_download_status(status: u16, id: i32) -> (r: Result<(), ApiFailure>)
    ensures
        is_success_status(status) ==> r is Ok,
        !is_success_status(status) ==> (r matches Err(e) && e.status == status && e.message@
            == "Download failed for attachment "@ + signed_text(id as int)),
{
    if status_is_success(status) {
        Ok(())
    } else {
        let mut message = String::new();
        push_text(&mut message, "Download failed for attachment ");
        push_signed(&mut message, id as i64);
        Err(ApiFailure { status, message })
    }
}

/// Adding a watcher fails on any status that is not a success.
pub fn check_add_watcher_status(status: u16, issue_id: i32, user_id: i32) -> (r: Result<(), ApiFailure>)
    ensures
        is_success_status(status) ==> r is Ok,
        !is_success_status(status) ==> (r matches Err(e) && e.status == status && e.message@
            == "Add watcher "@ + signed_text(user_id as int) + " → issue "@ + signed_text(issue_id as int)
            + " failed"@),
{
    if status_is_success(status) {
        Ok(())
    } else {
        let mut message = String::new();
        push_text(&mut message, "Add watcher ");
        push_signed(&mut message, user_id as i64);
        push_text(&mut message, " → issue ");
        push_signed(&mut message, issue_id as i64);
        push_text(&mut message, " failed");
        Err(ApiFailure { status, message })
    }
}

/// Removing a watcher succeeds on a success status and on 404 (the user
/// was no watcher).
pub fn check_remove_watcher_status(status: u16, issue_id: i32, user_id: i32) -> (r: Result<(), ApiFailure>)
    ensures
        (is_success_status(status) || status == 404) ==> r is Ok,
        !(is_success_status(status) || status == 404) ==> (r matches Err(e) && e.status == status
            && e.message@ == "Remove watcher "@ + signed_text(user_id as int) + " from issue "@
            + signed_text(issue_id as int) + " failed"@),
{
    if status_is_success(status) || status == 404 {
        Ok(())
    } else {
        let mut message = String::new();
        push_text(&mut message, "Remove watcher ");
        push_signed(&mut message, user_id as i64);
        push_text(&mut message, " from issue ");
        push_signed(&mut message, issue_id as i64);
        push_text(&mut message, " failed");
        Err(ApiFailure { status, message })
    }
}

} // verus!
