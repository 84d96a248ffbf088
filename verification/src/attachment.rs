//! Attachment downloads: the Base64 form of the content and the texts the
//! download tool answers with.

use base64::Engine;
use vstd::prelude::*;
use crate::text::{decimal_text, push_text, push_unsigned};

verus! {

/// A digit of the standard Base64 alphabet (RFC 4648): `A`-`Z`, `a`-`z`,
/// `0`-`9`, `+`, `/`.
pub open spec fn base64_digit(v: int) -> char {
    if v < 26 {
        (65 + v) as char
    } else if v < 52 {
        (97 + (v - 26)) as char
    } else if v < 62 {
        (48 + (v - 52)) as char
    } else if v == 62 {
        '+'
    } else {
        '/'
    }
}

/// Standard Base64 with `=` padding: each group of three bytes gives four
/// digits, a last group of one or two bytes is padded.
pub open spec fn base64_standard(b: Seq<u8>) -> Seq<char>
    decreases b.len(),
{
    if b.len() == 0 {
        Seq::empty()
    } else {
        let x = b[0] as int;
        if b.len() == 1 {
            seq![base64_digit(x / 4), base64_digit((x % 4) * 16), '=', '=']
        } else {
            let y = b[1] as int;
            if b.len() == 2 {
                seq![
                    base64_digit(x / 4),
                    base64_digit((x % 4) * 16 + y / 16),
                    base64_digit((y % 16) * 4),
                    '=',
                ]
            } else {
                let z = b[2] as int;
                seq![
                    base64_digit(x / 4),
                    base64_digit((x % 4) * 16 + y / 16),
                    base64_digit((y % 16) * 4 + z / 64),
                    base64_digit(z % 64),
                ] + base64_standard(b.skip(3))
            }
        }
    }
}

/// Calls `base64::engine::general_purpose::STANDARD.encode`. The encoder
/// panics when the length of its output overflows `usize`.
#[verifier::external_body]
fn encode_base64(bytes: &[u8]) -> (r: String)
    requires
        bytes@.len() / 3 * 4 + 4 <= usize::MAX,
    ensures
        r@ == base64_standard(bytes@),
{
    base64::engine::general_purpose::STANDARD.encode(bytes)
}

/// The content type, or `application/octet-stream` where none is known.
pub open spec fn media_type(content_type: Option<Seq<char>>) -> Seq<char> {
    match content_type {
        Some(t) => t,
        None => "application/octet-stream"@,
    }
}

/// The answer of the download tool when the content is returned inline: a
/// line about the file and a `data:` URL with the Base64 content.
pub open spec fn inline_download_text(filename: Seq<char>, bytes: Seq<u8>, content_type: Option<Seq<char>>) -> Seq<char> {
    "Příloha "@ + filename + " ("@ + decimal_text(bytes.len()) + " B, "@ + media_type(content_type)
        + "): base64 níže\n\ndata:"@ + media_type(content_type) + ";base64,"@ + base64_standard(bytes)
}

/// The answer of the download tool for content returned inline.
pub fn inline_download_message(filename: &str, bytes: &Vec<u8>, content_type: &Option<String>) -> (r: String)
    requires
        bytes@.len() / 3 * 4 + 4 <= usize::MAX,
    ensures
        r@ == inline_download_text(filename@, bytes@, content_type.deep_view()),
{
    let mut ct = String::new();
    match content_type {
        Some(t) => push_text(&mut ct, t.as_str()),
        None => push_text(&mut ct, "application/octet-stream"),
    }
    let mut s = String::new();
    push_text(&mut s, "Příloha ");
    push_text(&mut s, filename);
    push_text(&mut s, " (");
    push_unsigned(&mut s, bytes.len() as u64);
    push_text(&mut s, " B, ");
    push_text(&mut s, ct.as_str());
    push_text(&mut s, "): base64 níže\n\ndata:");
    push_text(&mut s, ct.as_str());
    push_text(&mut s, ";base64,");
    let encoded = encode_base64(bytes.as_slice());
    push_text(&mut s, encoded.as_str());
    assert(s@ =~= inline_download_text(filename@, bytes@, content_type.deep_view()));
    s
}

/// The answer of the download tool once the content was written to `path`.
pub open spec fn saved_download_text(path: Seq<char>, filename: Seq<char>, size: nat, content_type: Option<Seq<char>>) -> Seq<char> {
    "Příloha uložena: "@ + path + "\n  filename: "@ + filename + "\n  size: "@ + decimal_text(size)
        + " B\n  content_type: "@ + match content_type {
        Some(t) => t,
        None => "—"@,
    }
}

pub fn saved_download_message(path: &str, filename: &str, size: usize, content_type: &Option<String>) -> (r: String)
    ensures
        r@ == saved_download_text(path@, filename@, size as nat, content_type.deep_view()),
{
    let mut s = String::new();
    push_text(&mut s, "Příloha uložena: ");
    push_text(&mut s, path);
    push_text(&mut s, "\n  filename: ");
    push_text(&mut s, filename);
    push_text(&mut s, "\n  size: ");
    push_unsigned(&mut s, size as u64);
    push_text(&mut s, " B\n  content_type: ");
    match content_type {
        Some(t) => push_text(&mut s, t.as_str()),
        None => push_text(&mut s, "—"),
    }
    s
}

/// The answer of the download tool when writing the file failed.
pub fn save_failed_message(path: &str, error_text: &str) -> (r: String)
    ensures
        r@ == "Chyba zápisu '"@ + path@ + "': "@ + error_text@,
{
    let mut s = String::new();
    push_text(&mut s, "Chyba zápisu '");
    push_text(&mut s, path);
    push_text(&mut s, "': ");
    push_text(&mut s, error_text);
    s
}

} // verus!
