//! The text form in which content travels.

use crate::index::{body_len_fits, Inscription};
use vstd::prelude::*;

verus! {

/// The standard base64 text, with padding, of `bytes`.
pub uninterp spec fn base64_text(bytes: Seq<u8>) -> Seq<char>;

/// The bytes that `text` is the standard base64 text of, if it is one.
pub uninterp spec fn base64_bytes(text: Seq<char>) -> Option<Seq<u8>>;

/// Calls `base64::Engine::encode` of the `STANDARD` engine. Trusted: the text
/// is a function of the bytes alone, has four characters for every three
/// bytes begun, and decodes back to the bytes. The outside function fails
/// where that length does not fit in a machine word, which `requires` leaves
/// out.
#[verifier::external_body]
pub(crate) fn encode_standard(bytes: &Vec<u8>) -> (r: String)
    requires
        body_len_fits(bytes@.len()),
    ensures
        r@ == base64_text(bytes@),
        r@.len() == 4 * ((bytes@.len() + 2) / 3),
        base64_bytes(r@) == Some(bytes@),
{
    base64::Engine::encode(&base64::engine::general_purpose::STANDARD, bytes)
}

/// Calls `base64::Engine::decode` of the `STANDARD` engine. Trusted: the
/// outcome is a function of the text alone, and `None` stands for the
/// outside error.
#[verifier::external_body]
pub(crate) fn decode_standard(text: &str) -> (r: Option<Vec<u8>>)
    ensures
        (match r {
            Some(b) => Some(b@),
            None => None,
        }) == base64_bytes(text@),
{
    match base64::Engine::decode(&base64::engine::general_purpose::STANDARD, text) {
        Ok(bytes) => Some(bytes),
        Err(_) => None,
    }
}

/// The content field for a body: its base64 text, or nothing for no body.
pub open spec fn content_text(body: Option<Seq<u8>>) -> Seq<char> {
    match body {
        Some(b) => base64_text(b),
        None => Seq::empty(),
    }
}

/// The content field for an inscription: empty where it has no body or an
/// empty one, and text that decodes back to the body otherwise.
pub fn encode_content(inscription: &Inscription) -> (r: String)
    ensures
        content_matches(inscription.spec_body(), r@),
{
    match inscription.body() {
        Some(b) => encode_standard(b),
        None => String::new(),
    }
}

/// The bytes that a content field carries; `None` where it is no base64 text.
pub fn decode_content(content: &String) -> (r: Option<Vec<u8>>)
    ensures
        (match r {
            Some(b) => Some(b@),
            None => None,
        }) == base64_bytes(content@),
{
    decode_standard(content.as_str())
}

/// Whether `content` is the content field for `body`: its text, empty only
/// for no body or an empty one, and text that decodes back to the body.
pub open spec fn content_matches(body: Option<Seq<u8>>, content: Seq<char>) -> bool {
    &&& content == content_text(body)
    &&& content.len() == 0 <==> (body matches Some(b) ==> b.len() == 0)
    &&& body matches Some(b) ==> base64_bytes(content) == Some(b)
}

} // verus!
