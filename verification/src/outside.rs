//! The calls into other crates. Verus takes the contracts in this file on
//! trust: each states what the called function's own source shows.

use crate::request::RequestUrl;
use vstd::prelude::*;
use vstd::utf8::{encode_utf8, valid_utf8};

verus! {

/// The upper-case hexadecimal digit, in ASCII, of a number below 16.
pub open spec fn hex_digit(n: u8) -> u8
    recommends
        n < 16,
{
    if n < 10 {
        (48 + n) as u8
    } else {
        (55 + n) as u8
    }
}

/// A percent sign and the two upper-case hexadecimal digits of `byte`.
pub open spec fn percent_triplet(byte: u8) -> Seq<u8> {
    seq![37u8, hex_digit(byte / 16), hex_digit(byte % 16)]
}

/// `percent_encoding::percent_encode_byte`: the escaped form of one byte.
/// The crate looks it up in a table of all 256 triplets, written with
/// upper-case digits; the contract states the table's entry.
#[verifier::external_body]
pub(crate) fn escape_byte(byte: u8) -> (triplet: &'static str)
    ensures
        encode_utf8(triplet@) == percent_triplet(byte),
{
    percent_encoding::percent_encode_byte(byte)
}

/// What percent-decoding makes of a text: every `%` with two hexadecimal
/// digits behind it becomes the byte they spell, and the bytes are then read
/// as UTF-8, with U+FFFD in place of what is not UTF-8.
pub uninterp spec fn percent_decoded(text: Seq<char>) -> Seq<char>;

/// `percent_encoding::percent_decode_str` followed by
/// `PercentDecode::decode_utf8_lossy`. Both are functions of the text alone;
/// the contract gives the outcome its name and claims nothing more of it.
#[verifier::external_body]
pub(crate) fn percent_decode_lossy(text: &str) -> (decoded: String)
    ensures
        decoded@ == percent_decoded(text@),
{
    percent_encoding::percent_decode_str(text).decode_utf8_lossy().to_string()
}

/// The media type that the extension of a path stands for, if it is a known
/// one.
pub uninterp spec fn guessed_mime(path: Seq<char>) -> Option<Seq<char>>;

/// `mime_guess::from_path` followed by `MimeGuess::first`, the media type
/// written out as text. The crate looks the path's extension up in a fixed
/// table and reads no file; the contract gives the outcome its name.
#[verifier::external_body]
pub(crate) fn guess_mime(path: &str) -> (guess: Option<String>)
    ensures
        match guess {
            Some(mime) => guessed_mime(path@) == Some(mime@),
            None => guessed_mime(path@).is_none(),
        },
{
    mime_guess::from_path(path).first().map(|mime| mime.to_string())
}

/// What the URL parser makes of a text: the path and the query of the URL,
/// or the words in which the parser refuses the text.
pub uninterp spec fn parsed_url(text: Seq<char>) -> Result<
    (Seq<char>, Option<Seq<char>>),
    Seq<char>,
>;

/// `url::Url::parse`, with `Url::path` and `Url::query` read from the URL it
/// gives, or its error written out as text. The contract gives the outcome
/// its name; it does not say which texts are URLs.
#[verifier::external_body]
pub(crate) fn parse_url(text: &str) -> (parsed: Result<RequestUrl, String>)
    ensures
        match parsed {
            Ok(url) => parsed_url(text@) == Ok::<(Seq<char>, Option<Seq<char>>), Seq<char>>(url@),
            Err(reason) => parsed_url(text@) == Err::<(Seq<char>, Option<Seq<char>>), Seq<char>>(
                reason@,
            ),
        },
{
    match url::Url::parse(text) {
        Ok(url) => Ok(
            RequestUrl { path: url.path().to_string(), query: url.query().map(|q| q.to_string()) },
        ),
        Err(error) => Err(error.to_string()),
    }
}

/// The words in which the standard library refuses bytes that are not UTF-8.
pub uninterp spec fn utf8_error_text(bytes: Seq<u8>) -> Seq<char>;

/// `std::str::from_utf8`: the text that the bytes spell, if they are valid
/// UTF-8, and otherwise the error written out as text.
#[verifier::external_body]
pub(crate) fn decode_text(bytes: &[u8]) -> (decoded: Result<String, String>)
    ensures
        match decoded {
            Ok(text) => valid_utf8(bytes@) && encode_utf8(text@) == bytes@,
            Err(reason) => !valid_utf8(bytes@) && reason@ == utf8_error_text(bytes@),
        },
{
    match std::str::from_utf8(bytes) {
        Ok(text) => Ok(text.to_string()),
        Err(error) => Err(error.to_string()),
    }
}

} // verus!
