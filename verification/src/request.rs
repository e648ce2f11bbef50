//! From the bytes of a request to the URL that it asks for.

use crate::outside::{decode_text, parse_url, parsed_url, utf8_error_text};
use crate::response::Response;
use crate::status::Code;
use vstd::prelude::*;
use vstd::string::StringExecFns;
use vstd::utf8::{decode_utf8, valid_utf8};

verus! {

/// The longest request that is answered, in bytes.
pub const REQUEST_LIMIT: usize = 1024;

/// How many bytes of a request are read at most. It is more than the limit,
/// so that a request over the limit can be told from one that meets it.
pub const READ_BUFFER_SIZE: usize = 2048;

/// The parts of a request's URL that the server looks at.
#[derive(Clone, Debug, PartialEq, Eq)]
pub struct RequestUrl {
    /// The path, still percent-encoded.
    pub path: String,
    /// The query, still percent-encoded, where the URL has one.
    pub query: Option<String>,
}

impl View for RequestUrl {
    type V = (Seq<char>, Option<Seq<char>>);

    open spec fn view(&self) -> (Seq<char>, Option<Seq<char>>) {
        (
            self.path@,
            match self.query {
                Some(q) => Some(q@),
                None => None,
            },
        )
    }
}

/// The meta field of the refusal of a request that could not be read.
pub open spec fn read_failed_text(reason: Seq<char>) -> Seq<char> {
    "Failed to get url : "@ + reason + " "@
}

/// The meta field of the refusal of a request over the limit.
pub open spec fn too_long_text() -> Seq<char> {
    "request exceeds 1024 bytes"@
}

/// The meta field of the refusal of a request that is not UTF-8.
pub open spec fn not_utf8_text(reason: Seq<char>) -> Seq<char> {
    "url is not valid UTF-8 : "@ + reason
}

/// The meta field of the refusal of a request that is no URL.
pub open spec fn not_url_text(reason: Seq<char>) -> Seq<char> {
    "url is valid : "@ + reason
}

/// What becomes of a request: the path and query of its URL, or the meta
/// field of the `BadRequest` that refuses it. The checks come in this order:
/// the read, the length, the encoding, the URL.
pub open spec fn request_outcome(read: Result<Seq<u8>, Seq<char>>) -> Result<
    (Seq<char>, Option<Seq<char>>),
    Seq<char>,
> {
    match read {
        Err(reason) => Err(read_failed_text(reason)),
        Ok(bytes) => if bytes.len() > REQUEST_LIMIT {
            Err(too_long_text())
        } else if !valid_utf8(bytes) {
            Err(not_utf8_text(utf8_error_text(bytes)))
        } else {
            match parsed_url(decode_utf8(bytes)) {
                Ok(url) => Ok(url),
                Err(reason) => Err(not_url_text(reason)),
            }
        },
    }
}

/// The view of what was read: the bytes, or the words of the failure.
pub open spec fn read_view(read: Result<Vec<u8>, String>) -> Result<Seq<u8>, Seq<char>> {
    match read {
        Ok(bytes) => Ok(bytes@),
        Err(reason) => Err(reason@),
    }
}

/// A `BadRequest` with the given meta field.
pub fn bad_request(meta: String) -> (r: Response)
    ensures
        r.holds(Code::BadRequest, meta@, Seq::empty()),
{
    Response::BadRequest(meta)
}

/// Checks what one read gave: a failed read and a request over the limit are
/// refused, any other request is handed on as it is.
pub fn frame_request(read: Result<Vec<u8>, String>) -> (framed: Result<Vec<u8>, Response>)
    ensures
        match read {
            Err(reason) => framed matches Err(r) && r.holds(
                Code::BadRequest,
                read_failed_text(reason@),
                Seq::empty(),
            ),
            Ok(bytes) => if bytes@.len() > REQUEST_LIMIT {
                framed matches Err(r) && r.holds(Code::BadRequest, too_long_text(), Seq::empty())
            } else {
                framed matches Ok(kept) && kept@ == bytes@
            },
        },
{
    match read {
        Err(reason) => {
            let meta = String::from_str("Failed to get url : ").concat(reason.as_str()).concat(" ");
            Err(bad_request(meta))
        },
        Ok(bytes) => {
            if bytes.len() > REQUEST_LIMIT {
                Err(bad_request(String::from_str("request exceeds 1024 bytes")))
            } else {
                Ok(bytes)
            }
        },
    }
}

/// Hands on the text of a request, or refuses a request that is not UTF-8
/// with the words of the failure.
pub fn text_or_refusal(decoded: Result<String, String>) -> (text: Result<String, Response>)
    ensures
        match decoded {
            Ok(t) => text matches Ok(kept) && kept@ == t@,
            Err(reason) => text matches Err(r) && r.holds(
                Code::BadRequest,
                not_utf8_text(reason@),
                Seq::empty(),
            ),
        },
{
    match decoded {
        Ok(t) => Ok(t),
        Err(reason) => {
            let meta = String::from_str("url is not valid UTF-8 : ").concat(reason.as_str());
            Err(bad_request(meta))
        },
    }
}

/// Hands on the URL of a request, or refuses a request that is no URL with
/// the parser's words.
pub fn url_or_refusal(parsed: Result<RequestUrl, String>) -> (url: Result<RequestUrl, Response>)
    ensures
        match parsed {
            Ok(u) => url matches Ok(kept) && kept@ == u@,
            Err(reason) => url matches Err(r) && r.holds(
                Code::BadRequest,
                not_url_text(reason@),
                Seq::empty(),
            ),
        },
{
    match parsed {
        Ok(u) => Ok(u),
        Err(reason) => {
            let meta = String::from_str("url is valid : ").concat(reason.as_str());
            Err(bad_request(meta))
        },
    }
}

/// Turns what one read gave into the URL that the client asks for, or into
/// the `BadRequest` that tells the client why it gets none.
pub fn read_request(read: Result<Vec<u8>, String>) -> (request: Result<RequestUrl, Response>)
    ensures
        match request_outcome(read_view(read)) {
            Ok(url) => request matches Ok(u) && u@ == url,
            Err(meta) => request matches Err(r) && r.holds(Code::BadRequest, meta, Seq::empty()),
        },
        (read matches Ok(bytes) && bytes@.len() > REQUEST_LIMIT) ==> (request matches Err(r)
            && r.holds(Code::BadRequest, too_long_text(), Seq::empty())),
{
    let bytes = match frame_request(read) {
        Ok(bytes) => bytes,
        Err(refusal) => {
            return Err(refusal);
        },
    };
    let text = match text_or_refusal(decode_text(bytes.as_slice())) {
        Ok(text) => text,
        Err(refusal) => {
            return Err(refusal);
        },
    };
    proof {
        vstd::utf8::encode_utf8_decode_utf8(text@);
    }
    url_or_refusal(parse_url(text.as_str()))
}

} // verus!
