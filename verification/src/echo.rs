//! The echo service: a request for `/echo` is answered with its own query.

use crate::outside::{percent_decode_lossy, percent_decoded};
use crate::request::{read_request, read_view, request_outcome, RequestUrl};
use crate::response::Response;
use crate::status::Code;
use vstd::prelude::*;
use vstd::string::{StrSliceExecFns, StringExecFns};
use vstd::utf8::encode_utf8;

verus! {

/// What is served for every path but `/echo`.
pub const HELP_TEXT: &'static str =
    "# Echo\n\nThis server sends back what you type.\n\n=> /echo Type some text\n";

/// The first segment of the path is `echo`: the path is `/echo`, or begins
/// with `/echo/`.
pub open spec fn asks_echo(path: Seq<char>) -> bool {
    path.len() >= 5 && path.subrange(0, 5) == "/echo"@ && (path.len() == 5 || path[5] == '/')
}

/// The body that echoes a text: the text in UTF-8 and a line end.
pub open spec fn echo_text(decoded: Seq<char>) -> Seq<u8> {
    encode_utf8(decoded) + encode_utf8("\r\n"@)
}

/// The response of the echo service to a URL, given its decoded query.
pub open spec fn is_echo_answer(path: Seq<char>, decoded_query: Option<Seq<char>>, r: Response) -> bool {
    if asks_echo(path) {
        match decoded_query {
            Some(text) => r.holds(Code::Success, "text/plain"@, echo_text(text)),
            None => r.holds(Code::Input, "Please enter some text"@, Seq::empty()),
        }
    } else {
        r.holds(Code::Success, "text/gemini"@, encode_utf8(HELP_TEXT@))
    }
}

/// The response of the echo service to what one read of a connection gave:
/// the `BadRequest` of a request that is refused, and otherwise the answer
/// to the request's URL, with its query percent-decoded.
pub open spec fn is_echo_exchange(read: Result<Seq<u8>, Seq<char>>, r: Response) -> bool {
    match request_outcome(read) {
        Err(meta) => r.holds(Code::BadRequest, meta, Seq::empty()),
        Ok(url) => is_echo_answer(
            url.0,
            match url.1 {
                Some(q) => Some(percent_decoded(q)),
                None => None,
            },
            r,
        ),
    }
}

/// Whether the first segment of a path is `echo`.
pub fn is_echo_path(path: &str) -> (r: bool)
    ensures
        r == asks_echo(path@),
{
    let n: usize = path.unicode_len();
    if n < 5 {
        return false;
    }
    let head = String::from_str(path.substring_char(0, 5));
    let word = String::from_str("/echo");
    head == word && (n == 5 || path.get_char(5) == '/')
}

/// The response that echoes a decoded query.
pub fn echo_success(decoded: &str) -> (r: Response)
    ensures
        r.holds(Code::Success, "text/plain"@, echo_text(decoded@)),
{
    let mut body: Vec<u8> = Vec::new();
    body.extend_from_slice(decoded.as_bytes());
    body.extend_from_slice("\r\n".as_bytes());
    assert(body@ =~= echo_text(decoded@));
    Response::Success(String::from_str("text/plain"), body)
}

/// The response that asks the client for a text.
pub fn echo_prompt() -> (r: Response)
    ensures
        r.holds(Code::Input, "Please enter some text"@, Seq::empty()),
{
    Response::Input(String::from_str("Please enter some text"))
}

/// The response that explains the service.
pub fn echo_help() -> (r: Response)
    ensures
        r.holds(Code::Success, "text/gemini"@, encode_utf8(HELP_TEXT@)),
{
    let mut body: Vec<u8> = Vec::new();
    body.extend_from_slice(HELP_TEXT.as_bytes());
    assert(body@ =~= encode_utf8(HELP_TEXT@));
    Response::Success(String::from_str("text/gemini"), body)
}

/// Answers a URL: `/echo` with a query gets the percent-decoded query back,
/// `/echo` without one is asked for a text, every other path gets the help.
pub fn echo_response(url: &RequestUrl) -> (r: Response)
    ensures
        is_echo_answer(
            url@.0,
            match url@.1 {
                Some(q) => Some(percent_decoded(q)),
                None => None,
            },
            r,
        ),
{
    if is_echo_path(url.path.as_str()) {
        match &url.query {
            Some(q) => {
                let decoded = percent_decode_lossy(q.as_str());
                echo_success(decoded.as_str())
            },
            None => echo_prompt(),
        }
    } else {
        echo_help()
    }
}

/// Answers what one read of a connection gave: a request that is refused
/// gets its `BadRequest`, any other the echo service's response to its URL.
pub fn echo_exchange(read: Result<Vec<u8>, String>) -> (r: Response)
    ensures
        is_echo_exchange(read_view(read), r),
{
    match read_request(read) {
        Err(refusal) => refusal,
        Ok(url) => echo_response(&url),
    }
}

} // verus!
