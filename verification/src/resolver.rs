//! From the path of a request to the response: which file or directory of
//! the content root a path names, and what is served for it.
//!
//! The library reads no file. It says what is to be looked up, is handed
//! what the lookup found, and builds the response.

use crate::listing::{listing_body, listing_text, paths};
use crate::outside::{guess_mime, guessed_mime, percent_decode_lossy, percent_decoded};
use crate::request::{read_request, read_view, request_outcome, RequestUrl};
use crate::response::Response;
use crate::status::Code;
use vstd::prelude::*;
use vstd::string::{StrSliceExecFns, StringExecFns};
use vstd::utf8::encode_utf8;

verus! {

/// The file in the content root that is served as `robots.txt`.
pub const ROBOTS_FILE: &'static str = ".robots.txt";

/// The file in the content root whose text opens every listing.
pub const HEADER_FILE: &'static str = ".header.gmi";

/// The file in the content root whose text closes every listing.
pub const FOOTER_FILE: &'static str = ".footer.gmi";

/// The path below the content root that a decoded request path names: the
/// root itself, written `.`, for the empty path and for `/`; otherwise the
/// path without one leading slash.
pub open spec fn resolved(decoded: Seq<char>) -> Seq<char> {
    if decoded.len() == 0 || decoded == seq!['/'] {
        "."@
    } else if decoded[0] == '/' {
        decoded.subrange(1, decoded.len() as int)
    } else {
        decoded
    }
}

/// A segment `..` begins at `i`: two dots with a slash or an end of the path
/// on either side.
pub open spec fn is_parent_at(path: Seq<u8>, i: int) -> bool {
    &&& 0 <= i
    &&& i + 2 <= path.len()
    &&& path[i] == 0x2e
    &&& path[i + 1] == 0x2e
    &&& (i == 0 || path[i - 1] == 0x2f)
    &&& (i + 2 == path.len() || path[i + 2] == 0x2f)
}

/// A path may lead out of the content root: it begins at the root of the
/// file system, or one of its segments is `..`.
pub open spec fn escapes_root(path: Seq<u8>) -> bool {
    (path.len() > 0 && path[0] == 0x2f) || exists|i: int| is_parent_at(path, i)
}

/// What the server does first for a request path.
#[derive(Clone, Debug, PartialEq, Eq)]
pub enum Step {
    /// Nothing is looked up: this is the response.
    Reply(Response),
    /// The robots file is to be read.
    ReadRobots,
    /// The path is to be looked up below the content root.
    Inspect(String),
}

/// What a lookup below the content root found.
#[derive(Debug, PartialEq, Eq)]
pub enum Found {
    /// A directory, with the paths of its entries or the words in which the
    /// listing failed.
    Directory(Result<Vec<String>, String>),
    /// A regular file, with its bytes or the words in which the read failed.
    File(Result<Vec<u8>, String>),
    /// Nothing that can be served.
    Missing,
}

/// The first step for a decoded path: the robots file for `robots.txt`,
/// `NotFound` for a path that may lead out of the content root, and a lookup
/// of the resolved path for every other.
pub open spec fn is_first_step(decoded: Seq<char>, step: Step) -> bool {
    match step {
        Step::ReadRobots => resolved(decoded) == "robots.txt"@,
        Step::Reply(r) => resolved(decoded) != "robots.txt"@ && escapes_root(
            encode_utf8(resolved(decoded)),
        ) && r.holds(Code::NotFound, "Not found"@, Seq::empty()),
        Step::Inspect(path) => resolved(decoded) != "robots.txt"@ && !escapes_root(
            encode_utf8(resolved(decoded)),
        ) && path@ == resolved(decoded),
    }
}

/// The first step for what one read of a connection gave: the `BadRequest`
/// of a request that is refused, and otherwise the first step for the
/// percent-decoded path of the request's URL.
pub open spec fn is_reception(read: Result<Seq<u8>, Seq<char>>, step: Step) -> bool {
    match request_outcome(read) {
        Err(meta) => step matches Step::Reply(r) && r.holds(Code::BadRequest, meta, Seq::empty()),
        Ok(url) => is_first_step(percent_decoded(url.0), step),
    }
}

/// The media type of a file: the guess, or `text/gemini` without one.
pub open spec fn mime_or_default(guess: Option<Seq<char>>) -> Seq<char> {
    match guess {
        Some(mime) => mime,
        None => "text/gemini"@,
    }
}

/// The response to a lookup, given the media type guessed for the path.
pub open spec fn is_answer(
    path: Seq<char>,
    header: Seq<char>,
    footer: Seq<char>,
    found: Found,
    guess: Option<Seq<char>>,
    r: Response,
) -> bool {
    match found {
        Found::Missing => r.holds(Code::NotFound, "Not found"@, Seq::empty()),
        Found::Directory(Ok(entries)) => r.holds(
            Code::Success,
            "text/gemini"@,
            listing_text(header, path, paths(entries@), footer),
        ),
        Found::Directory(Err(reason)) => r.holds(
            Code::CgiError,
            "Failed to generate directory list : "@ + reason@,
            Seq::empty(),
        ),
        Found::File(Ok(bytes)) => r.holds(Code::Success, mime_or_default(guess), bytes@),
        Found::File(Err(reason)) => r.holds(
            Code::CgiError,
            "Failed to read file : "@ + reason@,
            Seq::empty(),
        ),
    }
}

/// Resolves a decoded request path against the content root.
pub fn resolve_path(decoded: &str) -> (path: String)
    ensures
        path@ == resolved(decoded@),
{
    let n: usize = decoded.unicode_len();
    if n == 0 {
        String::from_str(".")
    } else if decoded.get_char(0) == '/' {
        if n == 1 {
            proof {
                assert(decoded@ =~= seq!['/']);
            }
            String::from_str(".")
        } else {
            String::from_str(decoded.substring_char(1, n))
        }
    } else {
        String::from_str(decoded)
    }
}

/// Whether a path may lead out of the content root.
pub fn leaves_root(path: &[u8]) -> (r: bool)
    ensures
        r == escapes_root(path@),
{
    let n: usize = path.len();
    if n > 0 && path[0] == 0x2f {
        return true;
    }
    let mut i: usize = 0;
    while i < n
        invariant
            n == path.len(),
            i <= n,
            forall|k: int| 0 <= k < i ==> !is_parent_at(path@, k),
        decreases n - i,
    {
        if n - i >= 2 && path[i] == 0x2e && path[i + 1] == 0x2e && (i == 0 || path[i - 1] == 0x2f)
            && (i + 2 == n || path[i + 2] == 0x2f) {
            proof {
                assert(is_parent_at(path@, i as int));
            }
            return true;
        }
        i += 1;
    }
    false
}

/// `NotFound`, with the meta field that every missing path gets.
pub fn not_found() -> (r: Response)
    ensures
        r.holds(Code::NotFound, "Not found"@, Seq::empty()),
{
    Response::NotFound(String::from_str("Not found"))
}

/// Decides what is done first for a decoded request path.
///
/// A path that may lead out of the content root is answered at once with
/// `NotFound`: nothing is looked up for it.
pub fn begin(decoded: &str) -> (step: Step)
    ensures
        is_first_step(decoded@, step),
        step matches Step::Inspect(path) ==> !escapes_root(encode_utf8(path@)),
{
    let path = resolve_path(decoded);
    let robots = String::from_str("robots.txt");
    if path == robots {
        Step::ReadRobots
    } else if leaves_root(path.as_str().as_bytes()) {
        Step::Reply(not_found())
    } else {
        Step::Inspect(path)
    }
}

/// Decides what is done first for the URL of a request: its path is
/// percent-decoded and then resolved.
pub fn locate(url: &RequestUrl) -> (step: Step)
    ensures
        is_first_step(percent_decoded(url@.0), step),
        step matches Step::Inspect(path) ==> !escapes_root(encode_utf8(path@)),
{
    let decoded = percent_decode_lossy(url.path.as_str());
    begin(decoded.as_str())
}

/// Decides what is done first for what one read of a connection gave: a
/// request that is refused gets its `BadRequest`, any other the first step
/// for its URL.
pub fn receive(read: Result<Vec<u8>, String>) -> (step: Step)
    ensures
        is_reception(read_view(read), step),
        step matches Step::Inspect(path) ==> !escapes_root(encode_utf8(path@)),
{
    match read_request(read) {
        Err(refusal) => Step::Reply(refusal),
        Ok(url) => locate(&url),
    }
}

/// The response for `robots.txt`: the robots file as plain text, and an
/// empty text where the file could not be read. It is never a failure.
pub fn robots_response(read: Option<Vec<u8>>) -> (r: Response)
    ensures
        r.holds(
            Code::Success,
            "text/plain"@,
            match read {
                Some(bytes) => bytes@,
                None => Seq::empty(),
            },
        ),
{
    let body = match read {
        Some(bytes) => bytes,
        None => Vec::new(),
    };
    Response::Success(String::from_str("text/plain"), body)
}

/// The response that serves a file's bytes under the media type guessed for
/// it, or as `text/gemini` where there is no guess.
pub fn file_success(guess: Option<String>, bytes: Vec<u8>) -> (r: Response)
    ensures
        r.holds(
            Code::Success,
            mime_or_default(
                match guess {
                    Some(mime) => Some(mime@),
                    None => None,
                },
            ),
            bytes@,
        ),
{
    let mime = match guess {
        Some(mime) => mime,
        None => String::from_str("text/gemini"),
    };
    Response::Success(mime, bytes)
}

/// Builds the response to a lookup of `path`: a listing for a directory,
/// the bytes for a file, `NotFound` for nothing, and `CgiError` with the
/// words of the failure where the directory or the file could not be read.
///
/// A file is served as the bytes it holds, whatever they are, under the
/// media type that its extension stands for.
pub fn respond(path: &str, header: &str, footer: &str, found: Found) -> (r: Response)
    ensures
        is_answer(path@, header@, footer@, found, guessed_mime(path@), r),
{
    match found {
        Found::Missing => not_found(),
        Found::Directory(Ok(entries)) => {
            let body = listing_body(header, path, &entries, footer);
            Response::Success(String::from_str("text/gemini"), body)
        },
        Found::Directory(Err(reason)) => {
            let meta = String::from_str("Failed to generate directory list : ").concat(
                reason.as_str(),
            );
            Response::CgiError(meta)
        },
        Found::File(Ok(bytes)) => file_success(guess_mime(path), bytes),
        Found::File(Err(reason)) => {
            let meta = String::from_str("Failed to read file : ").concat(reason.as_str());
            Response::CgiError(meta)
        },
    }
}

/// Whatever the request path, only a path that stays below the content root
/// is ever looked up: a path that may lead out of it is answered with
/// `NotFound`, and nothing is read for it.
pub proof fn lemma_first_step_stays_inside(decoded: Seq<char>, step: Step)
    requires
        is_first_step(decoded, step),
    ensures
        step matches Step::Inspect(path) ==> !escapes_root(encode_utf8(path@)),
        escapes_root(encode_utf8(resolved(decoded))) ==> (step matches Step::Reply(r) && r.holds(
            Code::NotFound,
            "Not found"@,
            Seq::empty(),
        )),
{
    if step is ReadRobots {
        lemma_robots_path_stays_inside();
    }
}

/// The path `robots.txt` stays below the content root.
pub proof fn lemma_robots_path_stays_inside()
    ensures
        !escapes_root(encode_utf8("robots.txt"@)),
{
    reveal_strlit("robots.txt");
    let text = "robots.txt"@;
    let bytes = encode_utf8(text);
    assert(vstd::utf8::is_ascii_chars(text));
    vstd::utf8::is_ascii_chars_encode_utf8(text);
    assert(bytes.len() == 10);
    assert(bytes[0] == 0x72);
    assert forall|i: int| !is_parent_at(bytes, i) by {
        if 0 <= i && i + 2 <= bytes.len() {
            assert(bytes[i] == text[i] as u8);
            assert(bytes[i + 1] == text[i + 1] as u8);
        }
    }
}

} // verus!
