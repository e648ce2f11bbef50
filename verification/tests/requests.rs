use gemini_server::echo::{echo_exchange, echo_response, is_echo_path, HELP_TEXT};
use gemini_server::request::{
    frame_request, read_request, text_or_refusal, url_or_refusal, RequestUrl, READ_BUFFER_SIZE,
    REQUEST_LIMIT,
};
use gemini_server::response::Response;

fn url_of_length(n: usize) -> Vec<u8> {
    let mut text = "gemini://localhost/".to_string();
    while text.len() < n {
        text.push('a');
    }
    text.into_bytes()
}

#[test]
fn request_over_the_limit_is_refused() {
    assert_eq!(REQUEST_LIMIT, 1024);
    assert_eq!(READ_BUFFER_SIZE, 2048);
    let outcome = read_request(Ok(url_of_length(1025)));
    assert_eq!(outcome, Err(Response::BadRequest("request exceeds 1024 bytes".to_string())));
    let outcome = read_request(Ok(vec![0xff; 2048]));
    assert_eq!(outcome, Err(Response::BadRequest("request exceeds 1024 bytes".to_string())));
}

#[test]
fn request_of_exactly_the_limit_succeeds() {
    let bytes = url_of_length(1024);
    assert_eq!(bytes.len(), 1024);
    let url = read_request(Ok(bytes)).unwrap();
    assert_eq!(url.path.len(), 1024 - "gemini://localhost".len());
    assert!(url.path.starts_with("/aaa"));
    assert_eq!(url.query, None);
}

#[test]
fn failed_read_is_a_bad_request_with_the_reason() {
    let outcome = read_request(Err("connection reset".to_string()));
    assert_eq!(
        outcome,
        Err(Response::BadRequest("Failed to get url : connection reset ".to_string()))
    );
    assert_eq!(
        frame_request(Err("x".to_string())),
        Err(Response::BadRequest("Failed to get url : x ".to_string()))
    );
}

#[test]
fn framing_keeps_a_short_request() {
    assert_eq!(frame_request(Ok(b"abc".to_vec())), Ok(b"abc".to_vec()));
    assert_eq!(frame_request(Ok(vec![b'a'; 1024])), Ok(vec![b'a'; 1024]));
    assert_eq!(
        frame_request(Ok(vec![b'a'; 1025])),
        Err(Response::BadRequest("request exceeds 1024 bytes".to_string()))
    );
}

#[test]
fn request_that_is_not_utf8_is_refused() {
    let outcome = read_request(Ok(vec![b'g', 0xff, b'x']));
    assert_eq!(
        outcome,
        Err(Response::BadRequest(
            "url is not valid UTF-8 : invalid utf-8 sequence of 1 bytes from index 1".to_string()
        ))
    );
    assert_eq!(
        text_or_refusal(Err("why".to_string())),
        Err(Response::BadRequest("url is not valid UTF-8 : why".to_string()))
    );
    assert_eq!(text_or_refusal(Ok("t".to_string())), Ok("t".to_string()));
}

#[test]
fn request_that_is_no_url_is_refused() {
    let outcome = read_request(Ok(b"/just/a/path".to_vec()));
    assert_eq!(
        outcome,
        Err(Response::BadRequest("url is valid : relative URL without a base".to_string()))
    );
    assert_eq!(
        url_or_refusal(Err("why".to_string())),
        Err(Response::BadRequest("url is valid : why".to_string()))
    );
}

#[test]
fn empty_read_is_refused() {
    let outcome = read_request(Ok(Vec::new()));
    assert_eq!(
        outcome,
        Err(Response::BadRequest("url is valid : relative URL without a base".to_string()))
    );
}

#[test]
fn request_gives_path_and_query() {
    let url = read_request(Ok(b"gemini://example.org/a%20b/c?q=1%2F2#frag\r\n".to_vec())).unwrap();
    assert_eq!(url.path, "/a%20b/c");
    assert_eq!(url.query, Some("q=1%2F2".to_string()));
    let url = read_request(Ok("gemini://example.org/é".as_bytes().to_vec())).unwrap();
    assert_eq!(url.path, "/%C3%A9");
    assert_eq!(url.query, None);
}

#[test]
fn echo_returns_the_decoded_query() {
    let r = echo_exchange(Ok(b"gemini://localhost/echo?hello%20world".to_vec()));
    assert_eq!(r, Response::Success("text/plain".to_string(), b"hello world\r\n".to_vec()));
    assert_eq!(r.as_bytes(), b"20 text/plain\r\nhello world\r\n".to_vec());
}

#[test]
fn echo_without_query_asks_for_input() {
    let r = echo_exchange(Ok(b"gemini://localhost/echo".to_vec()));
    assert_eq!(r, Response::Input("Please enter some text".to_string()));
    assert_eq!(r.as_bytes(), b"10 Please enter some text\r\n".to_vec());
}

#[test]
fn echo_elsewhere_gives_the_help() {
    for request in ["gemini://localhost/", "gemini://localhost", "gemini://localhost/echoes?x", "gemini://localhost/a/echo?x"] {
        let r = echo_exchange(Ok(request.as_bytes().to_vec()));
        assert_eq!(r, Response::Success("text/gemini".to_string(), HELP_TEXT.as_bytes().to_vec()));
    }
}

#[test]
fn echo_refuses_what_the_request_rules_refuse() {
    let r = echo_exchange(Ok(vec![b'a'; 1500]));
    assert_eq!(r, Response::BadRequest("request exceeds 1024 bytes".to_string()));
}

#[test]
fn echo_looks_at_the_first_segment() {
    assert!(is_echo_path("/echo"));
    assert!(is_echo_path("/echo/"));
    assert!(is_echo_path("/echo/more"));
    assert!(!is_echo_path("/echoes"));
    assert!(!is_echo_path("echo"));
    assert!(!is_echo_path("/ech"));
    assert!(!is_echo_path(""));
    assert!(!is_echo_path("/écho"));
}

#[test]
fn echo_decodes_percent_escapes_lossily() {
    let url = RequestUrl { path: "/echo".to_string(), query: Some("a%2Fb%ff%zz+c".to_string()) };
    let r = echo_response(&url);
    assert_eq!(r, Response::Success("text/plain".to_string(), "a/b\u{fffd}%zz+c\r\n".as_bytes().to_vec()));
    let url = RequestUrl { path: "/echo".to_string(), query: Some(String::new()) };
    assert_eq!(echo_response(&url), Response::Success("text/plain".to_string(), b"\r\n".to_vec()));
}
