use gemini_server::response::Response;
use gemini_server::status::Code;

#[test]
fn success_with_empty_body() {
    let r = Response::Success("text/gemini".to_string(), Vec::new());
    assert_eq!(r.as_bytes(), b"20 text/gemini\r\n".to_vec());
}

#[test]
fn success_with_binary_body() {
    let body = vec![0x00u8, 0xff, 0x0d, 0x0a, 0x00, 0x80];
    let r = Response::Success("application/octet-stream".to_string(), body.clone());
    let mut expected = b"20 application/octet-stream\r\n".to_vec();
    expected.extend_from_slice(&body);
    assert_eq!(r.as_bytes(), expected);
}

#[test]
fn success_with_body_larger_than_a_read_buffer() {
    let body: Vec<u8> = (0..5000u32).map(|i| (i % 251) as u8).collect();
    let r = Response::Success("text/plain".to_string(), body.clone());
    let bytes = r.as_bytes();
    assert_eq!(&bytes[..15], b"20 text/plain\r\n");
    assert_eq!(&bytes[15..], &body[..]);
    assert_eq!(bytes.len(), 15 + 5000);
}

#[test]
fn every_kind_has_its_status_line() {
    let m = || "m".to_string();
    let cases: Vec<(Response, &[u8])> = vec![
        (Response::Input(m()), b"10 m\r\n"),
        (Response::SensitiveInput(m()), b"11 m\r\n"),
        (Response::Success(m(), vec![b'x']), b"20 m\r\nx"),
        (Response::RedirectPermanent(m()), b"30 m\r\n"),
        (Response::RedirectTemporary(m()), b"31 m\r\n"),
        (Response::TemporaryFailure(m()), b"40 m\r\n"),
        (Response::ServerUnavailable(m()), b"41 m\r\n"),
        (Response::CgiError(m()), b"42 m\r\n"),
        (Response::ProxyError(m()), b"43 m\r\n"),
        (Response::SlowDown(m()), b"44 m\r\n"),
        (Response::PermanentFailure(m()), b"50 m\r\n"),
        (Response::NotFound(m()), b"51 m\r\n"),
        (Response::Gone(m()), b"52 m\r\n"),
        (Response::ProxyRequestRefused(m()), b"53 m\r\n"),
        (Response::BadRequest(m()), b"59 m\r\n"),
        (Response::ClientCertificationRequired(m()), b"60 m\r\n"),
        (Response::ClientCertificationUnauthorized(m()), b"61 m\r\n"),
        (Response::ClientCertificateNotValid(m()), b"62 m\r\n"),
    ];
    for (response, expected) in cases {
        assert_eq!(response.as_bytes(), expected.to_vec());
        let code = response.code();
        assert_ne!(code, Code::Invalid);
        assert_eq!(response.as_bytes()[0], b'0' + code.first_digit());
        assert_eq!(response.as_bytes()[1], b'0' + code.last_digit());
        assert_eq!(response.meta(), "m");
    }
}

#[test]
fn meta_goes_out_in_utf8_and_unescaped() {
    let r = Response::NotFound("né\r\nx".to_string());
    assert_eq!(r.as_bytes(), "51 né\r\nx\r\n".as_bytes().to_vec());
    assert_eq!(r.code(), Code::NotFound);
}

#[test]
fn empty_meta_still_has_the_space() {
    let r = Response::Input(String::new());
    assert_eq!(r.as_bytes(), b"10 \r\n".to_vec());
}
