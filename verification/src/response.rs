//! The responses a server can give, and their exact form on the wire.

use crate::status::Code;
use vstd::prelude::*;
use vstd::utf8::encode_utf8;

verus! {

/// One Gemini response.
///
/// Every kind carries the free text of its status line (the meta field);
/// `Success` carries the body as well, as raw bytes.
#[derive(Clone, Debug, PartialEq, Eq)]
pub enum Response {
    Input(String),
    SensitiveInput(String),
    Success(String, Vec<u8>),
    RedirectPermanent(String),
    RedirectTemporary(String),
    TemporaryFailure(String),
    ServerUnavailable(String),
    CgiError(String),
    ProxyError(String),
    SlowDown(String),
    PermanentFailure(String),
    NotFound(String),
    Gone(String),
    ProxyRequestRefused(String),
    BadRequest(String),
    ClientCertificationRequired(String),
    ClientCertificationUnauthorized(String),
    ClientCertificateNotValid(String),
}

/// The ASCII digit that stands for `d`.
pub open spec fn digit_byte(d: u8) -> u8
    recommends
        d <= 9,
{
    (48 + d) as u8
}

/// A status line: the two digits of the code, a space, the meta field and a
/// carriage return with a line feed.
pub open spec fn status_line(code: Code, meta: Seq<u8>) -> Seq<u8> {
    seq![digit_byte(code.number() / 10), digit_byte(code.number() % 10), 32u8] + meta
        + seq![13u8, 10u8]
}

impl Response {
    /// The one status code that this kind of response owns.
    pub open spec fn status(self) -> Code {
        match self {
            Response::Input(_) => Code::Input,
            Response::SensitiveInput(_) => Code::SensitiveInput,
            Response::Success(_, _) => Code::Success,
            Response::RedirectPermanent(_) => Code::RedirectPermanent,
            Response::RedirectTemporary(_) => Code::RedirectTemporary,
            Response::TemporaryFailure(_) => Code::TemporaryFailure,
            Response::ServerUnavailable(_) => Code::ServerUnavailable,
            Response::CgiError(_) => Code::CgiError,
            Response::ProxyError(_) => Code::ProxyError,
            Response::SlowDown(_) => Code::SlowDown,
            Response::PermanentFailure(_) => Code::PermanentFailure,
            Response::NotFound(_) => Code::NotFound,
            Response::Gone(_) => Code::Gone,
            Response::ProxyRequestRefused(_) => Code::ProxyRequestRefused,
            Response::BadRequest(_) => Code::BadRequest,
            Response::ClientCertificationRequired(_) => Code::ClientCertificationRequired,
            Response::ClientCertificationUnauthorized(_) => Code::ClientCertificationUnauthorized,
            Response::ClientCertificateNotValid(_) => Code::ClientCertificateNotValid,
        }
    }

    /// The meta field, as characters.
    pub open spec fn meta_text(self) -> Seq<char> {
        match self {
            Response::Input(m) => m@,
            Response::SensitiveInput(m) => m@,
            Response::Success(m, _) => m@,
            Response::RedirectPermanent(m) => m@,
            Response::RedirectTemporary(m) => m@,
            Response::TemporaryFailure(m) => m@,
            Response::ServerUnavailable(m) => m@,
            Response::CgiError(m) => m@,
            Response::ProxyError(m) => m@,
            Response::SlowDown(m) => m@,
            Response::PermanentFailure(m) => m@,
            Response::NotFound(m) => m@,
            Response::Gone(m) => m@,
            Response::ProxyRequestRefused(m) => m@,
            Response::BadRequest(m) => m@,
            Response::ClientCertificationRequired(m) => m@,
            Response::ClientCertificationUnauthorized(m) => m@,
            Response::ClientCertificateNotValid(m) => m@,
        }
    }

    /// The body: the bytes of a `Success`, nothing for every other kind.
    pub open spec fn body_bytes(self) -> Seq<u8> {
        match self {
            Response::Success(_, body) => body@,
            _ => Seq::empty(),
        }
    }

    /// The response on the wire: its status line, with the meta field in
    /// UTF-8, followed by the body.
    pub open spec fn wire(self) -> Seq<u8> {
        status_line(self.status(), encode_utf8(self.meta_text())) + self.body_bytes()
    }

    /// The response has this status code, this meta field and this body.
    pub open spec fn holds(self, code: Code, meta: Seq<char>, body: Seq<u8>) -> bool {
        self.status() == code && self.meta_text() == meta && self.body_bytes() == body
    }

    /// The one status code that this kind of response owns.
    pub fn code(&self) -> (code: Code)
        ensures
            code == self.status(),
            code.is_defined(),
    {
        match self {
            Response::Input(_) => Code::Input,
            Response::SensitiveInput(_) => Code::SensitiveInput,
            Response::Success(_, _) => Code::Success,
            Response::RedirectPermanent(_) => Code::RedirectPermanent,
            Response::RedirectTemporary(_) => Code::RedirectTemporary,
            Response::TemporaryFailure(_) => Code::TemporaryFailure,
            Response::ServerUnavailable(_) => Code::ServerUnavailable,
            Response::CgiError(_) => Code::CgiError,
            Response::ProxyError(_) => Code::ProxyError,
            Response::SlowDown(_) => Code::SlowDown,
            Response::PermanentFailure(_) => Code::PermanentFailure,
            Response::NotFound(_) => Code::NotFound,
            Response::Gone(_) => Code::Gone,
            Response::ProxyRequestRefused(_) => Code::ProxyRequestRefused,
            Response::BadRequest(_) => Code::BadRequest,
            Response::ClientCertificationRequired(_) => Code::ClientCertificationRequired,
            Response::ClientCertificationUnauthorized(_) => Code::ClientCertificationUnauthorized,
            Response::ClientCertificateNotValid(_) => Code::ClientCertificateNotValid,
        }
    }

    /// The meta field.
    pub fn meta(&self) -> (meta: &str)
        ensures
            meta@ == self.meta_text(),
    {
        match self {
            Response::Input(m) => m.as_str(),
            Response::SensitiveInput(m) => m.as_str(),
            Response::Success(m, _) => m.as_str(),
            Response::RedirectPermanent(m) => m.as_str(),
            Response::RedirectTemporary(m) => m.as_str(),
            Response::TemporaryFailure(m) => m.as_str(),
            Response::ServerUnavailable(m) => m.as_str(),
            Response::CgiError(m) => m.as_str(),
            Response::ProxyError(m) => m.as_str(),
            Response::SlowDown(m) => m.as_str(),
            Response::PermanentFailure(m) => m.as_str(),
            Response::NotFound(m) => m.as_str(),
            Response::Gone(m) => m.as_str(),
            Response::ProxyRequestRefused(m) => m.as_str(),
            Response::BadRequest(m) => m.as_str(),
            Response::ClientCertificationRequired(m) => m.as_str(),
            Response::ClientCertificationUnauthorized(m) => m.as_str(),
            Response::ClientCertificateNotValid(m) => m.as_str(),
        }
    }

    /// The response as it goes onto the wire.
    ///
    /// The meta field is copied as it is: a meta field that holds a line
    /// break is the caller's to avoid.
    #[must_use]
    pub fn as_bytes(&self) -> (bytes: Vec<u8>)
        ensures
            bytes@ == self.wire(),
    {
        let code = self.code();
        let digits = code.digit_pair();
        let meta = self.meta().as_bytes();
        let mut result = Vec::<u8>::new();
        result.push(48 + digits.0);
        result.push(48 + digits.1);
        result.push(32);
        result.extend_from_slice(meta);
        result.push(13);
        result.push(10);
        if let Response::Success(_, body) = self {
            result.extend_from_slice(body.as_slice());
        }
        assert(result@ =~= self.wire());
        result
    }

    /// A `Success` goes out as the line `20`, a space, the meta field and a
    /// line end, followed by the body byte for byte.
    pub proof fn lemma_success_wire(self)
        requires
            self is Success,
        ensures
            self.wire() == seq![50u8, 48u8, 32u8] + encode_utf8(self.meta_text()) + seq![
                13u8,
                10u8,
            ] + self.body_bytes(),
            self.wire().subrange(self.wire().len() - self.body_bytes().len(), self.wire().len() as int)
                == self.body_bytes(),
    {
        assert(self.wire().subrange(
            self.wire().len() - self.body_bytes().len(),
            self.wire().len() as int,
        ) =~= self.body_bytes());
    }

    /// Every response opens with the two digits of a defined status code and
    /// a space, and nothing but a `Success` has bytes after its status line.
    pub proof fn lemma_wire_shape(self)
        ensures
            self.status().is_defined(),
            self.wire().len() >= 5,
            self.wire()[0] == digit_byte(self.status().number() / 10),
            self.wire()[1] == digit_byte(self.status().number() % 10),
            self.wire()[2] == 32u8,
            !(self is Success) ==> self.wire() == status_line(
                self.status(),
                encode_utf8(self.meta_text()),
            ),
            self.body_bytes().len() > 0 ==> self.status().number() / 10 == 2,
    {
        assert(self.wire() =~= status_line(self.status(), encode_utf8(self.meta_text()))
            + self.body_bytes());
        if !(self is Success) {
            assert(self.wire() =~= status_line(self.status(), encode_utf8(self.meta_text())));
        }
    }
}

} // verus!
