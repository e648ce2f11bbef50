//! The closed set of two-digit Gemini status codes and their classes.

use vstd::prelude::*;

verus! {

/// A Gemini status code.
///
/// Every number from 10 to 69 has a member of its own; `Invalid` stands for
/// every other number and carries the number 0. The class of a code is its
/// decade and is always computed from the number, never stored.
#[derive(Debug, Clone, Copy, PartialEq, Eq, Structural, PartialOrd, Ord)]
pub enum Code {
    // Input codes.
    Input,
    SensitiveInput,
    Input2,
    Input3,
    Input4,
    Input5,
    Input6,
    Input7,
    Input8,
    Input9,
    // Success codes.
    Success,
    SuccessCode1,
    SuccessCode2,
    SuccessCode3,
    SuccessCode4,
    SuccessCode5,
    SuccessCode6,
    SuccessCode7,
    SuccessCode8,
    SuccessCode9,
    // Redirect codes.
    RedirectPermanent,
    RedirectTemporary,
    RedirectCode2,
    RedirectCode3,
    RedirectCode4,
    RedirectCode5,
    RedirectCode6,
    RedirectCode7,
    RedirectCode8,
    RedirectCode9,
    // Temporary failure codes.
    TemporaryFailure,
    ServerUnavailable,
    CgiError,
    ProxyError,
    SlowDown,
    TemporaryFailureCode5,
    TemporaryFailureCode6,
    TemporaryFailureCode7,
    TemporaryFailureCode8,
    TemporaryFailureCode9,
    // Permanent failure codes.
    PermanentFailure,
    NotFound,
    Gone,
    ProxyRequestRefused,
    PermanentFailureCode4,
    PermanentFailureCode5,
    PermanentFailureCode6,
    PermanentFailureCode7,
    PermanentFailureCode8,
    BadRequest,
    // Client certificate codes.
    ClientCertificationRequired,
    ClientCertificationUnauthorized,
    ClientCertificateNotValid,
    ClientCertificateCode3,
    ClientCertificateCode4,
    ClientCertificateCode5,
    ClientCertificateCode6,
    ClientCertificateCode7,
    ClientCertificateCode8,
    ClientCertificateCode9,
    /// Any number that names no status code.
    Invalid,
}

/// The member that a raw number names: the code whose number it is, or
/// `Invalid` for a number outside 10 to 69.
pub open spec fn code_of(value: u8) -> Code {
    match value {
        10 => Code::Input,
        11 => Code::SensitiveInput,
        12 => Code::Input2,
        13 => Code::Input3,
        14 => Code::Input4,
        15 => Code::Input5,
        16 => Code::Input6,
        17 => Code::Input7,
        18 => Code::Input8,
        19 => Code::Input9,
        20 => Code::Success,
        21 => Code::SuccessCode1,
        22 => Code::SuccessCode2,
        23 => Code::SuccessCode3,
        24 => Code::SuccessCode4,
        25 => Code::SuccessCode5,
        26 => Code::SuccessCode6,
        27 => Code::SuccessCode7,
        28 => Code::SuccessCode8,
        29 => Code::SuccessCode9,
        30 => Code::RedirectPermanent,
        31 => Code::RedirectTemporary,
        32 => Code::RedirectCode2,
        33 => Code::RedirectCode3,
        34 => Code::RedirectCode4,
        35 => Code::RedirectCode5,
        36 => Code::RedirectCode6,
        37 => Code::RedirectCode7,
        38 => Code::RedirectCode8,
        39 => Code::RedirectCode9,
        40 => Code::TemporaryFailure,
        41 => Code::ServerUnavailable,
        42 => Code::CgiError,
        43 => Code::ProxyError,
        44 => Code::SlowDown,
        45 => Code::TemporaryFailureCode5,
        46 => Code::TemporaryFailureCode6,
        47 => Code::TemporaryFailureCode7,
        48 => Code::TemporaryFailureCode8,
        49 => Code::TemporaryFailureCode9,
        50 => Code::PermanentFailure,
        51 => Code::NotFound,
        52 => Code::Gone,
        53 => Code::ProxyRequestRefused,
        54 => Code::PermanentFailureCode4,
        55 => Code::PermanentFailureCode5,
        56 => Code::PermanentFailureCode6,
        57 => Code::PermanentFailureCode7,
        58 => Code::PermanentFailureCode8,
        59 => Code::BadRequest,
        60 => Code::ClientCertificationRequired,
        61 => Code::ClientCertificationUnauthorized,
        62 => Code::ClientCertificateNotValid,
        63 => Code::ClientCertificateCode3,
        64 => Code::ClientCertificateCode4,
        65 => Code::ClientCertificateCode5,
        66 => Code::ClientCertificateCode6,
        67 => Code::ClientCertificateCode7,
        68 => Code::ClientCertificateCode8,
        69 => Code::ClientCertificateCode9,
        _ => Code::Invalid,
    }
}

impl Code {
    /// The number that the code carries on the wire.
    pub open spec fn number(self) -> u8 {
        match self {
            Code::Input => 10,
            Code::SensitiveInput => 11,
            Code::Input2 => 12,
            Code::Input3 => 13,
            Code::Input4 => 14,
            Code::Input5 => 15,
            Code::Input6 => 16,
            Code::Input7 => 17,
            Code::Input8 => 18,
            Code::Input9 => 19,
            Code::Success => 20,
            Code::SuccessCode1 => 21,
            Code::SuccessCode2 => 22,
            Code::SuccessCode3 => 23,
            Code::SuccessCode4 => 24,
            Code::SuccessCode5 => 25,
            Code::SuccessCode6 => 26,
            Code::SuccessCode7 => 27,
            Code::SuccessCode8 => 28,
            Code::SuccessCode9 => 29,
            Code::RedirectPermanent => 30,
            Code::RedirectTemporary => 31,
            Code::RedirectCode2 => 32,
            Code::RedirectCode3 => 33,
            Code::RedirectCode4 => 34,
            Code::RedirectCode5 => 35,
            Code::RedirectCode6 => 36,
            Code::RedirectCode7 => 37,
            Code::RedirectCode8 => 38,
            Code::RedirectCode9 => 39,
            Code::TemporaryFailure => 40,
            Code::ServerUnavailable => 41,
            Code::CgiError => 42,
            Code::ProxyError => 43,
            Code::SlowDown => 44,
            Code::TemporaryFailureCode5 => 45,
            Code::TemporaryFailureCode6 => 46,
            Code::TemporaryFailureCode7 => 47,
            Code::TemporaryFailureCode8 => 48,
            Code::TemporaryFailureCode9 => 49,
            Code::PermanentFailure => 50,
            Code::NotFound => 51,
            Code::Gone => 52,
            Code::ProxyRequestRefused => 53,
            Code::PermanentFailureCode4 => 54,
            Code::PermanentFailureCode5 => 55,
            Code::PermanentFailureCode6 => 56,
            Code::PermanentFailureCode7 => 57,
            Code::PermanentFailureCode8 => 58,
            Code::BadRequest => 59,
            Code::ClientCertificationRequired => 60,
            Code::ClientCertificationUnauthorized => 61,
            Code::ClientCertificateNotValid => 62,
            Code::ClientCertificateCode3 => 63,
            Code::ClientCertificateCode4 => 64,
            Code::ClientCertificateCode5 => 65,
            Code::ClientCertificateCode6 => 66,
            Code::ClientCertificateCode7 => 67,
            Code::ClientCertificateCode8 => 68,
            Code::ClientCertificateCode9 => 69,
            Code::Invalid => 0,
        }
    }

    /// True of every member but `Invalid`.
    pub open spec fn is_defined(self) -> bool {
        self != Code::Invalid
    }

    /// The number that the code carries on the wire.
    #[inline]
    pub fn value(&self) -> (v: u8)
        ensures
            v == self.number(),
            self.is_defined() ==> 10 <= v <= 69,
            !self.is_defined() ==> v == 0,
    {
        match self {
            Code::Input => 10,
            Code::SensitiveInput => 11,
            Code::Input2 => 12,
            Code::Input3 => 13,
            Code::Input4 => 14,
            Code::Input5 => 15,
            Code::Input6 => 16,
            Code::Input7 => 17,
            Code::Input8 => 18,
            Code::Input9 => 19,
            Code::Success => 20,
            Code::SuccessCode1 => 21,
            Code::SuccessCode2 => 22,
            Code::SuccessCode3 => 23,
            Code::SuccessCode4 => 24,
            Code::SuccessCode5 => 25,
            Code::SuccessCode6 => 26,
            Code::SuccessCode7 => 27,
            Code::SuccessCode8 => 28,
            Code::SuccessCode9 => 29,
            Code::RedirectPermanent => 30,
            Code::RedirectTemporary => 31,
            Code::RedirectCode2 => 32,
            Code::RedirectCode3 => 33,
            Code::RedirectCode4 => 34,
            Code::RedirectCode5 => 35,
            Code::RedirectCode6 => 36,
            Code::RedirectCode7 => 37,
            Code::RedirectCode8 => 38,
            Code::RedirectCode9 => 39,
            Code::TemporaryFailure => 40,
            Code::ServerUnavailable => 41,
            Code::CgiError => 42,
            Code::ProxyError => 43,
            Code::SlowDown => 44,
            Code::TemporaryFailureCode5 => 45,
            Code::TemporaryFailureCode6 => 46,
            Code::TemporaryFailureCode7 => 47,
            Code::TemporaryFailureCode8 => 48,
            Code::TemporaryFailureCode9 => 49,
            Code::PermanentFailure => 50,
            Code::NotFound => 51,
            Code::Gone => 52,
            Code::ProxyRequestRefused => 53,
            Code::PermanentFailureCode4 => 54,
            Code::PermanentFailureCode5 => 55,
            Code::PermanentFailureCode6 => 56,
            Code::PermanentFailureCode7 => 57,
            Code::PermanentFailureCode8 => 58,
            Code::BadRequest => 59,
            Code::ClientCertificationRequired => 60,
            Code::ClientCertificationUnauthorized => 61,
            Code::ClientCertificateNotValid => 62,
            Code::ClientCertificateCode3 => 63,
            Code::ClientCertificateCode4 => 64,
            Code::ClientCertificateCode5 => 65,
            Code::ClientCertificateCode6 => 66,
            Code::ClientCertificateCode7 => 67,
            Code::ClientCertificateCode8 => 68,
            Code::ClientCertificateCode9 => 69,
            Code::Invalid => 0,
        }
    }

    /// The member that `value` names.
    pub fn from_u8(value: u8) -> (code: Code)
        ensures
            code == code_of(value),
            10 <= value <= 69 ==> code.number() == value,
            !(10 <= value <= 69) ==> code == Code::Invalid,
    {
        match value {
            10 => Code::Input,
            11 => Code::SensitiveInput,
            12 => Code::Input2,
            13 => Code::Input3,
            14 => Code::Input4,
            15 => Code::Input5,
            16 => Code::Input6,
            17 => Code::Input7,
            18 => Code::Input8,
            19 => Code::Input9,
            20 => Code::Success,
            21 => Code::SuccessCode1,
            22 => Code::SuccessCode2,
            23 => Code::SuccessCode3,
            24 => Code::SuccessCode4,
            25 => Code::SuccessCode5,
            26 => Code::SuccessCode6,
            27 => Code::SuccessCode7,
            28 => Code::SuccessCode8,
            29 => Code::SuccessCode9,
            30 => Code::RedirectPermanent,
            31 => Code::RedirectTemporary,
            32 => Code::RedirectCode2,
            33 => Code::RedirectCode3,
            34 => Code::RedirectCode4,
            35 => Code::RedirectCode5,
            36 => Code::RedirectCode6,
            37 => Code::RedirectCode7,
            38 => Code::RedirectCode8,
            39 => Code::RedirectCode9,
            40 => Code::TemporaryFailure,
            41 => Code::ServerUnavailable,
            42 => Code::CgiError,
            43 => Code::ProxyError,
            44 => Code::SlowDown,
            45 => Code::TemporaryFailureCode5,
            46 => Code::TemporaryFailureCode6,
            47 => Code::TemporaryFailureCode7,
            48 => Code::TemporaryFailureCode8,
            49 => Code::TemporaryFailureCode9,
            50 => Code::PermanentFailure,
            51 => Code::NotFound,
            52 => Code::Gone,
            53 => Code::ProxyRequestRefused,
            54 => Code::PermanentFailureCode4,
            55 => Code::PermanentFailureCode5,
            56 => Code::PermanentFailureCode6,
            57 => Code::PermanentFailureCode7,
            58 => Code::PermanentFailureCode8,
            59 => Code::BadRequest,
            60 => Code::ClientCertificationRequired,
            61 => Code::ClientCertificationUnauthorized,
            62 => Code::ClientCertificateNotValid,
            63 => Code::ClientCertificateCode3,
            64 => Code::ClientCertificateCode4,
            65 => Code::ClientCertificateCode5,
            66 => Code::ClientCertificateCode6,
            67 => Code::ClientCertificateCode7,
            68 => Code::ClientCertificateCode8,
            69 => Code::ClientCertificateCode9,
            _ => Code::Invalid,
        }
    }

    /// The name of the code, as text.
    pub open spec fn label(self) -> Seq<char> {
        match self {
            Code::Input => "Input"@,
            Code::SensitiveInput => "SensitiveInput"@,
            Code::Input2 => "Input2"@,
            Code::Input3 => "Input3"@,
            Code::Input4 => "Input4"@,
            Code::Input5 => "Input5"@,
            Code::Input6 => "Input6"@,
            Code::Input7 => "Input7"@,
            Code::Input8 => "Input8"@,
            Code::Input9 => "Input9"@,
            Code::Success => "Success"@,
            Code::SuccessCode1 => "SuccessCode1"@,
            Code::SuccessCode2 => "SuccessCode2"@,
            Code::SuccessCode3 => "SuccessCode3"@,
            Code::SuccessCode4 => "SuccessCode4"@,
            Code::SuccessCode5 => "SuccessCode5"@,
            Code::SuccessCode6 => "SuccessCode6"@,
            Code::SuccessCode7 => "SuccessCode7"@,
            Code::SuccessCode8 => "SuccessCode8"@,
            Code::SuccessCode9 => "SuccessCode9"@,
            Code::RedirectPermanent => "RedirectPermanent"@,
            Code::RedirectTemporary => "RedirectTemporary"@,
            Code::RedirectCode2 => "RedirectCode2"@,
            Code::RedirectCode3 => "RedirectCode3"@,
            Code::RedirectCode4 => "RedirectCode4"@,
            Code::RedirectCode5 => "RedirectCode5"@,
            Code::RedirectCode6 => "RedirectCode6"@,
            Code::RedirectCode7 => "RedirectCode7"@,
            Code::RedirectCode8 => "RedirectCode8"@,
            Code::RedirectCode9 => "RedirectCode9"@,
            Code::TemporaryFailure => "TemporaryFailure"@,
            Code::ServerUnavailable => "ServerUnavailable"@,
            Code::CgiError => "CgiError"@,
            Code::ProxyError => "ProxyError"@,
            Code::SlowDown => "SlowDown"@,
            Code::TemporaryFailureCode5 => "TemporaryFailureCode5"@,
            Code::TemporaryFailureCode6 => "TemporaryFailureCode6"@,
            Code::TemporaryFailureCode7 => "TemporaryFailureCode7"@,
            Code::TemporaryFailureCode8 => "TemporaryFailureCode8"@,
            Code::TemporaryFailureCode9 => "TemporaryFailureCode9"@,
            Code::PermanentFailure => "PermanentFailure"@,
            Code::NotFound => "NotFound"@,
            Code::Gone => "Gone"@,
            Code::ProxyRequestRefused => "ProxyRequestRefused"@,
            Code::PermanentFailureCode4 => "PermanentFailureCode4"@,
            Code::PermanentFailureCode5 => "PermanentFailureCode5"@,
            Code::PermanentFailureCode6 => "PermanentFailureCode6"@,
            Code::PermanentFailureCode7 => "PermanentFailureCode7"@,
            Code::PermanentFailureCode8 => "PermanentFailureCode8"@,
            Code::BadRequest => "BadRequest"@,
            Code::ClientCertificationRequired => "ClientCertificationRequired"@,
            Code::ClientCertificationUnauthorized => "ClientCertificationUnauthorized"@,
            Code::ClientCertificateNotValid => "ClientCertificateNotValid"@,
            Code::ClientCertificateCode3 => "ClientCertificateCode3"@,
            Code::ClientCertificateCode4 => "ClientCertificateCode4"@,
            Code::ClientCertificateCode5 => "ClientCertificateCode5"@,
            Code::ClientCertificateCode6 => "ClientCertificateCode6"@,
            Code::ClientCertificateCode7 => "ClientCertificateCode7"@,
            Code::ClientCertificateCode8 => "ClientCertificateCode8"@,
            Code::ClientCertificateCode9 => "ClientCertificateCode9"@,
            Code::Invalid => "Invalid"@,
        }
    }

    /// The name of the code: the member's own name, `Invalid` for a number
    /// that names none.
    pub fn name(&self) -> (name: &'static str)
        ensures
            name@ == self.label(),
    {
        match self {
            Code::Input => "Input",
            Code::SensitiveInput => "SensitiveInput",
            Code::Input2 => "Input2",
            Code::Input3 => "Input3",
            Code::Input4 => "Input4",
            Code::Input5 => "Input5",
            Code::Input6 => "Input6",
            Code::Input7 => "Input7",
            Code::Input8 => "Input8",
            Code::Input9 => "Input9",
            Code::Success => "Success",
            Code::SuccessCode1 => "SuccessCode1",
            Code::SuccessCode2 => "SuccessCode2",
            Code::SuccessCode3 => "SuccessCode3",
            Code::SuccessCode4 => "SuccessCode4",
            Code::SuccessCode5 => "SuccessCode5",
            Code::SuccessCode6 => "SuccessCode6",
            Code::SuccessCode7 => "SuccessCode7",
            Code::SuccessCode8 => "SuccessCode8",
            Code::SuccessCode9 => "SuccessCode9",
            Code::RedirectPermanent => "RedirectPermanent",
            Code::RedirectTemporary => "RedirectTemporary",
            Code::RedirectCode2 => "RedirectCode2",
            Code::RedirectCode3 => "RedirectCode3",
            Code::RedirectCode4 => "RedirectCode4",
            Code::RedirectCode5 => "RedirectCode5",
            Code::RedirectCode6 => "RedirectCode6",
            Code::RedirectCode7 => "RedirectCode7",
            Code::RedirectCode8 => "RedirectCode8",
            Code::RedirectCode9 => "RedirectCode9",
            Code::TemporaryFailure => "TemporaryFailure",
            Code::ServerUnavailable => "ServerUnavailable",
            Code::CgiError => "CgiError",
            Code::ProxyError => "ProxyError",
            Code::SlowDown => "SlowDown",
            Code::TemporaryFailureCode5 => "TemporaryFailureCode5",
            Code::TemporaryFailureCode6 => "TemporaryFailureCode6",
            Code::TemporaryFailureCode7 => "TemporaryFailureCode7",
            Code::TemporaryFailureCode8 => "TemporaryFailureCode8",
            Code::TemporaryFailureCode9 => "TemporaryFailureCode9",
            Code::PermanentFailure => "PermanentFailure",
            Code::NotFound => "NotFound",
            Code::Gone => "Gone",
            Code::ProxyRequestRefused => "ProxyRequestRefused",
            Code::PermanentFailureCode4 => "PermanentFailureCode4",
            Code::PermanentFailureCode5 => "PermanentFailureCode5",
            Code::PermanentFailureCode6 => "PermanentFailureCode6",
            Code::PermanentFailureCode7 => "PermanentFailureCode7",
            Code::PermanentFailureCode8 => "PermanentFailureCode8",
            Code::BadRequest => "BadRequest",
            Code::ClientCertificationRequired => "ClientCertificationRequired",
            Code::ClientCertificationUnauthorized => "ClientCertificationUnauthorized",
            Code::ClientCertificateNotValid => "ClientCertificateNotValid",
            Code::ClientCertificateCode3 => "ClientCertificateCode3",
            Code::ClientCertificateCode4 => "ClientCertificateCode4",
            Code::ClientCertificateCode5 => "ClientCertificateCode5",
            Code::ClientCertificateCode6 => "ClientCertificateCode6",
            Code::ClientCertificateCode7 => "ClientCertificateCode7",
            Code::ClientCertificateCode8 => "ClientCertificateCode8",
            Code::ClientCertificateCode9 => "ClientCertificateCode9",
            Code::Invalid => "Invalid",
        }
    }

    /// Whether the code's number lies between `low` and `high`, both inclusive.
    #[inline]
    pub fn in_range(&self, low: u8, high: u8) -> (r: bool)
        ensures
            r == (low <= self.number() <= high),
    {
        let v: u8 = self.value();
        v >= low && v <= high
    }

    /// Whether the code asks the client for input (10 to 19).
    #[inline]
    pub fn is_input(&self) -> (r: bool)
        ensures
            r == (10 <= self.number() <= 19),
            r == (self.number() / 10 == 1),
    {
        self.in_range(10, 19)
    }

    /// Whether the code reports success (20 to 29).
    #[inline]
    pub fn is_success(&self) -> (r: bool)
        ensures
            r == (20 <= self.number() <= 29),
            r == (self.number() / 10 == 2),
    {
        self.in_range(20, 29)
    }

    /// Whether the code redirects the client (30 to 39).
    #[inline]
    pub fn is_redirect(&self) -> (r: bool)
        ensures
            r == (30 <= self.number() <= 39),
            r == (self.number() / 10 == 3),
    {
        self.in_range(30, 39)
    }

    /// Whether the code reports a temporary failure (40 to 49).
    #[inline]
    pub fn is_temporary_failure(&self) -> (r: bool)
        ensures
            r == (40 <= self.number() <= 49),
            r == (self.number() / 10 == 4),
    {
        self.in_range(40, 49)
    }

    /// Whether the code reports a permanent failure (50 to 59).
    #[inline]
    pub fn is_permanent_failure(&self) -> (r: bool)
        ensures
            r == (50 <= self.number() <= 59),
            r == (self.number() / 10 == 5),
    {
        self.in_range(50, 59)
    }

    /// Whether the code concerns the client's certificate (60 to 69).
    #[inline]
    pub fn is_client_certification_failure(&self) -> (r: bool)
        ensures
            r == (60 <= self.number() <= 69),
            r == (self.number() / 10 == 6),
    {
        self.in_range(60, 69)
    }

    /// The second digit of the code's number.
    #[inline]
    pub fn last_digit(&self) -> (d: u8)
        ensures
            d == self.number() % 10,
            d <= 9,
    {
        self.value() % 10
    }

    /// The first digit of the code's number: its class.
    #[inline]
    pub fn first_digit(&self) -> (d: u8)
        ensures
            d == self.number() / 10,
            d <= 6,
    {
        self.value() / 10
    }

    /// Both digits of the code's number, the first one first.
    #[inline]
    pub fn digit_pair(&self) -> (p: (u8, u8))
        ensures
            p.0 == self.number() / 10,
            p.1 == self.number() % 10,
            p.0 * 10 + p.1 == self.number(),
    {
        (self.first_digit(), self.last_digit())
    }

    /// How many of the six classes the code belongs to.
    pub open spec fn class_count(self) -> nat {
        let n = self.number();
        (if 10 <= n <= 19 { 1nat } else { 0 })
            + (if 20 <= n <= 29 { 1nat } else { 0 })
            + (if 30 <= n <= 39 { 1nat } else { 0 })
            + (if 40 <= n <= 49 { 1nat } else { 0 })
            + (if 50 <= n <= 59 { 1nat } else { 0 })
            + (if 60 <= n <= 69 { 1nat } else { 0 })
    }

    /// A defined code belongs to exactly one class, and that class is its
    /// first digit; its two digits give its number back.
    pub proof fn lemma_defined_code_has_one_class(self)
        requires
            self.is_defined(),
        ensures
            self.class_count() == 1,
            1 <= self.number() / 10 <= 6,
            (self.number() / 10) * 10 + self.number() % 10 == self.number(),
            code_of(((self.number() / 10) * 10 + self.number() % 10) as u8) == self,
    {
    }

    /// `Invalid` carries the number 0 and belongs to no class.
    pub proof fn lemma_invalid_has_no_class()
        ensures
            Code::Invalid.number() == 0,
            Code::Invalid.class_count() == 0,
            !(10 <= Code::Invalid.number() <= 69),
    {
    }

    /// A number names the code that carries it, and only numbers from 10 to
    /// 69 name a defined code.
    pub proof fn lemma_code_of_number(value: u8)
        ensures
            (10 <= value <= 69) <==> code_of(value).is_defined(),
            10 <= value <= 69 ==> code_of(value).number() == value,
            !(10 <= value <= 69) ==> code_of(value) == Code::Invalid,
    {
    }

    /// Every code is named by its own number.
    pub proof fn lemma_number_names_code(self)
        ensures
            code_of(self.number()) == self,
    {
    }
}

impl From<u8> for Code {
    fn from(value: u8) -> (code: Code) {
        Code::from_u8(value)
    }
}

impl vstd::std_specs::convert::FromSpecImpl<u8> for Code {
    open spec fn obeys_from_spec() -> bool {
        true
    }

    open spec fn from_spec(value: u8) -> Code {
        code_of(value)
    }
}

} // verus!
