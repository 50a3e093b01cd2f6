use vstd::prelude::*;

verus! {

/// Everything that can go wrong while building, reading or checking a token.
#[derive(Debug)]
pub enum TokenError {
    Base64DecodeError(base64_url::base64::DecodeError),
    /// Loading the environment failed; holds the text of the failure.
    EnvLoadError(String),
    DeserializationError(serde_json::Error),
    Utf8ParseError(core::str::Utf8Error),
    LengthError(String),
    ExpiredToken,
    NotYetValidToken,
    InvalidSignature,
    InvalidLength(String, i16, i16, u64),
    InvalidValue(String, String),
    RegexError(String),
}

/// The character for the decimal digit `d` (`d < 10`).
pub open spec fn digit_char(d: nat) -> char {
    if d == 0 {
        '0'
    } else if d == 1 {
        '1'
    } else if d == 2 {
        '2'
    } else if d == 3 {
        '3'
    } else if d == 4 {
        '4'
    } else if d == 5 {
        '5'
    } else if d == 6 {
        '6'
    } else if d == 7 {
        '7'
    } else if d == 8 {
        '8'
    } else {
        '9'
    }
}

/// The decimal digits of `n`, most significant first, with no leading zeros.
pub open spec fn decimal(n: nat) -> Seq<char>
    decreases n,
{
    if n < 10 {
        seq![digit_char(n)]
    } else {
        decimal(n / 10).push(digit_char(n % 10))
    }
}

/// The decimal text of a signed integer: a `-` before the digits of its
/// magnitude when it is negative.
pub open spec fn signed_decimal(n: int) -> Seq<char> {
    if n < 0 {
        seq!['-'] + decimal((-n) as nat)
    } else {
        decimal(n as nat)
    }
}

/// Whether the error carries an error value of another crate, whose text that
/// crate's `Display` impl writes.
pub open spec fn carries_outside_error(e: TokenError) -> bool {
    ||| e is Base64DecodeError
    ||| e is DeserializationError
    ||| e is Utf8ParseError
}

/// The text that describes `e`; `detail` stands for the text of the error value
/// of another crate that `e` may carry, and is ignored for the other variants.
pub open spec fn message_of(e: TokenError, detail: Seq<char>) -> Seq<char> {
    match e {
        TokenError::Base64DecodeError(_) => "Could not decode given data => "@ + detail,
        TokenError::EnvLoadError(text) => "Error loading environment => "@ + text@,
        TokenError::DeserializationError(_) => "Could not deserialize payload => "@ + detail,
        TokenError::Utf8ParseError(_) => "Could not parse given bytes as UTF-8 => "@ + detail,
        TokenError::LengthError(at) => "Invalid length at => "@ + at@,
        TokenError::ExpiredToken => "This token has expired"@,
        TokenError::NotYetValidToken => "Token not yet active"@,
        TokenError::InvalidSignature => "Could not validate token by signature"@,
        TokenError::InvalidLength(value, min_length, max_length, provided_length) => "Invalid data value length => "@
            + value@ + ", minimum => "@ + signed_decimal(min_length as int) + ", maximum => "@
            + signed_decimal(max_length as int) + ", provided length => "@ + decimal(
            provided_length as nat,
        ),
        TokenError::RegexError(text) => "Invalid value provided => "@ + text@,
        TokenError::InvalidValue(value, cause) => "Invalid value provided => "@ + value@ + "; problem => "@
            + cause@,
    }
}

/// The text of the digit `d`.
fn digit_text(d: u64) -> (text: &'static str)
    requires
        d < 10,
    ensures
        text@ == seq![digit_char(d as nat)],
{
    if d == 0 {
        proof {
            reveal_strlit("0");
        }
        "0"
    } else if d == 1 {
        proof {
            reveal_strlit("1");
        }
        "1"
    } else if d == 2 {
        proof {
            reveal_strlit("2");
        }
        "2"
    } else if d == 3 {
        proof {
            reveal_strlit("3");
        }
        "3"
    } else if d == 4 {
        proof {
            reveal_strlit("4");
        }
        "4"
    } else if d == 5 {
        proof {
            reveal_strlit("5");
        }
        "5"
    } else if d == 6 {
        proof {
            reveal_strlit("6");
        }
        "6"
    } else if d == 7 {
        proof {
            reveal_strlit("7");
        }
        "7"
    } else if d == 8 {
        proof {
            reveal_strlit("8");
        }
        "8"
    } else {
        proof {
            reveal_strlit("9");
        }
        "9"
    }
}

/// Writes `n` in decimal.
pub fn decimal_text(n: u64) -> (text: String)
    ensures
        text@ == decimal(n as nat),
    decreases n,
{
    if n < 10 {
        String::from_str(digit_text(n))
    } else {
        let mut text = decimal_text(n / 10);
        text.append(digit_text(n % 10));
        text
    }
}

/// Writes `n` in decimal, with a `-` before a negative number.
pub fn signed_decimal_text(n: i16) -> (text: String)
    ensures
        text@ == signed_decimal(n as int),
{
    if n < 0 {
        let magnitude: i64 = -(n as i64);
        let digits = decimal_text(magnitude as u64);
        proof {
            reveal_strlit("-");
        }
        let text = String::from_str("-").concat(digits.as_str());
        text
    } else {
        decimal_text(n as u64)
    }
}

impl TokenError {
    /// The text that describes this error, as its `Display` impl writes it in
    /// other settings.
    pub fn to_string(&self) -> (text: String)
        ensures
            exists|detail: Seq<char>| text@ == message_of(*self, detail),
            !carries_outside_error(*self) ==> text@ == message_of(*self, Seq::empty()),
    {
        let text = match self {
            TokenError::Base64DecodeError(error) => {
                let detail = crate::foreign::decode_error_text(error);
                let text = String::from_str("Could not decode given data => ").concat(detail.as_str());
                assert(text@ == message_of(*self, detail@));
                text
            },
            TokenError::EnvLoadError(error) => String::from_str("Error loading environment => ").concat(
                error.as_str(),
            ),
            TokenError::DeserializationError(error) => {
                let detail = crate::foreign::json_error_text(error);
                let text = String::from_str("Could not deserialize payload => ").concat(
                    detail.as_str(),
                );
                assert(text@ == message_of(*self, detail@));
                text
            },
            TokenError::Utf8ParseError(error) => {
                let detail = crate::foreign::utf8_error_text(error);
                let text = String::from_str("Could not parse given bytes as UTF-8 => ").concat(
                    detail.as_str(),
                );
                assert(text@ == message_of(*self, detail@));
                text
            },
            TokenError::LengthError(error) => String::from_str("Invalid length at => ").concat(
                error.as_str(),
            ),
            TokenError::ExpiredToken => String::from_str("This token has expired"),
            TokenError::NotYetValidToken => String::from_str("Token not yet active"),
            TokenError::InvalidSignature => String::from_str("Could not validate token by signature"),
            TokenError::InvalidLength(value, min_length, max_length, provided_length) => {
                let mut text = String::from_str("Invalid data value length => ");
                text.append(value.as_str());
                text.append(", minimum => ");
                text.append(signed_decimal_text(*min_length).as_str());
                text.append(", maximum => ");
                text.append(signed_decimal_text(*max_length).as_str());
                text.append(", provided length => ");
                text.append(decimal_text(*provided_length).as_str());
                text
            },
            TokenError::RegexError(error) => String::from_str("Invalid value provided => ").concat(
                error.as_str(),
            ),
            TokenError::InvalidValue(error, cause) => {
                let mut text = String::from_str("Invalid value provided => ");
                text.append(error.as_str());
                text.append("; problem => ");
                text.append(cause.as_str());
                text
            },
        };
        proof {
            if !carries_outside_error(*self) {
                assert(text@ == message_of(*self, Seq::empty()));
            }
        }
        text
    }
}

impl From<base64_url::base64::DecodeError> for TokenError {
    fn from(value: base64_url::base64::DecodeError) -> (e: Self) {
        TokenError::Base64DecodeError(value)
    }
}

impl vstd::std_specs::convert::FromSpecImpl<base64_url::base64::DecodeError> for TokenError {
    open spec fn obeys_from_spec() -> bool {
        true
    }

    open spec fn from_spec(v: base64_url::base64::DecodeError) -> Self {
        TokenError::Base64DecodeError(v)
    }
}

impl From<serde_json::Error> for TokenError {
    fn from(value: serde_json::Error) -> (e: Self) {
        TokenError::DeserializationError(value)
    }
}

impl vstd::std_specs::convert::FromSpecImpl<serde_json::Error> for TokenError {
    open spec fn obeys_from_spec() -> bool {
        true
    }

    open spec fn from_spec(v: serde_json::Error) -> Self {
        TokenError::DeserializationError(v)
    }
}

impl From<core::str::Utf8Error> for TokenError {
    fn from(value: core::str::Utf8Error) -> (e: Self) {
        TokenError::Utf8ParseError(value)
    }
}

impl vstd::std_specs::convert::FromSpecImpl<core::str::Utf8Error> for TokenError {
    open spec fn obeys_from_spec() -> bool {
        true
    }

    open spec fn from_spec(v: core::str::Utf8Error) -> Self {
        TokenError::Utf8ParseError(v)
    }
}

} // verus!
