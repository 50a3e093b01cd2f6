use jwt_core::{Algorithm, Header, PayloadBytes, ReservedClaims, TokenError, TokenType};

#[test]
fn header_builders_replace_fields() {
    let mut header = Header::new(Algorithm::HS256, TokenType::Jwt).unwrap();
    header.with_alg(Algorithm::HS256).with_typ(TokenType::Jwt);
    assert!(matches!(header.alg, Algorithm::HS256));
    assert!(matches!(header.typ, TokenType::Jwt));
}

#[test]
fn payload_bytes_borrow_text() {
    let bytes = PayloadBytes::from("abc");
    assert_eq!(format!("{:?}", bytes), "PayloadBytes(\"abc\")");
    let claim = ReservedClaims::Other("aud2");
    assert_eq!(format!("{:?}", claim), "Other(\"aud2\")");
    assert_eq!(format!("{:?}", ReservedClaims::ExpirationTime), "ExpirationTime");
}

#[test]
fn error_texts() {
    assert_eq!(TokenError::ExpiredToken.to_string(), "This token has expired");
    assert_eq!(TokenError::NotYetValidToken.to_string(), "Token not yet active");
    assert_eq!(TokenError::InvalidSignature.to_string(), "Could not validate token by signature");
    assert_eq!(TokenError::LengthError("Token length".into()).to_string(), "Invalid length at => Token length");
    assert_eq!(TokenError::EnvLoadError("missing".into()).to_string(), "Error loading environment => missing");
    assert_eq!(TokenError::RegexError("bad".into()).to_string(), "Invalid value provided => bad");
    assert_eq!(
        TokenError::InvalidValue("x y".into(), "Invalid value provided".into()).to_string(),
        "Invalid value provided => x y; problem => Invalid value provided"
    );
    assert_eq!(
        TokenError::InvalidLength("Username".into(), 1, 50, 120).to_string(),
        "Invalid data value length => Username, minimum => 1, maximum => 50, provided length => 120"
    );
    assert_eq!(
        TokenError::InvalidLength("v".into(), -32768, 0, 18446744073709551615).to_string(),
        "Invalid data value length => v, minimum => -32768, maximum => 0, provided length => 18446744073709551615"
    );
}

#[test]
fn outside_error_texts_follow_their_display() {
    let decode = jwt_core::TokenPieces::split_jwt("a.b*.c").unwrap_err();
    match &decode {
        TokenError::Base64DecodeError(e) => {
            assert_eq!(decode.to_string(), format!("Could not decode given data => {}", e));
        }
        other => panic!("unexpected error {:?}", other),
    }
    let json = serde_json::from_str::<u8>("x").unwrap_err();
    let text = format!("Could not deserialize payload => {}", json);
    assert_eq!(TokenError::from(json).to_string(), text);
    let bytes: Vec<u8> = vec![0xff, 0xfe];
    let utf8 = std::str::from_utf8(&bytes).unwrap_err();
    assert_eq!(
        TokenError::from(utf8).to_string(),
        format!("Could not parse given bytes as UTF-8 => {}", utf8)
    );
}

#[test]
fn decimal_texts() {
    assert_eq!(jwt_core::decimal_text(0), "0");
    assert_eq!(jwt_core::decimal_text(7), "7");
    assert_eq!(jwt_core::decimal_text(10), "10");
    assert_eq!(jwt_core::decimal_text(1000), "1000");
    assert_eq!(jwt_core::signed_decimal_text(-1), "-1");
    assert_eq!(jwt_core::signed_decimal_text(i16::MAX), "32767");
}
