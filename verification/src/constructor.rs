use vstd::prelude::*;
use vstd::string::StringSliceAdditionalSpecFns;
use vstd::utf8::*;

use crate::errors::TokenError;
use crate::foreign::{
    all_base64url_chars, base64url_decode, base64url_encode, bytes_equal_in_constant_time,
    current_timestamp, decode_base64url, encode_base64url, hmac_sha256, hmac_sha256_tag,
};
use crate::framing::{
    encode_segment, lemma_base64url_byte_len, lemma_signed_token_splits, segments_are_base64url,
    signature_of, signed_token, signing_bytes, signing_input, split_dots,
};
use crate::header::Header;
use crate::payload::Payload;

verus! {

/// The longest signature segment, in bytes, that a token may carry.
pub const MAX_SIGNATURE_LEN: usize = 1000;

/// A token taken apart: its header, its payload and its signature segment.
#[derive(Debug, Clone)]
pub struct TokenPieces {
    header: Header,
    payload: Payload,
    signature: String,
}

/// The three segments of a compact token, the first two decoded from URL-safe
/// Base64 into the JSON bytes they carry.
#[derive(Debug)]
pub struct EncodedPieces {
    pub header_json: Vec<u8>,
    pub payload_json: Vec<u8>,
    pub signature: String,
}

/// The outcome of reading a token's compact text: it must have exactly three
/// segments, the first two URL-safe Base64; the third is kept as text.
pub open spec fn split_as(token: Seq<char>, r: Result<EncodedPieces, TokenError>) -> bool {
    let pieces = split_dots(token);
    if pieces.len() != 3 {
        r matches Err(TokenError::LengthError(at)) && at@ == "Token length"@
    } else if base64url_decode(pieces[0]) is None {
        r matches Err(TokenError::Base64DecodeError(_))
    } else if base64url_decode(pieces[1]) is None {
        r matches Err(TokenError::Base64DecodeError(_))
    } else {
        r matches Ok(e) && e.header_json@ == base64url_decode(pieces[0])->0 && e.payload_json@
            == base64url_decode(pieces[1])->0 && e.signature@ == pieces[2]
    }
}

/// The outcome of assembling a read token at time `now`: it is refused when
/// its expiration lies before `now`, or when its signature segment is longer
/// than `MAX_SIGNATURE_LEN` bytes.
pub open spec fn assembled_as(
    header: Header,
    payload: Payload,
    signature: Seq<char>,
    now: i64,
    r: Result<TokenPieces, TokenError>,
) -> bool {
    if payload.exp < now {
        r matches Err(TokenError::ExpiredToken)
    } else if encode_utf8(signature).len() > MAX_SIGNATURE_LEN {
        r matches Err(TokenError::LengthError(at)) && at@ == "Invalid algorithm name"@
    } else {
        r matches Ok(t) && t.spec_header() == header && t.spec_payload() == payload
            && t.spec_signature() == signature
    }
}

/// The outcome of checking a read token at time `now` against the signature
/// segment it should carry: the two must be equal, and `now` must lie in the
/// token's window. An accepted token comes back active, with that signature.
pub open spec fn checked_as(
    token: TokenPieces,
    expected: Seq<char>,
    now: i64,
    r: Result<TokenPieces, TokenError>,
) -> bool {
    if token.spec_signature() != expected {
        r matches Err(TokenError::InvalidSignature)
    } else if now < token.spec_payload().nbf {
        r matches Err(TokenError::NotYetValidToken)
    } else if now > token.spec_payload().exp {
        r matches Err(TokenError::ExpiredToken)
    } else {
        r matches Ok(t) && t.spec_header() == token.spec_header() && t.spec_payload() == (Payload {
            is_active: true,
            ..token.spec_payload()
        }) && t.spec_signature() == expected
    }
}

/// The outcome of checking a read token at time `now` against the header and
/// payload JSON it should carry and the key: the signature it must carry is
/// the one made from them.
pub open spec fn verified_as(
    header_json: Seq<u8>,
    payload_json: Seq<u8>,
    key: Seq<u8>,
    token: TokenPieces,
    now: i64,
    r: Result<TokenPieces, TokenError>,
) -> bool {
    checked_as(token, signature_of(header_json, payload_json, key), now, r)
}

impl TokenPieces {
    pub closed spec fn spec_header(&self) -> Header {
        self.header
    }

    pub closed spec fn spec_payload(&self) -> Payload {
        self.payload
    }

    pub closed spec fn spec_signature(&self) -> Seq<char> {
        self.signature@
    }

    /// Pieces of a token yet to be signed: the signature is empty.
    pub fn new(header: Header, payload: Payload) -> (t: Self)
        ensures
            t.spec_header() == header,
            t.spec_payload() == payload,
            t.spec_signature() == Seq::<char>::empty(),
    {
        Self { header, payload, signature: String::new() }
    }

    pub fn get_header(&self) -> (h: Header)
        ensures
            h == self.spec_header(),
    {
        self.header
    }

    pub fn get_payload(&self) -> (p: Payload)
        ensures
            p == self.spec_payload(),
    {
        Payload {
            sub: self.payload.sub.clone(),
            exp: self.payload.exp,
            iss: self.payload.iss.clone(),
            nbf: self.payload.nbf,
            jti: self.payload.jti,
            role: self.payload.role.clone(),
            is_active: self.payload.is_active,
            username: self.payload.username.clone(),
        }
    }

    pub fn get_signature(&self) -> (s: String)
        ensures
            s@ == self.spec_signature(),
    {
        self.signature.clone()
    }

    /// The signature segment for the header and payload JSON under the key.
    pub fn expected_signature(header_json: &[u8], payload_json: &[u8], master_key: &str) -> (s: String)
        ensures
            s@ == signature_of(header_json@, payload_json@, master_key.spec_bytes()),
            all_base64url_chars(s@),
            s@.len() == 43,
            forall|key: Seq<u8>|
                #[trigger] signature_of(header_json@, payload_json@, key) == s@ ==> hmac_sha256(
                    key,
                    signing_bytes(header_json@, payload_json@),
                ) == hmac_sha256(master_key.spec_bytes(), signing_bytes(header_json@, payload_json@)),
    {
        let data = Self::signing_text(header_json, payload_json);
        Self::sign_text(&data, master_key)
    }

    /// The encoded header and payload joined by `.`.
    fn signing_text(header_json: &[u8], payload_json: &[u8]) -> (data: String)
        ensures
            data@ == signing_input(header_json@, payload_json@),
            all_base64url_chars(base64url_encode(header_json@)),
            all_base64url_chars(base64url_encode(payload_json@)),
    {
        let mut data = encode_segment(header_json);
        proof {
            reveal_strlit(".");
        }
        data.append(".");
        data.append(encode_segment(payload_json).as_str());
        data
    }

    /// The encoded HMAC-SHA256 tag of the UTF-8 bytes of `data` under the key.
    fn sign_text(data: &String, master_key: &str) -> (signature: String)
        ensures
            signature@ == base64url_encode(hmac_sha256(master_key.spec_bytes(), encode_utf8(data@))),
            all_base64url_chars(signature@),
            signature@.len() == 43,
            forall|key: Seq<u8>|
                #[trigger] base64url_encode(hmac_sha256(key, encode_utf8(data@))) == signature@
                    ==> hmac_sha256(key, encode_utf8(data@)) == hmac_sha256(
                    master_key.spec_bytes(),
                    encode_utf8(data@),
                ),
    {
        let tag = hmac_sha256_tag(master_key.as_bytes(), data.as_str().as_bytes());
        encode_base64url(tag.as_slice())
    }

    /// The compact token for the header and payload JSON: the two encoded
    /// segments and the signature over them under the key, joined by `.`.
    pub fn build_jwt_from_json(header_json: &[u8], payload_json: &[u8], master_key: &str) -> (token:
        String)
        ensures
            token@ == signed_token(header_json@, payload_json@, master_key.spec_bytes()),
            segments_are_base64url(header_json@, payload_json@, master_key.spec_bytes()),
            signature_of(header_json@, payload_json@, master_key.spec_bytes()).len() == 43,
    {
        let mut data = Self::signing_text(header_json, payload_json);
        let output = Self::sign_text(&data, master_key);
        proof {
            reveal_strlit(".");
        }
        data.append(".");
        data.append(output.as_str());
        data
    }

    /// Reads the compact text of a token into its three segments, decoding the
    /// header and payload from URL-safe Base64. A token built by
    /// `build_jwt_from_json` reads back as the JSON and signature it was built from.
    pub fn split_jwt(token: &str) -> (r: Result<EncodedPieces, TokenError>)
        ensures
            split_as(token@, r),
            forall|header_json: Seq<u8>, payload_json: Seq<u8>, key: Seq<u8>|
                token@ == #[trigger] signed_token(header_json, payload_json, key)
                    && segments_are_base64url(header_json, payload_json, key) ==> (r matches Ok(e)
                    && e.header_json@ == header_json && e.payload_json@ == payload_json
                    && e.signature@ == signature_of(header_json, payload_json, key)),
    {
        broadcast use vstd::string::group_string_axioms;

        let n = token.unicode_len();
        let mut dots: usize = 0;
        let mut first: usize = 0;
        let mut second: usize = 0;
        let mut i: usize = 0;
        for c in it: token.chars()
            invariant
                n == token@.len(),
                it.seq() == token@,
                i == it.index(),
                i <= n,
                dots <= 3,
                ({
                    let pieces = split_dots(token@.take(i as int));
                    &&& dots < 3 ==> pieces.len() == dots + 1
                    &&& dots == 3 ==> pieces.len() >= 4
                    &&& dots == 0 ==> pieces[0] == token@.take(i as int)
                    &&& dots >= 1 ==> first < i && pieces[0] == token@.take(first as int)
                    &&& dots == 1 ==> pieces[1] == token@.subrange(first + 1, i as int)
                    &&& dots >= 2 ==> first < second < i && pieces[1] == token@.subrange(
                        first + 1,
                        second as int,
                    )
                    &&& dots == 2 ==> pieces[2] == token@.subrange(second + 1, i as int)
                }),
        {
            proof {
                let s = token@.take(i as int);
                let s1 = token@.take(i + 1);
                assert(s1.drop_last() =~= s);
                assert(s1.last() == c);
                crate::framing::lemma_split_dots_nonempty(s);
                if c != '.' {
                    if dots == 0 {
                        assert(token@.take(i + 1) =~= token@.take(i as int).push(c));
                    } else if dots == 1 {
                        assert(token@.subrange(first + 1, i + 1) =~= token@.subrange(
                            first + 1,
                            i as int,
                        ).push(c));
                    } else if dots == 2 {
                        assert(token@.subrange(second + 1, i + 1) =~= token@.subrange(
                            second + 1,
                            i as int,
                        ).push(c));
                    }
                } else {
                    assert(token@.subrange(i + 1, i + 1) =~= Seq::<char>::empty());
                }
            }
            if c == '.' {
                if dots == 0 {
                    first = i;
                } else if dots == 1 {
                    second = i;
                }
                if dots < 3 {
                    dots = dots + 1;
                }
            }
            i = i + 1;
        }
        proof {
            assert(token@.take(n as int) =~= token@);
        }
        let r = if dots != 2 {
            Err(TokenError::LengthError(String::from_str("Token length")))
        } else {
            let header_text = token.substring_char(0, first);
            let payload_text = token.substring_char(first + 1, second);
            let signature_text = token.substring_char(second + 1, n);
            match decode_base64url(header_text) {
                Err(e) => Err(TokenError::Base64DecodeError(e)),
                Ok(header_json) => match decode_base64url(payload_text) {
                    Err(e) => Err(TokenError::Base64DecodeError(e)),
                    Ok(payload_json) => Ok(
                        EncodedPieces {
                            header_json,
                            payload_json,
                            signature: String::from_str(signature_text),
                        },
                    ),
                },
            }
        };
        proof {
            assert forall|header_json: Seq<u8>, payload_json: Seq<u8>, key: Seq<u8>|
                token@ == #[trigger] signed_token(header_json, payload_json, key)
                    && segments_are_base64url(header_json, payload_json, key) implies (r matches Ok(
                e,
            ) && e.header_json@ == header_json && e.payload_json@ == payload_json && e.signature@
                == signature_of(header_json, payload_json, key)) by {
                lemma_signed_token_splits(header_json, payload_json, key);
                assert(base64url_encode(header_json) == split_dots(token@)[0]);
                assert(base64url_encode(payload_json) == split_dots(token@)[1]);
            }
        }
        r
    }

    /// Assembles a read token, refusing it when it has expired by the clock or
    /// its signature segment is too long; see `from_decoded_at`.
    pub fn from_decoded(header: Header, payload: Payload, signature: String) -> (r: Result<
        Self,
        TokenError,
    >)
        ensures
            exists|now: i64| #[trigger] assembled_as(header, payload, signature@, now, r),
    {
        let now = current_timestamp();
        Self::from_decoded_at(header, payload, signature, now)
    }

    /// Assembles a read token at time `now`: refused with `ExpiredToken` when
    /// its expiration lies before `now`, then with a `LengthError` when its
    /// signature segment is longer than `MAX_SIGNATURE_LEN` bytes.
    pub fn from_decoded_at(header: Header, payload: Payload, signature: String, now: i64) -> (r:
        Result<Self, TokenError>)
        ensures
            assembled_as(header, payload, signature@, now, r),
    {
        if payload.exp < now {
            return Err(TokenError::ExpiredToken);
        }
        if signature.as_str().as_bytes().len() > MAX_SIGNATURE_LEN {
            return Err(TokenError::LengthError(String::from_str("Invalid algorithm name")));
        }
        Ok(Self { header, payload, signature })
    }

    /// Checks a read token against the header and payload JSON it should carry
    /// and the key, at the time the clock gives; see `verify_decoded_at`.
    pub fn verify_decoded(
        header_json: &[u8],
        payload_json: &[u8],
        master_key: &str,
        token: TokenPieces,
    ) -> (r: Result<TokenPieces, TokenError>)
        ensures
            exists|now: i64|
                #[trigger] verified_as(
                    header_json@,
                    payload_json@,
                    master_key.spec_bytes(),
                    token,
                    now,
                    r,
                ),
            forall|key: Seq<u8>|
                token.spec_signature() == #[trigger] signature_of(header_json@, payload_json@, key)
                    && hmac_sha256(key, signing_bytes(header_json@, payload_json@)) != hmac_sha256(
                    master_key.spec_bytes(),
                    signing_bytes(header_json@, payload_json@),
                ) ==> r matches Err(TokenError::InvalidSignature),
    {
        let now = current_timestamp();
        Self::verify_decoded_at(header_json, payload_json, master_key, token, now)
    }

    /// Checks a read token at time `now`: its signature must equal, compared
    /// in constant time, the one made from the header and payload JSON under
    /// the key (else `InvalidSignature`); `now` must not lie before its start
    /// (else `NotYetValidToken`) nor after its expiration (else `ExpiredToken`).
    /// The accepted token comes back active. A token whose signature was made
    /// under another key, with another HMAC tag over the same bytes, is refused
    /// with `InvalidSignature`.
    pub fn verify_decoded_at(
        header_json: &[u8],
        payload_json: &[u8],
        master_key: &str,
        token: TokenPieces,
        now: i64,
    ) -> (r: Result<TokenPieces, TokenError>)
        ensures
            verified_as(header_json@, payload_json@, master_key.spec_bytes(), token, now, r),
            forall|key: Seq<u8>|
                token.spec_signature() == #[trigger] signature_of(header_json@, payload_json@, key)
                    && hmac_sha256(key, signing_bytes(header_json@, payload_json@)) != hmac_sha256(
                    master_key.spec_bytes(),
                    signing_bytes(header_json@, payload_json@),
                ) ==> r matches Err(TokenError::InvalidSignature),
    {
        let signature = Self::expected_signature(header_json, payload_json, master_key);
        Self::check_signature_at(token, signature, now)
    }

    /// Checks a read token at time `now` against the signature segment it
    /// should carry: the two must be equal, compared in constant time (else
    /// `InvalidSignature`); `now` must not lie before the token's start (else
    /// `NotYetValidToken`) nor after its expiration (else `ExpiredToken`). The
    /// accepted token comes back active, with the given signature.
    pub fn check_signature_at(token: TokenPieces, signature: String, now: i64) -> (r: Result<
        TokenPieces,
        TokenError,
    >)
        ensures
            checked_as(token, signature@, now, r),
    {
        let check = bytes_equal_in_constant_time(
            token.signature.as_str().as_bytes(),
            signature.as_str().as_bytes(),
        );
        proof {
            encode_utf8_decode_utf8(token.signature@);
            encode_utf8_decode_utf8(signature@);
        }
        if !check {
            return Err(TokenError::InvalidSignature);
        }
        if now < token.payload.nbf {
            return Err(TokenError::NotYetValidToken);
        } else if now > token.payload.exp {
            return Err(TokenError::ExpiredToken);
        }
        let mut token = token;
        token.payload.set_is_active(true);
        Ok(Self { header: token.header, payload: token.payload, signature })
    }
}

/// A token built from header and payload JSON under a key (whose signature
/// segment `build_jwt_from_json` makes URL-safe Base64 of 43 characters), once
/// read back and assembled with the header and payload that the JSON carries,
/// is kept; checked against the same JSON and key at a time within its window,
/// it is accepted and comes back active with its header and claims unchanged.
pub proof fn law_signed_token_is_accepted(
    header_json: Seq<u8>,
    payload_json: Seq<u8>,
    key: Seq<u8>,
    header: Header,
    payload: Payload,
    now: i64,
)
    requires
        segments_are_base64url(header_json, payload_json, key),
        signature_of(header_json, payload_json, key).len() == 43,
        payload.nbf <= now <= payload.exp,
    ensures
        forall|assembled: Result<TokenPieces, TokenError>|
            #[trigger] assembled_as(
                header,
                payload,
                signature_of(header_json, payload_json, key),
                now,
                assembled,
            ) ==> (assembled matches Ok(t) && forall|verified: Result<TokenPieces, TokenError>|
                #[trigger] verified_as(header_json, payload_json, key, t, now, verified) ==> (
                verified matches Ok(v) && v.spec_header() == header && v.spec_payload() == (Payload {
                    is_active: true,
                    ..payload
                }) && v.spec_signature() == signature_of(header_json, payload_json, key))),
{
    lemma_base64url_byte_len(signature_of(header_json, payload_json, key));
}

} // verus!
