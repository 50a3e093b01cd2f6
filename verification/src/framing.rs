//! The compact form of a token: three segments joined by `.`, the first two
//! the URL-safe Base64 text of the header and payload JSON, the third the
//! URL-safe Base64 text of their HMAC-SHA256 tag.
use vstd::prelude::*;
use vstd::utf8::*;

use crate::foreign::{
    all_base64url_chars, base64url_encode, encode_base64url, hmac_sha256, is_base64url_char,
};

verus! {

/// The pieces of `s` between its `.` characters, in order, as `str::split('.')`
/// yields them: one more piece than there are dots, empty pieces included.
pub open spec fn split_dots(s: Seq<char>) -> Seq<Seq<char>>
    decreases s.len(),
{
    if s.len() == 0 {
        seq![Seq::empty()]
    } else if s.last() == '.' {
        split_dots(s.drop_last()).push(Seq::empty())
    } else {
        let pieces = split_dots(s.drop_last());
        pieces.update(pieces.len() - 1, pieces.last().push(s.last()))
    }
}

/// `s` holds no `.`.
pub open spec fn no_dot(s: Seq<char>) -> bool {
    forall|i: int| 0 <= i < s.len() ==> s[i] != '.'
}

/// The text that is signed: the encoded header and payload joined by `.`.
pub open spec fn signing_input(header_json: Seq<u8>, payload_json: Seq<u8>) -> Seq<char> {
    base64url_encode(header_json) + seq!['.'] + base64url_encode(payload_json)
}

/// The bytes that are signed: the UTF-8 bytes of the signing input.
pub open spec fn signing_bytes(header_json: Seq<u8>, payload_json: Seq<u8>) -> Seq<u8> {
    encode_utf8(signing_input(header_json, payload_json))
}

/// The signature segment: the encoded HMAC-SHA256 tag, under `key`, of the
/// signed bytes.
pub open spec fn signature_of(header_json: Seq<u8>, payload_json: Seq<u8>, key: Seq<u8>) -> Seq<char> {
    base64url_encode(hmac_sha256(key, signing_bytes(header_json, payload_json)))
}

/// The token built from the header and payload JSON under `key`.
pub open spec fn signed_token(header_json: Seq<u8>, payload_json: Seq<u8>, key: Seq<u8>) -> Seq<char> {
    signing_input(header_json, payload_json) + seq!['.'] + signature_of(header_json, payload_json, key)
}

/// All three segments of the token built from these inputs are URL-safe Base64
/// text, so none holds a `.`.
pub open spec fn segments_are_base64url(header_json: Seq<u8>, payload_json: Seq<u8>, key: Seq<u8>) -> bool {
    &&& all_base64url_chars(base64url_encode(header_json))
    &&& all_base64url_chars(base64url_encode(payload_json))
    &&& all_base64url_chars(signature_of(header_json, payload_json, key))
}

pub proof fn lemma_split_dots_nonempty(s: Seq<char>)
    ensures
        split_dots(s).len() >= 1,
    decreases s.len(),
{
    if s.len() > 0 {
        lemma_split_dots_nonempty(s.drop_last());
    }
}

/// Text without a dot is one piece.
pub proof fn lemma_split_no_dot(s: Seq<char>)
    requires
        no_dot(s),
    ensures
        split_dots(s) == seq![s],
    decreases s.len(),
{
    if s.len() > 0 {
        let init = s.drop_last();
        assert(no_dot(init));
        lemma_split_no_dot(init);
        assert(s.last() != '.');
        assert(init.push(s.last()) =~= s);
        assert(split_dots(s) =~= seq![s]);
    } else {
        assert(s =~= Seq::<char>::empty());
    }
}

/// Splitting at a dot splits the two sides apart.
pub proof fn lemma_split_at_dot(x: Seq<char>, y: Seq<char>)
    ensures
        split_dots(x + seq!['.'] + y) == split_dots(x) + split_dots(y),
    decreases y.len(),
{
    lemma_split_dots_nonempty(x);
    lemma_split_dots_nonempty(y);
    let s = x + seq!['.'] + y;
    if y.len() == 0 {
        assert(s.drop_last() =~= x);
        assert(split_dots(s) =~= split_dots(x) + split_dots(y));
    } else {
        let y0 = y.drop_last();
        lemma_split_at_dot(x, y0);
        lemma_split_dots_nonempty(y0);
        assert(s.drop_last() =~= x + seq!['.'] + y0);
        assert(s.last() == y.last());
        assert(split_dots(s) =~= split_dots(x) + split_dots(y));
    }
}

/// Three dot-free texts joined by dots split back into those three.
pub proof fn lemma_split_three(a: Seq<char>, b: Seq<char>, c: Seq<char>)
    requires
        no_dot(a),
        no_dot(b),
        no_dot(c),
    ensures
        split_dots(a + seq!['.'] + b + seq!['.'] + c) == seq![a, b, c],
{
    lemma_split_no_dot(a);
    lemma_split_no_dot(b);
    lemma_split_no_dot(c);
    lemma_split_at_dot(a + seq!['.'] + b, c);
    lemma_split_at_dot(a, b);
    assert(a + seq!['.'] + b + seq!['.'] + c =~= (a + seq!['.'] + b) + seq!['.'] + c);
    assert(split_dots(a + seq!['.'] + b + seq!['.'] + c) =~= seq![a, b, c]);
}

/// URL-safe Base64 text holds no dot.
pub proof fn lemma_base64url_no_dot(s: Seq<char>)
    requires
        all_base64url_chars(s),
    ensures
        no_dot(s),
{
    assert forall|i: int| 0 <= i < s.len() implies s[i] != '.' by {
        assert(is_base64url_char(s[i]));
    }
}

/// URL-safe Base64 text is ASCII, so its UTF-8 bytes are as many as its characters.
pub proof fn lemma_base64url_byte_len(s: Seq<char>)
    requires
        all_base64url_chars(s),
    ensures
        encode_utf8(s).len() == s.len(),
{
    assert(is_ascii_chars(s)) by {
        assert forall|i: int| 0 <= i < s.len() implies '\0' <= #[trigger] s[i] <= '\u{7f}' by {
            assert(is_base64url_char(s[i]));
        }
    }
    is_ascii_chars_encode_utf8(s);
}

/// The segments of the signed token split back out of it.
pub proof fn lemma_signed_token_splits(header_json: Seq<u8>, payload_json: Seq<u8>, key: Seq<u8>)
    requires
        segments_are_base64url(header_json, payload_json, key),
    ensures
        split_dots(signed_token(header_json, payload_json, key)) == seq![
            base64url_encode(header_json),
            base64url_encode(payload_json),
            signature_of(header_json, payload_json, key),
        ],
{
    let a = base64url_encode(header_json);
    let b = base64url_encode(payload_json);
    let c = signature_of(header_json, payload_json, key);
    lemma_base64url_no_dot(a);
    lemma_base64url_no_dot(b);
    lemma_base64url_no_dot(c);
    lemma_split_three(a, b, c);
}

/// The URL-safe Base64 text of a JSON segment, as it stands in a token.
pub fn encode_segment(json: &[u8]) -> (text: String)
    ensures
        text@ == base64url_encode(json@),
        all_base64url_chars(text@),
{
    encode_base64url(json)
}

} // verus!
