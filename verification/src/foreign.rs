//! The calls this library makes into other crates, each behind a contract that
//! states what that crate's source and documentation show of it.
use hmac::Mac;
use subtle::ConstantTimeEq;
use vstd::prelude::*;

verus! {

#[verifier::external_type_specification]
#[verifier::external_body]
pub struct ExRegex(regex::Regex);

#[verifier::external_type_specification]
#[verifier::external_body]
pub struct ExUuid(uuid::Uuid);

/// `uuid::Uuid` derives `Clone` beside `Copy`, so a clone is the same
/// identifier.
pub assume_specification[ <uuid::Uuid as core::clone::Clone>::clone ](id: &uuid::Uuid) -> (copy: uuid::Uuid)
    ensures
        copy == *id,
;

#[verifier::external_type_specification]
#[verifier::external_body]
pub struct ExDecodeError(base64_url::base64::DecodeError);

#[verifier::external_type_specification]
#[verifier::external_body]
pub struct ExJsonError(serde_json::Error);

#[verifier::external_type_specification]
#[verifier::external_body]
pub struct ExUtf8Error(core::str::Utf8Error);

/// The characters of the URL-safe Base64 alphabet (RFC 4648, section 5).
pub open spec fn is_base64url_char(c: char) -> bool {
    ||| ('A' <= c && c <= 'Z')
    ||| ('a' <= c && c <= 'z')
    ||| ('0' <= c && c <= '9')
    ||| c == '-'
    ||| c == '_'
}

/// Every character of `s` belongs to the URL-safe Base64 alphabet.
pub open spec fn all_base64url_chars(s: Seq<char>) -> bool {
    forall|i: int| 0 <= i < s.len() ==> is_base64url_char(#[trigger] s[i])
}

/// The unpadded URL-safe Base64 text of `data`, as `base64_url::encode` writes it.
pub uninterp spec fn base64url_encode(data: Seq<u8>) -> Seq<char>;

/// The bytes that `base64_url::decode` reads from `text`, or `None` where it
/// reports an error.
pub uninterp spec fn base64url_decode(text: Seq<char>) -> Option<Seq<u8>>;

/// The 32-byte HMAC-SHA256 tag of `message` under `key` (RFC 2104).
pub uninterp spec fn hmac_sha256(key: Seq<u8>, message: Seq<u8>) -> Seq<u8>;

/// Whether `regex::Regex::new` accepts `pattern`.
pub uninterp spec fn regex_compiles(pattern: Seq<char>) -> bool;

/// The `Display` text of the error that `regex::Regex::new` reports for `pattern`.
pub uninterp spec fn regex_error_text(pattern: Seq<char>) -> Seq<char>;

/// Whether the compiled `pattern` finds a match somewhere in `haystack`
/// (`regex::Regex::captures` returns `Some`).
pub uninterp spec fn regex_finds_match(pattern: Seq<char>, haystack: Seq<char>) -> bool;

/// Calls `base64_url::encode`, which uses the URL-safe alphabet without `=`
/// padding. Claimed: the text is the named encoding of `data`, holds only
/// characters of that alphabet, has `ceil(4 * n / 3)` characters for `n`
/// bytes (the unpadded length that `base64::encoded_len` gives), and is the
/// encoding of no other bytes (each 6-bit group is written as its own symbol,
/// and the decoder, which refuses non-canonical final symbols, reads it back).
#[verifier::external_body]
pub(crate) fn encode_base64url(data: &[u8]) -> (text: String)
    ensures
        text@ == base64url_encode(data@),
        all_base64url_chars(text@),
        text@.len() == (4 * data@.len() + 2) / 3,
        forall|other: Seq<u8>| #[trigger] base64url_encode(other) == text@ ==> other == data@,
{
    base64_url::encode(data)
}

/// Calls `base64_url::decode`. Claimed: it succeeds exactly when the named
/// decoding is defined, gives back those bytes, accepts only the text that
/// `base64_url::encode` writes for the bytes it gives back (no padding, no
/// nonzero trailing bits), and gives back `data` from the text written for
/// `data`.
#[verifier::external_body]
pub(crate) fn decode_base64url(text: &str) -> (r: Result<Vec<u8>, base64_url::base64::DecodeError>)
    ensures
        r is Ok <==> base64url_decode(text@) is Some,
        r matches Ok(bytes) ==> base64url_decode(text@) == Some(bytes@),
        r matches Ok(bytes) ==> base64url_encode(bytes@) == text@,
        forall|data: Seq<u8>|
            #[trigger] base64url_encode(data) == text@ ==> r is Ok && r->Ok_0@ == data,
{
    base64_url::decode(text)
}

/// Computes HMAC-SHA256 with the `hmac` and `sha2` crates (`Hmac<Sha256>`,
/// which takes a key of any length). Claimed: the tag is the named one and has
/// 32 bytes.
#[verifier::external_body]
pub(crate) fn hmac_sha256_tag(key: &[u8], message: &[u8]) -> (tag: Vec<u8>)
    ensures
        tag@ == hmac_sha256(key@, message@),
        tag@.len() == 32,
{
    let mac = hmac::Hmac::<sha2::Sha256>::new_from_slice(key).expect("HMAC takes keys of any length");
    mac.chain_update(message).finalize().into_bytes().to_vec()
}

/// Calls `subtle::ConstantTimeEq::ct_eq` on two byte slices and turns the
/// `Choice` into a `bool`. Claimed: true exactly when the slices hold the same
/// bytes (the source compares lengths first, then every byte).
#[verifier::external_body]
pub(crate) fn bytes_equal_in_constant_time(a: &[u8], b: &[u8]) -> (equal: bool)
    ensures
        equal == (a@ == b@),
{
    bool::from(a.ct_eq(b))
}

/// Reads the clock through `chrono::Utc::now` and returns its Unix timestamp in
/// seconds. Nothing is claimed of the value.
#[verifier::external_body]
pub(crate) fn current_timestamp() -> i64 {
    chrono::Utc::now().timestamp()
}

/// Calls `uuid::Uuid::nil`, the identifier with all bits zero (the value of
/// `Uuid::default`). The type is opaque here, so nothing is claimed of it.
#[verifier::external_body]
pub(crate) fn nil_uuid() -> uuid::Uuid {
    uuid::Uuid::nil()
}

/// Calls the `Display` impl of `base64::DecodeError`. Nothing is claimed of
/// the text.
#[verifier::external_body]
pub(crate) fn decode_error_text(e: &base64_url::base64::DecodeError) -> String {
    e.to_string()
}

/// Calls the `Display` impl of `serde_json::Error`. Nothing is claimed of the
/// text.
#[verifier::external_body]
pub(crate) fn json_error_text(e: &serde_json::Error) -> String {
    e.to_string()
}

/// Calls the `Display` impl of `core::str::Utf8Error`. Nothing is claimed of
/// the text.
#[verifier::external_body]
pub(crate) fn utf8_error_text(e: &core::str::Utf8Error) -> String {
    e.to_string()
}

/// An ASCII letter or digit: what the class `[A-Za-z0-9]` matches.
pub open spec fn is_ascii_letter_or_digit(c: char) -> bool {
    ||| ('A' <= c && c <= 'Z')
    ||| ('a' <= c && c <= 'z')
    ||| ('0' <= c && c <= '9')
}

/// A character of Unicode's `White_Space` property, which `\s` matches in the
/// `regex` crate's default Unicode mode (the table of regex-syntax's
/// `unicode_tables/perl_space.rs`).
pub open spec fn is_unicode_white_space(c: char) -> bool {
    ||| ('\t' <= c && c <= '\r')
    ||| c == ' '
    ||| c == '\u{85}'
    ||| c == '\u{a0}'
    ||| c == '\u{1680}'
    ||| ('\u{2000}' <= c && c <= '\u{200a}')
    ||| c == '\u{2028}'
    ||| c == '\u{2029}'
    ||| c == '\u{202f}'
    ||| c == '\u{205f}'
    ||| c == '\u{3000}'
}

/// `text` holds from 1 to `max` characters, each an ASCII letter or digit, or
/// also white space when `spaces`.
pub open spec fn is_class_run(text: Seq<char>, spaces: bool, max: nat) -> bool {
    &&& 1 <= text.len() <= max
    &&& forall|i: int|
        0 <= i < text.len() ==> (is_ascii_letter_or_digit(#[trigger] text[i]) || (spaces
            && is_unicode_white_space(text[i])))
}

/// One of the anchored patterns whose matches are given below.
pub open spec fn is_documented_pattern(pattern: Seq<char>) -> bool {
    ||| pattern == "^[A-Za-z0-9]{1,50}$"@
    ||| pattern == "^[A-Za-z0-9\\s]{1,200}$"@
    ||| pattern == "^[A-Za-z0-9]{1,15}$"@
    ||| pattern == "^[A-Za-z0-9]{1,100}$"@
}

/// What the `regex` syntax documentation makes of those patterns: `^` and `$`
/// anchor at the start and end of the haystack (no multi-line mode), `{1,n}`
/// repeats the class from 1 to `n` times, and `\s` is `\p{White_Space}`; so
/// `found` tells whether the whole haystack is such a run.
pub open spec fn documented_match(pattern: Seq<char>, haystack: Seq<char>, found: bool) -> bool {
    &&& pattern == "^[A-Za-z0-9]{1,50}$"@ ==> found == is_class_run(haystack, false, 50)
    &&& pattern == "^[A-Za-z0-9\\s]{1,200}$"@ ==> found == is_class_run(haystack, true, 200)
    &&& pattern == "^[A-Za-z0-9]{1,15}$"@ ==> found == is_class_run(haystack, false, 15)
    &&& pattern == "^[A-Za-z0-9]{1,100}$"@ ==> found == is_class_run(haystack, false, 100)
}

/// A regular expression compiled by the `regex` crate, kept with the pattern
/// it was compiled from.
pub struct Pattern {
    regex: regex::Regex,
    source: Ghost<Seq<char>>,
}

impl View for Pattern {
    type V = Seq<char>;

    /// The pattern text this expression was compiled from.
    closed spec fn view(&self) -> Seq<char> {
        self.source@
    }
}

/// Calls `regex::Regex::new`. Claimed: it succeeds exactly when the pattern is
/// one that `Regex::new` accepts, which the documented patterns are; the
/// compiled expression remembers the pattern; a failure carries the named
/// `Display` text of the `regex::Error`.
#[verifier::external_body]
pub(crate) fn compile_pattern(source: &str) -> (r: Result<Pattern, String>)
    ensures
        r is Ok <==> regex_compiles(source@),
        is_documented_pattern(source@) ==> r is Ok,
        r matches Ok(p) ==> p@ == source@,
        r matches Err(text) ==> text@ == regex_error_text(source@),
{
    match regex::Regex::new(source) {
        Ok(regex) => Ok(Pattern { regex, source: Ghost(source@) }),
        Err(e) => Err(e.to_string()),
    }
}

/// Calls `regex::Regex::captures` and tests the result for `Some`. Claimed:
/// true exactly when the compiled pattern matches somewhere in `haystack`, and
/// for the documented patterns, as their syntax says.
#[verifier::external_body]
pub(crate) fn pattern_finds_match(p: &Pattern, haystack: &str) -> (found: bool)
    ensures
        found == regex_finds_match(p@, haystack@),
        documented_match(p@, haystack@, found),
{
    p.regex.captures(haystack).is_some()
}

} // verus!
