# jwt_core

HS256 JSON Web Tokens: claim checks on payloads, and the compact
`header.payload.signature` form, built and read back.

- `src/` is verified with Verus. `framing.rs` states the compact form and
  proves that a built token splits back into the JSON it was built from;
  `constructor.rs` builds, reads, assembles and checks tokens; `payload.rs`
  checks claims against their patterns and the validity window; `errors.rs`
  holds the error type and its texts; `foreign.rs` holds the contracts of the
  calls into `base64-url`, `hmac`/`sha2`, `subtle`, `regex`, `chrono` and `uuid`.
- `app/` holds the serde-facing copies of the types, which turn headers and
  payloads into JSON and back and hand the bytes to the library.

HMAC-SHA256 is computed with `Hmac<Sha256>` from the `hmac` and `sha2` crates,
which implement RFC 2104 over SHA-256; a test checks the result against a
published HS256 token.
