pub mod constructor;
pub mod errors;
pub mod foreign;
pub mod framing;
pub mod header;
pub mod payload;

pub use constructor::{EncodedPieces, TokenPieces};
pub use framing::encode_segment;
pub use errors::{decimal_text, signed_decimal_text, TokenError};
pub use header::{Algorithm, Header, TokenType};
pub use payload::{Payload, PayloadBytes, ReservedClaims};
