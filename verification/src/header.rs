use vstd::prelude::*;

use crate::errors::TokenError;

verus! {

/// The signing algorithm named in a token header.
#[derive(Debug, Clone, Copy)]
pub enum Algorithm {
    HS256,
}

/// The media type named in a token header.
#[derive(Debug, Clone, Copy)]
pub enum TokenType {
    Jwt,
}

/// The header segment of a token.
#[derive(Debug, Clone, Copy)]
pub struct Header {
    pub alg: Algorithm,
    pub typ: TokenType,
}

impl Header {
    /// A header with the given algorithm and type; this never fails.
    pub fn new(alg: Algorithm, typ: TokenType) -> (r: Result<Self, TokenError>)
        ensures
            r matches Ok(h) && h == (Header { alg, typ }),
    {
        Ok(Self { alg, typ })
    }

    /// Replaces the algorithm and hands back the header for further changes.
    pub fn with_alg(&mut self, alg: Algorithm) -> (r: &mut Self)
        ensures
            *r == (Header { alg, typ: old(self).typ }),
            *final(self) == *final(r),
    {
        self.alg = alg;
        self
    }

    /// Replaces the type and hands back the header for further changes.
    pub fn with_typ(&mut self, typ: TokenType) -> (r: &mut Self)
        ensures
            *r == (Header { alg: old(self).alg, typ }),
            *final(self) == *final(r),
    {
        self.typ = typ;
        self
    }
}

} // verus!
