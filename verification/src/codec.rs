//! Conversion of tokens to and from an external byte-sequence
//! representation, for persistence or wire transfer.
//!
//! The mapping is direct and lossless: serializing emits exactly the
//! token's bytes, and deserializing accepts exactly as many bytes as the
//! expected token length, rejecting any other length with a structural
//! error — never truncating or padding.

use vstd::prelude::*;

use crate::token::copy_bytes;
use crate::token::Token;

verus! {

/// The structural error reported when a byte sequence of the wrong length
/// is decoded as a token.
#[derive(Clone, Copy, Debug, PartialEq, Eq, Structural)]
pub struct LengthError {
    /// The token length the caller expected.
    pub expected: usize,
    /// The length of the byte sequence that was presented.
    pub found: usize,
}

/// What decoding a byte sequence against an expected token length yields:
/// exactly the presented bytes when their length matches, nothing
/// otherwise.
pub open spec fn decoded(bytes: Seq<u8>, expected_len: nat) -> Option<Seq<u8>> {
    if bytes.len() == expected_len {
        Some(bytes)
    } else {
        None
    }
}

impl Token {
    /// Serializes the token as exactly its bytes: a direct, lossless
    /// mapping.
    pub fn serialize(&self) -> (r: Vec<u8>)
        ensures
            r@ == self@,
    {
        copy_bytes(&self.data)
    }

    /// Decodes a byte sequence of exactly `expected_len` bytes into a token
    /// through the unchecked construction path; the caller or transport
    /// layer carries the burden of validating the bytes' provenance. A
    /// sequence of any other length is rejected with a structural error.
    pub fn deserialize(bytes: &Vec<u8>, expected_len: usize) -> (r: Result<Token, LengthError>)
        ensures
            match r {
                Ok(t) => decoded(bytes@, expected_len as nat) == Some(t@),
                Err(e) => {
                    &&& decoded(bytes@, expected_len as nat) is None
                    &&& e.expected == expected_len
                    &&& e.found == bytes@.len()
                },
            },
    {
        if bytes.len() == expected_len {
            Ok(Token::create(copy_bytes(bytes)))
        } else {
            Err(LengthError { expected: expected_len, found: bytes.len() })
        }
    }
}

/// Round trip: a token's serialized bytes decode, against the token's own
/// length, to exactly the original byte sequence — so deserializing a
/// serialized token yields a token equal to the original.
pub proof fn lemma_round_trip(t: &Token)
    ensures
        decoded(t@, t@.len()) == Some(t@),
{
}

} // verus!
