//! Securely held session tokens.
//!
//! A [`Token`] owns a sequence of random bytes. Equality between tokens runs
//! in constant time with respect to the byte content, so that an attacker
//! cannot recover a valid token byte by byte through response-time
//! measurement. Ordering is provided for use in sorted containers only; it
//! short-circuits on the first differing byte and must never stand in for
//! the constant-time equality check in a security-sensitive decision.

pub mod codec;
pub mod order;
pub mod token;

pub use codec::LengthError;
pub use token::Token;
