//! The token type: construction, generation, constant-time equality, and
//! the secure-clear teardown hook.

use vstd::prelude::*;
use vstd::std_specs::cmp::PartialEqSpec;

verus! {

/// An opaque session token backed by owned random byte data.
///
/// Equality between tokens is decided in constant time with respect to the
/// byte content; see [`Token::constant_time_eq`]. Ordering, by contrast,
/// short-circuits and exists only for sorted containers; see the `order`
/// module.
#[derive(Debug, Hash)]
pub struct Token {
    pub(crate) data: Vec<u8>,
}

impl View for Token {
    type V = Seq<u8>;

    /// The mathematical value of a token is its byte sequence.
    open(crate) spec fn view(&self) -> Seq<u8> {
        self.data@
    }
}

/// Copies a byte buffer, one byte at a time, into a fresh allocation.
pub(crate) fn copy_bytes(src: &Vec<u8>) -> (r: Vec<u8>)
    ensures
        r@ == src@,
{
    let mut out: Vec<u8> = Vec::new();
    let mut i: usize = 0;
    while i < src.len()
        invariant
            i <= src@.len(),
            out@ == src@.subrange(0, i as int),
        decreases src@.len() - i,
    {
        out.push(src[i]);
        proof {
            assert(out@ =~= src@.subrange(0, i + 1));
        }
        i = i + 1;
    }
    proof {
        assert(out@ =~= src@);
    }
    out
}

/// Relies on `rand::fill`, which fills the slice with bytes drawn from the
/// thread-local cryptographically secure generator. Nothing can be promised
/// of the bytes themselves; only the length is stated.
#[verifier::external_body]
fn random_bytes(len: usize) -> (r: Vec<u8>)
    ensures
        r@.len() == len,
{
    let mut buf = vec![0u8; len];
    rand::fill(buf.as_mut_slice());
    buf
}

/// Relies on `constant_time_eq::constant_time_eq`, which returns whether the
/// two byte strings are equal, comparing equal-sized inputs in constant time
/// (inputs of different sizes are unequal and resolved early, which is
/// harmless: a length is not a secret).
#[verifier::external_body]
fn ct_eq(a: &Vec<u8>, b: &Vec<u8>) -> (r: bool)
    ensures
        r == (a@ == b@),
{
    constant_time_eq::constant_time_eq(a.as_slice(), b.as_slice())
}

impl Token {
    /// Wraps caller-supplied bytes directly, with no validation of their
    /// origin or entropy. The caller asserts that the bytes already meet the
    /// security requirements of a token: for example, that they were drawn
    /// from a cryptographically secure source, or arrived over a trusted
    /// channel. Misuse is a security bug, not a detectable error; any byte
    /// value is structurally valid.
    pub fn create(data: Vec<u8>) -> (t: Token)
        ensures
            t@ == data@,
    {
        Token { data }
    }

    /// Generates a fresh token of `len` uniformly random bytes from a
    /// cryptographically secure source. This is the only sanctioned
    /// production path for new tokens.
    pub fn generate(len: usize) -> (t: Token)
        ensures
            t@.len() == len,
    {
        Token { data: random_bytes(len) }
    }

    /// Compares the byte content of two tokens in constant time: for
    /// equal-length tokens the comparison visits every byte pair
    /// unconditionally, with no early exit whose timing could betray where
    /// a mismatch occurs. Tokens of different lengths are unequal and may
    /// be resolved early; a length is not a secret. This is the
    /// authoritative security gate for deciding whether a presented token
    /// matches a stored one.
    pub fn constant_time_eq(&self, other: &Token) -> (r: bool)
        ensures
            r == (self@ == other@),
    {
        ct_eq(&self.data, &other.data)
    }

    /// Overwrites the backing bytes with zeros, in place, to reduce the
    /// window in which a memory dump could recover the token value. Intended
    /// for teardown, when the owner holds exclusive access.
    pub fn clear(&mut self)
        ensures
            final(self)@.len() == old(self)@.len(),
            forall|i: int| 0 <= i < final(self)@.len() ==> final(self)@[i] == 0u8,
    {
        let n = self.data.len();
        let mut i: usize = 0;
        while i < n
            invariant
                i <= n,
                n == self@.len(),
                self@.len() == old(self)@.len(),
                forall|j: int| 0 <= j < i ==> self@[j] == 0u8,
            decreases n - i,
        {
            self.data.set(i, 0u8);
            i = i + 1;
        }
    }
}

impl PartialEq for Token {
    /// Token equality is the constant-time comparison, never a
    /// short-circuiting scan.
    fn eq(&self, other: &Token) -> (r: bool) {
        self.constant_time_eq(other)
    }
}

impl Eq for Token {}

impl vstd::std_specs::cmp::PartialEqSpecImpl for Token {
    open spec fn obeys_eq_spec() -> bool {
        true
    }

    open spec fn eq_spec(&self, other: &Token) -> bool {
        self@ == other@
    }
}

impl Clone for Token {
    /// A copy is deep and duplicates the same bytes; it never re-randomizes.
    fn clone(&self) -> (r: Token)
        ensures
            r@ == self@,
    {
        Token { data: copy_bytes(&self.data) }
    }
}

/// Equality is reflexive: every token equals itself, whatever its byte
/// content, not only freshly generated ones.
pub proof fn lemma_eq_reflexive(t: &Token)
    ensures
        t.eq_spec(t),
{
}

/// Tokens that compare equal hold the same byte sequence. Any hash computed
/// from a token's bytes therefore agrees on equal tokens.
pub proof fn lemma_equal_tokens_same_bytes(a: &Token, b: &Token)
    requires
        a.eq_spec(b),
    ensures
        a@ == b@,
{
}

} // verus!
