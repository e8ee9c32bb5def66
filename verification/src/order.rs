//! Three-way ordering of tokens, for use as keys in sorted containers.
//!
//! The order is: shorter tokens first, whatever their content; tokens of
//! equal length by the first differing byte pair. This comparison
//! deliberately short-circuits on the first difference and is therefore not
//! constant-time. It exists purely for sorting and indexing convenience and
//! must never replace the constant-time equality check in any
//! security-sensitive decision, such as authenticating a presented token
//! against a stored one.

use core::cmp::Ordering;
use vstd::prelude::*;
use vstd::std_specs::cmp::PartialEqSpec;

use crate::token::Token;

verus! {

/// Lexicographic comparison of byte sequences: the first differing pair
/// decides; a proper prefix orders before any longer sequence.
pub open spec fn lex_cmp(a: Seq<u8>, b: Seq<u8>) -> Ordering
    decreases a.len(),
{
    if a.len() == 0 && b.len() == 0 {
        Ordering::Equal
    } else if a.len() == 0 {
        Ordering::Less
    } else if b.len() == 0 {
        Ordering::Greater
    } else if a[0] < b[0] {
        Ordering::Less
    } else if a[0] > b[0] {
        Ordering::Greater
    } else {
        lex_cmp(a.drop_first(), b.drop_first())
    }
}

/// The order on tokens: by length first, then lexicographically.
pub open spec fn token_cmp(a: Seq<u8>, b: Seq<u8>) -> Ordering {
    if a.len() < b.len() {
        Ordering::Less
    } else if a.len() > b.len() {
        Ordering::Greater
    } else {
        lex_cmp(a, b)
    }
}

/// Skipping an equal prefix does not change the lexicographic comparison.
proof fn lemma_lex_skip_equal_prefix(a: Seq<u8>, b: Seq<u8>, i: int)
    requires
        a.len() == b.len(),
        0 <= i <= a.len(),
        forall|j: int| 0 <= j < i ==> a[j] == b[j],
    ensures
        lex_cmp(a, b) == lex_cmp(a.skip(i), b.skip(i)),
    decreases i,
{
    if i == 0 {
        assert(a.skip(0) =~= a);
        assert(b.skip(0) =~= b);
    } else {
        assert(a[0] == b[0]);
        assert(forall|j: int|
            0 <= j < i - 1 ==> #[trigger] a.drop_first()[j] == b.drop_first()[j]);
        lemma_lex_skip_equal_prefix(a.drop_first(), b.drop_first(), i - 1);
        assert(a.drop_first().skip(i - 1) =~= a.skip(i));
        assert(b.drop_first().skip(i - 1) =~= b.skip(i));
    }
}

/// Equal-length sequences compare lexicographically equal exactly when they
/// are the same sequence.
proof fn lemma_lex_equal_iff(a: Seq<u8>, b: Seq<u8>)
    requires
        a.len() == b.len(),
    ensures
        lex_cmp(a, b) == Ordering::Equal <==> a == b,
    decreases a.len(),
{
    if a.len() == 0 {
        assert(a =~= b);
    } else {
        lemma_lex_equal_iff(a.drop_first(), b.drop_first());
        if lex_cmp(a, b) == Ordering::Equal {
            assert forall|j: int| 0 <= j < a.len() implies a[j] == b[j] by {
                if j > 0 {
                    assert(a.drop_first()[j - 1] == b.drop_first()[j - 1]);
                }
            }
            assert(a =~= b);
        }
        if a == b {
            assert(a.drop_first() =~= b.drop_first());
        }
    }
}

/// Swapping the arguments of the lexicographic comparison mirrors the
/// result.
proof fn lemma_lex_antisymmetric(a: Seq<u8>, b: Seq<u8>)
    ensures
        lex_cmp(a, b) == Ordering::Less <==> lex_cmp(b, a) == Ordering::Greater,
        lex_cmp(a, b) == Ordering::Equal <==> lex_cmp(b, a) == Ordering::Equal,
    decreases a.len() + b.len(),
{
    if a.len() > 0 && b.len() > 0 && a[0] == b[0] {
        lemma_lex_antisymmetric(a.drop_first(), b.drop_first());
    }
}

/// The lexicographic order is transitive.
proof fn lemma_lex_transitive(a: Seq<u8>, b: Seq<u8>, c: Seq<u8>)
    requires
        lex_cmp(a, b) == Ordering::Less,
        lex_cmp(b, c) == Ordering::Less,
    ensures
        lex_cmp(a, c) == Ordering::Less,
    decreases a.len() + b.len() + c.len(),
{
    if a.len() > 0 && b.len() > 0 && c.len() > 0 && a[0] == b[0] && b[0] == c[0] {
        lemma_lex_transitive(a.drop_first(), b.drop_first(), c.drop_first());
    }
}

/// For same-length tokens the comparison is a total order compatible with
/// equality: exactly one of less, equal and greater holds, and the result is
/// `Equal` precisely when the constant-time equality accepts the pair.
pub proof fn lemma_compare_matches_equality(a: &Token, b: &Token)
    requires
        a@.len() == b@.len(),
    ensures
        token_cmp(a@, b@) == Ordering::Less || token_cmp(a@, b@) == Ordering::Equal
            || token_cmp(a@, b@) == Ordering::Greater,
        token_cmp(a@, b@) == Ordering::Equal <==> a.eq_spec(b),
{
    lemma_lex_equal_iff(a@, b@);
}

/// A shorter token orders before a longer one regardless of content.
pub proof fn lemma_shorter_orders_first(a: Seq<u8>, b: Seq<u8>)
    requires
        a.len() < b.len(),
    ensures
        token_cmp(a, b) == Ordering::Less,
{
}

/// The token order is antisymmetric over all tokens, mixed lengths
/// included: swapping the arguments mirrors the result.
pub proof fn lemma_compare_antisymmetric(a: Seq<u8>, b: Seq<u8>)
    ensures
        token_cmp(a, b) == Ordering::Less <==> token_cmp(b, a) == Ordering::Greater,
        token_cmp(a, b) == Ordering::Equal <==> token_cmp(b, a) == Ordering::Equal,
{
    if a.len() == b.len() {
        lemma_lex_antisymmetric(a, b);
    }
}

/// The token order is transitive over all tokens, mixed lengths included.
pub proof fn lemma_compare_transitive(a: Seq<u8>, b: Seq<u8>, c: Seq<u8>)
    requires
        token_cmp(a, b) == Ordering::Less,
        token_cmp(b, c) == Ordering::Less,
    ensures
        token_cmp(a, c) == Ordering::Less,
{
    if a.len() == b.len() && b.len() == c.len() {
        lemma_lex_transitive(a, b, c);
    }
}

impl Token {
    /// Three-way comparison, primarily to support use as keys in ordered
    /// containers, not for security decisions. Shorter tokens order first;
    /// equal-length tokens order by the first differing byte pair. The scan
    /// stops at the first difference, so this is explicitly NOT
    /// constant-time: use [`Token::constant_time_eq`] for any
    /// security-sensitive equality decision.
    pub fn compare(&self, other: &Token) -> (r: Ordering)
        ensures
            r == token_cmp(self@, other@),
    {
        let n = self.data.len();
        let m = other.data.len();
        if n < m {
            return Ordering::Less;
        }
        if n > m {
            return Ordering::Greater;
        }
        let mut i: usize = 0;
        while i < n
            invariant
                i <= n,
                n == self@.len(),
                n == other@.len(),
                forall|j: int| 0 <= j < i ==> self@[j] == other@[j],
            decreases n - i,
        {
            let x = self.data[i];
            let y = other.data[i];
            if x != y {
                proof {
                    lemma_lex_skip_equal_prefix(self@, other@, i as int);
                    assert(self@.skip(i as int)[0] == self@[i as int]);
                    assert(other@.skip(i as int)[0] == other@[i as int]);
                }
                if x < y {
                    return Ordering::Less;
                }
                return Ordering::Greater;
            }
            i = i + 1;
        }
        proof {
            lemma_lex_skip_equal_prefix(self@, other@, n as int);
            assert(self@.skip(n as int).len() == 0);
            assert(other@.skip(n as int).len() == 0);
        }
        Ordering::Equal
    }
}

impl PartialOrd for Token {
    /// The partial order is the total [`Token::compare`] order; it never
    /// returns `None`.
    fn partial_cmp(&self, other: &Token) -> (r: Option<Ordering>) {
        Some(self.compare(other))
    }
}

impl vstd::std_specs::cmp::PartialOrdSpecImpl for Token {
    open spec fn obeys_partial_cmp_spec() -> bool {
        true
    }

    open spec fn partial_cmp_spec(&self, other: &Token) -> Option<Ordering> {
        Some(token_cmp(self@, other@))
    }
}

} // verus!
