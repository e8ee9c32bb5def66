use std::collections::hash_map::DefaultHasher;
use std::hash::Hash;
use std::hash::Hasher;

use tok::Token;

fn hash_of(t: &Token) -> u64 {
    let mut s = DefaultHasher::new();
    t.hash(&mut s);
    s.finish()
}

#[test]
fn test_token_eq() {
    let tok: Token = Token::generate(32);
    let tok2 = Token::generate(32);

    assert!(tok != tok2);
}

#[test]
fn test_token_ord() {
    let tok: Token = Token::generate(32);
    let tok2 = Token::generate(32);

    assert!(tok < tok2 || tok > tok2)
}

#[test]
fn test_hash() {
    let tok1: Token = Token::generate(32);
    let hash1 = hash_of(&tok1);

    let tok2: Token = Token::generate(32);
    let hash2 = hash_of(&tok2);

    assert!(hash1 != hash2);
}

#[test]
fn generate_has_requested_length() {
    assert_eq!(Token::generate(16).serialize().len(), 16);
    assert_eq!(Token::generate(32).serialize().len(), 32);
    assert_eq!(Token::generate(0).serialize().len(), 0);
}

#[test]
fn fresh_tokens_differ() {
    let a = Token::generate(32);
    let b = Token::generate(32);
    assert!(!a.constant_time_eq(&b));
}

#[test]
fn equality_is_reflexive() {
    let t = Token::create(vec![0x00, 0xff, 0x7f, 0x00]);
    assert!(t.constant_time_eq(&t));
    let g = Token::generate(16);
    assert!(g.constant_time_eq(&g));
}

#[test]
fn same_bytes_compare_equal() {
    let bytes: Vec<u8> = (1u8..=0x20).collect();
    let a = Token::create(bytes.clone());
    let b = Token::create(bytes);
    assert!(a.constant_time_eq(&b));
    assert!(a == b);
}

#[test]
fn flipped_byte_breaks_equality() {
    let bytes: Vec<u8> = (1u8..=0x20).collect();
    let a = Token::create(bytes.clone());
    let mut flipped = bytes;
    flipped[17] = 0x00;
    let b = Token::create(flipped);
    assert!(!a.constant_time_eq(&b));
    assert!(a != b);
    assert!(a.compare(&b) != std::cmp::Ordering::Equal);
}

#[test]
fn compare_is_trichotomous_and_matches_equality() {
    let a = Token::create(vec![1, 2, 3]);
    let b = Token::create(vec![1, 2, 4]);
    let c = Token::create(vec![1, 2, 3]);

    assert_eq!(a.compare(&b), std::cmp::Ordering::Less);
    assert_eq!(b.compare(&a), std::cmp::Ordering::Greater);
    assert_eq!(a.compare(&c), std::cmp::Ordering::Equal);
    assert!(a.constant_time_eq(&c));
    assert!(!a.constant_time_eq(&b));
}

#[test]
fn shorter_tokens_order_first() {
    let short_large = Token::create(vec![0xff, 0xff]);
    let long_small = Token::create(vec![0x00, 0x00, 0x00]);
    assert_eq!(short_large.compare(&long_small), std::cmp::Ordering::Less);
    assert_eq!(long_small.compare(&short_large), std::cmp::Ordering::Greater);
    assert!(short_large < long_small);
}

#[test]
fn ordering_is_antisymmetric_and_transitive() {
    let tokens = vec![
        Token::create(vec![]),
        Token::create(vec![0x05]),
        Token::create(vec![0xfe]),
        Token::create(vec![0x01, 0x02]),
        Token::create(vec![0x01, 0x03]),
        Token::create(vec![0xaa, 0xbb, 0xcc]),
    ];
    for x in &tokens {
        for y in &tokens {
            match x.compare(y) {
                std::cmp::Ordering::Less => {
                    assert_eq!(y.compare(x), std::cmp::Ordering::Greater)
                }
                std::cmp::Ordering::Equal => {
                    assert_eq!(y.compare(x), std::cmp::Ordering::Equal)
                }
                std::cmp::Ordering::Greater => {
                    assert_eq!(y.compare(x), std::cmp::Ordering::Less)
                }
            }
            for z in &tokens {
                if x.compare(y) == std::cmp::Ordering::Less
                    && y.compare(z) == std::cmp::Ordering::Less
                {
                    assert_eq!(x.compare(z), std::cmp::Ordering::Less);
                }
            }
        }
    }
}

#[test]
fn round_trip_preserves_token() {
    let t = Token::generate(32);
    let wire = t.serialize();
    let back = Token::deserialize(&wire, 32).unwrap();
    assert!(t.constant_time_eq(&back));

    let u = Token::create(vec![0xde, 0xad, 0xbe, 0xef]);
    let back2 = Token::deserialize(&u.serialize(), 4).unwrap();
    assert!(u.constant_time_eq(&back2));
}

#[test]
fn serialize_emits_exactly_the_bytes() {
    let t = Token::create(vec![9, 8, 7]);
    assert_eq!(t.serialize(), vec![9, 8, 7]);
}

#[test]
fn deserialize_rejects_wrong_length() {
    let bytes = vec![1u8, 2, 3, 4, 5];
    let err = Token::deserialize(&bytes, 4).unwrap_err();
    assert_eq!(err.expected, 4);
    assert_eq!(err.found, 5);
    let err2 = Token::deserialize(&bytes, 6).unwrap_err();
    assert_eq!(err2.expected, 6);
    assert_eq!(err2.found, 5);
    assert!(Token::deserialize(&bytes, 5).is_ok());
}

#[test]
fn equal_tokens_hash_alike() {
    let a = Token::create(vec![4, 4, 4, 4]);
    let b = Token::create(vec![4, 4, 4, 4]);
    assert!(a.constant_time_eq(&b));
    assert_eq!(hash_of(&a), hash_of(&b));
}

#[test]
fn clone_duplicates_the_same_bytes() {
    let t = Token::generate(24);
    let c = t.clone();
    assert!(t.constant_time_eq(&c));
    assert_eq!(t.serialize(), c.serialize());
}

#[test]
fn clear_zeroes_the_backing_bytes() {
    let mut t = Token::create(vec![0x11, 0x22, 0x33, 0x44]);
    t.clear();
    assert_eq!(t.serialize(), vec![0u8, 0, 0, 0]);
    assert!(t.constant_time_eq(&Token::create(vec![0, 0, 0, 0])));
}

#[test]
fn empty_tokens_are_equal() {
    let a = Token::create(vec![]);
    let b = Token::create(vec![]);
    assert!(a.constant_time_eq(&b));
    assert_eq!(a.compare(&b), std::cmp::Ordering::Equal);
}
