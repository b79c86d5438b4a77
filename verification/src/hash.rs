//! The stage key hash: two 64-bit FNV-1a passes over one text, in hex.

use crate::text;
use vstd::prelude::*;

verus! {

/// The FNV-1a prime for 64 bits.
pub const FNV_PRIME: u64 = 0x100000001b3;

/// The offset basis of the pass that gives a key's first half.
pub const FIRST_BASIS: u64 = 0xcbf29ce484222325;

/// The offset basis of the pass that gives a key's second half.
pub const SECOND_BASIS: u64 = 0x9e3779b97f4a7c15;

/// One FNV-1a round: mix in a byte, then multiply by the prime modulo 2^64.
pub open spec fn fnv_round(hash: u64, byte: u8) -> u64 {
    (((hash ^ (byte as u64)) * FNV_PRIME) % 0x1_0000_0000_0000_0000) as u64
}

/// FNV-1a 64 of `bytes` from `offset_basis`.
pub open spec fn fnv1a64_of(offset_basis: u64, bytes: Seq<u8>) -> u64
    decreases bytes.len(),
{
    if bytes.len() == 0 {
        offset_basis
    } else {
        fnv_round(fnv1a64_of(offset_basis, bytes.drop_last()), bytes.last())
    }
}

/// The key of a canonical text: both hashes of its UTF-8 bytes, each as
/// sixteen hex digits.
pub open spec fn key_of(canonical: Seq<char>) -> Seq<char> {
    let bytes = vstd::utf8::encode_utf8(canonical);
    text::padded_hex(fnv1a64_of(FIRST_BASIS, bytes) as nat, 16) + text::padded_hex(
        fnv1a64_of(SECOND_BASIS, bytes) as nat,
        16,
    )
}

/// FNV-1a 64 with a caller-supplied offset basis. Chosen over a general hasher
/// because the key must be stable across builds and platforms.
pub fn fnv1a64(offset_basis: u64, bytes: &[u8]) -> (hash: u64)
    ensures
        hash == fnv1a64_of(offset_basis, bytes@),
{
    let mut hash: u64 = offset_basis;
    let mut i: usize = 0;
    while i < bytes.len()
        invariant
            i <= bytes@.len(),
            hash == fnv1a64_of(offset_basis, bytes@.take(i as int)),
        decreases bytes.len() - i,
    {
        hash ^= bytes[i] as u64;
        hash = hash.wrapping_mul(FNV_PRIME);
        proof {
            assert(bytes@.take(i + 1).drop_last() == bytes@.take(i as int));
        }
        i += 1;
    }
    proof {
        assert(bytes@.take(bytes@.len() as int) == bytes@);
    }
    hash
}

/// 128-bit hex key from two independent FNV-1a 64 passes over the canonical
/// text.
pub fn key_hash(canonical: &str) -> (key: String)
    ensures
        key@ == key_of(canonical@),
{
    let mut key = String::new();
    text::push_padded_hex(&mut key, fnv1a64(FIRST_BASIS, canonical.as_bytes()), 16);
    text::push_padded_hex(&mut key, fnv1a64(SECOND_BASIS, canonical.as_bytes()), 16);
    key
}

/// Hashing may stop and go on: the hash of a prefix is the basis for the rest.
pub proof fn law_fnv1a64_resumes(offset_basis: u64, first: Seq<u8>, rest: Seq<u8>)
    ensures
        fnv1a64_of(offset_basis, first + rest) == fnv1a64_of(
            fnv1a64_of(offset_basis, first),
            rest,
        ),
    decreases rest.len(),
{
    if rest.len() == 0 {
        assert(first + rest == first);
    } else {
        law_fnv1a64_resumes(offset_basis, first, rest.drop_last());
        assert((first + rest).drop_last() == first + rest.drop_last());
    }
}

/// A key is thirty-two lower-case hex digits.
pub proof fn law_key_is_128_bit_hex(canonical: Seq<char>)
    ensures
        key_of(canonical).len() == 32,
        forall|i: int|
            0 <= i < 32 ==> ('0' <= #[trigger] key_of(canonical)[i] <= '9' || 'a' <= key_of(
                canonical,
            )[i] <= 'f'),
{
    text::lemma_padded_hex_digits(
        fnv1a64_of(FIRST_BASIS, vstd::utf8::encode_utf8(canonical)) as nat,
        16,
    );
    text::lemma_padded_hex_digits(
        fnv1a64_of(SECOND_BASIS, vstd::utf8::encode_utf8(canonical)) as nat,
        16,
    );
}

/// Two texts share a key exactly where both passes agree on them: the key
/// loses nothing of either hash.
pub proof fn law_key_holds_both_hashes(a: Seq<char>, b: Seq<char>)
    ensures
        key_of(a) == key_of(b) <==> {
            &&& fnv1a64_of(FIRST_BASIS, vstd::utf8::encode_utf8(a)) == fnv1a64_of(
                FIRST_BASIS,
                vstd::utf8::encode_utf8(b),
            )
            &&& fnv1a64_of(SECOND_BASIS, vstd::utf8::encode_utf8(a)) == fnv1a64_of(
                SECOND_BASIS,
                vstd::utf8::encode_utf8(b),
            )
        },
{
    let a1 = fnv1a64_of(FIRST_BASIS, vstd::utf8::encode_utf8(a)) as nat;
    let a2 = fnv1a64_of(SECOND_BASIS, vstd::utf8::encode_utf8(a)) as nat;
    let b1 = fnv1a64_of(FIRST_BASIS, vstd::utf8::encode_utf8(b)) as nat;
    let b2 = fnv1a64_of(SECOND_BASIS, vstd::utf8::encode_utf8(b)) as nat;
    text::lemma_padded_hex_digits(a1, 16);
    text::lemma_padded_hex_digits(b1, 16);
    if key_of(a) == key_of(b) {
        assert(key_of(a).take(16) == text::padded_hex(a1, 16));
        assert(key_of(b).take(16) == text::padded_hex(b1, 16));
        assert(key_of(a).skip(16) == text::padded_hex(a2, 16));
        assert(key_of(b).skip(16) == text::padded_hex(b2, 16));
        assert(vstd::arithmetic::power::pow(16, 16) == 0x1_0000_0000_0000_0000) by {
            reveal_with_fuel(vstd::arithmetic::power::pow, 17);
        }
        text::lemma_padded_hex_injective(a1, b1, 16);
        text::lemma_padded_hex_injective(a2, b2, 16);
    }
}

} // verus!
