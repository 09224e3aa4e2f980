//! Deterministic identifier derivation.
//!
//! An identifier is the Blake2b-256 digest of the SCALE encoding of the
//! triple `(entropy, caller, nonce)`, in exactly that order: the entropy
//! bytes, then the caller's identity bytes, then the nonce's eight
//! little-endian bytes.

use vstd::prelude::*;

use crate::types::{AccountId, Entropy, KittenId};

verus! {

/// The 32-byte Blake2b digest of `data`, as the outside hash function
/// computes it. It depends on `data` alone.
pub uninterp spec fn blake2_256_of(data: Seq<u8>) -> Seq<u8>;

/// The exact byte string an identifier is derived from: entropy, then
/// caller, then the nonce in little-endian byte order.
pub open spec fn derivation_preimage(entropy: Seq<u8>, caller: Seq<u8>, nonce: u64) -> Seq<u8> {
    entropy + caller + vstd::bytes::spec_u64_to_le_bytes(nonce)
}

/// The identifier derived from an entropy value, a caller identity and a
/// nonce.
pub open spec fn derived_id(entropy: Seq<u8>, caller: Seq<u8>, nonce: u64) -> Seq<u8> {
    blake2_256_of(derivation_preimage(entropy, caller, nonce))
}

/// Relies on parity_scale_codec::Encode for `(&[u8; 32], &[u8; 32], u64)`:
/// a tuple encodes as the concatenation of its fields' encodings, a u8
/// array as its bytes in order, and a u64 as its eight little-endian
/// bytes.
#[verifier::external_body]
fn scale_encode_mint_material(entropy: &[u8; 32], caller: &[u8; 32], nonce: u64) -> (r: Vec<u8>)
    ensures
        r@ == derivation_preimage(entropy@, caller@, nonce),
{
    parity_scale_codec::Encode::encode(&(entropy, caller, nonce))
}

/// Relies on sp_crypto_hashing::blake2_256: the 32-byte Blake2b digest
/// of the input, a function of the input bytes alone.
#[verifier::external_body]
fn blake2_256(data: &Vec<u8>) -> (r: [u8; 32])
    ensures
        r@ == blake2_256_of(data@),
{
    sp_crypto_hashing::blake2_256(data.as_slice())
}

/// The byte string `derive_kitten_id` hashes: entropy, caller, then the
/// nonce's little-endian bytes.
pub fn derivation_preimage_bytes(entropy: &Entropy, caller: &AccountId, nonce: u64) -> (r: Vec<u8>)
    ensures
        r@ == derivation_preimage(entropy@, caller@, nonce),
{
    let e = entropy.to_bytes();
    let c = caller.to_bytes();
    scale_encode_mint_material(&e, &c, nonce)
}

/// Derives the record identifier for one mint: the hash of the entropy
/// value, the caller's identity and the nonce, in that order.
pub fn derive_kitten_id(entropy: &Entropy, caller: &AccountId, nonce: u64) -> (r: KittenId)
    ensures
        r@ == derived_id(entropy@, caller@, nonce),
{
    let pre = derivation_preimage_bytes(entropy, caller, nonce);
    let digest = blake2_256(&pre);
    KittenId::new(digest)
}

/// Derivation is a pure function: identical `(entropy, caller, nonce)`
/// triples always yield the same identifier.
pub proof fn lemma_derivation_deterministic(
    e1: Seq<u8>,
    c1: Seq<u8>,
    n1: u64,
    e2: Seq<u8>,
    c2: Seq<u8>,
    n2: u64,
)
    requires
        e1 == e2,
        c1 == c2,
        n1 == n2,
    ensures
        derived_id(e1, c1, n1) == derived_id(e2, c2, n2),
{
}

/// The derivation preimage is injective on 32-byte entropy values,
/// 32-byte caller identities and nonces: equal preimages come only from
/// equal triples.
pub proof fn lemma_preimage_injective(
    e1: Seq<u8>,
    c1: Seq<u8>,
    n1: u64,
    e2: Seq<u8>,
    c2: Seq<u8>,
    n2: u64,
)
    requires
        e1.len() == 32,
        c1.len() == 32,
        e2.len() == 32,
        c2.len() == 32,
        derivation_preimage(e1, c1, n1) == derivation_preimage(e2, c2, n2),
    ensures
        e1 == e2,
        c1 == c2,
        n1 == n2,
{
    vstd::bytes::lemma_auto_spec_u64_to_from_le_bytes();
    let p1 = derivation_preimage(e1, c1, n1);
    let p2 = derivation_preimage(e2, c2, n2);
    assert(e1 =~= p1.subrange(0, 32));
    assert(e2 =~= p2.subrange(0, 32));
    assert(c1 =~= p1.subrange(32, 64));
    assert(c2 =~= p2.subrange(32, 64));
    assert(vstd::bytes::spec_u64_to_le_bytes(n1) =~= p1.subrange(64, 72));
    assert(vstd::bytes::spec_u64_to_le_bytes(n2) =~= p2.subrange(64, 72));
    assert(vstd::bytes::spec_u64_from_le_bytes(vstd::bytes::spec_u64_to_le_bytes(n1)) == n1);
    assert(vstd::bytes::spec_u64_from_le_bytes(vstd::bytes::spec_u64_to_le_bytes(n2)) == n2);
}

/// Uniqueness of identifiers: two mints whose triples differ in the
/// nonce, the entropy or the caller derive distinct identifiers,
/// provided the hash does not collide on their two distinct preimages.
pub proof fn lemma_derived_ids_distinct(
    e1: Seq<u8>,
    c1: Seq<u8>,
    n1: u64,
    e2: Seq<u8>,
    c2: Seq<u8>,
    n2: u64,
)
    requires
        e1.len() == 32,
        c1.len() == 32,
        e2.len() == 32,
        c2.len() == 32,
        n1 != n2 || e1 != e2 || c1 != c2,
        derived_id(e1, c1, n1) == derived_id(e2, c2, n2) ==> derivation_preimage(e1, c1, n1)
            == derivation_preimage(e2, c2, n2),
    ensures
        derived_id(e1, c1, n1) != derived_id(e2, c2, n2),
{
    if derived_id(e1, c1, n1) == derived_id(e2, c2, n2) {
        lemma_preimage_injective(e1, c1, n1, e2, c2, n2);
    }
}

/// Uniqueness under an advancing nonce: in any sequence of mints whose
/// nonces are pairwise distinct, all derived identifiers are pairwise
/// distinct, provided the hash does not collide on the mints' distinct
/// preimages.
pub proof fn lemma_mint_sequence_ids_distinct(mints: Seq<(Seq<u8>, Seq<u8>, u64)>)
    requires
        forall|i: int|
            0 <= i < mints.len() ==> (#[trigger] mints[i]).0.len() == 32 && mints[i].1.len()
                == 32,
        forall|i: int, j: int|
            0 <= i < j < mints.len() ==> (#[trigger] mints[i]).2 != (#[trigger] mints[j]).2,
        forall|i: int, j: int|
            0 <= i < mints.len() && 0 <= j < mints.len() && derived_id(
                (#[trigger] mints[i]).0,
                mints[i].1,
                mints[i].2,
            ) == derived_id((#[trigger] mints[j]).0, mints[j].1, mints[j].2)
                ==> derivation_preimage(mints[i].0, mints[i].1, mints[i].2)
                == derivation_preimage(mints[j].0, mints[j].1, mints[j].2),
    ensures
        forall|i: int, j: int|
            0 <= i < j < mints.len() ==> derived_id(
                (#[trigger] mints[i]).0,
                mints[i].1,
                mints[i].2,
            ) != derived_id((#[trigger] mints[j]).0, mints[j].1, mints[j].2),
{
    assert forall|i: int, j: int| 0 <= i < j < mints.len() implies derived_id(
        (#[trigger] mints[i]).0,
        mints[i].1,
        mints[i].2,
    ) != derived_id((#[trigger] mints[j]).0, mints[j].1, mints[j].2) by {
        lemma_derived_ids_distinct(
            mints[i].0,
            mints[i].1,
            mints[i].2,
            mints[j].0,
            mints[j].1,
            mints[j].2,
        );
    }
}

} // verus!
