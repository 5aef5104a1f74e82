//! Identifiers of stored programs, derived from an owner's slot snapshot
//! `(owner, version)` and never from the program's bytes.
use vstd::prelude::*;

verus! {

/// An account, as its 32 raw bytes.
pub type AccountId = [u8; 32];

/// The identifier under which one generation of a program is stored.
pub type CodeHash = [u8; 32];

/// The eight little-endian bytes of `v`.
pub open spec fn u64_le(v: u64) -> Seq<u8> {
    Seq::new(8, |i: int| (v >> (8 * i) as u64) as u8)
}

/// The SCALE encoding of a slot snapshot: the owner's bytes, then the
/// version as eight little-endian bytes.
pub open spec fn slot_encoding(owner: Seq<u8>, version: u64) -> Seq<u8> {
    owner + u64_le(version)
}

/// The BLAKE2b-256 digest of `data`.
pub uninterp spec fn blake2_256_of(data: Seq<u8>) -> Seq<u8>;

/// The identifier of `owner`'s program at `version`.
pub open spec fn identifier_of(owner: Seq<u8>, version: u64) -> Seq<u8> {
    blake2_256_of(slot_encoding(owner, version))
}

/// Relies on sp_runtime's `BlakeTwo256` (`Hash::hash`): the 32-byte
/// BLAKE2b-256 digest of the input, which depends on the bytes alone.
#[verifier::external_body]
fn blake2_256(data: &[u8]) -> (r: [u8; 32])
    ensures
        r@ == blake2_256_of(data@),
{
    <sp_runtime::traits::BlakeTwo256 as sp_runtime::traits::Hash>::hash(data).0
}

/// The SCALE encoding of the snapshot `(owner, version)`.
pub fn encode_slot(owner: &AccountId, version: u64) -> (r: Vec<u8>)
    ensures
        r@ == slot_encoding(owner@, version),
{
    let mut out = vstd::slice::slice_to_vec(owner.as_slice());
    let mut i: u64 = 0;
    while i < 8
        invariant
            i <= 8,
            owner@.len() == 32,
            out@ == owner@ + u64_le(version).subrange(0, i as int),
        decreases 8 - i,
    {
        out.push((version >> (8 * i)) as u8);
        assert(out@ =~= owner@ + u64_le(version).subrange(0, i + 1));
        i = i + 1;
    }
    assert(u64_le(version).subrange(0, 8) =~= u64_le(version));
    out
}

/// Derives the identifier of `owner`'s program at `version`.
pub fn derive_identifier(owner: &AccountId, version: u64) -> (r: CodeHash)
    ensures
        r@ == identifier_of(owner@, version),
{
    let encoded = encode_slot(owner, version);
    blake2_256(encoded.as_slice())
}

/// Distinct owners give distinct hash inputs, whatever the versions: the
/// owner's bytes open the encoding.
pub proof fn lemma_encoding_separates_owners(o1: Seq<u8>, v1: u64, o2: Seq<u8>, v2: u64)
    requires
        o1.len() == 32,
        o2.len() == 32,
        o1 != o2,
    ensures
        slot_encoding(o1, v1) != slot_encoding(o2, v2),
{
    assert(slot_encoding(o1, v1).subrange(0, 32) =~= o1);
    assert(slot_encoding(o2, v2).subrange(0, 32) =~= o2);
}

} // verus!
