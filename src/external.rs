use vstd::prelude::*;

use crate::storage::Storage;
use crate::types::{AccountId, H256, Signature};

verus! {

/// The 128-bit xxHash of a byte string.
pub uninterp spec fn twox_128_of(data: Seq<u8>) -> Seq<u8>;

/// Whether `sig` is a valid sr25519 signature of `msg` by the key `signer`.
pub uninterp spec fn sr25519_valid(sig: Seq<u8>, msg: Seq<u8>, signer: Seq<u8>) -> bool;

/// The ordered-trie commitment over a list of byte strings.
pub uninterp spec fn ordered_root_of(items: Seq<Seq<u8>>) -> Seq<u8>;

/// The trie commitment over a whole key-value store.
pub uninterp spec fn state_root_of(m: Map<Seq<u8>, Seq<u8>>) -> Seq<u8>;

/// The SCALE compact encoding of an integer.
pub uninterp spec fn compact_of(n: u64) -> Seq<u8>;

/// Relies on sp_crypto_hashing::twox_128: a hash of the bytes alone.
#[verifier::external_body]
pub(crate) fn twox_128(data: &Vec<u8>) -> (r: [u8; 16])
    ensures
        r@ == twox_128_of(data@),
{
    sp_crypto_hashing::twox_128(data)
}

/// Relies on schnorrkel's PublicKey::verify_simple under the "substrate" signing context;
/// a key or a signature that does not parse does not verify.
#[verifier::external_body]
pub(crate) fn sr25519_verify(sig: &Signature, msg: &Vec<u8>, signer: &AccountId) -> (r: bool)
    ensures
        r == sr25519_valid(sig@, msg@, signer@),
{
    match (schnorrkel::PublicKey::from_bytes(signer), schnorrkel::Signature::from_bytes(sig)) {
        (Ok(key), Ok(s)) => key.verify_simple(b"substrate", msg, &s).is_ok(),
        _ => false,
    }
}

/// Relies on triehash::ordered_trie_root (Keccak-256 hasher): a commitment to the list.
#[verifier::external_body]
pub(crate) fn ordered_trie_root(items: &Vec<Vec<u8>>) -> (r: H256)
    ensures
        r@ == ordered_root_of(items@.map_values(|v: Vec<u8>| v@)),
{
    triehash::ordered_trie_root::<keccak_hasher::KeccakHasher, _>(items.iter())
}

/// Relies on triehash::trie_root (Keccak-256 hasher), which sorts the pairs by key
/// first: with each key held once, the root depends on the map alone.
#[verifier::external_body]
pub(crate) fn storage_root(storage: &Storage) -> (r: H256)
    requires
        storage.wf(),
    ensures
        r@ == state_root_of(storage@),
{
    triehash::trie_root::<keccak_hasher::KeccakHasher, _, _, _>(
        storage.entries().iter().map(|(k, v)| (k, v)),
    )
}

/// Relies on parity_scale_codec's Encode for Compact<u64>.
#[verifier::external_body]
pub(crate) fn compact_encode(n: u64) -> (r: Vec<u8>)
    ensures
        r@ == compact_of(n),
{
    parity_scale_codec::Encode::encode(&parity_scale_codec::Compact(n))
}

} // verus!
