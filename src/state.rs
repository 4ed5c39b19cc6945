use vstd::bytes::{
    lemma_auto_spec_u64_to_from_le_bytes, spec_u64_from_le_bytes, spec_u64_to_le_bytes,
    u64_from_le_bytes, u64_to_le_bytes,
};
use vstd::prelude::*;

use crate::storage::{append_bytes, Storage};
use crate::types::AccountId;

verus! {

/// `"nonce:"`
pub open spec fn nonce_prefix() -> Seq<u8> {
    seq![110u8, 111u8, 110u8, 99u8, 101u8, 58u8]
}

/// `"balance:"`
pub open spec fn balance_prefix() -> Seq<u8> {
    seq![98u8, 97u8, 108u8, 97u8, 110u8, 99u8, 101u8, 58u8]
}

pub open spec fn nonce_key(who: Seq<u8>) -> Seq<u8> {
    nonce_prefix() + who
}

pub open spec fn balance_key(who: Seq<u8>) -> Seq<u8> {
    balance_prefix() + who
}

/// A stored integer: its first eight bytes, little-endian; 0 where there are fewer.
pub open spec fn decode_u64(b: Seq<u8>) -> u64 {
    if b.len() >= 8 {
        spec_u64_from_le_bytes(b.subrange(0, 8))
    } else {
        0
    }
}

/// The integer stored under `k`, 0 where nothing is.
pub open spec fn stored_u64(m: Map<Seq<u8>, Seq<u8>>, k: Seq<u8>) -> u64 {
    if m.contains_key(k) {
        decode_u64(m[k])
    } else {
        0
    }
}

pub open spec fn nonce_in(m: Map<Seq<u8>, Seq<u8>>, who: Seq<u8>) -> u64 {
    stored_u64(m, nonce_key(who))
}

pub open spec fn balance_in(m: Map<Seq<u8>, Seq<u8>>, who: Seq<u8>) -> u64 {
    stored_u64(m, balance_key(who))
}

/// Nonce and balance keys never meet, and distinct accounts have distinct keys.
pub proof fn lemma_keys_distinct(a: Seq<u8>, b: Seq<u8>)
    ensures
        nonce_key(a) != balance_key(b),
        a != b ==> nonce_key(a) != nonce_key(b),
        a != b ==> balance_key(a) != balance_key(b),
{
    assert(nonce_key(a)[1] != balance_key(b)[1]);
    if nonce_key(a) == nonce_key(b) {
        assert(a =~= nonce_key(a).subrange(6, nonce_key(a).len() as int));
        assert(b =~= nonce_key(b).subrange(6, nonce_key(b).len() as int));
    }
    if balance_key(a) == balance_key(b) {
        assert(a =~= balance_key(a).subrange(8, balance_key(a).len() as int));
        assert(b =~= balance_key(b).subrange(8, balance_key(b).len() as int));
    }
}

/// What is written reads back.
pub proof fn lemma_stored_written(m: Map<Seq<u8>, Seq<u8>>, k: Seq<u8>, v: u64)
    ensures
        stored_u64(m.insert(k, spec_u64_to_le_bytes(v)), k) == v,
{
    lemma_auto_spec_u64_to_from_le_bytes();
    assert(spec_u64_to_le_bytes(v).subrange(0, 8) =~= spec_u64_to_le_bytes(v));
}

pub(crate) fn nonce_key_of(who: &AccountId) -> (r: Vec<u8>)
    ensures
        r@ == nonce_key(who@),
{
    let mut r: Vec<u8> = vec![110u8, 111u8, 110u8, 99u8, 101u8, 58u8];
    append_bytes(&mut r, who.as_slice());
    r
}

/// The storage key of an account's balance: `"balance:"` followed by the account.
pub fn balance_of_key(who: AccountId) -> (r: Vec<u8>)
    ensures
        r@ == balance_key(who@),
{
    let mut r: Vec<u8> = vec![98u8, 97u8, 108u8, 97u8, 110u8, 99u8, 101u8, 58u8];
    append_bytes(&mut r, who.as_slice());
    r
}

pub(crate) fn read_u64(storage: &Storage, key: &Vec<u8>) -> (r: u64)
    requires
        storage.wf(),
    ensures
        r == stored_u64(storage@, key@),
{
    match storage.get(key.as_slice()) {
        Some(v) => {
            if v.len() < 8 {
                return 0;
            }
            let mut head: Vec<u8> = Vec::new();
            let mut i: usize = 0;
            while i < 8
                invariant
                    v@.len() >= 8,
                    0 <= i <= 8,
                    head@ == v@.subrange(0, i as int),
                decreases 8 - i,
            {
                head.push(v[i]);
                assert(v@.subrange(0, i + 1) =~= v@.subrange(0, i as int).push(v@[i as int]));
                i = i + 1;
            }
            u64_from_le_bytes(head.as_slice())
        },
        None => 0,
    }
}

pub(crate) fn write_u64(storage: &mut Storage, key: &Vec<u8>, value: u64)
    requires
        old(storage).wf(),
    ensures
        final(storage).wf(),
        final(storage)@ == old(storage)@.insert(key@, spec_u64_to_le_bytes(value)),
{
    storage.put(key.as_slice(), u64_to_le_bytes(value));
}

/// The balance of an account; 0 for one never credited.
pub fn balance_of(storage: &Storage, who: AccountId) -> (r: u64)
    requires
        storage.wf(),
    ensures
        r == balance_in(storage@, who@),
{
    read_u64(storage, &balance_of_key(who))
}

/// The nonce of an account: the number of its transfers applied so far.
pub fn nonce_of(storage: &Storage, who: AccountId) -> (r: u64)
    requires
        storage.wf(),
    ensures
        r == nonce_in(storage@, who@),
{
    read_u64(storage, &nonce_key_of(&who))
}

} // verus!
