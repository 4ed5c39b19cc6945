use vstd::bytes::{spec_u64_to_le_bytes, u64_to_le_bytes};
use vstd::prelude::*;

use crate::external::{compact_encode, compact_of};
use crate::storage::{append_bytes, copy_bytes};
use crate::types::{AuthorityId, Extrinsic, Transfer};

verus! {

/// The bytes of a transfer: sender, recipient, amount and nonce, integers little-endian.
pub open spec fn transfer_bytes(t: Transfer) -> Seq<u8> {
    t.from@ + t.to@ + spec_u64_to_le_bytes(t.amount) + spec_u64_to_le_bytes(t.nonce)
}

/// The keys of a list, one after another.
pub open spec fn ids_bytes(v: Seq<AuthorityId>) -> Seq<u8>
    decreases v.len(),
{
    if v.len() == 0 {
        Seq::empty()
    } else {
        ids_bytes(v.drop_last()) + v.last()@
    }
}

/// A length-prefixed list of authority keys.
pub open spec fn authorities_bytes(v: Seq<AuthorityId>) -> Seq<u8> {
    compact_of(v.len() as u64) + ids_bytes(v)
}

/// A length-prefixed byte string.
pub open spec fn bytes_field(b: Seq<u8>) -> Seq<u8> {
    compact_of(b.len() as u64) + b
}

/// The bytes of an extrinsic: a variant tag, then its fields.
pub open spec fn extrinsic_bytes(e: Extrinsic) -> Seq<u8> {
    match e {
        Extrinsic::Transfer(t, sig) => seq![0u8] + transfer_bytes(t) + sig@,
        Extrinsic::AuthoritiesChange(v) => seq![1u8] + authorities_bytes(v@),
        Extrinsic::IncludeData(d) => seq![2u8] + bytes_field(d@),
        Extrinsic::StorageChange(k, v) => seq![3u8] + bytes_field(k@) + match v {
            Some(v) => seq![1u8] + bytes_field(v@),
            None => seq![0u8],
        },
    }
}

pub open spec fn encoded_list(s: Seq<Extrinsic>) -> Seq<Seq<u8>> {
    s.map_values(|e: Extrinsic| extrinsic_bytes(e))
}

pub fn encode_transfer(t: &Transfer) -> (r: Vec<u8>)
    ensures
        r@ == transfer_bytes(*t),
{
    let mut r: Vec<u8> = Vec::new();
    append_bytes(&mut r, t.from.as_slice());
    append_bytes(&mut r, t.to.as_slice());
    append_bytes(&mut r, u64_to_le_bytes(t.amount).as_slice());
    append_bytes(&mut r, u64_to_le_bytes(t.nonce).as_slice());
    r
}

pub fn encode_authorities(v: &Vec<AuthorityId>) -> (r: Vec<u8>)
    ensures
        r@ == authorities_bytes(v@),
{
    let mut r = compact_encode(v.len() as u64);
    let ghost prefix = r@;
    let mut i: usize = 0;
    while i < v.len()
        invariant
            0 <= i <= v@.len(),
            r@ == prefix + ids_bytes(v@.subrange(0, i as int)),
        decreases v@.len() - i,
    {
        append_bytes(&mut r, v[i].as_slice());
        assert(v@.subrange(0, i + 1).drop_last() =~= v@.subrange(0, i as int));
        assert(prefix + ids_bytes(v@.subrange(0, i + 1)) =~= prefix + ids_bytes(v@.subrange(0, i as int)) + v@[i as int]@);
        i = i + 1;
    }
    assert(v@.subrange(0, i as int) =~= v@);
    r
}

fn encode_bytes_field(b: &Vec<u8>) -> (r: Vec<u8>)
    ensures
        r@ == bytes_field(b@),
{
    let mut r = compact_encode(b.len() as u64);
    append_bytes(&mut r, b.as_slice());
    r
}

pub fn encode_extrinsic(e: &Extrinsic) -> (r: Vec<u8>)
    ensures
        r@ == extrinsic_bytes(*e),
{
    match e {
        Extrinsic::Transfer(t, sig) => {
            let mut r: Vec<u8> = vec![0u8];
            let tb = encode_transfer(t);
            append_bytes(&mut r, tb.as_slice());
            append_bytes(&mut r, sig.as_slice());
            r
        },
        Extrinsic::AuthoritiesChange(v) => {
            let mut r: Vec<u8> = vec![1u8];
            let ab = encode_authorities(v);
            append_bytes(&mut r, ab.as_slice());
            r
        },
        Extrinsic::IncludeData(d) => {
            let mut r: Vec<u8> = vec![2u8];
            let db = encode_bytes_field(d);
            append_bytes(&mut r, db.as_slice());
            r
        },
        Extrinsic::StorageChange(k, v) => {
            let mut r: Vec<u8> = vec![3u8];
            let kb = encode_bytes_field(k);
            append_bytes(&mut r, kb.as_slice());
            match v {
                Some(v) => {
                    let mut tail: Vec<u8> = vec![1u8];
                    let vb = encode_bytes_field(v);
                    append_bytes(&mut tail, vb.as_slice());
                    append_bytes(&mut r, tail.as_slice());
                },
                None => {
                    let tail: Vec<u8> = vec![0u8];
                    append_bytes(&mut r, tail.as_slice());
                },
            }
            r
        },
    }
}

/// The encodings of a list of extrinsics, in order.
pub fn encode_extrinsics(es: &Vec<Extrinsic>) -> (r: Vec<Vec<u8>>)
    ensures
        r@.map_values(|v: Vec<u8>| v@) == encoded_list(es@),
{
    let mut r: Vec<Vec<u8>> = Vec::new();
    let mut i: usize = 0;
    while i < es.len()
        invariant
            0 <= i <= es@.len(),
            r@.len() == i,
            forall|j: int| 0 <= j < i ==> (#[trigger] r@[j])@ == extrinsic_bytes(es@[j]),
        decreases es@.len() - i,
    {
        let b = encode_extrinsic(&es[i]);
        r.push(b);
        i = i + 1;
    }
    assert(r@.map_values(|v: Vec<u8>| v@) =~= encoded_list(es@));
    r
}

} // verus!
