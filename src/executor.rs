use vstd::bytes::{spec_u64_to_le_bytes, u64_to_le_bytes};
use vstd::prelude::*;

use crate::encoding::{encode_transfer, transfer_bytes};
use crate::external::{sr25519_valid, sr25519_verify, twox_128, twox_128_of};
use crate::state::{
    balance_in, balance_key, balance_of_key, lemma_keys_distinct, lemma_stored_written, nonce_in,
    nonce_key, nonce_key_of, read_u64, write_u64,
};
use crate::storage::{append_bytes, bytes_eq, copy_bytes, Storage};
use crate::types::{
    AccountId, ApplyResult, AuthorityId, Extrinsic, InvalidTransaction, Transfer, TransactionValidity,
    ValidTransaction,
};

verus! {

/// How far ahead of the account's nonce the pool accepts a transaction.
pub const FUTURE_WINDOW: u64 = 64;

/// The nonce check of the pool: `None` where the nonce is admitted.
pub open spec fn pool_check(expected: u64, nonce: u64) -> Option<InvalidTransaction> {
    if nonce < expected {
        Some(InvalidTransaction::Stale)
    } else if nonce > expected + FUTURE_WINDOW {
        Some(InvalidTransaction::Future)
    } else {
        None
    }
}

/// The nonce check of block execution: only the next nonce, and only while one is left.
pub open spec fn block_check(expected: u64, nonce: u64) -> Option<InvalidTransaction> {
    if nonce != expected || expected == u64::MAX {
        Some(InvalidTransaction::Stale)
    } else {
        None
    }
}

/// The state after a transfer and its verdict. The nonce is spent before the balance
/// check, so a transfer that cannot be paid still uses it up. A credit that would
/// overflow the recipient's balance is refused like an unpaid one.
pub open spec fn transfer_outcome(m: Map<Seq<u8>, Seq<u8>>, t: Transfer) -> (
    Map<Seq<u8>, Seq<u8>>,
    Result<(), InvalidTransaction>,
) {
    let from = t.from@;
    let to = t.to@;
    let expected = nonce_in(m, from);
    if block_check(expected, t.nonce) is Some {
        (m, Err(InvalidTransaction::Stale))
    } else {
        let m1 = m.insert(nonce_key(from), spec_u64_to_le_bytes((expected + 1) as u64));
        let fb = balance_in(m, from);
        if t.amount > fb {
            (m1, Err(InvalidTransaction::Payment))
        } else if from != to && balance_in(m, to) + t.amount > u64::MAX {
            (m1, Err(InvalidTransaction::Payment))
        } else {
            let m2 = m1.insert(balance_key(from), spec_u64_to_le_bytes((fb - t.amount) as u64));
            let tb = balance_in(m2, to);
            (m2.insert(balance_key(to), spec_u64_to_le_bytes((tb + t.amount) as u64)), Ok(()))
        }
    }
}

/// Whether an extrinsic's proof holds: a transfer's signature by its sender; other
/// kinds carry none.
pub open spec fn signature_ok(e: Extrinsic) -> bool {
    match e {
        Extrinsic::Transfer(t, sig) => sr25519_valid(sig@, transfer_bytes(t), t.from@),
        _ => true,
    }
}

pub open spec fn pending_view(p: Option<Vec<AuthorityId>>) -> Option<Seq<AuthorityId>> {
    match p {
        Some(v) => Some(v@),
        None => None,
    }
}

/// The storage and pending authority set after applying an extrinsic, and its result.
pub open spec fn apply_outcome(
    m: Map<Seq<u8>, Seq<u8>>,
    pending: Option<Seq<AuthorityId>>,
    e: Extrinsic,
) -> (Map<Seq<u8>, Seq<u8>>, Option<Seq<AuthorityId>>, ApplyResult) {
    if !signature_ok(e) {
        (m, pending, Err(InvalidTransaction::BadProof))
    } else {
        match e {
            Extrinsic::Transfer(t, _) => {
                let (m2, r) = transfer_outcome(m, t);
                (m2, pending, Ok(r))
            },
            Extrinsic::AuthoritiesChange(v) => (m, Some(v@), Ok(Ok(()))),
            Extrinsic::IncludeData(_) => (m, pending, Ok(Ok(()))),
            Extrinsic::StorageChange(k, v) => match v {
                Some(v) => (m.insert(k@, v@), pending, Ok(Ok(()))),
                None => (m.remove(k@), pending, Ok(Ok(()))),
            },
        }
    }
}

/// The dependency tag of an account's nonce: a hash of the nonce's bytes, then the account's.
pub open spec fn tag_of(who: Seq<u8>, nonce: u64) -> Seq<u8> {
    twox_128_of(spec_u64_to_le_bytes(nonce) + who)
}

fn check_signature(utx: &Extrinsic) -> (r: Result<(), InvalidTransaction>)
    ensures
        signature_ok(*utx) ==> r is Ok,
        !signature_ok(*utx) ==> r == Err::<(), InvalidTransaction>(InvalidTransaction::BadProof),
{
    match utx {
        Extrinsic::Transfer(t, sig) => {
            let msg = encode_transfer(t);
            if sr25519_verify(sig, &msg, &t.from) {
                Ok(())
            } else {
                Err(InvalidTransaction::BadProof)
            }
        },
        _ => Ok(()),
    }
}

fn tag(who: &AccountId, nonce: u64) -> (r: Vec<u8>)
    ensures
        r@ == tag_of(who@, nonce),
{
    let mut data = u64_to_le_bytes(nonce);
    append_bytes(&mut data, who.as_slice());
    let h = twox_128(&data);
    copy_bytes(h.as_slice())
}

/// Applies a transfer to storage.
pub fn execute_transfer_backend(storage: &mut Storage, tx: &Transfer) -> (r: Result<
    (),
    InvalidTransaction,
>)
    requires
        old(storage).wf(),
    ensures
        final(storage).wf(),
        (final(storage)@, r) == transfer_outcome(old(storage)@, *tx),
{
    let ghost m = storage@;
    proof {
        lemma_keys_distinct(tx.from@, tx.from@);
        lemma_keys_distinct(tx.from@, tx.to@);
    }
    let nonce_key = nonce_key_of(&tx.from);
    let expected = read_u64(storage, &nonce_key);
    if tx.nonce != expected || expected == u64::MAX {
        return Err(InvalidTransaction::Stale);
    }
    write_u64(storage, &nonce_key, expected + 1);
    let from_key = balance_of_key(tx.from);
    let from_balance = read_u64(storage, &from_key);
    if tx.amount > from_balance {
        return Err(InvalidTransaction::Payment);
    }
    let to_key = balance_of_key(tx.to);
    let same = bytes_eq(tx.from.as_slice(), tx.to.as_slice());
    if !same {
        let to_before = read_u64(storage, &to_key);
        if to_before > u64::MAX - tx.amount {
            return Err(InvalidTransaction::Payment);
        }
    }
    write_u64(storage, &from_key, from_balance - tx.amount);
    proof {
        lemma_stored_written(storage@, from_key@, (from_balance - tx.amount) as u64);
    }
    let to_balance = read_u64(storage, &to_key);
    write_u64(storage, &to_key, to_balance + tx.amount);
    Ok(())
}

fn copy_authorities(v: &Vec<AuthorityId>) -> (r: Vec<AuthorityId>)
    ensures
        r@ == v@,
{
    let mut r: Vec<AuthorityId> = Vec::new();
    let mut i: usize = 0;
    while i < v.len()
        invariant
            0 <= i <= v@.len(),
            r@ == v@.subrange(0, i as int),
        decreases v@.len() - i,
    {
        r.push(v[i]);
        assert(v@.subrange(0, i + 1) =~= v@.subrange(0, i as int).push(v@[i as int]));
        i = i + 1;
    }
    assert(v@ =~= v@.subrange(0, i as int));
    r
}

/// Applies one extrinsic: checks its proof, then enacts it by kind.
pub fn execute_transaction_backend(
    storage: &mut Storage,
    pending: &mut Option<Vec<AuthorityId>>,
    utx: &Extrinsic,
) -> (r: ApplyResult)
    requires
        old(storage).wf(),
    ensures
        final(storage).wf(),
        (final(storage)@, pending_view(*final(pending)), r) == apply_outcome(
            old(storage)@,
            pending_view(*old(pending)),
            *utx,
        ),
{
    if check_signature(utx).is_err() {
        return Err(InvalidTransaction::BadProof);
    }
    match utx {
        Extrinsic::Transfer(t, _) => Ok(execute_transfer_backend(storage, t)),
        Extrinsic::AuthoritiesChange(v) => {
            *pending = Some(copy_authorities(v));
            Ok(Ok(()))
        },
        Extrinsic::IncludeData(_) => Ok(Ok(())),
        Extrinsic::StorageChange(k, v) => {
            match v {
                Some(v) => storage.put(k.as_slice(), copy_bytes(v.as_slice())),
                None => storage.kill(k.as_slice()),
            }
            Ok(Ok(()))
        },
    }
}

pub open spec fn transfer_of(e: Extrinsic) -> Transfer
    recommends
        e is Transfer,
{
    match e {
        Extrinsic::Transfer(t, _) => t,
        _ => arbitrary(),
    }
}

/// What the pool is told of a transaction that passed every check.
pub open spec fn valid_for_pool(v: ValidTransaction, t: Transfer, expected: u64) -> bool {
    &&& v.priority == t.amount
    &&& v.longevity == FUTURE_WINDOW
    &&& v.propagate
    &&& v.provides@.len() == 1
    &&& v.provides@[0]@ == tag_of(t.from@, t.nonce)
    &&& t.nonce == expected ==> v.requires@.len() == 0
    &&& t.nonce != expected ==> v.requires@.len() == 1 && v.requires@[0]@ == tag_of(
        t.from@,
        (t.nonce - 1) as u64,
    )
}

/// Checks a transfer for admission to the pool, without touching storage.
pub fn validate_transaction(storage: &Storage, utx: Extrinsic) -> (r: TransactionValidity)
    requires
        storage.wf(),
        utx is Transfer,
    ensures
        !signature_ok(utx) ==> r == Err::<ValidTransaction, InvalidTransaction>(
            InvalidTransaction::BadProof,
        ),
        signature_ok(utx) ==> ({
            let t = transfer_of(utx);
            let expected = nonce_in(storage@, t.from@);
            match pool_check(expected, t.nonce) {
                Some(e) => r == Err::<ValidTransaction, InvalidTransaction>(e),
                None => r matches Ok(v) && valid_for_pool(v, t, expected),
            }
        }),
{
    if check_signature(&utx).is_err() {
        return Err(InvalidTransaction::BadProof);
    }
    let tx = match &utx {
        Extrinsic::Transfer(t, _) => *t,
        _ => {
            proof {
                assert(false);
            }
            return Err(InvalidTransaction::BadProof);
        },
    };
    let nonce_key = nonce_key_of(&tx.from);
    let expected = read_u64(storage, &nonce_key);
    if tx.nonce < expected {
        return Err(InvalidTransaction::Stale);
    }
    if tx.nonce - expected > FUTURE_WINDOW {
        return Err(InvalidTransaction::Future);
    }
    let mut deps: Vec<Vec<u8>> = Vec::new();
    if tx.nonce != expected {
        deps.push(tag(&tx.from, tx.nonce - 1));
    }
    let mut provides: Vec<Vec<u8>> = Vec::new();
    provides.push(tag(&tx.from, tx.nonce));
    Ok(
        ValidTransaction {
            priority: tx.amount,
            requires: deps,
            provides,
            longevity: FUTURE_WINDOW,
            propagate: true,
        },
    )
}

} // verus!
