use vstd::bytes::spec_u64_to_le_bytes;
use vstd::prelude::*;

use crate::block::{block_verdict, txs_root_of};
use crate::executor::{block_check, pool_check, transfer_outcome};
use crate::external::state_root_of;
use crate::state::{balance_in, lemma_keys_distinct, lemma_stored_written, nonce_in, nonce_key};
use crate::types::{AccountId, AuthorityId, Block, BlockError, InvalidTransaction, Mode, Transfer};

verus! {

/// Applies transfers in order; `None` as soon as one is rejected.
pub open spec fn run_transfers(m: Map<Seq<u8>, Seq<u8>>, txs: Seq<Transfer>) -> Option<
    Map<Seq<u8>, Seq<u8>>,
>
    decreases txs.len(),
{
    if txs.len() == 0 {
        Some(m)
    } else {
        match run_transfers(m, txs.drop_last()) {
            Some(m1) => {
                let (m2, r) = transfer_outcome(m1, txs.last());
                if r is Ok {
                    Some(m2)
                } else {
                    None
                }
            },
            None => None,
        }
    }
}

/// How many of `txs` are sent by `who`.
pub open spec fn sent_by(txs: Seq<Transfer>, who: Seq<u8>) -> nat
    decreases txs.len(),
{
    if txs.len() == 0 {
        0
    } else {
        sent_by(txs.drop_last(), who) + if txs.last().from@ == who {
            1nat
        } else {
            0nat
        }
    }
}

/// An applied transfer raises its sender's nonce by one and leaves every other
/// account's nonce alone.
pub proof fn lemma_transfer_nonce(m: Map<Seq<u8>, Seq<u8>>, t: Transfer, who: AccountId)
    requires
        transfer_outcome(m, t).1 is Ok,
    ensures
        nonce_in(transfer_outcome(m, t).0, who@) == if t.from@ == who@ {
            nonce_in(m, who@) + 1
        } else {
            nonce_in(m, who@) as int
        },
{
    let expected = nonce_in(m, t.from@);
    lemma_keys_distinct(who@, t.from@);
    lemma_keys_distinct(who@, t.to@);
    lemma_keys_distinct(t.from@, who@);
    let m1 = m.insert(nonce_key(t.from@), spec_u64_to_le_bytes((expected + 1) as u64));
    lemma_stored_written(m, nonce_key(t.from@), (expected + 1) as u64);
}

/// After a run of applied transfers, each account's nonce has grown by the number of
/// them that it sent.
pub proof fn lemma_nonce_after_transfers(
    m: Map<Seq<u8>, Seq<u8>>,
    txs: Seq<Transfer>,
    who: AccountId,
)
    requires
        run_transfers(m, txs) is Some,
    ensures
        nonce_in(run_transfers(m, txs)->0, who@) == nonce_in(m, who@) + sent_by(txs, who@),
    decreases txs.len(),
{
    if txs.len() > 0 {
        lemma_nonce_after_transfers(m, txs.drop_last(), who);
        let m1 = run_transfers(m, txs.drop_last())->0;
        lemma_transfer_nonce(m1, txs.last(), who);
    }
}

/// A transfer between two accounts keeps the sum of their balances; one from an
/// account to itself keeps its balance.
pub proof fn lemma_transfer_conserves(m: Map<Seq<u8>, Seq<u8>>, t: Transfer)
    requires
        transfer_outcome(m, t).1 is Ok,
    ensures
        t.from@ != t.to@ ==> balance_in(transfer_outcome(m, t).0, t.from@) + balance_in(
            transfer_outcome(m, t).0,
            t.to@,
        ) == balance_in(m, t.from@) + balance_in(m, t.to@),
        t.from@ == t.to@ ==> balance_in(transfer_outcome(m, t).0, t.from@) == balance_in(
            m,
            t.from@,
        ),
{
    let expected = nonce_in(m, t.from@);
    lemma_keys_distinct(t.from@, t.to@);
    lemma_keys_distinct(t.to@, t.from@);
    lemma_keys_distinct(t.from@, t.from@);
    lemma_keys_distinct(t.to@, t.to@);
    let m1 = m.insert(nonce_key(t.from@), spec_u64_to_le_bytes((expected + 1) as u64));
    let fb = balance_in(m, t.from@);
    let m2 = m1.insert(
        crate::state::balance_key(t.from@),
        spec_u64_to_le_bytes((fb - t.amount) as u64),
    );
    lemma_stored_written(m1, crate::state::balance_key(t.from@), (fb - t.amount) as u64);
    let tb = balance_in(m2, t.to@);
    lemma_stored_written(m2, crate::state::balance_key(t.to@), (tb + t.amount) as u64);
}

/// A nonce below the account's current one is refused as stale by the pool and by
/// block execution alike.
pub proof fn lemma_replay_rejected(m: Map<Seq<u8>, Seq<u8>>, t: Transfer)
    requires
        t.nonce < nonce_in(m, t.from@),
    ensures
        pool_check(nonce_in(m, t.from@), t.nonce) == Some(InvalidTransaction::Stale),
        block_check(nonce_in(m, t.from@), t.nonce) == Some(InvalidTransaction::Stale),
        transfer_outcome(m, t) == (m, Err::<(), InvalidTransaction>(InvalidTransaction::Stale)),
{
}

/// The pool refuses a nonce more than 64 ahead of the current one as future, and
/// admits one exactly 64 ahead.
pub proof fn lemma_future_window(expected: u64, nonce: u64)
    ensures
        nonce > expected + 64 ==> pool_check(expected, nonce) == Some(InvalidTransaction::Future),
        nonce == expected + 64 ==> pool_check(expected, nonce) is None,
{
}

/// The storage that a successful block execution leaves.
pub open spec fn storage_after(
    v: Result<(Map<Seq<u8>, Seq<u8>>, Option<Seq<AuthorityId>>), BlockError>,
) -> Map<Seq<u8>, Seq<u8>> {
    match v {
        Ok((m2, _)) => m2,
        Err(_) => Map::empty(),
    }
}

/// A block sealed on some storage passes verification on that same storage, with the
/// same resulting storage and staged authorities, and the roots that verification
/// computes are the ones sealing wrote.
pub proof fn lemma_sealed_block_verifies(m: Map<Seq<u8>, Seq<u8>>, b: Block, sealed: Block)
    requires
        block_verdict(m, b, Mode::Overwrite) is Ok,
        sealed.extrinsics@ == b.extrinsics@,
        sealed.header.extrinsics_root@ == txs_root_of(b.extrinsics@),
        sealed.header.state_root@ == state_root_of(storage_after(block_verdict(m, b, Mode::Overwrite))),
    ensures
        block_verdict(m, sealed, Mode::Verify) == block_verdict(m, b, Mode::Overwrite),
        txs_root_of(sealed.extrinsics@) == sealed.header.extrinsics_root@,
        state_root_of(storage_after(block_verdict(m, sealed, Mode::Verify))) == sealed.header.state_root@,
{
}

} // verus!
