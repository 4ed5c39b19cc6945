use test_runtime_system::{
    balance_of, balance_of_key, encode_extrinsic, encode_transfer, execute_block,
    execute_transaction, finalize_block, get_block_number, initialize_block, nonce_of,
    polish_block, take_block_number, take_parent_hash, take_pending_authorities, validate_transaction, Block, BlockContext, BlockError,
    Digest, DigestItem, Extrinsic, Header, InvalidTransaction, Storage, Transfer,
};

fn keypair(seed: u8) -> schnorrkel::Keypair {
    schnorrkel::MiniSecretKey::from_bytes(&[seed; 32])
        .unwrap()
        .expand_to_keypair(schnorrkel::ExpansionMode::Ed25519)
}

fn id(k: &schnorrkel::Keypair) -> [u8; 32] {
    k.public.to_bytes()
}

fn signed(from: &schnorrkel::Keypair, to: [u8; 32], amount: u64, nonce: u64) -> Extrinsic {
    let t = Transfer { from: id(from), to, amount, nonce };
    let sig = from.sign_simple(b"substrate", &encode_transfer(&t)).to_bytes();
    Extrinsic::Transfer(t, sig)
}

fn funded(who: [u8; 32], amount: u64) -> Storage {
    let mut s = Storage::new();
    s.put(&balance_of_key(who), amount.to_le_bytes().to_vec());
    s
}

fn header(number: u64) -> Header {
    Header {
        parent_hash: [69u8; 32],
        number,
        state_root: [0u8; 32],
        extrinsics_root: [0u8; 32],
        digest: Digest { logs: vec![] },
    }
}

fn started(storage: &Storage, number: u64) -> BlockContext {
    let mut ctx = BlockContext::new();
    initialize_block(&mut ctx, storage, &header(number));
    ctx
}

#[test]
fn first_block_scenario() {
    let (a, b) = (keypair(1), keypair(2));
    let mut blk = Block { header: header(1), extrinsics: vec![signed(&a, id(&b), 69, 0)] };
    polish_block(&mut funded(id(&a), 111), &mut blk, None).unwrap();
    let mut s = funded(id(&a), 111);
    execute_block(&mut s, blk, None).unwrap();
    assert_eq!(balance_of(&s, id(&a)), 42);
    assert_eq!(balance_of(&s, id(&b)), 69);
    assert_eq!(nonce_of(&s, id(&a)), 1);
    assert_eq!(nonce_of(&s, id(&b)), 0);
}

#[test]
fn second_block_scenario() {
    let (a, b, c) = (keypair(1), keypair(2), keypair(3));
    let mut sealer = funded(id(&a), 111);
    let mut b1 = Block { header: header(1), extrinsics: vec![signed(&a, id(&b), 69, 0)] };
    polish_block(&mut sealer, &mut b1, None).unwrap();
    let mut b2 = Block {
        header: header(2),
        extrinsics: vec![signed(&b, id(&a), 27, 0), signed(&a, id(&c), 69, 1)],
    };
    polish_block(&mut sealer, &mut b2, None).unwrap();
    let mut s = funded(id(&a), 111);
    execute_block(&mut s, b1, None).unwrap();
    execute_block(&mut s, b2, None).unwrap();
    assert_eq!(balance_of(&s, id(&a)), 0);
    assert_eq!(balance_of(&s, id(&b)), 42);
    assert_eq!(balance_of(&s, id(&c)), 69);
    assert_eq!(nonce_of(&s, id(&a)), 2);
    assert_eq!(nonce_of(&s, id(&b)), 1);
}

#[test]
fn sealed_block_verifies_with_same_roots() {
    let (a, b) = (keypair(1), keypair(2));
    let mut blk = Block {
        header: header(1),
        extrinsics: vec![signed(&a, id(&b), 5, 0), Extrinsic::IncludeData(vec![1, 2, 3])],
    };
    polish_block(&mut funded(id(&a), 10), &mut blk, None).unwrap();
    let sealed = blk.header.clone();
    let h = execute_block(&mut funded(id(&a), 10), blk, None).unwrap();
    assert_eq!(h.extrinsics_root, sealed.extrinsics_root);
    assert_eq!(h.state_root, sealed.state_root);
    assert_ne!(sealed.state_root, [0u8; 32]);
    assert_ne!(sealed.extrinsics_root, [0u8; 32]);
}

#[test]
fn altered_state_root_aborts() {
    let (a, b) = (keypair(1), keypair(2));
    let mut blk = Block { header: header(1), extrinsics: vec![signed(&a, id(&b), 69, 0)] };
    polish_block(&mut funded(id(&a), 111), &mut blk, None).unwrap();
    blk.header.state_root[0] ^= 1;
    let r = execute_block(&mut funded(id(&a), 111), blk, None);
    assert_eq!(r, Err(BlockError::StorageRootMismatch));
}

#[test]
fn altered_extrinsics_root_aborts() {
    let (a, b) = (keypair(1), keypair(2));
    let mut blk = Block { header: header(1), extrinsics: vec![signed(&a, id(&b), 69, 0)] };
    polish_block(&mut funded(id(&a), 111), &mut blk, None).unwrap();
    blk.header.extrinsics_root[31] ^= 1;
    let r = execute_block(&mut funded(id(&a), 111), blk, None);
    assert_eq!(r, Err(BlockError::ExtrinsicsRootMismatch));
}

#[test]
fn different_transactions_give_different_roots() {
    let (a, b) = (keypair(1), keypair(2));
    let mut b1 = Block { header: header(1), extrinsics: vec![signed(&a, id(&b), 1, 0)] };
    let mut b2 = Block { header: header(1), extrinsics: vec![signed(&a, id(&b), 2, 0)] };
    polish_block(&mut funded(id(&a), 10), &mut b1, None).unwrap();
    polish_block(&mut funded(id(&a), 10), &mut b2, None).unwrap();
    assert_ne!(b1.header.extrinsics_root, b2.header.extrinsics_root);
    assert_ne!(b1.header.state_root, b2.header.state_root);
}

#[test]
fn rejected_transaction_in_block_aborts() {
    let (a, b) = (keypair(1), keypair(2));
    let mut blk = Block { header: header(1), extrinsics: vec![signed(&a, id(&b), 200, 0)] };
    let r = polish_block(&mut funded(id(&a), 111), &mut blk, None);
    assert_eq!(r, Err(BlockError::InvalidTransaction));
}

#[test]
fn validate_accepts_current_nonce() {
    let (a, b) = (keypair(1), keypair(2));
    let s = funded(id(&a), 111);
    let v = validate_transaction(&s, signed(&a, id(&b), 7, 0)).unwrap();
    assert_eq!(v.priority, 7);
    assert_eq!(v.longevity, 64);
    assert!(v.propagate);
    assert!(v.requires.is_empty());
    assert_eq!(v.provides.len(), 1);
    assert_eq!(v.provides[0].len(), 16);
    let mut data = 0u64.to_le_bytes().to_vec();
    data.extend_from_slice(&id(&a));
    assert_eq!(v.provides[0], sp_crypto_hashing::twox_128(&data).to_vec());
    assert_ne!(v.provides[0], data);
}

#[test]
fn validate_window_edge_is_accepted() {
    let (a, b) = (keypair(1), keypair(2));
    let s = funded(id(&a), 111);
    let v = validate_transaction(&s, signed(&a, id(&b), 7, 64)).unwrap();
    assert_eq!(v.requires.len(), 1);
    let at63 = validate_transaction(&s, signed(&a, id(&b), 7, 63)).unwrap();
    assert_eq!(v.requires[0], at63.provides[0]);
}

#[test]
fn validate_rejects_future() {
    let (a, b) = (keypair(1), keypair(2));
    let s = funded(id(&a), 111);
    let r = validate_transaction(&s, signed(&a, id(&b), 7, 65));
    assert_eq!(r, Err(InvalidTransaction::Future));
}

#[test]
fn validate_rejects_bad_proof() {
    let (a, b) = (keypair(1), keypair(2));
    let s = funded(id(&a), 111);
    let bad = match signed(&a, id(&b), 7, 0) {
        Extrinsic::Transfer(t, _) => {
            Extrinsic::Transfer(t, b.sign_simple(b"substrate", &encode_transfer(&t)).to_bytes())
        },
        other => other,
    };
    assert_eq!(validate_transaction(&s, bad), Err(InvalidTransaction::BadProof));
}

#[test]
fn replay_is_stale_in_pool_and_block() {
    let (a, b) = (keypair(1), keypair(2));
    let mut s = funded(id(&a), 111);
    let mut ctx = started(&s, 1);
    let tx = signed(&a, id(&b), 10, 0);
    assert_eq!(execute_transaction(&mut s, &mut ctx, tx.clone()), Ok(Ok(())));
    assert_eq!(validate_transaction(&s, tx.clone()), Err(InvalidTransaction::Stale));
    assert_eq!(
        execute_transaction(&mut s, &mut ctx, tx),
        Ok(Err(InvalidTransaction::Stale))
    );
    assert_eq!(nonce_of(&s, id(&a)), 1);
    assert_eq!(balance_of(&s, id(&a)), 101);
}

#[test]
fn nonce_grows_by_applied_transfers() {
    let (a, b) = (keypair(1), keypair(2));
    let mut s = funded(id(&a), 111);
    let mut ctx = started(&s, 1);
    for n in 0..3u64 {
        assert_eq!(execute_transaction(&mut s, &mut ctx, signed(&a, id(&b), 1, n)), Ok(Ok(())));
    }
    assert_eq!(nonce_of(&s, id(&a)), 3);
    assert_eq!(nonce_of(&s, id(&b)), 0);
}

#[test]
fn transfer_conserves_balances() {
    let (a, b) = (keypair(1), keypair(2));
    let mut s = funded(id(&a), 111);
    s.put(&balance_of_key(id(&b)), 5u64.to_le_bytes().to_vec());
    let mut ctx = started(&s, 1);
    assert_eq!(execute_transaction(&mut s, &mut ctx, signed(&a, id(&b), 30, 0)), Ok(Ok(())));
    assert_eq!(balance_of(&s, id(&a)) + balance_of(&s, id(&b)), 116);
    assert_eq!(balance_of(&s, id(&b)), 35);
}

#[test]
fn self_transfer_keeps_balance() {
    let a = keypair(1);
    let mut s = funded(id(&a), 111);
    let mut ctx = started(&s, 1);
    assert_eq!(execute_transaction(&mut s, &mut ctx, signed(&a, id(&a), 100, 0)), Ok(Ok(())));
    assert_eq!(balance_of(&s, id(&a)), 111);
    assert_eq!(nonce_of(&s, id(&a)), 1);
}

#[test]
fn unpaid_transfer_spends_nonce() {
    let (a, b) = (keypair(1), keypair(2));
    let mut s = funded(id(&a), 10);
    let mut ctx = started(&s, 1);
    let r = execute_transaction(&mut s, &mut ctx, signed(&a, id(&b), 11, 0));
    assert_eq!(r, Ok(Err(InvalidTransaction::Payment)));
    assert_eq!(nonce_of(&s, id(&a)), 1);
    assert_eq!(balance_of(&s, id(&a)), 10);
    assert_eq!(balance_of(&s, id(&b)), 0);
}

#[test]
fn credit_overflow_is_refused() {
    let (a, b) = (keypair(1), keypair(2));
    let mut s = funded(id(&a), 10);
    s.put(&balance_of_key(id(&b)), u64::MAX.to_le_bytes().to_vec());
    let mut ctx = started(&s, 1);
    let r = execute_transaction(&mut s, &mut ctx, signed(&a, id(&b), 1, 0));
    assert_eq!(r, Ok(Err(InvalidTransaction::Payment)));
    assert_eq!(balance_of(&s, id(&b)), u64::MAX);
    assert_eq!(balance_of(&s, id(&a)), 10);
}

#[test]
fn bad_signature_is_not_dispatched() {
    let (a, b) = (keypair(1), keypair(2));
    let mut s = funded(id(&a), 10);
    let mut ctx = started(&s, 1);
    let t = Transfer { from: id(&a), to: id(&b), amount: 1, nonce: 0 };
    let r = execute_transaction(&mut s, &mut ctx, Extrinsic::Transfer(t, [0u8; 64]));
    assert_eq!(r, Err(InvalidTransaction::BadProof));
    assert_eq!(nonce_of(&s, id(&a)), 0);
}

#[test]
fn storage_change_puts_and_deletes() {
    let mut s = Storage::new();
    let mut ctx = started(&s, 1);
    let put = Extrinsic::StorageChange(vec![7, 7], Some(vec![1, 2]));
    assert_eq!(execute_transaction(&mut s, &mut ctx, put), Ok(Ok(())));
    assert_eq!(s.get(&[7, 7]), Some(vec![1, 2]));
    let del = Extrinsic::StorageChange(vec![7, 7], None);
    assert_eq!(execute_transaction(&mut s, &mut ctx, del), Ok(Ok(())));
    assert_eq!(s.get(&[7, 7]), None);
}

#[test]
fn short_stored_value_reads_as_zero() {
    let a = keypair(1);
    let mut s = Storage::new();
    s.put(&balance_of_key(id(&a)), vec![1, 2, 3]);
    assert_eq!(balance_of(&s, id(&a)), 0);
    s.put(&balance_of_key(id(&a)), vec![1, 1, 0, 0, 0, 0, 0, 0, 9]);
    assert_eq!(balance_of(&s, id(&a)), 257);
}

#[test]
fn balance_key_layout() {
    let k = balance_of_key([3u8; 32]);
    assert_eq!(&k[..8], b"balance:");
    assert_eq!(&k[8..], &[3u8; 32][..]);
}

#[test]
fn authority_change_adds_two_consensus_items() {
    let (a, b) = (keypair(1), keypair(2));
    let set = vec![id(&a), id(&b)];
    let mut blk = Block {
        header: header(1),
        extrinsics: vec![
            Extrinsic::AuthoritiesChange(vec![id(&b)]),
            Extrinsic::AuthoritiesChange(set.clone()),
        ],
    };
    let changes = [9u8; 32];
    polish_block(&mut Storage::new(), &mut blk, Some(changes)).unwrap();
    let mut payload = vec![8u8];
    payload.extend_from_slice(&id(&a));
    payload.extend_from_slice(&id(&b));
    assert_eq!(
        blk.header.digest.logs,
        vec![
            DigestItem::ChangesTrieRoot(changes),
            DigestItem::Consensus(*b"aura", payload.clone()),
            DigestItem::Consensus(*b"babe", payload),
        ]
    );
}

#[test]
fn no_staged_set_no_consensus_items() {
    let mut blk = Block { header: header(1), extrinsics: vec![] };
    blk.header.digest.logs.push(DigestItem::Other(vec![1]));
    polish_block(&mut Storage::new(), &mut blk, None).unwrap();
    assert_eq!(blk.header.digest.logs, vec![DigestItem::Other(vec![1])]);
}

#[test]
fn include_data_encoding() {
    let e = Extrinsic::IncludeData(vec![5, 6]);
    assert_eq!(encode_extrinsic(&e), vec![2, 8, 5, 6]);
    let c = Extrinsic::StorageChange(vec![1], None);
    assert_eq!(encode_extrinsic(&c), vec![3, 4, 1, 0]);
}

#[test]
fn built_block_matches_sealed_block() {
    let (a, b) = (keypair(1), keypair(2));
    let txs = vec![signed(&a, id(&b), 69, 0), Extrinsic::AuthoritiesChange(vec![id(&b)])];

    let mut built = funded(id(&a), 111);
    let mut ctx = started(&built, 4);
    for tx in txs.clone() {
        assert_eq!(execute_transaction(&mut built, &mut ctx, tx), Ok(Ok(())));
    }
    let h = finalize_block(&mut ctx, &built, None).unwrap();
    assert_eq!(h.number, 4);
    assert_eq!(h.parent_hash, [69u8; 32]);
    assert_eq!(get_block_number(&ctx), None);

    let mut blk = Block { header: header(4), extrinsics: txs };
    polish_block(&mut funded(id(&a), 111), &mut blk, None).unwrap();
    assert_eq!(h, blk.header);
}

#[test]
fn finalize_without_initialize_fails() {
    let mut ctx = BlockContext::new();
    let r = finalize_block(&mut ctx, &Storage::new(), None);
    assert_eq!(r, Err(BlockError::NotInitialized));
}

#[test]
fn block_number_take_clears_it() {
    let s = Storage::new();
    let mut ctx = started(&s, 9);
    assert_eq!(get_block_number(&ctx), Some(9));
    assert_eq!(take_block_number(&mut ctx), Some(9));
    assert_eq!(take_block_number(&mut ctx), None);
    assert_eq!(take_parent_hash(&mut ctx), Some([69u8; 32]));
    assert_eq!(take_parent_hash(&mut ctx), None);
    assert_eq!(finalize_block(&mut ctx, &s, None), Err(BlockError::NotInitialized));
}


#[test]
fn staged_authorities_are_taken_once() {
    let mut s = Storage::new();
    let mut ctx = started(&s, 1);
    let set = vec![[4u8; 32]];
    let tx = Extrinsic::AuthoritiesChange(set.clone());
    assert_eq!(execute_transaction(&mut s, &mut ctx, tx), Ok(Ok(())));
    assert_eq!(take_pending_authorities(&mut ctx), Some(set));
    assert_eq!(take_pending_authorities(&mut ctx), None);
}
