use vstd::prelude::*;

use crate::encoding::{authorities_bytes, encode_authorities, encode_extrinsic, encode_extrinsics, encoded_list, extrinsic_bytes};
use crate::executor::{apply_outcome, execute_transaction_backend, pending_view};
use crate::external::{ordered_root_of, ordered_trie_root, state_root_of, storage_root};
use crate::storage::{bytes_eq, copy_bytes, Storage};
use crate::types::{
    ApplyResult, AuthorityId, Block, BlockError, Digest, DigestItem, Extrinsic, Header, Mode,
    H256,
};

verus! {

/// `"aura"`
pub open spec fn aura_id() -> Seq<u8> {
    seq![97u8, 117u8, 114u8, 97u8]
}

/// `"babe"`
pub open spec fn babe_id() -> Seq<u8> {
    seq![98u8, 97u8, 98u8, 101u8]
}

pub open spec fn consensus_item(d: DigestItem, engine: Seq<u8>, v: Seq<AuthorityId>) -> bool {
    d matches DigestItem::Consensus(e, p) && e@ == engine && p@ == authorities_bytes(v)
}

/// `new` is `old` followed by the changes-trie root, if any, then, if a new authority
/// set was staged, one consensus item carrying it for each engine.
pub open spec fn closing_items_ok(
    old: Seq<DigestItem>,
    new: Seq<DigestItem>,
    changes: Option<H256>,
    auth: Option<Seq<AuthorityId>>,
) -> bool {
    let c: int = if changes is Some { 1 } else { 0 };
    let a: int = if auth is Some { 2 } else { 0 };
    &&& new.len() == old.len() + c + a
    &&& new.subrange(0, old.len() as int) == old
    &&& changes matches Some(root) ==> new[old.len() as int] == DigestItem::ChangesTrieRoot(root)
    &&& auth matches Some(v) ==> consensus_item(new[old.len() + c], aura_id(), v)
        && consensus_item(new[old.len() + c + 1], babe_id(), v)
}

/// Two digest items with the same content.
pub open spec fn same_item(a: DigestItem, b: DigestItem) -> bool {
    match (a, b) {
        (DigestItem::ChangesTrieRoot(x), DigestItem::ChangesTrieRoot(y)) => x == y,
        (DigestItem::Consensus(e1, p1), DigestItem::Consensus(e2, p2)) => e1 == e2 && p1@ == p2@,
        (DigestItem::Other(x), DigestItem::Other(y)) => x@ == y@,
        _ => false,
    }
}

pub open spec fn same_logs(a: Seq<DigestItem>, b: Seq<DigestItem>) -> bool {
    a.len() == b.len() && forall|i: int| 0 <= i < a.len() ==> same_item(#[trigger] a[i], b[i])
}

/// Applies extrinsics in order; `None` as soon as one is not applied cleanly.
pub open spec fn run_extrinsics(
    m: Map<Seq<u8>, Seq<u8>>,
    pending: Option<Seq<AuthorityId>>,
    exts: Seq<Extrinsic>,
) -> Option<(Map<Seq<u8>, Seq<u8>>, Option<Seq<AuthorityId>>)>
    decreases exts.len(),
{
    if exts.len() == 0 {
        Some((m, pending))
    } else {
        let (m1, p1, r) = apply_outcome(m, pending, exts[0]);
        if r == Ok::<Result<(), crate::types::InvalidTransaction>, crate::types::InvalidTransaction>(Ok(())) {
            run_extrinsics(m1, p1, exts.drop_first())
        } else {
            None
        }
    }
}

/// The transaction root of a list of extrinsics.
pub open spec fn txs_root_of(exts: Seq<Extrinsic>) -> Seq<u8> {
    ordered_root_of(encoded_list(exts))
}

/// The outcome of executing `b` on storage `m`: the storage after it and the authority
/// set it staged, or the fatal error.
pub open spec fn block_verdict(m: Map<Seq<u8>, Seq<u8>>, b: Block, mode: Mode) -> Result<
    (Map<Seq<u8>, Seq<u8>>, Option<Seq<AuthorityId>>),
    BlockError,
> {
    if mode == Mode::Verify && txs_root_of(b.extrinsics@) != b.header.extrinsics_root@ {
        Err(BlockError::ExtrinsicsRootMismatch)
    } else {
        match run_extrinsics(m, None, b.extrinsics@) {
            None => Err(BlockError::InvalidTransaction),
            Some((m2, auth)) => if mode == Mode::Verify && state_root_of(m2)
                != b.header.state_root@ {
                Err(BlockError::StorageRootMismatch)
            } else {
                Ok((m2, auth))
            },
        }
    }
}

/// `new` is `old` completed for storage `m2` and staged set `auth`: both roots are the
/// computed ones and the closing digest items are appended.
pub open spec fn header_completed(
    old: Header,
    new: Header,
    exts: Seq<Extrinsic>,
    m2: Map<Seq<u8>, Seq<u8>>,
    auth: Option<Seq<AuthorityId>>,
    changes: Option<H256>,
) -> bool {
    &&& new.number == old.number
    &&& new.parent_hash == old.parent_hash
    &&& new.extrinsics_root@ == txs_root_of(exts)
    &&& new.state_root@ == state_root_of(m2)
    &&& closing_items_ok(old.digest.logs@, new.digest.logs@, changes, auth)
}

/// The state of one block in progress.
pub struct BlockContext {
    pub number: Option<u64>,
    pub parent_hash: Option<H256>,
    pub digest: Option<Digest>,
    pub new_authorities: Option<Vec<AuthorityId>>,
    pub extrinsic_index: Option<u32>,
    pub extrinsic_data: Vec<Vec<u8>>,
}

impl BlockContext {
    /// The buffer holds one encoding for each transaction counted by the cursor.
    pub open spec fn wf(&self) -> bool {
        self.extrinsic_index matches Some(n) ==> self.extrinsic_data@.len() == n
    }

    pub open spec fn is_empty(&self) -> bool {
        &&& self.number is None
        &&& self.parent_hash is None
        &&& self.digest is None
        &&& self.new_authorities is None
        &&& self.extrinsic_index is None
        &&& self.extrinsic_data@.len() == 0
    }

    /// A context with nothing set.
    pub fn new() -> (r: BlockContext)
        ensures
            r.is_empty(),
            r.wf(),
    {
        BlockContext {
            number: None,
            parent_hash: None,
            digest: None,
            new_authorities: None,
            extrinsic_index: None,
            extrinsic_data: Vec::new(),
        }
    }
}

fn copy_item(d: &DigestItem) -> (r: DigestItem)
    ensures
        same_item(r, *d),
{
    match d {
        DigestItem::ChangesTrieRoot(h) => DigestItem::ChangesTrieRoot(*h),
        DigestItem::Consensus(e, p) => DigestItem::Consensus(*e, copy_bytes(p.as_slice())),
        DigestItem::Other(v) => DigestItem::Other(copy_bytes(v.as_slice())),
    }
}

fn copy_logs(logs: &Vec<DigestItem>) -> (r: Vec<DigestItem>)
    ensures
        same_logs(r@, logs@),
{
    let mut r: Vec<DigestItem> = Vec::new();
    let mut i: usize = 0;
    while i < logs.len()
        invariant
            0 <= i <= logs@.len(),
            r@.len() == i,
            forall|j: int| 0 <= j < i ==> same_item(#[trigger] r@[j], logs@[j]),
        decreases logs@.len() - i,
    {
        r.push(copy_item(&logs[i]));
        i = i + 1;
    }
    r
}

/// Reads the storage entry named by the first digest item, when that is an `Other`
/// item, so that an execution proof covers it. The value is not used.
fn probe_digest(storage: &Storage, digest: &Digest)
    requires
        storage.wf(),
{
    if digest.logs.len() > 0 {
        if let DigestItem::Other(v) = &digest.logs[0] {
            let _ = storage.get(v.as_slice());
        }
    }
}

/// Starts a block: sets number, parent hash and digest from `header`, the cursor to 0,
/// and clears whatever an earlier block left.
pub fn initialize_block(ctx: &mut BlockContext, storage: &Storage, header: &Header)
    requires
        storage.wf(),
    ensures
        final(ctx).wf(),
        final(ctx).number == Some(header.number),
        final(ctx).parent_hash == Some(header.parent_hash),
        final(ctx).digest matches Some(d) && same_logs(d.logs@, header.digest.logs@),
        final(ctx).new_authorities is None,
        final(ctx).extrinsic_index == Some(0u32),
        final(ctx).extrinsic_data@.len() == 0,
{
    ctx.number = Some(header.number);
    ctx.parent_hash = Some(header.parent_hash);
    ctx.digest = Some(Digest { logs: copy_logs(&header.digest.logs) });
    ctx.new_authorities = None;
    ctx.extrinsic_index = Some(0);
    ctx.extrinsic_data = Vec::new();
    probe_digest(storage, &header.digest);
}

pub fn get_block_number(ctx: &BlockContext) -> (r: Option<u64>)
    ensures
        r == ctx.number,
{
    ctx.number
}

/// Removes and returns the block number.
pub fn take_block_number(ctx: &mut BlockContext) -> (r: Option<u64>)
    ensures
        r == old(ctx).number,
        final(ctx).number is None,
        final(ctx).parent_hash == old(ctx).parent_hash,
        final(ctx).digest == old(ctx).digest,
        final(ctx).new_authorities == old(ctx).new_authorities,
        final(ctx).extrinsic_index == old(ctx).extrinsic_index,
        final(ctx).extrinsic_data == old(ctx).extrinsic_data,
{
    ctx.number.take()
}

/// Removes and returns the parent hash.
pub fn take_parent_hash(ctx: &mut BlockContext) -> (r: Option<H256>)
    ensures
        r == old(ctx).parent_hash,
        final(ctx).parent_hash is None,
        final(ctx).number == old(ctx).number,
        final(ctx).digest == old(ctx).digest,
        final(ctx).new_authorities == old(ctx).new_authorities,
        final(ctx).extrinsic_index == old(ctx).extrinsic_index,
        final(ctx).extrinsic_data == old(ctx).extrinsic_data,
{
    ctx.parent_hash.take()
}

/// Removes and returns the authority set staged in this block, if any.
pub fn take_pending_authorities(ctx: &mut BlockContext) -> (r: Option<Vec<AuthorityId>>)
    ensures
        r == old(ctx).new_authorities,
        final(ctx).new_authorities is None,
        final(ctx).number == old(ctx).number,
        final(ctx).parent_hash == old(ctx).parent_hash,
        final(ctx).digest == old(ctx).digest,
        final(ctx).extrinsic_index == old(ctx).extrinsic_index,
        final(ctx).extrinsic_data == old(ctx).extrinsic_data,
{
    ctx.new_authorities.take()
}

fn push_closing_items(
    logs: &mut Vec<DigestItem>,
    changes: Option<H256>,
    auth: &Option<Vec<AuthorityId>>,
)
    ensures
        closing_items_ok(old(logs)@, final(logs)@, changes, pending_view(*auth)),
{
    if let Some(root) = changes {
        logs.push(DigestItem::ChangesTrieRoot(root));
    }
    if let Some(v) = auth {
        logs.push(DigestItem::Consensus([97u8, 117u8, 114u8, 97u8], encode_authorities(v)));
        logs.push(DigestItem::Consensus([98u8, 97u8, 98u8, 101u8], encode_authorities(v)));
    }
    assert(final(logs)@.subrange(0, old(logs)@.len() as int) =~= old(logs)@);
}


/// Executes `block` on `storage`. In `Verify` mode the header's two roots are checked
/// against the computed ones; in `Overwrite` mode they are written into it. Either way
/// the closing digest items (the changes-trie root `changes_root` that the storage
/// engine reports for the parent, then the staged authority set) are appended.
pub fn execute_block_with_state_root_handler(
    storage: &mut Storage,
    block: &mut Block,
    mode: Mode,
    changes_root: Option<H256>,
) -> (r: Result<(), BlockError>)
    requires
        old(storage).wf(),
    ensures
        final(storage).wf(),
        final(block).extrinsics == old(block).extrinsics,
        match block_verdict(old(storage)@, *old(block), mode) {
            Err(e) => r == Err::<(), BlockError>(e),
            Ok((m2, auth)) => {
                &&& r is Ok
                &&& final(storage)@ == m2
                &&& header_completed(
                    old(block).header,
                    final(block).header,
                    old(block).extrinsics@,
                    m2,
                    auth,
                    changes_root,
                )
            },
        },
{
    let ghost m0 = storage@;
    let ghost b0 = *block;
    let txs = encode_extrinsics(&block.extrinsics);
    let txs_root = ordered_trie_root(&txs);
    match mode {
        Mode::Overwrite => {
            block.header.extrinsics_root = txs_root;
        },
        Mode::Verify => {
            if !bytes_eq(txs_root.as_slice(), block.header.extrinsics_root.as_slice()) {
                return Err(BlockError::ExtrinsicsRootMismatch);
            }
        },
    }
    probe_digest(storage, &block.header.digest);
    let ghost b1 = *block;
    let ghost exts = block.extrinsics@;
    assert(exts.subrange(0, exts.len() as int) =~= exts);
    let mut pending: Option<Vec<AuthorityId>> = None;
    let mut i: usize = 0;
    while i < block.extrinsics.len()
        invariant
            storage.wf(),
            *block == b1,
            b1.extrinsics == b0.extrinsics,
            b1.header.number == b0.header.number,
            b1.header.parent_hash == b0.header.parent_hash,
            b1.header.state_root == b0.header.state_root,
            b1.header.digest == b0.header.digest,
            b1.header.extrinsics_root@ == txs_root_of(exts),
            mode == Mode::Verify ==> b1.header.extrinsics_root == b0.header.extrinsics_root,
            b0 == *old(block),
            m0 == old(storage)@,
            exts == block.extrinsics@,
            0 <= i <= exts.len(),
            run_extrinsics(m0, None, exts) == run_extrinsics(
                storage@,
                pending_view(pending),
                exts.subrange(i as int, exts.len() as int),
            ),
        decreases exts.len() - i,
    {
        let ghost rest = exts.subrange(i as int, exts.len() as int);
        assert(rest[0] == exts[i as int]);
        assert(rest.drop_first() =~= exts.subrange(i + 1, exts.len() as int));
        let ghost s_before = storage@;
        let ghost p_before = pending_view(pending);
        let res = execute_transaction_backend(storage, &mut pending, &block.extrinsics[i]);
        match res {
            Ok(Ok(())) => {},
            _ => {
                assert(run_extrinsics(s_before, p_before, rest) is None);
                return Err(BlockError::InvalidTransaction);
            },
        }
        i = i + 1;
    }
    assert(exts.subrange(i as int, exts.len() as int) =~= Seq::<Extrinsic>::empty());
    let root = storage_root(storage);
    match mode {
        Mode::Overwrite => {
            block.header.state_root = root;
        },
        Mode::Verify => {
            if !bytes_eq(root.as_slice(), block.header.state_root.as_slice()) {
                return Err(BlockError::StorageRootMismatch);
            }
        },
    }
    push_closing_items(&mut block.header.digest.logs, changes_root, &pending);
    Ok(())
}

/// Seals `block`: executes it and writes its transaction and state roots into its header.
pub fn polish_block(storage: &mut Storage, block: &mut Block, changes_root: Option<H256>) -> (r:
    Result<(), BlockError>)
    requires
        old(storage).wf(),
    ensures
        final(storage).wf(),
        final(block).extrinsics == old(block).extrinsics,
        match block_verdict(old(storage)@, *old(block), Mode::Overwrite) {
            Err(e) => r == Err::<(), BlockError>(e),
            Ok((m2, auth)) => {
                &&& r is Ok
                &&& final(storage)@ == m2
                &&& header_completed(
                    old(block).header,
                    final(block).header,
                    old(block).extrinsics@,
                    m2,
                    auth,
                    changes_root,
                )
            },
        },
{
    execute_block_with_state_root_handler(storage, block, Mode::Overwrite, changes_root)
}

/// Imports `block`: executes it and checks both roots of its header. Returns the header
/// with the closing digest items appended.
pub fn execute_block(storage: &mut Storage, block: Block, changes_root: Option<H256>) -> (r:
    Result<Header, BlockError>)
    requires
        old(storage).wf(),
    ensures
        final(storage).wf(),
        match block_verdict(old(storage)@, block, Mode::Verify) {
            Err(e) => r == Err::<Header, BlockError>(e),
            Ok((m2, auth)) => {
                &&& r matches Ok(h) && header_completed(
                    block.header,
                    h,
                    block.extrinsics@,
                    m2,
                    auth,
                    changes_root,
                )
                &&& final(storage)@ == m2
            },
        },
{
    let mut block = block;
    match execute_block_with_state_root_handler(storage, &mut block, Mode::Verify, changes_root) {
        Ok(()) => Ok(block.header),
        Err(e) => Err(e),
    }
}

/// The block executor that a host drives.
pub struct BlockExecutor;

impl BlockExecutor {
    /// Imports `block`, as `execute_block` does.
    pub fn execute_block(storage: &mut Storage, block: Block, changes_root: Option<H256>) -> (r:
        Result<Header, BlockError>)
        requires
            old(storage).wf(),
        ensures
            final(storage).wf(),
            match block_verdict(old(storage)@, block, Mode::Verify) {
                Err(e) => r == Err::<Header, BlockError>(e),
                Ok((m2, auth)) => {
                    &&& r matches Ok(h) && header_completed(
                        block.header,
                        h,
                        block.extrinsics@,
                        m2,
                        auth,
                        changes_root,
                    )
                    &&& final(storage)@ == m2
                },
            },
    {
        execute_block(storage, block, changes_root)
    }
}

/// Applies one transaction while a block is being built, and buffers its encoding at
/// the cursor, which then advances.
pub fn execute_transaction(storage: &mut Storage, ctx: &mut BlockContext, utx: Extrinsic) -> (r:
    ApplyResult)
    requires
        old(storage).wf(),
        old(ctx).wf(),
        old(ctx).extrinsic_index matches Some(n) && n < u32::MAX,
    ensures
        final(storage).wf(),
        final(ctx).wf(),
        (final(storage)@, pending_view(final(ctx).new_authorities), r) == apply_outcome(
            old(storage)@,
            pending_view(old(ctx).new_authorities),
            utx,
        ),
        final(ctx).extrinsic_index == Some((old(ctx).extrinsic_index->0 + 1) as u32),
        final(ctx).extrinsic_data@.len() == old(ctx).extrinsic_data@.len() + 1,
        final(ctx).extrinsic_data@.subrange(0, old(ctx).extrinsic_data@.len() as int)
            == old(ctx).extrinsic_data@,
        final(ctx).extrinsic_data@.last()@ == extrinsic_bytes(utx),
        final(ctx).number == old(ctx).number,
        final(ctx).parent_hash == old(ctx).parent_hash,
        final(ctx).digest == old(ctx).digest,
{
    let index = match ctx.extrinsic_index {
        Some(n) => n,
        None => {
            proof {
                assert(false);
            }
            0
        },
    };
    let result = execute_transaction_backend(storage, &mut ctx.new_authorities, &utx);
    ctx.extrinsic_data.push(encode_extrinsic(&utx));
    ctx.extrinsic_index = Some(index + 1);
    assert(ctx.extrinsic_data@.subrange(0, old(ctx).extrinsic_data@.len() as int)
        =~= old(ctx).extrinsic_data@);
    result
}

/// Assembles the header of the block built so far and empties the context. Fails when
/// the context was not initialized.
pub fn finalize_block(ctx: &mut BlockContext, storage: &Storage, changes_root: Option<H256>) -> (r:
    Result<Header, BlockError>)
    requires
        old(ctx).wf(),
        storage.wf(),
    ensures
        final(ctx).is_empty(),
        match (old(ctx).extrinsic_index, old(ctx).number, old(ctx).parent_hash, old(ctx).digest) {
            (Some(_), Some(n), Some(p), Some(d)) => r matches Ok(h) && {
                &&& h.number == n
                &&& h.parent_hash == p
                &&& h.extrinsics_root@ == ordered_root_of(
                    old(ctx).extrinsic_data@.map_values(|v: Vec<u8>| v@),
                )
                &&& h.state_root@ == state_root_of(storage@)
                &&& closing_items_ok(
                    d.logs@,
                    h.digest.logs@,
                    changes_root,
                    pending_view(old(ctx).new_authorities),
                )
            },
            _ => r == Err::<Header, BlockError>(BlockError::NotInitialized),
        },
{
    let index = ctx.extrinsic_index.take();
    let mut data: Vec<Vec<u8>> = Vec::new();
    std::mem::swap(&mut data, &mut ctx.extrinsic_data);
    let number = ctx.number.take();
    let parent_hash = ctx.parent_hash.take();
    let digest = ctx.digest.take();
    let new_authorities = ctx.new_authorities.take();
    match (index, number, parent_hash, digest) {
        (Some(_), Some(number), Some(parent_hash), Some(digest)) => {
            let extrinsics_root = ordered_trie_root(&data);
            let state_root = storage_root(storage);
            let mut logs = digest.logs;
            push_closing_items(&mut logs, changes_root, &new_authorities);
            Ok(
                Header {
                    number,
                    parent_hash,
                    extrinsics_root,
                    state_root,
                    digest: Digest { logs },
                },
            )
        },
        _ => Err(BlockError::NotInitialized),
    }
}

} // verus!
