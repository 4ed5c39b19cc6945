use vstd::prelude::*;

verus! {

/// Public key of an account: 32 opaque bytes.
pub type AccountId = [u8; 32];

/// Public key of a consensus authority.
pub type AuthorityId = [u8; 32];

/// A 256-bit commitment.
pub type H256 = [u8; 32];

/// An sr25519 signature.
pub type Signature = [u8; 64];

/// A balance transfer between two accounts.
#[derive(Clone, Copy, Debug, PartialEq, Eq)]
pub struct Transfer {
    pub from: AccountId,
    pub to: AccountId,
    pub amount: u64,
    pub nonce: u64,
}

/// One unit of block content.
#[derive(Clone, Debug, PartialEq, Eq)]
pub enum Extrinsic {
    /// A transfer with the sender's signature over its encoding.
    Transfer(Transfer, Signature),
    /// Stages a new authority set for the end of the block.
    AuthoritiesChange(Vec<AuthorityId>),
    /// Carries data with no effect on state.
    IncludeData(Vec<u8>),
    /// Writes (`Some`) or deletes (`None`) a raw storage entry.
    StorageChange(Vec<u8>, Option<Vec<u8>>),
}

/// An annotation of a header.
#[derive(Clone, Debug, PartialEq, Eq)]
pub enum DigestItem {
    ChangesTrieRoot(H256),
    Consensus([u8; 4], Vec<u8>),
    Other(Vec<u8>),
}

#[derive(Clone, Debug, PartialEq, Eq)]
pub struct Digest {
    pub logs: Vec<DigestItem>,
}

#[derive(Clone, Debug, PartialEq, Eq)]
pub struct Header {
    pub number: u64,
    pub parent_hash: H256,
    pub extrinsics_root: H256,
    pub state_root: H256,
    pub digest: Digest,
}

#[derive(Clone, Debug, PartialEq, Eq)]
pub struct Block {
    pub header: Header,
    pub extrinsics: Vec<Extrinsic>,
}

/// Why a transaction is not valid; recoverable, handed back as data.
#[derive(Clone, Copy, Debug, PartialEq, Eq, Structural)]
pub enum InvalidTransaction {
    /// The signature does not verify.
    BadProof,
    /// The nonce was already used.
    Stale,
    /// The nonce lies too far ahead.
    Future,
    /// The sender cannot pay.
    Payment,
}

/// Outer `Err`: the transaction could not be dispatched.
/// Inner `Err`: it was dispatched and rejected.
pub type ApplyResult = Result<Result<(), InvalidTransaction>, InvalidTransaction>;

/// What the pool learns of a valid transaction.
#[derive(Clone, Debug, PartialEq, Eq)]
pub struct ValidTransaction {
    pub priority: u64,
    pub requires: Vec<Vec<u8>>,
    pub provides: Vec<Vec<u8>>,
    pub longevity: u64,
    pub propagate: bool,
}

pub type TransactionValidity = Result<ValidTransaction, InvalidTransaction>;

/// A fatal failure: the block being executed is corrupt or the context is broken.
#[derive(Clone, Copy, Debug, PartialEq, Eq, Structural)]
pub enum BlockError {
    /// The header's transaction root is not that of the block's transactions.
    ExtrinsicsRootMismatch,
    /// A transaction of the block body was rejected.
    InvalidTransaction,
    /// The header's state root is not that of the storage after execution.
    StorageRootMismatch,
    /// The block context was read before `initialize_block` set it.
    NotInitialized,
}

/// Whether the pipeline checks the header's roots or writes them.
#[derive(Clone, Copy, Debug, PartialEq, Eq, Structural)]
pub enum Mode {
    Verify,
    Overwrite,
}

} // verus!
