//! The state-transition function of a minimal account ledger: pool validation of
//! transfers, per-transaction execution, and whole-block execution that either checks
//! a header's commitments (import) or writes them (sealing).
use vstd::prelude::*;

pub mod block;
pub mod encoding;
pub mod executor;
pub mod external;
pub mod laws;
pub mod state;
pub mod storage;
pub mod types;

pub use block::{
    execute_block, execute_block_with_state_root_handler, execute_transaction, finalize_block,
    get_block_number, initialize_block, polish_block, take_block_number, take_parent_hash,
    take_pending_authorities, BlockContext,
    BlockExecutor,
};
pub use encoding::{encode_extrinsic, encode_transfer};
pub use executor::{execute_transaction_backend, execute_transfer_backend, validate_transaction};
pub use state::{balance_of, balance_of_key, nonce_of};
pub use storage::Storage;
pub use types::{
    AccountId, ApplyResult, AuthorityId, Block, BlockError, Digest, DigestItem, Extrinsic, Header,
    InvalidTransaction, Mode, Signature, Transfer, TransactionValidity, ValidTransaction, H256,
};

verus! {

} // verus!
