//! The storage contract the executor under test depends on, and the mock
//! backend that stands in for the real persistent ledger store.
//!
//! The backend answers only the minimal subset needed for bootstrap and
//! write-acceptance: startup info succeeds with a fixed synthetic
//! empty-ledger state, and saving transactions is accepted unconditionally.
//! Every other operation answers with a distinguished unsupported outcome,
//! naming the operation, so that an executor taking an undocumented
//! dependency on ledger history surfaces as a detectable failure instead of
//! silently wrong behavior.

use vstd::prelude::*;

use crate::ledger::{
    CheckpointView, ContractEvent, LedgerInfo, LedgerInfoWithSignatures, Transaction,
    TransactionListWithProof, TransactionWithProof,
};

verus! {

/// The enumerated read operations of the storage contract. The mock backend
/// supports none of them but the startup query, and names the operation in
/// its refusal.
#[derive(Clone, Copy, Debug, PartialEq, Eq)]
pub enum StorageOp {
    GetBlockTimestamp,
    GetEpochEndingLedgerInfos,
    GetTransactions,
    GetEvents,
    GetLatestAccountState,
    GetLatestLedgerInfo,
    GetTxnByAccount,
    GetStateProofWithLedgerInfo,
    GetStateProof,
    GetAccountStateWithProof,
    GetAccountStateWithProofByVersion,
    GetLatestStateRoot,
    GetLatestTreeState,
    GetEpochEndingLedgerInfo,
}

/// The failure a storage operation reports. An unsupported operation is the
/// harness's crash-detection signal: the caller decides whether it aborts
/// the process (fuzz mode) or propagates a typed failure (unit-test mode).
#[derive(Clone, Copy, Debug, PartialEq, Eq)]
pub enum StorageError {
    Unsupported(StorageOp),
}

/// The order events are walked in an event query.
#[derive(Clone, Copy, Debug, PartialEq, Eq)]
pub enum Order {
    Ascending,
    Descending,
}

/// An account's state, serialized as one opaque blob.
#[derive(Clone, Debug, PartialEq, Eq)]
pub struct AccountStateBlob {
    pub blob: Vec<u8>,
}

/// A membership proof for one account slot of the sparse state tree.
#[derive(Clone, Debug, PartialEq, Eq)]
pub struct SparseMerkleProof {
    /// The leaf the proof speaks of, as key and value hashes, if present.
    pub leaf: Option<(u64, u64)>,
    pub siblings: Vec<u64>,
}

/// An account state bundled with the proof that places it at a version.
#[derive(Clone, Debug, PartialEq, Eq)]
pub struct AccountStateWithProof {
    pub version: u64,
    pub blob: Option<AccountStateBlob>,
    pub proof: SparseMerkleProof,
}

/// A proof of an epoch change: the ending checkpoints of the epochs walked.
#[derive(Clone, Debug, PartialEq, Eq)]
pub struct EpochChangeProof {
    pub ledger_info_with_sigs: Vec<LedgerInfoWithSignatures>,
    pub more: bool,
}

/// A proof that one transaction accumulator extends another.
#[derive(Clone, Debug, PartialEq, Eq)]
pub struct AccumulatorConsistencyProof {
    pub subroots: Vec<u64>,
}

/// One transaction as handed to the write operation, with what its
/// execution produced.
#[derive(Clone, Debug, PartialEq, Eq)]
pub struct TransactionToCommit {
    pub transaction: Transaction,
    pub events: Vec<ContractEvent>,
    pub gas_used: u64,
    pub major_status: u64,
}

/// The shape of a ledger tree at a version: enough for an executor to
/// resume from it.
#[derive(Clone, Copy, Debug, PartialEq, Eq)]
pub struct TreeState {
    pub num_transactions: u64,
    pub state_root_hash: u64,
}

/// What storage reports at startup: the latest checkpoint and the tree
/// states an executor bootstraps from.
#[derive(Clone, Debug, PartialEq, Eq)]
pub struct StartupInfo {
    pub latest_ledger_info: LedgerInfoWithSignatures,
    pub committed_tree_state: TreeState,
    pub synced_tree_state: Option<TreeState>,
}

/// The mathematical value of a [`StartupInfo`].
pub struct StartupInfoView {
    pub latest_ledger_info: CheckpointView,
    pub committed_tree_state: TreeState,
    pub synced_tree_state: Option<TreeState>,
}

impl View for StartupInfo {
    type V = StartupInfoView;

    open spec fn view(&self) -> StartupInfoView {
        StartupInfoView {
            latest_ledger_info: self.latest_ledger_info@,
            committed_tree_state: self.committed_tree_state,
            synced_tree_state: self.synced_tree_state,
        }
    }
}

/// The fixed, synthetic empty-ledger startup state the mock backend
/// reports: a genesis checkpoint with no signatures, over an empty tree.
pub open spec fn spec_empty_ledger_startup() -> StartupInfoView {
    StartupInfoView {
        latest_ledger_info: CheckpointView {
            ledger_info: LedgerInfo {
                epoch: 0,
                round: 0,
                version: 0,
                timestamp_usecs: 0,
                transaction_accumulator_hash: 0,
                consensus_data_hash: 0,
            },
            signatures: Seq::empty(),
        },
        committed_tree_state: TreeState { num_transactions: 0, state_root_hash: 0 },
        synced_tree_state: None,
    }
}

impl StartupInfo {
    /// The synthetic empty-ledger startup state, as an executable value.
    pub fn new_for_testing() -> (r: StartupInfo)
        ensures
            r@ == spec_empty_ledger_startup(),
    {
        let r = StartupInfo {
            latest_ledger_info: LedgerInfoWithSignatures {
                ledger_info: LedgerInfo {
                    epoch: 0,
                    round: 0,
                    version: 0,
                    timestamp_usecs: 0,
                    transaction_accumulator_hash: 0,
                    consensus_data_hash: 0,
                },
                signatures: Vec::new(),
            },
            committed_tree_state: TreeState { num_transactions: 0, state_root_hash: 0 },
            synced_tree_state: None,
        };
        proof {
            assert(r@.latest_ledger_info.signatures =~= Seq::<crate::ledger::Signature>::empty());
        }
        r
    }
}

/// The read half of the storage contract the executor depends on.
pub trait DbReader {
    fn get_block_timestamp(&self, version: u64) -> Result<u64, StorageError>;

    fn get_epoch_ending_ledger_infos(&self, start_epoch: u64, end_epoch: u64) -> Result<
        EpochChangeProof,
        StorageError,
    >;

    fn get_transactions(
        &self,
        start_version: u64,
        batch_size: u64,
        ledger_version: u64,
        fetch_events: bool,
    ) -> Result<TransactionListWithProof, StorageError>;

    fn get_events(&self, event_key: u64, start: u64, order: Order, limit: u64) -> Result<
        Vec<(u64, ContractEvent)>,
        StorageError,
    >;

    fn get_latest_account_state(&self, address: u64) -> Result<
        Option<AccountStateBlob>,
        StorageError,
    >;

    fn get_latest_ledger_info(&self) -> Result<LedgerInfoWithSignatures, StorageError>;

    fn get_latest_version(&self) -> Result<u64, StorageError>;

    fn get_latest_commit_metadata(&self) -> Result<(u64, u64), StorageError>;

    fn get_startup_info(&self) -> Result<Option<StartupInfo>, StorageError>;

    fn get_txn_by_account(
        &self,
        address: u64,
        seq_num: u64,
        ledger_version: u64,
        fetch_events: bool,
    ) -> Result<Option<TransactionWithProof>, StorageError>;

    fn get_state_proof_with_ledger_info(
        &self,
        known_version: u64,
        ledger_info: LedgerInfoWithSignatures,
    ) -> Result<(EpochChangeProof, AccumulatorConsistencyProof), StorageError>;

    fn get_state_proof(&self, known_version: u64) -> Result<
        (LedgerInfoWithSignatures, EpochChangeProof, AccumulatorConsistencyProof),
        StorageError,
    >;

    fn get_account_state_with_proof(
        &self,
        address: u64,
        version: u64,
        ledger_version: u64,
    ) -> Result<AccountStateWithProof, StorageError>;

    fn get_account_state_with_proof_by_version(&self, address: u64, version: u64) -> Result<
        (Option<AccountStateBlob>, SparseMerkleProof),
        StorageError,
    >;

    fn get_latest_state_root(&self) -> Result<(u64, u64), StorageError>;

    fn get_latest_tree_state(&self) -> Result<TreeState, StorageError>;

    fn get_epoch_ending_ledger_info(&self, known_version: u64) -> Result<
        LedgerInfoWithSignatures,
        StorageError,
    >;
}

/// The write half of the storage contract: commit a batch of transactions
/// at a first version, with an optional checkpoint.
pub trait DbWriter {
    fn save_transactions(
        &self,
        txns_to_commit: &Vec<TransactionToCommit>,
        first_version: u64,
        ledger_info_with_sigs: Option<&LedgerInfoWithSignatures>,
    ) -> Result<(), StorageError>;
}

/// The mock storage backend: fresh and empty for each harness invocation,
/// persisting nothing, and refusing every read but the startup query.
pub struct FakeDb;

impl DbReader for FakeDb {
    fn get_block_timestamp(&self, version: u64) -> (r: Result<u64, StorageError>)
        ensures
            r == Err::<u64, StorageError>(StorageError::Unsupported(StorageOp::GetBlockTimestamp)),
    {
        Err(StorageError::Unsupported(StorageOp::GetBlockTimestamp))
    }

    fn get_epoch_ending_ledger_infos(&self, start_epoch: u64, end_epoch: u64) -> (r: Result<
        EpochChangeProof,
        StorageError,
    >)
        ensures
            r == Err::<EpochChangeProof, StorageError>(
                StorageError::Unsupported(StorageOp::GetEpochEndingLedgerInfos),
            ),
    {
        Err(StorageError::Unsupported(StorageOp::GetEpochEndingLedgerInfos))
    }

    fn get_transactions(
        &self,
        start_version: u64,
        batch_size: u64,
        ledger_version: u64,
        fetch_events: bool,
    ) -> (r: Result<TransactionListWithProof, StorageError>)
        ensures
            r == Err::<TransactionListWithProof, StorageError>(
                StorageError::Unsupported(StorageOp::GetTransactions),
            ),
    {
        Err(StorageError::Unsupported(StorageOp::GetTransactions))
    }

    fn get_events(&self, event_key: u64, start: u64, order: Order, limit: u64) -> (r: Result<
        Vec<(u64, ContractEvent)>,
        StorageError,
    >)
        ensures
            r == Err::<Vec<(u64, ContractEvent)>, StorageError>(
                StorageError::Unsupported(StorageOp::GetEvents),
            ),
    {
        Err(StorageError::Unsupported(StorageOp::GetEvents))
    }

    fn get_latest_account_state(&self, address: u64) -> (r: Result<
        Option<AccountStateBlob>,
        StorageError,
    >)
        ensures
            r == Err::<Option<AccountStateBlob>, StorageError>(
                StorageError::Unsupported(StorageOp::GetLatestAccountState),
            ),
    {
        Err(StorageError::Unsupported(StorageOp::GetLatestAccountState))
    }

    fn get_latest_ledger_info(&self) -> (r: Result<LedgerInfoWithSignatures, StorageError>)
        ensures
            r == Err::<LedgerInfoWithSignatures, StorageError>(
                StorageError::Unsupported(StorageOp::GetLatestLedgerInfo),
            ),
    {
        Err(StorageError::Unsupported(StorageOp::GetLatestLedgerInfo))
    }

    /// Derived from the latest-checkpoint query, as the contract asks, so
    /// it answers with that query's refusal.
    fn get_latest_version(&self) -> (r: Result<u64, StorageError>)
        ensures
            r == Err::<u64, StorageError>(
                StorageError::Unsupported(StorageOp::GetLatestLedgerInfo),
            ),
    {
        match self.get_latest_ledger_info() {
            Ok(li) => Ok(li.ledger_info.version),
            Err(e) => Err(e),
        }
    }

    /// Derived from the latest-checkpoint query, as the contract asks, so
    /// it answers with that query's refusal.
    fn get_latest_commit_metadata(&self) -> (r: Result<(u64, u64), StorageError>)
        ensures
            r == Err::<(u64, u64), StorageError>(
                StorageError::Unsupported(StorageOp::GetLatestLedgerInfo),
            ),
    {
        match self.get_latest_ledger_info() {
            Ok(li) => Ok((li.ledger_info.version, li.ledger_info.timestamp_usecs)),
            Err(e) => Err(e),
        }
    }

    /// The one read guaranteed to succeed: the fixed synthetic empty-ledger
    /// startup state.
    fn get_startup_info(&self) -> (r: Result<Option<StartupInfo>, StorageError>)
        ensures
            (r matches Ok(opt) && opt matches Some(si) && si@ == spec_empty_ledger_startup()),
    {
        Ok(Some(StartupInfo::new_for_testing()))
    }

    fn get_txn_by_account(
        &self,
        address: u64,
        seq_num: u64,
        ledger_version: u64,
        fetch_events: bool,
    ) -> (r: Result<Option<TransactionWithProof>, StorageError>)
        ensures
            r == Err::<Option<TransactionWithProof>, StorageError>(
                StorageError::Unsupported(StorageOp::GetTxnByAccount),
            ),
    {
        Err(StorageError::Unsupported(StorageOp::GetTxnByAccount))
    }

    fn get_state_proof_with_ledger_info(
        &self,
        known_version: u64,
        ledger_info: LedgerInfoWithSignatures,
    ) -> (r: Result<(EpochChangeProof, AccumulatorConsistencyProof), StorageError>)
        ensures
            r == Err::<(EpochChangeProof, AccumulatorConsistencyProof), StorageError>(
                StorageError::Unsupported(StorageOp::GetStateProofWithLedgerInfo),
            ),
    {
        Err(StorageError::Unsupported(StorageOp::GetStateProofWithLedgerInfo))
    }

    fn get_state_proof(&self, known_version: u64) -> (r: Result<
        (LedgerInfoWithSignatures, EpochChangeProof, AccumulatorConsistencyProof),
        StorageError,
    >)
        ensures
            r == Err::<
                (LedgerInfoWithSignatures, EpochChangeProof, AccumulatorConsistencyProof),
                StorageError,
            >(StorageError::Unsupported(StorageOp::GetStateProof)),
    {
        Err(StorageError::Unsupported(StorageOp::GetStateProof))
    }

    fn get_account_state_with_proof(
        &self,
        address: u64,
        version: u64,
        ledger_version: u64,
    ) -> (r: Result<AccountStateWithProof, StorageError>)
        ensures
            r == Err::<AccountStateWithProof, StorageError>(
                StorageError::Unsupported(StorageOp::GetAccountStateWithProof),
            ),
    {
        Err(StorageError::Unsupported(StorageOp::GetAccountStateWithProof))
    }

    fn get_account_state_with_proof_by_version(&self, address: u64, version: u64) -> (r: Result<
        (Option<AccountStateBlob>, SparseMerkleProof),
        StorageError,
    >)
        ensures
            r == Err::<(Option<AccountStateBlob>, SparseMerkleProof), StorageError>(
                StorageError::Unsupported(StorageOp::GetAccountStateWithProofByVersion),
            ),
    {
        Err(StorageError::Unsupported(StorageOp::GetAccountStateWithProofByVersion))
    }

    fn get_latest_state_root(&self) -> (r: Result<(u64, u64), StorageError>)
        ensures
            r == Err::<(u64, u64), StorageError>(
                StorageError::Unsupported(StorageOp::GetLatestStateRoot),
            ),
    {
        Err(StorageError::Unsupported(StorageOp::GetLatestStateRoot))
    }

    fn get_latest_tree_state(&self) -> (r: Result<TreeState, StorageError>)
        ensures
            r == Err::<TreeState, StorageError>(
                StorageError::Unsupported(StorageOp::GetLatestTreeState),
            ),
    {
        Err(StorageError::Unsupported(StorageOp::GetLatestTreeState))
    }

    fn get_epoch_ending_ledger_info(&self, known_version: u64) -> (r: Result<
        LedgerInfoWithSignatures,
        StorageError,
    >)
        ensures
            r == Err::<LedgerInfoWithSignatures, StorageError>(
                StorageError::Unsupported(StorageOp::GetEpochEndingLedgerInfo),
            ),
    {
        Err(StorageError::Unsupported(StorageOp::GetEpochEndingLedgerInfo))
    }
}

impl DbWriter for FakeDb {
    /// The write operation is accepted unconditionally: nothing is
    /// validated and nothing persists.
    fn save_transactions(
        &self,
        txns_to_commit: &Vec<TransactionToCommit>,
        first_version: u64,
        ledger_info_with_sigs: Option<&LedgerInfoWithSignatures>,
    ) -> (r: Result<(), StorageError>)
        ensures
            r is Ok,
    {
        Ok(())
    }
}

} // verus!
