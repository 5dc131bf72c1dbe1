//! Model domain values the harness generates and hands to the executor
//! under test: a transaction batch bundled with an inclusion proof, and a
//! ledger checkpoint bundled with validator signatures.
//!
//! Each type carries plain values only, together with the structural
//! invariant the generator is responsible for establishing.

use vstd::prelude::*;

verus! {

/// One already-ordered transaction of a chunk; its payload is opaque to the
/// harness.
#[derive(Clone, Debug, PartialEq, Eq)]
pub struct Transaction {
    pub payload: Vec<u8>,
}

/// The mathematical value of a [`Transaction`].
pub struct TransactionView {
    pub payload: Seq<u8>,
}

impl View for Transaction {
    type V = TransactionView;

    open spec fn view(&self) -> TransactionView {
        TransactionView { payload: self.payload@ }
    }
}

/// A contiguous batch of transactions together with the inclusion proof that
/// accompanies it into the executor's commit operation.
#[derive(Clone, Debug, PartialEq, Eq)]
pub struct TransactionListWithProof {
    /// The transactions of the chunk, in ledger order.
    pub transactions: Vec<Transaction>,
    /// One accumulator leaf hash per transaction of the batch.
    pub proof_leaves: Vec<u64>,
    /// The ledger version of the first transaction; absent exactly when the
    /// batch is empty.
    pub first_version: Option<u64>,
}

/// The mathematical value of a [`TransactionListWithProof`].
pub struct TransactionListView {
    pub transactions: Seq<TransactionView>,
    pub proof_leaves: Seq<u64>,
    pub first_version: Option<u64>,
}

/// The views of the transactions a sequence holds.
pub open spec fn transaction_views(s: Seq<Transaction>) -> Seq<TransactionView> {
    s.map_values(|t: Transaction| t@)
}

impl View for TransactionListWithProof {
    type V = TransactionListView;

    open spec fn view(&self) -> TransactionListView {
        TransactionListView {
            transactions: transaction_views(self.transactions@),
            proof_leaves: self.proof_leaves@,
            first_version: self.first_version,
        }
    }
}

impl TransactionListView {
    /// The structural invariant of a batch: the proof shape is consistent
    /// with the batch size, and a first version is present exactly for a
    /// non-empty batch.
    pub open spec fn well_formed(self) -> bool {
        &&& self.proof_leaves.len() == self.transactions.len()
        &&& (self.first_version is Some <==> self.transactions.len() > 0)
    }
}

impl TransactionListWithProof {
    /// The structural invariant, stated of the executable value.
    pub open spec fn well_formed(self) -> bool {
        self@.well_formed()
    }
}

/// A signed statement of ledger state at a version: the metadata the
/// validators sign.
#[derive(Clone, Copy, Debug, PartialEq, Eq)]
pub struct LedgerInfo {
    pub epoch: u64,
    pub round: u64,
    pub version: u64,
    pub timestamp_usecs: u64,
    pub transaction_accumulator_hash: u64,
    pub consensus_data_hash: u64,
}

/// One validator's signature over a [`LedgerInfo`].
#[derive(Clone, Copy, Debug, PartialEq, Eq)]
pub struct Signature {
    /// The signing validator's account; signature sets are kept strictly
    /// ordered by it, so a signer appears at most once.
    pub signer: u64,
    pub value: u64,
}

/// A ledger checkpoint: a [`LedgerInfo`] together with the validator
/// signatures that make it a verified commit target.
#[derive(Clone, Debug, PartialEq, Eq)]
pub struct LedgerInfoWithSignatures {
    pub ledger_info: LedgerInfo,
    pub signatures: Vec<Signature>,
}

/// The mathematical value of a [`LedgerInfoWithSignatures`].
pub struct CheckpointView {
    pub ledger_info: LedgerInfo,
    pub signatures: Seq<Signature>,
}

impl View for LedgerInfoWithSignatures {
    type V = CheckpointView;

    open spec fn view(&self) -> CheckpointView {
        CheckpointView { ledger_info: self.ledger_info, signatures: self.signatures@ }
    }
}

impl CheckpointView {
    /// The structural invariant of a generated checkpoint: the signature set
    /// is non-empty and strictly ordered by signer.
    pub open spec fn well_formed(self) -> bool {
        &&& self.signatures.len() >= 1
        &&& forall|i: int, j: int|
            0 <= i < j < self.signatures.len() ==> self.signatures[i].signer
                < self.signatures[j].signer
    }
}

impl LedgerInfoWithSignatures {
    /// The structural invariant, stated of the executable value.
    pub open spec fn well_formed(self) -> bool {
        self@.well_formed()
    }
}

/// One transaction bundled with the proof that places it at its version.
#[derive(Clone, Debug, PartialEq, Eq)]
pub struct TransactionWithProof {
    pub version: u64,
    pub transaction: Transaction,
    pub proof_siblings: Vec<u64>,
}

/// An event reported by the executor's commit operation.
#[derive(Clone, Debug, PartialEq, Eq)]
pub struct ContractEvent {
    pub key: u64,
    pub sequence_number: u64,
    pub payload: Vec<u8>,
}

} // verus!
