//! The transaction-processing contract and the mock processor that stands
//! in for the real execution engine.
//!
//! The mock answers every batch, over any state view, with an empty,
//! successful output list: it never inspects the view and never fails.
//! This removes real execution semantics from the fuzz target, so that the
//! executor's proof handling and commit bookkeeping is what is exercised.

use vstd::prelude::*;

use crate::ledger::{ContractEvent, Transaction};

verus! {

/// The failure status a transaction processor may report for a whole batch.
#[derive(Clone, Copy, Debug, PartialEq, Eq)]
pub struct VMStatus {
    pub major_status: u64,
}

/// What processing one transaction produced.
#[derive(Clone, Debug, PartialEq, Eq)]
pub struct TransactionOutput {
    pub events: Vec<ContractEvent>,
    pub gas_used: u64,
    pub status: u64,
}

/// A read-only view of ledger state at a version, as handed to the
/// transaction processor.
pub trait StateView {
    fn get(&self, access_path: &Vec<u8>) -> Option<Vec<u8>>;

    fn is_genesis(&self) -> bool;
}

/// A state view over no data at all: every lookup misses. It drives the
/// mock processor in isolation, the way the executor's own views would.
pub struct EmptyStateView;

impl StateView for EmptyStateView {
    fn get(&self, access_path: &Vec<u8>) -> (r: Option<Vec<u8>>)
        ensures
            r is None,
    {
        None
    }

    fn is_genesis(&self) -> (r: bool)
        ensures
            r,
    {
        true
    }
}

/// The transaction-processing contract: execute a batch of transactions
/// against a state view, reporting per-transaction outputs or a failure
/// status for the batch.
pub trait VMExecutor {
    fn execute_block<S: StateView>(transactions: Vec<Transaction>, state_view: &S) -> Result<
        Vec<TransactionOutput>,
        VMStatus,
    >;
}

/// The mock transaction processor.
pub struct FakeVM;

impl VMExecutor for FakeVM {
    /// Always an empty success, whatever the batch — including an empty
    /// one — and whatever the state view, which is never inspected.
    fn execute_block<S: StateView>(transactions: Vec<Transaction>, state_view: &S) -> (r: Result<
        Vec<TransactionOutput>,
        VMStatus,
    >)
        ensures
            (r matches Ok(outputs) && outputs@ =~= Seq::<TransactionOutput>::empty()),
    {
        Ok(Vec::new())
    }
}

} // verus!
