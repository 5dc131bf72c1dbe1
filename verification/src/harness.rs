//! The fuzz entry point: drives generation from the raw input and invokes
//! the executor under test, discarding whatever that invocation returns.
//!
//! The executor itself — the system under test — is reached only through
//! the chunk-execution contract below; the harness promises nothing about
//! what it returns, only when it is reached.

use vstd::prelude::*;

use crate::cursor::ByteCursor;
use crate::gen::{generate_checkpoint, generate_transaction_list, spec_generate_pair};
use crate::ledger::{
    CheckpointView, ContractEvent, LedgerInfoWithSignatures, TransactionListView,
    TransactionListWithProof,
};
use crate::storage::StorageError;

verus! {

/// The failure an executor's commit operation may report. The harness never
/// inspects it; the variants only carry what a test double observed.
#[derive(Clone, Debug, PartialEq, Eq)]
pub enum ExecuteError {
    /// A storage operation refused by the backend surfaced to the caller.
    Storage(StorageError),
    /// Any other failure the executor reports, by a numeric status.
    Other(u64),
}

/// The chunk-execution contract of the system under test: execute and
/// commit a verified chunk, taking the transaction batch with its proof,
/// the verified target checkpoint, and an optional epoch-change hint,
/// returning committed events or a failure.
pub trait ChunkExecutor {
    fn execute_and_commit_chunk(
        &mut self,
        txn_list_with_proof: TransactionListWithProof,
        verified_target_li: LedgerInfoWithSignatures,
        epoch_change_li: Option<LedgerInfoWithSignatures>,
    ) -> Result<Vec<ContractEvent>, ExecuteError>;
}

/// How one harness invocation ended.
#[derive(Debug, PartialEq, Eq)]
pub enum FuzzOutcome {
    /// The input was exhausted during generation; the executor was never
    /// invoked. The normal outcome of most random inputs.
    GenerationFailed,
    /// Both values were generated and the executor's commit operation was
    /// invoked exactly once; whatever it returned is carried along,
    /// unasserted.
    Completed(Result<Vec<ContractEvent>, ExecuteError>),
}

/// Generate the two structured arguments of one invocation from the raw
/// input: the transaction batch with its proof first, the checkpoint
/// second, both drawing from the same byte cursor.
pub fn generate_chunk_args(data: &[u8]) -> (r: Option<
    (TransactionListWithProof, LedgerInfoWithSignatures),
>)
    ensures
        (match spec_generate_pair(data@) {
            Some(p) => r matches Some(v) && v.0@ == p.0 && v.1@ == p.1 && v.0.well_formed()
                && v.1.well_formed(),
            None => r is None,
        }),
{
    let mut cursor = ByteCursor::new(data);
    let txn_list_with_proof = match generate_transaction_list(&mut cursor) {
        Ok(t) => t,
        Err(_) => {
            return None;
        },
    };
    let verified_target_li = match generate_checkpoint(&mut cursor) {
        Ok(c) => c,
        Err(_) => {
            return None;
        },
    };
    Some((txn_list_with_proof, verified_target_li))
}

/// One complete harness invocation over one input.
///
/// The executor handed in must be fresh, bound to a fresh mock backend and
/// the mock processor: nothing may be shared across invocations. The
/// harness generates the batch and the checkpoint from the input; if
/// either generation runs out of bytes it returns at once, and the executor
/// is never reached. Otherwise it invokes the executor's commit operation
/// exactly once, with no epoch-change hint, and carries the result along
/// without asserting on it.
pub fn fuzz<E: ChunkExecutor>(executor: &mut E, data: &[u8]) -> (outcome: FuzzOutcome)
    ensures
        (outcome is GenerationFailed <==> spec_generate_pair(data@) is None),
        spec_generate_pair(data@) is Some ==> outcome is Completed,
{
    match generate_chunk_args(data) {
        None => FuzzOutcome::GenerationFailed,
        Some((txn_list_with_proof, verified_target_li)) => FuzzOutcome::Completed(
            executor.execute_and_commit_chunk(txn_list_with_proof, verified_target_li, None),
        ),
    }
}

/// An empty input cannot generate the batch, so the harness returns at
/// once: the executor and the backend's write operation are never reached.
pub proof fn lemma_empty_input_generates_nothing()
    ensures
        spec_generate_pair(Seq::<u8>::empty()) is None,
{
}

/// Generation is deterministic: it is a pure function of the input bytes,
/// so any two generation results over the same input — across runs and
/// processes — are one and the same, bit for bit.
pub proof fn lemma_generation_deterministic(
    bytes: Seq<u8>,
    r1: Option<(TransactionListView, CheckpointView)>,
    r2: Option<(TransactionListView, CheckpointView)>,
)
    requires
        r1 == spec_generate_pair(bytes),
        r2 == spec_generate_pair(bytes),
    ensures
        r1 == r2,
{
}

} // verus!
