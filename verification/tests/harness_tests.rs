use executor_harness::harness::{
    generate_chunk_args, fuzz, ChunkExecutor, ExecuteError, FuzzOutcome,
};
use executor_harness::ledger::{ContractEvent, LedgerInfoWithSignatures, TransactionListWithProof};
use executor_harness::storage::{DbReader, DbWriter, FakeDb, StorageError, StorageOp};

/// A stand-in for the system under test that behaves as a correctly-scoped
/// chunk executor would: it reads startup info on entry, saves the batch on
/// commit, and records what it was invoked with.
struct RecordingExecutor {
    db: FakeDb,
    calls: usize,
    storage_refusals: usize,
    last_args: Option<(TransactionListWithProof, LedgerInfoWithSignatures)>,
}

impl RecordingExecutor {
    fn new() -> RecordingExecutor {
        RecordingExecutor { db: FakeDb, calls: 0, storage_refusals: 0, last_args: None }
    }
}

impl ChunkExecutor for RecordingExecutor {
    fn execute_and_commit_chunk(
        &mut self,
        txn_list_with_proof: TransactionListWithProof,
        verified_target_li: LedgerInfoWithSignatures,
        epoch_change_li: Option<LedgerInfoWithSignatures>,
    ) -> Result<Vec<ContractEvent>, ExecuteError> {
        self.calls += 1;
        assert!(epoch_change_li.is_none());
        if self.db.get_startup_info().is_err() {
            self.storage_refusals += 1;
        }
        let first_version = txn_list_with_proof.first_version.unwrap_or(0);
        if self.db.save_transactions(&Vec::new(), first_version, Some(&verified_target_li)).is_err()
        {
            self.storage_refusals += 1;
        }
        self.last_args = Some((txn_list_with_proof, verified_target_li));
        Ok(Vec::new())
    }
}

/// A stand-in for an executor that takes an undocumented dependency on
/// ledger history before it ever asks for startup info.
struct HistoryHungryExecutor {
    db: FakeDb,
    calls: usize,
}

impl ChunkExecutor for HistoryHungryExecutor {
    fn execute_and_commit_chunk(
        &mut self,
        _txn_list_with_proof: TransactionListWithProof,
        verified_target_li: LedgerInfoWithSignatures,
        _epoch_change_li: Option<LedgerInfoWithSignatures>,
    ) -> Result<Vec<ContractEvent>, ExecuteError> {
        self.calls += 1;
        if verified_target_li.ledger_info.epoch > 0 {
            match self.db.get_epoch_ending_ledger_infos(0, verified_target_li.ledger_info.epoch) {
                Ok(_) => {}
                Err(e) => return Err(ExecuteError::Storage(e)),
            }
        }
        Ok(Vec::new())
    }
}

#[test]
fn zero_length_input_returns_without_invoking_the_executor() {
    let mut executor = RecordingExecutor::new();
    let outcome = fuzz(&mut executor, &[]);
    assert_eq!(outcome, FuzzOutcome::GenerationFailed);
    assert_eq!(executor.calls, 0);
    assert_eq!(executor.storage_refusals, 0);
}

#[test]
fn short_input_returns_without_invoking_the_executor() {
    let mut executor = RecordingExecutor::new();
    let outcome = fuzz(&mut executor, &[5, 1, 2]);
    assert_eq!(outcome, FuzzOutcome::GenerationFailed);
    assert_eq!(executor.calls, 0);
}

#[test]
fn long_enough_input_invokes_the_commit_operation_exactly_once() {
    let data = [0u8; 52];
    let mut executor = RecordingExecutor::new();
    let outcome = fuzz(&mut executor, &data);
    assert_eq!(outcome, FuzzOutcome::Completed(Ok(Vec::new())));
    assert_eq!(executor.calls, 1);
    // A correctly-scoped executor touched only supported operations.
    assert_eq!(executor.storage_refusals, 0);
}

#[test]
fn the_executor_receives_exactly_the_generated_values() {
    let mut data = vec![0u8; 52];
    data[0] = 8; // 8 % 8 = 0: still an empty batch
    data[8] = 3; // epoch 3 in the checkpoint
    let (expected_txns, expected_li) = generate_chunk_args(&data).expect("both values generate");
    let mut executor = RecordingExecutor::new();
    let outcome = fuzz(&mut executor, &data);
    assert_eq!(outcome, FuzzOutcome::Completed(Ok(Vec::new())));
    let (got_txns, got_li) = executor.last_args.expect("the executor was invoked");
    assert_eq!(got_txns, expected_txns);
    assert_eq!(got_li, expected_li);
}

#[test]
fn a_history_request_surfaces_the_backend_refusal() {
    // Epoch 1 in the generated checkpoint makes this executor ask for
    // ledger history, which the mock backend refuses by design.
    let mut data = vec![0u8; 52];
    data[8] = 1;
    let mut executor = HistoryHungryExecutor { db: FakeDb, calls: 0 };
    let outcome = fuzz(&mut executor, &data);
    assert_eq!(
        outcome,
        FuzzOutcome::Completed(Err(ExecuteError::Storage(StorageError::Unsupported(
            StorageOp::GetEpochEndingLedgerInfos
        ))))
    );
    assert_eq!(executor.calls, 1);
}

#[test]
fn a_well_scoped_executor_never_sees_a_refusal() {
    let mut data = vec![0u8; 80];
    for (i, b) in data.iter_mut().enumerate() {
        *b = (i as u8).wrapping_mul(13).wrapping_add(5);
    }
    let mut executor = RecordingExecutor::new();
    match fuzz(&mut executor, &data) {
        FuzzOutcome::GenerationFailed => {
            assert_eq!(executor.calls, 0);
        }
        FuzzOutcome::Completed(result) => {
            assert_eq!(executor.calls, 1);
            assert_eq!(executor.storage_refusals, 0);
            assert_eq!(result, Ok(Vec::new()));
        }
    }
}
