use executor_harness::ledger::{LedgerInfo, LedgerInfoWithSignatures, Transaction};
use executor_harness::storage::{
    DbReader, DbWriter, FakeDb, Order, StartupInfo, StorageError, StorageOp, TransactionToCommit,
    TreeState,
};
use executor_harness::vm::{EmptyStateView, FakeVM, StateView, VMExecutor};

#[test]
fn startup_info_is_the_fixed_empty_ledger_state() {
    let db = FakeDb;
    let startup = db.get_startup_info().expect("startup info succeeds").expect("present");
    let expected = StartupInfo {
        latest_ledger_info: LedgerInfoWithSignatures {
            ledger_info: LedgerInfo {
                epoch: 0,
                round: 0,
                version: 0,
                timestamp_usecs: 0,
                transaction_accumulator_hash: 0,
                consensus_data_hash: 0,
            },
            signatures: Vec::new(),
        },
        committed_tree_state: TreeState { num_transactions: 0, state_root_hash: 0 },
        synced_tree_state: None,
    };
    assert_eq!(startup, expected);
    assert_eq!(startup, StartupInfo::new_for_testing());
}

#[test]
fn save_transactions_is_accepted_unconditionally() {
    let db = FakeDb;
    assert_eq!(db.save_transactions(&Vec::new(), 0, None), Ok(()));
    let batch = vec![TransactionToCommit {
        transaction: Transaction { payload: vec![1, 2, 3] },
        events: Vec::new(),
        gas_used: 7,
        major_status: 0,
    }];
    let checkpoint = LedgerInfoWithSignatures {
        ledger_info: LedgerInfo {
            epoch: 1,
            round: 2,
            version: 3,
            timestamp_usecs: 4,
            transaction_accumulator_hash: 5,
            consensus_data_hash: 6,
        },
        signatures: Vec::new(),
    };
    assert_eq!(db.save_transactions(&batch, 99, Some(&checkpoint)), Ok(()));
}

#[test]
fn every_other_read_reports_its_own_unsupported_operation() {
    let db = FakeDb;
    let li = LedgerInfoWithSignatures {
        ledger_info: LedgerInfo {
            epoch: 0,
            round: 0,
            version: 0,
            timestamp_usecs: 0,
            transaction_accumulator_hash: 0,
            consensus_data_hash: 0,
        },
        signatures: Vec::new(),
    };
    assert_eq!(
        db.get_block_timestamp(0),
        Err(StorageError::Unsupported(StorageOp::GetBlockTimestamp))
    );
    assert_eq!(
        db.get_epoch_ending_ledger_infos(0, 1),
        Err(StorageError::Unsupported(StorageOp::GetEpochEndingLedgerInfos))
    );
    assert_eq!(
        db.get_transactions(0, 10, 0, false),
        Err(StorageError::Unsupported(StorageOp::GetTransactions))
    );
    assert_eq!(
        db.get_events(5, 0, Order::Ascending, 10),
        Err(StorageError::Unsupported(StorageOp::GetEvents))
    );
    assert_eq!(
        db.get_latest_account_state(1),
        Err(StorageError::Unsupported(StorageOp::GetLatestAccountState))
    );
    assert_eq!(
        db.get_latest_ledger_info(),
        Err(StorageError::Unsupported(StorageOp::GetLatestLedgerInfo))
    );
    assert_eq!(
        db.get_txn_by_account(1, 0, 0, true),
        Err(StorageError::Unsupported(StorageOp::GetTxnByAccount))
    );
    assert_eq!(
        db.get_state_proof_with_ledger_info(0, li.clone()),
        Err(StorageError::Unsupported(StorageOp::GetStateProofWithLedgerInfo))
    );
    assert_eq!(
        db.get_state_proof(0),
        Err(StorageError::Unsupported(StorageOp::GetStateProof))
    );
    assert_eq!(
        db.get_account_state_with_proof(1, 0, 0),
        Err(StorageError::Unsupported(StorageOp::GetAccountStateWithProof))
    );
    assert_eq!(
        db.get_account_state_with_proof_by_version(1, 0),
        Err(StorageError::Unsupported(StorageOp::GetAccountStateWithProofByVersion))
    );
    assert_eq!(
        db.get_latest_state_root(),
        Err(StorageError::Unsupported(StorageOp::GetLatestStateRoot))
    );
    assert_eq!(
        db.get_latest_tree_state(),
        Err(StorageError::Unsupported(StorageOp::GetLatestTreeState))
    );
    assert_eq!(
        db.get_epoch_ending_ledger_info(0),
        Err(StorageError::Unsupported(StorageOp::GetEpochEndingLedgerInfo))
    );
}

#[test]
fn derived_reads_report_the_latest_ledger_info_refusal() {
    let db = FakeDb;
    assert_eq!(
        db.get_latest_version(),
        Err(StorageError::Unsupported(StorageOp::GetLatestLedgerInfo))
    );
    assert_eq!(
        db.get_latest_commit_metadata(),
        Err(StorageError::Unsupported(StorageOp::GetLatestLedgerInfo))
    );
}

#[test]
fn mock_processor_returns_empty_success_for_an_empty_batch() {
    let out = FakeVM::execute_block(Vec::new(), &EmptyStateView);
    assert_eq!(out, Ok(Vec::new()));
}

#[test]
fn mock_processor_returns_empty_success_for_any_batch() {
    let batch = vec![
        Transaction { payload: vec![1, 2, 3] },
        Transaction { payload: Vec::new() },
        Transaction { payload: vec![255; 15] },
    ];
    let out = FakeVM::execute_block(batch, &EmptyStateView);
    assert_eq!(out, Ok(Vec::new()));
}

#[test]
fn empty_state_view_answers_nothing() {
    let view = EmptyStateView;
    assert_eq!(view.get(&vec![1, 2, 3]), None);
    assert!(view.is_genesis());
}
