use executor_harness::cursor::ByteCursor;
use executor_harness::gen::{
    generate_checkpoint, generate_transaction_list, GenerationFailure,
};
use executor_harness::harness::generate_chunk_args;
use executor_harness::ledger::Signature;

#[test]
fn cursor_reads_bytes_in_order() {
    let mut cursor = ByteCursor::new(&[1, 2, 3]);
    assert_eq!(cursor.take_u8(), Some(1));
    assert_eq!(cursor.take_u8(), Some(2));
    assert_eq!(cursor.take_u8(), Some(3));
    assert_eq!(cursor.take_u8(), None);
}

#[test]
fn cursor_reads_big_endian_u64() {
    let mut cursor = ByteCursor::new(&[1, 2, 3, 4, 5, 6, 7, 8]);
    assert_eq!(cursor.take_u64(), Some(0x0102030405060708));
    assert_eq!(cursor.take_u64(), None);
}

#[test]
fn cursor_exhaustion_leaves_position_in_place() {
    let mut cursor = ByteCursor::new(&[9, 9, 9]);
    assert_eq!(cursor.take_u64(), None);
    assert_eq!(cursor.take_bytes(4), None);
    assert_eq!(cursor.take_bytes(3), Some(vec![9, 9, 9]));
    assert_eq!(cursor.take_bytes(1), None);
}

#[test]
fn empty_input_generates_nothing() {
    assert_eq!(generate_chunk_args(&[]), None);
}

#[test]
fn short_input_generates_nothing() {
    // One byte short of the smallest input that can finish both values.
    let data = [0u8; 51];
    assert_eq!(generate_chunk_args(&data), None);
}

#[test]
fn minimal_input_generates_empty_batch_and_one_signature() {
    // 1 count byte (empty batch), 48 ledger-info bytes, 1 signature count
    // byte, 2 bytes for the single signature.
    let data = [0u8; 52];
    let (txn_list, checkpoint) = generate_chunk_args(&data).expect("both values generate");
    assert!(txn_list.transactions.is_empty());
    assert!(txn_list.proof_leaves.is_empty());
    assert_eq!(txn_list.first_version, None);
    assert_eq!(checkpoint.ledger_info.epoch, 0);
    assert_eq!(checkpoint.ledger_info.version, 0);
    assert_eq!(checkpoint.signatures, vec![Signature { signer: 0, value: 0 }]);
}

#[test]
fn generation_is_deterministic_across_runs() {
    let mut data = Vec::new();
    for i in 0..120u8 {
        data.push(i.wrapping_mul(37).wrapping_add(11));
    }
    let first = generate_chunk_args(&data);
    let second = generate_chunk_args(&data);
    assert_eq!(first, second);
}

#[test]
fn batch_generation_consumes_a_fixed_byte_order() {
    let mut data: Vec<u8> = Vec::new();
    data.push(2); // two transactions
    data.push(3); // first payload: three bytes
    data.extend_from_slice(&[10, 11, 12]);
    data.push(1); // second payload: one byte
    data.push(7);
    data.extend_from_slice(&[0, 0, 0, 0, 0, 0, 0, 5]); // first proof leaf
    data.extend_from_slice(&[0, 0, 0, 0, 0, 0, 0, 9]); // second proof leaf
    data.extend_from_slice(&[0, 0, 0, 0, 0, 0, 0, 42]); // first version

    let mut cursor = ByteCursor::new(&data);
    let txn_list = generate_transaction_list(&mut cursor).expect("batch generates");
    assert_eq!(txn_list.transactions.len(), 2);
    assert_eq!(txn_list.transactions[0].payload, vec![10, 11, 12]);
    assert_eq!(txn_list.transactions[1].payload, vec![7]);
    assert_eq!(txn_list.proof_leaves, vec![5, 9]);
    assert_eq!(txn_list.first_version, Some(42));
}

#[test]
fn payload_length_byte_is_reduced_modulo_sixteen() {
    let mut data: Vec<u8> = Vec::new();
    data.push(1); // one transaction
    data.push(19); // 19 % 16 = 3 payload bytes
    data.extend_from_slice(&[1, 2, 3]);
    data.extend_from_slice(&[0; 8]); // one proof leaf
    data.extend_from_slice(&[0; 8]); // first version

    let mut cursor = ByteCursor::new(&data);
    let txn_list = generate_transaction_list(&mut cursor).expect("batch generates");
    assert_eq!(txn_list.transactions[0].payload, vec![1, 2, 3]);
    assert_eq!(txn_list.first_version, Some(0));
}

#[test]
fn checkpoint_generation_orders_signers_strictly() {
    let mut data: Vec<u8> = Vec::new();
    data.extend_from_slice(&[0, 0, 0, 0, 0, 0, 0, 1]); // epoch
    data.extend_from_slice(&[0, 0, 0, 0, 0, 0, 0, 2]); // round
    data.extend_from_slice(&[0, 0, 0, 0, 0, 0, 0, 3]); // version
    data.extend_from_slice(&[0, 0, 0, 0, 0, 0, 0, 4]); // timestamp
    data.extend_from_slice(&[0, 0, 0, 0, 0, 0, 0, 5]); // accumulator hash
    data.extend_from_slice(&[0, 0, 0, 0, 0, 0, 0, 6]); // consensus hash
    data.push(1); // 1 + 1 % 4 = two signatures
    data.push(7); // first delta: signer 7
    data.push(1); // first value
    data.push(0); // second delta: signer 7 + 1 + 0 = 8
    data.push(2); // second value

    let mut cursor = ByteCursor::new(&data);
    let checkpoint = generate_checkpoint(&mut cursor).expect("checkpoint generates");
    assert_eq!(checkpoint.ledger_info.epoch, 1);
    assert_eq!(checkpoint.ledger_info.round, 2);
    assert_eq!(checkpoint.ledger_info.version, 3);
    assert_eq!(checkpoint.ledger_info.timestamp_usecs, 4);
    assert_eq!(checkpoint.ledger_info.transaction_accumulator_hash, 5);
    assert_eq!(checkpoint.ledger_info.consensus_data_hash, 6);
    assert_eq!(
        checkpoint.signatures,
        vec![Signature { signer: 7, value: 1 }, Signature { signer: 8, value: 2 }]
    );
}

#[test]
fn checkpoint_generation_fails_on_exhausted_signatures() {
    // Ledger info and the count byte fit, but the signature bytes do not.
    let data = [0u8; 50];
    let mut cursor = ByteCursor::new(&data);
    cursor.take_u8().unwrap(); // stand where checkpoint generation would
    assert_eq!(generate_checkpoint(&mut cursor), Err(GenerationFailure));
}
