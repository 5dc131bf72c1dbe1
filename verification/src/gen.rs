//! The deterministic generator: builds one structurally valid domain value
//! per call from the byte cursor, consuming bytes in a fixed, type-specific
//! order.
//!
//! Every generated value is a pure function of the input bytes and the
//! cursor position, stated here as spec functions that the executable
//! builders are proved to follow exactly. Exhausting the input before a
//! value can be assembled is an expected, benign failure.

use vstd::prelude::*;

use crate::cursor::{
    spec_take_bytes, spec_take_u8, spec_take_u64, be_u64_value, ByteCursor,
};
use crate::ledger::{
    transaction_views, CheckpointView, LedgerInfo, LedgerInfoWithSignatures, Signature,
    Transaction, TransactionListView, TransactionListWithProof, TransactionView,
};

verus! {

/// Upper bound (exclusive) a length byte is reduced to when it sizes one
/// transaction's payload.
pub const MAX_PAYLOAD_LEN: u8 = 16;

/// Upper bound (exclusive) a count byte is reduced to when it sizes the
/// transaction batch.
pub const MAX_BATCH_SIZE: u8 = 8;

/// Upper bound (exclusive) a count byte is reduced to when it sizes the part
/// of the signature set beyond the first, always-present signature.
pub const MAX_EXTRA_SIGNATURES: u8 = 4;

/// Generation failed because the input bytes were exhausted (or a generated
/// choice left its domain) before a valid value could be assembled. This is
/// the normal outcome of most random inputs, not a defect.
#[derive(Clone, Copy, Debug, PartialEq, Eq)]
pub struct GenerationFailure;

/// What generating one transaction at `pos` yields: a length byte reduced
/// modulo [`MAX_PAYLOAD_LEN`], then that many payload bytes.
pub open spec fn spec_gen_transaction(bytes: Seq<u8>, pos: int) -> Option<(TransactionView, int)> {
    match spec_take_u8(bytes, pos) {
        None => None,
        Some(l) => match spec_take_bytes(bytes, l.1, (l.0 % MAX_PAYLOAD_LEN) as int) {
            None => None,
            Some(p) => Some((TransactionView { payload: p.0 }, p.1)),
        },
    }
}

/// What generating `n` transactions in a row at `pos` yields.
pub open spec fn spec_gen_transactions(bytes: Seq<u8>, pos: int, n: nat) -> Option<
    (Seq<TransactionView>, int),
>
    decreases n,
{
    if n == 0 {
        Some((Seq::empty(), pos))
    } else {
        match spec_gen_transactions(bytes, pos, (n - 1) as nat) {
            None => None,
            Some(acc) => match spec_gen_transaction(bytes, acc.1) {
                None => None,
                Some(t) => Some((acc.0.push(t.0), t.1)),
            },
        }
    }
}

/// What generating `n` accumulator leaf hashes in a row at `pos` yields.
pub open spec fn spec_gen_leaves(bytes: Seq<u8>, pos: int, n: nat) -> Option<(Seq<u64>, int)>
    decreases n,
{
    if n == 0 {
        Some((Seq::empty(), pos))
    } else {
        match spec_gen_leaves(bytes, pos, (n - 1) as nat) {
            None => None,
            Some(acc) => match spec_take_u64(bytes, acc.1) {
                None => None,
                Some(l) => Some((acc.0.push(l.0), l.1)),
            },
        }
    }
}

/// What generating the transaction batch with its proof at `pos` yields: a
/// count byte reduced modulo [`MAX_BATCH_SIZE`], that many transactions,
/// one proof leaf per transaction, and a first version exactly when the
/// batch is non-empty.
pub open spec fn spec_gen_transaction_list(bytes: Seq<u8>, pos: int) -> Option<
    (TransactionListView, int),
> {
    match spec_take_u8(bytes, pos) {
        None => None,
        Some(c) => {
            let n = (c.0 % MAX_BATCH_SIZE) as nat;
            match spec_gen_transactions(bytes, c.1, n) {
                None => None,
                Some(ts) => match spec_gen_leaves(bytes, ts.1, n) {
                    None => None,
                    Some(ls) => spec_finish_transaction_list(bytes, ts.0, ls.0, ls.1),
                },
            }
        },
    }
}

/// The last step of batch generation: attach the first version, read from
/// the input exactly when the batch is non-empty.
pub open spec fn spec_finish_transaction_list(
    bytes: Seq<u8>,
    ts: Seq<TransactionView>,
    ls: Seq<u64>,
    pos: int,
) -> Option<(TransactionListView, int)> {
    if ts.len() == 0 {
        Some((TransactionListView { transactions: ts, proof_leaves: ls, first_version: None }, pos))
    } else {
        match spec_take_u64(bytes, pos) {
            None => None,
            Some(v) => Some(
                (
                    TransactionListView {
                        transactions: ts,
                        proof_leaves: ls,
                        first_version: Some(v.0),
                    },
                    v.1,
                ),
            ),
        }
    }
}

/// A generation of `n` transactions that has failed stays failed for every
/// larger count: the byte stream is consumed monotonically.
pub proof fn lemma_gen_transactions_none(bytes: Seq<u8>, pos: int, n: nat, m: nat)
    requires
        spec_gen_transactions(bytes, pos, n) is None,
        n <= m,
    ensures
        spec_gen_transactions(bytes, pos, m) is None,
    decreases m,
{
    if m > n {
        lemma_gen_transactions_none(bytes, pos, n, (m - 1) as nat);
    }
}

/// As [`lemma_gen_transactions_none`], for proof leaves.
pub proof fn lemma_gen_leaves_none(bytes: Seq<u8>, pos: int, n: nat, m: nat)
    requires
        spec_gen_leaves(bytes, pos, n) is None,
        n <= m,
    ensures
        spec_gen_leaves(bytes, pos, m) is None,
    decreases m,
{
    if m > n {
        lemma_gen_leaves_none(bytes, pos, n, (m - 1) as nat);
    }
}

/// A successful generation of `n` transactions yields exactly `n` of them.
pub proof fn lemma_gen_transactions_len(bytes: Seq<u8>, pos: int, n: nat)
    requires
        spec_gen_transactions(bytes, pos, n) is Some,
    ensures
        (spec_gen_transactions(bytes, pos, n)->0).0.len() == n,
    decreases n,
{
    if n > 0 {
        lemma_gen_transactions_len(bytes, pos, (n - 1) as nat);
    }
}

/// A successful generation of `n` proof leaves yields exactly `n` of them.
pub proof fn lemma_gen_leaves_len(bytes: Seq<u8>, pos: int, n: nat)
    requires
        spec_gen_leaves(bytes, pos, n) is Some,
    ensures
        (spec_gen_leaves(bytes, pos, n)->0).0.len() == n,
    decreases n,
{
    if n > 0 {
        lemma_gen_leaves_len(bytes, pos, (n - 1) as nat);
    }
}

/// A batch that generation hands out always satisfies the batch's
/// structural invariant.
pub proof fn lemma_gen_transaction_list_well_formed(bytes: Seq<u8>, pos: int)
    requires
        spec_gen_transaction_list(bytes, pos) is Some,
    ensures
        (spec_gen_transaction_list(bytes, pos)->0).0.well_formed(),
{
    let c = spec_take_u8(bytes, pos)->0;
    let n = (c.0 % MAX_BATCH_SIZE) as nat;
    lemma_gen_transactions_len(bytes, c.1, n);
    let ts = spec_gen_transactions(bytes, c.1, n)->0;
    lemma_gen_leaves_len(bytes, ts.1, n);
}

/// Build one transaction from the cursor, exactly as
/// [`spec_gen_transaction`] says.
pub fn generate_transaction(cursor: &mut ByteCursor) -> (r: Result<Transaction, GenerationFailure>)
    requires
        old(cursor).wf(),
    ensures
        final(cursor).wf(),
        final(cursor).bytes() == old(cursor).bytes(),
        (match spec_gen_transaction(old(cursor).bytes(), old(cursor).pos()) {
            Some(p) => r matches Ok(t) && t@ == p.0 && final(cursor).pos() == p.1,
            None => r is Err,
        }),
{
    let len_byte = match cursor.take_u8() {
        Some(b) => b,
        None => {
            return Err(GenerationFailure);
        },
    };
    let payload = match cursor.take_bytes((len_byte % MAX_PAYLOAD_LEN) as usize) {
        Some(p) => p,
        None => {
            return Err(GenerationFailure);
        },
    };
    Ok(Transaction { payload })
}

/// Build `n` transactions from the cursor, exactly as
/// [`spec_gen_transactions`] says.
#[verifier::loop_isolation(false)]
pub fn generate_transactions(cursor: &mut ByteCursor, n: u8) -> (r: Result<
    Vec<Transaction>,
    GenerationFailure,
>)
    requires
        old(cursor).wf(),
    ensures
        final(cursor).wf(),
        final(cursor).bytes() == old(cursor).bytes(),
        (match spec_gen_transactions(old(cursor).bytes(), old(cursor).pos(), n as nat) {
            Some(p) => r matches Ok(v) && transaction_views(v@) == p.0 && final(cursor).pos()
                == p.1,
            None => r is Err,
        }),
{
    let ghost bytes = cursor.bytes();
    let ghost pos0 = cursor.pos();
    let mut acc: Vec<Transaction> = Vec::new();
    let mut i: u8 = 0;
    proof {
        assert(transaction_views(acc@) =~= Seq::<TransactionView>::empty());
    }
    while i < n
        invariant
            i <= n,
            cursor.wf(),
            cursor.bytes() == bytes,
            spec_gen_transactions(bytes, pos0, i as nat) == Some(
                (transaction_views(acc@), cursor.pos()),
            ),
        decreases n - i,
    {
        let ghost before = transaction_views(acc@);
        match generate_transaction(cursor) {
            Ok(t) => {
                proof {
                    assert(transaction_views(acc@.push(t)) =~= before.push(t@));
                }
                acc.push(t);
            },
            Err(e) => {
                proof {
                    lemma_gen_transactions_none(bytes, pos0, (i + 1) as nat, n as nat);
                }
                return Err(e);
            },
        }
        i = i + 1;
    }
    Ok(acc)
}

/// Build `n` proof leaves from the cursor, exactly as [`spec_gen_leaves`]
/// says.
#[verifier::loop_isolation(false)]
pub fn generate_proof_leaves(cursor: &mut ByteCursor, n: u8) -> (r: Result<
    Vec<u64>,
    GenerationFailure,
>)
    requires
        old(cursor).wf(),
    ensures
        final(cursor).wf(),
        final(cursor).bytes() == old(cursor).bytes(),
        (match spec_gen_leaves(old(cursor).bytes(), old(cursor).pos(), n as nat) {
            Some(p) => r matches Ok(v) && v@ == p.0 && final(cursor).pos() == p.1,
            None => r is Err,
        }),
{
    let ghost bytes = cursor.bytes();
    let ghost pos0 = cursor.pos();
    let mut acc: Vec<u64> = Vec::new();
    let mut i: u8 = 0;
    proof {
        assert(acc@ =~= Seq::<u64>::empty());
    }
    while i < n
        invariant
            i <= n,
            cursor.wf(),
            cursor.bytes() == bytes,
            spec_gen_leaves(bytes, pos0, i as nat) == Some((acc@, cursor.pos())),
        decreases n - i,
    {
        match cursor.take_u64() {
            Some(leaf) => {
                acc.push(leaf);
            },
            None => {
                proof {
                    lemma_gen_leaves_none(bytes, pos0, (i + 1) as nat, n as nat);
                }
                return Err(GenerationFailure);
            },
        }
        i = i + 1;
    }
    Ok(acc)
}

/// Build the transaction batch with its proof from the cursor, exactly as
/// [`spec_gen_transaction_list`] says; what comes out always satisfies the
/// batch invariant.
pub fn generate_transaction_list(cursor: &mut ByteCursor) -> (r: Result<
    TransactionListWithProof,
    GenerationFailure,
>)
    requires
        old(cursor).wf(),
    ensures
        final(cursor).wf(),
        final(cursor).bytes() == old(cursor).bytes(),
        (match spec_gen_transaction_list(old(cursor).bytes(), old(cursor).pos()) {
            Some(p) => r matches Ok(v) && v@ == p.0 && v.well_formed() && final(cursor).pos()
                == p.1,
            None => r is Err,
        }),
{
    let ghost bytes = cursor.bytes();
    let ghost pos0 = cursor.pos();
    let count_byte = match cursor.take_u8() {
        Some(b) => b,
        None => {
            return Err(GenerationFailure);
        },
    };
    let n = count_byte % MAX_BATCH_SIZE;
    let transactions = match generate_transactions(cursor, n) {
        Ok(ts) => ts,
        Err(e) => {
            return Err(e);
        },
    };
    let proof_leaves = match generate_proof_leaves(cursor, n) {
        Ok(ls) => ls,
        Err(e) => {
            return Err(e);
        },
    };
    let first_version = if transactions.len() == 0 {
        None
    } else {
        match cursor.take_u64() {
            Some(v) => Some(v),
            None => {
                return Err(GenerationFailure);
            },
        }
    };
    proof {
        lemma_gen_transactions_len(bytes, (spec_take_u8(bytes, pos0)->0).1, n as nat);
        lemma_gen_transaction_list_well_formed(bytes, pos0);
    }
    Ok(TransactionListWithProof { transactions, proof_leaves, first_version })
}

/// The signer the next generated signature gets: the delta byte itself for
/// the first signature, and strictly past the previous signer after that.
pub open spec fn spec_next_signer(prev: Option<u64>, delta: u8) -> int {
    match prev {
        None => delta as int,
        Some(p) => p + 1 + delta as int,
    }
}

/// What generating `n` signatures in a row at `pos` yields: per signature a
/// delta byte fixing the signer and a value byte, with signers kept
/// strictly increasing. A signer that would leave `u64` fails generation.
pub open spec fn spec_gen_signatures(bytes: Seq<u8>, pos: int, n: nat) -> Option<
    (Seq<Signature>, int),
>
    decreases n,
{
    if n == 0 {
        Some((Seq::empty(), pos))
    } else {
        match spec_gen_signatures(bytes, pos, (n - 1) as nat) {
            None => None,
            Some(acc) => spec_gen_next_signature(bytes, acc.0, acc.1),
        }
    }
}

/// One step of signature generation, extending the signatures generated so
/// far.
pub open spec fn spec_gen_next_signature(bytes: Seq<u8>, acc: Seq<Signature>, pos: int) -> Option<
    (Seq<Signature>, int),
> {
    let prev = if acc.len() == 0 {
        None
    } else {
        Some(acc.last().signer)
    };
    match spec_take_u8(bytes, pos) {
        None => None,
        Some(d) => match spec_take_u8(bytes, d.1) {
            None => None,
            Some(v) => {
                let signer = spec_next_signer(prev, d.0);
                if signer <= u64::MAX {
                    Some((acc.push(Signature { signer: signer as u64, value: v.0 as u64 }), v.1))
                } else {
                    None
                }
            },
        },
    }
}

/// As [`lemma_gen_transactions_none`], for signatures.
pub proof fn lemma_gen_signatures_none(bytes: Seq<u8>, pos: int, n: nat, m: nat)
    requires
        spec_gen_signatures(bytes, pos, n) is None,
        n <= m,
    ensures
        spec_gen_signatures(bytes, pos, m) is None,
    decreases m,
{
    if m > n {
        lemma_gen_signatures_none(bytes, pos, n, (m - 1) as nat);
    }
}

/// A successful generation of `n` signatures yields exactly `n` of them,
/// with strictly increasing signers.
pub proof fn lemma_gen_signatures_increasing(bytes: Seq<u8>, pos: int, n: nat)
    requires
        spec_gen_signatures(bytes, pos, n) is Some,
    ensures
        (spec_gen_signatures(bytes, pos, n)->0).0.len() == n,
        (forall|i: int, j: int|
            0 <= i < j < n ==> (spec_gen_signatures(bytes, pos, n)->0).0[i].signer < (
            spec_gen_signatures(bytes, pos, n)->0).0[j].signer),
    decreases n,
{
    if n > 0 {
        lemma_gen_signatures_increasing(bytes, pos, (n - 1) as nat);
        let prior = (spec_gen_signatures(bytes, pos, (n - 1) as nat)->0).0;
        let s = (spec_gen_signatures(bytes, pos, n)->0).0;
        assert(forall|i: int, j: int| 0 <= i < j < n ==> s[i].signer < s[j].signer) by {
            assert(forall|i: int| 0 <= i < prior.len() ==> s[i] == prior[i]);
            assert(prior.len() > 0 ==> s[n - 1].signer > prior.last().signer);
            assert(forall|i: int|
                0 <= i < prior.len() && prior.len() > 0 ==> prior[i].signer
                    <= prior.last().signer);
        }
    }
}

/// What generating the signed ledger metadata at `pos` yields: six
/// big-endian `u64` fields in a fixed order.
pub open spec fn spec_gen_ledger_info(bytes: Seq<u8>, pos: int) -> Option<(LedgerInfo, int)> {
    if 0 <= pos && pos + 48 <= bytes.len() {
        Some(
            (
                LedgerInfo {
                    epoch: (be_u64_value(bytes.subrange(pos, pos + 8)) as u64),
                    round: (be_u64_value(bytes.subrange(pos + 8, pos + 16)) as u64),
                    version: (be_u64_value(bytes.subrange(pos + 16, pos + 24)) as u64),
                    timestamp_usecs: (be_u64_value(bytes.subrange(pos + 24, pos + 32)) as u64),
                    transaction_accumulator_hash: (be_u64_value(
                        bytes.subrange(pos + 32, pos + 40),
                    ) as u64),
                    consensus_data_hash: (be_u64_value(bytes.subrange(pos + 40, pos + 48)) as u64),
                },
                pos + 48,
            ),
        )
    } else {
        None
    }
}

/// What generating the ledger checkpoint at `pos` yields: the ledger
/// metadata, then a count byte reduced modulo [`MAX_EXTRA_SIGNATURES`] and
/// increased by one, then that many signatures.
pub open spec fn spec_gen_checkpoint(bytes: Seq<u8>, pos: int) -> Option<(CheckpointView, int)> {
    match spec_gen_ledger_info(bytes, pos) {
        None => None,
        Some(li) => match spec_take_u8(bytes, li.1) {
            None => None,
            Some(c) => {
                let n = (1 + c.0 % MAX_EXTRA_SIGNATURES) as nat;
                match spec_gen_signatures(bytes, c.1, n) {
                    None => None,
                    Some(sigs) => Some(
                        (CheckpointView { ledger_info: li.0, signatures: sigs.0 }, sigs.1),
                    ),
                }
            },
        },
    }
}

/// A checkpoint that generation hands out always satisfies the
/// checkpoint's structural invariant.
pub proof fn lemma_gen_checkpoint_well_formed(bytes: Seq<u8>, pos: int)
    requires
        spec_gen_checkpoint(bytes, pos) is Some,
    ensures
        (spec_gen_checkpoint(bytes, pos)->0).0.well_formed(),
{
    let li = spec_gen_ledger_info(bytes, pos)->0;
    let c = spec_take_u8(bytes, li.1)->0;
    let n = (1 + c.0 % MAX_EXTRA_SIGNATURES) as nat;
    lemma_gen_signatures_increasing(bytes, c.1, n);
}

/// What one harness invocation generates from its whole input: the
/// transaction batch first, then the checkpoint, both drawing from the
/// same byte cursor starting at the front.
pub open spec fn spec_generate_pair(bytes: Seq<u8>) -> Option<
    (TransactionListView, CheckpointView),
> {
    match spec_gen_transaction_list(bytes, 0) {
        None => None,
        Some(t) => match spec_gen_checkpoint(bytes, t.1) {
            None => None,
            Some(c) => Some((t.0, c.0)),
        },
    }
}

/// Build `n` signatures from the cursor, exactly as [`spec_gen_signatures`]
/// says.
#[verifier::loop_isolation(false)]
pub fn generate_signatures(cursor: &mut ByteCursor, n: u8) -> (r: Result<
    Vec<Signature>,
    GenerationFailure,
>)
    requires
        old(cursor).wf(),
    ensures
        final(cursor).wf(),
        final(cursor).bytes() == old(cursor).bytes(),
        (match spec_gen_signatures(old(cursor).bytes(), old(cursor).pos(), n as nat) {
            Some(p) => r matches Ok(v) && v@ == p.0 && final(cursor).pos() == p.1,
            None => r is Err,
        }),
{
    let ghost bytes = cursor.bytes();
    let ghost pos0 = cursor.pos();
    let mut acc: Vec<Signature> = Vec::new();
    let mut i: u8 = 0;
    proof {
        assert(acc@ =~= Seq::<Signature>::empty());
    }
    while i < n
        invariant
            i <= n,
            cursor.wf(),
            cursor.bytes() == bytes,
            spec_gen_signatures(bytes, pos0, i as nat) == Some((acc@, cursor.pos())),
        decreases n - i,
    {
        let delta = match cursor.take_u8() {
            Some(b) => b,
            None => {
                proof {
                    lemma_gen_signatures_none(bytes, pos0, (i + 1) as nat, n as nat);
                }
                return Err(GenerationFailure);
            },
        };
        let value = match cursor.take_u8() {
            Some(b) => b,
            None => {
                proof {
                    lemma_gen_signatures_none(bytes, pos0, (i + 1) as nat, n as nat);
                }
                return Err(GenerationFailure);
            },
        };
        let signer: u64 = if acc.len() == 0 {
            delta as u64
        } else {
            let p = acc[acc.len() - 1].signer;
            if p <= u64::MAX - 1 - (delta as u64) {
                p + 1 + delta as u64
            } else {
                proof {
                    lemma_gen_signatures_none(bytes, pos0, (i + 1) as nat, n as nat);
                }
                return Err(GenerationFailure);
            }
        };
        acc.push(Signature { signer, value: value as u64 });
        i = i + 1;
    }
    Ok(acc)
}

/// Build the signed ledger metadata from the cursor, exactly as
/// [`spec_gen_ledger_info`] says.
pub fn generate_ledger_info(cursor: &mut ByteCursor) -> (r: Result<LedgerInfo, GenerationFailure>)
    requires
        old(cursor).wf(),
    ensures
        final(cursor).wf(),
        final(cursor).bytes() == old(cursor).bytes(),
        (match spec_gen_ledger_info(old(cursor).bytes(), old(cursor).pos()) {
            Some(p) => r matches Ok(li) && li == p.0 && final(cursor).pos() == p.1,
            None => r is Err,
        }),
{
    let epoch = match cursor.take_u64() {
        Some(v) => v,
        None => {
            return Err(GenerationFailure);
        },
    };
    let round = match cursor.take_u64() {
        Some(v) => v,
        None => {
            return Err(GenerationFailure);
        },
    };
    let version = match cursor.take_u64() {
        Some(v) => v,
        None => {
            return Err(GenerationFailure);
        },
    };
    let timestamp_usecs = match cursor.take_u64() {
        Some(v) => v,
        None => {
            return Err(GenerationFailure);
        },
    };
    let transaction_accumulator_hash = match cursor.take_u64() {
        Some(v) => v,
        None => {
            return Err(GenerationFailure);
        },
    };
    let consensus_data_hash = match cursor.take_u64() {
        Some(v) => v,
        None => {
            return Err(GenerationFailure);
        },
    };
    Ok(
        LedgerInfo {
            epoch,
            round,
            version,
            timestamp_usecs,
            transaction_accumulator_hash,
            consensus_data_hash,
        },
    )
}

/// Build the ledger checkpoint from the cursor, exactly as
/// [`spec_gen_checkpoint`] says; what comes out always satisfies the
/// checkpoint invariant.
pub fn generate_checkpoint(cursor: &mut ByteCursor) -> (r: Result<
    LedgerInfoWithSignatures,
    GenerationFailure,
>)
    requires
        old(cursor).wf(),
    ensures
        final(cursor).wf(),
        final(cursor).bytes() == old(cursor).bytes(),
        (match spec_gen_checkpoint(old(cursor).bytes(), old(cursor).pos()) {
            Some(p) => r matches Ok(v) && v@ == p.0 && v.well_formed() && final(cursor).pos()
                == p.1,
            None => r is Err,
        }),
{
    let ghost bytes = cursor.bytes();
    let ghost pos0 = cursor.pos();
    let ledger_info = match generate_ledger_info(cursor) {
        Ok(li) => li,
        Err(e) => {
            return Err(e);
        },
    };
    let count_byte = match cursor.take_u8() {
        Some(b) => b,
        None => {
            return Err(GenerationFailure);
        },
    };
    let n = 1 + count_byte % MAX_EXTRA_SIGNATURES;
    let signatures = match generate_signatures(cursor, n) {
        Ok(sigs) => sigs,
        Err(e) => {
            return Err(e);
        },
    };
    proof {
        lemma_gen_checkpoint_well_formed(bytes, pos0);
    }
    Ok(LedgerInfoWithSignatures { ledger_info, signatures })
}

} // verus!
