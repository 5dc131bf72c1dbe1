//! A deterministic fuzz-testing harness for a blockchain chunk executor.
//!
//! The harness turns an arbitrary byte sequence into structurally valid
//! domain values (a transaction batch with an inclusion proof and a ledger
//! checkpoint with signatures), feeds them to an executor under test, and
//! isolates that executor from real storage and real transaction semantics
//! through minimal stand-in implementations.

pub mod cursor;
pub mod harness;
pub mod gen;
pub mod ledger;
pub mod storage;
pub mod vm;
