//! A minimal deterministic ledger state machine: pallets that own slices of
//! state, composed into a runtime that executes blocks of extrinsics.
pub mod balances;
pub mod proof_of_existence;
pub mod runtime;
pub mod storage;
pub mod support;
pub mod system;
pub mod types;
