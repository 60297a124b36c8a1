//! Authorized mutation of a persistent configuration record held in an
//! account-based ledger.
//!
//! The library models the accounts a mutation touches as plain values — the
//! record with its stored authority, payload bytes and fee-token balance, the
//! signer identity, and the payer funding any top-up — and verifies the whole
//! state transition: the signer must match the authority stored before the
//! call, the record's storage is resized to the exact serialized length of
//! the new payload, and the record's balance is topped up from the payer to
//! the minimum the host's fee schedule demands for the new size. A host
//! adapter performs the surrounding ledger I/O and hands the library plain
//! values.

pub mod accounts;
pub mod error;
pub mod identity;
pub mod transfer;
pub mod update;
