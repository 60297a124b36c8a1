use vstd::prelude::*;

use crate::identity::AccountId;

verus! {

/// Why a mutation call was refused. Every failure is fatal to the call and
/// leaves the accounts exactly as they were.
#[derive(Debug, PartialEq, Eq)]
pub enum SetConfigError {
    /// The signer does not match the record's stored authority; carries the
    /// offending signer identity.
    Unauthorized(AccountId),
    /// The host refuses to resize the record's storage to the new length.
    StorageResizeFailure,
    /// The payer cannot cover the top-up the new size requires.
    InsufficientPayerFunds,
}

} // verus!
