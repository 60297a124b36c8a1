use vstd::prelude::*;

use crate::identity::AccountId;

verus! {

/// The mutable configuration record, as the ledger holds it: an addressed
/// unit of storage plus the fee-token balance that keeps it retained.
pub struct ConfigAccount {
    /// Ledger address of the record.
    pub key: AccountId,
    /// Identity permitted to mutate the record: the authority field carried
    /// by the stored payload, as the external codec decodes it.
    pub authority: AccountId,
    /// The stored payload in its serialized form. The record's data length
    /// is exactly `data.len()`.
    pub data: Vec<u8>,
    /// Fee-token balance currently held by the record.
    pub balance: u64,
}

impl ConfigAccount {
    pub open spec fn wf(&self) -> bool {
        &&& self.key.wf()
        &&& self.authority.wf()
    }
}

/// The account that funds any balance top-up; its balance is only ever
/// touched through the one transfer the mutation may issue.
pub struct FundingAccount {
    /// Ledger address of the payer.
    pub key: AccountId,
    /// Fee-token balance currently held by the payer.
    pub balance: u64,
}

impl FundingAccount {
    pub open spec fn wf(&self) -> bool {
        self.key.wf()
    }
}

/// The new configuration value: its exact serialized bytes together with the
/// authority field it carries. Encoding and decoding belong to an external
/// codec, so the value reaches the library already serialized, paired with
/// the one field the mutation logic reads.
pub struct ConfigPayload {
    /// The payload's serialized form; the record's storage is resized to
    /// exactly this length.
    pub bytes: Vec<u8>,
    /// The authority field inside the payload, which becomes the record's
    /// controlling identity once the payload is committed.
    pub authority: AccountId,
}

impl ConfigPayload {
    pub open spec fn wf(&self) -> bool {
        self.authority.wf()
    }
}

/// The fixed positional account set one mutation call touches.
pub struct SetConfig {
    /// Current config record of the program.
    pub config: ConfigAccount,
    /// Identity that signed the call; must equal the authority stored in the
    /// record before the call.
    pub current_owner: AccountId,
    /// Payer account funding any balance top-up.
    pub payer: FundingAccount,
}

impl SetConfig {
    pub open spec fn wf(&self) -> bool {
        &&& self.config.wf()
        &&& self.current_owner.wf()
        &&& self.payer.wf()
    }
}

} // verus!
