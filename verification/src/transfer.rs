use vstd::prelude::*;

use crate::identity::AccountId;

verus! {

/// The host's sub-instruction type. The library only builds and hands such a
/// value on; what it holds stays opaque here.
#[verifier::external_type_specification]
#[verifier::external_body]
pub struct ExInstruction(solana_program::instruction::Instruction);

/// Relies on `solana_program::system_instruction::transfer`: the returned
/// instruction directs the host's system program to move exactly `amount`
/// fee-token units from the account at `from` to the account at `to`.
#[verifier::external_body]
pub(crate) fn build_transfer(
    from: &AccountId,
    to: &AccountId,
    amount: u64,
) -> solana_program::instruction::Instruction
    requires
        from.wf(),
        to.wf(),
{
    let from_key = solana_program::pubkey::Pubkey::try_from(from.bytes.as_slice()).unwrap();
    let to_key = solana_program::pubkey::Pubkey::try_from(to.bytes.as_slice()).unwrap();
    solana_program::system_instruction::transfer(&from_key, &to_key, amount)
}

} // verus!
