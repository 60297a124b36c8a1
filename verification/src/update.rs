use vstd::prelude::*;

use crate::accounts::{ConfigPayload, SetConfig};
use crate::error::SetConfigError;
use crate::transfer::build_transfer;
use solana_program::instruction::Instruction;

verus! {

/// The caller is authorized iff the signer equals the authority the record
/// stored before the call — never the incoming one, so an unauthorized
/// caller cannot smuggle a matching authority in with the new payload.
pub open spec fn authorized(pre: SetConfig) -> bool {
    pre.current_owner@ == pre.config.authority@
}

/// The host resizes the record's storage only when the lengths differ, and
/// refuses a resize past its size ceiling. A payload that keeps the stored
/// length never triggers a resize, so it can never be refused one.
pub open spec fn resize_refused(old_len: nat, new_len: nat, max_data_len: usize) -> bool {
    new_len != old_len && new_len > max_data_len
}

/// The top-up owed for the new size: the shortfall of the record's balance
/// against the required minimum, and zero when the balance already
/// suffices — a surplus is never refunded.
pub open spec fn deficit(balance: u64, required_balance: u64) -> int {
    if balance < required_balance {
        required_balance - balance
    } else {
        0
    }
}

/// A call commits iff the signer is authorized, the host accepts the new
/// storage length, and the payer can cover whatever top-up that length
/// requires.
pub open spec fn accepted(
    pre: SetConfig,
    data: ConfigPayload,
    max_data_len: usize,
    required_balance: u64,
) -> bool {
    &&& authorized(pre)
    &&& !resize_refused(pre.config.data@.len(), data.bytes@.len(), max_data_len)
    &&& deficit(pre.config.balance, required_balance) <= pre.payer.balance
}

/// Alters the stored configuration record.
///
/// The accounts in `accs` are the call's model of the ledger: the record,
/// the signer, and the payer. `data` is the new payload, already in its
/// serialized form; `max_data_len` is the host's ceiling on the record's
/// storage size; `required_balance` is the host fee schedule's minimum
/// balance for the new size.
///
/// On success the record holds exactly the new payload bytes and the
/// authority they carry, and its balance meets the required minimum; when
/// the balance fell short, the shortfall moves from the payer to the record
/// and the returned instruction directs the host to perform that same
/// transfer. On any failure the accounts are returned exactly as they were,
/// mirroring the host's whole-transaction rollback. The balance arithmetic
/// compares before it subtracts, so no step can overflow or wrap.
pub fn set_config(
    accs: &mut SetConfig,
    data: ConfigPayload,
    max_data_len: usize,
    required_balance: u64,
) -> (r: Result<Option<Instruction>, SetConfigError>)
    requires
        old(accs).wf(),
        data.wf(),
    ensures
        final(accs).wf(),
        // success exactly when the guard, the resizer and the funding allow it
        r is Ok <==> accepted(*old(accs), data, max_data_len, required_balance),
        // an unauthorized signer is reported, and nothing is touched
        !authorized(*old(accs)) ==> (r matches Err(SetConfigError::Unauthorized(s))
            && s@ == old(accs).current_owner@),
        // a refused resize aborts before any balance is touched
        authorized(*old(accs)) && resize_refused(
            old(accs).config.data@.len(),
            data.bytes@.len(),
            max_data_len,
        ) ==> r matches Err(SetConfigError::StorageResizeFailure),
        // a payer that cannot cover the top-up aborts the whole call
        authorized(*old(accs)) && !resize_refused(
            old(accs).config.data@.len(),
            data.bytes@.len(),
            max_data_len,
        ) && r is Err ==> r matches Err(SetConfigError::InsufficientPayerFunds),
        // every failure leaves the accounts byte-identical
        r is Err ==> *final(accs) == *old(accs),
        // the record commits exactly the supplied payload and its authority
        r is Ok ==> final(accs).config.data@ == data.bytes@
            && final(accs).config.authority@ == data.authority@,
        // the record's balance meets the required minimum afterwards
        r is Ok ==> final(accs).config.balance >= required_balance,
        // a balance that already suffices moves no funds and issues no
        // transfer; in particular a shrink never refunds the surplus
        r is Ok && old(accs).config.balance >= required_balance ==> (r matches Ok(None)
            && final(accs).config.balance == old(accs).config.balance
            && final(accs).payer.balance == old(accs).payer.balance),
        // a shortfall moves exactly the deficit, and exactly once
        r is Ok && old(accs).config.balance < required_balance ==> (r matches Ok(Some(_))
            && final(accs).config.balance == required_balance
            && final(accs).payer.balance == old(accs).payer.balance
                - (required_balance - old(accs).config.balance)),
        // addresses and the signer identity never change
        final(accs).config.key@ == old(accs).config.key@,
        final(accs).payer.key@ == old(accs).payer.key@,
        final(accs).current_owner@ == old(accs).current_owner@,
{
    // the guard compares against the authority stored before the call
    if !accs.current_owner.eq_id(&accs.config.authority) {
        return Err(SetConfigError::Unauthorized(accs.current_owner.duplicate()));
    }

    let old_size = accs.config.data.len();
    let new_size = data.bytes.len();

    // the host resizes only when the lengths differ, and refuses growth past
    // its ceiling; failing here keeps every balance untouched
    if new_size != old_size && new_size > max_data_len {
        return Err(SetConfigError::StorageResizeFailure);
    }

    // compare before subtracting: the owed top-up is computed only in the
    // direction already known to be nonnegative
    let have = accs.config.balance;
    let owed: u64 = if have < required_balance {
        required_balance - have
    } else {
        0
    };
    if owed > accs.payer.balance {
        return Err(SetConfigError::InsufficientPayerFunds);
    }

    // commit the new payload; the record's length is exactly the payload's
    let ConfigPayload { bytes, authority } = data;
    accs.config.data = bytes;
    accs.config.authority = authority;

    if owed > 0 {
        // settle the shortfall: debit the payer, credit the record, and hand
        // the host the matching transfer sub-instruction
        accs.payer.balance = accs.payer.balance - owed;
        accs.config.balance = accs.config.balance + owed;
        let ix = build_transfer(&accs.payer.key, &accs.config.key, owed);
        Ok(Some(ix))
    } else {
        Ok(None)
    }
}

} // verus!
