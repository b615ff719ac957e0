use vstd::prelude::*;
use crate::address::{system_program_address, Address};
use crate::processor::CreateAccountCall;

verus! {

/// The largest data size, in bytes, that the host lets an account have.
pub const MAX_PERMITTED_DATA_LENGTH: u64 = 10485760;

/// The part of an account's on-ledger state that creating an account reads
/// and writes.
#[derive(Clone, Copy, Debug)]
pub struct AccountState {
    pub lamports: u64,
    pub data_len: u64,
    pub owner: Address,
}

/// Why the host rejects a creation call; each leaves every account as it was.
#[derive(Clone, Copy, Debug, PartialEq, Eq, Structural)]
pub enum LedgerError {
    /// The target already holds lamports or data, or belongs to a program.
    AccountAlreadyInUse,
    /// The requested space is over the host's ceiling.
    InvalidAccountDataLength,
    /// The payer holds fewer lamports than the transfer.
    InsufficientFunds,
}

impl AccountState {
    /// The state as plain values: lamports, data length, owner's address.
    pub open spec fn view(&self) -> (u64, u64, Seq<u8>) {
        (self.lamports, self.data_len, self.owner@)
    }
}

/// Whether an account is already in use: funded, holding data, or owned by a
/// program other than the system program.
pub open spec fn in_use(a: (u64, u64, Seq<u8>)) -> bool {
    a.0 > 0 || a.1 > 0 || a.2 != system_program_address()
}

/// The payer and target after the host runs "create account" moving
/// `lamports`, sizing the target to `space` and giving it to `owner`, or the
/// error that rejects it.
pub open spec fn create_effect(
    lamports: u64,
    space: u64,
    owner: Seq<u8>,
    payer: (u64, u64, Seq<u8>),
    target: (u64, u64, Seq<u8>),
) -> Result<((u64, u64, Seq<u8>), (u64, u64, Seq<u8>)), LedgerError> {
    if in_use(target) {
        Err(LedgerError::AccountAlreadyInUse)
    } else if space > MAX_PERMITTED_DATA_LENGTH {
        Err(LedgerError::InvalidAccountDataLength)
    } else if payer.0 < lamports {
        Err(LedgerError::InsufficientFunds)
    } else {
        Ok((((payer.0 - lamports) as u64, payer.1, payer.2), (lamports, space, owner)))
    }
}

/// What the host does with `call` to the payer and the target: either both
/// change as `create_effect` says, or neither changes and the error is
/// returned.
pub fn apply_create_account(
    call: &CreateAccountCall,
    payer: &mut AccountState,
    target: &mut AccountState,
) -> (r: Result<(), LedgerError>)
    ensures
        match create_effect(call.lamports, call.space, call.owner@, old(payer)@, old(target)@) {
            Ok((p, t)) => r is Ok && final(payer)@ == p && final(target)@ == t,
            Err(e) => {
                &&& r == Err::<(), LedgerError>(e)
                &&& final(payer)@ == old(payer)@
                &&& final(target)@ == old(target)@
            },
        },
{
    let system = Address::system_program();
    if target.lamports > 0 || target.data_len > 0 || !target.owner.same_as(&system) {
        return Err(LedgerError::AccountAlreadyInUse);
    }
    if call.space > MAX_PERMITTED_DATA_LENGTH {
        return Err(LedgerError::InvalidAccountDataLength);
    }
    if payer.lamports < call.lamports {
        return Err(LedgerError::InsufficientFunds);
    }
    payer.lamports = payer.lamports - call.lamports;
    target.lamports = call.lamports;
    target.data_len = call.space;
    target.owner = call.owner;
    Ok(())
}

/// Once a creation has succeeded, any later creation of the same target is
/// rejected as already in use, whoever pays and whatever it asks; a rejected
/// call changes nothing, so the first one's effects stay. This needs the
/// first call to leave a mark: lamports, data, or an owner other than the
/// system program.
pub proof fn lemma_second_creation_rejected(
    lamports: u64,
    space: u64,
    owner: Seq<u8>,
    payer: (u64, u64, Seq<u8>),
    target: (u64, u64, Seq<u8>),
    lamports2: u64,
    space2: u64,
    owner2: Seq<u8>,
    payer2: (u64, u64, Seq<u8>),
)
    requires
        create_effect(lamports, space, owner, payer, target) is Ok,
        lamports > 0 || space > 0 || owner != system_program_address(),
    ensures
        create_effect(
            lamports2,
            space2,
            owner2,
            payer2,
            create_effect(lamports, space, owner, payer, target)->Ok_0.1,
        ) == Err::<((u64, u64, Seq<u8>), (u64, u64, Seq<u8>)), LedgerError>(
            LedgerError::AccountAlreadyInUse,
        ),
{
}

/// A payer holding less than the amount to move makes the creation fail.
pub proof fn lemma_insufficient_funds_rejected(
    lamports: u64,
    space: u64,
    owner: Seq<u8>,
    payer: (u64, u64, Seq<u8>),
    target: (u64, u64, Seq<u8>),
)
    requires
        payer.0 < lamports,
    ensures
        create_effect(lamports, space, owner, payer, target) is Err,
{
}

} // verus!
