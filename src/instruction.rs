use vstd::prelude::*;
use crate::address::Address;
use solana_program::pubkey::Pubkey;

verus! {

/// One account that an instruction names, with the roles it asks of it.
#[derive(Clone, Copy, Debug)]
pub struct AccountMeta {
    pub key: Address,
    pub is_signer: bool,
    pub is_writable: bool,
}

/// An instruction to a program on the ledger: the program, the accounts it
/// reads and writes, and its encoded arguments.
#[derive(Clone, Debug)]
pub struct Instruction {
    pub program_id: Address,
    pub accounts: Vec<AccountMeta>,
    pub data: Vec<u8>,
}

/// The `n` little-endian bytes of `v`, its high part cut off.
pub open spec fn le_bytes(v: nat, n: nat) -> Seq<u8>
    decreases n,
{
    if n == 0 {
        Seq::empty()
    } else {
        seq![(v % 256) as u8] + le_bytes(v / 256, (n - 1) as nat)
    }
}

/// The system program's encoding of "create account": the variant index 0
/// as four bytes, the lamports and the space as eight bytes each, then the
/// owner's address, all little-endian.
pub open spec fn create_account_data(lamports: u64, space: u64, owner: Seq<u8>) -> Seq<u8> {
    le_bytes(0, 4) + le_bytes(lamports as nat, 8) + le_bytes(space as nat, 8) + owner
}

/// Whether `m` names `key` as a writable signer.
pub open spec fn is_writable_signer(m: AccountMeta, key: Seq<u8>) -> bool {
    m.key@ == key && m.is_signer && m.is_writable
}

/// Relies on `system_instruction::create_account`: an instruction to the
/// system program (the zero address) with `from` and `to` as writable
/// signers and the bincode encoding of `CreateAccount { lamports, space,
/// owner }` as data.
#[verifier::external_body]
#[allow(deprecated)]
pub(crate) fn create_account(
    from: &Address,
    to: &Address,
    lamports: u64,
    space: u64,
    owner: &Address,
) -> (r: Instruction)
    ensures
        r.program_id@ == crate::address::system_program_address(),
        r.accounts@.len() == 2,
        is_writable_signer(r.accounts@[0], from@),
        is_writable_signer(r.accounts@[1], to@),
        r.data@ == create_account_data(lamports, space, owner@),
{
    let key = |a: &Address| Pubkey::new_from_array(a.bytes);
    let ix = solana_program::system_instruction::create_account(
        &key(from), &key(to), lamports, space, &key(owner),
    );
    let accounts = ix.accounts.iter().map(|m| AccountMeta {
        key: Address { bytes: m.pubkey.to_bytes() },
        is_signer: m.is_signer,
        is_writable: m.is_writable,
    }).collect();
    Instruction { program_id: Address { bytes: ix.program_id.to_bytes() }, accounts, data: ix.data }
}

} // verus!
