use vstd::prelude::*;
use crate::address::Address;
use crate::authority::{authorize, authorizes, SigningAuthority};
use crate::instruction::{create_account, create_account_data, is_writable_signer, Instruction};
use crate::rent::{minimum_balance_of, rent_fits, rent_from_sysvar, rent_of_data, rent_sysvar_address, RentParams};

verus! {

/// An account as the host hands it to the program: its address and data.
#[derive(Clone, Debug)]
pub struct AccountInput {
    pub key: Address,
    pub data: Vec<u8>,
}

/// The two one-byte arguments of the instruction.
#[derive(Clone, Copy, Debug, PartialEq, Eq, Structural)]
pub struct CreationParams {
    /// Size of the new account's data, in bytes.
    pub space: u8,
    /// The nonce that, with the payer's address, derives the target.
    pub bump: u8,
}

/// Why an invocation is refused before any call is made.
#[derive(Clone, Copy, Debug, PartialEq, Eq, Structural)]
pub enum CreateError {
    /// Fewer than three accounts were supplied.
    NotEnoughAccountKeys,
    /// The third account is not the rent sysvar, or its data is malformed.
    InvalidSysvar,
    /// The argument bytes are fewer than two.
    InvalidInstructionData,
    /// The rent formula overflows for these parameters.
    ArithmeticOverflow,
    /// The payer's address and the bump do not derive the target's address.
    InvalidSeeds,
}

/// The one privileged call that creates the target: the instruction to the
/// system program, the signing authority presented with it, and the values
/// it carries.
#[derive(Clone, Debug)]
pub struct CreateAccountCall {
    pub instruction: Instruction,
    pub authority: SigningAuthority,
    pub payer: Address,
    pub target: Address,
    pub lamports: u64,
    pub space: u64,
    pub owner: Address,
}

/// The parameters that the argument bytes `d` hold: byte 0 is the space,
/// byte 1 the bump; more bytes are ignored.
pub open spec fn params_of(d: Seq<u8>) -> Option<CreationParams> {
    if d.len() < 2 {
        None
    } else {
        Some(CreationParams { space: d[0], bump: d[1] })
    }
}

/// Reads the space and bump bytes.
pub fn parse_params(data: &Vec<u8>) -> (r: Result<CreationParams, CreateError>)
    ensures
        r == (match params_of(data@) {
            Some(p) => Ok(p),
            None => Err(CreateError::InvalidInstructionData),
        }),
{
    if data.len() < 2 {
        Err(CreateError::InvalidInstructionData)
    } else {
        Ok(CreationParams { space: data[0], bump: data[1] })
    }
}

/// The rent parameters read from the third account, if there is one.
pub open spec fn sysvar_rent(accounts: Seq<AccountInput>) -> Option<RentParams> {
    if accounts[2].key@ == rent_sysvar_address() {
        rent_of_data(accounts[2].data@)
    } else {
        None
    }
}

/// The error that refuses an invocation, checked in this order, or `None`
/// where the creation call is issued.
pub open spec fn refusal(program_id: Seq<u8>, accounts: Seq<AccountInput>, data: Seq<u8>) -> Option<
    CreateError,
> {
    if accounts.len() < 3 {
        Some(CreateError::NotEnoughAccountKeys)
    } else if sysvar_rent(accounts) is None {
        Some(CreateError::InvalidSysvar)
    } else if params_of(data) is None {
        Some(CreateError::InvalidInstructionData)
    } else if !rent_fits(sysvar_rent(accounts).unwrap(), params_of(data).unwrap().space as nat) {
        Some(CreateError::ArithmeticOverflow)
    } else if !authorizes(
        program_id,
        accounts[0].key@,
        params_of(data).unwrap().bump,
        accounts[1].key@,
    ) {
        Some(CreateError::InvalidSeeds)
    } else {
        None
    }
}

impl CreateAccountCall {
    /// This call creates `target` for `program_id`, funded by `payer` with
    /// the rent-exempt minimum for `space` bytes under `rent`, and signed
    /// for with the seeds `(payer, bump)`.
    pub open spec fn creates(
        &self,
        program_id: Seq<u8>,
        payer: Seq<u8>,
        target: Seq<u8>,
        rent: RentParams,
        params: CreationParams,
    ) -> bool {
        &&& self.payer@ == payer
        &&& self.target@ == target
        &&& self.owner@ == program_id
        &&& self.space == params.space as u64
        &&& self.lamports == minimum_balance_of(rent, params.space as nat)
        &&& self.authority.program_id@ == program_id
        &&& self.authority.seed@ == payer
        &&& self.authority.bump == params.bump
        &&& self.instruction.program_id@ == crate::address::system_program_address()
        &&& self.instruction.accounts@.len() == 2
        &&& is_writable_signer(self.instruction.accounts@[0], payer)
        &&& is_writable_signer(self.instruction.accounts@[1], target)
        &&& self.instruction.data@ == create_account_data(self.lamports, self.space, program_id)
    }
}

/// Binds the accounts by position (payer, target, rent sysvar), reads the
/// space and bump, computes the rent-exempt minimum and checks that the
/// payer and bump derive the target; on success returns the call that
/// creates the target, owned by `program_id`.
pub fn process_instruction(
    program_id: &Address,
    accounts: &Vec<AccountInput>,
    instruction_data: &Vec<u8>,
) -> (r: Result<CreateAccountCall, CreateError>)
    ensures
        match r {
            Err(e) => refusal(program_id@, accounts@, instruction_data@) == Some(e),
            Ok(call) => {
                &&& refusal(program_id@, accounts@, instruction_data@) is None
                &&& call.creates(
                    program_id@,
                    accounts@[0].key@,
                    accounts@[1].key@,
                    sysvar_rent(accounts@).unwrap(),
                    params_of(instruction_data@).unwrap(),
                )
            },
        },
{
    if accounts.len() < 3 {
        return Err(CreateError::NotEnoughAccountKeys);
    }
    let payer = &accounts[0];
    let target = &accounts[1];
    let sysvar = &accounts[2];
    let rent = match rent_from_sysvar(&sysvar.key, &sysvar.data) {
        Some(rent) => rent,
        None => return Err(CreateError::InvalidSysvar),
    };
    let params = parse_params(instruction_data)?;
    let lamports = match rent.minimum_balance(params.space as usize) {
        Some(lamports) => lamports,
        None => return Err(CreateError::ArithmeticOverflow),
    };
    let authority = match authorize(program_id, &payer.key, params.bump, &target.key) {
        Some(authority) => authority,
        None => return Err(CreateError::InvalidSeeds),
    };
    let space = params.space as u64;
    let instruction = create_account(&payer.key, &target.key, lamports, space, program_id);
    Ok(
        CreateAccountCall {
            instruction,
            authority,
            payer: payer.key,
            target: target.key,
            lamports,
            space,
            owner: *program_id,
        },
    )
}

} // verus!
