use pda_account::address::Address;
use pda_account::authority::authorize;
use pda_account::ledger::{apply_create_account, AccountState, LedgerError};
use pda_account::processor::{
    parse_params, process_instruction, AccountInput, CreateAccountCall, CreateError,
};
use pda_account::rent::{decode_rent_data, rent_from_sysvar, RentParams};
use solana_program::pubkey::Pubkey;

const DEFAULT_RATE: u64 = 3480;
const TWO_YEARS_BITS: u64 = 0x4000_0000_0000_0000;
const MIN_FOR_ZERO_BYTES: u64 = 890_880;
const TEN_SOL: u64 = 10_000_000_000;

fn rent_bytes(rate: u64, threshold_bits: u64, burn: u8) -> Vec<u8> {
    let mut d = rate.to_le_bytes().to_vec();
    d.extend_from_slice(&threshold_bits.to_le_bytes());
    d.push(burn);
    d
}

fn default_rent() -> RentParams {
    RentParams {
        lamports_per_byte_year: DEFAULT_RATE,
        exemption_threshold_bits: TWO_YEARS_BITS,
        burn_percent: 50,
    }
}

fn addr(k: &Pubkey) -> Address {
    Address::new(k.to_bytes())
}

struct Setup {
    program: Pubkey,
    payer: Pubkey,
    pda: Pubkey,
    bump: u8,
}

fn setup() -> Setup {
    let program = Pubkey::new_from_array([7u8; 32]);
    let payer = Pubkey::new_from_array([42u8; 32]);
    let (pda, bump) = Pubkey::find_program_address(&[payer.as_ref()], &program);
    Setup { program, payer, pda, bump }
}

fn accounts(s: &Setup, rate: u64) -> Vec<AccountInput> {
    vec![
        AccountInput { key: addr(&s.payer), data: vec![] },
        AccountInput { key: addr(&s.pda), data: vec![] },
        AccountInput {
            key: addr(&solana_program::sysvar::rent::id()),
            data: rent_bytes(rate, TWO_YEARS_BITS, 50),
        },
    ]
}

fn plan(s: &Setup, space: u8) -> CreateAccountCall {
    process_instruction(&addr(&s.program), &accounts(s, DEFAULT_RATE), &vec![space, s.bump])
        .unwrap()
}

fn empty_account() -> AccountState {
    AccountState { lamports: 0, data_len: 0, owner: Address::system_program() }
}

#[test]
fn params_take_first_two_bytes() {
    let p = parse_params(&vec![5, 254, 9, 9]).unwrap();
    assert_eq!(p.space, 5);
    assert_eq!(p.bump, 254);
}

#[test]
fn params_need_two_bytes() {
    assert_eq!(parse_params(&vec![5]), Err(CreateError::InvalidInstructionData));
    assert_eq!(parse_params(&vec![]), Err(CreateError::InvalidInstructionData));
}

#[test]
fn rent_data_decodes_little_endian() {
    let r = decode_rent_data(&rent_bytes(DEFAULT_RATE, TWO_YEARS_BITS, 50)).unwrap();
    assert_eq!(r.lamports_per_byte_year, 3480);
    assert_eq!(r.exemption_threshold_bits, 0x4000_0000_0000_0000);
    assert_eq!(r.burn_percent, 50);
}

#[test]
fn rent_data_too_short() {
    let mut d = rent_bytes(DEFAULT_RATE, TWO_YEARS_BITS, 50);
    d.pop();
    assert!(decode_rent_data(&d).is_none());
}

#[test]
fn rent_sysvar_address_is_checked() {
    let d = rent_bytes(DEFAULT_RATE, TWO_YEARS_BITS, 50);
    assert!(rent_from_sysvar(&addr(&solana_program::sysvar::rent::id()), &d).is_some());
    assert!(rent_from_sysvar(&Address::new([3u8; 32]), &d).is_none());
}

#[test]
fn rent_minimum_for_zero_bytes() {
    assert_eq!(default_rent().minimum_balance(0), Some(MIN_FOR_ZERO_BYTES));
}

#[test]
fn rent_minimum_for_largest_byte_space() {
    assert_eq!(default_rent().minimum_balance(255), Some(383 * 3480 * 2));
}

#[test]
fn rent_minimum_with_fractional_threshold() {
    let r = RentParams {
        lamports_per_byte_year: 1000,
        exemption_threshold_bits: 2.5f64.to_bits(),
        burn_percent: 0,
    };
    assert_eq!(r.minimum_balance(72), Some(500_000));
}

#[test]
fn rent_minimum_overflow_is_refused() {
    let r = RentParams { lamports_per_byte_year: u64::MAX, ..default_rent() };
    assert_eq!(r.minimum_balance(0), None);
}

#[test]
fn plan_creates_target_with_rent_minimum() {
    let s = setup();
    let call = plan(&s, 0);
    assert_eq!(call.lamports, MIN_FOR_ZERO_BYTES);
    assert_eq!(call.space, 0);
    assert_eq!(call.payer.bytes, s.payer.to_bytes());
    assert_eq!(call.target.bytes, s.pda.to_bytes());
    assert_eq!(call.owner.bytes, s.program.to_bytes());
    assert_eq!(call.authority.bump, s.bump);
    let seeds = call.authority.seeds();
    assert_eq!(seeds, vec![s.payer.to_bytes().to_vec(), vec![s.bump]]);
}

#[test]
fn plan_instruction_goes_to_system_program() {
    let s = setup();
    let call = plan(&s, 255);
    let ix = &call.instruction;
    assert_eq!(ix.program_id.bytes, [0u8; 32]);
    assert_eq!(ix.accounts.len(), 2);
    assert_eq!(ix.accounts[0].key.bytes, s.payer.to_bytes());
    assert!(ix.accounts[0].is_signer && ix.accounts[0].is_writable);
    assert_eq!(ix.accounts[1].key.bytes, s.pda.to_bytes());
    assert!(ix.accounts[1].is_signer && ix.accounts[1].is_writable);
    let mut data = vec![0u8, 0, 0, 0];
    data.extend_from_slice(&(383u64 * 3480 * 2).to_le_bytes());
    data.extend_from_slice(&255u64.to_le_bytes());
    data.extend_from_slice(&s.program.to_bytes());
    assert_eq!(ix.data, data);
}

#[test]
fn plan_needs_three_accounts() {
    let s = setup();
    let mut a = accounts(&s, DEFAULT_RATE);
    a.pop();
    let r = process_instruction(&addr(&s.program), &a, &vec![0, s.bump]);
    assert_eq!(r.err(), Some(CreateError::NotEnoughAccountKeys));
}

#[test]
fn plan_rejects_wrong_sysvar() {
    let s = setup();
    let mut a = accounts(&s, DEFAULT_RATE);
    a[2].key = Address::new([9u8; 32]);
    let r = process_instruction(&addr(&s.program), &a, &vec![0, s.bump]);
    assert_eq!(r.err(), Some(CreateError::InvalidSysvar));
    let mut a = accounts(&s, DEFAULT_RATE);
    a[2].data.truncate(10);
    let r = process_instruction(&addr(&s.program), &a, &vec![0, s.bump]);
    assert_eq!(r.err(), Some(CreateError::InvalidSysvar));
}

#[test]
fn plan_rejects_short_arguments() {
    let s = setup();
    let r = process_instruction(&addr(&s.program), &accounts(&s, DEFAULT_RATE), &vec![0]);
    assert_eq!(r.err(), Some(CreateError::InvalidInstructionData));
}

#[test]
fn plan_rejects_overflowing_rent() {
    let s = setup();
    let r = process_instruction(&addr(&s.program), &accounts(&s, u64::MAX), &vec![0, s.bump]);
    assert_eq!(r.err(), Some(CreateError::ArithmeticOverflow));
}

#[test]
fn plan_rejects_mismatched_bump() {
    let s = setup();
    let wrong = s.bump.wrapping_sub(1);
    let r = process_instruction(&addr(&s.program), &accounts(&s, DEFAULT_RATE), &vec![0, wrong]);
    assert_eq!(r.err(), Some(CreateError::InvalidSeeds));
}

#[test]
fn derivation_is_deterministic() {
    let s = setup();
    let (p, a, t) = (addr(&s.program), addr(&s.payer), addr(&s.pda));
    let first = authorize(&p, &a, s.bump, &t).unwrap();
    let second = authorize(&p, &a, s.bump, &t).unwrap();
    assert_eq!(first.seed.bytes, second.seed.bytes);
    assert_eq!(first.bump, second.bump);
    assert!(authorize(&p, &a, s.bump, &Address::new([1u8; 32])).is_none());
    assert!(authorize(&p, &addr(&Pubkey::new_from_array([43u8; 32])), s.bump, &t).is_none());
}

#[test]
fn ten_sol_payer_creates_zero_byte_account() {
    let s = setup();
    let call = plan(&s, 0);
    let mut payer = AccountState { lamports: TEN_SOL, ..empty_account() };
    let mut target = empty_account();
    assert_eq!(apply_create_account(&call, &mut payer, &mut target), Ok(()));
    assert_eq!(target.lamports, MIN_FOR_ZERO_BYTES);
    assert_eq!(target.data_len, 0);
    assert_eq!(target.owner.bytes, s.program.to_bytes());
    assert_eq!(payer.lamports, TEN_SOL - MIN_FOR_ZERO_BYTES);
}

#[test]
fn second_creation_is_rejected() {
    let s = setup();
    let call = plan(&s, 16);
    let mut payer = AccountState { lamports: TEN_SOL, ..empty_account() };
    let mut target = empty_account();
    assert_eq!(apply_create_account(&call, &mut payer, &mut target), Ok(()));
    let (paid, held) = (payer.lamports, target.lamports);
    let again = apply_create_account(&call, &mut payer, &mut target);
    assert_eq!(again, Err(LedgerError::AccountAlreadyInUse));
    assert_eq!(payer.lamports, paid);
    assert_eq!(target.lamports, held);
    assert_eq!(target.data_len, 16);
    assert_eq!(target.owner.bytes, s.program.to_bytes());
}

#[test]
fn insufficient_funds_change_nothing() {
    let s = setup();
    let call = plan(&s, 0);
    let mut payer = AccountState { lamports: MIN_FOR_ZERO_BYTES - 1, ..empty_account() };
    let mut target = empty_account();
    let r = apply_create_account(&call, &mut payer, &mut target);
    assert_eq!(r, Err(LedgerError::InsufficientFunds));
    assert_eq!(payer.lamports, MIN_FOR_ZERO_BYTES - 1);
    assert_eq!(target.lamports, 0);
    assert_eq!(target.data_len, 0);
    assert_eq!(target.owner.bytes, [0u8; 32]);
}

#[test]
fn oversized_space_is_rejected() {
    let s = setup();
    let mut call = plan(&s, 0);
    call.space = 10 * 1024 * 1024 + 1;
    let mut payer = AccountState { lamports: TEN_SOL, ..empty_account() };
    let mut target = empty_account();
    let r = apply_create_account(&call, &mut payer, &mut target);
    assert_eq!(r, Err(LedgerError::InvalidAccountDataLength));
    assert_eq!(payer.lamports, TEN_SOL);
}
