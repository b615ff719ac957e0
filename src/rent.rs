use vstd::prelude::*;
use crate::address::Address;
use solana_program::pubkey::Pubkey;
use solana_program::rent::Rent;

verus! {

/// Bytes that the rent sysvar's data must hold at least: an 8-byte rate, an
/// 8-byte threshold and a 1-byte burn percentage.
pub const RENT_DATA_LEN: usize = 17;

/// Bytes added to every account's data length when its rent is computed.
pub const ACCOUNT_STORAGE_OVERHEAD: u64 = 128;

/// The host's rent parameters, as the rent sysvar lays them out.
/// The exemption threshold, a binary64 number of years, is kept as its bits.
#[derive(Clone, Copy, Debug)]
pub struct RentParams {
    pub lamports_per_byte_year: u64,
    pub exemption_threshold_bits: u64,
    pub burn_percent: u8,
}

/// The address of the rent sysvar account.
pub open spec fn rent_sysvar_address() -> Seq<u8> {
    seq![
        6u8, 167u8, 213u8, 23u8, 25u8, 44u8, 92u8, 81u8, 33u8, 140u8, 201u8, 76u8, 61u8, 74u8,
        241u8, 127u8, 88u8, 218u8, 238u8, 8u8, 155u8, 161u8, 253u8, 68u8, 227u8, 219u8, 217u8,
        138u8, 0u8, 0u8, 0u8, 0u8,
    ]
}

/// The unsigned little-endian number that the bytes `s` spell.
pub open spec fn le_value(s: Seq<u8>) -> nat
    decreases s.len(),
{
    if s.len() == 0 {
        0
    } else {
        s[0] as nat + 256 * le_value(s.drop_first())
    }
}

/// The rent parameters that sysvar data `d` encodes, when it is long enough.
pub open spec fn rent_of_data(d: Seq<u8>) -> Option<RentParams> {
    if d.len() < RENT_DATA_LEN {
        None
    } else {
        Some(
            RentParams {
                lamports_per_byte_year: le_value(d.subrange(0, 8)) as u64,
                exemption_threshold_bits: le_value(d.subrange(8, 16)) as u64,
                burn_percent: d[16],
            },
        )
    }
}

/// What `Rent::minimum_balance` returns for these parameters and data length.
pub uninterp spec fn rent_exempt_minimum(
    lamports_per_byte_year: u64,
    exemption_threshold_bits: u64,
    data_len: nat,
) -> u64;

/// The rent-exempt minimum of an account of `data_len` bytes under `rent`.
pub open spec fn minimum_balance_of(rent: RentParams, data_len: nat) -> u64 {
    rent_exempt_minimum(rent.lamports_per_byte_year, rent.exemption_threshold_bits, data_len)
}

/// Whether the rate times the padded data length fits in a `u64`, so that
/// the host's rent formula does not overflow.
pub open spec fn rent_fits(rent: RentParams, data_len: nat) -> bool {
    &&& ACCOUNT_STORAGE_OVERHEAD + data_len <= u64::MAX
    &&& (ACCOUNT_STORAGE_OVERHEAD + data_len) * rent.lamports_per_byte_year <= u64::MAX
}

/// 256 to the power `n`: one more than the largest value of `n` bytes.
pub open spec fn byte_span(n: nat) -> nat
    decreases n,
{
    if n == 0 {
        1
    } else {
        256 * byte_span((n - 1) as nat)
    }
}

proof fn lemma_byte_span_grows(m: nat, n: nat)
    requires
        m <= n,
    ensures
        byte_span(m) <= byte_span(n),
    decreases n,
{
    if m < n {
        lemma_byte_span_grows(m, (n - 1) as nat);
    }
}

proof fn lemma_le_value_bound(s: Seq<u8>)
    ensures
        le_value(s) < byte_span(s.len()),
    decreases s.len(),
{
    if s.len() > 0 {
        lemma_le_value_bound(s.drop_first());
        let r = le_value(s.drop_first());
        let p = byte_span((s.len() - 1) as nat);
        assert(s[0] as nat + 256 * r < 256 * p) by (nonlinear_arith)
            requires
                r < p,
                s[0] < 256,
        ;
    }
}

/// Reads the little-endian `u64` stored at `d[start..start + 8]`.
fn read_u64_le(d: &Vec<u8>, start: usize) -> (r: u64)
    requires
        start + 8 <= d@.len(),
    ensures
        r == le_value(d@.subrange(start as int, start + 8)),
{
    let ghost s = d@.subrange(start as int, start + 8);
    let n: usize = d.len();
    let mut acc: u64 = 0;
    let mut i: usize = 8;
    proof {
        assert(s.subrange(8, 8) =~= Seq::<u8>::empty());
        reveal_with_fuel(byte_span, 9);
    }
    while i > 0
        invariant
            i <= 8,
            start + 8 <= d@.len(),
            n == d@.len(),
            s == d@.subrange(start as int, start + 8),
            acc == le_value(s.subrange(i as int, 8)),
            byte_span(8) == 18446744073709551616,
        decreases i,
    {
        let ghost tail = s.subrange(i as int, 8);
        let ghost next = s.subrange(i - 1, 8);
        proof {
            assert(next.drop_first() =~= tail);
            assert(next[0] == d@[start + i - 1]);
            assert(le_value(next) == next[0] as nat + 256 * le_value(tail));
            lemma_le_value_bound(next);
            lemma_byte_span_grows(next.len(), 8);
        }
        acc = acc * 256 + d[start + i - 1] as u64;
        i = i - 1;
    }
    assert(s.subrange(0, 8) =~= s);
    acc
}

/// Decodes rent parameters from the rent sysvar's data; extra bytes are
/// ignored, too few give `None`.
pub fn decode_rent_data(d: &Vec<u8>) -> (r: Option<RentParams>)
    ensures
        r == rent_of_data(d@),
{
    if d.len() < RENT_DATA_LEN {
        return None;
    }
    let lamports_per_byte_year = read_u64_le(d, 0);
    let exemption_threshold_bits = read_u64_le(d, 8);
    Some(RentParams { lamports_per_byte_year, exemption_threshold_bits, burn_percent: d[16] })
}

/// Relies on `solana_program::sysvar::rent::check_id`: true exactly for the
/// rent sysvar's address.
#[verifier::external_body]
fn is_rent_sysvar(key: &Address) -> (r: bool)
    ensures
        r == (key@ == rent_sysvar_address()),
{
    solana_program::sysvar::rent::check_id(&Pubkey::new_from_array(key.bytes))
}

/// Reads the rent parameters out of an account that claims to be the rent
/// sysvar: `None` unless its address is the sysvar's and its data decodes.
pub fn rent_from_sysvar(key: &Address, data: &Vec<u8>) -> (r: Option<RentParams>)
    ensures
        r == (if key@ == rent_sysvar_address() {
            rent_of_data(data@)
        } else {
            None
        }),
{
    if !is_rent_sysvar(key) {
        return None;
    }
    decode_rent_data(data)
}

/// Relies on `Rent::minimum_balance`: the host's rent-exemption formula,
/// evaluated on these parameters; it overflows unless `rent_fits` holds.
/// The parameters reach `Rent` through `limited_deserialize`, which reads
/// the sysvar's 17-byte layout and, given all 17 bytes, does not fail.
#[verifier::external_body]
#[allow(deprecated)]
fn host_minimum_balance(rent: &RentParams, data_len: usize) -> (r: Option<u64>)
    requires
        rent_fits(*rent, data_len as nat),
    ensures
        r == Some(
            rent_exempt_minimum(
                rent.lamports_per_byte_year,
                rent.exemption_threshold_bits,
                data_len as nat,
            ),
        ),
{
    let mut data = rent.lamports_per_byte_year.to_le_bytes().to_vec();
    data.extend_from_slice(&rent.exemption_threshold_bits.to_le_bytes());
    data.push(rent.burn_percent);
    solana_program::program_utils::limited_deserialize::<Rent>(&data, 17)
        .ok()
        .map(|host| host.minimum_balance(data_len))
}

impl RentParams {
    /// The rent-exempt minimum for `data_len` bytes, or `None` where the
    /// rent formula would overflow.
    pub fn minimum_balance(&self, data_len: usize) -> (r: Option<u64>)
        ensures
            r == (if rent_fits(*self, data_len as nat) {
                Some(minimum_balance_of(*self, data_len as nat))
            } else {
                None
            }),
    {
        if data_len as u64 > u64::MAX - ACCOUNT_STORAGE_OVERHEAD {
            return None;
        }
        let padded: u64 = ACCOUNT_STORAGE_OVERHEAD + data_len as u64;
        match padded.checked_mul(self.lamports_per_byte_year) {
            None => None,
            Some(_) => host_minimum_balance(self, data_len),
        }
    }
}

/// Every space that one byte can request, 0 through 255, keeps the rent
/// formula inside `u64`, as long as the rate is at most `u64::MAX / 383`
/// lamports per byte-year (383 being the overhead plus 255 bytes).
pub proof fn lemma_byte_space_fits(rent: RentParams, space: u8)
    requires
        rent.lamports_per_byte_year <= u64::MAX / 383,
    ensures
        rent_fits(rent, space as nat),
{
    let rate = rent.lamports_per_byte_year as nat;
    let padded = ACCOUNT_STORAGE_OVERHEAD + space as nat;
    assert(padded * rate <= 383 * rate) by (nonlinear_arith)
        requires
            padded <= 383,
    ;
}

} // verus!
