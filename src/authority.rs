use vstd::prelude::*;
use crate::address::Address;
use solana_program::pubkey::Pubkey;

verus! {

/// What `Pubkey::create_program_address` returns for these seeds and program:
/// the derived address, or `None` where the hash lands on the curve.
pub uninterp spec fn program_address_of(seeds: Seq<Seq<u8>>, program_id: Seq<u8>) -> Option<
    Seq<u8>,
>;

/// Relies on `Pubkey::create_program_address`: a function of the seeds and
/// the program alone. Its length errors cannot occur under `requires`.
#[verifier::external_body]
fn create_program_address(seeds: &Vec<Vec<u8>>, program_id: &Address) -> (r: Option<Address>)
    requires
        seeds@.len() <= 16,
        forall|i: int| 0 <= i < seeds@.len() ==> seeds@[i]@.len() <= 32,
    ensures
        program_address_of(seeds_view(seeds@), program_id@) == (match r {
            Some(a) => Some(a@),
            None => None,
        }),
{
    let slices: Vec<&[u8]> = seeds.iter().map(|s| s.as_slice()).collect();
    Pubkey::create_program_address(&slices, &Pubkey::new_from_array(program_id.bytes))
        .ok()
        .map(|k| Address { bytes: k.to_bytes() })
}

/// The byte strings that a list of seeds holds.
pub open spec fn seeds_view(seeds: Seq<Vec<u8>>) -> Seq<Seq<u8>> {
    seeds.map_values(|v: Vec<u8>| v@)
}

/// The seeds that stand for the program's signature on the target: the
/// payer's address, then the bump byte.
pub open spec fn signer_seeds_of(payer: Seq<u8>, bump: u8) -> Seq<Seq<u8>> {
    seq![payer, seq![bump]]
}

/// Whether `(payer, bump)` lets `program_id` sign for `target`: the host's
/// recomputation of the derived address gives exactly `target`.
pub open spec fn authorizes(program_id: Seq<u8>, payer: Seq<u8>, bump: u8, target: Seq<u8>) -> bool {
    program_address_of(signer_seeds_of(payer, bump), program_id) == Some(target)
}

/// The right of a program to sign for the address derived from a seed and a
/// bump byte, for one call.
#[derive(Clone, Copy, Debug)]
pub struct SigningAuthority {
    pub program_id: Address,
    pub seed: Address,
    pub bump: u8,
}

impl SigningAuthority {
    /// The seeds handed to the host with the call.
    pub fn seeds(&self) -> (r: Vec<Vec<u8>>)
        ensures
            seeds_view(r@) == signer_seeds_of(self.seed@, self.bump),
            r@.len() == 2,
            r@[0]@ == self.seed@,
            r@[1]@ == seq![self.bump],
    {
        let mut seed: Vec<u8> = Vec::new();
        let mut i: usize = 0;
        while i < 32
            invariant
                0 <= i <= 32,
                seed@ == self.seed@.subrange(0, i as int),
            decreases 32 - i,
        {
            seed.push(self.seed.bytes[i]);
            i = i + 1;
        }
        assert(self.seed@.subrange(0, 32) =~= self.seed@);
        let mut r: Vec<Vec<u8>> = Vec::new();
        r.push(seed);
        let mut bump: Vec<u8> = Vec::new();
        bump.push(self.bump);
        assert(bump@ =~= seq![self.bump]);
        r.push(bump);
        assert(seeds_view(r@) =~= signer_seeds_of(self.seed@, self.bump));
        r
    }
}

/// Recomputes the address derived from `(program_id, payer, bump)` and grants
/// the signing authority exactly when it is `target`.
pub fn authorize(program_id: &Address, payer: &Address, bump: u8, target: &Address) -> (r: Option<
    SigningAuthority,
>)
    ensures
        r is Some <==> authorizes(program_id@, payer@, bump, target@),
        r matches Some(a) ==> a.program_id@ == program_id@ && a.seed@ == payer@ && a.bump == bump,
{
    let authority = SigningAuthority { program_id: *program_id, seed: *payer, bump };
    let seeds = authority.seeds();
    match create_program_address(&seeds, program_id) {
        Some(derived) => {
            if derived.same_as(target) {
                Some(authority)
            } else {
                None
            }
        },
        None => None,
    }
}

/// A program, a payer and a bump byte authorize at most one target: the
/// derived address is the same on every recomputation, and any other target
/// fails.
pub proof fn lemma_one_target_per_derivation(
    program_id: Seq<u8>,
    payer: Seq<u8>,
    bump: u8,
    target: Seq<u8>,
    other: Seq<u8>,
)
    requires
        authorizes(program_id, payer, bump, target),
        other != target,
    ensures
        !authorizes(program_id, payer, bump, other),
{
}

} // verus!
