use crate::address::{native_mint_id, program_id, Address};
use crate::error::PubkeyError;
use solana_program::pubkey::{Pubkey, PubkeyError as PubkeyError_};
use vstd::prelude::*;

verus! {

/// The most seeds, the bump among them, that an address is derived from.
pub const MAX_SEEDS: usize = 16;

/// The hash that the seeds and the program's address give, where it is no point
/// of the curve; on the curve there is no address.
pub uninterp spec fn program_address_hash(seeds: Seq<Seq<u8>>, program_id: Seq<u8>) -> Option<
    Seq<u8>,
>;

/// The seeds as they are hashed: each address by its bytes, then the bump alone.
pub open spec fn seed_bytes(seeds: Seq<Address>, bump_seed: u8) -> Seq<Seq<u8>> {
    seeds.map_values(|a: Address| a@).push(seq![bump_seed])
}

/// The bytes of the address that `seeds` and `bump_seed` give under `program`.
pub open spec fn create_spec(seeds: Seq<Address>, bump_seed: u8, program: Address) -> Result<
    Seq<u8>,
    PubkeyError,
> {
    if seeds.len() + 1 > MAX_SEEDS {
        Err(PubkeyError::MaxSeedLengthExceeded)
    } else {
        match program_address_hash(seed_bytes(seeds, bump_seed), program@) {
            Some(hash) => Ok(hash),
            None => Err(PubkeyError::InvalidSeeds),
        }
    }
}

/// The search for a bump from `bump_seed` downwards, which ends above 0.
pub open spec fn search_spec(seeds: Seq<Address>, program: Address, bump_seed: int) -> Option<
    (Seq<u8>, u8),
>
    decreases bump_seed,
{
    if bump_seed < 1 || bump_seed > 255 {
        None
    } else {
        match create_spec(seeds, bump_seed as u8, program) {
            Ok(hash) => Some((hash, bump_seed as u8)),
            Err(PubkeyError::InvalidSeeds) => search_spec(seeds, program, bump_seed - 1),
            Err(_) => None,
        }
    }
}

/// The address of `seeds` under `program` with the greatest bump that gives one.
pub open spec fn find_spec(seeds: Seq<Address>, program: Address) -> Option<(Seq<u8>, u8)> {
    search_spec(seeds, program, 255)
}

/// `Pubkey::create_program_address` on the seeds followed by the bump as a seed
/// of one byte: with more than 16 seeds in all it is refused; else its result is
/// the hash of the seeds and the program's address, or it is refused where that
/// hash lies on the curve.
#[verifier::external_body]
pub(crate) fn create_program_address(seeds: &Vec<Address>, bump_seed: u8, program: &Address) -> (r:
    Result<Address, PubkeyError>)
    ensures
        seeds@.len() + 1 > MAX_SEEDS ==> r is Err && r->Err_0 == PubkeyError::MaxSeedLengthExceeded,
        seeds@.len() + 1 <= MAX_SEEDS ==> match r {
            Ok(address) => program_address_hash(seed_bytes(seeds@, bump_seed), program@) == Some(
                address@,
            ),
            Err(e) => e == PubkeyError::InvalidSeeds && program_address_hash(
                seed_bytes(seeds@, bump_seed),
                program@,
            ) is None,
        },
{
    let bump = [bump_seed];
    let mut parts: Vec<&[u8]> = seeds.iter().map(|a| &a.bytes[..]).collect();
    parts.push(&bump);
    match Pubkey::create_program_address(&parts, &Pubkey::new_from_array(program.bytes)) {
        Ok(key) => Ok(Address { bytes: key.to_bytes() }),
        Err(PubkeyError_::MaxSeedLengthExceeded) => Err(PubkeyError::MaxSeedLengthExceeded),
        Err(PubkeyError_::InvalidSeeds) => Err(PubkeyError::InvalidSeeds),
        Err(PubkeyError_::IllegalOwner) => Err(PubkeyError::IllegalOwner),
    }
}

/// `Pubkey::try_find_program_address`: it tries the bumps from 255 down to 1
/// with `Pubkey::create_program_address` and returns the first address that one
/// of them gives, with that bump; it gives up at the first refusal that is not
/// about the curve, and after bump 1.
#[verifier::external_body]
pub(crate) fn try_find_program_address(seeds: &Vec<Address>, program: &Address) -> (r: Option<
    (Address, u8),
>)
    ensures
        match r {
            Some((address, bump_seed)) => find_spec(seeds@, *program) == Some(
                (address@, bump_seed),
            ),
            None => find_spec(seeds@, *program) is None,
        },
{
    let parts: Vec<&[u8]> = seeds.iter().map(|a| &a.bytes[..]).collect();
    match Pubkey::try_find_program_address(&parts, &Pubkey::new_from_array(program.bytes)) {
        Some((key, bump_seed)) => Some((Address { bytes: key.to_bytes() }, bump_seed)),
        None => None,
    }
}

/// A scheme of seeds from which this program derives the address of one of its
/// sub-accounts.
pub trait ProgramDerivedAddress {
    /// The scheme's seeds, in the order in which they are hashed.
    spec fn seeds(&self) -> Seq<Address>;

    fn get_seeds(&self) -> (r: Vec<Address>)
        ensures
            r@ == self.seeds(),
    ;

    /// The scheme's address and the bump that gives it: the greatest bump, from
    /// 255 down to 1, for which the seeds give an address. `None` where no bump
    /// gives one.
    fn find(&self) -> (r: Option<(Address, u8)>)
        ensures
            match r {
                Some((address, bump_seed)) => find_spec(self.seeds(), program_id()) == Some(
                    (address@, bump_seed),
                ),
                None => find_spec(self.seeds(), program_id()) is None,
            },
    {
        let seeds = self.get_seeds();
        let program = Address::program();
        try_find_program_address(&seeds, &program)
    }

    /// The scheme's address under a bump that the caller claims.
    fn create(&self, bump_seed: u8) -> (r: Result<Address, PubkeyError>)
        ensures
            match r {
                Ok(address) => create_spec(self.seeds(), bump_seed, program_id()) == Ok::<
                    Seq<u8>,
                    PubkeyError,
                >(address@),
                Err(e) => create_spec(self.seeds(), bump_seed, program_id()) == Err::<
                    Seq<u8>,
                    PubkeyError,
                >(e),
            },
    {
        let seeds = self.get_seeds();
        let program = Address::program();
        create_program_address(&seeds, bump_seed, &program)
    }
}

/// Whether `address` is the one that `seeds` give under `bump_seed`.
pub open spec fn derives(seeds: Seq<Address>, bump_seed: u8, address: Address) -> bool {
    create_spec(seeds, bump_seed, program_id()) == Ok::<Seq<u8>, PubkeyError>(address@)
}

/// What the search finds, the bump it found recreates; and the bump is not 0.
pub proof fn lemma_find_then_create(seeds: Seq<Address>, program: Address)
    ensures
        find_spec(seeds, program) matches Some((hash, bump_seed)) ==> bump_seed >= 1 && create_spec(
            seeds,
            bump_seed,
            program,
        ) == Ok::<Seq<u8>, PubkeyError>(hash),
{
    lemma_search_then_create(seeds, program, 255);
}

proof fn lemma_search_then_create(seeds: Seq<Address>, program: Address, from: int)
    ensures
        search_spec(seeds, program, from) matches Some((hash, bump_seed)) ==> 1 <= bump_seed <= from
            && create_spec(seeds, bump_seed, program) == Ok::<Seq<u8>, PubkeyError>(hash),
    decreases from,
{
    if 1 <= from <= 255 {
        lemma_search_then_create(seeds, program, from - 1);
    }
}

/// Between the bump that the search finds and 255, no bump gives an address.
pub proof fn lemma_find_takes_greatest(seeds: Seq<Address>, program: Address, other: u8)
    ensures
        find_spec(seeds, program) matches Some((hash, bump_seed)) ==> (other > bump_seed
            ==> create_spec(seeds, other, program) == Err::<Seq<u8>, PubkeyError>(
            PubkeyError::InvalidSeeds,
        )),
{
    lemma_search_takes_greatest(seeds, program, 255, other);
}

proof fn lemma_search_takes_greatest(seeds: Seq<Address>, program: Address, from: int, other: u8)
    ensures
        search_spec(seeds, program, from) matches Some((hash, bump_seed)) ==> (bump_seed < other
            <= from ==> create_spec(seeds, other, program) == Err::<Seq<u8>, PubkeyError>(
            PubkeyError::InvalidSeeds,
        )),
    decreases from,
{
    if 1 <= from <= 255 {
        lemma_search_takes_greatest(seeds, program, from - 1, other);
    }
}

/// The wrapped-value account of a custody record.
pub struct WSolTokenAccountAddressResolver<'a> {
    pub intermediary_pubkey: &'a Address,
}

impl<'a> ProgramDerivedAddress for WSolTokenAccountAddressResolver<'a> {
    open spec fn seeds(&self) -> Seq<Address> {
        seq![native_mint_id(), *self.intermediary_pubkey, program_id()]
    }

    fn get_seeds(&self) -> (r: Vec<Address>) {
        vec![Address::native_mint(), *self.intermediary_pubkey, Address::program()]
    }
}

/// The authority over the wrapped-value account.
pub struct WSolTokenAccountAuthorityAddressResolver<'a> {
    pub w_sol_token_account_pubkey: &'a Address,
    pub intermediary_pubkey: &'a Address,
}

impl<'a> ProgramDerivedAddress for WSolTokenAccountAuthorityAddressResolver<'a> {
    open spec fn seeds(&self) -> Seq<Address> {
        seq![
            *self.w_sol_token_account_pubkey,
            *self.intermediary_pubkey,
            native_mint_id(),
            program_id(),
        ]
    }

    fn get_seeds(&self) -> (r: Vec<Address>) {
        vec![
            *self.w_sol_token_account_pubkey,
            *self.intermediary_pubkey,
            Address::native_mint(),
            Address::program(),
        ]
    }
}

/// The temporary wrapped-value account that goes with a wrapped-value account.
pub struct TemporaryWSolTokenAccountAddressResolver<'a> {
    pub w_sol_token_account_pubkey: &'a Address,
}

impl<'a> ProgramDerivedAddress for TemporaryWSolTokenAccountAddressResolver<'a> {
    open spec fn seeds(&self) -> Seq<Address> {
        seq![*self.w_sol_token_account_pubkey, native_mint_id(), program_id()]
    }

    fn get_seeds(&self) -> (r: Vec<Address>) {
        vec![*self.w_sol_token_account_pubkey, Address::native_mint(), Address::program()]
    }
}

/// The authority over the temporary wrapped-value account.
pub struct TemporaryWSolTokenAccountAuthorityAddressResolver<'a> {
    pub temporary_w_sol_token_account_pubkey: &'a Address,
    pub intermediary_pubkey: &'a Address,
}

impl<'a> ProgramDerivedAddress for TemporaryWSolTokenAccountAuthorityAddressResolver<'a> {
    open spec fn seeds(&self) -> Seq<Address> {
        seq![
            *self.temporary_w_sol_token_account_pubkey,
            native_mint_id(),
            program_id(),
            *self.intermediary_pubkey,
        ]
    }

    fn get_seeds(&self) -> (r: Vec<Address>) {
        vec![
            *self.temporary_w_sol_token_account_pubkey,
            Address::native_mint(),
            Address::program(),
            *self.intermediary_pubkey,
        ]
    }
}

/// The account in which a custody record holds the tokens of one other mint.
pub struct AnyMintTokenAccountAddressResolver<'a> {
    pub any_mint_token_mint_pubkey: &'a Address,
    pub intermediary_pubkey: &'a Address,
}

impl<'a> ProgramDerivedAddress for AnyMintTokenAccountAddressResolver<'a> {
    open spec fn seeds(&self) -> Seq<Address> {
        seq![program_id(), *self.any_mint_token_mint_pubkey, *self.intermediary_pubkey]
    }

    fn get_seeds(&self) -> (r: Vec<Address>) {
        vec![Address::program(), *self.any_mint_token_mint_pubkey, *self.intermediary_pubkey]
    }
}

/// The authority over such an account.
pub struct AnyMintTokenAccountAuthorityAddressResolver<'a> {
    pub any_mint_token_account_pubkey: &'a Address,
    pub intermediary_pubkey: &'a Address,
}

impl<'a> ProgramDerivedAddress for AnyMintTokenAccountAuthorityAddressResolver<'a> {
    open spec fn seeds(&self) -> Seq<Address> {
        seq![program_id(), *self.any_mint_token_account_pubkey, *self.intermediary_pubkey]
    }

    fn get_seeds(&self) -> (r: Vec<Address>) {
        vec![Address::program(), *self.any_mint_token_account_pubkey, *self.intermediary_pubkey]
    }
}

/// The temporary account through which a part of such an account's tokens is sold.
pub struct TemporaryAnyMintTokenAccountAddressResolver<'a> {
    pub any_mint_token_account_pubkey: &'a Address,
    pub intermediary_pubkey: &'a Address,
}

impl<'a> ProgramDerivedAddress for TemporaryAnyMintTokenAccountAddressResolver<'a> {
    open spec fn seeds(&self) -> Seq<Address> {
        seq![*self.any_mint_token_account_pubkey, program_id(), *self.intermediary_pubkey]
    }

    fn get_seeds(&self) -> (r: Vec<Address>) {
        vec![*self.any_mint_token_account_pubkey, Address::program(), *self.intermediary_pubkey]
    }
}

/// The authority over that temporary account.
pub struct TemporaryAnyMintTokenAccountAuthorityAddressResolver<'a> {
    pub temporary_any_mint_token_account_pubkey: &'a Address,
    pub intermediary_pubkey: &'a Address,
}

impl<'a> ProgramDerivedAddress for TemporaryAnyMintTokenAccountAuthorityAddressResolver<'a> {
    open spec fn seeds(&self) -> Seq<Address> {
        seq![
            program_id(),
            *self.intermediary_pubkey,
            *self.temporary_any_mint_token_account_pubkey,
        ]
    }

    fn get_seeds(&self) -> (r: Vec<Address>) {
        vec![
            Address::program(),
            *self.intermediary_pubkey,
            *self.temporary_any_mint_token_account_pubkey,
        ]
    }
}

} // verus!
