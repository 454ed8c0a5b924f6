use crate::address::Address;
use crate::bytes::{address_at, get_address, lemma_address_from_view, put_address};
use vstd::prelude::*;

verus! {

/// The custody record: the three roles, the sub-accounts that hold the wrapped
/// value, and the bumps with which the program signs for them.
#[derive(Clone, Copy, Debug, PartialEq, Eq)]
pub struct Intermediary {
    pub is_initialized: bool,
    pub investor_pubkey: Address,
    pub manager_pubkey: Address,
    pub trader_pubkey: Address,
    pub w_sol_token_account_pubkey: Address,
    pub w_sol_token_account_authority_pubkey: Address,
    pub temporary_w_sol_token_account_pubkey: Address,
    pub temporary_w_sol_token_account_authority_pubkey: Address,
    pub w_sol_token_account_authority_pubkey_bump_seed: u8,
    pub temporary_w_sol_token_account_pubkey_bump_seed: u8,
    pub temporary_w_sol_token_account_authority_pubkey_bump_seed: u8,
}

/// The size of a stored record: a flag, seven addresses, three bumps.
pub const INTERMEDIARY_LEN: usize = 228;

impl Intermediary {
    /// The three roles are held by three different addresses.
    pub open spec fn roles_distinct(self) -> bool {
        &&& self.investor_pubkey != self.manager_pubkey
        &&& self.investor_pubkey != self.trader_pubkey
        &&& self.manager_pubkey != self.trader_pubkey
    }

    /// The record as it is stored: the flag as one byte, the addresses in the
    /// order of the fields, the bumps.
    pub open spec fn encode_spec(self) -> Seq<u8> {
        seq![if self.is_initialized { 1u8 } else { 0u8 }] + self.investor_pubkey@
            + self.manager_pubkey@ + self.trader_pubkey@ + self.w_sol_token_account_pubkey@
            + self.w_sol_token_account_authority_pubkey@
            + self.temporary_w_sol_token_account_pubkey@
            + self.temporary_w_sol_token_account_authority_pubkey@ + seq![
            self.w_sol_token_account_authority_pubkey_bump_seed,
            self.temporary_w_sol_token_account_pubkey_bump_seed,
            self.temporary_w_sol_token_account_authority_pubkey_bump_seed,
        ]
    }

    /// The record that `data` stores: `data` must be 228 bytes and begin with a
    /// flag of 0 or 1.
    pub open spec fn decode_spec(data: Seq<u8>) -> Option<Intermediary> {
        if data.len() != INTERMEDIARY_LEN || data[0] > 1 {
            None
        } else {
            Some(
                Intermediary {
                    is_initialized: data[0] == 1,
                    investor_pubkey: address_at(data, 1),
                    manager_pubkey: address_at(data, 33),
                    trader_pubkey: address_at(data, 65),
                    w_sol_token_account_pubkey: address_at(data, 97),
                    w_sol_token_account_authority_pubkey: address_at(data, 129),
                    temporary_w_sol_token_account_pubkey: address_at(data, 161),
                    temporary_w_sol_token_account_authority_pubkey: address_at(data, 193),
                    w_sol_token_account_authority_pubkey_bump_seed: data[225],
                    temporary_w_sol_token_account_pubkey_bump_seed: data[226],
                    temporary_w_sol_token_account_authority_pubkey_bump_seed: data[227],
                },
            )
        }
    }

    /// The bytes under which the record is stored.
    pub fn encode(&self) -> (r: Vec<u8>)
        ensures
            r@ == self.encode_spec(),
            r@.len() == INTERMEDIARY_LEN,
    {
        let mut r: Vec<u8> = Vec::with_capacity(INTERMEDIARY_LEN);
        r.push(if self.is_initialized { 1u8 } else { 0u8 });
        put_address(&mut r, &self.investor_pubkey);
        put_address(&mut r, &self.manager_pubkey);
        put_address(&mut r, &self.trader_pubkey);
        put_address(&mut r, &self.w_sol_token_account_pubkey);
        put_address(&mut r, &self.w_sol_token_account_authority_pubkey);
        put_address(&mut r, &self.temporary_w_sol_token_account_pubkey);
        put_address(&mut r, &self.temporary_w_sol_token_account_authority_pubkey);
        r.push(self.w_sol_token_account_authority_pubkey_bump_seed);
        r.push(self.temporary_w_sol_token_account_pubkey_bump_seed);
        r.push(self.temporary_w_sol_token_account_authority_pubkey_bump_seed);
        assert(r@ =~= self.encode_spec());
        r
    }

    /// The record stored in `data`, if `data` stores one.
    pub fn decode(data: &[u8]) -> (r: Option<Intermediary>)
        ensures
            r == Intermediary::decode_spec(data@),
    {
        if data.len() != INTERMEDIARY_LEN || data[0] > 1 {
            return None;
        }
        Some(
            Intermediary {
                is_initialized: data[0] == 1,
                investor_pubkey: get_address(data, 1),
                manager_pubkey: get_address(data, 33),
                trader_pubkey: get_address(data, 65),
                w_sol_token_account_pubkey: get_address(data, 97),
                w_sol_token_account_authority_pubkey: get_address(data, 129),
                temporary_w_sol_token_account_pubkey: get_address(data, 161),
                temporary_w_sol_token_account_authority_pubkey: get_address(data, 193),
                w_sol_token_account_authority_pubkey_bump_seed: data[225],
                temporary_w_sol_token_account_pubkey_bump_seed: data[226],
                temporary_w_sol_token_account_authority_pubkey_bump_seed: data[227],
            },
        )
    }

    /// The size of the stored record.
    pub fn object_length(&self) -> (r: usize)
        ensures
            r == self.encode_spec().len(),
            r == INTERMEDIARY_LEN,
    {
        INTERMEDIARY_LEN
    }
}

/// A stored record reads back as itself.
#[verifier::spinoff_prover]
#[verifier::rlimit(60)]
pub proof fn lemma_record_round_trip(record: Intermediary)
    ensures
        record.encode_spec().len() == INTERMEDIARY_LEN,
        Intermediary::decode_spec(record.encode_spec()) == Some(record),
{
    let data = record.encode_spec();
    assert(data.len() == 228);
    lemma_address_from_view(record.investor_pubkey, seq![]);
    lemma_address_from_view(record.manager_pubkey, seq![]);
    lemma_address_from_view(record.trader_pubkey, seq![]);
    lemma_address_from_view(record.w_sol_token_account_pubkey, seq![]);
    lemma_address_from_view(record.w_sol_token_account_authority_pubkey, seq![]);
    lemma_address_from_view(record.temporary_w_sol_token_account_pubkey, seq![]);
    lemma_address_from_view(record.temporary_w_sol_token_account_authority_pubkey, seq![]);
    assert(data.subrange(1, 33) =~= record.investor_pubkey@);
    assert(data.subrange(33, 65) =~= record.manager_pubkey@);
    assert(data.subrange(65, 97) =~= record.trader_pubkey@);
    assert(data.subrange(97, 129) =~= record.w_sol_token_account_pubkey@);
    assert(data.subrange(129, 161) =~= record.w_sol_token_account_authority_pubkey@);
    assert(data.subrange(161, 193) =~= record.temporary_w_sol_token_account_pubkey@);
    assert(data.subrange(193, 225) =~= record.temporary_w_sol_token_account_authority_pubkey@);
}

/// Data that reads as a record is that record's stored form, and no other
/// record's.
#[verifier::spinoff_prover]
#[verifier::rlimit(60)]
pub proof fn lemma_record_decode_exact(data: Seq<u8>, record: Intermediary)
    ensures
        Intermediary::decode_spec(data) == Some(record) <==> data == record.encode_spec(),
{
    if Intermediary::decode_spec(data) == Some(record) {
        lemma_address_from_view(record.investor_pubkey, data.subrange(1, 33));
        lemma_address_from_view(record.manager_pubkey, data.subrange(33, 65));
        lemma_address_from_view(record.trader_pubkey, data.subrange(65, 97));
        lemma_address_from_view(record.w_sol_token_account_pubkey, data.subrange(97, 129));
        lemma_address_from_view(
            record.w_sol_token_account_authority_pubkey,
            data.subrange(129, 161),
        );
        lemma_address_from_view(
            record.temporary_w_sol_token_account_pubkey,
            data.subrange(161, 193),
        );
        lemma_address_from_view(
            record.temporary_w_sol_token_account_authority_pubkey,
            data.subrange(193, 225),
        );
        assert(data =~= record.encode_spec());
    }
    if data == record.encode_spec() {
        lemma_record_round_trip(record);
    }
}

} // verus!
