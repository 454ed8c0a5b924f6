use crate::address::{rent_sysvar_id, system_program_id, token_program_id, Address};
use crate::message::{AccountMeta, AccountView, Invocation, InvocationView};
use solana_program::account_info::AccountInfo;
use solana_program::instruction::AccountMeta as AccountMeta_;
use solana_program::program_pack::Pack;
use solana_program::pubkey::Pubkey;
use solana_program::rent::Rent;
use solana_program::sysvar::Sysvar;
use vstd::bytes::{spec_u64_from_le_bytes, spec_u64_to_le_bytes};
use vstd::prelude::*;

verus! {

/// The size of a token account's data.
pub const TOKEN_ACCOUNT_LEN: usize = 165;

/// The call that creates `to` with `lamports` and `space` bytes, paid by
/// `from`, and hands it to `owner`.
pub open spec fn system_create_account_call(
    from: Address,
    to: Address,
    lamports: u64,
    space: u64,
    owner: Address,
) -> InvocationView {
    InvocationView {
        program_id: system_program_id(),
        accounts: seq![AccountMeta::writable(from, true), AccountMeta::writable(to, true)],
        data: seq![0u8, 0u8, 0u8, 0u8] + spec_u64_to_le_bytes(lamports) + spec_u64_to_le_bytes(
            space,
        ) + owner@,
    }
}

/// The call that moves `lamports` of native value from `from` to `to`.
pub open spec fn system_transfer_call(from: Address, to: Address, lamports: u64) -> InvocationView {
    InvocationView {
        program_id: system_program_id(),
        accounts: seq![AccountMeta::writable(from, true), AccountMeta::writable(to, false)],
        data: seq![2u8, 0u8, 0u8, 0u8] + spec_u64_to_le_bytes(lamports),
    }
}

/// The call that makes `account` a token account of `mint` under `owner`.
pub open spec fn token_initialize_account_call(
    token_program: Address,
    account: Address,
    mint: Address,
    owner: Address,
) -> InvocationView {
    InvocationView {
        program_id: token_program,
        accounts: seq![
            AccountMeta::writable(account, false),
            AccountMeta::read_only(mint, false),
            AccountMeta::read_only(owner, false),
            AccountMeta::read_only(rent_sysvar_id(), false),
        ],
        data: seq![1u8],
    }
}

/// The call that moves `amount` tokens from `source` to `destination` by the
/// will of `authority`.
pub open spec fn token_transfer_call(
    token_program: Address,
    source: Address,
    destination: Address,
    authority: Address,
    amount: u64,
) -> InvocationView {
    InvocationView {
        program_id: token_program,
        accounts: seq![
            AccountMeta::writable(source, false),
            AccountMeta::writable(destination, false),
            AccountMeta::read_only(authority, true),
        ],
        data: seq![3u8] + spec_u64_to_le_bytes(amount),
    }
}

/// The call that closes `account` by the will of `owner` and hands what it held
/// to `destination`.
pub open spec fn token_close_account_call(
    token_program: Address,
    account: Address,
    destination: Address,
    owner: Address,
) -> InvocationView {
    InvocationView {
        program_id: token_program,
        accounts: seq![
            AccountMeta::writable(account, false),
            AccountMeta::writable(destination, false),
            AccountMeta::read_only(owner, true),
        ],
        data: seq![9u8],
    }
}

/// The call that sets the token amount of a wrapped account to the native value
/// it holds above its reserve.
pub open spec fn token_sync_native_call(
    token_program: Address,
    account: Address,
) -> InvocationView {
    InvocationView {
        program_id: token_program,
        accounts: seq![AccountMeta::writable(account, false)],
        data: seq![17u8],
    }
}

/// `solana_program::system_instruction::create_account`: the call is to the
/// system program, names the payer and the new account, both as writable
/// signers, and carries the variant's number 0 in four bytes, the two amounts
/// in eight bytes each, low byte first, and the owner's address.
#[verifier::external_body]
pub(crate) fn system_create_account(
    from: &Address,
    to: &Address,
    lamports: u64,
    space: u64,
    owner: &Address,
) -> (r: Invocation)
    ensures
        r@ == system_create_account_call(*from, *to, lamports, space, *owner),
{
    let key = |a: &Address| Pubkey::new_from_array(a.bytes);
    let made = solana_program::system_instruction::create_account(
        &key(from), &key(to), lamports, space, &key(owner),
    );
    let meta = |m: &AccountMeta_| AccountMeta {
        pubkey: Address { bytes: m.pubkey.to_bytes() },
        is_signer: m.is_signer,
        is_writable: m.is_writable,
    };
    Invocation {
        program_id: Address { bytes: made.program_id.to_bytes() },
        accounts: made.accounts.iter().map(meta).collect(),
        data: made.data,
    }
}

/// `solana_program::system_instruction::transfer`: the call is to the system
/// program, names the payer as a writable signer and the receiver as writable,
/// and carries the variant's number 2 in four bytes and the amount in eight,
/// low byte first.
#[verifier::external_body]
pub(crate) fn system_transfer(from: &Address, to: &Address, lamports: u64) -> (r: Invocation)
    ensures
        r@ == system_transfer_call(*from, *to, lamports),
{
    let key = |a: &Address| Pubkey::new_from_array(a.bytes);
    let made = solana_program::system_instruction::transfer(&key(from), &key(to), lamports);
    let meta = |m: &AccountMeta_| AccountMeta {
        pubkey: Address { bytes: m.pubkey.to_bytes() },
        is_signer: m.is_signer,
        is_writable: m.is_writable,
    };
    Invocation {
        program_id: Address { bytes: made.program_id.to_bytes() },
        accounts: made.accounts.iter().map(meta).collect(),
        data: made.data,
    }
}

/// `spl_token::instruction::initialize_account`: refused for a program other
/// than the token program; else the call names the account as writable, then
/// the mint, the owner and the rent account, and carries the one byte 1.
#[verifier::external_body]
pub(crate) fn token_initialize_account(
    token_program: &Address,
    account: &Address,
    mint: &Address,
    owner: &Address,
) -> (r: Option<Invocation>)
    ensures
        r is Some <==> *token_program == token_program_id(),
        r is Some ==> r->0@ == token_initialize_account_call(
            *token_program,
            *account,
            *mint,
            *owner,
        ),
{
    let key = |a: &Address| Pubkey::new_from_array(a.bytes);
    let made = spl_token::instruction::initialize_account(
        &key(token_program), &key(account), &key(mint), &key(owner),
    );
    let meta = |m: &AccountMeta_| AccountMeta {
        pubkey: Address { bytes: m.pubkey.to_bytes() },
        is_signer: m.is_signer,
        is_writable: m.is_writable,
    };
    made.ok().map(|i| Invocation {
        program_id: Address { bytes: i.program_id.to_bytes() },
        accounts: i.accounts.iter().map(meta).collect(),
        data: i.data,
    })
}

/// `spl_token::instruction::transfer` with no further signers: refused for a
/// program other than the token program; else the call names source and
/// destination as writable and the authority as a signer, and carries the byte 3
/// and the amount in eight bytes, low byte first.
#[verifier::external_body]
pub(crate) fn token_transfer(
    token_program: &Address,
    source: &Address,
    destination: &Address,
    authority: &Address,
    amount: u64,
) -> (r: Option<Invocation>)
    ensures
        r is Some <==> *token_program == token_program_id(),
        r is Some ==> r->0@ == token_transfer_call(
            *token_program,
            *source,
            *destination,
            *authority,
            amount,
        ),
{
    let key = |a: &Address| Pubkey::new_from_array(a.bytes);
    let made = spl_token::instruction::transfer(
        &key(token_program), &key(source), &key(destination), &key(authority), &[], amount,
    );
    let meta = |m: &AccountMeta_| AccountMeta {
        pubkey: Address { bytes: m.pubkey.to_bytes() },
        is_signer: m.is_signer,
        is_writable: m.is_writable,
    };
    made.ok().map(|i| Invocation {
        program_id: Address { bytes: i.program_id.to_bytes() },
        accounts: i.accounts.iter().map(meta).collect(),
        data: i.data,
    })
}

/// `spl_token::instruction::close_account` with no further signers: refused for
/// a program other than the token program; else the call names the account and
/// the destination as writable and the owner as a signer, and carries the one
/// byte 9.
#[verifier::external_body]
pub(crate) fn token_close_account(
    token_program: &Address,
    account: &Address,
    destination: &Address,
    owner: &Address,
) -> (r: Option<Invocation>)
    ensures
        r is Some <==> *token_program == token_program_id(),
        r is Some ==> r->0@ == token_close_account_call(
            *token_program,
            *account,
            *destination,
            *owner,
        ),
{
    let key = |a: &Address| Pubkey::new_from_array(a.bytes);
    let made = spl_token::instruction::close_account(
        &key(token_program), &key(account), &key(destination), &key(owner), &[],
    );
    let meta = |m: &AccountMeta_| AccountMeta {
        pubkey: Address { bytes: m.pubkey.to_bytes() },
        is_signer: m.is_signer,
        is_writable: m.is_writable,
    };
    made.ok().map(|i| Invocation {
        program_id: Address { bytes: i.program_id.to_bytes() },
        accounts: i.accounts.iter().map(meta).collect(),
        data: i.data,
    })
}

/// `spl_token::instruction::sync_native`: refused for a program other than the
/// token program; else the call names the account as writable and carries the
/// one byte 17.
#[verifier::external_body]
pub(crate) fn token_sync_native(token_program: &Address, account: &Address) -> (r: Option<
    Invocation,
>)
    ensures
        r is Some <==> *token_program == token_program_id(),
        r is Some ==> r->0@ == token_sync_native_call(*token_program, *account),
{
    let key = |a: &Address| Pubkey::new_from_array(a.bytes);
    let made = spl_token::instruction::sync_native(&key(token_program), &key(account));
    let meta = |m: &AccountMeta_| AccountMeta {
        pubkey: Address { bytes: m.pubkey.to_bytes() },
        is_signer: m.is_signer,
        is_writable: m.is_writable,
    };
    made.ok().map(|i| Invocation {
        program_id: Address { bytes: i.program_id.to_bytes() },
        accounts: i.accounts.iter().map(meta).collect(),
        data: i.data,
    })
}

/// What the logic reads of a token account.
#[derive(Clone, Copy, Debug, PartialEq, Eq)]
pub struct TokenBalance {
    /// The tokens the account holds.
    pub amount: u64,
    /// Whether the account wraps native value.
    pub is_native: bool,
}

/// Whether the four bytes of `data` from `at` mark an optional field as absent
/// or as present.
pub open spec fn option_tag(data: Seq<u8>, at: int) -> bool {
    &&& data[at] == 0 || data[at] == 1
    &&& data[at + 1] == 0
    &&& data[at + 2] == 0
    &&& data[at + 3] == 0
}

/// What a token account's data reads as: 165 bytes, with the amount in bytes 64
/// to 71, low byte first, and the mark of a wrapped account in byte 109. Data
/// in which a mark or the state (byte 108) is out of range does not read.
pub open spec fn token_account_spec(data: Seq<u8>) -> Option<TokenBalance> {
    if data.len() == 165 && option_tag(data, 72) && data[108] <= 2 && option_tag(data, 109)
        && option_tag(data, 129) {
        Some(
            TokenBalance {
                amount: spec_u64_from_le_bytes(data.subrange(64, 72)),
                is_native: data[109] == 1,
            },
        )
    } else {
        None
    }
}

/// `spl_token::state::Account::unpack_unchecked`: its amount and whether it
/// wraps native value, for data of 165 bytes whose three option marks (at bytes
/// 72, 109 and 129) and state (byte 108) are in range; refused otherwise.
#[verifier::external_body]
pub(crate) fn unpack_token_account(data: &Vec<u8>) -> (r: Option<TokenBalance>)
    ensures
        r == token_account_spec(data@),
{
    match spl_token::state::Account::unpack_unchecked(data.as_slice()) {
        Ok(account) => Some(
            TokenBalance { amount: account.amount, is_native: account.is_native.is_some() },
        ),
        Err(_) => None,
    }
}

/// The least balance that frees an account of `data_len` bytes from rent, as the
/// rent parameters in the rent account's `data` give it; none where `key` is not
/// the rent account or `data` does not hold the parameters.
pub uninterp spec fn rent_exempt_minimum(key: Seq<u8>, data: Seq<u8>, data_len: nat) -> Option<u64>;

/// The yearly charge for one byte that the rent account's `data` begins with.
pub open spec fn rent_rate(data: Seq<u8>) -> u64 {
    spec_u64_from_le_bytes(data.subrange(0, 8))
}

/// Whether the charge for `data_len` bytes and their overhead stays in range.
pub open spec fn rent_charge_fits(data: Seq<u8>, data_len: nat) -> bool {
    data.len() >= 17 ==> (128 + data_len) * rent_rate(data) <= u64::MAX
}

/// `Rent::from_account_info` and then `Rent::minimum_balance`: the result is a
/// function of the account's address and data and of the length. The product of
/// the length with its overhead of 128 and the rate must fit, for the outside
/// function multiplies them as `u64`.
#[verifier::external_body]
pub(crate) fn rent_minimum_balance(account: &AccountView, data_len: usize) -> (r: Option<u64>)
    requires
        rent_charge_fits(account.data@, data_len as nat),
    ensures
        r == rent_exempt_minimum(account.key@, account.data@, data_len as nat),
{
    let key = Pubkey::new_from_array(account.key.bytes);
    let owner = Pubkey::new_from_array(account.owner.bytes);
    let mut lamports = account.lamports;
    let mut data = account.data.clone();
    let info = AccountInfo::new(&key, false, false, &mut lamports, &mut data, &owner, false, 0);
    match Rent::from_account_info(&info) {
        Ok(rent) => Some(rent.minimum_balance(data_len)),
        Err(_) => None,
    }
}

} // verus!
