use crate::address::{all_distinct, keys_distinct, Address};
use crate::message::AccountView;
use crate::processor::plan::leading_keys;
use vstd::prelude::*;

verus! {

/// How many accounts a command on the second exchange takes.
pub const ACCOUNTS: usize = 22;

/// The exchange.
pub const PUMPSWAP_PROGRAM: usize = 11;

/// The exchange's pool.
pub const POOL: usize = 12;

/// The exchange's configuration.
pub const GLOBAL_CONFIG: usize = 13;

/// The pool's account of the other mint.
pub const POOL_BASE: usize = 14;

/// The pool's account of wrapped value.
pub const POOL_QUOTE: usize = 15;

/// Who receives the exchange's fee.
pub const FEE_RECIPIENT: usize = 16;

/// The account in which the exchange's fee is received.
pub const FEE_RECIPIENT_TOKEN_ACCOUNT: usize = 17;

/// The token program of the other mint, as the exchange is told of it.
pub const BASE_TOKEN_PROGRAM: usize = 18;

/// The token program of wrapped value, as the exchange is told of it.
pub const QUOTE_TOKEN_PROGRAM: usize = 19;

/// The associated token account program.
pub const ASSOCIATED_TOKEN_PROGRAM: usize = 20;

/// The exchange's event authority.
pub const EVENT_AUTHORITY: usize = 21;


/// The addresses among which `BuyOnPumpswap` and `SellOnPumpswap` allow no
/// repetition: those of all their accounts but the two token programs that the
/// exchange is told of, which are the token program over again.
pub open spec fn pumpswap_keys(accounts: Seq<AccountView>) -> Seq<Address> {
    leading_keys(accounts, BASE_TOKEN_PROGRAM as int).push(
        accounts[ASSOCIATED_TOKEN_PROGRAM as int].key,
    ).push(accounts[EVENT_AUTHORITY as int].key)
}

pub(crate) fn pumpswap_distinct(accounts: &[AccountView]) -> (r: bool)
    requires
        accounts@.len() >= ACCOUNTS,
    ensures
        r == keys_distinct(pumpswap_keys(accounts@), 20),
{
    let mut keys: Vec<Address> = Vec::with_capacity(20);
    let mut i: usize = 0;
    while i < BASE_TOKEN_PROGRAM
        invariant
            i <= BASE_TOKEN_PROGRAM,
            accounts@.len() >= ACCOUNTS,
            keys@ == leading_keys(accounts@, i as int),
        decreases BASE_TOKEN_PROGRAM - i,
    {
        keys.push(accounts[i].key);
        i = i + 1;
        assert(keys@ =~= leading_keys(accounts@, i as int));
    }
    keys.push(accounts[ASSOCIATED_TOKEN_PROGRAM].key);
    keys.push(accounts[EVENT_AUTHORITY].key);
    all_distinct(&keys)
}

} // verus!
