use crate::address::{
    keys_distinct, native_mint_id, raydium_liquidity_pool_v4_program_id, rent_sysvar_id,
    system_program_id, token_program_id, Address,
};
use crate::error::{Error, ProgramFailure};
use crate::extern_source::{create_raydium_swap_base_in_instruction, raydium_swap_call};
use crate::message::AccountView;
use crate::processor::command::Processor;
use crate::processor::plan::{
    actions_view, asked, check_derived, derived_key_check, fail, invoke, invoke_signed, is_step,
    refused, leading_distinct, leading_keys, minimum_or_zero, no_actions, push_invoke,
    push_invoke_signed, read_record, record_spec, rent_reserve, rent_reserve_spec, same_but_for,
    token_balance, token_balance_spec, token_call, ActionView, Directive, DirectiveView,
    FeeSchedule, Progress, Step,
};
use crate::resolver::{
    AnyMintTokenAccountAddressResolver, AnyMintTokenAccountAuthorityAddressResolver,
    ProgramDerivedAddress, TemporaryAnyMintTokenAccountAddressResolver,
    TemporaryAnyMintTokenAccountAuthorityAddressResolver,
};
use crate::subsystem::{
    system_create_account, system_create_account_call, token_close_account,
    token_close_account_call, token_initialize_account, token_initialize_account_call,
    token_sync_native, token_sync_native_call, token_transfer, token_transfer_call,
};
use vstd::prelude::*;

verus! {

/// How many accounts the command takes.
pub const ACCOUNTS: usize = 25;

/// The trader, who signs and pays.
pub const TRADER: usize = 0;

/// The custody record.
pub const INTERMEDIARY: usize = 1;

/// The wrapped-value account.
pub const W_SOL: usize = 2;

/// The account that holds the tokens of the other mint.
pub const ANY_MINT: usize = 3;

/// The authority over that account.
pub const ANY_MINT_AUTHORITY: usize = 4;

/// The temporary account for a part of those tokens.
pub const TEMPORARY_ANY_MINT: usize = 5;

/// The authority over that temporary account.
pub const TEMPORARY_ANY_MINT_AUTHORITY: usize = 6;

/// The other mint.
pub const TOKEN_MINT: usize = 7;

/// The system program.
pub const SYSTEM_PROGRAM: usize = 8;

/// The account that holds the rent parameters.
pub const RENT: usize = 9;

/// The token program.
pub const TOKEN_PROGRAM: usize = 10;

/// The exchange.
pub const AMM_PROGRAM: usize = 11;

/// The exchange's pool.
pub const AMM_POOL: usize = 12;

/// The pool's authority.
pub const AMM_AUTHORITY: usize = 13;

/// The pool's open orders.
pub const AMM_OPEN_ORDERS: usize = 14;

/// The pool's vault of coins.
pub const AMM_COIN_VAULT: usize = 15;

/// The pool's vault of the priced currency.
pub const AMM_PC_VAULT: usize = 16;

/// The market's program.
pub const MARKET_PROGRAM: usize = 17;

/// The market.
pub const MARKET: usize = 18;

/// The market's bids.
pub const MARKET_BIDS: usize = 19;

/// The market's asks.
pub const MARKET_ASKS: usize = 20;

/// The market's event queue.
pub const MARKET_EVENT_QUEUE: usize = 21;

/// The market's vault of coins.
pub const MARKET_COIN_VAULT: usize = 22;

/// The market's vault of the priced currency.
pub const MARKET_PC_VAULT: usize = 23;

/// The signer for the market's vaults.
pub const MARKET_VAULT_SIGNER: usize = 24;

/// Where the account stands that a sale hands to the exchange: the temporary
/// one for a part, the holding itself for all of it.
pub open spec fn sell_on_raydium_source(partial: bool) -> usize {
    if partial {
        TEMPORARY_ANY_MINT
    } else {
        ANY_MINT
    }
}

/// Where that account's authority stands.
pub open spec fn sell_on_raydium_authority(partial: bool) -> usize {
    if partial {
        TEMPORARY_ANY_MINT_AUTHORITY
    } else {
        ANY_MINT_AUTHORITY
    }
}

/// The seeds of that authority.
pub open spec fn sell_on_raydium_seeds(accounts: Seq<AccountView>, partial: bool) -> Seq<Address> {
    if partial {
        (TemporaryAnyMintTokenAccountAuthorityAddressResolver {
            temporary_any_mint_token_account_pubkey: &accounts[TEMPORARY_ANY_MINT as int].key,
            intermediary_pubkey: &accounts[INTERMEDIARY as int].key,
        }).seeds()
    } else {
        (AnyMintTokenAccountAuthorityAddressResolver {
            any_mint_token_account_pubkey: &accounts[ANY_MINT as int].key,
            intermediary_pubkey: &accounts[INTERMEDIARY as int].key,
        }).seeds()
    }
}

/// The bump of that authority.
pub open spec fn sell_on_raydium_bump_seed(
    partial: bool,
    any_mint_token_account_authority_pubkey_bump_seed: u8,
    temporary_any_mint_token_account_authority_pubkey_bump_seed: u8,
) -> u8 {
    if partial {
        temporary_any_mint_token_account_authority_pubkey_bump_seed
    } else {
        any_mint_token_account_authority_pubkey_bump_seed
    }
}

/// What the first step of a sale of a part asks for: the temporary account is
/// created and takes exactly the input from the holding.
pub open spec fn sell_on_raydium_plan(
    accounts: Seq<AccountView>,
    input_token_amount: u64,
    any_mint_token_account_authority_pubkey_bump_seed: u8,
    temporary_any_mint_token_account_pubkey_bump_seed: u8,
    reserve: u64,
) -> Seq<ActionView> {
    seq![
        invoke_signed(
            system_create_account_call(
                accounts[TRADER as int].key,
                accounts[TEMPORARY_ANY_MINT as int].key,
                reserve,
                165,
                accounts[TOKEN_PROGRAM as int].key,
            ),
            seq![TRADER, TEMPORARY_ANY_MINT],
            (TemporaryAnyMintTokenAccountAddressResolver {
                any_mint_token_account_pubkey: &accounts[ANY_MINT as int].key,
                intermediary_pubkey: &accounts[INTERMEDIARY as int].key,
            }).seeds(),
            temporary_any_mint_token_account_pubkey_bump_seed,
        ),
        invoke(
            token_initialize_account_call(
                accounts[TOKEN_PROGRAM as int].key,
                accounts[TEMPORARY_ANY_MINT as int].key,
                accounts[TOKEN_MINT as int].key,
                accounts[TEMPORARY_ANY_MINT_AUTHORITY as int].key,
            ),
            seq![TEMPORARY_ANY_MINT, TOKEN_MINT, TEMPORARY_ANY_MINT_AUTHORITY, RENT],
        ),
        invoke_signed(
            token_transfer_call(
                accounts[TOKEN_PROGRAM as int].key,
                accounts[ANY_MINT as int].key,
                accounts[TEMPORARY_ANY_MINT as int].key,
                accounts[ANY_MINT_AUTHORITY as int].key,
                input_token_amount,
            ),
            seq![ANY_MINT, TEMPORARY_ANY_MINT, ANY_MINT_AUTHORITY],
            (AnyMintTokenAccountAuthorityAddressResolver {
                any_mint_token_account_pubkey: &accounts[ANY_MINT as int].key,
                intermediary_pubkey: &accounts[INTERMEDIARY as int].key,
            }).seeds(),
            any_mint_token_account_authority_pubkey_bump_seed,
        ),
    ]
}

/// Whether the 25 accounts of `SellOnRaydium` are 25 different ones, the holding,
/// the temporary account and their authorities are those that their seeds and
/// the claimed bumps give, the sold mint is not the mint of wrapped value, and
/// the well-known accounts are the system program, the rent account, the token
/// program and the exchange.
pub open spec fn sell_on_raydium_keys(
    accounts: Seq<AccountView>,
    any_mint_token_account_pubkey_bump_seed: u8,
    any_mint_token_account_authority_pubkey_bump_seed: u8,
    temporary_any_mint_token_account_pubkey_bump_seed: u8,
    temporary_any_mint_token_account_authority_pubkey_bump_seed: u8,
) -> Result<(), ProgramFailure> {
    let any_mint = derived_key_check(
        (AnyMintTokenAccountAddressResolver {
            any_mint_token_mint_pubkey: &accounts[TOKEN_MINT as int].key,
            intermediary_pubkey: &accounts[INTERMEDIARY as int].key,
        }).seeds(),
        any_mint_token_account_pubkey_bump_seed,
        accounts[ANY_MINT as int].key,
    );
    let any_mint_authority = derived_key_check(
        (AnyMintTokenAccountAuthorityAddressResolver {
            any_mint_token_account_pubkey: &accounts[ANY_MINT as int].key,
            intermediary_pubkey: &accounts[INTERMEDIARY as int].key,
        }).seeds(),
        any_mint_token_account_authority_pubkey_bump_seed,
        accounts[ANY_MINT_AUTHORITY as int].key,
    );
    let temporary = derived_key_check(
        (TemporaryAnyMintTokenAccountAddressResolver {
            any_mint_token_account_pubkey: &accounts[ANY_MINT as int].key,
            intermediary_pubkey: &accounts[INTERMEDIARY as int].key,
        }).seeds(),
        temporary_any_mint_token_account_pubkey_bump_seed,
        accounts[TEMPORARY_ANY_MINT as int].key,
    );
    let temporary_authority = derived_key_check(
        (TemporaryAnyMintTokenAccountAuthorityAddressResolver {
            temporary_any_mint_token_account_pubkey: &accounts[TEMPORARY_ANY_MINT as int].key,
            intermediary_pubkey: &accounts[INTERMEDIARY as int].key,
        }).seeds(),
        temporary_any_mint_token_account_authority_pubkey_bump_seed,
        accounts[TEMPORARY_ANY_MINT_AUTHORITY as int].key,
    );
    if !keys_distinct(leading_keys(accounts, ACCOUNTS as int), ACCOUNTS as int) {
        Err(fail(Error::InvalidAccountPubkey))
    } else if any_mint is Err {
        any_mint
    } else if any_mint_authority is Err {
        any_mint_authority
    } else if temporary is Err {
        temporary
    } else if temporary_authority is Err {
        temporary_authority
    } else if accounts[TOKEN_MINT as int].key == native_mint_id()
        || accounts[SYSTEM_PROGRAM as int].key != system_program_id()
        || accounts[RENT as int].key != rent_sysvar_id()
        || accounts[TOKEN_PROGRAM as int].key != token_program_id()
        || accounts[AMM_PROGRAM as int].key != raydium_liquidity_pool_v4_program_id() {
        Err(fail(Error::InvalidAccountPubkey))
    } else {
        Ok(())
    }
}

/// The first step of `SellOnRaydium`. The first check that fails decides: the
/// count of accounts; their addresses; that the trader signs and that the
/// accounts which the command or the exchange changes may be changed; that the
/// holding has the size of a token account; the rent account; that the trader
/// holds a reserve and the fee; that the record reads, is initialized, and names
/// this trader and this wrapped-value account; that the holding reads and
/// holds the input. Where the input is all that the holding has, nothing is
/// asked for and the holding itself goes to the exchange.
pub open spec fn sell_on_raydium_start(
    fees: FeeSchedule,
    accounts: Seq<AccountView>,
    input_token_amount: u64,
    any_mint_token_account_pubkey_bump_seed: u8,
    any_mint_token_account_authority_pubkey_bump_seed: u8,
    temporary_any_mint_token_account_pubkey_bump_seed: u8,
    temporary_any_mint_token_account_authority_pubkey_bump_seed: u8,
) -> Step {
    let keys = sell_on_raydium_keys(
        accounts,
        any_mint_token_account_pubkey_bump_seed,
        any_mint_token_account_authority_pubkey_bump_seed,
        temporary_any_mint_token_account_pubkey_bump_seed,
        temporary_any_mint_token_account_authority_pubkey_bump_seed,
    );
    let reserve = rent_reserve_spec(accounts[RENT as int], 165);
    let record = record_spec(accounts[INTERMEDIARY as int].data@);
    let holding = token_balance_spec(accounts[ANY_MINT as int].data@);
    if accounts.len() < ACCOUNTS {
        Err(ProgramFailure::NotEnoughAccountKeys)
    } else if keys is Err {
        Err(keys->Err_0)
    } else if !accounts[TRADER as int].is_signer
        || !accounts[TRADER as int].is_writable
        || !accounts[W_SOL as int].is_writable
        || !accounts[ANY_MINT as int].is_writable
        || !accounts[TEMPORARY_ANY_MINT as int].is_writable
        || !accounts[AMM_POOL as int].is_writable
        || !accounts[AMM_OPEN_ORDERS as int].is_writable
        || !accounts[AMM_COIN_VAULT as int].is_writable
        || !accounts[AMM_PC_VAULT as int].is_writable
        || !accounts[MARKET as int].is_writable
        || !accounts[MARKET_BIDS as int].is_writable
        || !accounts[MARKET_ASKS as int].is_writable
        || !accounts[MARKET_EVENT_QUEUE as int].is_writable
        || !accounts[MARKET_COIN_VAULT as int].is_writable
        || !accounts[MARKET_PC_VAULT as int].is_writable {
        Err(fail(Error::InvalidAccountConfigurationFlags))
    } else if accounts[ANY_MINT as int].data@.len() != 165 {
        Err(fail(Error::InvalidAccountData))
    } else if reserve is Err {
        Err(reserve->Err_0)
    } else if accounts[TRADER as int].lamports < reserve->Ok_0 + fees.sell_on_raydium {
        Err(fail(Error::InvalidAccountLamports))
    } else if record is Err {
        Err(record->Err_0)
    } else if !record->Ok_0.is_initialized {
        Err(fail(Error::IntermediaryIsNotInitialized))
    } else if accounts[TRADER as int].key != record->Ok_0.trader_pubkey {
        Err(fail(Error::IntermediaryInvalidInvestor))
    } else if accounts[W_SOL as int].key != record->Ok_0.w_sol_token_account_pubkey {
        Err(fail(Error::IntermediaryInvalidWSolTokenAccount))
    } else if holding is Err {
        Err(holding->Err_0)
    } else if input_token_amount > holding->Ok_0.amount {
        Err(fail(Error::TokenAccountInsufficientAmount))
    } else if input_token_amount == holding->Ok_0.amount {
        Ok(
            DirectiveView::Continue {
                actions: Seq::<ActionView>::empty(),
                progress: Progress::SellOnRaydiumPrepared { partial: false },
            },
        )
    } else {
        Ok(
            DirectiveView::Continue {
                actions: sell_on_raydium_plan(
                    accounts,
                    input_token_amount,
                    any_mint_token_account_authority_pubkey_bump_seed,
                    temporary_any_mint_token_account_pubkey_bump_seed,
                    reserve->Ok_0,
                ),
                progress: Progress::SellOnRaydiumPrepared { partial: true },
            },
        )
    }
}

/// The call of the exchange in a sale: what the source holds is swapped into
/// the wrapped-value account, signed for the source's authority.
pub open spec fn sell_on_raydium_swap(
    accounts: Seq<AccountView>,
    partial: bool,
    input_token_amount: u64,
    minimum_output_token_amount: Option<u64>,
    any_mint_token_account_authority_pubkey_bump_seed: u8,
    temporary_any_mint_token_account_authority_pubkey_bump_seed: u8,
) -> Seq<ActionView> {
    seq![
        invoke_signed(
            raydium_swap_call(
                accounts[AMM_PROGRAM as int].key,
                accounts[AMM_POOL as int].key,
                accounts[AMM_AUTHORITY as int].key,
                accounts[AMM_OPEN_ORDERS as int].key,
                accounts[AMM_COIN_VAULT as int].key,
                accounts[AMM_PC_VAULT as int].key,
                accounts[MARKET_PROGRAM as int].key,
                accounts[MARKET as int].key,
                accounts[MARKET_BIDS as int].key,
                accounts[MARKET_ASKS as int].key,
                accounts[MARKET_EVENT_QUEUE as int].key,
                accounts[MARKET_COIN_VAULT as int].key,
                accounts[MARKET_PC_VAULT as int].key,
                accounts[MARKET_VAULT_SIGNER as int].key,
                accounts[sell_on_raydium_source(partial) as int].key,
                accounts[W_SOL as int].key,
                accounts[sell_on_raydium_authority(partial) as int].key,
                input_token_amount,
                minimum_or_zero(minimum_output_token_amount),
            ),
            seq![
                TOKEN_PROGRAM,
                AMM_POOL,
                AMM_AUTHORITY,
                AMM_OPEN_ORDERS,
                AMM_COIN_VAULT,
                AMM_PC_VAULT,
                MARKET_PROGRAM,
                MARKET,
                MARKET_BIDS,
                MARKET_ASKS,
                MARKET_EVENT_QUEUE,
                MARKET_COIN_VAULT,
                MARKET_PC_VAULT,
                MARKET_VAULT_SIGNER,
                sell_on_raydium_source(partial),
                W_SOL,
                sell_on_raydium_authority(partial),
            ],
            sell_on_raydium_seeds(accounts, partial),
            sell_on_raydium_bump_seed(
                partial,
                any_mint_token_account_authority_pubkey_bump_seed,
                temporary_any_mint_token_account_authority_pubkey_bump_seed,
            ),
        ),
    ]
}

/// The second step of `SellOnRaydium`: where a minimum is asked for, the
/// wrapped-value account must read, and what it holds is kept as the baseline;
/// the exchange is then called.
pub open spec fn sell_on_raydium_exchange(
    accounts: Seq<AccountView>,
    partial: bool,
    input_token_amount: u64,
    minimum_output_token_amount: Option<u64>,
    any_mint_token_account_authority_pubkey_bump_seed: u8,
    temporary_any_mint_token_account_authority_pubkey_bump_seed: u8,
) -> Step {
    let before = token_balance_spec(accounts[W_SOL as int].data@);
    if accounts.len() < ACCOUNTS {
        Err(ProgramFailure::NotEnoughAccountKeys)
    } else if minimum_output_token_amount is Some && before is Err {
        Err(before->Err_0)
    } else {
        Ok(
            DirectiveView::Continue {
                actions: sell_on_raydium_swap(
                    accounts,
                    partial,
                    input_token_amount,
                    minimum_output_token_amount,
                    any_mint_token_account_authority_pubkey_bump_seed,
                    temporary_any_mint_token_account_authority_pubkey_bump_seed,
                ),
                progress: Progress::SellOnRaydiumSwapped {
                    partial,
                    baseline: if minimum_output_token_amount is Some {
                        Some(before->Ok_0.amount)
                    } else {
                        None
                    },
                },
            },
        )
    }
}

/// What the last step of a sale asks for: the source, now empty, is closed in
/// favour of the wrapped-value account, whose token amount is then set to the
/// native value it holds.
pub open spec fn sell_on_raydium_closing(
    accounts: Seq<AccountView>,
    partial: bool,
    any_mint_token_account_authority_pubkey_bump_seed: u8,
    temporary_any_mint_token_account_authority_pubkey_bump_seed: u8,
) -> Seq<ActionView> {
    seq![
        invoke_signed(
            token_close_account_call(
                accounts[TOKEN_PROGRAM as int].key,
                accounts[sell_on_raydium_source(partial) as int].key,
                accounts[W_SOL as int].key,
                accounts[sell_on_raydium_authority(partial) as int].key,
            ),
            seq![sell_on_raydium_source(partial), W_SOL, sell_on_raydium_authority(partial)],
            sell_on_raydium_seeds(accounts, partial),
            sell_on_raydium_bump_seed(
                partial,
                any_mint_token_account_authority_pubkey_bump_seed,
                temporary_any_mint_token_account_authority_pubkey_bump_seed,
            ),
        ),
        invoke(
            token_sync_native_call(accounts[TOKEN_PROGRAM as int].key, accounts[W_SOL as int].key),
            seq![W_SOL],
        ),
    ]
}

/// The last step of `SellOnRaydium`, after the exchange was called: where a
/// baseline was kept, the wrapped-value account must read and have gained the
/// minimum over it; the source must read and hold nothing.
pub open spec fn sell_on_raydium_settle(
    accounts: Seq<AccountView>,
    partial: bool,
    baseline: Option<u64>,
    minimum_output_token_amount: Option<u64>,
    any_mint_token_account_authority_pubkey_bump_seed: u8,
    temporary_any_mint_token_account_authority_pubkey_bump_seed: u8,
) -> Step {
    let after = token_balance_spec(accounts[W_SOL as int].data@);
    let source = token_balance_spec(accounts[sell_on_raydium_source(partial) as int].data@);
    if accounts.len() < ACCOUNTS {
        Err(ProgramFailure::NotEnoughAccountKeys)
    } else if baseline is Some && after is Err {
        Err(after->Err_0)
    } else if baseline is Some && after->Ok_0.amount - baseline->0
        < minimum_or_zero( minimum_output_token_amount, ) {
        Err(fail(Error::TokenAccountInvalidAmount))
    } else if source is Err {
        Err(source->Err_0)
    } else if source->Ok_0.amount != 0 {
        Err(fail(Error::TokenAccountInvalidAmount))
    } else if accounts[TOKEN_PROGRAM as int].key != token_program_id() {
        Err(ProgramFailure::IncorrectProgramId)
    } else {
        Ok(
            DirectiveView::Finish {
                actions: sell_on_raydium_closing(
                    accounts,
                    partial,
                    any_mint_token_account_authority_pubkey_bump_seed,
                    temporary_any_mint_token_account_authority_pubkey_bump_seed,
                ),
            },
        )
    }
}

/// `SellOnRaydium`, step by step. A step that is not one of its own is an
/// invalid argument.
pub open spec fn sell_on_raydium_spec(
    fees: FeeSchedule,
    accounts: Seq<AccountView>,
    progress: Progress,
    input_token_amount: u64,
    minimum_output_token_amount: Option<u64>,
    any_mint_token_account_pubkey_bump_seed: u8,
    any_mint_token_account_authority_pubkey_bump_seed: u8,
    temporary_any_mint_token_account_pubkey_bump_seed: u8,
    temporary_any_mint_token_account_authority_pubkey_bump_seed: u8,
) -> Step {
    match progress {
        Progress::Start => sell_on_raydium_start(
            fees,
            accounts,
            input_token_amount,
            any_mint_token_account_pubkey_bump_seed,
            any_mint_token_account_authority_pubkey_bump_seed,
            temporary_any_mint_token_account_pubkey_bump_seed,
            temporary_any_mint_token_account_authority_pubkey_bump_seed,
        ),
        Progress::SellOnRaydiumPrepared { partial } => sell_on_raydium_exchange(
            accounts,
            partial,
            input_token_amount,
            minimum_output_token_amount,
            any_mint_token_account_authority_pubkey_bump_seed,
            temporary_any_mint_token_account_authority_pubkey_bump_seed,
        ),
        Progress::SellOnRaydiumSwapped { partial, baseline } => sell_on_raydium_settle(
            accounts,
            partial,
            baseline,
            minimum_output_token_amount,
            any_mint_token_account_authority_pubkey_bump_seed,
            temporary_any_mint_token_account_authority_pubkey_bump_seed,
        ),
        _ => Err(ProgramFailure::InvalidArgument),
    }
}

impl Processor {
    fn sell_on_raydium_keys(
        accounts: &[AccountView],
        any_mint_token_account_pubkey_bump_seed: u8,
        any_mint_token_account_authority_pubkey_bump_seed: u8,
        temporary_any_mint_token_account_pubkey_bump_seed: u8,
        temporary_any_mint_token_account_authority_pubkey_bump_seed: u8,
    ) -> (r: Result<(), ProgramFailure>)
        requires
            accounts@.len() >= ACCOUNTS,
        ensures
            r == sell_on_raydium_keys(
                accounts@,
                any_mint_token_account_pubkey_bump_seed,
                any_mint_token_account_authority_pubkey_bump_seed,
                temporary_any_mint_token_account_pubkey_bump_seed,
                temporary_any_mint_token_account_authority_pubkey_bump_seed,
            ),
    {
        if !leading_distinct(accounts, ACCOUNTS) {
            return Err(ProgramFailure::Custom(Error::InvalidAccountPubkey));
        }
        check_derived(
            &(AnyMintTokenAccountAddressResolver {
                any_mint_token_mint_pubkey: &accounts[TOKEN_MINT].key,
                intermediary_pubkey: &accounts[INTERMEDIARY].key,
            }),
            any_mint_token_account_pubkey_bump_seed,
            &accounts[ANY_MINT].key,
        )?;
        check_derived(
            &(AnyMintTokenAccountAuthorityAddressResolver {
                any_mint_token_account_pubkey: &accounts[ANY_MINT].key,
                intermediary_pubkey: &accounts[INTERMEDIARY].key,
            }),
            any_mint_token_account_authority_pubkey_bump_seed,
            &accounts[ANY_MINT_AUTHORITY].key,
        )?;
        check_derived(
            &(TemporaryAnyMintTokenAccountAddressResolver {
                any_mint_token_account_pubkey: &accounts[ANY_MINT].key,
                intermediary_pubkey: &accounts[INTERMEDIARY].key,
            }),
            temporary_any_mint_token_account_pubkey_bump_seed,
            &accounts[TEMPORARY_ANY_MINT].key,
        )?;
        check_derived(
            &(TemporaryAnyMintTokenAccountAuthorityAddressResolver {
                temporary_any_mint_token_account_pubkey: &accounts[TEMPORARY_ANY_MINT].key,
                intermediary_pubkey: &accounts[INTERMEDIARY].key,
            }),
            temporary_any_mint_token_account_authority_pubkey_bump_seed,
            &accounts[TEMPORARY_ANY_MINT_AUTHORITY].key,
        )?;
        if accounts[TOKEN_MINT].key == Address::native_mint()
            || accounts[SYSTEM_PROGRAM].key != Address::system_program()
            || accounts[RENT].key != Address::rent_sysvar()
            || accounts[TOKEN_PROGRAM].key != Address::token_program()
            || accounts[AMM_PROGRAM].key != Address::raydium_liquidity_pool_v4_program() {
            return Err(ProgramFailure::Custom(Error::InvalidAccountPubkey));
        }
        Ok(())
    }

    fn sell_on_raydium_start(
        &self,
        accounts: &[AccountView],
        input_token_amount: u64,
        any_mint_token_account_pubkey_bump_seed: u8,
        any_mint_token_account_authority_pubkey_bump_seed: u8,
        temporary_any_mint_token_account_pubkey_bump_seed: u8,
        temporary_any_mint_token_account_authority_pubkey_bump_seed: u8,
    ) -> (r: Result<Directive, ProgramFailure>)
        ensures
            is_step(
                r,
                sell_on_raydium_start(
                    self.fees,
                    accounts@,
                    input_token_amount,
                    any_mint_token_account_pubkey_bump_seed,
                    any_mint_token_account_authority_pubkey_bump_seed,
                    temporary_any_mint_token_account_pubkey_bump_seed,
                    temporary_any_mint_token_account_authority_pubkey_bump_seed,
                ),
            ),
    {
        if accounts.len() < ACCOUNTS {
            return Err(ProgramFailure::NotEnoughAccountKeys);
        }
        Processor::sell_on_raydium_keys(
            accounts,
            any_mint_token_account_pubkey_bump_seed,
            any_mint_token_account_authority_pubkey_bump_seed,
            temporary_any_mint_token_account_pubkey_bump_seed,
            temporary_any_mint_token_account_authority_pubkey_bump_seed,
        )?;
        if !accounts[TRADER].is_signer
            || !accounts[TRADER].is_writable
            || !accounts[W_SOL].is_writable
            || !accounts[ANY_MINT].is_writable
            || !accounts[TEMPORARY_ANY_MINT].is_writable
            || !accounts[AMM_POOL].is_writable
            || !accounts[AMM_OPEN_ORDERS].is_writable
            || !accounts[AMM_COIN_VAULT].is_writable
            || !accounts[AMM_PC_VAULT].is_writable
            || !accounts[MARKET].is_writable
            || !accounts[MARKET_BIDS].is_writable
            || !accounts[MARKET_ASKS].is_writable
            || !accounts[MARKET_EVENT_QUEUE].is_writable
            || !accounts[MARKET_COIN_VAULT].is_writable
            || !accounts[MARKET_PC_VAULT].is_writable {
            return Err(ProgramFailure::Custom(Error::InvalidAccountConfigurationFlags));
        }
        if accounts[ANY_MINT].data.len() != 165 {
            return Err(ProgramFailure::Custom(Error::InvalidAccountData));
        }
        let reserve = rent_reserve(&accounts[RENT], 165)?;
        if (accounts[TRADER].lamports as u128)
            < reserve as u128 + self.fees.sell_on_raydium as u128 {
            return Err(ProgramFailure::Custom(Error::InvalidAccountLamports));
        }
        let record = read_record(&accounts[INTERMEDIARY])?;
        if !record.is_initialized {
            return Err(ProgramFailure::Custom(Error::IntermediaryIsNotInitialized));
        }
        if accounts[TRADER].key != record.trader_pubkey {
            return Err(ProgramFailure::Custom(Error::IntermediaryInvalidInvestor));
        }
        if accounts[W_SOL].key != record.w_sol_token_account_pubkey {
            return Err(ProgramFailure::Custom(Error::IntermediaryInvalidWSolTokenAccount));
        }
        let holding = token_balance(&accounts[ANY_MINT])?;
        if input_token_amount > holding.amount {
            return Err(ProgramFailure::Custom(Error::TokenAccountInsufficientAmount));
        }
        let mut actions = no_actions();
        if input_token_amount == holding.amount {
            return Ok(
                Directive::Continue {
                    actions,
                    progress: Progress::SellOnRaydiumPrepared { partial: false },
                },
            );
        }
        push_invoke_signed(
            &mut actions,
            system_create_account(
                &accounts[TRADER].key,
                &accounts[TEMPORARY_ANY_MINT].key,
                reserve,
                165,
                &accounts[TOKEN_PROGRAM].key,
            ),
            vec![TRADER, TEMPORARY_ANY_MINT],
            (TemporaryAnyMintTokenAccountAddressResolver {
                any_mint_token_account_pubkey: &accounts[ANY_MINT].key,
                intermediary_pubkey: &accounts[INTERMEDIARY].key,
            }).get_seeds(),
            temporary_any_mint_token_account_pubkey_bump_seed,
        );
        push_invoke(
            &mut actions,
            token_call(token_initialize_account(
                &accounts[TOKEN_PROGRAM].key,
                &accounts[TEMPORARY_ANY_MINT].key,
                &accounts[TOKEN_MINT].key,
                &accounts[TEMPORARY_ANY_MINT_AUTHORITY].key,
            ))?,
            vec![TEMPORARY_ANY_MINT, TOKEN_MINT, TEMPORARY_ANY_MINT_AUTHORITY, RENT],
        );
        push_invoke_signed(
            &mut actions,
            token_call(token_transfer(
                &accounts[TOKEN_PROGRAM].key,
                &accounts[ANY_MINT].key,
                &accounts[TEMPORARY_ANY_MINT].key,
                &accounts[ANY_MINT_AUTHORITY].key,
                input_token_amount,
            ))?,
            vec![ANY_MINT, TEMPORARY_ANY_MINT, ANY_MINT_AUTHORITY],
            (AnyMintTokenAccountAuthorityAddressResolver {
                any_mint_token_account_pubkey: &accounts[ANY_MINT].key,
                intermediary_pubkey: &accounts[INTERMEDIARY].key,
            }).get_seeds(),
            any_mint_token_account_authority_pubkey_bump_seed,
        );
        assert(actions_view(actions@) =~~= sell_on_raydium_plan(
            accounts@,
            input_token_amount,
            any_mint_token_account_authority_pubkey_bump_seed,
            temporary_any_mint_token_account_pubkey_bump_seed,
            reserve,
        ));
        Ok(
            Directive::Continue {
                actions,
                progress: Progress::SellOnRaydiumPrepared { partial: true },
            },
        )
    }

    fn sell_on_raydium_exchange(
        accounts: &[AccountView],
        partial: bool,
        input_token_amount: u64,
        minimum_output_token_amount: Option<u64>,
        any_mint_token_account_authority_pubkey_bump_seed: u8,
        temporary_any_mint_token_account_authority_pubkey_bump_seed: u8,
    ) -> (r: Result<Directive, ProgramFailure>)
        ensures
            is_step(
                r,
                sell_on_raydium_exchange(
                    accounts@,
                    partial,
                    input_token_amount,
                    minimum_output_token_amount,
                    any_mint_token_account_authority_pubkey_bump_seed,
                    temporary_any_mint_token_account_authority_pubkey_bump_seed,
                ),
            ),
    {
        if accounts.len() < ACCOUNTS {
            return Err(ProgramFailure::NotEnoughAccountKeys);
        }
        let (minimum, baseline) = match minimum_output_token_amount {
            Some(m) => (m, Some(token_balance(&accounts[W_SOL])?.amount)),
            None => (0, None),
        };
        let source: usize = if partial {
            TEMPORARY_ANY_MINT
        } else {
            ANY_MINT
        };
        let authority: usize = if partial {
            TEMPORARY_ANY_MINT_AUTHORITY
        } else {
            ANY_MINT_AUTHORITY
        };
        let seeds = if partial {
            (TemporaryAnyMintTokenAccountAuthorityAddressResolver {
                temporary_any_mint_token_account_pubkey: &accounts[TEMPORARY_ANY_MINT].key,
                intermediary_pubkey: &accounts[INTERMEDIARY].key,
            }).get_seeds()
        } else {
            (AnyMintTokenAccountAuthorityAddressResolver {
                any_mint_token_account_pubkey: &accounts[ANY_MINT].key,
                intermediary_pubkey: &accounts[INTERMEDIARY].key,
            }).get_seeds()
        };
        let bump_seed = if partial {
            temporary_any_mint_token_account_authority_pubkey_bump_seed
        } else {
            any_mint_token_account_authority_pubkey_bump_seed
        };
        let mut actions = no_actions();
        push_invoke_signed(
            &mut actions,
            create_raydium_swap_base_in_instruction(
                &accounts[AMM_PROGRAM].key,
                &accounts[AMM_POOL].key,
                &accounts[AMM_AUTHORITY].key,
                &accounts[AMM_OPEN_ORDERS].key,
                &accounts[AMM_COIN_VAULT].key,
                &accounts[AMM_PC_VAULT].key,
                &accounts[MARKET_PROGRAM].key,
                &accounts[MARKET].key,
                &accounts[MARKET_BIDS].key,
                &accounts[MARKET_ASKS].key,
                &accounts[MARKET_EVENT_QUEUE].key,
                &accounts[MARKET_COIN_VAULT].key,
                &accounts[MARKET_PC_VAULT].key,
                &accounts[MARKET_VAULT_SIGNER].key,
                &accounts[source].key,
                &accounts[W_SOL].key,
                &accounts[authority].key,
                input_token_amount,
                minimum,
            ),
            vec![
                TOKEN_PROGRAM,
                AMM_POOL,
                AMM_AUTHORITY,
                AMM_OPEN_ORDERS,
                AMM_COIN_VAULT,
                AMM_PC_VAULT,
                MARKET_PROGRAM,
                MARKET,
                MARKET_BIDS,
                MARKET_ASKS,
                MARKET_EVENT_QUEUE,
                MARKET_COIN_VAULT,
                MARKET_PC_VAULT,
                MARKET_VAULT_SIGNER,
                source,
                W_SOL,
                authority,
            ],
            seeds,
            bump_seed,
        );
        assert(actions_view(actions@) =~~= sell_on_raydium_swap(
            accounts@,
            partial,
            input_token_amount,
            minimum_output_token_amount,
            any_mint_token_account_authority_pubkey_bump_seed,
            temporary_any_mint_token_account_authority_pubkey_bump_seed,
        ));
        Ok(
            Directive::Continue {
                actions,
                progress: Progress::SellOnRaydiumSwapped { partial, baseline },
            },
        )
    }

    fn sell_on_raydium_settle(
        accounts: &[AccountView],
        partial: bool,
        baseline: Option<u64>,
        minimum_output_token_amount: Option<u64>,
        any_mint_token_account_authority_pubkey_bump_seed: u8,
        temporary_any_mint_token_account_authority_pubkey_bump_seed: u8,
    ) -> (r: Result<Directive, ProgramFailure>)
        ensures
            is_step(
                r,
                sell_on_raydium_settle(
                    accounts@,
                    partial,
                    baseline,
                    minimum_output_token_amount,
                    any_mint_token_account_authority_pubkey_bump_seed,
                    temporary_any_mint_token_account_authority_pubkey_bump_seed,
                ),
            ),
    {
        if accounts.len() < ACCOUNTS {
            return Err(ProgramFailure::NotEnoughAccountKeys);
        }
        let minimum = match minimum_output_token_amount {
            Some(m) => m,
            None => 0,
        };
        match baseline {
            Some(before) => {
                let after = token_balance(&accounts[W_SOL])?.amount;
                if after < before || after - before < minimum {
                    return Err(ProgramFailure::Custom(Error::TokenAccountInvalidAmount));
                }
            },
            None => {},
        }
        let source: usize = if partial {
            TEMPORARY_ANY_MINT
        } else {
            ANY_MINT
        };
        let authority: usize = if partial {
            TEMPORARY_ANY_MINT_AUTHORITY
        } else {
            ANY_MINT_AUTHORITY
        };
        if token_balance(&accounts[source])?.amount != 0 {
            return Err(ProgramFailure::Custom(Error::TokenAccountInvalidAmount));
        }
        let seeds = if partial {
            (TemporaryAnyMintTokenAccountAuthorityAddressResolver {
                temporary_any_mint_token_account_pubkey: &accounts[TEMPORARY_ANY_MINT].key,
                intermediary_pubkey: &accounts[INTERMEDIARY].key,
            }).get_seeds()
        } else {
            (AnyMintTokenAccountAuthorityAddressResolver {
                any_mint_token_account_pubkey: &accounts[ANY_MINT].key,
                intermediary_pubkey: &accounts[INTERMEDIARY].key,
            }).get_seeds()
        };
        let bump_seed = if partial {
            temporary_any_mint_token_account_authority_pubkey_bump_seed
        } else {
            any_mint_token_account_authority_pubkey_bump_seed
        };
        let mut actions = no_actions();
        push_invoke_signed(
            &mut actions,
            token_call(token_close_account(
                &accounts[TOKEN_PROGRAM].key,
                &accounts[source].key,
                &accounts[W_SOL].key,
                &accounts[authority].key,
            ))?,
            vec![source, W_SOL, authority],
            seeds,
            bump_seed,
        );
        push_invoke(
            &mut actions,
            token_call(token_sync_native(&accounts[TOKEN_PROGRAM].key, &accounts[W_SOL].key))?,
            vec![W_SOL],
        );
        assert(actions_view(actions@) =~~= sell_on_raydium_closing(
            accounts@,
            partial,
            any_mint_token_account_authority_pubkey_bump_seed,
            temporary_any_mint_token_account_authority_pubkey_bump_seed,
        ));
        Ok(Directive::Finish { actions })
    }

    /// Sells tokens of another mint on the first exchange for wrapped value
    /// into the treasury, by the will of the trader.
    pub fn sell_on_raydium(
        &self,
        accounts: &[AccountView],
        progress: &Progress,
        input_token_amount: u64,
        minimum_output_token_amount: Option<u64>,
        any_mint_token_account_pubkey_bump_seed: u8,
        any_mint_token_account_authority_pubkey_bump_seed: u8,
        temporary_any_mint_token_account_pubkey_bump_seed: u8,
        temporary_any_mint_token_account_authority_pubkey_bump_seed: u8,
    ) -> (r: Result<Directive, ProgramFailure>)
        ensures
            is_step(
                r,
                sell_on_raydium_spec(
                    self.fees,
                    accounts@,
                    *progress,
                    input_token_amount,
                    minimum_output_token_amount,
                    any_mint_token_account_pubkey_bump_seed,
                    any_mint_token_account_authority_pubkey_bump_seed,
                    temporary_any_mint_token_account_pubkey_bump_seed,
                    temporary_any_mint_token_account_authority_pubkey_bump_seed,
                ),
            ),
    {
        match progress {
            Progress::Start => self.sell_on_raydium_start(
                accounts,
                input_token_amount,
                any_mint_token_account_pubkey_bump_seed,
                any_mint_token_account_authority_pubkey_bump_seed,
                temporary_any_mint_token_account_pubkey_bump_seed,
                temporary_any_mint_token_account_authority_pubkey_bump_seed,
            ),
            Progress::SellOnRaydiumPrepared { partial } => Processor::sell_on_raydium_exchange(
                accounts,
                *partial,
                input_token_amount,
                minimum_output_token_amount,
                any_mint_token_account_authority_pubkey_bump_seed,
                temporary_any_mint_token_account_authority_pubkey_bump_seed,
            ),
            Progress::SellOnRaydiumSwapped {
                partial,
                baseline,
            } => Processor::sell_on_raydium_settle(
                accounts,
                *partial,
                *baseline,
                minimum_output_token_amount,
                any_mint_token_account_authority_pubkey_bump_seed,
                temporary_any_mint_token_account_authority_pubkey_bump_seed,
            ),
            _ => Err(ProgramFailure::InvalidArgument),
        }
    }
}

/// A sale on the first exchange without a minimum keeps no baseline, and then
/// goes through or not whatever the wrapped-value account holds after the
/// exchange: no output is too small.
pub proof fn lemma_sell_on_raydium_without_minimum(
    accounts: Seq<AccountView>,
    other: Seq<AccountView>,
    partial: bool,
    input_token_amount: u64,
    any_mint_token_account_authority_pubkey_bump_seed: u8,
    temporary_any_mint_token_account_authority_pubkey_bump_seed: u8,
)
    requires
        same_but_for(accounts, other, 2),
    ensures
        sell_on_raydium_exchange(
            accounts,
            partial,
            input_token_amount,
            None,
            any_mint_token_account_authority_pubkey_bump_seed,
            temporary_any_mint_token_account_authority_pubkey_bump_seed,
        ) matches Ok(step) ==> step matches DirectiveView::Continue { progress, .. } && progress
            == (Progress::SellOnRaydiumSwapped { partial, baseline: None }),
        sell_on_raydium_settle(
            accounts,
            partial,
            None,
            None,
            any_mint_token_account_authority_pubkey_bump_seed,
            temporary_any_mint_token_account_authority_pubkey_bump_seed,
        ) == sell_on_raydium_settle(
            other,
            partial,
            None,
            None,
            any_mint_token_account_authority_pubkey_bump_seed,
            temporary_any_mint_token_account_authority_pubkey_bump_seed,
        ),
{
    if accounts.len() >= ACCOUNTS {
        assert(forall|i: int| 0 <= i < 25 ==> accounts[i].key == other[i].key);
        assert(sell_on_raydium_seeds(accounts, partial) == sell_on_raydium_seeds(other, partial));
        assert(sell_on_raydium_closing(
            accounts,
            partial,
            any_mint_token_account_authority_pubkey_bump_seed,
            temporary_any_mint_token_account_authority_pubkey_bump_seed,
        ) =~~= sell_on_raydium_closing(
            other,
            partial,
            any_mint_token_account_authority_pubkey_bump_seed,
            temporary_any_mint_token_account_authority_pubkey_bump_seed,
        ));
    }
}

/// A sale on the first exchange with a minimum keeps what the wrapped-value
/// account held as its baseline, and fails as an invalid amount where the
/// account has gained less than the minimum over it.
pub proof fn lemma_sell_on_raydium_with_minimum(
    accounts: Seq<AccountView>,
    after: Seq<AccountView>,
    partial: bool,
    input_token_amount: u64,
    minimum: u64,
    any_mint_token_account_authority_pubkey_bump_seed: u8,
    temporary_any_mint_token_account_authority_pubkey_bump_seed: u8,
)
    requires
        accounts.len() >= ACCOUNTS,
        after.len() >= 25,
        token_balance_spec(accounts[W_SOL as int].data@) is Ok,
        token_balance_spec(after[W_SOL as int].data@) is Ok,
    ensures
        ({
            let held = token_balance_spec(accounts[W_SOL as int].data@)->Ok_0.amount;
            let holds = token_balance_spec(after[W_SOL as int].data@)->Ok_0.amount;
            let step = sell_on_raydium_exchange(
                accounts,
                partial,
                input_token_amount,
                Some(minimum),
                any_mint_token_account_authority_pubkey_bump_seed,
                temporary_any_mint_token_account_authority_pubkey_bump_seed,
            );
            &&& step matches Ok(DirectiveView::Continue { progress, .. }) && progress
                == (Progress::SellOnRaydiumSwapped { partial, baseline: Some(held) })
            &&& holds - held < minimum ==> sell_on_raydium_settle(
                after,
                partial,
                Some(held),
                Some(minimum),
                any_mint_token_account_authority_pubkey_bump_seed,
                temporary_any_mint_token_account_authority_pubkey_bump_seed,
            ) == refused(Error::TokenAccountInvalidAmount)
        }),
{
}

} // verus!
