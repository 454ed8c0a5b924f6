use crate::address::{
    keys_distinct, native_mint_id, raydium_liquidity_pool_v4_program_id, rent_sysvar_id,
    system_program_id, token_program_id, Address,
};
use crate::error::{Error, ProgramFailure};
use crate::extern_source::{create_raydium_swap_base_in_instruction, raydium_swap_call};
use crate::message::AccountView;
use crate::processor::command::Processor;
use crate::processor::plan::{
    actions_view, check_derived, derived_key_check, fail, invoke, invoke_signed, is_step,
    leading_distinct, leading_keys, no_actions, push_invoke, push_invoke_signed, read_record,
    record_spec, rent_reserve, rent_reserve_spec, token_balance, token_balance_spec, token_call,
    ActionView, Directive, DirectiveView, FeeSchedule, Progress, Step,
};
use crate::resolver::{
    AnyMintTokenAccountAddressResolver, AnyMintTokenAccountAuthorityAddressResolver,
    ProgramDerivedAddress, TemporaryWSolTokenAccountAddressResolver,
    TemporaryWSolTokenAccountAuthorityAddressResolver, WSolTokenAccountAuthorityAddressResolver,
};
use crate::state::Intermediary;
use crate::subsystem::{
    system_create_account, system_create_account_call, token_close_account,
    token_close_account_call, token_initialize_account, token_initialize_account_call,
    token_sync_native, token_sync_native_call, token_transfer, token_transfer_call,
};
use vstd::prelude::*;

verus! {

/// How many accounts the command takes.
pub const ACCOUNTS: usize = 27;

/// The trader, who signs and pays.
pub const TRADER: usize = 0;

/// The custody record.
pub const INTERMEDIARY: usize = 1;

/// The wrapped-value account.
pub const W_SOL: usize = 2;

/// The authority over the wrapped-value account.
pub const W_SOL_AUTHORITY: usize = 3;

/// The temporary wrapped-value account.
pub const TEMPORARY_W_SOL: usize = 4;

/// The authority over the temporary wrapped-value account.
pub const TEMPORARY_W_SOL_AUTHORITY: usize = 5;

/// The account that holds the tokens of the other mint.
pub const ANY_MINT: usize = 6;

/// The authority over that account.
pub const ANY_MINT_AUTHORITY: usize = 7;

/// The mint of wrapped value.
pub const W_SOL_MINT: usize = 8;

/// The other mint.
pub const TOKEN_MINT: usize = 9;

/// The system program.
pub const SYSTEM_PROGRAM: usize = 10;

/// The account that holds the rent parameters.
pub const RENT: usize = 11;

/// The token program.
pub const TOKEN_PROGRAM: usize = 12;

/// The exchange.
pub const AMM_PROGRAM: usize = 13;

/// The exchange's pool.
pub const AMM_POOL: usize = 14;

/// The pool's authority.
pub const AMM_AUTHORITY: usize = 15;

/// The pool's open orders.
pub const AMM_OPEN_ORDERS: usize = 16;

/// The pool's vault of coins.
pub const AMM_COIN_VAULT: usize = 17;

/// The pool's vault of the priced currency.
pub const AMM_PC_VAULT: usize = 18;

/// The market's program.
pub const MARKET_PROGRAM: usize = 19;

/// The market.
pub const MARKET: usize = 20;

/// The market's bids.
pub const MARKET_BIDS: usize = 21;

/// The market's asks.
pub const MARKET_ASKS: usize = 22;

/// The market's event queue.
pub const MARKET_EVENT_QUEUE: usize = 23;

/// The market's vault of coins.
pub const MARKET_COIN_VAULT: usize = 24;

/// The market's vault of the priced currency.
pub const MARKET_PC_VAULT: usize = 25;

/// The signer for the market's vaults.
pub const MARKET_VAULT_SIGNER: usize = 26;

/// What the first step of `BuyOnRaydium` asks for: the temporary wrapped-value
/// account is created and takes the input from the wrapped-value account, the
/// account for the bought tokens is created, and the exchange is called to swap
/// what the temporary account holds into it, signed for the temporary account's
/// authority.
pub open spec fn buy_on_raydium_plan(
    accounts: Seq<AccountView>,
    input_token_amount: u64,
    minimum_output_token_amount: u64,
    any_mint_token_account_pubkey_bump_seed: u8,
    record: Intermediary,
    reserve: u64,
) -> Seq<ActionView> {
    seq![
        invoke_signed(
            system_create_account_call(
                accounts[TRADER as int].key,
                accounts[TEMPORARY_W_SOL as int].key,
                reserve,
                165,
                accounts[TOKEN_PROGRAM as int].key,
            ),
            seq![TRADER, TEMPORARY_W_SOL],
            (TemporaryWSolTokenAccountAddressResolver {
                w_sol_token_account_pubkey: &accounts[W_SOL as int].key,
            }).seeds(),
            record.temporary_w_sol_token_account_pubkey_bump_seed,
        ),
        invoke(
            token_initialize_account_call(
                accounts[TOKEN_PROGRAM as int].key,
                accounts[TEMPORARY_W_SOL as int].key,
                accounts[W_SOL_MINT as int].key,
                accounts[TEMPORARY_W_SOL_AUTHORITY as int].key,
            ),
            seq![TEMPORARY_W_SOL, W_SOL_MINT, TEMPORARY_W_SOL_AUTHORITY, RENT],
        ),
        invoke_signed(
            token_transfer_call(
                accounts[TOKEN_PROGRAM as int].key,
                accounts[W_SOL as int].key,
                accounts[TEMPORARY_W_SOL as int].key,
                accounts[W_SOL_AUTHORITY as int].key,
                input_token_amount,
            ),
            seq![W_SOL, TEMPORARY_W_SOL, W_SOL_AUTHORITY],
            (WSolTokenAccountAuthorityAddressResolver {
                w_sol_token_account_pubkey: &accounts[W_SOL as int].key,
                intermediary_pubkey: &accounts[INTERMEDIARY as int].key,
            }).seeds(),
            record.w_sol_token_account_authority_pubkey_bump_seed,
        ),
        invoke_signed(
            system_create_account_call(
                accounts[TRADER as int].key,
                accounts[ANY_MINT as int].key,
                reserve,
                165,
                accounts[TOKEN_PROGRAM as int].key,
            ),
            seq![TRADER, ANY_MINT],
            (AnyMintTokenAccountAddressResolver {
                any_mint_token_mint_pubkey: &accounts[TOKEN_MINT as int].key,
                intermediary_pubkey: &accounts[INTERMEDIARY as int].key,
            }).seeds(),
            any_mint_token_account_pubkey_bump_seed,
        ),
        invoke(
            token_initialize_account_call(
                accounts[TOKEN_PROGRAM as int].key,
                accounts[ANY_MINT as int].key,
                accounts[TOKEN_MINT as int].key,
                accounts[ANY_MINT_AUTHORITY as int].key,
            ),
            seq![ANY_MINT, TOKEN_MINT, ANY_MINT_AUTHORITY, RENT],
        ),
        invoke_signed(
            raydium_swap_call(
                accounts[AMM_PROGRAM as int].key,
                accounts[AMM_POOL as int].key,
                accounts[AMM_AUTHORITY as int].key,
                accounts[AMM_OPEN_ORDERS as int].key,
                accounts[AMM_COIN_VAULT as int].key,
                accounts[AMM_PC_VAULT as int].key,
                accounts[MARKET_PROGRAM as int].key,
                accounts[MARKET as int].key,
                accounts[MARKET_BIDS as int].key,
                accounts[MARKET_ASKS as int].key,
                accounts[MARKET_EVENT_QUEUE as int].key,
                accounts[MARKET_COIN_VAULT as int].key,
                accounts[MARKET_PC_VAULT as int].key,
                accounts[MARKET_VAULT_SIGNER as int].key,
                accounts[TEMPORARY_W_SOL as int].key,
                accounts[ANY_MINT as int].key,
                accounts[TEMPORARY_W_SOL_AUTHORITY as int].key,
                input_token_amount,
                minimum_output_token_amount,
            ),
            seq![
                TOKEN_PROGRAM,
                AMM_POOL,
                AMM_AUTHORITY,
                AMM_OPEN_ORDERS,
                AMM_COIN_VAULT,
                AMM_PC_VAULT,
                MARKET_PROGRAM,
                MARKET,
                MARKET_BIDS,
                MARKET_ASKS,
                MARKET_EVENT_QUEUE,
                MARKET_COIN_VAULT,
                MARKET_PC_VAULT,
                MARKET_VAULT_SIGNER,
                TEMPORARY_W_SOL,
                ANY_MINT,
                TEMPORARY_W_SOL_AUTHORITY,
            ],
            (TemporaryWSolTokenAccountAuthorityAddressResolver {
                temporary_w_sol_token_account_pubkey: &accounts[TEMPORARY_W_SOL as int].key,
                intermediary_pubkey: &accounts[INTERMEDIARY as int].key,
            }).seeds(),
            record.temporary_w_sol_token_account_authority_pubkey_bump_seed,
        ),
    ]
}

/// Whether the 27 accounts of `BuyOnRaydium` are 27 different ones, the account
/// for the bought tokens and its authority are those that their seeds and the
/// claimed bumps give, the bought mint is not the mint of wrapped value, and the
/// well-known accounts are the mint of wrapped value, the system program, the
/// rent account, the token program and the exchange.
pub open spec fn buy_on_raydium_keys(
    accounts: Seq<AccountView>,
    any_mint_token_account_pubkey_bump_seed: u8,
    any_mint_token_account_authority_pubkey_bump_seed: u8,
) -> Result<(), ProgramFailure> {
    let any_mint = derived_key_check(
        (AnyMintTokenAccountAddressResolver {
            any_mint_token_mint_pubkey: &accounts[TOKEN_MINT as int].key,
            intermediary_pubkey: &accounts[INTERMEDIARY as int].key,
        }).seeds(),
        any_mint_token_account_pubkey_bump_seed,
        accounts[ANY_MINT as int].key,
    );
    let any_mint_authority = derived_key_check(
        (AnyMintTokenAccountAuthorityAddressResolver {
            any_mint_token_account_pubkey: &accounts[ANY_MINT as int].key,
            intermediary_pubkey: &accounts[INTERMEDIARY as int].key,
        }).seeds(),
        any_mint_token_account_authority_pubkey_bump_seed,
        accounts[ANY_MINT_AUTHORITY as int].key,
    );
    if !keys_distinct(leading_keys(accounts, ACCOUNTS as int), ACCOUNTS as int) {
        Err(fail(Error::InvalidAccountPubkey))
    } else if any_mint is Err {
        any_mint
    } else if any_mint_authority is Err {
        any_mint_authority
    } else if accounts[W_SOL_MINT as int].key == accounts[TOKEN_MINT as int].key
        || accounts[W_SOL_MINT as int].key != native_mint_id()
        || accounts[SYSTEM_PROGRAM as int].key != system_program_id()
        || accounts[RENT as int].key != rent_sysvar_id()
        || accounts[TOKEN_PROGRAM as int].key != token_program_id()
        || accounts[AMM_PROGRAM as int].key != raydium_liquidity_pool_v4_program_id() {
        Err(fail(Error::InvalidAccountPubkey))
    } else {
        Ok(())
    }
}

/// The first step of `BuyOnRaydium`. The first check that fails decides: the
/// count of accounts; their addresses; that the trader signs and that the
/// accounts which the command or the exchange changes may be changed; the rent
/// account; that the trader holds two reserves and the fee; that the record
/// reads, is initialized, and names this trader and these four sub-accounts;
/// that the wrapped-value account reads and holds the input.
pub open spec fn buy_on_raydium_start(
    fees: FeeSchedule,
    accounts: Seq<AccountView>,
    input_token_amount: u64,
    minimum_output_token_amount: u64,
    any_mint_token_account_pubkey_bump_seed: u8,
    any_mint_token_account_authority_pubkey_bump_seed: u8,
) -> Step {
    let keys = buy_on_raydium_keys(
        accounts,
        any_mint_token_account_pubkey_bump_seed,
        any_mint_token_account_authority_pubkey_bump_seed,
    );
    let reserve = rent_reserve_spec(accounts[RENT as int], 165);
    let record = record_spec(accounts[INTERMEDIARY as int].data@);
    let balance = token_balance_spec(accounts[W_SOL as int].data@);
    if accounts.len() < ACCOUNTS {
        Err(ProgramFailure::NotEnoughAccountKeys)
    } else if keys is Err {
        Err(keys->Err_0)
    } else if !accounts[TRADER as int].is_signer
        || !accounts[TRADER as int].is_writable
        || !accounts[W_SOL as int].is_writable
        || !accounts[TEMPORARY_W_SOL as int].is_writable
        || !accounts[ANY_MINT as int].is_writable
        || !accounts[AMM_POOL as int].is_writable
        || !accounts[AMM_OPEN_ORDERS as int].is_writable
        || !accounts[AMM_COIN_VAULT as int].is_writable
        || !accounts[AMM_PC_VAULT as int].is_writable
        || !accounts[MARKET as int].is_writable
        || !accounts[MARKET_BIDS as int].is_writable
        || !accounts[MARKET_ASKS as int].is_writable
        || !accounts[MARKET_EVENT_QUEUE as int].is_writable
        || !accounts[MARKET_COIN_VAULT as int].is_writable
        || !accounts[MARKET_PC_VAULT as int].is_writable {
        Err(fail(Error::InvalidAccountConfigurationFlags))
    } else if reserve is Err {
        Err(reserve->Err_0)
    } else if accounts[TRADER as int].lamports < 2 * reserve->Ok_0 + fees.buy_on_raydium {
        Err(fail(Error::InvalidAccountLamports))
    } else if record is Err {
        Err(record->Err_0)
    } else if !record->Ok_0.is_initialized {
        Err(fail(Error::IntermediaryIsNotInitialized))
    } else if accounts[TRADER as int].key != record->Ok_0.trader_pubkey {
        Err(fail(Error::IntermediaryInvalidInvestor))
    } else if accounts[W_SOL as int].key != record->Ok_0.w_sol_token_account_pubkey {
        Err(fail(Error::IntermediaryInvalidWSolTokenAccount))
    } else if accounts[W_SOL_AUTHORITY as int].key
        != record->Ok_0.w_sol_token_account_authority_pubkey {
        Err(fail(Error::IntermediaryInvalidWSolTokenAccountAuthority))
    } else if accounts[TEMPORARY_W_SOL as int].key
        != record->Ok_0.temporary_w_sol_token_account_pubkey {
        Err(fail(Error::IntermediaryInvalidTemporaryWSolTokenAccount))
    } else if accounts[TEMPORARY_W_SOL_AUTHORITY as int].key
        != record->Ok_0.temporary_w_sol_token_account_authority_pubkey {
        Err(fail(Error::IntermediaryInvalidTemporaryWSolTokenAccountAuthority))
    } else if balance is Err {
        Err(balance->Err_0)
    } else if input_token_amount > balance->Ok_0.amount {
        Err(fail(Error::TokenAccountInsufficientAmount))
    } else {
        Ok(
            DirectiveView::Continue {
                actions: buy_on_raydium_plan(
                    accounts,
                    input_token_amount,
                    minimum_output_token_amount,
                    any_mint_token_account_pubkey_bump_seed,
                    record->Ok_0,
                    reserve->Ok_0,
                ),
                progress: Progress::BuyOnRaydiumSwapped {
                    temporary_w_sol_token_account_authority_pubkey_bump_seed:
                        record->Ok_0.temporary_w_sol_token_account_authority_pubkey_bump_seed,
                },
            },
        )
    }
}

/// What the last step of a purchase asks for: the temporary wrapped-value
/// account is closed in favour of the wrapped-value account, whose token amount
/// is then set to the native value it holds.
pub open spec fn buy_on_raydium_closing(
    accounts: Seq<AccountView>,
    temporary_w_sol_token_account_authority_pubkey_bump_seed: u8,
) -> Seq<ActionView> {
    seq![
        invoke_signed(
            token_close_account_call(
                accounts[TOKEN_PROGRAM as int].key,
                accounts[TEMPORARY_W_SOL as int].key,
                accounts[W_SOL as int].key,
                accounts[TEMPORARY_W_SOL_AUTHORITY as int].key,
            ),
            seq![TEMPORARY_W_SOL, W_SOL, TEMPORARY_W_SOL_AUTHORITY],
            (TemporaryWSolTokenAccountAuthorityAddressResolver {
                temporary_w_sol_token_account_pubkey: &accounts[TEMPORARY_W_SOL as int].key,
                intermediary_pubkey: &accounts[INTERMEDIARY as int].key,
            }).seeds(),
            temporary_w_sol_token_account_authority_pubkey_bump_seed,
        ),
        invoke(
            token_sync_native_call(accounts[TOKEN_PROGRAM as int].key, accounts[W_SOL as int].key),
            seq![W_SOL],
        ),
    ]
}

/// The last step of `BuyOnRaydium`, after the exchange was called: the account
/// for the bought tokens must read and hold the minimum; the temporary
/// wrapped-value account must read and hold nothing.
pub open spec fn buy_on_raydium_settle(
    accounts: Seq<AccountView>,
    minimum_output_token_amount: u64,
    temporary_w_sol_token_account_authority_pubkey_bump_seed: u8,
) -> Step {
    let output = token_balance_spec(accounts[ANY_MINT as int].data@);
    let residue = token_balance_spec(accounts[TEMPORARY_W_SOL as int].data@);
    if accounts.len() < ACCOUNTS {
        Err(ProgramFailure::NotEnoughAccountKeys)
    } else if output is Err {
        Err(output->Err_0)
    } else if output->Ok_0.amount < minimum_output_token_amount {
        Err(fail(Error::TokenAccountInvalidAmount))
    } else if residue is Err {
        Err(residue->Err_0)
    } else if residue->Ok_0.amount != 0 {
        Err(fail(Error::TokenAccountInvalidAmount))
    } else if accounts[TOKEN_PROGRAM as int].key != token_program_id() {
        Err(ProgramFailure::IncorrectProgramId)
    } else {
        Ok(
            DirectiveView::Finish {
                actions: buy_on_raydium_closing(
                    accounts,
                    temporary_w_sol_token_account_authority_pubkey_bump_seed,
                ),
            },
        )
    }
}

/// `BuyOnRaydium`, step by step. A step that is not one of its own is an
/// invalid argument.
pub open spec fn buy_on_raydium_spec(
    fees: FeeSchedule,
    accounts: Seq<AccountView>,
    progress: Progress,
    input_token_amount: u64,
    minimum_output_token_amount: u64,
    any_mint_token_account_pubkey_bump_seed: u8,
    any_mint_token_account_authority_pubkey_bump_seed: u8,
) -> Step {
    match progress {
        Progress::Start => buy_on_raydium_start(
            fees,
            accounts,
            input_token_amount,
            minimum_output_token_amount,
            any_mint_token_account_pubkey_bump_seed,
            any_mint_token_account_authority_pubkey_bump_seed,
        ),
        Progress::BuyOnRaydiumSwapped {
            temporary_w_sol_token_account_authority_pubkey_bump_seed,
        } => buy_on_raydium_settle(
            accounts,
            minimum_output_token_amount,
            temporary_w_sol_token_account_authority_pubkey_bump_seed,
        ),
        _ => Err(ProgramFailure::InvalidArgument),
    }
}

impl Processor {
    fn buy_on_raydium_keys(
        accounts: &[AccountView],
        any_mint_token_account_pubkey_bump_seed: u8,
        any_mint_token_account_authority_pubkey_bump_seed: u8,
    ) -> (r: Result<(), ProgramFailure>)
        requires
            accounts@.len() >= ACCOUNTS,
        ensures
            r == buy_on_raydium_keys(
                accounts@,
                any_mint_token_account_pubkey_bump_seed,
                any_mint_token_account_authority_pubkey_bump_seed,
            ),
    {
        if !leading_distinct(accounts, ACCOUNTS) {
            return Err(ProgramFailure::Custom(Error::InvalidAccountPubkey));
        }
        check_derived(
            &(AnyMintTokenAccountAddressResolver {
                any_mint_token_mint_pubkey: &accounts[TOKEN_MINT].key,
                intermediary_pubkey: &accounts[INTERMEDIARY].key,
            }),
            any_mint_token_account_pubkey_bump_seed,
            &accounts[ANY_MINT].key,
        )?;
        check_derived(
            &(AnyMintTokenAccountAuthorityAddressResolver {
                any_mint_token_account_pubkey: &accounts[ANY_MINT].key,
                intermediary_pubkey: &accounts[INTERMEDIARY].key,
            }),
            any_mint_token_account_authority_pubkey_bump_seed,
            &accounts[ANY_MINT_AUTHORITY].key,
        )?;
        if accounts[W_SOL_MINT].key == accounts[TOKEN_MINT].key
            || accounts[W_SOL_MINT].key != Address::native_mint()
            || accounts[SYSTEM_PROGRAM].key != Address::system_program()
            || accounts[RENT].key != Address::rent_sysvar()
            || accounts[TOKEN_PROGRAM].key != Address::token_program()
            || accounts[AMM_PROGRAM].key != Address::raydium_liquidity_pool_v4_program() {
            return Err(ProgramFailure::Custom(Error::InvalidAccountPubkey));
        }
        Ok(())
    }

    fn buy_on_raydium_start(
        &self,
        accounts: &[AccountView],
        input_token_amount: u64,
        minimum_output_token_amount: u64,
        any_mint_token_account_pubkey_bump_seed: u8,
        any_mint_token_account_authority_pubkey_bump_seed: u8,
    ) -> (r: Result<Directive, ProgramFailure>)
        ensures
            is_step(
                r,
                buy_on_raydium_start(
                    self.fees,
                    accounts@,
                    input_token_amount,
                    minimum_output_token_amount,
                    any_mint_token_account_pubkey_bump_seed,
                    any_mint_token_account_authority_pubkey_bump_seed,
                ),
            ),
    {
        if accounts.len() < ACCOUNTS {
            return Err(ProgramFailure::NotEnoughAccountKeys);
        }
        Processor::buy_on_raydium_keys(
            accounts,
            any_mint_token_account_pubkey_bump_seed,
            any_mint_token_account_authority_pubkey_bump_seed,
        )?;
        if !accounts[TRADER].is_signer
            || !accounts[TRADER].is_writable
            || !accounts[W_SOL].is_writable
            || !accounts[TEMPORARY_W_SOL].is_writable
            || !accounts[ANY_MINT].is_writable
            || !accounts[AMM_POOL].is_writable
            || !accounts[AMM_OPEN_ORDERS].is_writable
            || !accounts[AMM_COIN_VAULT].is_writable
            || !accounts[AMM_PC_VAULT].is_writable
            || !accounts[MARKET].is_writable
            || !accounts[MARKET_BIDS].is_writable
            || !accounts[MARKET_ASKS].is_writable
            || !accounts[MARKET_EVENT_QUEUE].is_writable
            || !accounts[MARKET_COIN_VAULT].is_writable
            || !accounts[MARKET_PC_VAULT].is_writable {
            return Err(ProgramFailure::Custom(Error::InvalidAccountConfigurationFlags));
        }
        let reserve = rent_reserve(&accounts[RENT], 165)?;
        if (accounts[TRADER].lamports as u128)
            < 2 * (reserve as u128) + self.fees.buy_on_raydium as u128 {
            return Err(ProgramFailure::Custom(Error::InvalidAccountLamports));
        }
        let record = read_record(&accounts[INTERMEDIARY])?;
        if !record.is_initialized {
            return Err(ProgramFailure::Custom(Error::IntermediaryIsNotInitialized));
        }
        if accounts[TRADER].key != record.trader_pubkey {
            return Err(ProgramFailure::Custom(Error::IntermediaryInvalidInvestor));
        }
        if accounts[W_SOL].key != record.w_sol_token_account_pubkey {
            return Err(ProgramFailure::Custom(Error::IntermediaryInvalidWSolTokenAccount));
        }
        if accounts[W_SOL_AUTHORITY].key != record.w_sol_token_account_authority_pubkey {
            return Err(ProgramFailure::Custom(Error::IntermediaryInvalidWSolTokenAccountAuthority));
        }
        if accounts[TEMPORARY_W_SOL].key != record.temporary_w_sol_token_account_pubkey {
            return Err(ProgramFailure::Custom(Error::IntermediaryInvalidTemporaryWSolTokenAccount));
        }
        if accounts[TEMPORARY_W_SOL_AUTHORITY].key
            != record.temporary_w_sol_token_account_authority_pubkey {
            return Err(
                ProgramFailure::Custom(
                    Error::IntermediaryInvalidTemporaryWSolTokenAccountAuthority,
                ),
            );
        }
        let balance = token_balance(&accounts[W_SOL])?;
        if input_token_amount > balance.amount {
            return Err(ProgramFailure::Custom(Error::TokenAccountInsufficientAmount));
        }
        let mut actions = no_actions();
        push_invoke_signed(
            &mut actions,
            system_create_account(
                &accounts[TRADER].key,
                &accounts[TEMPORARY_W_SOL].key,
                reserve,
                165,
                &accounts[TOKEN_PROGRAM].key,
            ),
            vec![TRADER, TEMPORARY_W_SOL],
            (TemporaryWSolTokenAccountAddressResolver {
                w_sol_token_account_pubkey: &accounts[W_SOL].key,
            }).get_seeds(),
            record.temporary_w_sol_token_account_pubkey_bump_seed,
        );
        push_invoke(
            &mut actions,
            token_call(token_initialize_account(
                &accounts[TOKEN_PROGRAM].key,
                &accounts[TEMPORARY_W_SOL].key,
                &accounts[W_SOL_MINT].key,
                &accounts[TEMPORARY_W_SOL_AUTHORITY].key,
            ))?,
            vec![TEMPORARY_W_SOL, W_SOL_MINT, TEMPORARY_W_SOL_AUTHORITY, RENT],
        );
        push_invoke_signed(
            &mut actions,
            token_call(token_transfer(
                &accounts[TOKEN_PROGRAM].key,
                &accounts[W_SOL].key,
                &accounts[TEMPORARY_W_SOL].key,
                &accounts[W_SOL_AUTHORITY].key,
                input_token_amount,
            ))?,
            vec![W_SOL, TEMPORARY_W_SOL, W_SOL_AUTHORITY],
            (WSolTokenAccountAuthorityAddressResolver {
                w_sol_token_account_pubkey: &accounts[W_SOL].key,
                intermediary_pubkey: &accounts[INTERMEDIARY].key,
            }).get_seeds(),
            record.w_sol_token_account_authority_pubkey_bump_seed,
        );
        push_invoke_signed(
            &mut actions,
            system_create_account(
                &accounts[TRADER].key,
                &accounts[ANY_MINT].key,
                reserve,
                165,
                &accounts[TOKEN_PROGRAM].key,
            ),
            vec![TRADER, ANY_MINT],
            (AnyMintTokenAccountAddressResolver {
                any_mint_token_mint_pubkey: &accounts[TOKEN_MINT].key,
                intermediary_pubkey: &accounts[INTERMEDIARY].key,
            }).get_seeds(),
            any_mint_token_account_pubkey_bump_seed,
        );
        push_invoke(
            &mut actions,
            token_call(token_initialize_account(
                &accounts[TOKEN_PROGRAM].key,
                &accounts[ANY_MINT].key,
                &accounts[TOKEN_MINT].key,
                &accounts[ANY_MINT_AUTHORITY].key,
            ))?,
            vec![ANY_MINT, TOKEN_MINT, ANY_MINT_AUTHORITY, RENT],
        );
        push_invoke_signed(
            &mut actions,
            create_raydium_swap_base_in_instruction(
                &accounts[AMM_PROGRAM].key,
                &accounts[AMM_POOL].key,
                &accounts[AMM_AUTHORITY].key,
                &accounts[AMM_OPEN_ORDERS].key,
                &accounts[AMM_COIN_VAULT].key,
                &accounts[AMM_PC_VAULT].key,
                &accounts[MARKET_PROGRAM].key,
                &accounts[MARKET].key,
                &accounts[MARKET_BIDS].key,
                &accounts[MARKET_ASKS].key,
                &accounts[MARKET_EVENT_QUEUE].key,
                &accounts[MARKET_COIN_VAULT].key,
                &accounts[MARKET_PC_VAULT].key,
                &accounts[MARKET_VAULT_SIGNER].key,
                &accounts[TEMPORARY_W_SOL].key,
                &accounts[ANY_MINT].key,
                &accounts[TEMPORARY_W_SOL_AUTHORITY].key,
                input_token_amount,
                minimum_output_token_amount,
            ),
            vec![
                TOKEN_PROGRAM,
                AMM_POOL,
                AMM_AUTHORITY,
                AMM_OPEN_ORDERS,
                AMM_COIN_VAULT,
                AMM_PC_VAULT,
                MARKET_PROGRAM,
                MARKET,
                MARKET_BIDS,
                MARKET_ASKS,
                MARKET_EVENT_QUEUE,
                MARKET_COIN_VAULT,
                MARKET_PC_VAULT,
                MARKET_VAULT_SIGNER,
                TEMPORARY_W_SOL,
                ANY_MINT,
                TEMPORARY_W_SOL_AUTHORITY,
            ],
            (TemporaryWSolTokenAccountAuthorityAddressResolver {
                temporary_w_sol_token_account_pubkey: &accounts[TEMPORARY_W_SOL].key,
                intermediary_pubkey: &accounts[INTERMEDIARY].key,
            }).get_seeds(),
            record.temporary_w_sol_token_account_authority_pubkey_bump_seed,
        );
        assert(actions_view(actions@) =~~= buy_on_raydium_plan(
            accounts@,
            input_token_amount,
            minimum_output_token_amount,
            any_mint_token_account_pubkey_bump_seed,
            record,
            reserve,
        ));
        Ok(
            Directive::Continue {
                actions,
                progress: Progress::BuyOnRaydiumSwapped {
                    temporary_w_sol_token_account_authority_pubkey_bump_seed:
                        record.temporary_w_sol_token_account_authority_pubkey_bump_seed,
                },
            },
        )
    }

    fn buy_on_raydium_settle(
        accounts: &[AccountView],
        minimum_output_token_amount: u64,
        temporary_w_sol_token_account_authority_pubkey_bump_seed: u8,
    ) -> (r: Result<Directive, ProgramFailure>)
        ensures
            is_step(
                r,
                buy_on_raydium_settle(
                    accounts@,
                    minimum_output_token_amount,
                    temporary_w_sol_token_account_authority_pubkey_bump_seed,
                ),
            ),
    {
        if accounts.len() < ACCOUNTS {
            return Err(ProgramFailure::NotEnoughAccountKeys);
        }
        if token_balance(&accounts[ANY_MINT])?.amount < minimum_output_token_amount {
            return Err(ProgramFailure::Custom(Error::TokenAccountInvalidAmount));
        }
        if token_balance(&accounts[TEMPORARY_W_SOL])?.amount != 0 {
            return Err(ProgramFailure::Custom(Error::TokenAccountInvalidAmount));
        }
        let mut actions = no_actions();
        push_invoke_signed(
            &mut actions,
            token_call(token_close_account(
                &accounts[TOKEN_PROGRAM].key,
                &accounts[TEMPORARY_W_SOL].key,
                &accounts[W_SOL].key,
                &accounts[TEMPORARY_W_SOL_AUTHORITY].key,
            ))?,
            vec![TEMPORARY_W_SOL, W_SOL, TEMPORARY_W_SOL_AUTHORITY],
            (TemporaryWSolTokenAccountAuthorityAddressResolver {
                temporary_w_sol_token_account_pubkey: &accounts[TEMPORARY_W_SOL].key,
                intermediary_pubkey: &accounts[INTERMEDIARY].key,
            }).get_seeds(),
            temporary_w_sol_token_account_authority_pubkey_bump_seed,
        );
        push_invoke(
            &mut actions,
            token_call(token_sync_native(&accounts[TOKEN_PROGRAM].key, &accounts[W_SOL].key))?,
            vec![W_SOL],
        );
        assert(actions_view(actions@) =~~= buy_on_raydium_closing(
            accounts@,
            temporary_w_sol_token_account_authority_pubkey_bump_seed,
        ));
        Ok(Directive::Finish { actions })
    }

    /// Buys tokens of another mint on the first exchange with wrapped value
    /// from the treasury, by the will of the trader.
    pub fn buy_on_raydium(
        &self,
        accounts: &[AccountView],
        progress: &Progress,
        input_token_amount: u64,
        minimum_output_token_amount: u64,
        any_mint_token_account_pubkey_bump_seed: u8,
        any_mint_token_account_authority_pubkey_bump_seed: u8,
    ) -> (r: Result<Directive, ProgramFailure>)
        ensures
            is_step(
                r,
                buy_on_raydium_spec(
                    self.fees,
                    accounts@,
                    *progress,
                    input_token_amount,
                    minimum_output_token_amount,
                    any_mint_token_account_pubkey_bump_seed,
                    any_mint_token_account_authority_pubkey_bump_seed,
                ),
            ),
    {
        match progress {
            Progress::Start => self.buy_on_raydium_start(
                accounts,
                input_token_amount,
                minimum_output_token_amount,
                any_mint_token_account_pubkey_bump_seed,
                any_mint_token_account_authority_pubkey_bump_seed,
            ),
            Progress::BuyOnRaydiumSwapped {
                temporary_w_sol_token_account_authority_pubkey_bump_seed,
            } => Processor::buy_on_raydium_settle(
                accounts,
                minimum_output_token_amount,
                *temporary_w_sol_token_account_authority_pubkey_bump_seed,
            ),
            _ => Err(ProgramFailure::InvalidArgument),
        }
    }
}

/// A purchase on the first exchange ends only where the exchange has paid the
/// minimum and spent all of the input; the temporary wrapped-value account is
/// then closed in favour of the wrapped-value account, and that account's token
/// amount is set anew.
pub proof fn lemma_buy_on_raydium_ends_with_the_temporary_account_closed(
    accounts: Seq<AccountView>,
    minimum_output_token_amount: u64,
    temporary_w_sol_token_account_authority_pubkey_bump_seed: u8,
)
    requires
        buy_on_raydium_settle(
            accounts,
            minimum_output_token_amount,
            temporary_w_sol_token_account_authority_pubkey_bump_seed,
        ) is Ok,
    ensures
        ({
            let step = buy_on_raydium_settle(
                accounts,
                minimum_output_token_amount,
                temporary_w_sol_token_account_authority_pubkey_bump_seed,
            )->Ok_0;
            &&& token_balance_spec(accounts[ANY_MINT as int].data@)->Ok_0.amount
                >= minimum_output_token_amount
            &&& token_balance_spec(accounts[TEMPORARY_W_SOL as int].data@)->Ok_0.amount == 0
            &&& step is Finish
            &&& step.actions().len() == 2
            &&& step.actions()[0]->instruction == token_close_account_call(
                token_program_id(),
                accounts[TEMPORARY_W_SOL as int].key,
                accounts[W_SOL as int].key,
                accounts[TEMPORARY_W_SOL_AUTHORITY as int].key,
            )
            &&& step.actions()[1]->instruction == token_sync_native_call(
                token_program_id(),
                accounts[W_SOL as int].key,
            )
        }),
{
}

} // verus!
