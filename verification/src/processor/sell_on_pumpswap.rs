use crate::address::{
    associated_token_account_program_id, keys_distinct, native_mint_id, pumpswap_program_id,
    rent_sysvar_id, system_program_id, token_program_id, Address,
};
use crate::error::{Error, ProgramFailure};
use crate::extern_source::{create_pumpswap_sell_instruction, pumpswap_sell_call};
use crate::message::AccountView;
use crate::processor::command::Processor;
use crate::processor::plan::{
    actions_view, asked, check_derived, derived_key_check, fail, invoke, invoke_signed, is_step,
    refused, minimum_or_zero, no_actions, push_invoke, push_invoke_signed, read_record,
    record_spec, rent_reserve, rent_reserve_spec, same_but_for, token_balance, token_balance_spec,
    token_call, ActionView, Directive, DirectiveView, FeeSchedule, Progress, Step,
};
use crate::resolver::{
    AnyMintTokenAccountAddressResolver, ProgramDerivedAddress,
    TemporaryAnyMintTokenAccountAddressResolver, TemporaryWSolTokenAccountAddressResolver,
};
use crate::state::Intermediary;
use crate::subsystem::{
    system_create_account, system_create_account_call, token_close_account,
    token_close_account_call, token_initialize_account, token_initialize_account_call,
    token_sync_native, token_sync_native_call, token_transfer, token_transfer_call,
};
use crate::processor::pumpswap::{
    pumpswap_distinct, pumpswap_keys, ACCOUNTS, ASSOCIATED_TOKEN_PROGRAM, BASE_TOKEN_PROGRAM,
    EVENT_AUTHORITY, GLOBAL_CONFIG, POOL, POOL_BASE, POOL_QUOTE, FEE_RECIPIENT,
    FEE_RECIPIENT_TOKEN_ACCOUNT, PUMPSWAP_PROGRAM, QUOTE_TOKEN_PROGRAM,
};
use vstd::prelude::*;

verus! {

/// The trader, who signs and pays.
pub const TRADER: usize = 0;

/// The custody record.
pub const INTERMEDIARY: usize = 1;

/// The wrapped-value account.
pub const W_SOL: usize = 2;

/// The temporary wrapped-value account.
pub const TEMPORARY_W_SOL: usize = 3;

/// The account that holds the tokens of the other mint.
pub const ANY_MINT: usize = 4;

/// The temporary account for a part of those tokens.
pub const TEMPORARY_ANY_MINT: usize = 5;

/// The mint of wrapped value.
pub const W_SOL_MINT: usize = 6;

/// The other mint.
pub const TOKEN_MINT: usize = 7;

/// The system program.
pub const SYSTEM_PROGRAM: usize = 8;

/// The account that holds the rent parameters.
pub const RENT: usize = 9;

/// The token program.
pub const TOKEN_PROGRAM: usize = 10;


/// Where the account stands that a sale hands to the exchange: the temporary
/// one for a part, the holding itself for all of it.
pub open spec fn sell_on_pumpswap_source(partial: bool) -> usize {
    if partial {
        TEMPORARY_ANY_MINT
    } else {
        ANY_MINT
    }
}

/// What the first step of a sale of all that the holding has asks for: the
/// temporary wrapped-value account is created under the trader, and the
/// exchange is called to sell what the holding has into it.
pub open spec fn sell_on_pumpswap_plan_whole(
    accounts: Seq<AccountView>,
    input_token_amount: u64,
    minimum_output_token_amount: Option<u64>,
    record: Intermediary,
    reserve: u64,
) -> Seq<ActionView> {
    seq![
        invoke_signed(
            system_create_account_call(
                accounts[TRADER as int].key,
                accounts[TEMPORARY_W_SOL as int].key,
                reserve,
                165,
                accounts[QUOTE_TOKEN_PROGRAM as int].key,
            ),
            seq![TRADER, TEMPORARY_W_SOL],
            (TemporaryWSolTokenAccountAddressResolver {
                w_sol_token_account_pubkey: &accounts[W_SOL as int].key,
            }).seeds(),
            record.temporary_w_sol_token_account_pubkey_bump_seed,
        ),
        invoke(
            token_initialize_account_call(
                accounts[QUOTE_TOKEN_PROGRAM as int].key,
                accounts[TEMPORARY_W_SOL as int].key,
                accounts[W_SOL_MINT as int].key,
                accounts[TRADER as int].key,
            ),
            seq![TEMPORARY_W_SOL, W_SOL_MINT, TRADER, RENT],
        ),
        invoke(
            pumpswap_sell_call(
                accounts[PUMPSWAP_PROGRAM as int].key,
                accounts[POOL as int].key,
                accounts[TRADER as int].key,
                accounts[GLOBAL_CONFIG as int].key,
                accounts[TOKEN_MINT as int].key,
                accounts[W_SOL_MINT as int].key,
                accounts[ANY_MINT as int].key,
                accounts[TEMPORARY_W_SOL as int].key,
                accounts[POOL_BASE as int].key,
                accounts[POOL_QUOTE as int].key,
                accounts[FEE_RECIPIENT as int].key,
                accounts[FEE_RECIPIENT_TOKEN_ACCOUNT as int].key,
                accounts[BASE_TOKEN_PROGRAM as int].key,
                accounts[QUOTE_TOKEN_PROGRAM as int].key,
                accounts[EVENT_AUTHORITY as int].key,
                input_token_amount,
                minimum_or_zero(minimum_output_token_amount),
            ),
            seq![
                POOL,
                TRADER,
                GLOBAL_CONFIG,
                TOKEN_MINT,
                W_SOL_MINT,
                ANY_MINT,
                TEMPORARY_W_SOL,
                POOL_BASE,
                POOL_QUOTE,
                FEE_RECIPIENT,
                FEE_RECIPIENT_TOKEN_ACCOUNT,
                BASE_TOKEN_PROGRAM,
                QUOTE_TOKEN_PROGRAM,
                SYSTEM_PROGRAM,
                ASSOCIATED_TOKEN_PROGRAM,
                EVENT_AUTHORITY,
                PUMPSWAP_PROGRAM,
            ],
        ),
    ]
}

/// What the first step of a sale of a part asks for: the temporary
/// wrapped-value account is created under the trader, the temporary account
/// for the tokens is created under the trader and takes exactly the input from
/// the holding, and the exchange is called to sell what it has.
pub open spec fn sell_on_pumpswap_plan_part(
    accounts: Seq<AccountView>,
    input_token_amount: u64,
    minimum_output_token_amount: Option<u64>,
    temporary_any_mint_token_account_pubkey_bump_seed: u8,
    record: Intermediary,
    reserve: u64,
) -> Seq<ActionView> {
    seq![
        invoke_signed(
            system_create_account_call(
                accounts[TRADER as int].key,
                accounts[TEMPORARY_W_SOL as int].key,
                reserve,
                165,
                accounts[QUOTE_TOKEN_PROGRAM as int].key,
            ),
            seq![TRADER, TEMPORARY_W_SOL],
            (TemporaryWSolTokenAccountAddressResolver {
                w_sol_token_account_pubkey: &accounts[W_SOL as int].key,
            }).seeds(),
            record.temporary_w_sol_token_account_pubkey_bump_seed,
        ),
        invoke(
            token_initialize_account_call(
                accounts[QUOTE_TOKEN_PROGRAM as int].key,
                accounts[TEMPORARY_W_SOL as int].key,
                accounts[W_SOL_MINT as int].key,
                accounts[TRADER as int].key,
            ),
            seq![TEMPORARY_W_SOL, W_SOL_MINT, TRADER, RENT],
        ),
        invoke_signed(
            system_create_account_call(
                accounts[TRADER as int].key,
                accounts[TEMPORARY_ANY_MINT as int].key,
                reserve,
                165,
                accounts[BASE_TOKEN_PROGRAM as int].key,
            ),
            seq![TRADER, TEMPORARY_ANY_MINT],
            (TemporaryAnyMintTokenAccountAddressResolver {
                any_mint_token_account_pubkey: &accounts[ANY_MINT as int].key,
                intermediary_pubkey: &accounts[INTERMEDIARY as int].key,
            }).seeds(),
            temporary_any_mint_token_account_pubkey_bump_seed,
        ),
        invoke(
            token_initialize_account_call(
                accounts[BASE_TOKEN_PROGRAM as int].key,
                accounts[TEMPORARY_ANY_MINT as int].key,
                accounts[TOKEN_MINT as int].key,
                accounts[TRADER as int].key,
            ),
            seq![TEMPORARY_ANY_MINT, TOKEN_MINT, TRADER, RENT],
        ),
        invoke(
            token_transfer_call(
                accounts[BASE_TOKEN_PROGRAM as int].key,
                accounts[ANY_MINT as int].key,
                accounts[TEMPORARY_ANY_MINT as int].key,
                accounts[TRADER as int].key,
                input_token_amount,
            ),
            seq![ANY_MINT, TEMPORARY_ANY_MINT, TRADER],
        ),
        invoke(
            pumpswap_sell_call(
                accounts[PUMPSWAP_PROGRAM as int].key,
                accounts[POOL as int].key,
                accounts[TRADER as int].key,
                accounts[GLOBAL_CONFIG as int].key,
                accounts[TOKEN_MINT as int].key,
                accounts[W_SOL_MINT as int].key,
                accounts[TEMPORARY_ANY_MINT as int].key,
                accounts[TEMPORARY_W_SOL as int].key,
                accounts[POOL_BASE as int].key,
                accounts[POOL_QUOTE as int].key,
                accounts[FEE_RECIPIENT as int].key,
                accounts[FEE_RECIPIENT_TOKEN_ACCOUNT as int].key,
                accounts[BASE_TOKEN_PROGRAM as int].key,
                accounts[QUOTE_TOKEN_PROGRAM as int].key,
                accounts[EVENT_AUTHORITY as int].key,
                input_token_amount,
                minimum_or_zero(minimum_output_token_amount),
            ),
            seq![
                POOL,
                TRADER,
                GLOBAL_CONFIG,
                TOKEN_MINT,
                W_SOL_MINT,
                TEMPORARY_ANY_MINT,
                TEMPORARY_W_SOL,
                POOL_BASE,
                POOL_QUOTE,
                FEE_RECIPIENT,
                FEE_RECIPIENT_TOKEN_ACCOUNT,
                BASE_TOKEN_PROGRAM,
                QUOTE_TOKEN_PROGRAM,
                SYSTEM_PROGRAM,
                ASSOCIATED_TOKEN_PROGRAM,
                EVENT_AUTHORITY,
                PUMPSWAP_PROGRAM,
            ],
        ),
    ]
}

/// Whether the accounts of `SellOnPumpswap` are different ones, the holding and
/// the temporary account for the tokens are those that their seeds and the
/// claimed bumps give, the sold mint is not the mint of wrapped value, and the
/// well-known accounts are the mint of wrapped value, the system program, the
/// rent account, the token program, the exchange and the associated token
/// account program.
pub open spec fn sell_on_pumpswap_keys(
    accounts: Seq<AccountView>,
    any_mint_token_account_pubkey_bump_seed: u8,
    temporary_any_mint_token_account_pubkey_bump_seed: u8,
) -> Result<(), ProgramFailure> {
    let any_mint = derived_key_check(
        (AnyMintTokenAccountAddressResolver {
            any_mint_token_mint_pubkey: &accounts[TOKEN_MINT as int].key,
            intermediary_pubkey: &accounts[INTERMEDIARY as int].key,
        }).seeds(),
        any_mint_token_account_pubkey_bump_seed,
        accounts[ANY_MINT as int].key,
    );
    let temporary = derived_key_check(
        (TemporaryAnyMintTokenAccountAddressResolver {
            any_mint_token_account_pubkey: &accounts[ANY_MINT as int].key,
            intermediary_pubkey: &accounts[INTERMEDIARY as int].key,
        }).seeds(),
        temporary_any_mint_token_account_pubkey_bump_seed,
        accounts[TEMPORARY_ANY_MINT as int].key,
    );
    if !keys_distinct(pumpswap_keys(accounts), 20) {
        Err(fail(Error::InvalidAccountPubkey))
    } else if any_mint is Err {
        any_mint
    } else if temporary is Err {
        temporary
    } else if accounts[TOKEN_MINT as int].key == accounts[W_SOL_MINT as int].key
        || accounts[W_SOL_MINT as int].key != native_mint_id()
        || accounts[SYSTEM_PROGRAM as int].key != system_program_id()
        || accounts[RENT as int].key != rent_sysvar_id()
        || accounts[TOKEN_PROGRAM as int].key != token_program_id()
        || accounts[PUMPSWAP_PROGRAM as int].key != pumpswap_program_id()
        || accounts[ASSOCIATED_TOKEN_PROGRAM as int].key != associated_token_account_program_id() {
        Err(fail(Error::InvalidAccountPubkey))
    } else {
        Ok(())
    }
}

/// The first step of `SellOnPumpswap`. The first check that fails decides: the
/// count of accounts; their addresses; that the trader signs and that the
/// accounts which the command or the exchange changes may be changed; that the
/// holding has the size of a token account; the rent account; that the trader
/// holds a reserve and the fee; that the record reads, is initialized, and names
/// this trader, this wrapped-value account and this temporary one; that the
/// holding reads and holds the input; that the token programs which the
/// exchange is told of and the command calls are the token program.
pub open spec fn sell_on_pumpswap_start(
    fees: FeeSchedule,
    accounts: Seq<AccountView>,
    input_token_amount: u64,
    minimum_output_token_amount: Option<u64>,
    any_mint_token_account_pubkey_bump_seed: u8,
    temporary_any_mint_token_account_pubkey_bump_seed: u8,
) -> Step {
    let keys = sell_on_pumpswap_keys(
        accounts,
        any_mint_token_account_pubkey_bump_seed,
        temporary_any_mint_token_account_pubkey_bump_seed,
    );
    let reserve = rent_reserve_spec(accounts[RENT as int], 165);
    let record = record_spec(accounts[INTERMEDIARY as int].data@);
    let holding = token_balance_spec(accounts[ANY_MINT as int].data@);
    if accounts.len() < ACCOUNTS {
        Err(ProgramFailure::NotEnoughAccountKeys)
    } else if keys is Err {
        Err(keys->Err_0)
    } else if !accounts[TRADER as int].is_signer
        || !accounts[TRADER as int].is_writable
        || !accounts[W_SOL as int].is_writable
        || !accounts[TEMPORARY_W_SOL as int].is_writable
        || !accounts[ANY_MINT as int].is_writable
        || !accounts[TEMPORARY_ANY_MINT as int].is_writable
        || !accounts[POOL_BASE as int].is_writable
        || !accounts[POOL_QUOTE as int].is_writable
        || !accounts[FEE_RECIPIENT_TOKEN_ACCOUNT as int].is_writable {
        Err(fail(Error::InvalidAccountConfigurationFlags))
    } else if accounts[ANY_MINT as int].data@.len() != 165 {
        Err(fail(Error::InvalidAccountData))
    } else if reserve is Err {
        Err(reserve->Err_0)
    } else if accounts[TRADER as int].lamports < reserve->Ok_0 + fees.sell_on_pumpswap {
        Err(fail(Error::InvalidAccountLamports))
    } else if record is Err {
        Err(record->Err_0)
    } else if !record->Ok_0.is_initialized {
        Err(fail(Error::IntermediaryIsNotInitialized))
    } else if accounts[TRADER as int].key != record->Ok_0.trader_pubkey {
        Err(fail(Error::IntermediaryInvalidInvestor))
    } else if accounts[W_SOL as int].key != record->Ok_0.w_sol_token_account_pubkey {
        Err(fail(Error::IntermediaryInvalidWSolTokenAccount))
    } else if accounts[TEMPORARY_W_SOL as int].key
        != record->Ok_0.temporary_w_sol_token_account_pubkey {
        Err(fail(Error::IntermediaryInvalidTemporaryWSolTokenAccount))
    } else if holding is Err {
        Err(holding->Err_0)
    } else if input_token_amount > holding->Ok_0.amount {
        Err(fail(Error::TokenAccountInsufficientAmount))
    } else if accounts[QUOTE_TOKEN_PROGRAM as int].key != token_program_id() {
        Err(ProgramFailure::IncorrectProgramId)
    } else if input_token_amount == holding->Ok_0.amount {
        Ok(
            DirectiveView::Continue {
                actions: sell_on_pumpswap_plan_whole(
                    accounts,
                    input_token_amount,
                    minimum_output_token_amount,
                    record->Ok_0,
                    reserve->Ok_0,
                ),
                progress: Progress::SellOnPumpswapSwapped { partial: false },
            },
        )
    } else if accounts[BASE_TOKEN_PROGRAM as int].key != token_program_id() {
        Err(ProgramFailure::IncorrectProgramId)
    } else {
        Ok(
            DirectiveView::Continue {
                actions: sell_on_pumpswap_plan_part(
                    accounts,
                    input_token_amount,
                    minimum_output_token_amount,
                    temporary_any_mint_token_account_pubkey_bump_seed,
                    record->Ok_0,
                    reserve->Ok_0,
                ),
                progress: Progress::SellOnPumpswapSwapped { partial: true },
            },
        )
    }
}

/// What the last step of a sale asks for: the temporary wrapped-value account,
/// which holds the proceeds, and the source, now empty, are closed in favour of
/// the wrapped-value account, whose token amount is then set to the native
/// value it holds.
pub open spec fn sell_on_pumpswap_closing(accounts: Seq<AccountView>, partial: bool) -> Seq<
    ActionView,
> {
    seq![
        invoke(
            token_close_account_call(
                accounts[QUOTE_TOKEN_PROGRAM as int].key,
                accounts[TEMPORARY_W_SOL as int].key,
                accounts[W_SOL as int].key,
                accounts[TRADER as int].key,
            ),
            seq![TEMPORARY_W_SOL, W_SOL, TRADER],
        ),
        invoke(
            token_close_account_call(
                accounts[BASE_TOKEN_PROGRAM as int].key,
                accounts[sell_on_pumpswap_source(partial) as int].key,
                accounts[W_SOL as int].key,
                accounts[TRADER as int].key,
            ),
            seq![sell_on_pumpswap_source(partial), W_SOL, TRADER],
        ),
        invoke(
            token_sync_native_call(accounts[TOKEN_PROGRAM as int].key, accounts[W_SOL as int].key),
            seq![W_SOL],
        ),
    ]
}

/// The last step of `SellOnPumpswap`, after the exchange was called: where a
/// minimum is asked for, the temporary wrapped-value account must read and hold
/// it; the source must read and hold nothing.
pub open spec fn sell_on_pumpswap_settle(
    accounts: Seq<AccountView>,
    partial: bool,
    minimum_output_token_amount: Option<u64>,
) -> Step {
    let proceeds = token_balance_spec(accounts[TEMPORARY_W_SOL as int].data@);
    let source = token_balance_spec(accounts[sell_on_pumpswap_source(partial) as int].data@);
    if accounts.len() < ACCOUNTS {
        Err(ProgramFailure::NotEnoughAccountKeys)
    } else if minimum_output_token_amount is Some && proceeds is Err {
        Err(proceeds->Err_0)
    } else if minimum_output_token_amount is Some && proceeds->Ok_0.amount
        < minimum_output_token_amount->0 {
        Err(fail(Error::TokenAccountInvalidAmount))
    } else if source is Err {
        Err(source->Err_0)
    } else if source->Ok_0.amount != 0 {
        Err(fail(Error::TokenAccountInvalidAmount))
    } else if accounts[QUOTE_TOKEN_PROGRAM as int].key != token_program_id()
        || accounts[BASE_TOKEN_PROGRAM as int].key != token_program_id()
        || accounts[TOKEN_PROGRAM as int].key != token_program_id() {
        Err(ProgramFailure::IncorrectProgramId)
    } else {
        Ok(DirectiveView::Finish { actions: sell_on_pumpswap_closing(accounts, partial) })
    }
}

/// `SellOnPumpswap`, step by step. A step that is not one of its own is an
/// invalid argument.
pub open spec fn sell_on_pumpswap_spec(
    fees: FeeSchedule,
    accounts: Seq<AccountView>,
    progress: Progress,
    input_token_amount: u64,
    minimum_output_token_amount: Option<u64>,
    any_mint_token_account_pubkey_bump_seed: u8,
    temporary_any_mint_token_account_pubkey_bump_seed: u8,
) -> Step {
    match progress {
        Progress::Start => sell_on_pumpswap_start(
            fees,
            accounts,
            input_token_amount,
            minimum_output_token_amount,
            any_mint_token_account_pubkey_bump_seed,
            temporary_any_mint_token_account_pubkey_bump_seed,
        ),
        Progress::SellOnPumpswapSwapped { partial } => sell_on_pumpswap_settle(
            accounts,
            partial,
            minimum_output_token_amount,
        ),
        _ => Err(ProgramFailure::InvalidArgument),
    }
}

impl Processor {
    fn sell_on_pumpswap_keys(
        accounts: &[AccountView],
        any_mint_token_account_pubkey_bump_seed: u8,
        temporary_any_mint_token_account_pubkey_bump_seed: u8,
    ) -> (r: Result<(), ProgramFailure>)
        requires
            accounts@.len() >= ACCOUNTS,
        ensures
            r == sell_on_pumpswap_keys(
                accounts@,
                any_mint_token_account_pubkey_bump_seed,
                temporary_any_mint_token_account_pubkey_bump_seed,
            ),
    {
        if !pumpswap_distinct(accounts) {
            return Err(ProgramFailure::Custom(Error::InvalidAccountPubkey));
        }
        check_derived(
            &(AnyMintTokenAccountAddressResolver {
                any_mint_token_mint_pubkey: &accounts[TOKEN_MINT].key,
                intermediary_pubkey: &accounts[INTERMEDIARY].key,
            }),
            any_mint_token_account_pubkey_bump_seed,
            &accounts[ANY_MINT].key,
        )?;
        check_derived(
            &(TemporaryAnyMintTokenAccountAddressResolver {
                any_mint_token_account_pubkey: &accounts[ANY_MINT].key,
                intermediary_pubkey: &accounts[INTERMEDIARY].key,
            }),
            temporary_any_mint_token_account_pubkey_bump_seed,
            &accounts[TEMPORARY_ANY_MINT].key,
        )?;
        if accounts[TOKEN_MINT].key == accounts[W_SOL_MINT].key
            || accounts[W_SOL_MINT].key != Address::native_mint()
            || accounts[SYSTEM_PROGRAM].key != Address::system_program()
            || accounts[RENT].key != Address::rent_sysvar()
            || accounts[TOKEN_PROGRAM].key != Address::token_program()
            || accounts[PUMPSWAP_PROGRAM].key != Address::pumpswap_program()
            || accounts[ASSOCIATED_TOKEN_PROGRAM].key
                != Address::associated_token_account_program() {
            return Err(ProgramFailure::Custom(Error::InvalidAccountPubkey));
        }
        Ok(())
    }

    fn sell_on_pumpswap_start(
        &self,
        accounts: &[AccountView],
        input_token_amount: u64,
        minimum_output_token_amount: Option<u64>,
        any_mint_token_account_pubkey_bump_seed: u8,
        temporary_any_mint_token_account_pubkey_bump_seed: u8,
    ) -> (r: Result<Directive, ProgramFailure>)
        ensures
            is_step(
                r,
                sell_on_pumpswap_start(
                    self.fees,
                    accounts@,
                    input_token_amount,
                    minimum_output_token_amount,
                    any_mint_token_account_pubkey_bump_seed,
                    temporary_any_mint_token_account_pubkey_bump_seed,
                ),
            ),
    {
        if accounts.len() < ACCOUNTS {
            return Err(ProgramFailure::NotEnoughAccountKeys);
        }
        Processor::sell_on_pumpswap_keys(
            accounts,
            any_mint_token_account_pubkey_bump_seed,
            temporary_any_mint_token_account_pubkey_bump_seed,
        )?;
        if !accounts[TRADER].is_signer
            || !accounts[TRADER].is_writable
            || !accounts[W_SOL].is_writable
            || !accounts[TEMPORARY_W_SOL].is_writable
            || !accounts[ANY_MINT].is_writable
            || !accounts[TEMPORARY_ANY_MINT].is_writable
            || !accounts[POOL_BASE].is_writable
            || !accounts[POOL_QUOTE].is_writable
            || !accounts[FEE_RECIPIENT_TOKEN_ACCOUNT].is_writable {
            return Err(ProgramFailure::Custom(Error::InvalidAccountConfigurationFlags));
        }
        if accounts[ANY_MINT].data.len() != 165 {
            return Err(ProgramFailure::Custom(Error::InvalidAccountData));
        }
        let reserve = rent_reserve(&accounts[RENT], 165)?;
        if (accounts[TRADER].lamports as u128)
            < reserve as u128 + self.fees.sell_on_pumpswap as u128 {
            return Err(ProgramFailure::Custom(Error::InvalidAccountLamports));
        }
        let record = read_record(&accounts[INTERMEDIARY])?;
        if !record.is_initialized {
            return Err(ProgramFailure::Custom(Error::IntermediaryIsNotInitialized));
        }
        if accounts[TRADER].key != record.trader_pubkey {
            return Err(ProgramFailure::Custom(Error::IntermediaryInvalidInvestor));
        }
        if accounts[W_SOL].key != record.w_sol_token_account_pubkey {
            return Err(ProgramFailure::Custom(Error::IntermediaryInvalidWSolTokenAccount));
        }
        if accounts[TEMPORARY_W_SOL].key != record.temporary_w_sol_token_account_pubkey {
            return Err(ProgramFailure::Custom(Error::IntermediaryInvalidTemporaryWSolTokenAccount));
        }
        let holding = token_balance(&accounts[ANY_MINT])?;
        if input_token_amount > holding.amount {
            return Err(ProgramFailure::Custom(Error::TokenAccountInsufficientAmount));
        }
        let partial = input_token_amount != holding.amount;
        let minimum = match minimum_output_token_amount {
            Some(m) => m,
            None => 0,
        };
        let mut actions = no_actions();
        push_invoke_signed(
            &mut actions,
            system_create_account(
                &accounts[TRADER].key,
                &accounts[TEMPORARY_W_SOL].key,
                reserve,
                165,
                &accounts[QUOTE_TOKEN_PROGRAM].key,
            ),
            vec![TRADER, TEMPORARY_W_SOL],
            (TemporaryWSolTokenAccountAddressResolver {
                w_sol_token_account_pubkey: &accounts[W_SOL].key,
            }).get_seeds(),
            record.temporary_w_sol_token_account_pubkey_bump_seed,
        );
        push_invoke(
            &mut actions,
            token_call(token_initialize_account(
                &accounts[QUOTE_TOKEN_PROGRAM].key,
                &accounts[TEMPORARY_W_SOL].key,
                &accounts[W_SOL_MINT].key,
                &accounts[TRADER].key,
            ))?,
            vec![TEMPORARY_W_SOL, W_SOL_MINT, TRADER, RENT],
        );
        let source: usize = if partial {
            push_invoke_signed(
                &mut actions,
                system_create_account(
                    &accounts[TRADER].key,
                    &accounts[TEMPORARY_ANY_MINT].key,
                    reserve,
                    165,
                    &accounts[BASE_TOKEN_PROGRAM].key,
                ),
                vec![TRADER, TEMPORARY_ANY_MINT],
                (TemporaryAnyMintTokenAccountAddressResolver {
                    any_mint_token_account_pubkey: &accounts[ANY_MINT].key,
                    intermediary_pubkey: &accounts[INTERMEDIARY].key,
                }).get_seeds(),
                temporary_any_mint_token_account_pubkey_bump_seed,
            );
            push_invoke(
                &mut actions,
                token_call(token_initialize_account(
                    &accounts[BASE_TOKEN_PROGRAM].key,
                    &accounts[TEMPORARY_ANY_MINT].key,
                    &accounts[TOKEN_MINT].key,
                    &accounts[TRADER].key,
                ))?,
                vec![TEMPORARY_ANY_MINT, TOKEN_MINT, TRADER, RENT],
            );
            push_invoke(
                &mut actions,
                token_call(token_transfer(
                    &accounts[BASE_TOKEN_PROGRAM].key,
                    &accounts[ANY_MINT].key,
                    &accounts[TEMPORARY_ANY_MINT].key,
                    &accounts[TRADER].key,
                    input_token_amount,
                ))?,
                vec![ANY_MINT, TEMPORARY_ANY_MINT, TRADER],
            );
            5
        } else {
            4
        };
        push_invoke(
            &mut actions,
            create_pumpswap_sell_instruction(
                &accounts[PUMPSWAP_PROGRAM].key,
                &accounts[POOL].key,
                &accounts[TRADER].key,
                &accounts[GLOBAL_CONFIG].key,
                &accounts[TOKEN_MINT].key,
                &accounts[W_SOL_MINT].key,
                &accounts[source].key,
                &accounts[TEMPORARY_W_SOL].key,
                &accounts[POOL_BASE].key,
                &accounts[POOL_QUOTE].key,
                &accounts[FEE_RECIPIENT].key,
                &accounts[FEE_RECIPIENT_TOKEN_ACCOUNT].key,
                &accounts[BASE_TOKEN_PROGRAM].key,
                &accounts[QUOTE_TOKEN_PROGRAM].key,
                &accounts[EVENT_AUTHORITY].key,
                input_token_amount,
                minimum,
            ),
            vec![
                POOL,
                TRADER,
                GLOBAL_CONFIG,
                TOKEN_MINT,
                W_SOL_MINT,
                source,
                TEMPORARY_W_SOL,
                POOL_BASE,
                POOL_QUOTE,
                FEE_RECIPIENT,
                FEE_RECIPIENT_TOKEN_ACCOUNT,
                BASE_TOKEN_PROGRAM,
                QUOTE_TOKEN_PROGRAM,
                SYSTEM_PROGRAM,
                ASSOCIATED_TOKEN_PROGRAM,
                EVENT_AUTHORITY,
                PUMPSWAP_PROGRAM,
            ],
        );
        proof {
            if partial {
                assert(actions_view(actions@) =~~= sell_on_pumpswap_plan_part(
                    accounts@,
                    input_token_amount,
                    minimum_output_token_amount,
                    temporary_any_mint_token_account_pubkey_bump_seed,
                    record,
                    reserve,
                ));
            } else {
                assert(actions_view(actions@) =~~= sell_on_pumpswap_plan_whole(
                    accounts@,
                    input_token_amount,
                    minimum_output_token_amount,
                    record,
                    reserve,
                ));
            }
        }
        Ok(Directive::Continue { actions, progress: Progress::SellOnPumpswapSwapped { partial } })
    }

    fn sell_on_pumpswap_settle(
        accounts: &[AccountView],
        partial: bool,
        minimum_output_token_amount: Option<u64>,
    ) -> (r: Result<Directive, ProgramFailure>)
        ensures
            is_step(r, sell_on_pumpswap_settle(accounts@, partial, minimum_output_token_amount)),
    {
        if accounts.len() < ACCOUNTS {
            return Err(ProgramFailure::NotEnoughAccountKeys);
        }
        match minimum_output_token_amount {
            Some(minimum) => {
                if token_balance(&accounts[TEMPORARY_W_SOL])?.amount < minimum {
                    return Err(ProgramFailure::Custom(Error::TokenAccountInvalidAmount));
                }
            },
            None => {},
        }
        let source: usize = if partial {
            TEMPORARY_ANY_MINT
        } else {
            ANY_MINT
        };
        if token_balance(&accounts[source])?.amount != 0 {
            return Err(ProgramFailure::Custom(Error::TokenAccountInvalidAmount));
        }
        let mut actions = no_actions();
        push_invoke(
            &mut actions,
            token_call(token_close_account(
                &accounts[QUOTE_TOKEN_PROGRAM].key,
                &accounts[TEMPORARY_W_SOL].key,
                &accounts[W_SOL].key,
                &accounts[TRADER].key,
            ))?,
            vec![TEMPORARY_W_SOL, W_SOL, TRADER],
        );
        push_invoke(
            &mut actions,
            token_call(token_close_account(
                &accounts[BASE_TOKEN_PROGRAM].key,
                &accounts[source].key,
                &accounts[W_SOL].key,
                &accounts[TRADER].key,
            ))?,
            vec![source, W_SOL, TRADER],
        );
        push_invoke(
            &mut actions,
            token_call(token_sync_native(&accounts[TOKEN_PROGRAM].key, &accounts[W_SOL].key))?,
            vec![W_SOL],
        );
        assert(actions_view(actions@) =~~= sell_on_pumpswap_closing(accounts@, partial));
        Ok(Directive::Finish { actions })
    }

    /// Sells tokens of another mint on the second exchange for wrapped value
    /// into the treasury, by the will of the trader.
    pub fn sell_on_pumpswap(
        &self,
        accounts: &[AccountView],
        progress: &Progress,
        input_token_amount: u64,
        minimum_output_token_amount: Option<u64>,
        any_mint_token_account_pubkey_bump_seed: u8,
        temporary_any_mint_token_account_pubkey_bump_seed: u8,
    ) -> (r: Result<Directive, ProgramFailure>)
        ensures
            is_step(
                r,
                sell_on_pumpswap_spec(
                    self.fees,
                    accounts@,
                    *progress,
                    input_token_amount,
                    minimum_output_token_amount,
                    any_mint_token_account_pubkey_bump_seed,
                    temporary_any_mint_token_account_pubkey_bump_seed,
                ),
            ),
    {
        match progress {
            Progress::Start => self.sell_on_pumpswap_start(
                accounts,
                input_token_amount,
                minimum_output_token_amount,
                any_mint_token_account_pubkey_bump_seed,
                temporary_any_mint_token_account_pubkey_bump_seed,
            ),
            Progress::SellOnPumpswapSwapped { partial } => Processor::sell_on_pumpswap_settle(
                accounts,
                *partial,
                minimum_output_token_amount,
            ),
            _ => Err(ProgramFailure::InvalidArgument),
        }
    }
}

/// A sale on the second exchange without a minimum goes through or not
/// whatever the temporary wrapped-value account holds after the exchange: no
/// output is too small.
pub proof fn lemma_sell_on_pumpswap_without_minimum(
    accounts: Seq<AccountView>,
    other: Seq<AccountView>,
    partial: bool,
)
    requires
        same_but_for(accounts, other, 3),
    ensures
        sell_on_pumpswap_settle(accounts, partial, None) == sell_on_pumpswap_settle(
            other,
            partial,
            None,
        ),
{
    if accounts.len() >= ACCOUNTS {
        assert(forall|i: int| 0 <= i < 22 ==> accounts[i].key == other[i].key);
        assert(sell_on_pumpswap_closing(accounts, partial) =~~= sell_on_pumpswap_closing(
            other,
            partial,
        ));
    }
}

/// A sale on the second exchange with a minimum fails as an invalid amount
/// where the temporary wrapped-value account, which was created empty, holds
/// less than the minimum after the exchange.
pub proof fn lemma_sell_on_pumpswap_with_minimum(
    accounts: Seq<AccountView>,
    partial: bool,
    minimum: u64,
)
    requires
        accounts.len() >= ACCOUNTS,
        token_balance_spec(accounts[TEMPORARY_W_SOL as int].data@) is Ok,
        token_balance_spec(accounts[TEMPORARY_W_SOL as int].data@)->Ok_0.amount < minimum,
    ensures
        sell_on_pumpswap_settle(accounts, partial, Some(minimum)) == refused(
            Error::TokenAccountInvalidAmount,
        ),
{
}

} // verus!
