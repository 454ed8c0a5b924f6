use crate::address::{
    associated_token_account_program_id, keys_distinct, native_mint_id, pumpswap_program_id,
    rent_sysvar_id, system_program_id, token_program_id, Address,
};
use crate::error::{Error, ProgramFailure};
use crate::extern_source::{create_pumpswap_buy_instruction, pumpswap_buy_call};
use crate::message::AccountView;
use crate::processor::command::Processor;
use crate::processor::plan::{
    actions_view, check_derived, derived_key_check, fail, invoke, invoke_signed, is_step,
    no_actions, push_invoke, push_invoke_signed, read_record, record_spec, rent_reserve,
    rent_reserve_spec, token_balance, token_balance_spec, token_call, ActionView, Directive,
    DirectiveView, FeeSchedule, Progress, Step,
};
use crate::resolver::{
    AnyMintTokenAccountAddressResolver, ProgramDerivedAddress,
    TemporaryWSolTokenAccountAddressResolver, WSolTokenAccountAuthorityAddressResolver,
};
use crate::state::Intermediary;
use crate::subsystem::{
    system_create_account, system_create_account_call, token_close_account,
    token_close_account_call, token_initialize_account, token_initialize_account_call,
    token_sync_native, token_sync_native_call, token_transfer, token_transfer_call,
};
use crate::processor::pumpswap::{
    pumpswap_distinct, pumpswap_keys, ACCOUNTS, ASSOCIATED_TOKEN_PROGRAM, BASE_TOKEN_PROGRAM,
    EVENT_AUTHORITY, GLOBAL_CONFIG, POOL, POOL_BASE, POOL_QUOTE, FEE_RECIPIENT,
    FEE_RECIPIENT_TOKEN_ACCOUNT, PUMPSWAP_PROGRAM, QUOTE_TOKEN_PROGRAM,
};
use vstd::prelude::*;

verus! {

/// The trader, who signs and pays.
pub const TRADER: usize = 0;

/// The custody record.
pub const INTERMEDIARY: usize = 1;

/// The wrapped-value account.
pub const W_SOL: usize = 2;

/// The authority over the wrapped-value account.
pub const W_SOL_AUTHORITY: usize = 3;

/// The temporary wrapped-value account.
pub const TEMPORARY_W_SOL: usize = 4;

/// The account that holds the tokens of the other mint.
pub const ANY_MINT: usize = 5;

/// The mint of wrapped value.
pub const W_SOL_MINT: usize = 6;

/// The other mint.
pub const TOKEN_MINT: usize = 7;

/// The system program.
pub const SYSTEM_PROGRAM: usize = 8;

/// The account that holds the rent parameters.
pub const RENT: usize = 9;

/// The token program.
pub const TOKEN_PROGRAM: usize = 10;


/// What the first step of `BuyOnPumpswap` asks for: the temporary wrapped-value
/// account is created under the trader and takes the most that may be spent
/// from the wrapped-value account, the account for the bought tokens is created
/// under the trader, and the exchange is called to buy into it, paid from the
/// temporary account, by the will of the trader.
pub open spec fn buy_on_pumpswap_plan(
    accounts: Seq<AccountView>,
    base_amount_out: u64,
    maximum_quote_amount_in: u64,
    any_mint_token_account_pubkey_bump_seed: u8,
    record: Intermediary,
    reserve: u64,
) -> Seq<ActionView> {
    seq![
        invoke_signed(
            system_create_account_call(
                accounts[TRADER as int].key,
                accounts[TEMPORARY_W_SOL as int].key,
                reserve,
                165,
                accounts[QUOTE_TOKEN_PROGRAM as int].key,
            ),
            seq![TRADER, TEMPORARY_W_SOL],
            (TemporaryWSolTokenAccountAddressResolver {
                w_sol_token_account_pubkey: &accounts[W_SOL as int].key,
            }).seeds(),
            record.temporary_w_sol_token_account_pubkey_bump_seed,
        ),
        invoke(
            token_initialize_account_call(
                accounts[QUOTE_TOKEN_PROGRAM as int].key,
                accounts[TEMPORARY_W_SOL as int].key,
                accounts[W_SOL_MINT as int].key,
                accounts[TRADER as int].key,
            ),
            seq![TEMPORARY_W_SOL, W_SOL_MINT, TRADER, RENT],
        ),
        invoke_signed(
            token_transfer_call(
                accounts[TOKEN_PROGRAM as int].key,
                accounts[W_SOL as int].key,
                accounts[TEMPORARY_W_SOL as int].key,
                accounts[W_SOL_AUTHORITY as int].key,
                maximum_quote_amount_in,
            ),
            seq![W_SOL, TEMPORARY_W_SOL, W_SOL_AUTHORITY],
            (WSolTokenAccountAuthorityAddressResolver {
                w_sol_token_account_pubkey: &accounts[W_SOL as int].key,
                intermediary_pubkey: &accounts[INTERMEDIARY as int].key,
            }).seeds(),
            record.w_sol_token_account_authority_pubkey_bump_seed,
        ),
        invoke_signed(
            system_create_account_call(
                accounts[TRADER as int].key,
                accounts[ANY_MINT as int].key,
                reserve,
                165,
                accounts[BASE_TOKEN_PROGRAM as int].key,
            ),
            seq![TRADER, ANY_MINT],
            (AnyMintTokenAccountAddressResolver {
                any_mint_token_mint_pubkey: &accounts[TOKEN_MINT as int].key,
                intermediary_pubkey: &accounts[INTERMEDIARY as int].key,
            }).seeds(),
            any_mint_token_account_pubkey_bump_seed,
        ),
        invoke(
            token_initialize_account_call(
                accounts[QUOTE_TOKEN_PROGRAM as int].key,
                accounts[ANY_MINT as int].key,
                accounts[TOKEN_MINT as int].key,
                accounts[TRADER as int].key,
            ),
            seq![ANY_MINT, TOKEN_MINT, TRADER, RENT],
        ),
        invoke(
            pumpswap_buy_call(
                accounts[PUMPSWAP_PROGRAM as int].key,
                accounts[POOL as int].key,
                accounts[TRADER as int].key,
                accounts[GLOBAL_CONFIG as int].key,
                accounts[TOKEN_MINT as int].key,
                accounts[W_SOL_MINT as int].key,
                accounts[ANY_MINT as int].key,
                accounts[TEMPORARY_W_SOL as int].key,
                accounts[POOL_BASE as int].key,
                accounts[POOL_QUOTE as int].key,
                accounts[FEE_RECIPIENT as int].key,
                accounts[FEE_RECIPIENT_TOKEN_ACCOUNT as int].key,
                accounts[BASE_TOKEN_PROGRAM as int].key,
                accounts[QUOTE_TOKEN_PROGRAM as int].key,
                accounts[EVENT_AUTHORITY as int].key,
                base_amount_out,
                maximum_quote_amount_in,
            ),
            seq![
                POOL,
                TRADER,
                GLOBAL_CONFIG,
                TOKEN_MINT,
                W_SOL_MINT,
                ANY_MINT,
                TEMPORARY_W_SOL,
                POOL_BASE,
                POOL_QUOTE,
                FEE_RECIPIENT,
                FEE_RECIPIENT_TOKEN_ACCOUNT,
                BASE_TOKEN_PROGRAM,
                QUOTE_TOKEN_PROGRAM,
                SYSTEM_PROGRAM,
                ASSOCIATED_TOKEN_PROGRAM,
                EVENT_AUTHORITY,
                PUMPSWAP_PROGRAM,
            ],
        ),
    ]
}

/// Whether the accounts of `BuyOnPumpswap` are different ones, the account for
/// the bought tokens is the one that its seeds and the claimed bump give, the
/// bought mint is not the mint of wrapped value, and the well-known accounts are
/// the mint of wrapped value, the system program, the rent account, the token
/// program, the exchange and the associated token account program.
pub open spec fn buy_on_pumpswap_keys(
    accounts: Seq<AccountView>,
    any_mint_token_account_pubkey_bump_seed: u8,
) -> Result<(), ProgramFailure> {
    let any_mint = derived_key_check(
        (AnyMintTokenAccountAddressResolver {
            any_mint_token_mint_pubkey: &accounts[TOKEN_MINT as int].key,
            intermediary_pubkey: &accounts[INTERMEDIARY as int].key,
        }).seeds(),
        any_mint_token_account_pubkey_bump_seed,
        accounts[ANY_MINT as int].key,
    );
    if !keys_distinct(pumpswap_keys(accounts), 20) {
        Err(fail(Error::InvalidAccountPubkey))
    } else if any_mint is Err {
        any_mint
    } else if accounts[W_SOL_MINT as int].key == accounts[TOKEN_MINT as int].key
        || accounts[W_SOL_MINT as int].key != native_mint_id()
        || accounts[SYSTEM_PROGRAM as int].key != system_program_id()
        || accounts[RENT as int].key != rent_sysvar_id()
        || accounts[TOKEN_PROGRAM as int].key != token_program_id()
        || accounts[PUMPSWAP_PROGRAM as int].key != pumpswap_program_id()
        || accounts[ASSOCIATED_TOKEN_PROGRAM as int].key != associated_token_account_program_id() {
        Err(fail(Error::InvalidAccountPubkey))
    } else {
        Ok(())
    }
}

/// The first step of `BuyOnPumpswap`. The first check that fails decides: the
/// count of accounts; their addresses; that the trader signs and that the
/// accounts which the command or the exchange changes may be changed; the rent
/// account; that the trader holds two reserves and the fee; that the record
/// reads, is initialized, and names this trader, this wrapped-value account,
/// its authority and this temporary account; that the wrapped-value account
/// reads and holds the most that may be spent; that the token program which
/// the exchange is told of for wrapped value is the token program.
pub open spec fn buy_on_pumpswap_start(
    fees: FeeSchedule,
    accounts: Seq<AccountView>,
    base_amount_out: u64,
    maximum_quote_amount_in: u64,
    any_mint_token_account_pubkey_bump_seed: u8,
) -> Step {
    let keys = buy_on_pumpswap_keys(accounts, any_mint_token_account_pubkey_bump_seed);
    let reserve = rent_reserve_spec(accounts[RENT as int], 165);
    let record = record_spec(accounts[INTERMEDIARY as int].data@);
    let balance = token_balance_spec(accounts[W_SOL as int].data@);
    if accounts.len() < ACCOUNTS {
        Err(ProgramFailure::NotEnoughAccountKeys)
    } else if keys is Err {
        Err(keys->Err_0)
    } else if !accounts[TRADER as int].is_signer
        || !accounts[TRADER as int].is_writable
        || !accounts[W_SOL as int].is_writable
        || !accounts[TEMPORARY_W_SOL as int].is_writable
        || !accounts[ANY_MINT as int].is_writable
        || !accounts[POOL_BASE as int].is_writable
        || !accounts[POOL_QUOTE as int].is_writable
        || !accounts[FEE_RECIPIENT_TOKEN_ACCOUNT as int].is_writable {
        Err(fail(Error::InvalidAccountConfigurationFlags))
    } else if reserve is Err {
        Err(reserve->Err_0)
    } else if accounts[TRADER as int].lamports < 2 * reserve->Ok_0 + fees.buy_on_pumpswap {
        Err(fail(Error::InvalidAccountLamports))
    } else if record is Err {
        Err(record->Err_0)
    } else if !record->Ok_0.is_initialized {
        Err(fail(Error::IntermediaryIsNotInitialized))
    } else if accounts[TRADER as int].key != record->Ok_0.trader_pubkey {
        Err(fail(Error::IntermediaryInvalidInvestor))
    } else if accounts[W_SOL as int].key != record->Ok_0.w_sol_token_account_pubkey {
        Err(fail(Error::IntermediaryInvalidWSolTokenAccount))
    } else if accounts[W_SOL_AUTHORITY as int].key
        != record->Ok_0.w_sol_token_account_authority_pubkey {
        Err(fail(Error::IntermediaryInvalidWSolTokenAccountAuthority))
    } else if accounts[TEMPORARY_W_SOL as int].key
        != record->Ok_0.temporary_w_sol_token_account_pubkey {
        Err(fail(Error::IntermediaryInvalidTemporaryWSolTokenAccount))
    } else if balance is Err {
        Err(balance->Err_0)
    } else if maximum_quote_amount_in > balance->Ok_0.amount {
        Err(fail(Error::TokenAccountInsufficientAmount))
    } else if accounts[QUOTE_TOKEN_PROGRAM as int].key != token_program_id() {
        Err(ProgramFailure::IncorrectProgramId)
    } else {
        Ok(
            DirectiveView::Continue {
                actions: buy_on_pumpswap_plan(
                    accounts,
                    base_amount_out,
                    maximum_quote_amount_in,
                    any_mint_token_account_pubkey_bump_seed,
                    record->Ok_0,
                    reserve->Ok_0,
                ),
                progress: Progress::BuyOnPumpswapSwapped,
            },
        )
    }
}

/// What the last step of a purchase asks for: the temporary wrapped-value
/// account is closed in favour of the wrapped-value account, whose token amount
/// is then set to the native value it holds.
pub open spec fn buy_on_pumpswap_closing(accounts: Seq<AccountView>) -> Seq<ActionView> {
    seq![
        invoke(
            token_close_account_call(
                accounts[QUOTE_TOKEN_PROGRAM as int].key,
                accounts[TEMPORARY_W_SOL as int].key,
                accounts[W_SOL as int].key,
                accounts[TRADER as int].key,
            ),
            seq![TEMPORARY_W_SOL, W_SOL, TRADER],
        ),
        invoke(
            token_sync_native_call(accounts[TOKEN_PROGRAM as int].key, accounts[W_SOL as int].key),
            seq![W_SOL],
        ),
    ]
}

/// The last step of `BuyOnPumpswap`, after the exchange was called: the account
/// for the bought tokens must read and hold what was to be bought; the
/// temporary wrapped-value account must read and hold nothing.
pub open spec fn buy_on_pumpswap_settle(accounts: Seq<AccountView>, base_amount_out: u64) -> Step {
    let output = token_balance_spec(accounts[ANY_MINT as int].data@);
    let residue = token_balance_spec(accounts[TEMPORARY_W_SOL as int].data@);
    if accounts.len() < ACCOUNTS {
        Err(ProgramFailure::NotEnoughAccountKeys)
    } else if output is Err {
        Err(output->Err_0)
    } else if output->Ok_0.amount < base_amount_out {
        Err(fail(Error::TokenAccountInvalidAmount))
    } else if residue is Err {
        Err(residue->Err_0)
    } else if residue->Ok_0.amount != 0 {
        Err(fail(Error::TokenAccountInvalidAmount))
    } else if accounts[QUOTE_TOKEN_PROGRAM as int].key != token_program_id()
        || accounts[TOKEN_PROGRAM as int].key != token_program_id() {
        Err(ProgramFailure::IncorrectProgramId)
    } else {
        Ok(DirectiveView::Finish { actions: buy_on_pumpswap_closing(accounts) })
    }
}

/// `BuyOnPumpswap`, step by step. A step that is not one of its own is an
/// invalid argument.
pub open spec fn buy_on_pumpswap_spec(
    fees: FeeSchedule,
    accounts: Seq<AccountView>,
    progress: Progress,
    base_amount_out: u64,
    maximum_quote_amount_in: u64,
    any_mint_token_account_pubkey_bump_seed: u8,
) -> Step {
    match progress {
        Progress::Start => buy_on_pumpswap_start(
            fees,
            accounts,
            base_amount_out,
            maximum_quote_amount_in,
            any_mint_token_account_pubkey_bump_seed,
        ),
        Progress::BuyOnPumpswapSwapped => buy_on_pumpswap_settle(accounts, base_amount_out),
        _ => Err(ProgramFailure::InvalidArgument),
    }
}

impl Processor {
    fn buy_on_pumpswap_keys(
        accounts: &[AccountView],
        any_mint_token_account_pubkey_bump_seed: u8,
    ) -> (r: Result<(), ProgramFailure>)
        requires
            accounts@.len() >= ACCOUNTS,
        ensures
            r == buy_on_pumpswap_keys(accounts@, any_mint_token_account_pubkey_bump_seed),
    {
        if !pumpswap_distinct(accounts) {
            return Err(ProgramFailure::Custom(Error::InvalidAccountPubkey));
        }
        check_derived(
            &(AnyMintTokenAccountAddressResolver {
                any_mint_token_mint_pubkey: &accounts[TOKEN_MINT].key,
                intermediary_pubkey: &accounts[INTERMEDIARY].key,
            }),
            any_mint_token_account_pubkey_bump_seed,
            &accounts[ANY_MINT].key,
        )?;
        if accounts[W_SOL_MINT].key == accounts[TOKEN_MINT].key
            || accounts[W_SOL_MINT].key != Address::native_mint()
            || accounts[SYSTEM_PROGRAM].key != Address::system_program()
            || accounts[RENT].key != Address::rent_sysvar()
            || accounts[TOKEN_PROGRAM].key != Address::token_program()
            || accounts[PUMPSWAP_PROGRAM].key != Address::pumpswap_program()
            || accounts[ASSOCIATED_TOKEN_PROGRAM].key
                != Address::associated_token_account_program() {
            return Err(ProgramFailure::Custom(Error::InvalidAccountPubkey));
        }
        Ok(())
    }

    fn buy_on_pumpswap_start(
        &self,
        accounts: &[AccountView],
        base_amount_out: u64,
        maximum_quote_amount_in: u64,
        any_mint_token_account_pubkey_bump_seed: u8,
    ) -> (r: Result<Directive, ProgramFailure>)
        ensures
            is_step(
                r,
                buy_on_pumpswap_start(
                    self.fees,
                    accounts@,
                    base_amount_out,
                    maximum_quote_amount_in,
                    any_mint_token_account_pubkey_bump_seed,
                ),
            ),
    {
        if accounts.len() < ACCOUNTS {
            return Err(ProgramFailure::NotEnoughAccountKeys);
        }
        Processor::buy_on_pumpswap_keys(accounts, any_mint_token_account_pubkey_bump_seed)?;
        if !accounts[TRADER].is_signer
            || !accounts[TRADER].is_writable
            || !accounts[W_SOL].is_writable
            || !accounts[TEMPORARY_W_SOL].is_writable
            || !accounts[ANY_MINT].is_writable
            || !accounts[POOL_BASE].is_writable
            || !accounts[POOL_QUOTE].is_writable
            || !accounts[FEE_RECIPIENT_TOKEN_ACCOUNT].is_writable {
            return Err(ProgramFailure::Custom(Error::InvalidAccountConfigurationFlags));
        }
        let reserve = rent_reserve(&accounts[RENT], 165)?;
        if (accounts[TRADER].lamports as u128)
            < 2 * (reserve as u128) + self.fees.buy_on_pumpswap as u128 {
            return Err(ProgramFailure::Custom(Error::InvalidAccountLamports));
        }
        let record = read_record(&accounts[INTERMEDIARY])?;
        if !record.is_initialized {
            return Err(ProgramFailure::Custom(Error::IntermediaryIsNotInitialized));
        }
        if accounts[TRADER].key != record.trader_pubkey {
            return Err(ProgramFailure::Custom(Error::IntermediaryInvalidInvestor));
        }
        if accounts[W_SOL].key != record.w_sol_token_account_pubkey {
            return Err(ProgramFailure::Custom(Error::IntermediaryInvalidWSolTokenAccount));
        }
        if accounts[W_SOL_AUTHORITY].key != record.w_sol_token_account_authority_pubkey {
            return Err(ProgramFailure::Custom(Error::IntermediaryInvalidWSolTokenAccountAuthority));
        }
        if accounts[TEMPORARY_W_SOL].key != record.temporary_w_sol_token_account_pubkey {
            return Err(ProgramFailure::Custom(Error::IntermediaryInvalidTemporaryWSolTokenAccount));
        }
        let balance = token_balance(&accounts[W_SOL])?;
        if maximum_quote_amount_in > balance.amount {
            return Err(ProgramFailure::Custom(Error::TokenAccountInsufficientAmount));
        }
        let mut actions = no_actions();
        push_invoke_signed(
            &mut actions,
            system_create_account(
                &accounts[TRADER].key,
                &accounts[TEMPORARY_W_SOL].key,
                reserve,
                165,
                &accounts[QUOTE_TOKEN_PROGRAM].key,
            ),
            vec![TRADER, TEMPORARY_W_SOL],
            (TemporaryWSolTokenAccountAddressResolver {
                w_sol_token_account_pubkey: &accounts[W_SOL].key,
            }).get_seeds(),
            record.temporary_w_sol_token_account_pubkey_bump_seed,
        );
        push_invoke(
            &mut actions,
            token_call(token_initialize_account(
                &accounts[QUOTE_TOKEN_PROGRAM].key,
                &accounts[TEMPORARY_W_SOL].key,
                &accounts[W_SOL_MINT].key,
                &accounts[TRADER].key,
            ))?,
            vec![TEMPORARY_W_SOL, W_SOL_MINT, TRADER, RENT],
        );
        push_invoke_signed(
            &mut actions,
            token_call(token_transfer(
                &accounts[TOKEN_PROGRAM].key,
                &accounts[W_SOL].key,
                &accounts[TEMPORARY_W_SOL].key,
                &accounts[W_SOL_AUTHORITY].key,
                maximum_quote_amount_in,
            ))?,
            vec![W_SOL, TEMPORARY_W_SOL, W_SOL_AUTHORITY],
            (WSolTokenAccountAuthorityAddressResolver {
                w_sol_token_account_pubkey: &accounts[W_SOL].key,
                intermediary_pubkey: &accounts[INTERMEDIARY].key,
            }).get_seeds(),
            record.w_sol_token_account_authority_pubkey_bump_seed,
        );
        push_invoke_signed(
            &mut actions,
            system_create_account(
                &accounts[TRADER].key,
                &accounts[ANY_MINT].key,
                reserve,
                165,
                &accounts[BASE_TOKEN_PROGRAM].key,
            ),
            vec![TRADER, ANY_MINT],
            (AnyMintTokenAccountAddressResolver {
                any_mint_token_mint_pubkey: &accounts[TOKEN_MINT].key,
                intermediary_pubkey: &accounts[INTERMEDIARY].key,
            }).get_seeds(),
            any_mint_token_account_pubkey_bump_seed,
        );
        push_invoke(
            &mut actions,
            token_call(token_initialize_account(
                &accounts[QUOTE_TOKEN_PROGRAM].key,
                &accounts[ANY_MINT].key,
                &accounts[TOKEN_MINT].key,
                &accounts[TRADER].key,
            ))?,
            vec![ANY_MINT, TOKEN_MINT, TRADER, RENT],
        );
        push_invoke(
            &mut actions,
            create_pumpswap_buy_instruction(
                &accounts[PUMPSWAP_PROGRAM].key,
                &accounts[POOL].key,
                &accounts[TRADER].key,
                &accounts[GLOBAL_CONFIG].key,
                &accounts[TOKEN_MINT].key,
                &accounts[W_SOL_MINT].key,
                &accounts[ANY_MINT].key,
                &accounts[TEMPORARY_W_SOL].key,
                &accounts[POOL_BASE].key,
                &accounts[POOL_QUOTE].key,
                &accounts[FEE_RECIPIENT].key,
                &accounts[FEE_RECIPIENT_TOKEN_ACCOUNT].key,
                &accounts[BASE_TOKEN_PROGRAM].key,
                &accounts[QUOTE_TOKEN_PROGRAM].key,
                &accounts[EVENT_AUTHORITY].key,
                base_amount_out,
                maximum_quote_amount_in,
            ),
            vec![
                POOL,
                TRADER,
                GLOBAL_CONFIG,
                TOKEN_MINT,
                W_SOL_MINT,
                ANY_MINT,
                TEMPORARY_W_SOL,
                POOL_BASE,
                POOL_QUOTE,
                FEE_RECIPIENT,
                FEE_RECIPIENT_TOKEN_ACCOUNT,
                BASE_TOKEN_PROGRAM,
                QUOTE_TOKEN_PROGRAM,
                SYSTEM_PROGRAM,
                ASSOCIATED_TOKEN_PROGRAM,
                EVENT_AUTHORITY,
                PUMPSWAP_PROGRAM,
            ],
        );
        assert(actions_view(actions@) =~~= buy_on_pumpswap_plan(
            accounts@,
            base_amount_out,
            maximum_quote_amount_in,
            any_mint_token_account_pubkey_bump_seed,
            record,
            reserve,
        ));
        Ok(Directive::Continue { actions, progress: Progress::BuyOnPumpswapSwapped })
    }

    fn buy_on_pumpswap_settle(accounts: &[AccountView], base_amount_out: u64) -> (r: Result<
        Directive,
        ProgramFailure,
    >)
        ensures
            is_step(r, buy_on_pumpswap_settle(accounts@, base_amount_out)),
    {
        if accounts.len() < ACCOUNTS {
            return Err(ProgramFailure::NotEnoughAccountKeys);
        }
        if token_balance(&accounts[ANY_MINT])?.amount < base_amount_out {
            return Err(ProgramFailure::Custom(Error::TokenAccountInvalidAmount));
        }
        if token_balance(&accounts[TEMPORARY_W_SOL])?.amount != 0 {
            return Err(ProgramFailure::Custom(Error::TokenAccountInvalidAmount));
        }
        let mut actions = no_actions();
        push_invoke(
            &mut actions,
            token_call(token_close_account(
                &accounts[QUOTE_TOKEN_PROGRAM].key,
                &accounts[TEMPORARY_W_SOL].key,
                &accounts[W_SOL].key,
                &accounts[TRADER].key,
            ))?,
            vec![TEMPORARY_W_SOL, W_SOL, TRADER],
        );
        push_invoke(
            &mut actions,
            token_call(token_sync_native(&accounts[TOKEN_PROGRAM].key, &accounts[W_SOL].key))?,
            vec![W_SOL],
        );
        assert(actions_view(actions@) =~~= buy_on_pumpswap_closing(accounts@));
        Ok(Directive::Finish { actions })
    }

    /// Buys tokens of another mint on the second exchange with wrapped value
    /// from the treasury, by the will of the trader.
    pub fn buy_on_pumpswap(
        &self,
        accounts: &[AccountView],
        progress: &Progress,
        base_amount_out: u64,
        maximum_quote_amount_in: u64,
        any_mint_token_account_pubkey_bump_seed: u8,
    ) -> (r: Result<Directive, ProgramFailure>)
        ensures
            is_step(
                r,
                buy_on_pumpswap_spec(
                    self.fees,
                    accounts@,
                    *progress,
                    base_amount_out,
                    maximum_quote_amount_in,
                    any_mint_token_account_pubkey_bump_seed,
                ),
            ),
    {
        match progress {
            Progress::Start => self.buy_on_pumpswap_start(
                accounts,
                base_amount_out,
                maximum_quote_amount_in,
                any_mint_token_account_pubkey_bump_seed,
            ),
            Progress::BuyOnPumpswapSwapped => Processor::buy_on_pumpswap_settle(
                accounts,
                base_amount_out,
            ),
            _ => Err(ProgramFailure::InvalidArgument),
        }
    }
}

/// A purchase on the second exchange ends only where the exchange has
/// delivered what was to be bought and spent all that it was given; the
/// temporary wrapped-value account is then closed in favour of the
/// wrapped-value account, and that account's token amount is set anew.
pub proof fn lemma_buy_on_pumpswap_ends_with_the_temporary_account_closed(
    accounts: Seq<AccountView>,
    base_amount_out: u64,
)
    requires
        buy_on_pumpswap_settle(accounts, base_amount_out) is Ok,
    ensures
        ({
            let step = buy_on_pumpswap_settle(accounts, base_amount_out)->Ok_0;
            &&& token_balance_spec(accounts[ANY_MINT as int].data@)->Ok_0.amount >= base_amount_out
            &&& token_balance_spec(accounts[TEMPORARY_W_SOL as int].data@)->Ok_0.amount == 0
            &&& step is Finish
            &&& step.actions().len() == 2
            &&& step.actions()[0]->instruction == token_close_account_call(
                token_program_id(),
                accounts[TEMPORARY_W_SOL as int].key,
                accounts[W_SOL as int].key,
                accounts[TRADER as int].key,
            )
            &&& step.actions()[1]->instruction == token_sync_native_call(
                token_program_id(),
                accounts[W_SOL as int].key,
            )
        }),
{
}

} // verus!
