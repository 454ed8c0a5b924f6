use crate::address::{
    keys_distinct, native_mint_id, rent_sysvar_id, system_program_id, token_program_id, Address,
};
use crate::error::{Error, ProgramFailure};
use crate::message::AccountView;
use crate::processor::command::Processor;
use crate::processor::plan::{
    actions_view, asked, fail, invoke, invoke_signed, is_step, refused, leading_distinct,
    leading_keys, no_actions, push_invoke, push_invoke_signed, read_record, record_spec,
    rent_reserve, rent_reserve_spec, token_balance, token_balance_spec, token_call, ActionView,
    Directive, DirectiveView, FeeSchedule, Progress, Step,
};
use crate::resolver::{
    ProgramDerivedAddress, TemporaryWSolTokenAccountAddressResolver,
    TemporaryWSolTokenAccountAuthorityAddressResolver, WSolTokenAccountAuthorityAddressResolver,
};
use crate::state::Intermediary;
use crate::subsystem::{
    system_create_account, system_create_account_call, token_close_account,
    token_close_account_call, token_initialize_account, token_initialize_account_call,
    token_transfer, token_transfer_call,
};
use vstd::prelude::*;

verus! {

/// How many accounts the command takes.
pub const ACCOUNTS: usize = 10;

/// The investor, who signs and pays.
pub const INVESTOR: usize = 0;

/// The custody record.
pub const INTERMEDIARY: usize = 1;

/// The wrapped-value account.
pub const W_SOL: usize = 2;

/// The authority over the wrapped-value account.
pub const W_SOL_AUTHORITY: usize = 3;

/// The temporary wrapped-value account.
pub const TEMPORARY_W_SOL: usize = 4;

/// The authority over the temporary wrapped-value account.
pub const TEMPORARY_W_SOL_AUTHORITY: usize = 5;

/// The mint of wrapped value.
pub const W_SOL_MINT: usize = 6;

/// The system program.
pub const SYSTEM_PROGRAM: usize = 7;

/// The account that holds the rent parameters.
pub const RENT: usize = 8;

/// The token program.
pub const TOKEN_PROGRAM: usize = 9;

/// What `WithdrawFunds` asks for: the temporary account is created with the
/// reserve from the investor's funds and made a token account of the wrapped
/// mint, the amount is moved into it from the wrapped-value account, and it is
/// closed in favour of the investor.
pub open spec fn withdraw_funds_plan(
    accounts: Seq<AccountView>,
    lamports_from_treasury: u64,
    record: Intermediary,
    reserve: u64,
) -> Seq<ActionView> {
    seq![
        invoke_signed(
            system_create_account_call(
                accounts[INVESTOR as int].key,
                accounts[TEMPORARY_W_SOL as int].key,
                reserve,
                165,
                accounts[TOKEN_PROGRAM as int].key,
            ),
            seq![INVESTOR, TEMPORARY_W_SOL],
            (TemporaryWSolTokenAccountAddressResolver {
                w_sol_token_account_pubkey: &accounts[W_SOL as int].key,
            }).seeds(),
            record.temporary_w_sol_token_account_pubkey_bump_seed,
        ),
        invoke(
            token_initialize_account_call(
                accounts[TOKEN_PROGRAM as int].key,
                accounts[TEMPORARY_W_SOL as int].key,
                accounts[W_SOL_MINT as int].key,
                accounts[TEMPORARY_W_SOL_AUTHORITY as int].key,
            ),
            seq![TEMPORARY_W_SOL, W_SOL_MINT, TEMPORARY_W_SOL_AUTHORITY, RENT],
        ),
        invoke_signed(
            token_transfer_call(
                accounts[TOKEN_PROGRAM as int].key,
                accounts[W_SOL as int].key,
                accounts[TEMPORARY_W_SOL as int].key,
                accounts[W_SOL_AUTHORITY as int].key,
                lamports_from_treasury,
            ),
            seq![W_SOL, TEMPORARY_W_SOL, W_SOL_AUTHORITY],
            (WSolTokenAccountAuthorityAddressResolver {
                w_sol_token_account_pubkey: &accounts[W_SOL as int].key,
                intermediary_pubkey: &accounts[INTERMEDIARY as int].key,
            }).seeds(),
            record.w_sol_token_account_authority_pubkey_bump_seed,
        ),
        invoke_signed(
            token_close_account_call(
                accounts[TOKEN_PROGRAM as int].key,
                accounts[TEMPORARY_W_SOL as int].key,
                accounts[INVESTOR as int].key,
                accounts[TEMPORARY_W_SOL_AUTHORITY as int].key,
            ),
            seq![TEMPORARY_W_SOL, INVESTOR, TEMPORARY_W_SOL_AUTHORITY],
            (TemporaryWSolTokenAccountAuthorityAddressResolver {
                temporary_w_sol_token_account_pubkey: &accounts[TEMPORARY_W_SOL as int].key,
                intermediary_pubkey: &accounts[INTERMEDIARY as int].key,
            }).seeds(),
            record.temporary_w_sol_token_account_authority_pubkey_bump_seed,
        ),
    ]
}

/// `WithdrawFunds`. The first check that fails decides: the count of accounts;
/// that the ten are different accounts, the last four the mint of wrapped
/// value, the system program, the rent account and the token program; that the
/// investor signs and may be changed, as may the wrapped-value account and the
/// temporary one; that the record reads, is initialized, and names this
/// investor and these four sub-accounts; that the wrapped-value account reads
/// and holds the amount; the rent account; that the investor holds the reserve
/// and the fee.
pub open spec fn withdraw_funds_spec(
    fees: FeeSchedule,
    accounts: Seq<AccountView>,
    progress: Progress,
    lamports_from_treasury: u64,
) -> Step {
    let record = record_spec(accounts[INTERMEDIARY as int].data@);
    let balance = token_balance_spec(accounts[W_SOL as int].data@);
    let reserve = rent_reserve_spec(accounts[RENT as int], 165);
    if progress != Progress::Start {
        Err(ProgramFailure::InvalidArgument)
    } else if accounts.len() < ACCOUNTS {
        Err(ProgramFailure::NotEnoughAccountKeys)
    } else if !keys_distinct(leading_keys(accounts, ACCOUNTS as int), ACCOUNTS as int)
        || accounts[W_SOL_MINT as int].key != native_mint_id()
        || accounts[SYSTEM_PROGRAM as int].key != system_program_id()
        || accounts[RENT as int].key != rent_sysvar_id()
        || accounts[TOKEN_PROGRAM as int].key != token_program_id() {
        Err(fail(Error::InvalidAccountPubkey))
    } else if !accounts[INVESTOR as int].is_writable
        || !accounts[INVESTOR as int].is_signer
        || !accounts[W_SOL as int].is_writable
        || !accounts[TEMPORARY_W_SOL as int].is_writable {
        Err(fail(Error::InvalidAccountConfigurationFlags))
    } else if record is Err {
        Err(record->Err_0)
    } else if !record->Ok_0.is_initialized {
        Err(fail(Error::IntermediaryIsNotInitialized))
    } else if accounts[INVESTOR as int].key != record->Ok_0.investor_pubkey {
        Err(fail(Error::IntermediaryInvalidInvestor))
    } else if accounts[W_SOL as int].key != record->Ok_0.w_sol_token_account_pubkey {
        Err(fail(Error::IntermediaryInvalidWSolTokenAccount))
    } else if accounts[W_SOL_AUTHORITY as int].key
        != record->Ok_0.w_sol_token_account_authority_pubkey {
        Err(fail(Error::IntermediaryInvalidWSolTokenAccountAuthority))
    } else if accounts[TEMPORARY_W_SOL as int].key
        != record->Ok_0.temporary_w_sol_token_account_pubkey {
        Err(fail(Error::IntermediaryInvalidTemporaryWSolTokenAccount))
    } else if accounts[TEMPORARY_W_SOL_AUTHORITY as int].key
        != record->Ok_0.temporary_w_sol_token_account_authority_pubkey {
        Err(fail(Error::IntermediaryInvalidTemporaryWSolTokenAccountAuthority))
    } else if balance is Err {
        Err(balance->Err_0)
    } else if lamports_from_treasury > balance->Ok_0.amount {
        Err(fail(Error::TokenAccountInsufficientAmount))
    } else if reserve is Err {
        Err(reserve->Err_0)
    } else if accounts[INVESTOR as int].lamports < reserve->Ok_0 + fees.withdraw_funds {
        Err(fail(Error::InvalidAccountLamports))
    } else {
        Ok(
            DirectiveView::Finish {
                actions: withdraw_funds_plan(
                    accounts,
                    lamports_from_treasury,
                    record->Ok_0,
                    reserve->Ok_0,
                ),
            },
        )
    }
}

impl Processor {
    /// Pays out of the treasury to the investor.
    pub fn withdraw_funds(
        &self,
        accounts: &[AccountView],
        progress: &Progress,
        lamports_from_treasury: u64,
    ) -> (r: Result<Directive, ProgramFailure>)
        ensures
            is_step(
                r,
                withdraw_funds_spec(self.fees, accounts@, *progress, lamports_from_treasury),
            ),
    {
        match progress {
            Progress::Start => {},
            _ => {
                return Err(ProgramFailure::InvalidArgument);
            },
        }
        if accounts.len() < ACCOUNTS {
            return Err(ProgramFailure::NotEnoughAccountKeys);
        }
        if !leading_distinct(accounts, ACCOUNTS)
            || accounts[W_SOL_MINT].key != Address::native_mint()
            || accounts[SYSTEM_PROGRAM].key != Address::system_program()
            || accounts[RENT].key != Address::rent_sysvar()
            || accounts[TOKEN_PROGRAM].key != Address::token_program() {
            return Err(ProgramFailure::Custom(Error::InvalidAccountPubkey));
        }
        if !accounts[INVESTOR].is_writable
            || !accounts[INVESTOR].is_signer
            || !accounts[W_SOL].is_writable
            || !accounts[TEMPORARY_W_SOL].is_writable {
            return Err(ProgramFailure::Custom(Error::InvalidAccountConfigurationFlags));
        }
        let record = read_record(&accounts[INTERMEDIARY])?;
        if !record.is_initialized {
            return Err(ProgramFailure::Custom(Error::IntermediaryIsNotInitialized));
        }
        if accounts[INVESTOR].key != record.investor_pubkey {
            return Err(ProgramFailure::Custom(Error::IntermediaryInvalidInvestor));
        }
        if accounts[W_SOL].key != record.w_sol_token_account_pubkey {
            return Err(ProgramFailure::Custom(Error::IntermediaryInvalidWSolTokenAccount));
        }
        if accounts[W_SOL_AUTHORITY].key != record.w_sol_token_account_authority_pubkey {
            return Err(ProgramFailure::Custom(Error::IntermediaryInvalidWSolTokenAccountAuthority));
        }
        if accounts[TEMPORARY_W_SOL].key != record.temporary_w_sol_token_account_pubkey {
            return Err(ProgramFailure::Custom(Error::IntermediaryInvalidTemporaryWSolTokenAccount));
        }
        if accounts[TEMPORARY_W_SOL_AUTHORITY].key
            != record.temporary_w_sol_token_account_authority_pubkey {
            return Err(
                ProgramFailure::Custom(
                    Error::IntermediaryInvalidTemporaryWSolTokenAccountAuthority,
                ),
            );
        }
        let balance = token_balance(&accounts[W_SOL])?;
        if lamports_from_treasury > balance.amount {
            return Err(ProgramFailure::Custom(Error::TokenAccountInsufficientAmount));
        }
        let reserve = rent_reserve(&accounts[RENT], 165)?;
        if (accounts[INVESTOR].lamports as u128)
            < reserve as u128 + self.fees.withdraw_funds as u128 {
            return Err(ProgramFailure::Custom(Error::InvalidAccountLamports));
        }
        let mut actions = no_actions();
        push_invoke_signed(
            &mut actions,
            system_create_account(
                &accounts[INVESTOR].key,
                &accounts[TEMPORARY_W_SOL].key,
                reserve,
                165,
                &accounts[TOKEN_PROGRAM].key,
            ),
            vec![INVESTOR, TEMPORARY_W_SOL],
            (TemporaryWSolTokenAccountAddressResolver {
                w_sol_token_account_pubkey: &accounts[W_SOL].key,
            }).get_seeds(),
            record.temporary_w_sol_token_account_pubkey_bump_seed,
        );
        push_invoke(
            &mut actions,
            token_call(token_initialize_account(
                &accounts[TOKEN_PROGRAM].key,
                &accounts[TEMPORARY_W_SOL].key,
                &accounts[W_SOL_MINT].key,
                &accounts[TEMPORARY_W_SOL_AUTHORITY].key,
            ))?,
            vec![TEMPORARY_W_SOL, W_SOL_MINT, TEMPORARY_W_SOL_AUTHORITY, RENT],
        );
        push_invoke_signed(
            &mut actions,
            token_call(token_transfer(
                &accounts[TOKEN_PROGRAM].key,
                &accounts[W_SOL].key,
                &accounts[TEMPORARY_W_SOL].key,
                &accounts[W_SOL_AUTHORITY].key,
                lamports_from_treasury,
            ))?,
            vec![W_SOL, TEMPORARY_W_SOL, W_SOL_AUTHORITY],
            (WSolTokenAccountAuthorityAddressResolver {
                w_sol_token_account_pubkey: &accounts[W_SOL].key,
                intermediary_pubkey: &accounts[INTERMEDIARY].key,
            }).get_seeds(),
            record.w_sol_token_account_authority_pubkey_bump_seed,
        );
        push_invoke_signed(
            &mut actions,
            token_call(token_close_account(
                &accounts[TOKEN_PROGRAM].key,
                &accounts[TEMPORARY_W_SOL].key,
                &accounts[INVESTOR].key,
                &accounts[TEMPORARY_W_SOL_AUTHORITY].key,
            ))?,
            vec![TEMPORARY_W_SOL, INVESTOR, TEMPORARY_W_SOL_AUTHORITY],
            (TemporaryWSolTokenAccountAuthorityAddressResolver {
                temporary_w_sol_token_account_pubkey: &accounts[TEMPORARY_W_SOL].key,
                intermediary_pubkey: &accounts[INTERMEDIARY].key,
            }).get_seeds(),
            record.temporary_w_sol_token_account_authority_pubkey_bump_seed,
        );
        assert(actions_view(actions@) =~~= withdraw_funds_plan(
            accounts@,
            lamports_from_treasury,
            record,
            reserve,
        ));
        Ok(Directive::Finish { actions })
    }
}

/// The accounts of a withdrawal pass all that is asked of them before the
/// treasury is looked at: they are ten different accounts, the well-known ones
/// in their places; the investor signs and may be changed, as may the
/// wrapped-value account and the temporary one; the record reads as `record`,
/// is initialized, and names the investor and the four sub-accounts.
pub open spec fn withdraw_funds_presentable(
    accounts: Seq<AccountView>,
    record: Intermediary,
) -> bool {
    &&& accounts.len() >= ACCOUNTS
    &&& keys_distinct(leading_keys(accounts, ACCOUNTS as int), ACCOUNTS as int)
    &&& accounts[W_SOL_MINT as int].key == native_mint_id()
    &&& accounts[SYSTEM_PROGRAM as int].key == system_program_id()
    &&& accounts[RENT as int].key == rent_sysvar_id()
    &&& accounts[TOKEN_PROGRAM as int].key == token_program_id()
    &&& accounts[INVESTOR as int].is_writable
    &&& accounts[INVESTOR as int].is_signer
    &&& accounts[W_SOL as int].is_writable
    &&& accounts[TEMPORARY_W_SOL as int].is_writable
    &&& Intermediary::decode_spec(accounts[INTERMEDIARY as int].data@) == Some(record)
    &&& record.is_initialized
    &&& accounts[INVESTOR as int].key == record.investor_pubkey
    &&& accounts[W_SOL as int].key == record.w_sol_token_account_pubkey
    &&& accounts[W_SOL_AUTHORITY as int].key == record.w_sol_token_account_authority_pubkey
    &&& accounts[TEMPORARY_W_SOL as int].key == record.temporary_w_sol_token_account_pubkey
    &&& accounts[TEMPORARY_W_SOL_AUTHORITY as int].key
        == record.temporary_w_sol_token_account_authority_pubkey
}

/// No withdrawal goes through for more than the treasury holds, whatever else
/// is true of its accounts; and one that is refused asks for nothing to be
/// done.
pub proof fn lemma_withdraw_funds_stays_within_the_treasury(
    fees: FeeSchedule,
    accounts: Seq<AccountView>,
    progress: Progress,
    lamports_from_treasury: u64,
)
    ensures
        withdraw_funds_spec(fees, accounts, progress, lamports_from_treasury) is Ok ==> {
            &&& token_balance_spec(accounts[W_SOL as int].data@) is Ok
            &&& lamports_from_treasury <= token_balance_spec(
                accounts[W_SOL as int].data@,
            )->Ok_0.amount
        },
{
}

/// Of a withdrawal whose accounts are presentable: for more than the treasury
/// holds it fails as an insufficient amount, whatever the investor holds; for
/// no more than that, and with the reserve and the fee in the investor's hands,
/// it asks for the temporary account to be created, for exactly the amount to
/// be moved into it from the wrapped-value account, and for it to be closed in
/// favour of the investor.
pub proof fn lemma_withdraw_funds_by_amount(
    fees: FeeSchedule,
    accounts: Seq<AccountView>,
    record: Intermediary,
    lamports_from_treasury: u64,
)
    requires
        withdraw_funds_presentable(accounts, record),
        token_balance_spec(accounts[W_SOL as int].data@) is Ok,
    ensures
        lamports_from_treasury > token_balance_spec(accounts[W_SOL as int].data@)->Ok_0.amount
            ==> withdraw_funds_spec(fees, accounts, Progress::Start, lamports_from_treasury)
            == refused(Error::TokenAccountInsufficientAmount),
        lamports_from_treasury <= token_balance_spec(
            accounts[W_SOL as int].data@,
        )->Ok_0.amount ==> (rent_reserve_spec(accounts[RENT as int], 165) matches Ok(reserve)
            ==> accounts[INVESTOR as int].lamports >= reserve
            + fees.withdraw_funds ==> {
            let step = withdraw_funds_spec(fees, accounts, Progress::Start, lamports_from_treasury);
            &&& step == asked(
                DirectiveView::Finish {
                    actions: withdraw_funds_plan(accounts, lamports_from_treasury, record, reserve),
                },
            )
            &&& step->Ok_0.actions().len() == 4
            &&& step->Ok_0.actions()[2]->instruction == token_transfer_call(
                accounts[TOKEN_PROGRAM as int].key,
                record.w_sol_token_account_pubkey,
                record.temporary_w_sol_token_account_pubkey,
                record.w_sol_token_account_authority_pubkey,
                lamports_from_treasury,
            )
            &&& step->Ok_0.actions()[3]->instruction == token_close_account_call(
                accounts[TOKEN_PROGRAM as int].key,
                record.temporary_w_sol_token_account_pubkey,
                record.investor_pubkey,
                record.temporary_w_sol_token_account_authority_pubkey,
            )
        }),
{
}

} // verus!
