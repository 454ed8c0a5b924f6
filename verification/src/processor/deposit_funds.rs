use crate::address::{keys_distinct, system_program_id, token_program_id, Address};
use crate::error::{Error, ProgramFailure};
use crate::message::AccountView;
use crate::processor::command::Processor;
use crate::processor::plan::{
    actions_view, fail, invoke, is_step, leading_distinct, leading_keys, no_actions, push_invoke,
    read_record, record_spec, token_call, ActionView, Directive, DirectiveView, FeeSchedule,
    Progress, Step,
};
use crate::state::Intermediary;
use crate::subsystem::{
    system_transfer, system_transfer_call, token_sync_native, token_sync_native_call,
};
use vstd::prelude::*;

verus! {

/// How many accounts the command takes.
pub const ACCOUNTS: usize = 5;

/// The investor, who signs and pays.
pub const INVESTOR: usize = 0;

/// The custody record.
pub const INTERMEDIARY: usize = 1;

/// The wrapped-value account.
pub const W_SOL: usize = 2;

/// The system program.
pub const SYSTEM_PROGRAM: usize = 3;

/// The token program.
pub const TOKEN_PROGRAM: usize = 4;

/// What `DepositFunds` asks for: the amount is moved from the investor to the
/// wrapped-value account as native value, and the account's token amount is
/// then set to the native value it holds.
pub open spec fn deposit_funds_plan(accounts: Seq<AccountView>, lamports_to_treasury: u64) -> Seq<
    ActionView,
> {
    seq![
        invoke(
            system_transfer_call(
                accounts[INVESTOR as int].key,
                accounts[W_SOL as int].key,
                lamports_to_treasury,
            ),
            seq![INVESTOR, W_SOL],
        ),
        invoke(
            token_sync_native_call(accounts[TOKEN_PROGRAM as int].key, accounts[W_SOL as int].key),
            seq![W_SOL],
        ),
    ]
}

/// `DepositFunds`. The first check that fails decides: the count of accounts;
/// that the five are different accounts, the last two the system program and
/// the token program; that the investor signs and may be changed, as may the
/// wrapped-value account; that the investor holds the amount and the fee; that
/// the record reads, is initialized, and names this investor and this
/// wrapped-value account.
pub open spec fn deposit_funds_spec(
    fees: FeeSchedule,
    accounts: Seq<AccountView>,
    progress: Progress,
    lamports_to_treasury: u64,
) -> Step {
    let record = record_spec(accounts[INTERMEDIARY as int].data@);
    if progress != Progress::Start {
        Err(ProgramFailure::InvalidArgument)
    } else if accounts.len() < ACCOUNTS {
        Err(ProgramFailure::NotEnoughAccountKeys)
    } else if !keys_distinct(leading_keys(accounts, ACCOUNTS as int), ACCOUNTS as int)
        || accounts[SYSTEM_PROGRAM as int].key != system_program_id()
        || accounts[TOKEN_PROGRAM as int].key != token_program_id() {
        Err(fail(Error::InvalidAccountPubkey))
    } else if !accounts[INVESTOR as int].is_writable
        || !accounts[INVESTOR as int].is_signer
        || !accounts[W_SOL as int].is_writable {
        Err(fail(Error::InvalidAccountConfigurationFlags))
    } else if accounts[INVESTOR as int].lamports < lamports_to_treasury + fees.deposit_funds {
        Err(fail(Error::InvalidAccountLamports))
    } else if record is Err {
        Err(record->Err_0)
    } else if !record->Ok_0.is_initialized {
        Err(fail(Error::IntermediaryIsNotInitialized))
    } else if accounts[INVESTOR as int].key != record->Ok_0.investor_pubkey {
        Err(fail(Error::IntermediaryInvalidInvestor))
    } else if accounts[W_SOL as int].key != record->Ok_0.w_sol_token_account_pubkey {
        Err(fail(Error::IntermediaryInvalidWSolTokenAccount))
    } else {
        Ok(DirectiveView::Finish { actions: deposit_funds_plan(accounts, lamports_to_treasury) })
    }
}

impl Processor {
    /// Adds to the treasury from the investor's funds.
    pub fn deposit_funds(
        &self,
        accounts: &[AccountView],
        progress: &Progress,
        lamports_to_treasury: u64,
    ) -> (r: Result<Directive, ProgramFailure>)
        ensures
            is_step(r, deposit_funds_spec(self.fees, accounts@, *progress, lamports_to_treasury)),
    {
        match progress {
            Progress::Start => {},
            _ => {
                return Err(ProgramFailure::InvalidArgument);
            },
        }
        if accounts.len() < ACCOUNTS {
            return Err(ProgramFailure::NotEnoughAccountKeys);
        }
        if !leading_distinct(accounts, ACCOUNTS)
            || accounts[SYSTEM_PROGRAM].key != Address::system_program()
            || accounts[TOKEN_PROGRAM].key != Address::token_program() {
            return Err(ProgramFailure::Custom(Error::InvalidAccountPubkey));
        }
        if !accounts[INVESTOR].is_writable
            || !accounts[INVESTOR].is_signer
            || !accounts[W_SOL].is_writable {
            return Err(ProgramFailure::Custom(Error::InvalidAccountConfigurationFlags));
        }
        if (accounts[INVESTOR].lamports as u128)
            < lamports_to_treasury as u128 + self.fees.deposit_funds as u128 {
            return Err(ProgramFailure::Custom(Error::InvalidAccountLamports));
        }
        let record = read_record(&accounts[INTERMEDIARY])?;
        if !record.is_initialized {
            return Err(ProgramFailure::Custom(Error::IntermediaryIsNotInitialized));
        }
        if accounts[INVESTOR].key != record.investor_pubkey {
            return Err(ProgramFailure::Custom(Error::IntermediaryInvalidInvestor));
        }
        if accounts[W_SOL].key != record.w_sol_token_account_pubkey {
            return Err(ProgramFailure::Custom(Error::IntermediaryInvalidWSolTokenAccount));
        }
        let mut actions = no_actions();
        push_invoke(
            &mut actions,
            system_transfer(&accounts[INVESTOR].key, &accounts[W_SOL].key, lamports_to_treasury),
            vec![INVESTOR, W_SOL],
        );
        push_invoke(
            &mut actions,
            token_call(token_sync_native(&accounts[TOKEN_PROGRAM].key, &accounts[W_SOL].key))?,
            vec![W_SOL],
        );
        assert(actions_view(actions@) =~~= deposit_funds_plan(accounts@, lamports_to_treasury));
        Ok(Directive::Finish { actions })
    }
}

/// Of a deposit that goes through: exactly the amount is moved, from the
/// investor to the wrapped-value account of the record, and the account's token
/// amount is then set anew; a deposit of nothing moves nothing.
pub proof fn lemma_deposit_funds_moves_the_amount(
    fees: FeeSchedule,
    accounts: Seq<AccountView>,
    lamports_to_treasury: u64,
)
    requires
        deposit_funds_spec(fees, accounts, Progress::Start, lamports_to_treasury) is Ok,
    ensures
        ({
            let step = deposit_funds_spec(
                fees,
                accounts,
                Progress::Start,
                lamports_to_treasury,
            )->Ok_0;
            let record = Intermediary::decode_spec(accounts[INTERMEDIARY as int].data@)->0;
            &&& step is Finish
            &&& step.actions().len() == 2
            &&& step.actions()[0]->instruction == system_transfer_call(
                record.investor_pubkey,
                record.w_sol_token_account_pubkey,
                lamports_to_treasury,
            )
            &&& step.actions()[1]->instruction == token_sync_native_call(
                token_program_id(),
                record.w_sol_token_account_pubkey,
            )
        }),
{
}

} // verus!
