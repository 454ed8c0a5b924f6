use crate::address::Address;
use crate::error::ProgramFailure;
use crate::instruction::Instruction;
use crate::message::AccountView;
use crate::processor::buy_on_pumpswap::buy_on_pumpswap_spec;
use crate::processor::buy_on_raydium::buy_on_raydium_spec;
use crate::processor::deposit_funds::deposit_funds_spec;
use crate::processor::initialize::initialize_spec;
use crate::processor::plan::{abandoned, is_step, Directive, FeeSchedule, Progress, Step};
use crate::state::Intermediary;
use crate::processor::roles::{change_manager_spec, change_trader_spec};
use crate::processor::sell_on_pumpswap::sell_on_pumpswap_spec;
use crate::processor::sell_on_raydium::sell_on_raydium_spec;
use crate::processor::withdraw_funds::withdraw_funds_spec;
use vstd::prelude::*;

verus! {

/// The command processor, with the fees it asks for.
#[derive(Clone, Copy, Debug, PartialEq, Eq)]
pub struct Processor {
    pub fees: FeeSchedule,
}

/// The step of the command that `input` holds. A payload that holds no command
/// fails before any account is looked at.
pub open spec fn process_spec(
    fees: FeeSchedule,
    accounts: Seq<AccountView>,
    input: Seq<u8>,
    progress: Progress,
) -> Step {
    match Instruction::decode_spec(input) {
        None => Err(ProgramFailure::BorshIoError),
        Some(
            Instruction::Initialize {
                lamports_to_treasury,
                w_sol_token_account_pubkey_bump_seed,
                w_sol_token_account_authority_pubkey_bump_seed,
                temporary_w_sol_token_account_pubkey_bump_seed,
                temporary_w_sol_token_account_authority_pubkey_bump_seed,
            },
        ) => initialize_spec(
            fees,
            accounts,
            progress,
            lamports_to_treasury,
            w_sol_token_account_pubkey_bump_seed,
            w_sol_token_account_authority_pubkey_bump_seed,
            temporary_w_sol_token_account_pubkey_bump_seed,
            temporary_w_sol_token_account_authority_pubkey_bump_seed,
        ),
        Some(Instruction::DepositFunds { lamports_to_treasury }) => deposit_funds_spec(
            fees,
            accounts,
            progress,
            lamports_to_treasury,
        ),
        Some(Instruction::WithdrawFunds { lamports_from_treasury }) => withdraw_funds_spec(
            fees,
            accounts,
            progress,
            lamports_from_treasury,
        ),
        Some(
            Instruction::BuyOnRaydium {
                input_token_amount,
                minimum_output_token_amount,
                any_mint_token_account_pubkey_bump_seed,
                any_mint_token_account_authority_pubkey_bump_seed,
            },
        ) => buy_on_raydium_spec(
            fees,
            accounts,
            progress,
            input_token_amount,
            minimum_output_token_amount,
            any_mint_token_account_pubkey_bump_seed,
            any_mint_token_account_authority_pubkey_bump_seed,
        ),
        Some(
            Instruction::SellOnRaydium {
                input_token_amount,
                minimum_output_token_amount,
                any_mint_token_account_pubkey_bump_seed,
                any_mint_token_account_authority_pubkey_bump_seed,
                temporary_any_mint_token_account_pubkey_bump_seed,
                temporary_any_mint_token_account_authority_pubkey_bump_seed,
            },
        ) => sell_on_raydium_spec(
            fees,
            accounts,
            progress,
            input_token_amount,
            minimum_output_token_amount,
            any_mint_token_account_pubkey_bump_seed,
            any_mint_token_account_authority_pubkey_bump_seed,
            temporary_any_mint_token_account_pubkey_bump_seed,
            temporary_any_mint_token_account_authority_pubkey_bump_seed,
        ),
        Some(
            Instruction::BuyOnPumpswap {
                base_amount_out,
                maximum_quote_amount_in,
                any_mint_token_account_pubkey_bump_seed,
            },
        ) => buy_on_pumpswap_spec(
            fees,
            accounts,
            progress,
            base_amount_out,
            maximum_quote_amount_in,
            any_mint_token_account_pubkey_bump_seed,
        ),
        Some(
            Instruction::SellOnPumpswap {
                input_token_amount,
                minimum_output_token_amount,
                any_mint_token_account_pubkey_bump_seed,
                temporary_any_mint_token_account_pubkey_bump_seed,
            },
        ) => sell_on_pumpswap_spec(
            fees,
            accounts,
            progress,
            input_token_amount,
            minimum_output_token_amount,
            any_mint_token_account_pubkey_bump_seed,
            temporary_any_mint_token_account_pubkey_bump_seed,
        ),
        Some(Instruction::ChangeManager) => change_manager_spec(fees, accounts, progress),
        Some(Instruction::ChangeTrader) => change_trader_spec(fees, accounts, progress),
    }
}

/// A record that is not initialized takes no command but `Initialize`: every
/// other command that names it, as each does in the second place of its
/// accounts, fails at its first step.
pub proof fn lemma_uninitialized_record_takes_no_command(
    fees: FeeSchedule,
    accounts: Seq<AccountView>,
    input: Seq<u8>,
    record: Intermediary,
)
    requires
        Instruction::decode_spec(input) is Some,
        !(Instruction::decode_spec(input)->0 is Initialize),
        Intermediary::decode_spec(accounts[1].data@) == Some(record),
        !record.is_initialized,
    ensures
        process_spec(fees, accounts, input, Progress::Start) is Err,
{
}

/// A payload that holds no command fails whatever the accounts are.
pub proof fn lemma_malformed_payload_fails(
    fees: FeeSchedule,
    accounts: Seq<AccountView>,
    input: Seq<u8>,
    progress: Progress,
)
    requires
        Instruction::decode_spec(input) is None,
    ensures
        process_spec(fees, accounts, input, progress) == abandoned(ProgramFailure::BorshIoError),
{
}

impl Processor {
    /// A processor that asks for `fees`.
    pub fn new(fees: FeeSchedule) -> (r: Processor)
        ensures
            r.fees == fees,
    {
        Processor { fees }
    }

    /// One step of the command in `input` on `accounts`: what is to be done on
    /// the command's behalf before it is asked for again, or before it has
    /// succeeded; or why it is abandoned. The first call of a command is made
    /// with `Progress::Start`, each later one with the progress that the call
    /// before returned and with the accounts as the actions have left them.
    pub fn process(
        &self,
        program_id: &Address,
        accounts: &[AccountView],
        input: &[u8],
        progress: &Progress,
    ) -> (r: Result<Directive, ProgramFailure>)
        ensures
            is_step(r, process_spec(self.fees, accounts@, input@, *progress)),
    {
        let command = match Instruction::decode(input) {
            Some(command) => command,
            None => {
                return Err(ProgramFailure::BorshIoError);
            },
        };
        match command {
            Instruction::Initialize {
                lamports_to_treasury,
                w_sol_token_account_pubkey_bump_seed,
                w_sol_token_account_authority_pubkey_bump_seed,
                temporary_w_sol_token_account_pubkey_bump_seed,
                temporary_w_sol_token_account_authority_pubkey_bump_seed,
            } => self.initialize(
                accounts,
                progress,
                lamports_to_treasury,
                w_sol_token_account_pubkey_bump_seed,
                w_sol_token_account_authority_pubkey_bump_seed,
                temporary_w_sol_token_account_pubkey_bump_seed,
                temporary_w_sol_token_account_authority_pubkey_bump_seed,
            ),
            Instruction::DepositFunds { lamports_to_treasury } => self.deposit_funds(
                accounts,
                progress,
                lamports_to_treasury,
            ),
            Instruction::WithdrawFunds { lamports_from_treasury } => self.withdraw_funds(
                accounts,
                progress,
                lamports_from_treasury,
            ),
            Instruction::BuyOnRaydium {
                input_token_amount,
                minimum_output_token_amount,
                any_mint_token_account_pubkey_bump_seed,
                any_mint_token_account_authority_pubkey_bump_seed,
            } => self.buy_on_raydium(
                accounts,
                progress,
                input_token_amount,
                minimum_output_token_amount,
                any_mint_token_account_pubkey_bump_seed,
                any_mint_token_account_authority_pubkey_bump_seed,
            ),
            Instruction::SellOnRaydium {
                input_token_amount,
                minimum_output_token_amount,
                any_mint_token_account_pubkey_bump_seed,
                any_mint_token_account_authority_pubkey_bump_seed,
                temporary_any_mint_token_account_pubkey_bump_seed,
                temporary_any_mint_token_account_authority_pubkey_bump_seed,
            } => self.sell_on_raydium(
                accounts,
                progress,
                input_token_amount,
                minimum_output_token_amount,
                any_mint_token_account_pubkey_bump_seed,
                any_mint_token_account_authority_pubkey_bump_seed,
                temporary_any_mint_token_account_pubkey_bump_seed,
                temporary_any_mint_token_account_authority_pubkey_bump_seed,
            ),
            Instruction::BuyOnPumpswap {
                base_amount_out,
                maximum_quote_amount_in,
                any_mint_token_account_pubkey_bump_seed,
            } => self.buy_on_pumpswap(
                accounts,
                progress,
                base_amount_out,
                maximum_quote_amount_in,
                any_mint_token_account_pubkey_bump_seed,
            ),
            Instruction::SellOnPumpswap {
                input_token_amount,
                minimum_output_token_amount,
                any_mint_token_account_pubkey_bump_seed,
                temporary_any_mint_token_account_pubkey_bump_seed,
            } => self.sell_on_pumpswap(
                accounts,
                progress,
                input_token_amount,
                minimum_output_token_amount,
                any_mint_token_account_pubkey_bump_seed,
                temporary_any_mint_token_account_pubkey_bump_seed,
            ),
            Instruction::ChangeManager => self.change_manager(accounts, progress),
            Instruction::ChangeTrader => self.change_trader(accounts, progress),
        }
    }
}

} // verus!
