use crate::address::{keys_distinct, system_program_id, Address};
use crate::error::{Error, ProgramFailure};
use crate::message::AccountView;
use crate::processor::command::Processor;
use crate::processor::plan::{
    actions_view, asked, fail, is_step, refused, leading_distinct, leading_keys, no_actions,
    push_store, read_record, record_spec, ActionView, Directive, DirectiveView, FeeSchedule,
    Progress, Step,
};
use crate::state::Intermediary;
use vstd::prelude::*;

verus! {

/// How many accounts the command takes.
pub const ACCOUNTS: usize = 4;

/// Who signs the change and holds the fee.
pub const SIGNER: usize = 0;

/// The custody record.
pub const INTERMEDIARY: usize = 1;

/// The candidate for the role.
pub const CANDIDATE: usize = 2;

/// The system program.
pub const SYSTEM_PROGRAM: usize = 3;

/// The record with `candidate` as its manager.
pub open spec fn with_manager_pubkey(record: Intermediary, candidate: Address) -> Intermediary {
    Intermediary { manager_pubkey: candidate, ..record }
}

/// `ChangeManager`. The first check that fails decides: the count of accounts; that
/// the four are different accounts, the last the system program; that the
/// investor signs and the record may be changed; that the candidate is owned
/// by the system program, holds no data and holds some value, and the investor
/// holds the fee; that the record reads and is initialized; that the signer is
/// the record's investor; that the candidate holds none of the three roles.
/// The record is then written again with the candidate as its manager.
pub open spec fn change_manager_spec(
    fees: FeeSchedule,
    accounts: Seq<AccountView>,
    progress: Progress,
) -> Step {
    let record = record_spec(accounts[INTERMEDIARY as int].data@);
    if progress != Progress::Start {
        Err(ProgramFailure::InvalidArgument)
    } else if accounts.len() < ACCOUNTS {
        Err(ProgramFailure::NotEnoughAccountKeys)
    } else if !keys_distinct(leading_keys(accounts, ACCOUNTS as int), ACCOUNTS as int)
        || accounts[SYSTEM_PROGRAM as int].key != system_program_id() {
        Err(fail(Error::InvalidAccountPubkey))
    } else if !accounts[SIGNER as int].is_signer || !accounts[INTERMEDIARY as int].is_writable {
        Err(fail(Error::InvalidAccountConfigurationFlags))
    } else if accounts[CANDIDATE as int].owner != accounts[SYSTEM_PROGRAM as int].key {
        Err(fail(Error::InvalidAccountOwner))
    } else if accounts[CANDIDATE as int].data@.len() != 0 {
        Err(fail(Error::InvalidAccountData))
    } else if accounts[SIGNER as int].lamports < fees.change_manager
        || accounts[CANDIDATE as int].lamports == 0 {
        Err(fail(Error::InvalidAccountLamports))
    } else if record is Err {
        Err(record->Err_0)
    } else if !record->Ok_0.is_initialized {
        Err(fail(Error::IntermediaryIsNotInitialized))
    } else if accounts[SIGNER as int].key != record->Ok_0.investor_pubkey {
        Err(fail(Error::IntermediaryInvalidInvestor))
    } else if accounts[CANDIDATE as int].key == record->Ok_0.investor_pubkey
        || accounts[CANDIDATE as int].key == record->Ok_0.manager_pubkey
        || accounts[CANDIDATE as int].key == record->Ok_0.trader_pubkey {
        Err(fail(Error::IntermediaryInvalidManager))
    } else {
        Ok(
            DirectiveView::Finish {
                actions: seq![
                    ActionView::Store {
                        account: INTERMEDIARY,
                        data: with_manager_pubkey(
                            record->Ok_0,
                            accounts[CANDIDATE as int].key,
                        ).encode_spec(),
                    },
                ],
            },
        )
    }
}

/// The record with `candidate` as its trader.
pub open spec fn with_trader_pubkey(record: Intermediary, candidate: Address) -> Intermediary {
    Intermediary { trader_pubkey: candidate, ..record }
}

/// `ChangeTrader`. The first check that fails decides: the count of accounts; that
/// the four are different accounts, the last the system program; that the
/// manager signs and the record may be changed; that the candidate is owned
/// by the system program, holds no data and holds some value, and the manager
/// holds the fee; that the record reads and is initialized; that the signer is
/// the record's manager; that the candidate holds none of the three roles.
/// The record is then written again with the candidate as its trader.
pub open spec fn change_trader_spec(
    fees: FeeSchedule,
    accounts: Seq<AccountView>,
    progress: Progress,
) -> Step {
    let record = record_spec(accounts[INTERMEDIARY as int].data@);
    if progress != Progress::Start {
        Err(ProgramFailure::InvalidArgument)
    } else if accounts.len() < ACCOUNTS {
        Err(ProgramFailure::NotEnoughAccountKeys)
    } else if !keys_distinct(leading_keys(accounts, ACCOUNTS as int), ACCOUNTS as int)
        || accounts[SYSTEM_PROGRAM as int].key != system_program_id() {
        Err(fail(Error::InvalidAccountPubkey))
    } else if !accounts[SIGNER as int].is_signer || !accounts[INTERMEDIARY as int].is_writable {
        Err(fail(Error::InvalidAccountConfigurationFlags))
    } else if accounts[CANDIDATE as int].owner != accounts[SYSTEM_PROGRAM as int].key {
        Err(fail(Error::InvalidAccountOwner))
    } else if accounts[CANDIDATE as int].data@.len() != 0 {
        Err(fail(Error::InvalidAccountData))
    } else if accounts[SIGNER as int].lamports < fees.change_trader
        || accounts[CANDIDATE as int].lamports == 0 {
        Err(fail(Error::InvalidAccountLamports))
    } else if record is Err {
        Err(record->Err_0)
    } else if !record->Ok_0.is_initialized {
        Err(fail(Error::IntermediaryIsNotInitialized))
    } else if accounts[SIGNER as int].key != record->Ok_0.manager_pubkey {
        Err(fail(Error::IntermediaryInvalidManager))
    } else if accounts[CANDIDATE as int].key == record->Ok_0.investor_pubkey
        || accounts[CANDIDATE as int].key == record->Ok_0.manager_pubkey
        || accounts[CANDIDATE as int].key == record->Ok_0.trader_pubkey {
        Err(fail(Error::IntermediaryInvalidTrader))
    } else {
        Ok(
            DirectiveView::Finish {
                actions: seq![
                    ActionView::Store {
                        account: INTERMEDIARY,
                        data: with_trader_pubkey(
                            record->Ok_0,
                            accounts[CANDIDATE as int].key,
                        ).encode_spec(),
                    },
                ],
            },
        )
    }
}

impl Processor {
    /// Puts the candidate in the place of the record's manager.
    pub fn change_manager(&self, accounts: &[AccountView], progress: &Progress) -> (r: Result<
        Directive,
        ProgramFailure,
    >)
        ensures
            is_step(r, change_manager_spec(self.fees, accounts@, *progress)),
    {
        match progress {
            Progress::Start => {},
            _ => {
                return Err(ProgramFailure::InvalidArgument);
            },
        }
        if accounts.len() < ACCOUNTS {
            return Err(ProgramFailure::NotEnoughAccountKeys);
        }
        if !leading_distinct(accounts, ACCOUNTS)
            || accounts[SYSTEM_PROGRAM].key != Address::system_program() {
            return Err(ProgramFailure::Custom(Error::InvalidAccountPubkey));
        }
        if !accounts[SIGNER].is_signer || !accounts[INTERMEDIARY].is_writable {
            return Err(ProgramFailure::Custom(Error::InvalidAccountConfigurationFlags));
        }
        if accounts[CANDIDATE].owner != accounts[SYSTEM_PROGRAM].key {
            return Err(ProgramFailure::Custom(Error::InvalidAccountOwner));
        }
        if accounts[CANDIDATE].data.len() != 0 {
            return Err(ProgramFailure::Custom(Error::InvalidAccountData));
        }
        if accounts[SIGNER].lamports < self.fees.change_manager
            || accounts[CANDIDATE].lamports == 0 {
            return Err(ProgramFailure::Custom(Error::InvalidAccountLamports));
        }
        let mut record = read_record(&accounts[INTERMEDIARY])?;
        if !record.is_initialized {
            return Err(ProgramFailure::Custom(Error::IntermediaryIsNotInitialized));
        }
        if accounts[SIGNER].key != record.investor_pubkey {
            return Err(ProgramFailure::Custom(Error::IntermediaryInvalidInvestor));
        }
        if accounts[CANDIDATE].key == record.investor_pubkey
            || accounts[CANDIDATE].key == record.manager_pubkey
            || accounts[CANDIDATE].key == record.trader_pubkey {
            return Err(ProgramFailure::Custom(Error::IntermediaryInvalidManager));
        }
        let ghost before = record;
        record.manager_pubkey = accounts[CANDIDATE].key;
        assert(record == with_manager_pubkey(before, accounts@[CANDIDATE as int].key));
        let mut actions = no_actions();
        push_store(&mut actions, INTERMEDIARY, record.encode());
        assert(actions_view(actions@) =~~= seq![
            ActionView::Store {
                account: INTERMEDIARY,
                data: with_manager_pubkey(before, accounts@[CANDIDATE as int].key).encode_spec(),
            },
        ]);
        Ok(Directive::Finish { actions })
    }

    /// Puts the candidate in the place of the record's trader.
    pub fn change_trader(&self, accounts: &[AccountView], progress: &Progress) -> (r: Result<
        Directive,
        ProgramFailure,
    >)
        ensures
            is_step(r, change_trader_spec(self.fees, accounts@, *progress)),
    {
        match progress {
            Progress::Start => {},
            _ => {
                return Err(ProgramFailure::InvalidArgument);
            },
        }
        if accounts.len() < ACCOUNTS {
            return Err(ProgramFailure::NotEnoughAccountKeys);
        }
        if !leading_distinct(accounts, ACCOUNTS)
            || accounts[SYSTEM_PROGRAM].key != Address::system_program() {
            return Err(ProgramFailure::Custom(Error::InvalidAccountPubkey));
        }
        if !accounts[SIGNER].is_signer || !accounts[INTERMEDIARY].is_writable {
            return Err(ProgramFailure::Custom(Error::InvalidAccountConfigurationFlags));
        }
        if accounts[CANDIDATE].owner != accounts[SYSTEM_PROGRAM].key {
            return Err(ProgramFailure::Custom(Error::InvalidAccountOwner));
        }
        if accounts[CANDIDATE].data.len() != 0 {
            return Err(ProgramFailure::Custom(Error::InvalidAccountData));
        }
        if accounts[SIGNER].lamports < self.fees.change_trader
            || accounts[CANDIDATE].lamports == 0 {
            return Err(ProgramFailure::Custom(Error::InvalidAccountLamports));
        }
        let mut record = read_record(&accounts[INTERMEDIARY])?;
        if !record.is_initialized {
            return Err(ProgramFailure::Custom(Error::IntermediaryIsNotInitialized));
        }
        if accounts[SIGNER].key != record.manager_pubkey {
            return Err(ProgramFailure::Custom(Error::IntermediaryInvalidManager));
        }
        if accounts[CANDIDATE].key == record.investor_pubkey
            || accounts[CANDIDATE].key == record.manager_pubkey
            || accounts[CANDIDATE].key == record.trader_pubkey {
            return Err(ProgramFailure::Custom(Error::IntermediaryInvalidTrader));
        }
        let ghost before = record;
        record.trader_pubkey = accounts[CANDIDATE].key;
        assert(record == with_trader_pubkey(before, accounts@[CANDIDATE as int].key));
        let mut actions = no_actions();
        push_store(&mut actions, INTERMEDIARY, record.encode());
        assert(actions_view(actions@) =~~= seq![
            ActionView::Store {
                account: INTERMEDIARY,
                data: with_trader_pubkey(before, accounts@[CANDIDATE as int].key).encode_spec(),
            },
        ]);
        Ok(Directive::Finish { actions })
    }
}

/// The accounts of a change of role pass all that is asked of them but for what
/// the record says: they are four different accounts, the last the system
/// program; the signer signs and holds `fee`; the record may be changed; the
/// candidate is owned by the system program, holds no data and holds some value.
pub open spec fn role_change_presentable(accounts: Seq<AccountView>, fee: u64) -> bool {
    &&& accounts.len() >= ACCOUNTS
    &&& keys_distinct(leading_keys(accounts, ACCOUNTS as int), ACCOUNTS as int)
    &&& accounts[SYSTEM_PROGRAM as int].key == system_program_id()
    &&& accounts[SIGNER as int].is_signer
    &&& accounts[INTERMEDIARY as int].is_writable
    &&& accounts[CANDIDATE as int].owner == accounts[SYSTEM_PROGRAM as int].key
    &&& accounts[CANDIDATE as int].data@.len() == 0
    &&& accounts[CANDIDATE as int].lamports != 0
    &&& accounts[SIGNER as int].lamports >= fee
}

/// Whether `candidate` holds one of the three roles of `record`.
pub open spec fn holds_role(record: Intermediary, candidate: Address) -> bool {
    candidate == record.investor_pubkey || candidate == record.manager_pubkey || candidate
        == record.trader_pubkey
}

/// A change of manager never goes through for a candidate that holds a role,
/// and goes through for every other funded, empty account of the system program
/// that the investor of an initialized record presents; the record is then
/// written with the candidate as manager and is otherwise as it was.
pub proof fn lemma_change_manager_rejects_roles(
    fees: FeeSchedule,
    accounts: Seq<AccountView>,
    record: Intermediary,
)
    requires
        accounts.len() >= ACCOUNTS,
        Intermediary::decode_spec(accounts[INTERMEDIARY as int].data@) == Some(record),
    ensures
        holds_role(record, accounts[CANDIDATE as int].key) ==> change_manager_spec(
            fees,
            accounts,
            Progress::Start,
        ) is Err,
        role_change_presentable(accounts, fees.change_manager) && record.is_initialized
            && accounts[SIGNER as int].key == record.investor_pubkey ==> (if holds_role(
            record,
            accounts[CANDIDATE as int].key,
        ) {
            change_manager_spec(fees, accounts, Progress::Start) == refused(
                Error::IntermediaryInvalidManager,
            )
        } else {
            change_manager_spec(fees, accounts, Progress::Start) == asked(
                DirectiveView::Finish {
                    actions: seq![
                        ActionView::Store {
                            account: INTERMEDIARY,
                            data: with_manager_pubkey(
                                record,
                                accounts[CANDIDATE as int].key,
                            ).encode_spec(),
                        },
                    ],
                },
            )
        }),
{
}

/// A change of trader never goes through for a candidate that holds a role, and
/// goes through for every other funded, empty account of the system program
/// that the manager of an initialized record presents; the record is then
/// written with the candidate as trader and is otherwise as it was.
pub proof fn lemma_change_trader_rejects_roles(
    fees: FeeSchedule,
    accounts: Seq<AccountView>,
    record: Intermediary,
)
    requires
        accounts.len() >= ACCOUNTS,
        Intermediary::decode_spec(accounts[INTERMEDIARY as int].data@) == Some(record),
    ensures
        holds_role(record, accounts[CANDIDATE as int].key) ==> change_trader_spec(
            fees,
            accounts,
            Progress::Start,
        ) is Err,
        role_change_presentable(accounts, fees.change_trader) && record.is_initialized
            && accounts[SIGNER as int].key == record.manager_pubkey ==> (if holds_role(
            record,
            accounts[CANDIDATE as int].key,
        ) {
            change_trader_spec(fees, accounts, Progress::Start) == refused(
                Error::IntermediaryInvalidTrader,
            )
        } else {
            change_trader_spec(fees, accounts, Progress::Start) == asked(
                DirectiveView::Finish {
                    actions: seq![
                        ActionView::Store {
                            account: INTERMEDIARY,
                            data: with_trader_pubkey(
                                record,
                                accounts[CANDIDATE as int].key,
                            ).encode_spec(),
                        },
                    ],
                },
            )
        }),
{
}

/// A change of role keeps the three roles in three different hands.
pub proof fn lemma_role_change_keeps_roles_distinct(record: Intermediary, candidate: Address)
    requires
        record.roles_distinct(),
        !holds_role(record, candidate),
    ensures
        with_manager_pubkey(record, candidate).roles_distinct(),
        with_trader_pubkey(record, candidate).roles_distinct(),
        with_manager_pubkey(record, candidate).investor_pubkey == record.investor_pubkey,
        with_trader_pubkey(record, candidate).investor_pubkey == record.investor_pubkey,
{
}

} // verus!
