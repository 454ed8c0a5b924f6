use crate::address::{
    keys_distinct, native_mint_id, program_id, rent_sysvar_id, system_program_id, token_program_id,
    Address,
};
use crate::error::{Error, ProgramFailure};
use crate::message::AccountView;
use crate::processor::command::Processor;
use crate::processor::plan::{
    actions_view, check_derived, derived_key_check, fail, invoke, invoke_signed, is_step,
    leading_distinct, leading_keys, no_actions, push_invoke, push_invoke_signed, push_store,
    rent_reserve, rent_reserve_spec, token_balance, token_balance_spec, token_call, ActionView,
    Directive, DirectiveView, FeeSchedule, Progress, Step,
};
use crate::resolver::{
    derives, ProgramDerivedAddress, TemporaryWSolTokenAccountAddressResolver,
    TemporaryWSolTokenAccountAuthorityAddressResolver, WSolTokenAccountAddressResolver,
    WSolTokenAccountAuthorityAddressResolver,
};
use crate::state::Intermediary;
use crate::subsystem::{
    system_create_account, system_create_account_call, token_initialize_account,
    token_initialize_account_call,
};
use vstd::prelude::*;

verus! {

/// How many accounts the command takes.
pub const ACCOUNTS: usize = 12;

/// The investor, who signs and pays.
pub const INVESTOR: usize = 0;

/// The custody record.
pub const INTERMEDIARY: usize = 1;

/// The manager.
pub const MANAGER: usize = 2;

/// The trader, who signs and pays.
pub const TRADER: usize = 3;

/// The wrapped-value account.
pub const W_SOL: usize = 4;

/// The authority over the wrapped-value account.
pub const W_SOL_AUTHORITY: usize = 5;

/// The temporary wrapped-value account.
pub const TEMPORARY_W_SOL: usize = 6;

/// The authority over the temporary wrapped-value account.
pub const TEMPORARY_W_SOL_AUTHORITY: usize = 7;

/// The mint of wrapped value.
pub const W_SOL_MINT: usize = 8;

/// The system program.
pub const SYSTEM_PROGRAM: usize = 9;

/// The account that holds the rent parameters.
pub const RENT: usize = 10;

/// The token program.
pub const TOKEN_PROGRAM: usize = 11;

/// The record that `Initialize` writes: the investor, the manager and the
/// trader from the first, third and fourth account, the four sub-accounts from
/// the fifth to the eighth, and the three bumps that are kept.
pub open spec fn initialize_record(
    accounts: Seq<AccountView>,
    w_sol_token_account_authority_pubkey_bump_seed: u8,
    temporary_w_sol_token_account_pubkey_bump_seed: u8,
    temporary_w_sol_token_account_authority_pubkey_bump_seed: u8,
) -> Intermediary {
    Intermediary {
        is_initialized: true,
        investor_pubkey: accounts[INVESTOR as int].key,
        manager_pubkey: accounts[MANAGER as int].key,
        trader_pubkey: accounts[TRADER as int].key,
        w_sol_token_account_pubkey: accounts[W_SOL as int].key,
        w_sol_token_account_authority_pubkey: accounts[W_SOL_AUTHORITY as int].key,
        temporary_w_sol_token_account_pubkey: accounts[TEMPORARY_W_SOL as int].key,
        temporary_w_sol_token_account_authority_pubkey: accounts[TEMPORARY_W_SOL_AUTHORITY
            as int].key,
        w_sol_token_account_authority_pubkey_bump_seed,
        temporary_w_sol_token_account_pubkey_bump_seed,
        temporary_w_sol_token_account_authority_pubkey_bump_seed,
    }
}

/// Whether the twelve accounts of `Initialize` are twelve different ones, the
/// four sub-accounts are those that their seeds and the claimed bumps give, and
/// the last four are the mint of wrapped value, the system program, the rent
/// account and the token program.
pub open spec fn initialize_keys(
    accounts: Seq<AccountView>,
    w_sol_token_account_pubkey_bump_seed: u8,
    w_sol_token_account_authority_pubkey_bump_seed: u8,
    temporary_w_sol_token_account_pubkey_bump_seed: u8,
    temporary_w_sol_token_account_authority_pubkey_bump_seed: u8,
) -> Result<(), ProgramFailure> {
    let w_sol = derived_key_check(
        (WSolTokenAccountAddressResolver {
            intermediary_pubkey: &accounts[INTERMEDIARY as int].key,
        }).seeds(),
        w_sol_token_account_pubkey_bump_seed,
        accounts[W_SOL as int].key,
    );
    let w_sol_authority = derived_key_check(
        (WSolTokenAccountAuthorityAddressResolver {
            w_sol_token_account_pubkey: &accounts[W_SOL as int].key,
            intermediary_pubkey: &accounts[INTERMEDIARY as int].key,
        }).seeds(),
        w_sol_token_account_authority_pubkey_bump_seed,
        accounts[W_SOL_AUTHORITY as int].key,
    );
    let temporary = derived_key_check(
        (TemporaryWSolTokenAccountAddressResolver {
            w_sol_token_account_pubkey: &accounts[W_SOL as int].key,
        }).seeds(),
        temporary_w_sol_token_account_pubkey_bump_seed,
        accounts[TEMPORARY_W_SOL as int].key,
    );
    let temporary_authority = derived_key_check(
        (TemporaryWSolTokenAccountAuthorityAddressResolver {
            temporary_w_sol_token_account_pubkey: &accounts[TEMPORARY_W_SOL as int].key,
            intermediary_pubkey: &accounts[INTERMEDIARY as int].key,
        }).seeds(),
        temporary_w_sol_token_account_authority_pubkey_bump_seed,
        accounts[TEMPORARY_W_SOL_AUTHORITY as int].key,
    );
    if !keys_distinct(leading_keys(accounts, ACCOUNTS as int), ACCOUNTS as int) {
        Err(fail(Error::InvalidAccountPubkey))
    } else if w_sol is Err {
        w_sol
    } else if w_sol_authority is Err {
        w_sol_authority
    } else if temporary is Err {
        temporary
    } else if temporary_authority is Err {
        temporary_authority
    } else if accounts[W_SOL_MINT as int].key != native_mint_id()
        || accounts[SYSTEM_PROGRAM as int].key != system_program_id()
        || accounts[RENT as int].key != rent_sysvar_id()
        || accounts[TOKEN_PROGRAM as int].key != token_program_id() {
        Err(fail(Error::InvalidAccountPubkey))
    } else {
        Ok(())
    }
}

/// What `Initialize` asks for once its accounts have passed: the record's
/// account is created and written, the wrapped-value account is created with
/// its reserve and the amount for the treasury, and made a token account of the
/// wrapped mint under its authority.
pub open spec fn initialize_plan(
    accounts: Seq<AccountView>,
    lamports_to_treasury: u64,
    w_sol_token_account_pubkey_bump_seed: u8,
    w_sol_token_account_authority_pubkey_bump_seed: u8,
    temporary_w_sol_token_account_pubkey_bump_seed: u8,
    temporary_w_sol_token_account_authority_pubkey_bump_seed: u8,
    record_reserve: u64,
    token_reserve: u64,
) -> Seq<ActionView> {
    seq![
        invoke(
            system_create_account_call(
                accounts[INVESTOR as int].key,
                accounts[INTERMEDIARY as int].key,
                record_reserve,
                228,
                program_id(),
            ),
            seq![INVESTOR, INTERMEDIARY],
        ),
        ActionView::Store {
            account: INTERMEDIARY,
            data: initialize_record(
                accounts,
                w_sol_token_account_authority_pubkey_bump_seed,
                temporary_w_sol_token_account_pubkey_bump_seed,
                temporary_w_sol_token_account_authority_pubkey_bump_seed,
            ).encode_spec(),
        },
        invoke_signed(
            system_create_account_call(
                accounts[INVESTOR as int].key,
                accounts[W_SOL as int].key,
                (token_reserve + lamports_to_treasury) as u64,
                165,
                accounts[TOKEN_PROGRAM as int].key,
            ),
            seq![INVESTOR, W_SOL],
            (WSolTokenAccountAddressResolver {
                intermediary_pubkey: &accounts[INTERMEDIARY as int].key,
            }).seeds(),
            w_sol_token_account_pubkey_bump_seed,
        ),
        invoke(
            token_initialize_account_call(
                accounts[TOKEN_PROGRAM as int].key,
                accounts[W_SOL as int].key,
                accounts[W_SOL_MINT as int].key,
                accounts[W_SOL_AUTHORITY as int].key,
            ),
            seq![W_SOL, W_SOL_MINT, W_SOL_AUTHORITY, RENT],
        ),
    ]
}

/// The first step of `Initialize`. The first check that fails decides:
/// the count of accounts, their addresses, the flags of the investor, the record
/// and the wrapped-value account, the owner of investor, manager and trader,
/// that the five accounts which are to be new or plain hold no data, the rent
/// account, and that the investor holds the two reserves, the amount and the
/// fee, and manager and trader hold anything at all.
pub open spec fn initialize_start(
    fees: FeeSchedule,
    accounts: Seq<AccountView>,
    lamports_to_treasury: u64,
    w_sol_token_account_pubkey_bump_seed: u8,
    w_sol_token_account_authority_pubkey_bump_seed: u8,
    temporary_w_sol_token_account_pubkey_bump_seed: u8,
    temporary_w_sol_token_account_authority_pubkey_bump_seed: u8,
) -> Step {
    let keys = initialize_keys(
        accounts,
        w_sol_token_account_pubkey_bump_seed,
        w_sol_token_account_authority_pubkey_bump_seed,
        temporary_w_sol_token_account_pubkey_bump_seed,
        temporary_w_sol_token_account_authority_pubkey_bump_seed,
    );
    let record_reserve = rent_reserve_spec(accounts[RENT as int], 228);
    let token_reserve = rent_reserve_spec(accounts[RENT as int], 165);
    if accounts.len() < ACCOUNTS {
        Err(ProgramFailure::NotEnoughAccountKeys)
    } else if keys is Err {
        Err(keys->Err_0)
    } else if !accounts[INVESTOR as int].is_writable
        || !accounts[INVESTOR as int].is_signer
        || !accounts[INTERMEDIARY as int].is_writable
        || !accounts[INTERMEDIARY as int].is_signer
        || !accounts[W_SOL as int].is_writable {
        Err(fail(Error::InvalidAccountConfigurationFlags))
    } else if accounts[INVESTOR as int].owner != accounts[SYSTEM_PROGRAM as int].key
        || accounts[MANAGER as int].owner != accounts[SYSTEM_PROGRAM as int].key
        || accounts[TRADER as int].owner != accounts[SYSTEM_PROGRAM as int].key {
        Err(fail(Error::InvalidAccountOwner))
    } else if accounts[INVESTOR as int].data@.len() != 0
        || accounts[INTERMEDIARY as int].data@.len() != 0
        || accounts[MANAGER as int].data@.len() != 0
        || accounts[TRADER as int].data@.len() != 0
        || accounts[W_SOL as int].data@.len() != 0 {
        Err(fail(Error::InvalidAccountData))
    } else if record_reserve is Err {
        Err(record_reserve->Err_0)
    } else if token_reserve is Err {
        Err(token_reserve->Err_0)
    } else if accounts[INVESTOR as int].lamports
            < record_reserve->Ok_0 + token_reserve->Ok_0 + lamports_to_treasury + fees.initialize
        || accounts[MANAGER as int].lamports == 0
        || accounts[TRADER as int].lamports == 0 {
        Err(fail(Error::InvalidAccountLamports))
    } else {
        Ok(
            DirectiveView::Continue {
                actions: initialize_plan(
                    accounts,
                    lamports_to_treasury,
                    w_sol_token_account_pubkey_bump_seed,
                    w_sol_token_account_authority_pubkey_bump_seed,
                    temporary_w_sol_token_account_pubkey_bump_seed,
                    temporary_w_sol_token_account_authority_pubkey_bump_seed,
                    record_reserve->Ok_0,
                    token_reserve->Ok_0,
                ),
                progress: Progress::InitializeCreated,
            },
        )
    }
}

/// The last step of `Initialize`: the wrapped-value account must now read as a
/// token account that wraps native value and holds exactly the amount for the
/// treasury.
pub open spec fn initialize_settle(accounts: Seq<AccountView>, lamports_to_treasury: u64) -> Step {
    let balance = token_balance_spec(accounts[W_SOL as int].data@);
    if accounts.len() < ACCOUNTS {
        Err(ProgramFailure::NotEnoughAccountKeys)
    } else if balance is Err {
        Err(balance->Err_0)
    } else if !balance->Ok_0.is_native {
        Err(fail(Error::TokenAccountInvalidMint))
    } else if balance->Ok_0.amount != lamports_to_treasury {
        Err(fail(Error::TokenAccountInvalidAmount))
    } else {
        Ok(DirectiveView::Finish { actions: Seq::<ActionView>::empty() })
    }
}

/// `Initialize`, step by step. A step that is not one of its own is an invalid
/// argument.
pub open spec fn initialize_spec(
    fees: FeeSchedule,
    accounts: Seq<AccountView>,
    progress: Progress,
    lamports_to_treasury: u64,
    w_sol_token_account_pubkey_bump_seed: u8,
    w_sol_token_account_authority_pubkey_bump_seed: u8,
    temporary_w_sol_token_account_pubkey_bump_seed: u8,
    temporary_w_sol_token_account_authority_pubkey_bump_seed: u8,
) -> Step {
    match progress {
        Progress::Start => initialize_start(
            fees,
            accounts,
            lamports_to_treasury,
            w_sol_token_account_pubkey_bump_seed,
            w_sol_token_account_authority_pubkey_bump_seed,
            temporary_w_sol_token_account_pubkey_bump_seed,
            temporary_w_sol_token_account_authority_pubkey_bump_seed,
        ),
        Progress::InitializeCreated => initialize_settle(accounts, lamports_to_treasury),
        _ => Err(ProgramFailure::InvalidArgument),
    }
}

impl Processor {
    fn initialize_keys(
        accounts: &[AccountView],
        w_sol_token_account_pubkey_bump_seed: u8,
        w_sol_token_account_authority_pubkey_bump_seed: u8,
        temporary_w_sol_token_account_pubkey_bump_seed: u8,
        temporary_w_sol_token_account_authority_pubkey_bump_seed: u8,
    ) -> (r: Result<(), ProgramFailure>)
        requires
            accounts@.len() >= ACCOUNTS,
        ensures
            r == initialize_keys(
                accounts@,
                w_sol_token_account_pubkey_bump_seed,
                w_sol_token_account_authority_pubkey_bump_seed,
                temporary_w_sol_token_account_pubkey_bump_seed,
                temporary_w_sol_token_account_authority_pubkey_bump_seed,
            ),
    {
        if !leading_distinct(accounts, ACCOUNTS) {
            return Err(ProgramFailure::Custom(Error::InvalidAccountPubkey));
        }
        check_derived(
            &(WSolTokenAccountAddressResolver { intermediary_pubkey: &accounts[INTERMEDIARY].key }),
            w_sol_token_account_pubkey_bump_seed,
            &accounts[W_SOL].key,
        )?;
        check_derived(
            &(WSolTokenAccountAuthorityAddressResolver {
                w_sol_token_account_pubkey: &accounts[W_SOL].key,
                intermediary_pubkey: &accounts[INTERMEDIARY].key,
            }),
            w_sol_token_account_authority_pubkey_bump_seed,
            &accounts[W_SOL_AUTHORITY].key,
        )?;
        check_derived(
            &(TemporaryWSolTokenAccountAddressResolver {
                w_sol_token_account_pubkey: &accounts[W_SOL].key,
            }),
            temporary_w_sol_token_account_pubkey_bump_seed,
            &accounts[TEMPORARY_W_SOL].key,
        )?;
        check_derived(
            &(TemporaryWSolTokenAccountAuthorityAddressResolver {
                temporary_w_sol_token_account_pubkey: &accounts[TEMPORARY_W_SOL].key,
                intermediary_pubkey: &accounts[INTERMEDIARY].key,
            }),
            temporary_w_sol_token_account_authority_pubkey_bump_seed,
            &accounts[TEMPORARY_W_SOL_AUTHORITY].key,
        )?;
        if accounts[W_SOL_MINT].key != Address::native_mint()
            || accounts[SYSTEM_PROGRAM].key != Address::system_program()
            || accounts[RENT].key != Address::rent_sysvar()
            || accounts[TOKEN_PROGRAM].key != Address::token_program() {
            return Err(ProgramFailure::Custom(Error::InvalidAccountPubkey));
        }
        Ok(())
    }

    fn initialize_start(
        &self,
        accounts: &[AccountView],
        lamports_to_treasury: u64,
        w_sol_token_account_pubkey_bump_seed: u8,
        w_sol_token_account_authority_pubkey_bump_seed: u8,
        temporary_w_sol_token_account_pubkey_bump_seed: u8,
        temporary_w_sol_token_account_authority_pubkey_bump_seed: u8,
    ) -> (r: Result<Directive, ProgramFailure>)
        ensures
            is_step(
                r,
                initialize_start(
                    self.fees,
                    accounts@,
                    lamports_to_treasury,
                    w_sol_token_account_pubkey_bump_seed,
                    w_sol_token_account_authority_pubkey_bump_seed,
                    temporary_w_sol_token_account_pubkey_bump_seed,
                    temporary_w_sol_token_account_authority_pubkey_bump_seed,
                ),
            ),
    {
        if accounts.len() < ACCOUNTS {
            return Err(ProgramFailure::NotEnoughAccountKeys);
        }
        Processor::initialize_keys(
            accounts,
            w_sol_token_account_pubkey_bump_seed,
            w_sol_token_account_authority_pubkey_bump_seed,
            temporary_w_sol_token_account_pubkey_bump_seed,
            temporary_w_sol_token_account_authority_pubkey_bump_seed,
        )?;
        if !accounts[INVESTOR].is_writable
            || !accounts[INVESTOR].is_signer
            || !accounts[INTERMEDIARY].is_writable
            || !accounts[INTERMEDIARY].is_signer
            || !accounts[W_SOL].is_writable {
            return Err(ProgramFailure::Custom(Error::InvalidAccountConfigurationFlags));
        }
        if accounts[INVESTOR].owner != accounts[SYSTEM_PROGRAM].key
            || accounts[MANAGER].owner != accounts[SYSTEM_PROGRAM].key
            || accounts[TRADER].owner != accounts[SYSTEM_PROGRAM].key {
            return Err(ProgramFailure::Custom(Error::InvalidAccountOwner));
        }
        if accounts[INVESTOR].data.len() != 0
            || accounts[INTERMEDIARY].data.len() != 0
            || accounts[MANAGER].data.len() != 0
            || accounts[TRADER].data.len() != 0
            || accounts[W_SOL].data.len() != 0 {
            return Err(ProgramFailure::Custom(Error::InvalidAccountData));
        }
        let record = Intermediary {
            is_initialized: true,
            investor_pubkey: accounts[INVESTOR].key,
            manager_pubkey: accounts[MANAGER].key,
            trader_pubkey: accounts[TRADER].key,
            w_sol_token_account_pubkey: accounts[W_SOL].key,
            w_sol_token_account_authority_pubkey: accounts[W_SOL_AUTHORITY].key,
            temporary_w_sol_token_account_pubkey: accounts[TEMPORARY_W_SOL].key,
            temporary_w_sol_token_account_authority_pubkey: accounts[TEMPORARY_W_SOL_AUTHORITY].key,
            w_sol_token_account_authority_pubkey_bump_seed,
            temporary_w_sol_token_account_pubkey_bump_seed,
            temporary_w_sol_token_account_authority_pubkey_bump_seed,
        };
        let record_reserve = rent_reserve(&accounts[RENT], record.object_length())?;
        let token_reserve = rent_reserve(&accounts[RENT], 165)?;
        if (accounts[INVESTOR].lamports as u128)
                < record_reserve as u128 + token_reserve as u128 + lamports_to_treasury as u128
                + self.fees.initialize as u128
            || accounts[MANAGER].lamports == 0
            || accounts[TRADER].lamports == 0 {
            return Err(ProgramFailure::Custom(Error::InvalidAccountLamports));
        }
        let mut actions = no_actions();
        push_invoke(
            &mut actions,
            system_create_account(
                &accounts[INVESTOR].key,
                &accounts[INTERMEDIARY].key,
                record_reserve,
                228,
                &Address::program(),
            ),
            vec![INVESTOR, INTERMEDIARY],
        );
        push_store(&mut actions, INTERMEDIARY, record.encode());
        push_invoke_signed(
            &mut actions,
            system_create_account(
                &accounts[INVESTOR].key,
                &accounts[W_SOL].key,
                token_reserve + lamports_to_treasury,
                165,
                &accounts[TOKEN_PROGRAM].key,
            ),
            vec![INVESTOR, W_SOL],
            (WSolTokenAccountAddressResolver {
                intermediary_pubkey: &accounts[INTERMEDIARY].key,
            }).get_seeds(),
            w_sol_token_account_pubkey_bump_seed,
        );
        push_invoke(
            &mut actions,
            token_call(token_initialize_account(
                &accounts[TOKEN_PROGRAM].key,
                &accounts[W_SOL].key,
                &accounts[W_SOL_MINT].key,
                &accounts[W_SOL_AUTHORITY].key,
            ))?,
            vec![W_SOL, W_SOL_MINT, W_SOL_AUTHORITY, RENT],
        );
        assert(actions_view(actions@) =~~= initialize_plan(
            accounts@,
            lamports_to_treasury,
            w_sol_token_account_pubkey_bump_seed,
            w_sol_token_account_authority_pubkey_bump_seed,
            temporary_w_sol_token_account_pubkey_bump_seed,
            temporary_w_sol_token_account_authority_pubkey_bump_seed,
            record_reserve,
            token_reserve,
        ));
        Ok(Directive::Continue { actions, progress: Progress::InitializeCreated })
    }

    fn initialize_settle(accounts: &[AccountView], lamports_to_treasury: u64) -> (r: Result<
        Directive,
        ProgramFailure,
    >)
        ensures
            is_step(r, initialize_settle(accounts@, lamports_to_treasury)),
    {
        if accounts.len() < ACCOUNTS {
            return Err(ProgramFailure::NotEnoughAccountKeys);
        }
        let balance = token_balance(&accounts[W_SOL])?;
        if !balance.is_native {
            return Err(ProgramFailure::Custom(Error::TokenAccountInvalidMint));
        }
        if balance.amount != lamports_to_treasury {
            return Err(ProgramFailure::Custom(Error::TokenAccountInvalidAmount));
        }
        Ok(Directive::Finish { actions: no_actions() })
    }

    /// Sets up a custody relationship: the record and the wrapped-value account
    /// are created from the investor's funds, and the wrapped-value account is
    /// then checked to hold what was meant for the treasury.
    pub fn initialize(
        &self,
        accounts: &[AccountView],
        progress: &Progress,
        lamports_to_treasury: u64,
        w_sol_token_account_pubkey_bump_seed: u8,
        w_sol_token_account_authority_pubkey_bump_seed: u8,
        temporary_w_sol_token_account_pubkey_bump_seed: u8,
        temporary_w_sol_token_account_authority_pubkey_bump_seed: u8,
    ) -> (r: Result<Directive, ProgramFailure>)
        ensures
            is_step(
                r,
                initialize_spec(
                    self.fees,
                    accounts@,
                    *progress,
                    lamports_to_treasury,
                    w_sol_token_account_pubkey_bump_seed,
                    w_sol_token_account_authority_pubkey_bump_seed,
                    temporary_w_sol_token_account_pubkey_bump_seed,
                    temporary_w_sol_token_account_authority_pubkey_bump_seed,
                ),
            ),
    {
        match progress {
            Progress::Start => self.initialize_start(
                accounts,
                lamports_to_treasury,
                w_sol_token_account_pubkey_bump_seed,
                w_sol_token_account_authority_pubkey_bump_seed,
                temporary_w_sol_token_account_pubkey_bump_seed,
                temporary_w_sol_token_account_authority_pubkey_bump_seed,
            ),
            Progress::InitializeCreated => Processor::initialize_settle(
                accounts,
                lamports_to_treasury,
            ),
            _ => Err(ProgramFailure::InvalidArgument),
        }
    }
}

/// Of every accepted `Initialize`: the record that is written names the four
/// sub-accounts that their seeds give under the claimed bumps, three of which
/// the record keeps.
pub proof fn lemma_initialize_writes_derived_addresses(
    fees: FeeSchedule,
    accounts: Seq<AccountView>,
    lamports_to_treasury: u64,
    w_sol_token_account_pubkey_bump_seed: u8,
    w_sol_token_account_authority_pubkey_bump_seed: u8,
    temporary_w_sol_token_account_pubkey_bump_seed: u8,
    temporary_w_sol_token_account_authority_pubkey_bump_seed: u8,
)
    requires
        initialize_start(
            fees,
            accounts,
            lamports_to_treasury,
            w_sol_token_account_pubkey_bump_seed,
            w_sol_token_account_authority_pubkey_bump_seed,
            temporary_w_sol_token_account_pubkey_bump_seed,
            temporary_w_sol_token_account_authority_pubkey_bump_seed,
        ) is Ok,
    ensures
        ({
            let step = initialize_start(
                fees,
                accounts,
                lamports_to_treasury,
                w_sol_token_account_pubkey_bump_seed,
                w_sol_token_account_authority_pubkey_bump_seed,
                temporary_w_sol_token_account_pubkey_bump_seed,
                temporary_w_sol_token_account_authority_pubkey_bump_seed,
            )->Ok_0;
            let stored = step.actions()[1];
            &&& stored is Store
            &&& stored->account == 1
            &&& Intermediary::decode_spec(stored->data) is Some
            &&& ({
                let record = Intermediary::decode_spec(stored->data)->0;
                &&& record.is_initialized
                &&& record.roles_distinct()
                &&& derives(
                    (WSolTokenAccountAddressResolver {
                        intermediary_pubkey: &accounts[INTERMEDIARY as int].key,
                    }).seeds(),
                    w_sol_token_account_pubkey_bump_seed,
                    record.w_sol_token_account_pubkey,
                )
                &&& derives(
                    (WSolTokenAccountAuthorityAddressResolver {
                        w_sol_token_account_pubkey: &record.w_sol_token_account_pubkey,
                        intermediary_pubkey: &accounts[INTERMEDIARY as int].key,
                    }).seeds(),
                    record.w_sol_token_account_authority_pubkey_bump_seed,
                    record.w_sol_token_account_authority_pubkey,
                )
                &&& derives(
                    (TemporaryWSolTokenAccountAddressResolver {
                        w_sol_token_account_pubkey: &record.w_sol_token_account_pubkey,
                    }).seeds(),
                    record.temporary_w_sol_token_account_pubkey_bump_seed,
                    record.temporary_w_sol_token_account_pubkey,
                )
                &&& derives(
                    (TemporaryWSolTokenAccountAuthorityAddressResolver {
                        temporary_w_sol_token_account_pubkey: &record.temporary_w_sol_token_account_pubkey,
                        intermediary_pubkey: &accounts[INTERMEDIARY as int].key,
                    }).seeds(),
                    record.temporary_w_sol_token_account_authority_pubkey_bump_seed,
                    record.temporary_w_sol_token_account_authority_pubkey,
                )
            })
        }),
{
    let record = initialize_record(
        accounts,
        w_sol_token_account_authority_pubkey_bump_seed,
        temporary_w_sol_token_account_pubkey_bump_seed,
        temporary_w_sol_token_account_authority_pubkey_bump_seed,
    );
    crate::state::lemma_record_round_trip(record);
    let keys = leading_keys(accounts, 12);
    assert(keys[0] != keys[2] && keys[0] != keys[3] && keys[2] != keys[3]);
}

} // verus!
