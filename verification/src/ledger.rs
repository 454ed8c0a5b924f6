use crate::address::{native_mint_id, system_program_id, token_program_id, Address};
use crate::bytes::{lemma_u64_bytes, u64_at};
use crate::message::{AccountView, InvocationView};
use crate::error::ProgramFailure;
use crate::processor::buy_on_pumpswap::buy_on_pumpswap_closing;
use crate::processor::buy_on_raydium::buy_on_raydium_closing;
use crate::processor::deposit_funds::{deposit_funds_plan, deposit_funds_spec};
use crate::processor::initialize::initialize_start;
use crate::processor::plan::{
    leading_keys, rent_reserve_spec, ActionView, FeeSchedule, Progress,
};
use crate::processor::withdraw_funds::{withdraw_funds_plan, withdraw_funds_presentable};
use crate::processor::{
    buy_on_pumpswap, buy_on_raydium, deposit_funds, initialize, pumpswap, withdraw_funds,
};
use crate::state::Intermediary;
use crate::subsystem::{
    system_create_account_call, system_transfer_call, token_close_account_call,
    token_initialize_account_call, token_sync_native_call, token_transfer_call,
};
use vstd::bytes::spec_u64_to_le_bytes;
use vstd::prelude::*;

verus! {

/// What the value-transfer subsystem keeps of one account: the native value it
/// holds and, where it is a token account, its tokens and whether they wrap
/// native value.
pub struct Holding {
    pub lamports: int,
    pub tokens: int,
    pub wrapped: bool,
}

impl Holding {
    /// An account that does not exist: it holds nothing.
    pub open spec fn none() -> Holding {
        Holding { lamports: 0, tokens: 0, wrapped: false }
    }
}

/// The value-transfer subsystem as this program relies on it: what each account
/// holds, and the reserve that a token account must keep, which a wrapped
/// account does not count among its tokens.
pub struct Ledger {
    pub holdings: Map<Address, Holding>,
    pub reserve: int,
}

impl Ledger {
    pub open spec fn of(self, account: Address) -> Holding {
        self.holdings[account]
    }

    pub open spec fn with(self, account: Address, holding: Holding) -> Ledger {
        Ledger { holdings: self.holdings.insert(account, holding), ..self }
    }

    /// Native value moves from one account to another.
    pub open spec fn pay(self, from: Address, to: Address, lamports: int) -> Ledger {
        let taken = self.with(
            from,
            Holding { lamports: self.of(from).lamports - lamports, ..self.of(from) },
        );
        taken.with(to, Holding { lamports: taken.of(to).lamports + lamports, ..taken.of(to) })
    }

    /// An account becomes a token account of `mint`. One of the mint of wrapped
    /// value holds as tokens what it holds above the reserve; any other holds
    /// none.
    pub open spec fn initialize(self, account: Address, mint: Address) -> Ledger {
        let wrapped = mint == native_mint_id();
        self.with(
            account,
            Holding {
                tokens: if wrapped {
                    self.of(account).lamports - self.reserve
                } else {
                    0
                },
                wrapped,
                ..self.of(account)
            },
        )
    }

    /// Tokens move from one token account to another; between wrapped accounts
    /// the native value that they stand for moves with them.
    pub open spec fn transfer(self, source: Address, destination: Address, amount: int) -> Ledger {
        let moved = if self.of(source).wrapped {
            amount
        } else {
            0
        };
        let taken = self.with(
            source,
            Holding {
                lamports: self.of(source).lamports - moved,
                tokens: self.of(source).tokens - amount,
                ..self.of(source)
            },
        );
        taken.with(
            destination,
            Holding {
                lamports: taken.of(destination).lamports + moved,
                tokens: taken.of(destination).tokens + amount,
                ..taken.of(destination)
            },
        )
    }

    /// A token account is closed: all the native value it holds, its reserve
    /// among it, goes to `destination`, and the account is no more.
    pub open spec fn close(self, account: Address, destination: Address) -> Ledger {
        let emptied = self.with(account, Holding::none());
        emptied.with(
            destination,
            Holding {
                lamports: emptied.of(destination).lamports + self.of(account).lamports,
                ..emptied.of(destination)
            },
        )
    }

    /// The tokens of a wrapped account are set to the native value that it holds
    /// above the reserve.
    pub open spec fn sync(self, account: Address) -> Ledger {
        if self.of(account).wrapped {
            self.with(
                account,
                Holding { tokens: self.of(account).lamports - self.reserve, ..self.of(account) },
            )
        } else {
            self
        }
    }

    /// What a call does to the ledger, for the calls to the system program and
    /// to the token program that the commands make. Of a call to another
    /// program, such as an exchange, nothing is said.
    pub open spec fn apply(self, call: InvocationView) -> Option<Ledger> {
        if call.program_id == system_program_id() && call.accounts.len() == 2 && call.data.len()
            >= 12 && call.data[1] == 0 && call.data[2] == 0 && call.data[3] == 0 {
            if call.data[0] == 0 || call.data[0] == 2 {
                Some(
                    self.pay(
                        call.accounts[0].pubkey,
                        call.accounts[1].pubkey,
                        u64_at(call.data, 4) as int,
                    ),
                )
            } else {
                None
            }
        } else if call.program_id == token_program_id() && call.data.len() >= 1 {
            if call.data[0] == 1 && call.accounts.len() == 4 {
                Some(self.initialize(call.accounts[0].pubkey, call.accounts[1].pubkey))
            } else if call.data[0] == 3 && call.data.len() == 9 && call.accounts.len() == 3 {
                Some(
                    self.transfer(
                        call.accounts[0].pubkey,
                        call.accounts[1].pubkey,
                        u64_at(call.data, 1) as int,
                    ),
                )
            } else if call.data[0] == 9 && call.accounts.len() == 3 {
                Some(self.close(call.accounts[0].pubkey, call.accounts[1].pubkey))
            } else if call.data[0] == 17 && call.accounts.len() == 1 {
                Some(self.sync(call.accounts[0].pubkey))
            } else {
                None
            }
        } else {
            None
        }
    }

    /// What an action does to the ledger. Writing to an account's data changes
    /// nothing that the ledger keeps.
    pub open spec fn act(self, action: ActionView) -> Option<Ledger> {
        match action {
            ActionView::Invoke { instruction, .. } => self.apply(instruction),
            ActionView::Store { .. } => Some(self),
        }
    }

    /// What the actions from `from` on do to the ledger, one after the other.
    pub open spec fn run(self, actions: Seq<ActionView>, from: int) -> Option<Ledger>
        decreases actions.len() - from,
    {
        if from < 0 || from >= actions.len() {
            Some(self)
        } else {
            match self.act(actions[from]) {
                None => None,
                Some(next) => next.run(actions, from + 1),
            }
        }
    }
}

/// Each of the six calls of the subsystem does to the ledger what its name says.
pub proof fn lemma_calls_apply(
    ledger: Ledger,
    token_program: Address,
    a: Address,
    b: Address,
    c: Address,
    amount: u64,
    space: u64,
)
    requires
        token_program == token_program_id(),
    ensures
        ledger.apply(system_create_account_call(a, b, amount, space, c)) == Some(
            ledger.pay(a, b, amount as int),
        ),
        ledger.apply(system_transfer_call(a, b, amount)) == Some(ledger.pay(a, b, amount as int)),
        ledger.apply(token_initialize_account_call(token_program, a, b, c)) == Some(
            ledger.initialize(a, b),
        ),
        ledger.apply(token_transfer_call(token_program, a, b, c, amount)) == Some(
            ledger.transfer(a, b, amount as int),
        ),
        ledger.apply(token_close_account_call(token_program, a, b, c)) == Some(ledger.close(a, b)),
        ledger.apply(token_sync_native_call(token_program, a)) == Some(ledger.sync(a)),
{
    lemma_u64_bytes(amount, seq![]);
    lemma_u64_bytes(space, seq![]);
    let created = system_create_account_call(a, b, amount, space, c).data;
    assert(created.subrange(4, 12) =~= spec_u64_to_le_bytes(amount));
    let paid = system_transfer_call(a, b, amount).data;
    assert(paid.subrange(4, 12) =~= spec_u64_to_le_bytes(amount));
    let moved = token_transfer_call(token_program, a, b, c, amount).data;
    assert(moved.subrange(1, 9) =~= spec_u64_to_le_bytes(amount));
    assert(system_program_id().bytes[0] != token_program_id().bytes[0]);
}

/// A withdrawal that is carried out takes exactly the amount out of the
/// wrapped-value account, in tokens and in native value, and pays exactly the
/// amount to the investor: the reserve that the investor advances for the
/// temporary account comes back when that account is closed, and the command
/// itself keeps no fee. The temporary account is no more.
pub proof fn lemma_withdrawal_pays_the_investor(
    ledger: Ledger,
    accounts: Seq<AccountView>,
    record: Intermediary,
    lamports_from_treasury: u64,
    reserve: u64,
)
    requires
        withdraw_funds_presentable(accounts, record),
        ledger.reserve == reserve,
        ledger.of(record.w_sol_token_account_pubkey).wrapped,
        ledger.of(record.temporary_w_sol_token_account_pubkey) == Holding::none(),
    ensures
        ({
            let plan = withdraw_funds_plan(accounts, lamports_from_treasury, record, reserve);
            let treasury = record.w_sol_token_account_pubkey;
            let investor = record.investor_pubkey;
            &&& ledger.run(plan, 0) matches Some(after)
            &&& after.of(treasury).tokens == ledger.of(treasury).tokens - lamports_from_treasury
            &&& after.of(treasury).lamports == ledger.of(treasury).lamports
                - lamports_from_treasury
            &&& after.of(investor).lamports == ledger.of(investor).lamports
                + lamports_from_treasury
            &&& after.of(record.temporary_w_sol_token_account_pubkey) == Holding::none()
        }),
{
    let plan = withdraw_funds_plan(accounts, lamports_from_treasury, record, reserve);
    let investor = accounts[withdraw_funds::INVESTOR as int].key;
    let treasury = accounts[withdraw_funds::W_SOL as int].key;
    let temporary = accounts[withdraw_funds::TEMPORARY_W_SOL as int].key;
    let keys = leading_keys(accounts, withdraw_funds::ACCOUNTS as int);
    assert(keys[withdraw_funds::INVESTOR as int]
        != keys[withdraw_funds::W_SOL as int]);
    assert(keys[withdraw_funds::INVESTOR as int]
        != keys[withdraw_funds::TEMPORARY_W_SOL as int]);
    assert(keys[withdraw_funds::W_SOL as int]
        != keys[withdraw_funds::TEMPORARY_W_SOL as int]);
    lemma_calls_apply(
        ledger,
        accounts[withdraw_funds::TOKEN_PROGRAM as int].key,
        investor,
        temporary,
        accounts[withdraw_funds::TOKEN_PROGRAM as int].key,
        reserve,
        165,
    );
    let created = ledger.pay(investor, temporary, reserve as int);
    assert(ledger.act(plan[0]) == Some(created));
    lemma_calls_apply(
        created,
        accounts[withdraw_funds::TOKEN_PROGRAM as int].key,
        temporary,
        accounts[withdraw_funds::W_SOL_MINT as int].key,
        accounts[withdraw_funds::TEMPORARY_W_SOL_AUTHORITY as int].key,
        0,
        0,
    );
    let made = created.initialize(temporary, accounts[withdraw_funds::W_SOL_MINT as int].key);
    assert(created.act(plan[1]) == Some(made));
    lemma_calls_apply(
        made,
        accounts[withdraw_funds::TOKEN_PROGRAM as int].key,
        treasury,
        temporary,
        accounts[withdraw_funds::W_SOL_AUTHORITY as int].key,
        lamports_from_treasury,
        0,
    );
    let moved = made.transfer(treasury, temporary, lamports_from_treasury as int);
    assert(made.act(plan[2]) == Some(moved));
    lemma_calls_apply(
        moved,
        accounts[withdraw_funds::TOKEN_PROGRAM as int].key,
        temporary,
        investor,
        accounts[withdraw_funds::TEMPORARY_W_SOL_AUTHORITY as int].key,
        0,
        0,
    );
    let closed = moved.close(temporary, investor);
    assert(moved.act(plan[3]) == Some(closed));
    assert(closed.run(plan, 4) == Some(closed));
    assert(moved.run(plan, 3) == Some(closed));
    assert(made.run(plan, 2) == Some(closed));
    assert(created.run(plan, 1) == Some(closed));
    assert(ledger.run(plan, 0) == Some(closed));
}

/// A deposit that is carried out on a wrapped-value account whose tokens stand
/// for all that it holds above the reserve, as they do once `Initialize` has
/// ended, adds exactly the amount to its tokens and takes exactly the amount
/// from the investor. A deposit of nothing leaves both as they were.
pub proof fn lemma_deposit_adds_the_amount(
    ledger: Ledger,
    accounts: Seq<AccountView>,
    lamports_to_treasury: u64,
)
    requires
        accounts.len() >= deposit_funds::ACCOUNTS,
        accounts[deposit_funds::INVESTOR as int].key != accounts[deposit_funds::W_SOL as int].key,
        accounts[deposit_funds::TOKEN_PROGRAM as int].key == token_program_id(),
        ledger.of(accounts[deposit_funds::W_SOL as int].key).wrapped,
        ledger.of(accounts[deposit_funds::W_SOL as int].key).tokens == ledger.of(
            accounts[deposit_funds::W_SOL as int].key,
        ).lamports - ledger.reserve,
    ensures
        ({
            let plan = deposit_funds_plan(accounts, lamports_to_treasury);
            let treasury = accounts[deposit_funds::W_SOL as int].key;
            let investor = accounts[deposit_funds::INVESTOR as int].key;
            &&& ledger.run(plan, 0) matches Some(after)
            &&& after.of(treasury).tokens == ledger.of(treasury).tokens + lamports_to_treasury
            &&& after.of(investor).lamports == ledger.of(investor).lamports - lamports_to_treasury
            &&& lamports_to_treasury == 0 ==> after.of(treasury) == ledger.of(treasury)
                && after.of(investor) == ledger.of(investor)
        }),
{
    let plan = deposit_funds_plan(accounts, lamports_to_treasury);
    let investor = accounts[deposit_funds::INVESTOR as int].key;
    let treasury = accounts[deposit_funds::W_SOL as int].key;
    lemma_calls_apply(
        ledger,
        accounts[deposit_funds::TOKEN_PROGRAM as int].key,
        investor,
        treasury,
        investor,
        lamports_to_treasury,
        0,
    );
    let paid = ledger.pay(investor, treasury, lamports_to_treasury as int);
    assert(ledger.act(plan[0]) == Some(paid));
    lemma_calls_apply(
        paid,
        accounts[deposit_funds::TOKEN_PROGRAM as int].key,
        treasury,
        treasury,
        treasury,
        0,
        0,
    );
    let synced = paid.sync(treasury);
    assert(paid.act(plan[1]) == Some(synced));
    assert(synced.run(plan, 2) == Some(synced));
    assert(paid.run(plan, 1) == Some(synced));
    assert(ledger.run(plan, 0) == Some(synced));
}

/// `Initialize`, carried out on a wrapped-value account that did not exist,
/// leaves it holding its reserve and, as tokens, exactly the amount for the
/// treasury; and a deposit of nothing that follows leaves that as it is.
pub proof fn lemma_initialize_then_deposit_of_nothing(
    ledger: Ledger,
    fees: FeeSchedule,
    accounts: Seq<AccountView>,
    deposit_accounts: Seq<AccountView>,
    lamports_to_treasury: u64,
    w_sol_token_account_pubkey_bump_seed: u8,
    w_sol_token_account_authority_pubkey_bump_seed: u8,
    temporary_w_sol_token_account_pubkey_bump_seed: u8,
    temporary_w_sol_token_account_authority_pubkey_bump_seed: u8,
)
    requires
        initialize_start(
            fees,
            accounts,
            lamports_to_treasury,
            w_sol_token_account_pubkey_bump_seed,
            w_sol_token_account_authority_pubkey_bump_seed,
            temporary_w_sol_token_account_pubkey_bump_seed,
            temporary_w_sol_token_account_authority_pubkey_bump_seed,
        ) is Ok,
        rent_reserve_spec(accounts[initialize::RENT as int], 165) == Ok::<u64,
        ProgramFailure>(ledger.reserve as u64),
        0 <= ledger.reserve <= u64::MAX,
        ledger.of(accounts[initialize::W_SOL as int].key) == Holding::none(),
        deposit_funds_spec(fees, deposit_accounts, Progress::Start, 0) is Ok,
        deposit_accounts[deposit_funds::W_SOL as int].key == accounts[initialize::W_SOL as int].key,
    ensures
        ({
            let first = initialize_start(
                fees,
                accounts,
                lamports_to_treasury,
                w_sol_token_account_pubkey_bump_seed,
                w_sol_token_account_authority_pubkey_bump_seed,
                temporary_w_sol_token_account_pubkey_bump_seed,
                temporary_w_sol_token_account_authority_pubkey_bump_seed,
            )->Ok_0.actions();
            let second = deposit_funds_spec(
                fees,
                deposit_accounts,
                Progress::Start,
                0,
            )->Ok_0.actions();
            let treasury = accounts[initialize::W_SOL as int].key;
            &&& ledger.run(first, 0) matches Some(created)
            &&& created.of(treasury).wrapped
            &&& created.of(treasury).tokens == lamports_to_treasury
            &&& created.of(treasury).lamports == ledger.reserve + lamports_to_treasury
            &&& created.run(second, 0) matches Some(after)
            &&& after.of(treasury) == created.of(treasury)
        }),
{
    let plan = initialize_start(
        fees,
        accounts,
        lamports_to_treasury,
        w_sol_token_account_pubkey_bump_seed,
        w_sol_token_account_authority_pubkey_bump_seed,
        temporary_w_sol_token_account_pubkey_bump_seed,
        temporary_w_sol_token_account_authority_pubkey_bump_seed,
    )->Ok_0.actions();
    let investor = accounts[initialize::INVESTOR as int].key;
    let record = accounts[initialize::INTERMEDIARY as int].key;
    let treasury = accounts[initialize::W_SOL as int].key;
    let record_reserve = rent_reserve_spec(accounts[initialize::RENT as int], 228)->Ok_0;
    let token_reserve = rent_reserve_spec(accounts[initialize::RENT as int], 165)->Ok_0;
    let keys = leading_keys(accounts, initialize::ACCOUNTS as int);
    assert(keys[initialize::INVESTOR as int] != keys[initialize::INTERMEDIARY as int]);
    assert(keys[initialize::INVESTOR as int] != keys[initialize::W_SOL as int]);
    assert(keys[initialize::INTERMEDIARY as int] != keys[initialize::W_SOL as int]);
    lemma_calls_apply(
        ledger,
        accounts[initialize::TOKEN_PROGRAM as int].key,
        investor,
        record,
        crate::address::program_id(),
        record_reserve,
        228,
    );
    let paid = ledger.pay(investor, record, record_reserve as int);
    assert(ledger.act(plan[0]) == Some(paid));
    assert(paid.act(plan[1]) == Some(paid));
    let seeded = (token_reserve + lamports_to_treasury) as u64;
    lemma_calls_apply(
        paid,
        accounts[initialize::TOKEN_PROGRAM as int].key,
        investor,
        treasury,
        accounts[initialize::TOKEN_PROGRAM as int].key,
        seeded,
        165,
    );
    let funded = paid.pay(investor, treasury, seeded as int);
    assert(paid.act(plan[2]) == Some(funded));
    lemma_calls_apply(
        funded,
        accounts[initialize::TOKEN_PROGRAM as int].key,
        treasury,
        accounts[initialize::W_SOL_MINT as int].key,
        accounts[initialize::W_SOL_AUTHORITY as int].key,
        0,
        0,
    );
    let created = funded.initialize(treasury, accounts[initialize::W_SOL_MINT as int].key);
    assert(funded.act(plan[3]) == Some(created));
    assert(created.run(plan, 4) == Some(created));
    assert(funded.run(plan, 3) == Some(created));
    assert(paid.run(plan, 2) == Some(created));
    assert(paid.run(plan, 1) == Some(created));
    assert(ledger.run(plan, 0) == Some(created));
    let keys = leading_keys(deposit_accounts, deposit_funds::ACCOUNTS as int);
    assert(keys[deposit_funds::INVESTOR as int] != keys[deposit_funds::W_SOL as int]);
    lemma_deposit_adds_the_amount(created, deposit_accounts, 0);
}

/// What closing the temporary wrapped-value account in favour of the
/// wrapped-value account and setting that account's tokens anew does: the
/// temporary account is no more, all that it held is in the wrapped-value
/// account, and that account's tokens stand for all that it holds above the
/// reserve.
pub open spec fn returned_to_the_treasury(
    ledger: Ledger,
    after: Ledger,
    temporary: Address,
    treasury: Address,
) -> bool {
    &&& after.of(temporary) == Holding::none()
    &&& after.of(treasury).lamports == ledger.of(treasury).lamports + ledger.of(temporary).lamports
    &&& after.of(treasury).tokens == after.of(treasury).lamports - ledger.reserve
    &&& after.reserve == ledger.reserve
}

/// The last step of a purchase on the first exchange, carried out, returns to
/// the wrapped-value account all that the temporary account held.
pub proof fn lemma_buy_on_raydium_returns_the_temporary_balance(
    ledger: Ledger,
    accounts: Seq<AccountView>,
    temporary_w_sol_token_account_authority_pubkey_bump_seed: u8,
)
    requires
        accounts.len() >= buy_on_raydium::ACCOUNTS,
        accounts[buy_on_raydium::TEMPORARY_W_SOL as int].key
            != accounts[buy_on_raydium::W_SOL as int].key,
        accounts[buy_on_raydium::TOKEN_PROGRAM as int].key == token_program_id(),
        ledger.of(accounts[buy_on_raydium::W_SOL as int].key).wrapped,
    ensures
        ledger.run(
            buy_on_raydium_closing(
                accounts,
                temporary_w_sol_token_account_authority_pubkey_bump_seed,
            ),
            0,
        ) matches Some(after) && returned_to_the_treasury(
            ledger,
            after,
            accounts[buy_on_raydium::TEMPORARY_W_SOL as int].key,
            accounts[buy_on_raydium::W_SOL as int].key,
        ),
{
    let plan = buy_on_raydium_closing(
        accounts,
        temporary_w_sol_token_account_authority_pubkey_bump_seed,
    );
    lemma_closing_returns(
        ledger,
        plan,
        accounts[buy_on_raydium::TOKEN_PROGRAM as int].key,
        accounts[buy_on_raydium::TEMPORARY_W_SOL as int].key,
        accounts[buy_on_raydium::W_SOL as int].key,
        accounts[buy_on_raydium::TEMPORARY_W_SOL_AUTHORITY as int].key,
    );
}

/// The last step of a purchase on the second exchange, carried out, returns to
/// the wrapped-value account all that the temporary account held.
pub proof fn lemma_buy_on_pumpswap_returns_the_temporary_balance(
    ledger: Ledger,
    accounts: Seq<AccountView>,
)
    requires
        accounts.len() >= pumpswap::ACCOUNTS,
        accounts[buy_on_pumpswap::TEMPORARY_W_SOL as int].key
            != accounts[buy_on_pumpswap::W_SOL as int].key,
        accounts[buy_on_pumpswap::TOKEN_PROGRAM as int].key == token_program_id(),
        accounts[pumpswap::QUOTE_TOKEN_PROGRAM as int].key == token_program_id(),
        ledger.of(accounts[buy_on_pumpswap::W_SOL as int].key).wrapped,
    ensures
        ledger.run(buy_on_pumpswap_closing(accounts), 0) matches Some(after)
            && returned_to_the_treasury(
                ledger,
                after,
                accounts[buy_on_pumpswap::TEMPORARY_W_SOL as int].key,
                accounts[buy_on_pumpswap::W_SOL as int].key,
            ),
{
    let plan = buy_on_pumpswap_closing(accounts);
    lemma_closing_returns(
        ledger,
        plan,
        accounts[buy_on_pumpswap::TOKEN_PROGRAM as int].key,
        accounts[buy_on_pumpswap::TEMPORARY_W_SOL as int].key,
        accounts[buy_on_pumpswap::W_SOL as int].key,
        accounts[buy_on_pumpswap::TRADER as int].key,
    );
}

proof fn lemma_closing_returns(
    ledger: Ledger,
    plan: Seq<ActionView>,
    token_program: Address,
    temporary: Address,
    treasury: Address,
    authority: Address,
)
    requires
        token_program == token_program_id(),
        temporary != treasury,
        ledger.of(treasury).wrapped,
        plan.len() == 2,
        plan[0] is Invoke,
        plan[0]->instruction == token_close_account_call(
            token_program,
            temporary,
            treasury,
            authority,
        ),
        plan[1] is Invoke,
        plan[1]->instruction == token_sync_native_call(token_program, treasury),
    ensures
        ledger.run(plan, 0) matches Some(after) && returned_to_the_treasury(
            ledger,
            after,
            temporary,
            treasury,
        ),
{
    lemma_calls_apply(ledger, token_program, temporary, treasury, authority, 0, 0);
    let closed = ledger.close(temporary, treasury);
    assert(ledger.act(plan[0]) == Some(closed));
    lemma_calls_apply(closed, token_program, treasury, treasury, treasury, 0, 0);
    let synced = closed.sync(treasury);
    assert(closed.act(plan[1]) == Some(synced));
    assert(synced.run(plan, 2) == Some(synced));
    assert(closed.run(plan, 1) == Some(synced));
    assert(ledger.run(plan, 0) == Some(synced));
}

} // verus!
