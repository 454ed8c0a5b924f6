use crate::address::{all_distinct, keys_distinct, program_id, Address};
use crate::bytes::get_u64;
use crate::error::{Error, ProgramFailure};
use crate::message::{AccountView, Invocation, InvocationView};
use crate::resolver::{create_spec, ProgramDerivedAddress};
use crate::state::Intermediary;
use crate::subsystem::{
    rent_charge_fits, rent_exempt_minimum, rent_minimum_balance, token_account_spec,
    unpack_token_account, TokenBalance,
};
use vstd::prelude::*;

verus! {

/// What each command asks its payer to hold beyond what the command moves.
#[derive(Clone, Copy, Debug, PartialEq, Eq)]
pub struct FeeSchedule {
    pub initialize: u64,
    pub deposit_funds: u64,
    pub withdraw_funds: u64,
    pub buy_on_raydium: u64,
    pub sell_on_raydium: u64,
    pub buy_on_pumpswap: u64,
    pub sell_on_pumpswap: u64,
    pub change_manager: u64,
    pub change_trader: u64,
}

pub const FEE_INITIALIZE: u64 = 1010101;

pub const FEE_DEPOSIT_FUNDS: u64 = 1010101;

pub const FEE_WITHDRAW_FUNDS: u64 = 1010101;

pub const FEE_BUY_ON_RAYDIUM: u64 = 1010101;

pub const FEE_SELL_ON_RAYDIUM: u64 = 1010101;

pub const FEE_BUY_ON_PUMPSWAP: u64 = 1010101;

pub const FEE_SELL_ON_PUMPSWAP: u64 = 1010101;

pub const FEE_CHANGE_MANAGER: u64 = 1010101;

pub const FEE_CHANGE_TRADER: u64 = 1010101;

impl FeeSchedule {
    /// The schedule in which every command asks for the same.
    pub open spec fn standard_spec() -> FeeSchedule {
        FeeSchedule {
            initialize: FEE_INITIALIZE,
            deposit_funds: FEE_DEPOSIT_FUNDS,
            withdraw_funds: FEE_WITHDRAW_FUNDS,
            buy_on_raydium: FEE_BUY_ON_RAYDIUM,
            sell_on_raydium: FEE_SELL_ON_RAYDIUM,
            buy_on_pumpswap: FEE_BUY_ON_PUMPSWAP,
            sell_on_pumpswap: FEE_SELL_ON_PUMPSWAP,
            change_manager: FEE_CHANGE_MANAGER,
            change_trader: FEE_CHANGE_TRADER,
        }
    }

    pub fn standard() -> (r: FeeSchedule)
        ensures
            r == FeeSchedule::standard_spec(),
    {
        FeeSchedule {
            initialize: FEE_INITIALIZE,
            deposit_funds: FEE_DEPOSIT_FUNDS,
            withdraw_funds: FEE_WITHDRAW_FUNDS,
            buy_on_raydium: FEE_BUY_ON_RAYDIUM,
            sell_on_raydium: FEE_SELL_ON_RAYDIUM,
            buy_on_pumpswap: FEE_BUY_ON_PUMPSWAP,
            sell_on_pumpswap: FEE_SELL_ON_PUMPSWAP,
            change_manager: FEE_CHANGE_MANAGER,
            change_trader: FEE_CHANGE_TRADER,
        }
    }
}

/// The seeds and the bump with which the program signs for one of its derived
/// addresses.
#[derive(Clone, Debug, PartialEq, Eq)]
pub struct SignerSeeds {
    pub seeds: Vec<Address>,
    pub bump_seed: u8,
}

/// What a `SignerSeeds` holds.
#[verifier::ext_equal]
pub struct SignerSeedsView {
    pub seeds: Seq<Address>,
    pub bump_seed: u8,
}

impl View for SignerSeeds {
    type V = SignerSeedsView;

    open spec fn view(&self) -> SignerSeedsView {
        SignerSeedsView { seeds: self.seeds@, bump_seed: self.bump_seed }
    }
}

/// One thing that a command asks to be done on its behalf.
#[derive(Clone, Debug, PartialEq, Eq)]
pub enum Action {
    /// Make the call `instruction`, handing over the accounts that stand at
    /// `accounts` in the command's list, signed for the address of `signer`
    /// where there is one.
    Invoke { instruction: Invocation, accounts: Vec<usize>, signer: Option<SignerSeeds> },
    /// Write `data` at the start of the data of the account at `account`.
    Store { account: usize, data: Vec<u8> },
}

/// What an `Action` holds.
#[verifier::ext_equal]
pub enum ActionView {
    Invoke { instruction: InvocationView, accounts: Seq<usize>, signer: Option<SignerSeedsView> },
    Store { account: usize, data: Seq<u8> },
}

impl View for Action {
    type V = ActionView;

    open spec fn view(&self) -> ActionView {
        match *self {
            Action::Invoke { instruction, accounts, signer } => ActionView::Invoke {
                instruction: instruction@,
                accounts: accounts@,
                signer: match signer {
                    Some(s) => Some(s@),
                    None => None,
                },
            },
            Action::Store { account, data } => ActionView::Store { account, data: data@ },
        }
    }
}

/// The actions in `actions`, each by what it holds.
pub open spec fn actions_view(actions: Seq<Action>) -> Seq<ActionView> {
    actions.map_values(|a: Action| a@)
}

/// A call that nobody but its accounts' own signers signs.
pub open spec fn invoke(instruction: InvocationView, accounts: Seq<usize>) -> ActionView {
    ActionView::Invoke { instruction, accounts, signer: None }
}

/// A call for which the program signs with `seeds` and `bump_seed`.
pub open spec fn invoke_signed(
    instruction: InvocationView,
    accounts: Seq<usize>,
    seeds: Seq<Address>,
    bump_seed: u8,
) -> ActionView {
    ActionView::Invoke {
        instruction,
        accounts,
        signer: Some(SignerSeedsView { seeds, bump_seed }),
    }
}

/// How far a command has come. A command that takes several steps is asked
/// for again after each, with what the step before has left.
#[derive(Clone, Copy, Debug, PartialEq, Eq)]
pub enum Progress {
    /// Nothing has been done yet.
    Start,
    /// `Initialize` has had its accounts created.
    InitializeCreated,
    /// `BuyOnRaydium` has had the exchange called.
    BuyOnRaydiumSwapped { temporary_w_sol_token_account_authority_pubkey_bump_seed: u8 },
    /// `SellOnRaydium` has what it sells in the account that the exchange is to
    /// take it from: the temporary one where it sells a part.
    SellOnRaydiumPrepared { partial: bool },
    /// `SellOnRaydium` has had the exchange called; `baseline` is what the
    /// wrapped-value account held before, where a minimum was asked for.
    SellOnRaydiumSwapped { partial: bool, baseline: Option<u64> },
    /// `BuyOnPumpswap` has had the exchange called.
    BuyOnPumpswapSwapped,
    /// `SellOnPumpswap` has had the exchange called.
    SellOnPumpswapSwapped { partial: bool },
}

/// What a step of a command asks for.
#[derive(Clone, Debug, PartialEq, Eq)]
pub enum Directive {
    /// Do `actions` in their order, then ask again with `progress`.
    Continue { actions: Vec<Action>, progress: Progress },
    /// Do `actions` in their order; the command has then succeeded.
    Finish { actions: Vec<Action> },
}

/// What a `Directive` holds.
#[verifier::ext_equal]
pub enum DirectiveView {
    Continue { actions: Seq<ActionView>, progress: Progress },
    Finish { actions: Seq<ActionView> },
}

impl View for Directive {
    type V = DirectiveView;

    open spec fn view(&self) -> DirectiveView {
        match *self {
            Directive::Continue { actions, progress } => DirectiveView::Continue {
                actions: actions_view(actions@),
                progress,
            },
            Directive::Finish { actions } => DirectiveView::Finish {
                actions: actions_view(actions@),
            },
        }
    }
}

impl DirectiveView {
    /// The actions asked for.
    pub open spec fn actions(self) -> Seq<ActionView> {
        match self {
            DirectiveView::Continue { actions, .. } => actions,
            DirectiveView::Finish { actions } => actions,
        }
    }
}

/// What a step results in: what it asks for, or why the command is abandoned.
pub type Step = Result<DirectiveView, ProgramFailure>;

/// Whether `r` is the step `step`.
pub open spec fn is_step(r: Result<Directive, ProgramFailure>, step: Step) -> bool {
    match r {
        Ok(directive) => step == Ok::<DirectiveView, ProgramFailure>(directive@),
        Err(e) => step == Err::<DirectiveView, ProgramFailure>(e),
    }
}

/// The failure of the program's own that `e` is.
pub open spec fn fail(e: Error) -> ProgramFailure {
    ProgramFailure::Custom(e)
}

/// The step that asks for `directive`.
pub open spec fn asked(directive: DirectiveView) -> Step {
    Ok(directive)
}

/// The step that abandons the command with `failure`.
pub open spec fn abandoned(failure: ProgramFailure) -> Step {
    Err(failure)
}

/// The step that abandons the command with a failure of the program's own.
pub open spec fn refused(e: Error) -> Step {
    Err(fail(e))
}

/// Whether `a` and `b` are the same accounts but for what the account at
/// `place` holds.
pub open spec fn same_but_for(a: Seq<AccountView>, b: Seq<AccountView>, place: int) -> bool {
    &&& a.len() == b.len()
    &&& forall|i: int| 0 <= i < a.len() ==> a[i].key == b[i].key
    &&& forall|i: int| 0 <= i < a.len() && i != place ==> a[i] == b[i]
}

/// The least output that is asked of an exchange: the minimum, or nothing.
pub open spec fn minimum_or_zero(minimum: Option<u64>) -> u64 {
    match minimum {
        Some(m) => m,
        None => 0,
    }
}

/// Appends a call that the program does not sign.
pub(crate) fn push_invoke(actions: &mut Vec<Action>, instruction: Invocation, accounts: Vec<usize>)
    ensures
        actions_view(final(actions)@) == actions_view(old(actions)@).push(
            invoke(instruction@, accounts@),
        ),
{
    actions.push(Action::Invoke { instruction, accounts, signer: None });
    assert(actions_view(actions@) =~= actions_view(old(actions)@).push(
        invoke(instruction@, accounts@),
    ));
}

/// Appends a call that the program signs with `seeds` and `bump_seed`.
pub(crate) fn push_invoke_signed(
    actions: &mut Vec<Action>,
    instruction: Invocation,
    accounts: Vec<usize>,
    seeds: Vec<Address>,
    bump_seed: u8,
)
    ensures
        actions_view(final(actions)@) == actions_view(old(actions)@).push(
            invoke_signed(instruction@, accounts@, seeds@, bump_seed),
        ),
{
    actions.push(
        Action::Invoke { instruction, accounts, signer: Some(SignerSeeds { seeds, bump_seed }) },
    );
    assert(actions_view(actions@) =~= actions_view(old(actions)@).push(
        invoke_signed(instruction@, accounts@, seeds@, bump_seed),
    ));
}

/// Appends the writing of `data` to the account at `account`.
pub(crate) fn push_store(actions: &mut Vec<Action>, account: usize, data: Vec<u8>)
    ensures
        actions_view(final(actions)@) == actions_view(old(actions)@).push(
            ActionView::Store { account, data: data@ },
        ),
{
    actions.push(Action::Store { account, data });
    assert(actions_view(actions@) =~= actions_view(old(actions)@).push(
        ActionView::Store { account, data: data@ },
    ));
}

/// No actions.
pub(crate) fn no_actions() -> (r: Vec<Action>)
    ensures
        actions_view(r@) == Seq::<ActionView>::empty(),
{
    let r: Vec<Action> = Vec::new();
    assert(actions_view(r@) =~= Seq::<ActionView>::empty());
    r
}

/// The addresses of the first `n` of `accounts`, in their order.
pub open spec fn leading_keys(accounts: Seq<AccountView>, n: int) -> Seq<Address> {
    Seq::new(n as nat, |i: int| accounts[i].key)
}

/// Whether the first `n` of `accounts` are `n` different accounts.
pub(crate) fn leading_distinct(accounts: &[AccountView], n: usize) -> (r: bool)
    requires
        n <= accounts@.len(),
    ensures
        r == keys_distinct(leading_keys(accounts@, n as int), n as int),
{
    let mut keys: Vec<Address> = Vec::with_capacity(n);
    let mut i: usize = 0;
    while i < n
        invariant
            i <= n,
            n <= accounts@.len(),
            keys@ == leading_keys(accounts@, i as int),
        decreases n - i,
    {
        keys.push(accounts[i].key);
        i = i + 1;
        assert(keys@ =~= leading_keys(accounts@, i as int));
    }
    all_distinct(&keys)
}

/// Whether `key` is the address that `seeds` give under `bump_seed`: a bump
/// that gives no address fails as the derivation does, another address is an
/// invalid one.
pub open spec fn derived_key_check(seeds: Seq<Address>, bump_seed: u8, key: Address) -> Result<
    (),
    ProgramFailure,
> {
    match create_spec(seeds, bump_seed, program_id()) {
        Err(e) => Err(ProgramFailure::from_pubkey_error(e)),
        Ok(hash) => if hash != key@ {
            Err(fail(Error::InvalidAccountPubkey))
        } else {
            Ok(())
        },
    }
}

/// Recomputes the address of `resolver` under `bump_seed` and holds `key`
/// against it.
pub(crate) fn check_derived<R: ProgramDerivedAddress>(
    resolver: &R,
    bump_seed: u8,
    key: &Address,
) -> (r: Result<(), ProgramFailure>)
    ensures
        r == derived_key_check(resolver.seeds(), bump_seed, *key),
{
    match resolver.create(bump_seed) {
        Err(e) => Err(ProgramFailure::of_pubkey_error(e)),
        Ok(address) => {
            proof {
                crate::address::lemma_address_extensional(address, *key);
            }
            if address != *key {
                Err(ProgramFailure::Custom(Error::InvalidAccountPubkey))
            } else {
                Ok(())
            }
        },
    }
}

/// The balance that frees an account of `data_len` bytes from rent, by the rent
/// account `account`.
pub open spec fn rent_reserve_spec(account: AccountView, data_len: nat) -> Result<
    u64,
    ProgramFailure,
> {
    if !rent_charge_fits(account.data@, data_len) {
        Err(ProgramFailure::ArithmeticOverflow)
    } else {
        match rent_exempt_minimum(account.key@, account.data@, data_len) {
            None => Err(ProgramFailure::InvalidArgument),
            Some(minimum) => Ok(minimum),
        }
    }
}

/// Reads the rent parameters of `account` and computes the reserve for
/// `data_len` bytes.
pub(crate) fn rent_reserve(account: &AccountView, data_len: usize) -> (r: Result<
    u64,
    ProgramFailure,
>)
    requires
        data_len <= 0xffff_ffff,
    ensures
        r == rent_reserve_spec(*account, data_len as nat),
{
    if account.data.len() >= 17 {
        let rate = get_u64(account.data.as_slice(), 0);
        let size: u128 = 128 + data_len as u128;
        assert(size * rate <= 0x1_0000_007f * 0xffff_ffff_ffff_ffff) by (nonlinear_arith)
            requires
                size <= 0x1_0000_007f,
                rate <= 0xffff_ffff_ffff_ffff,
        ;
        if size * (rate as u128) > u64::MAX as u128 {
            return Err(ProgramFailure::ArithmeticOverflow);
        }
    }
    match rent_minimum_balance(account, data_len) {
        None => Err(ProgramFailure::InvalidArgument),
        Some(minimum) => Ok(minimum),
    }
}

/// What the token account in `data` holds; data that is no token account is
/// invalid account data.
pub open spec fn token_balance_spec(data: Seq<u8>) -> Result<TokenBalance, ProgramFailure> {
    match token_account_spec(data) {
        None => Err(ProgramFailure::InvalidAccountData),
        Some(balance) => Ok(balance),
    }
}

/// Reads a token account.
pub(crate) fn token_balance(account: &AccountView) -> (r: Result<TokenBalance, ProgramFailure>)
    ensures
        r == token_balance_spec(account.data@),
{
    match unpack_token_account(&account.data) {
        None => Err(ProgramFailure::InvalidAccountData),
        Some(balance) => Ok(balance),
    }
}

/// The record in `data`; data that is no record fails as a payload that is no
/// command does.
pub open spec fn record_spec(data: Seq<u8>) -> Result<Intermediary, ProgramFailure> {
    match Intermediary::decode_spec(data) {
        None => Err(ProgramFailure::BorshIoError),
        Some(record) => Ok(record),
    }
}

/// Reads the custody record.
pub(crate) fn read_record(account: &AccountView) -> (r: Result<Intermediary, ProgramFailure>)
    ensures
        r == record_spec(account.data@),
{
    match Intermediary::decode(account.data.as_slice()) {
        None => Err(ProgramFailure::BorshIoError),
        Some(record) => Ok(record),
    }
}

/// A call to the token program, or the failure for a program that is not it.
pub(crate) fn token_call(made: Option<Invocation>) -> (r: Result<Invocation, ProgramFailure>)
    ensures
        match made {
            Some(call) => r == Ok::<Invocation, ProgramFailure>(call),
            None => r == Err::<Invocation, ProgramFailure>(ProgramFailure::IncorrectProgramId),
        },
{
    match made {
        Some(call) => Ok(call),
        None => Err(ProgramFailure::IncorrectProgramId),
    }
}

} // verus!
