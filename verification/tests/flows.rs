use intermediary::resolver::{
    AnyMintTokenAccountAddressResolver, AnyMintTokenAccountAuthorityAddressResolver,
    ProgramDerivedAddress, TemporaryAnyMintTokenAccountAddressResolver,
    TemporaryAnyMintTokenAccountAuthorityAddressResolver, TemporaryWSolTokenAccountAddressResolver,
    TemporaryWSolTokenAccountAuthorityAddressResolver, WSolTokenAccountAddressResolver,
    WSolTokenAccountAuthorityAddressResolver,
};
use intermediary::{
    AccountView, Action, Address, Directive, Error, FeeSchedule, Instruction, Intermediary,
    Invocation, Processor, ProgramFailure, Progress,
};
use solana_program::account_info::AccountInfo;
use solana_program::program_pack::Pack;
use solana_program::pubkey::Pubkey;
use spl_token::state::{Account, Mint};

const RECORD_RESERVE: u64 = (128 + 228) * 3480 * 2;
const TOKEN_RESERVE: u64 = (128 + 165) * 3480 * 2;
const FEE: u64 = 1010101;

fn key(a: &Address) -> Pubkey {
    Pubkey::new_from_array(a.bytes)
}

fn address(n: u8) -> Address {
    let mut bytes = [n; 32];
    bytes[0] = 200;
    Address { bytes }
}

fn plain(key: Address, lamports: u64) -> AccountView {
    AccountView {
        key,
        owner: Address::system_program(),
        is_signer: false,
        is_writable: false,
        lamports,
        data: vec![],
    }
}

fn signer(mut account: AccountView) -> AccountView {
    account.is_signer = true;
    account
}

fn writable(mut account: AccountView) -> AccountView {
    account.is_writable = true;
    account
}

fn program(key: Address) -> AccountView {
    plain(key, 1)
}

fn rent_account() -> AccountView {
    let mut data = 3480u64.to_le_bytes().to_vec();
    data.extend_from_slice(&2.0f64.to_le_bytes());
    data.push(50);
    AccountView {
        key: Address::rent_sysvar(),
        owner: address(250),
        is_signer: false,
        is_writable: false,
        lamports: 1,
        data,
    }
}

fn mint_account(key: Address) -> AccountView {
    let mut data = vec![0u8; Mint::LEN];
    let mint = Mint { is_initialized: true, decimals: 6, supply: 1_000_000_000, ..Mint::default() };
    Mint::pack(mint, &mut data).unwrap();
    AccountView {
        key,
        owner: Address::token_program(),
        is_signer: false,
        is_writable: false,
        lamports: 1_461_600,
        data,
    }
}

fn token_amount(account: &AccountView) -> u64 {
    Account::unpack(&account.data).unwrap().amount
}

fn set_token_amount(account: &mut AccountView, amount: u64) {
    let mut state = Account::unpack(&account.data).unwrap();
    state.amount = amount;
    Account::pack(state, &mut account.data).unwrap();
}

fn position(accounts: &[AccountView], key: &Address) -> usize {
    accounts.iter().position(|a| a.key == *key).expect(
        "the call names an account that was not handed over",
    )
}

/// Checks that the call asks for no more than the command was given, as the
/// runtime does, and gives the place of each of its accounts in `accounts`.
fn places(accounts: &[AccountView], action: &Action) -> Vec<usize> {
    let (instruction, handed, signed) = match action {
        Action::Invoke { instruction, accounts, signer } => (instruction, accounts, signer),
        Action::Store { .. } => panic!("no call"),
    };
    let signed_for = signed.as_ref().map(|s| {
        let bump = [s.bump_seed];
        let mut seeds: Vec<&[u8]> = s.seeds.iter().map(|a| &a.bytes[..]).collect();
        seeds.push(&bump);
        Pubkey::create_program_address(&seeds, &key(&Address::program())).unwrap()
    });
    instruction
        .accounts
        .iter()
        .map(|meta| {
            let place = *handed
                .iter()
                .find(|&&h| accounts[h].key == meta.pubkey)
                .expect("the call names an account that was not handed over");
            let account = &accounts[place];
            if meta.is_signer {
                assert!(
                    account.is_signer || signed_for == Some(key(&meta.pubkey)),
                    "account {} does not sign",
                    place
                );
            }
            if meta.is_writable {
                assert!(account.is_writable, "account {} may not be changed", place);
            }
            place
        })
        .collect()
}

fn u64_at(data: &[u8], at: usize) -> u64 {
    u64::from_le_bytes(data[at..at + 8].try_into().unwrap())
}

fn system_call(
    accounts: &mut Vec<AccountView>,
    instruction: &Invocation,
    at: &[usize],
) -> Result<(), String> {
    let tag = u32::from_le_bytes(instruction.data[0..4].try_into().unwrap());
    let lamports = u64_at(&instruction.data, 4);
    if accounts[at[0]].lamports < lamports {
        return Err("insufficient funds".to_string());
    }
    match tag {
        0 => {
            let space = u64_at(&instruction.data, 12) as usize;
            let owner = Address { bytes: instruction.data[20..52].try_into().unwrap() };
            let new = &accounts[at[1]];
            if new.lamports != 0 || !new.data.is_empty() || new.owner != Address::system_program() {
                return Err("account already in use".to_string());
            }
            accounts[at[0]].lamports -= lamports;
            accounts[at[1]].lamports += lamports;
            accounts[at[1]].data = vec![0; space];
            accounts[at[1]].owner = owner;
        }
        2 => {
            accounts[at[0]].lamports -= lamports;
            accounts[at[1]].lamports += lamports;
        }
        _ => panic!("a system call that no command makes"),
    }
    Ok(())
}

fn token_call(
    accounts: &mut Vec<AccountView>,
    instruction: &Invocation,
    at: &[usize],
    action: &Action,
) -> Result<(), String> {
    let signed_for = match action {
        Action::Invoke { signer: Some(s), .. } => {
            let bump = [s.bump_seed];
            let mut seeds: Vec<&[u8]> = s.seeds.iter().map(|a| &a.bytes[..]).collect();
            seeds.push(&bump);
            Some(Pubkey::create_program_address(&seeds, &key(&Address::program())).unwrap())
        }
        _ => None,
    };
    let keys: Vec<Pubkey> = at.iter().map(|&i| key(&accounts[i].key)).collect();
    let owners: Vec<Pubkey> = at.iter().map(|&i| key(&accounts[i].owner)).collect();
    let mut lamports: Vec<u64> = at.iter().map(|&i| accounts[i].lamports).collect();
    let mut data: Vec<Vec<u8>> = at.iter().map(|&i| accounts[i].data.clone()).collect();
    let outcome;
    let new_owners: Vec<Pubkey>;
    {
        let infos: Vec<AccountInfo> = lamports
            .iter_mut()
            .zip(data.iter_mut())
            .enumerate()
            .map(|(n, (l, d))| {
                let meta = &instruction.accounts[n];
                let signs = accounts[at[n]].is_signer || signed_for == Some(keys[n]);
                AccountInfo::new(
                    &keys[n],
                    meta.is_signer && signs,
                    meta.is_writable,
                    l,
                    d,
                    &owners[n],
                    false,
                    0,
                )
            })
            .collect();
        outcome = spl_token::processor::Processor::process(
            &spl_token::ID,
            &infos,
            &instruction.data,
        );
        new_owners = infos.iter().map(|i| *i.owner).collect();
    }
    outcome.map_err(|e| format!("{:?}", e))?;
    for (n, &i) in at.iter().enumerate() {
        accounts[i].lamports = lamports[n];
        accounts[i].data = data[n].clone();
        accounts[i].owner = Address { bytes: new_owners[n].to_bytes() };
        if accounts[i].lamports == 0 && accounts[i].owner == Address::system_program() {
            accounts[i].data = vec![];
        }
    }
    Ok(())
}

/// A stand-in for an exchange: it takes `taken` tokens from the source of the
/// call and pays `paid` tokens into its destination.
#[derive(Clone, Copy)]
struct Fill {
    taken: u64,
    paid: u64,
}

fn wraps(account: &AccountView) -> bool {
    Account::unpack(&account.data).unwrap().is_native()
}

fn exchange_call(
    accounts: &mut Vec<AccountView>,
    instruction: &Invocation,
    at: &[usize],
    fill: Fill,
) {
    let raydium = instruction.program_id == Address::raydium_liquidity_pool_v4_program();
    let buys = instruction.data[0..8] == [102, 6, 61, 18, 1, 218, 235, 234];
    let (source, destination) = if raydium {
        (at[14], at[15])
    } else if buys {
        (at[6], at[5])
    } else {
        (at[5], at[6])
    };
    let before = token_amount(&accounts[source]);
    set_token_amount(&mut accounts[source], before - fill.taken);
    if wraps(&accounts[source]) {
        accounts[source].lamports -= fill.taken;
    }
    let before = token_amount(&accounts[destination]);
    set_token_amount(&mut accounts[destination], before + fill.paid);
    if wraps(&accounts[destination]) {
        accounts[destination].lamports += fill.paid;
    }
}

fn perform(accounts: &mut Vec<AccountView>, action: &Action, fill: Fill) -> Result<(), String> {
    match action {
        Action::Store { account, data } => {
            assert!(accounts[*account].is_writable);
            accounts[*account].data[..data.len()].copy_from_slice(data);
            Ok(())
        }
        Action::Invoke { instruction, .. } => {
            let at = places(accounts, action);
            if instruction.program_id == Address::system_program() {
                system_call(accounts, instruction, &at)
            } else if instruction.program_id == Address::token_program() {
                token_call(accounts, instruction, &at, action)
            } else {
                exchange_call(accounts, instruction, &at, fill);
                Ok(())
            }
        }
    }
}

/// Runs a command to its end as the program's entry point does, and counts the
/// actions it asked for.
fn run(
    accounts: &mut Vec<AccountView>,
    command: Instruction,
    fill: Fill,
) -> Result<usize, ProgramFailure> {
    let processor = Processor::new(FeeSchedule::standard());
    let input = command.encode();
    let before = accounts.clone();
    let mut progress = Progress::Start;
    let mut done = 0;
    loop {
        let step = processor.process(&Address::program(), accounts, &input, &progress);
        let (actions, next) = match step {
            Err(e) => {
                *accounts = before;
                return Err(e);
            }
            Ok(Directive::Continue { actions, progress }) => (actions, Some(progress)),
            Ok(Directive::Finish { actions }) => (actions, None),
        };
        for action in actions.iter() {
            perform(accounts, action, fill).expect("a call that the command asked for failed");
            done += 1;
        }
        match next {
            Some(next) => progress = next,
            None => return Ok(done),
        }
    }
}

const NO_FILL: Fill = Fill { taken: 0, paid: 0 };

struct Custody {
    investor: Address,
    record: Address,
    manager: Address,
    trader: Address,
    w_sol: (Address, u8),
    w_sol_authority: (Address, u8),
    temporary: (Address, u8),
    temporary_authority: (Address, u8),
}

fn custody() -> Custody {
    let record = address(2);
    let w_sol = WSolTokenAccountAddressResolver { intermediary_pubkey: &record }.find().unwrap();
    let w_sol_authority = WSolTokenAccountAuthorityAddressResolver {
        w_sol_token_account_pubkey: &w_sol.0,
        intermediary_pubkey: &record,
    }
    .find()
    .unwrap();
    let temporary =
        TemporaryWSolTokenAccountAddressResolver {
            w_sol_token_account_pubkey: &w_sol.0,
        }.find().unwrap();
    let temporary_authority = TemporaryWSolTokenAccountAuthorityAddressResolver {
        temporary_w_sol_token_account_pubkey: &temporary.0,
        intermediary_pubkey: &record,
    }
    .find()
    .unwrap();
    Custody {
        investor: address(1),
        record,
        manager: address(3),
        trader: address(4),
        w_sol,
        w_sol_authority,
        temporary,
        temporary_authority,
    }
}

fn initialize_accounts(c: &Custody, investor_lamports: u64) -> Vec<AccountView> {
    vec![
        signer(writable(plain(c.investor, investor_lamports))),
        signer(writable(plain(c.record, 0))),
        plain(c.manager, 5),
        plain(c.trader, 5),
        writable(plain(c.w_sol.0, 0)),
        plain(c.w_sol_authority.0, 0),
        plain(c.temporary.0, 0),
        plain(c.temporary_authority.0, 0),
        program(Address::native_mint()),
        program(Address::system_program()),
        rent_account(),
        program(Address::token_program()),
    ]
}

fn initialize_command(c: &Custody, lamports_to_treasury: u64) -> Instruction {
    Instruction::Initialize {
        lamports_to_treasury,
        w_sol_token_account_pubkey_bump_seed: c.w_sol.1,
        w_sol_token_account_authority_pubkey_bump_seed: c.w_sol_authority.1,
        temporary_w_sol_token_account_pubkey_bump_seed: c.temporary.1,
        temporary_w_sol_token_account_authority_pubkey_bump_seed: c.temporary_authority.1,
    }
}

/// The accounts as `Initialize` leaves them, by their addresses.
fn initialized(c: &Custody, lamports_to_treasury: u64) -> Vec<AccountView> {
    let mut accounts = initialize_accounts(c, 10_000_000_000);
    assert_eq!(run(&mut accounts, initialize_command(c, lamports_to_treasury), NO_FILL), Ok(4));
    accounts
}

fn pick(world: &[AccountView], key: &Address) -> AccountView {
    let mut account = world[position(world, key)].clone();
    account.is_signer = false;
    account.is_writable = false;
    account
}

fn put_back(world: &mut Vec<AccountView>, accounts: &[AccountView]) {
    for account in accounts {
        let at = position(world, &account.key);
        let (is_signer, is_writable) = (world[at].is_signer, world[at].is_writable);
        world[at] = account.clone();
        world[at].is_signer = is_signer;
        world[at].is_writable = is_writable;
    }
}

fn deposit_accounts(world: &[AccountView], c: &Custody) -> Vec<AccountView> {
    vec![
        signer(writable(pick(world, &c.investor))),
        pick(world, &c.record),
        writable(pick(world, &c.w_sol.0)),
        pick(world, &Address::system_program()),
        pick(world, &Address::token_program()),
    ]
}

fn withdraw_accounts(world: &[AccountView], c: &Custody) -> Vec<AccountView> {
    vec![
        signer(writable(pick(world, &c.investor))),
        pick(world, &c.record),
        writable(pick(world, &c.w_sol.0)),
        pick(world, &c.w_sol_authority.0),
        writable(pick(world, &c.temporary.0)),
        pick(world, &c.temporary_authority.0),
        pick(world, &Address::native_mint()),
        pick(world, &Address::system_program()),
        pick(world, &Address::rent_sysvar()),
        pick(world, &Address::token_program()),
    ]
}

fn lamports_of(accounts: &[AccountView], key: &Address) -> u64 {
    accounts[position(accounts, key)].lamports
}

#[test]
fn initialize_creates_the_record_and_the_treasury() {
    let c = custody();
    let accounts = initialized(&c, 1_000_000);
    let record = Intermediary::decode(&accounts[1].data).unwrap();
    assert_eq!(
        record,
        Intermediary {
            is_initialized: true,
            investor_pubkey: c.investor,
            manager_pubkey: c.manager,
            trader_pubkey: c.trader,
            w_sol_token_account_pubkey: c.w_sol.0,
            w_sol_token_account_authority_pubkey: c.w_sol_authority.0,
            temporary_w_sol_token_account_pubkey: c.temporary.0,
            temporary_w_sol_token_account_authority_pubkey: c.temporary_authority.0,
            w_sol_token_account_authority_pubkey_bump_seed: c.w_sol_authority.1,
            temporary_w_sol_token_account_pubkey_bump_seed: c.temporary.1,
            temporary_w_sol_token_account_authority_pubkey_bump_seed: c.temporary_authority.1,
        }
    );
    assert_eq!(accounts[1].owner, Address::program());
    assert_eq!(accounts[1].lamports, RECORD_RESERVE);
    let treasury = Account::unpack(&accounts[4].data).unwrap();
    assert_eq!(treasury.amount, 1_000_000);
    assert!(treasury.is_native());
    assert_eq!(treasury.owner, key(&c.w_sol_authority.0));
    assert_eq!(treasury.mint, spl_token::native_mint::ID);
    assert_eq!(accounts[4].lamports, TOKEN_RESERVE + 1_000_000);
    assert_eq!(accounts[0].lamports, 10_000_000_000 - RECORD_RESERVE - TOKEN_RESERVE - 1_000_000);
}

#[test]
fn the_record_names_the_addresses_that_its_bumps_recreate() {
    let c = custody();
    let accounts = initialized(&c, 7);
    let record = Intermediary::decode(&accounts[1].data).unwrap();
    let authority = WSolTokenAccountAuthorityAddressResolver {
        w_sol_token_account_pubkey: &record.w_sol_token_account_pubkey,
        intermediary_pubkey: &c.record,
    };
    assert_eq!(
        authority.create(record.w_sol_token_account_authority_pubkey_bump_seed),
        Ok(record.w_sol_token_account_authority_pubkey)
    );
    let temporary = TemporaryWSolTokenAccountAddressResolver {
        w_sol_token_account_pubkey: &record.w_sol_token_account_pubkey,
    };
    assert_eq!(
        temporary.create(record.temporary_w_sol_token_account_pubkey_bump_seed),
        Ok(record.temporary_w_sol_token_account_pubkey)
    );
    let temporary_authority = TemporaryWSolTokenAccountAuthorityAddressResolver {
        temporary_w_sol_token_account_pubkey: &record.temporary_w_sol_token_account_pubkey,
        intermediary_pubkey: &c.record,
    };
    assert_eq!(
        temporary_authority.create(record.temporary_w_sol_token_account_authority_pubkey_bump_seed),
        Ok(record.temporary_w_sol_token_account_authority_pubkey)
    );
    let w_sol = WSolTokenAccountAddressResolver { intermediary_pubkey: &c.record };
    assert_eq!(w_sol.create(c.w_sol.1), Ok(record.w_sol_token_account_pubkey));
}

#[test]
fn initialize_asks_for_the_treasury_seed_the_reserves_and_the_fee() {
    let c = custody();
    let needed = RECORD_RESERVE + TOKEN_RESERVE + 1_000_000 + FEE;
    let processor = Processor::new(FeeSchedule::standard());
    let input = initialize_command(&c, 1_000_000).encode();

    let short = initialize_accounts(&c, needed - 1);
    assert_eq!(
        processor.process(&Address::program(), &short, &input, &Progress::Start),
        Err(ProgramFailure::Custom(Error::InvalidAccountLamports))
    );

    let mut exact = initialize_accounts(&c, needed);
    assert_eq!(run(&mut exact, initialize_command(&c, 1_000_000), NO_FILL), Ok(4));
    assert_eq!(exact[0].lamports, FEE);
}

#[test]
fn initialize_asks_for_another_fee_under_another_schedule() {
    let c = custody();
    let mut fees = FeeSchedule::standard();
    fees.initialize = 5;
    let processor = Processor::new(fees);
    let input = initialize_command(&c, 1_000_000).encode();
    let needed = RECORD_RESERVE + TOKEN_RESERVE + 1_000_000 + 5;
    let short = initialize_accounts(&c, needed - 1);
    assert_eq!(
        processor.process(&Address::program(), &short, &input, &Progress::Start),
        Err(ProgramFailure::Custom(Error::InvalidAccountLamports))
    );
    let exact = initialize_accounts(&c, needed);
    assert!(processor.process(&Address::program(), &exact, &input, &Progress::Start).is_ok());
}

#[test]
fn initialize_then_a_deposit_of_nothing_leaves_the_treasury_as_it_was() {
    let c = custody();
    let mut world = initialized(&c, 1_000_000);
    let mut accounts = deposit_accounts(&world, &c);
    assert_eq!(
        run(&mut accounts, Instruction::DepositFunds { lamports_to_treasury: 0 }, NO_FILL),
        Ok(2),
    );
    assert_eq!(token_amount(&accounts[2]), 1_000_000);
    assert_eq!(accounts[2].lamports, TOKEN_RESERVE + 1_000_000);
    put_back(&mut world, &accounts);
    assert_eq!(token_amount(&world[4]), 1_000_000);
}

#[test]
fn a_deposit_adds_its_amount_to_the_treasury() {
    let c = custody();
    let world = initialized(&c, 1_000_000);
    let mut accounts = deposit_accounts(&world, &c);
    let before = accounts[0].lamports;
    assert_eq!(
        run(&mut accounts, Instruction::DepositFunds { lamports_to_treasury: 250 }, NO_FILL),
        Ok(2),
    );
    assert_eq!(token_amount(&accounts[2]), 1_000_250);
    assert_eq!(accounts[0].lamports, before - 250);
}

#[test]
fn a_deposit_needs_the_amount_and_the_fee() {
    let c = custody();
    let world = initialized(&c, 1_000_000);
    let mut accounts = deposit_accounts(&world, &c);
    accounts[0].lamports = 250 + FEE - 1;
    assert_eq!(
        run(&mut accounts, Instruction::DepositFunds { lamports_to_treasury: 250 }, NO_FILL),
        Err(ProgramFailure::Custom(Error::InvalidAccountLamports))
    );
    accounts[0].lamports = 250 + FEE;
    assert_eq!(
        run(&mut accounts, Instruction::DepositFunds { lamports_to_treasury: 250 }, NO_FILL),
        Ok(2),
    );
}

#[test]
fn a_deposit_of_more_than_any_balance_is_refused_and_does_not_wrap_around() {
    let c = custody();
    let world = initialized(&c, 1_000_000);
    let mut accounts = deposit_accounts(&world, &c);
    accounts[0].lamports = u64::MAX;
    assert_eq!(
        run(&mut accounts, Instruction::DepositFunds { lamports_to_treasury: u64::MAX }, NO_FILL),
        Err(ProgramFailure::Custom(Error::InvalidAccountLamports))
    );
}

#[test]
fn a_withdrawal_pays_its_amount_to_the_investor() {
    let c = custody();
    let world = initialized(&c, 1_000_000);
    let mut accounts = withdraw_accounts(&world, &c);
    let before = accounts[0].lamports;
    assert_eq!(
        run(&mut accounts, Instruction::WithdrawFunds { lamports_from_treasury: 400_000 }, NO_FILL),
        Ok(4),
    );
    assert_eq!(token_amount(&accounts[2]), 600_000);
    assert_eq!(accounts[2].lamports, TOKEN_RESERVE + 600_000);
    assert_eq!(accounts[0].lamports, before + 400_000);
    assert_eq!(accounts[4].lamports, 0);
    assert!(accounts[4].data.is_empty());
}

#[test]
fn a_withdrawal_of_all_empties_the_treasury() {
    let c = custody();
    let world = initialized(&c, 1_000_000);
    let mut accounts = withdraw_accounts(&world, &c);
    let before = accounts[0].lamports;
    assert_eq!(
        run(
            &mut accounts,
            Instruction::WithdrawFunds { lamports_from_treasury: 1_000_000 },
            NO_FILL,
        ),
        Ok(4),
    );
    assert_eq!(token_amount(&accounts[2]), 0);
    assert_eq!(accounts[2].lamports, TOKEN_RESERVE);
    assert_eq!(accounts[0].lamports, before + 1_000_000);
}

#[test]
fn a_withdrawal_beyond_the_treasury_is_refused_and_changes_nothing() {
    let c = custody();
    let world = initialized(&c, 1_000_000);
    let mut accounts = withdraw_accounts(&world, &c);
    let before = accounts.clone();
    assert_eq!(
        run(
            &mut accounts,
            Instruction::WithdrawFunds { lamports_from_treasury: 1_000_001 },
            NO_FILL,
        ),
        Err(ProgramFailure::Custom(Error::TokenAccountInsufficientAmount))
    );
    assert_eq!(accounts, before);
}

#[test]
fn a_withdrawal_is_the_investors_alone() {
    let c = custody();
    let world = initialized(&c, 1_000_000);
    let mut accounts = withdraw_accounts(&world, &c);
    accounts[0] = signer(writable(plain(address(77), 1_000_000_000)));
    assert_eq!(
        run(&mut accounts, Instruction::WithdrawFunds { lamports_from_treasury: 1 }, NO_FILL),
        Err(ProgramFailure::Custom(Error::IntermediaryInvalidInvestor))
    );
}

#[test]
fn a_withdrawal_names_the_four_sub_accounts_of_the_record() {
    let c = custody();
    let world = initialized(&c, 1_000_000);
    let cases = [
        (2, Error::IntermediaryInvalidWSolTokenAccount),
        (3, Error::IntermediaryInvalidWSolTokenAccountAuthority),
        (4, Error::IntermediaryInvalidTemporaryWSolTokenAccount),
        (5, Error::IntermediaryInvalidTemporaryWSolTokenAccountAuthority),
    ];
    for (at, error) in cases {
        let mut accounts = withdraw_accounts(&world, &c);
        accounts[at].key = address(90);
        assert_eq!(
            run(&mut accounts, Instruction::WithdrawFunds { lamports_from_treasury: 1 }, NO_FILL),
            Err(ProgramFailure::Custom(error))
        );
    }
}

#[test]
fn an_uninitialized_record_takes_no_command_but_initialize() {
    let c = custody();
    let world = initialized(&c, 1_000_000);
    let mut accounts = withdraw_accounts(&world, &c);
    accounts[1].data[0] = 0;
    assert_eq!(
        run(&mut accounts, Instruction::WithdrawFunds { lamports_from_treasury: 1 }, NO_FILL),
        Err(ProgramFailure::Custom(Error::IntermediaryIsNotInitialized))
    );
    let mut accounts = deposit_accounts(&world, &c);
    accounts[1].data[0] = 0;
    assert_eq!(
        run(&mut accounts, Instruction::DepositFunds { lamports_to_treasury: 1 }, NO_FILL),
        Err(ProgramFailure::Custom(Error::IntermediaryIsNotInitialized))
    );
    let mut accounts = deposit_accounts(&world, &c);
    accounts[1].data.push(0);
    assert_eq!(
        run(&mut accounts, Instruction::DepositFunds { lamports_to_treasury: 1 }, NO_FILL),
        Err(ProgramFailure::BorshIoError)
    );
}

#[test]
fn an_address_given_twice_is_refused() {
    let c = custody();
    let mut accounts = initialize_accounts(&c, 10_000_000_000);
    accounts[3].key = accounts[2].key;
    assert_eq!(
        run(&mut accounts, initialize_command(&c, 1), NO_FILL),
        Err(ProgramFailure::Custom(Error::InvalidAccountPubkey))
    );
    let world = initialized(&c, 1_000_000);
    let mut accounts = deposit_accounts(&world, &c);
    accounts[1].key = accounts[0].key;
    assert_eq!(
        run(&mut accounts, Instruction::DepositFunds { lamports_to_treasury: 1 }, NO_FILL),
        Err(ProgramFailure::Custom(Error::InvalidAccountPubkey))
    );
}

#[test]
fn initialize_refuses_a_bump_that_gives_another_address() {
    let c = custody();
    let bump = c.w_sol_authority.1;
    let mut other = None;
    for candidate in (1..bump).rev() {
        let resolver = WSolTokenAccountAuthorityAddressResolver {
            w_sol_token_account_pubkey: &c.w_sol.0,
            intermediary_pubkey: &c.record,
        };
        if resolver.create(candidate).is_ok() {
            other = Some(candidate);
            break;
        }
    }
    let mut command = initialize_command(&c, 1);
    if let Instruction::Initialize {
        w_sol_token_account_authority_pubkey_bump_seed, ..
    } = &mut command
    {
        *w_sol_token_account_authority_pubkey_bump_seed = other.unwrap();
    }
    let mut accounts = initialize_accounts(&c, 10_000_000_000);
    assert_eq!(
        run(&mut accounts, command, NO_FILL),
        Err(ProgramFailure::Custom(Error::InvalidAccountPubkey)),
    );
}

#[test]
fn initialize_fails_as_the_derivation_does_on_a_bump_that_gives_no_address() {
    let c = custody();
    let resolver = WSolTokenAccountAddressResolver { intermediary_pubkey: &c.record };
    let bad = (0..=255u8).find(|b| resolver.create(*b).is_err()).unwrap();
    let mut command = initialize_command(&c, 1);
    if let Instruction::Initialize { w_sol_token_account_pubkey_bump_seed, .. } = &mut command {
        *w_sol_token_account_pubkey_bump_seed = bad;
    }
    let mut accounts = initialize_accounts(&c, 10_000_000_000);
    assert_eq!(run(&mut accounts, command, NO_FILL), Err(ProgramFailure::InvalidSeeds));
}

#[test]
fn initialize_checks_flags_owners_and_data_in_that_order() {
    let c = custody();
    let command = initialize_command(&c, 1);

    let mut accounts = initialize_accounts(&c, 10_000_000_000);
    accounts[1].is_signer = false;
    accounts[2].owner = address(99);
    assert_eq!(
        run(&mut accounts, command, NO_FILL),
        Err(ProgramFailure::Custom(Error::InvalidAccountConfigurationFlags))
    );

    let mut accounts = initialize_accounts(&c, 10_000_000_000);
    accounts[2].owner = address(99);
    accounts[3].data = vec![1];
    assert_eq!(
        run(&mut accounts, command, NO_FILL),
        Err(ProgramFailure::Custom(Error::InvalidAccountOwner)),
    );

    let mut accounts = initialize_accounts(&c, 10_000_000_000);
    accounts[3].data = vec![1];
    accounts[2].lamports = 0;
    assert_eq!(
        run(&mut accounts, command, NO_FILL),
        Err(ProgramFailure::Custom(Error::InvalidAccountData)),
    );

    let mut accounts = initialize_accounts(&c, 10_000_000_000);
    accounts[2].lamports = 0;
    assert_eq!(
        run(&mut accounts, command, NO_FILL),
        Err(ProgramFailure::Custom(Error::InvalidAccountLamports)),
    );
}

#[test]
fn too_few_accounts_are_not_enough() {
    let c = custody();
    let mut accounts = initialize_accounts(&c, 10_000_000_000);
    accounts.pop();
    assert_eq!(
        run(&mut accounts, initialize_command(&c, 1), NO_FILL),
        Err(ProgramFailure::NotEnoughAccountKeys),
    );
    let mut none: Vec<AccountView> = vec![];
    assert_eq!(
        run(&mut none, Instruction::ChangeManager, NO_FILL),
        Err(ProgramFailure::NotEnoughAccountKeys),
    );
}

#[test]
fn a_payload_that_is_no_command_fails_before_any_account_is_read() {
    let processor = Processor::new(FeeSchedule::standard());
    let inputs = [
        vec![],
        vec![9],
        vec![1, 0, 0],
        vec![7, 0],
        vec![4, 1, 0, 0, 0, 0, 0, 0, 0, 2, 0, 0, 0, 0],
    ];
    for input in inputs {
        assert_eq!(
            processor.process(&Address::program(), &[], &input, &Progress::Start),
            Err(ProgramFailure::BorshIoError)
        );
    }
}

#[test]
fn a_step_out_of_turn_is_an_invalid_argument() {
    let c = custody();
    let processor = Processor::new(FeeSchedule::standard());
    let accounts = initialize_accounts(&c, 10_000_000_000);
    let input = initialize_command(&c, 1).encode();
    assert_eq!(
        processor.process(&Address::program(), &accounts, &input, &Progress::BuyOnPumpswapSwapped),
        Err(ProgramFailure::InvalidArgument)
    );
    let input = Instruction::DepositFunds { lamports_to_treasury: 1 }.encode();
    assert_eq!(
        processor.process(&Address::program(), &accounts, &input, &Progress::InitializeCreated),
        Err(ProgramFailure::InvalidArgument)
    );
}

#[test]
fn initialize_refuses_a_treasury_that_does_not_hold_the_seed() {
    let c = custody();
    let processor = Processor::new(FeeSchedule::standard());
    let input = initialize_command(&c, 1_000_000).encode();
    let mut accounts = initialized(&c, 1_000_000);
    assert_eq!(
        processor.process(&Address::program(), &accounts, &input, &Progress::InitializeCreated),
        Ok(Directive::Finish { actions: vec![] })
    );
    set_token_amount(&mut accounts[4], 999_999);
    assert_eq!(
        processor.process(&Address::program(), &accounts, &input, &Progress::InitializeCreated),
        Err(ProgramFailure::Custom(Error::TokenAccountInvalidAmount))
    );
    let mut state = Account::unpack(&accounts[4].data).unwrap();
    state.is_native = solana_program::program_option::COption::None;
    state.amount = 1_000_000;
    Account::pack(state, &mut accounts[4].data).unwrap();
    assert_eq!(
        processor.process(&Address::program(), &accounts, &input, &Progress::InitializeCreated),
        Err(ProgramFailure::Custom(Error::TokenAccountInvalidMint))
    );
    accounts[4].data[108] = 3;
    assert_eq!(
        processor.process(&Address::program(), &accounts, &input, &Progress::InitializeCreated),
        Err(ProgramFailure::InvalidAccountData)
    );
}

#[test]
fn the_rent_account_must_hold_the_rent_parameters() {
    let c = custody();
    let mut accounts = initialize_accounts(&c, 10_000_000_000);
    accounts[10].data.truncate(16);
    assert_eq!(
        run(&mut accounts, initialize_command(&c, 1), NO_FILL),
        Err(ProgramFailure::InvalidArgument),
    );
    let mut accounts = initialize_accounts(&c, 10_000_000_000);
    accounts[10].data[0..8].copy_from_slice(&u64::MAX.to_le_bytes());
    assert_eq!(
        run(&mut accounts, initialize_command(&c, 1), NO_FILL),
        Err(ProgramFailure::ArithmeticOverflow),
    );
}

fn change_accounts(
    world: &[AccountView],
    c: &Custody,
    by: &Address,
    candidate: AccountView,
) -> Vec<AccountView> {
    vec![
        signer(pick(world, by)),
        writable(pick(world, &c.record)),
        candidate,
        pick(world, &Address::system_program()),
    ]
}

#[test]
fn a_change_of_manager_writes_the_candidate_into_the_record() {
    let c = custody();
    let world = initialized(&c, 1_000_000);
    let mut accounts = change_accounts(&world, &c, &c.investor, plain(address(50), 1));
    let before = Intermediary::decode(&accounts[1].data).unwrap();
    assert_eq!(run(&mut accounts, Instruction::ChangeManager, NO_FILL), Ok(1));
    let after = Intermediary::decode(&accounts[1].data).unwrap();
    assert_eq!(after, Intermediary { manager_pubkey: address(50), ..before });
}

#[test]
fn a_change_of_trader_is_the_managers_to_make() {
    let c = custody();
    let world = initialized(&c, 1_000_000);
    let mut manager = plain(c.manager, FEE);
    manager.is_signer = true;
    let mut accounts = vec![
        manager,
        writable(pick(&world, &c.record)),
        plain(address(51), 1),
        pick(&world, &Address::system_program()),
    ];
    let before = Intermediary::decode(&accounts[1].data).unwrap();
    assert_eq!(run(&mut accounts, Instruction::ChangeTrader, NO_FILL), Ok(1));
    let after = Intermediary::decode(&accounts[1].data).unwrap();
    assert_eq!(after, Intermediary { trader_pubkey: address(51), ..before });

    let mut accounts = change_accounts(&world, &c, &c.investor, plain(address(51), 1));
    assert_eq!(
        run(&mut accounts, Instruction::ChangeTrader, NO_FILL),
        Err(ProgramFailure::Custom(Error::IntermediaryInvalidManager))
    );
}

#[test]
fn a_change_of_role_refuses_whoever_holds_a_role() {
    let c = custody();
    let world = initialized(&c, 1_000_000);
    for holder in [c.manager, c.trader] {
        let mut accounts = change_accounts(&world, &c, &c.investor, plain(holder, 1));
        assert_eq!(
            run(&mut accounts, Instruction::ChangeManager, NO_FILL),
            Err(ProgramFailure::Custom(Error::IntermediaryInvalidManager))
        );
    }
    for holder in [c.investor, c.trader] {
        let mut manager = plain(c.manager, FEE);
        manager.is_signer = true;
        let mut accounts = vec![
            manager,
            writable(pick(&world, &c.record)),
            plain(holder, 1),
            pick(&world, &Address::system_program()),
        ];
        assert_eq!(
            run(&mut accounts, Instruction::ChangeTrader, NO_FILL),
            Err(ProgramFailure::Custom(Error::IntermediaryInvalidTrader))
        );
    }
    let mut accounts = change_accounts(&world, &c, &c.investor, plain(c.investor, 1));
    assert_eq!(
        run(&mut accounts, Instruction::ChangeManager, NO_FILL),
        Err(ProgramFailure::Custom(Error::InvalidAccountPubkey))
    );
}

#[test]
fn a_change_of_role_asks_for_a_funded_empty_account_of_the_system_program() {
    let c = custody();
    let world = initialized(&c, 1_000_000);
    let mut accounts = change_accounts(&world, &c, &c.investor, plain(address(50), 0));
    assert_eq!(
        run(&mut accounts, Instruction::ChangeManager, NO_FILL),
        Err(ProgramFailure::Custom(Error::InvalidAccountLamports))
    );
    let mut candidate = plain(address(50), 1);
    candidate.data = vec![0];
    let mut accounts = change_accounts(&world, &c, &c.investor, candidate);
    assert_eq!(
        run(&mut accounts, Instruction::ChangeManager, NO_FILL),
        Err(ProgramFailure::Custom(Error::InvalidAccountData))
    );
    let mut candidate = plain(address(50), 1);
    candidate.owner = address(60);
    let mut accounts = change_accounts(&world, &c, &c.investor, candidate);
    assert_eq!(
        run(&mut accounts, Instruction::ChangeManager, NO_FILL),
        Err(ProgramFailure::Custom(Error::InvalidAccountOwner))
    );
    let mut accounts = change_accounts(&world, &c, &c.investor, plain(address(50), 1));
    accounts[0].lamports = FEE - 1;
    assert_eq!(
        run(&mut accounts, Instruction::ChangeManager, NO_FILL),
        Err(ProgramFailure::Custom(Error::InvalidAccountLamports))
    );
}

struct Trade {
    mint: Address,
    holding: (Address, u8),
    holding_authority: (Address, u8),
    temporary: (Address, u8),
    temporary_authority: (Address, u8),
}

fn trade(c: &Custody) -> Trade {
    let mint = address(30);
    let holding = AnyMintTokenAccountAddressResolver {
        any_mint_token_mint_pubkey: &mint,
        intermediary_pubkey: &c.record,
    }
    .find()
    .unwrap();
    let holding_authority = AnyMintTokenAccountAuthorityAddressResolver {
        any_mint_token_account_pubkey: &holding.0,
        intermediary_pubkey: &c.record,
    }
    .find()
    .unwrap();
    let temporary = TemporaryAnyMintTokenAccountAddressResolver {
        any_mint_token_account_pubkey: &holding.0,
        intermediary_pubkey: &c.record,
    }
    .find()
    .unwrap();
    let temporary_authority = TemporaryAnyMintTokenAccountAuthorityAddressResolver {
        temporary_any_mint_token_account_pubkey: &temporary.0,
        intermediary_pubkey: &c.record,
    }
    .find()
    .unwrap();
    Trade { mint, holding, holding_authority, temporary, temporary_authority }
}

fn extend_world(world: &mut Vec<AccountView>, c: &Custody, t: &Trade) {
    let at = position(world, &c.trader);
    world[at].lamports = 1_000_000_000;
    world.push(mint_account(t.mint));
    world.push(plain(t.holding.0, 0));
    world.push(plain(t.holding_authority.0, 0));
    world.push(plain(t.temporary.0, 0));
    world.push(plain(t.temporary_authority.0, 0));
    world.push(program(Address::raydium_liquidity_pool_v4_program()));
    world.push(program(Address::pumpswap_program()));
    world.push(program(Address::associated_token_account_program()));
    for n in 100..114 {
        world.push(plain(address(n), 1));
    }
}

fn raydium_tail(world: &[AccountView]) -> Vec<AccountView> {
    let w = |n: u8| writable(pick(world, &address(n)));
    let r = |n: u8| pick(world, &address(n));
    vec![
        pick(world, &Address::raydium_liquidity_pool_v4_program()),
        w(100),
        r(101),
        w(102),
        w(103),
        w(104),
        r(105),
        w(106),
        w(107),
        w(108),
        w(109),
        w(110),
        w(111),
        r(112),
    ]
}

fn buy_on_raydium_accounts(world: &[AccountView], c: &Custody, t: &Trade) -> Vec<AccountView> {
    let mut accounts = vec![
        signer(writable(pick(world, &c.trader))),
        pick(world, &c.record),
        writable(pick(world, &c.w_sol.0)),
        pick(world, &c.w_sol_authority.0),
        writable(pick(world, &c.temporary.0)),
        pick(world, &c.temporary_authority.0),
        writable(pick(world, &t.holding.0)),
        pick(world, &t.holding_authority.0),
        pick(world, &Address::native_mint()),
        pick(world, &t.mint),
        pick(world, &Address::system_program()),
        pick(world, &Address::rent_sysvar()),
        pick(world, &Address::token_program()),
    ];
    accounts.extend(raydium_tail(world));
    accounts
}

fn sell_on_raydium_accounts(world: &[AccountView], c: &Custody, t: &Trade) -> Vec<AccountView> {
    let mut accounts = vec![
        signer(writable(pick(world, &c.trader))),
        pick(world, &c.record),
        writable(pick(world, &c.w_sol.0)),
        writable(pick(world, &t.holding.0)),
        pick(world, &t.holding_authority.0),
        writable(pick(world, &t.temporary.0)),
        pick(world, &t.temporary_authority.0),
        pick(world, &t.mint),
        pick(world, &Address::system_program()),
        pick(world, &Address::rent_sysvar()),
        pick(world, &Address::token_program()),
    ];
    accounts.extend(raydium_tail(world));
    accounts
}

fn pumpswap_tail(world: &[AccountView]) -> Vec<AccountView> {
    let w = |n: u8| writable(pick(world, &address(n)));
    let r = |n: u8| pick(world, &address(n));
    vec![
        pick(world, &Address::pumpswap_program()),
        r(100),
        r(101),
        w(102),
        w(103),
        r(104),
        w(105),
        pick(world, &Address::token_program()),
        pick(world, &Address::token_program()),
        pick(world, &Address::associated_token_account_program()),
        r(106),
    ]
}

fn buy_on_pumpswap_accounts(world: &[AccountView], c: &Custody, t: &Trade) -> Vec<AccountView> {
    let mut accounts = vec![
        signer(writable(pick(world, &c.trader))),
        pick(world, &c.record),
        writable(pick(world, &c.w_sol.0)),
        pick(world, &c.w_sol_authority.0),
        writable(pick(world, &c.temporary.0)),
        writable(pick(world, &t.holding.0)),
        pick(world, &Address::native_mint()),
        pick(world, &t.mint),
        pick(world, &Address::system_program()),
        pick(world, &Address::rent_sysvar()),
        pick(world, &Address::token_program()),
    ];
    accounts.extend(pumpswap_tail(world));
    accounts
}

fn sell_on_pumpswap_accounts(world: &[AccountView], c: &Custody, t: &Trade) -> Vec<AccountView> {
    let mut accounts = vec![
        signer(writable(pick(world, &c.trader))),
        pick(world, &c.record),
        writable(pick(world, &c.w_sol.0)),
        writable(pick(world, &c.temporary.0)),
        writable(pick(world, &t.holding.0)),
        writable(pick(world, &t.temporary.0)),
        pick(world, &Address::native_mint()),
        pick(world, &t.mint),
        pick(world, &Address::system_program()),
        pick(world, &Address::rent_sysvar()),
        pick(world, &Address::token_program()),
    ];
    accounts.extend(pumpswap_tail(world));
    accounts
}

fn buy_on_raydium(c: &Custody, t: &Trade, input: u64, minimum: u64) -> Instruction {
    let _ = c;
    Instruction::BuyOnRaydium {
        input_token_amount: input,
        minimum_output_token_amount: minimum,
        any_mint_token_account_pubkey_bump_seed: t.holding.1,
        any_mint_token_account_authority_pubkey_bump_seed: t.holding_authority.1,
    }
}

fn sell_on_raydium(t: &Trade, input: u64, minimum: Option<u64>) -> Instruction {
    Instruction::SellOnRaydium {
        input_token_amount: input,
        minimum_output_token_amount: minimum,
        any_mint_token_account_pubkey_bump_seed: t.holding.1,
        any_mint_token_account_authority_pubkey_bump_seed: t.holding_authority.1,
        temporary_any_mint_token_account_pubkey_bump_seed: t.temporary.1,
        temporary_any_mint_token_account_authority_pubkey_bump_seed: t.temporary_authority.1,
    }
}

fn buy_on_pumpswap(t: &Trade, out: u64, most: u64) -> Instruction {
    Instruction::BuyOnPumpswap {
        base_amount_out: out,
        maximum_quote_amount_in: most,
        any_mint_token_account_pubkey_bump_seed: t.holding.1,
    }
}

fn sell_on_pumpswap(t: &Trade, input: u64, minimum: Option<u64>) -> Instruction {
    Instruction::SellOnPumpswap {
        input_token_amount: input,
        minimum_output_token_amount: minimum,
        any_mint_token_account_pubkey_bump_seed: t.holding.1,
        temporary_any_mint_token_account_pubkey_bump_seed: t.temporary.1,
    }
}

/// A world in which the treasury holds 1,000,000 and the trader has bought 500
/// tokens on the first exchange for 300,000 of them.
fn world_after_a_purchase() -> (Vec<AccountView>, Custody, Trade) {
    let c = custody();
    let t = trade(&c);
    let mut world = initialized(&c, 1_000_000);
    extend_world(&mut world, &c, &t);
    let mut accounts = buy_on_raydium_accounts(&world, &c, &t);
    assert_eq!(
        run(
            &mut accounts,
            buy_on_raydium(&c, &t, 300_000, 500),
            Fill { taken: 300_000, paid: 500 },
        ),
        Ok(8),
    );
    put_back(&mut world, &accounts);
    (world, c, t)
}

#[test]
fn a_purchase_on_raydium_spends_the_input_and_closes_the_temporary_account() {
    let (world, c, t) = world_after_a_purchase();
    let treasury = &world[position(&world, &c.w_sol.0)];
    assert_eq!(token_amount(treasury), 700_000 + TOKEN_RESERVE);
    assert_eq!(treasury.lamports, TOKEN_RESERVE + 700_000 + TOKEN_RESERVE);
    let holding = Account::unpack(&world[position(&world, &t.holding.0)].data).unwrap();
    assert_eq!(holding.amount, 500);
    assert_eq!(holding.owner, key(&t.holding_authority.0));
    assert_eq!(holding.mint, key(&t.mint));
    let temporary = &world[position(&world, &c.temporary.0)];
    assert_eq!(temporary.lamports, 0);
    assert!(temporary.data.is_empty());
    assert_eq!(temporary.owner, Address::system_program());
    assert_eq!(lamports_of(&world, &c.trader), 1_000_000_000 - 2 * TOKEN_RESERVE);
}

#[test]
fn a_purchase_on_raydium_that_leaves_input_unspent_is_refused() {
    let c = custody();
    let t = trade(&c);
    let mut world = initialized(&c, 1_000_000);
    extend_world(&mut world, &c, &t);
    let mut accounts = buy_on_raydium_accounts(&world, &c, &t);
    let before = accounts.clone();
    assert_eq!(
        run(
            &mut accounts,
            buy_on_raydium(&c, &t, 300_000, 500),
            Fill { taken: 299_999, paid: 500 },
        ),
        Err(ProgramFailure::Custom(Error::TokenAccountInvalidAmount))
    );
    assert_eq!(accounts, before);
}

#[test]
fn a_purchase_on_raydium_that_pays_less_than_the_minimum_is_refused() {
    let c = custody();
    let t = trade(&c);
    let mut world = initialized(&c, 1_000_000);
    extend_world(&mut world, &c, &t);
    let mut accounts = buy_on_raydium_accounts(&world, &c, &t);
    assert_eq!(
        run(
            &mut accounts,
            buy_on_raydium(&c, &t, 300_000, 500),
            Fill { taken: 300_000, paid: 499 },
        ),
        Err(ProgramFailure::Custom(Error::TokenAccountInvalidAmount))
    );
}

#[test]
fn a_purchase_needs_the_input_in_the_treasury_and_two_reserves_with_the_trader() {
    let c = custody();
    let t = trade(&c);
    let mut world = initialized(&c, 1_000_000);
    extend_world(&mut world, &c, &t);
    let mut accounts = buy_on_raydium_accounts(&world, &c, &t);
    assert_eq!(
        run(&mut accounts, buy_on_raydium(&c, &t, 1_000_001, 1), NO_FILL),
        Err(ProgramFailure::Custom(Error::TokenAccountInsufficientAmount))
    );
    accounts[0].lamports = 2 * TOKEN_RESERVE + FEE - 1;
    assert_eq!(
        run(&mut accounts, buy_on_raydium(&c, &t, 1, 1), NO_FILL),
        Err(ProgramFailure::Custom(Error::InvalidAccountLamports))
    );
}

#[test]
fn a_trade_is_the_traders_alone_and_goes_to_the_known_exchange() {
    let c = custody();
    let t = trade(&c);
    let mut world = initialized(&c, 1_000_000);
    extend_world(&mut world, &c, &t);
    let mut accounts = buy_on_raydium_accounts(&world, &c, &t);
    accounts[0] = signer(writable(plain(address(88), 1_000_000_000)));
    assert_eq!(
        run(&mut accounts, buy_on_raydium(&c, &t, 1, 1), NO_FILL),
        Err(ProgramFailure::Custom(Error::IntermediaryInvalidInvestor))
    );
    let mut accounts = buy_on_raydium_accounts(&world, &c, &t);
    accounts[13].key = address(89);
    assert_eq!(
        run(&mut accounts, buy_on_raydium(&c, &t, 1, 1), NO_FILL),
        Err(ProgramFailure::Custom(Error::InvalidAccountPubkey))
    );
    let mut accounts = buy_on_raydium_accounts(&world, &c, &t);
    accounts[20].is_writable = false;
    assert_eq!(
        run(&mut accounts, buy_on_raydium(&c, &t, 1, 1), NO_FILL),
        Err(ProgramFailure::Custom(Error::InvalidAccountConfigurationFlags))
    );
    let mut accounts = buy_on_raydium_accounts(&world, &c, &t);
    accounts[26].key = accounts[25].key;
    assert_eq!(
        run(&mut accounts, buy_on_raydium(&c, &t, 1, 1), NO_FILL),
        Err(ProgramFailure::Custom(Error::InvalidAccountPubkey))
    );
}

#[test]
fn a_sale_of_a_part_on_raydium_goes_through_the_temporary_account() {
    let (mut world, c, t) = world_after_a_purchase();
    let mut accounts = sell_on_raydium_accounts(&world, &c, &t);
    assert_eq!(
        run(
            &mut accounts,
            sell_on_raydium(&t, 200, Some(90_000)),
            Fill { taken: 200, paid: 100_000 },
        ),
        Ok(6),
    );
    put_back(&mut world, &accounts);
    assert_eq!(token_amount(&world[position(&world, &t.holding.0)]), 300);
    let temporary = &world[position(&world, &t.temporary.0)];
    assert_eq!(temporary.lamports, 0);
    assert!(temporary.data.is_empty());
    let treasury = &world[position(&world, &c.w_sol.0)];
    assert_eq!(token_amount(treasury), 700_000 + TOKEN_RESERVE + 100_000 + TOKEN_RESERVE);
}

#[test]
fn a_sale_of_all_on_raydium_hands_over_the_holding_itself() {
    let (mut world, c, t) = world_after_a_purchase();
    let mut accounts = sell_on_raydium_accounts(&world, &c, &t);
    assert_eq!(
        run(&mut accounts, sell_on_raydium(&t, 500, None), Fill { taken: 500, paid: 1 }),
        Ok(3),
    );
    put_back(&mut world, &accounts);
    let holding = &world[position(&world, &t.holding.0)];
    assert_eq!(holding.lamports, 0);
    assert!(holding.data.is_empty());
    assert_eq!(world[position(&world, &t.temporary.0)].lamports, 0);
}

#[test]
fn a_sale_without_a_minimum_takes_any_output_and_one_with_a_minimum_does_not() {
    let (world, c, t) = world_after_a_purchase();
    for paid in [0, 1, 1_000_000] {
        let mut accounts = sell_on_raydium_accounts(&world, &c, &t);
        assert_eq!(
            run(&mut accounts, sell_on_raydium(&t, 200, None), Fill { taken: 200, paid }),
            Ok(6),
        );
    }
    let mut accounts = sell_on_raydium_accounts(&world, &c, &t);
    let before = accounts.clone();
    assert_eq!(
        run(
            &mut accounts,
            sell_on_raydium(&t, 200, Some(u64::MAX)),
            Fill { taken: 200, paid: 1_000_000 },
        ),
        Err(ProgramFailure::Custom(Error::TokenAccountInvalidAmount))
    );
    assert_eq!(accounts, before);
    let mut accounts = sell_on_raydium_accounts(&world, &c, &t);
    assert_eq!(
        run(
            &mut accounts,
            sell_on_raydium(&t, 200, Some(100_001)),
            Fill { taken: 200, paid: 100_000 },
        ),
        Err(ProgramFailure::Custom(Error::TokenAccountInvalidAmount))
    );
    let mut accounts = sell_on_raydium_accounts(&world, &c, &t);
    assert_eq!(
        run(
            &mut accounts,
            sell_on_raydium(&t, 200, Some(100_000)),
            Fill { taken: 200, paid: 100_000 },
        ),
        Ok(6),
    );
}

#[test]
fn a_sale_after_which_the_treasury_holds_less_than_before_is_refused() {
    let (world, c, t) = world_after_a_purchase();
    let mut accounts = sell_on_raydium_accounts(&world, &c, &t);
    set_token_amount(&mut accounts[3], 0);
    let processor = Processor::new(FeeSchedule::standard());
    let held = token_amount(&accounts[2]);
    let input = sell_on_raydium(&t, 500, Some(0)).encode();
    let progress = Progress::SellOnRaydiumSwapped { partial: false, baseline: Some(held) };
    assert!(processor.process(&Address::program(), &accounts, &input, &progress).is_ok());
    for minimum in [0, 1] {
        let input = sell_on_raydium(&t, 500, Some(minimum)).encode();
        let progress = Progress::SellOnRaydiumSwapped { partial: false, baseline: Some(held + 1) };
        assert_eq!(
            processor.process(&Address::program(), &accounts, &input, &progress),
            Err(ProgramFailure::Custom(Error::TokenAccountInvalidAmount))
        );
    }
}

#[test]
fn a_sale_that_leaves_tokens_unsold_is_refused() {
    let (world, c, t) = world_after_a_purchase();
    let mut accounts = sell_on_raydium_accounts(&world, &c, &t);
    assert_eq!(
        run(&mut accounts, sell_on_raydium(&t, 200, None), Fill { taken: 199, paid: 100_000 }),
        Err(ProgramFailure::Custom(Error::TokenAccountInvalidAmount))
    );
    let mut accounts = sell_on_raydium_accounts(&world, &c, &t);
    assert_eq!(
        run(&mut accounts, sell_on_raydium(&t, 501, None), NO_FILL),
        Err(ProgramFailure::Custom(Error::TokenAccountInsufficientAmount))
    );
}

/// A world in which the treasury holds 1,000,000 and the trader has bought 500
/// tokens on the second exchange for 300,000 of them.
fn world_after_a_purchase_on_pumpswap() -> (Vec<AccountView>, Custody, Trade) {
    let c = custody();
    let t = trade(&c);
    let mut world = initialized(&c, 1_000_000);
    extend_world(&mut world, &c, &t);
    let mut accounts = buy_on_pumpswap_accounts(&world, &c, &t);
    assert_eq!(
        run(&mut accounts, buy_on_pumpswap(&t, 500, 300_000), Fill { taken: 300_000, paid: 500 }),
        Ok(8),
    );
    put_back(&mut world, &accounts);
    (world, c, t)
}

#[test]
fn a_purchase_on_pumpswap_spends_the_input_and_closes_the_temporary_account() {
    let (world, c, t) = world_after_a_purchase_on_pumpswap();
    let treasury = &world[position(&world, &c.w_sol.0)];
    assert_eq!(token_amount(treasury), 700_000 + TOKEN_RESERVE);
    let holding = Account::unpack(&world[position(&world, &t.holding.0)].data).unwrap();
    assert_eq!(holding.amount, 500);
    assert_eq!(holding.owner, key(&c.trader));
    let temporary = &world[position(&world, &c.temporary.0)];
    assert_eq!(temporary.lamports, 0);
    assert!(temporary.data.is_empty());
}

#[test]
fn a_purchase_on_pumpswap_that_leaves_input_unspent_is_refused() {
    let c = custody();
    let t = trade(&c);
    let mut world = initialized(&c, 1_000_000);
    extend_world(&mut world, &c, &t);
    let mut accounts = buy_on_pumpswap_accounts(&world, &c, &t);
    let before = accounts.clone();
    assert_eq!(
        run(&mut accounts, buy_on_pumpswap(&t, 500, 300_000), Fill { taken: 250_000, paid: 500 }),
        Err(ProgramFailure::Custom(Error::TokenAccountInvalidAmount))
    );
    assert_eq!(accounts, before);
}

#[test]
fn a_purchase_on_pumpswap_that_delivers_too_little_is_refused() {
    let c = custody();
    let t = trade(&c);
    let mut world = initialized(&c, 1_000_000);
    extend_world(&mut world, &c, &t);
    let mut accounts = buy_on_pumpswap_accounts(&world, &c, &t);
    assert_eq!(
        run(&mut accounts, buy_on_pumpswap(&t, 500, 300_000), Fill { taken: 300_000, paid: 499 }),
        Err(ProgramFailure::Custom(Error::TokenAccountInvalidAmount))
    );
    let mut accounts = buy_on_pumpswap_accounts(&world, &c, &t);
    assert_eq!(
        run(&mut accounts, buy_on_pumpswap(&t, 500, 1_000_001), NO_FILL),
        Err(ProgramFailure::Custom(Error::TokenAccountInsufficientAmount))
    );
}

#[test]
fn pumpswap_must_be_told_of_the_token_program() {
    let c = custody();
    let t = trade(&c);
    let mut world = initialized(&c, 1_000_000);
    extend_world(&mut world, &c, &t);
    let mut accounts = buy_on_pumpswap_accounts(&world, &c, &t);
    accounts[19] = plain(address(120), 1);
    assert_eq!(
        run(&mut accounts, buy_on_pumpswap(&t, 500, 300_000), NO_FILL),
        Err(ProgramFailure::IncorrectProgramId),
    );
    let mut accounts = buy_on_pumpswap_accounts(&world, &c, &t);
    accounts[20] = plain(address(120), 1);
    assert_eq!(
        run(&mut accounts, buy_on_pumpswap(&t, 500, 300_000), NO_FILL),
        Err(ProgramFailure::Custom(Error::InvalidAccountPubkey))
    );
}

#[test]
fn a_sale_on_pumpswap_pays_the_proceeds_into_the_treasury() {
    let (mut world, c, t) = world_after_a_purchase_on_pumpswap();
    let before = token_amount(&world[position(&world, &c.w_sol.0)]);
    let mut accounts = sell_on_pumpswap_accounts(&world, &c, &t);
    assert_eq!(
        run(
            &mut accounts,
            sell_on_pumpswap(&t, 200, Some(90_000)),
            Fill { taken: 200, paid: 90_000 },
        ),
        Ok(9)
    );
    put_back(&mut world, &accounts);
    assert_eq!(token_amount(&world[position(&world, &t.holding.0)]), 300);
    assert_eq!(
        token_amount(&world[position(&world, &c.w_sol.0)]),
        before + 90_000 + 2 * TOKEN_RESERVE,
    );
    assert_eq!(world[position(&world, &c.temporary.0)].lamports, 0);
    assert_eq!(world[position(&world, &t.temporary.0)].lamports, 0);

    let mut accounts = sell_on_pumpswap_accounts(&world, &c, &t);
    assert_eq!(
        run(&mut accounts, sell_on_pumpswap(&t, 300, None), Fill { taken: 300, paid: 0 }),
        Ok(6),
    );
    assert_eq!(accounts[4].lamports, 0);
}

#[test]
fn a_sale_on_pumpswap_with_a_minimum_refuses_smaller_proceeds() {
    let (world, c, t) = world_after_a_purchase_on_pumpswap();
    let mut accounts = sell_on_pumpswap_accounts(&world, &c, &t);
    assert_eq!(
        run(
            &mut accounts,
            sell_on_pumpswap(&t, 200, Some(90_001)),
            Fill { taken: 200, paid: 90_000 },
        ),
        Err(ProgramFailure::Custom(Error::TokenAccountInvalidAmount))
    );
    for paid in [0, 1, 90_000] {
        let mut accounts = sell_on_pumpswap_accounts(&world, &c, &t);
        assert_eq!(
            run(&mut accounts, sell_on_pumpswap(&t, 200, None), Fill { taken: 200, paid }),
            Ok(9),
        );
    }
    let mut accounts = sell_on_pumpswap_accounts(&world, &c, &t);
    assert_eq!(
        run(
            &mut accounts,
            sell_on_pumpswap(&t, 200, Some(u64::MAX)),
            Fill { taken: 200, paid: 90_000 },
        ),
        Err(ProgramFailure::Custom(Error::TokenAccountInvalidAmount))
    );
}

fn first_step(accounts: &[AccountView], command: Instruction) -> (Vec<Action>, Option<Progress>) {
    let processor = Processor::new(FeeSchedule::standard());
    let input = command.encode();
    match processor.process(&Address::program(), accounts, &input, &Progress::Start).unwrap() {
        Directive::Continue { actions, progress } => (actions, Some(progress)),
        Directive::Finish { actions } => (actions, None),
    }
}

fn assert_call(
    action: &Action,
    theirs: &solana_program::instruction::Instruction,
    handed: &[usize],
    signed: Option<(Vec<Address>, u8)>,
) {
    let (instruction, accounts, signer) = match action {
        Action::Invoke { instruction, accounts, signer } => (instruction, accounts, signer),
        Action::Store { .. } => panic!("no call"),
    };
    assert_eq!(key(&instruction.program_id), theirs.program_id);
    assert_eq!(instruction.data, theirs.data);
    assert_eq!(instruction.accounts.len(), theirs.accounts.len());
    for (ours, theirs) in instruction.accounts.iter().zip(theirs.accounts.iter()) {
        assert_eq!(key(&ours.pubkey), theirs.pubkey);
        assert_eq!(ours.is_signer, theirs.is_signer);
        assert_eq!(ours.is_writable, theirs.is_writable);
    }
    assert_eq!(accounts.as_slice(), handed);
    assert_eq!(signer.as_ref().map(|s| (s.seeds.clone(), s.bump_seed)), signed);
}

#[test]
fn initialize_makes_the_calls_that_the_outside_builders_make() {
    let c = custody();
    let accounts = initialize_accounts(&c, 10_000_000_000);
    let (actions, progress) = first_step(&accounts, initialize_command(&c, 1_000_000));
    assert_eq!(progress, Some(Progress::InitializeCreated));
    assert_eq!(actions.len(), 4);
    assert_call(
        &actions[0],
        &solana_program::system_instruction::create_account(
            &key(&c.investor),
            &key(&c.record),
            RECORD_RESERVE,
            228,
            &key(&Address::program()),
        ),
        &[0, 1],
        None,
    );
    let mut data = vec![0, 0, 0, 0];
    data.extend_from_slice(&RECORD_RESERVE.to_le_bytes());
    data.extend_from_slice(&228u64.to_le_bytes());
    data.extend_from_slice(&Address::program().bytes);
    match &actions[0] {
        Action::Invoke { instruction, .. } => assert_eq!(instruction.data, data),
        _ => panic!("no call"),
    }
    match &actions[1] {
        Action::Store { account, data } => {
            assert_eq!(*account, 1);
            assert_eq!(data.len(), 228);
            assert_eq!(Intermediary::decode(data).unwrap().investor_pubkey, c.investor);
        }
        _ => panic!("no write"),
    }
    assert_call(
        &actions[2],
        &solana_program::system_instruction::create_account(
            &key(&c.investor),
            &key(&c.w_sol.0),
            TOKEN_RESERVE + 1_000_000,
            165,
            &spl_token::ID,
        ),
        &[0, 4],
        Some((vec![Address::native_mint(), c.record, Address::program()], c.w_sol.1)),
    );
    assert_call(
        &actions[3],
        &spl_token::instruction::initialize_account(
            &spl_token::ID,
            &key(&c.w_sol.0),
            &spl_token::native_mint::ID,
            &key(&c.w_sol_authority.0),
        )
        .unwrap(),
        &[4, 8, 5, 10],
        None,
    );
    match &actions[3] {
        Action::Invoke { instruction, .. } => {
            assert_eq!(instruction.data, vec![1]);
            assert_eq!(instruction.accounts[3].pubkey, Address::rent_sysvar());
        }
        _ => panic!("no call"),
    }
}

#[test]
fn a_deposit_makes_the_calls_that_the_outside_builders_make() {
    let c = custody();
    let world = initialized(&c, 1_000_000);
    let accounts = deposit_accounts(&world, &c);
    let (actions, progress) = first_step(
        &accounts,
        Instruction::DepositFunds { lamports_to_treasury: 77 },
    );
    assert_eq!(progress, None);
    assert_eq!(actions.len(), 2);
    assert_call(
        &actions[0],
        &solana_program::system_instruction::transfer(&key(&c.investor), &key(&c.w_sol.0), 77),
        &[0, 2],
        None,
    );
    match &actions[0] {
        Action::Invoke { instruction, .. } => {
            assert_eq!(instruction.data, vec![2, 0, 0, 0, 77, 0, 0, 0, 0, 0, 0, 0])
        }
        _ => panic!("no call"),
    }
    assert_call(
        &actions[1],
        &spl_token::instruction::sync_native(&spl_token::ID, &key(&c.w_sol.0)).unwrap(),
        &[2],
        None,
    );
    match &actions[1] {
        Action::Invoke { instruction, .. } => assert_eq!(instruction.data, vec![17]),
        _ => panic!("no call"),
    }
}

#[test]
fn a_withdrawal_makes_the_calls_that_the_outside_builders_make() {
    let c = custody();
    let world = initialized(&c, 1_000_000);
    let accounts = withdraw_accounts(&world, &c);
    let (actions, progress) = first_step(
        &accounts,
        Instruction::WithdrawFunds { lamports_from_treasury: 258 },
    );
    assert_eq!(progress, None);
    assert_eq!(actions.len(), 4);
    assert_call(
        &actions[0],
        &solana_program::system_instruction::create_account(
            &key(&c.investor),
            &key(&c.temporary.0),
            TOKEN_RESERVE,
            165,
            &spl_token::ID,
        ),
        &[0, 4],
        Some((vec![c.w_sol.0, Address::native_mint(), Address::program()], c.temporary.1)),
    );
    assert_call(
        &actions[1],
        &spl_token::instruction::initialize_account(
            &spl_token::ID,
            &key(&c.temporary.0),
            &spl_token::native_mint::ID,
            &key(&c.temporary_authority.0),
        )
        .unwrap(),
        &[4, 6, 5, 8],
        None,
    );
    assert_call(
        &actions[2],
        &spl_token::instruction::transfer(
            &spl_token::ID,
            &key(&c.w_sol.0),
            &key(&c.temporary.0),
            &key(&c.w_sol_authority.0),
            &[],
            258,
        )
        .unwrap(),
        &[2, 4, 3],
        Some((
            vec![c.w_sol.0, c.record, Address::native_mint(), Address::program()],
            c.w_sol_authority.1,
        )),
    );
    match &actions[2] {
        Action::Invoke { instruction, .. } => {
            assert_eq!(instruction.data, vec![3, 2, 1, 0, 0, 0, 0, 0, 0]);
            assert!(instruction.accounts[2].is_signer);
        }
        _ => panic!("no call"),
    }
    assert_call(
        &actions[3],
        &spl_token::instruction::close_account(
            &spl_token::ID,
            &key(&c.temporary.0),
            &key(&c.investor),
            &key(&c.temporary_authority.0),
            &[],
        )
        .unwrap(),
        &[4, 0, 5],
        Some((
            vec![c.temporary.0, Address::native_mint(), Address::program(), c.record],
            c.temporary_authority.1,
        )),
    );
    match &actions[3] {
        Action::Invoke { instruction, .. } => assert_eq!(instruction.data, vec![9]),
        _ => panic!("no call"),
    }
}

#[test]
fn a_purchase_on_raydium_calls_the_exchange_for_the_temporary_account() {
    let c = custody();
    let t = trade(&c);
    let mut world = initialized(&c, 1_000_000);
    extend_world(&mut world, &c, &t);
    let accounts = buy_on_raydium_accounts(&world, &c, &t);
    let (actions, progress) = first_step(&accounts, buy_on_raydium(&c, &t, 300_000, 500));
    assert_eq!(
        progress,
        Some(Progress::BuyOnRaydiumSwapped {
            temporary_w_sol_token_account_authority_pubkey_bump_seed: c.temporary_authority.1
        })
    );
    assert_eq!(actions.len(), 6);
    let (instruction, handed, signer) = match &actions[5] {
        Action::Invoke { instruction, accounts, signer } => (instruction, accounts, signer),
        _ => panic!("no call"),
    };
    assert_eq!(instruction.program_id, Address::raydium_liquidity_pool_v4_program());
    let mut data = vec![9];
    data.extend_from_slice(&300_000u64.to_le_bytes());
    data.extend_from_slice(&500u64.to_le_bytes());
    assert_eq!(instruction.data, data);
    assert_eq!(instruction.accounts.len(), 17);
    assert_eq!(instruction.accounts[0].pubkey, Address::token_program());
    assert_eq!(instruction.accounts[14].pubkey, c.temporary.0);
    assert_eq!(instruction.accounts[15].pubkey, t.holding.0);
    assert_eq!(instruction.accounts[16].pubkey, c.temporary_authority.0);
    assert!(instruction.accounts[16].is_signer && !instruction.accounts[16].is_writable);
    assert_eq!(handed, &vec![12, 14, 15, 16, 17, 18, 19, 20, 21, 22, 23, 24, 25, 26, 4, 6, 5]);
    let signer = signer.as_ref().unwrap();
    assert_eq!(
        signer.seeds,
        vec![c.temporary.0, Address::native_mint(), Address::program(), c.record],
    );
    assert_eq!(signer.bump_seed, c.temporary_authority.1);
}

#[test]
fn a_sale_on_pumpswap_calls_the_exchange_by_the_will_of_the_trader() {
    let (world, c, t) = world_after_a_purchase_on_pumpswap();
    let accounts = sell_on_pumpswap_accounts(&world, &c, &t);
    let (actions, progress) = first_step(&accounts, sell_on_pumpswap(&t, 200, None));
    assert_eq!(progress, Some(Progress::SellOnPumpswapSwapped { partial: true }));
    assert_eq!(actions.len(), 6);
    let (instruction, handed, signer) = match &actions[5] {
        Action::Invoke { instruction, accounts, signer } => (instruction, accounts, signer),
        _ => panic!("no call"),
    };
    assert_eq!(instruction.program_id, Address::pumpswap_program());
    let mut data = vec![51, 230, 133, 164, 1, 127, 131, 173];
    data.extend_from_slice(&200u64.to_le_bytes());
    data.extend_from_slice(&0u64.to_le_bytes());
    assert_eq!(instruction.data, data);
    assert_eq!(instruction.accounts[1].pubkey, c.trader);
    assert!(instruction.accounts[1].is_signer && instruction.accounts[1].is_writable);
    assert_eq!(instruction.accounts[5].pubkey, t.temporary.0);
    assert_eq!(instruction.accounts[6].pubkey, c.temporary.0);
    assert_eq!(instruction.accounts[13].pubkey, Address::system_program());
    assert_eq!(instruction.accounts[14].pubkey, Address::associated_token_account_program());
    assert_eq!(instruction.accounts[16].pubkey, Address::pumpswap_program());
    assert_eq!(handed, &vec![12, 0, 13, 7, 6, 5, 3, 14, 15, 16, 17, 18, 19, 8, 20, 21, 11]);
    assert!(signer.is_none());

    let (actions, progress) = first_step(&accounts, sell_on_pumpswap(&t, 500, Some(9)));
    assert_eq!(progress, Some(Progress::SellOnPumpswapSwapped { partial: false }));
    assert_eq!(actions.len(), 3);
    match &actions[2] {
        Action::Invoke { instruction, .. } => {
            assert_eq!(instruction.accounts[5].pubkey, t.holding.0);
            assert_eq!(instruction.data[16..24], 9u64.to_le_bytes());
        }
        _ => panic!("no call"),
    }
}

fn metas(action: &Action) -> Vec<(Address, bool, bool)> {
    match action {
        Action::Invoke { instruction, .. } => {
            instruction.accounts.iter().map(|m| (m.pubkey, m.is_signer, m.is_writable)).collect()
        }
        Action::Store { .. } => panic!("no call"),
    }
}

#[test]
fn each_call_names_its_accounts_with_the_rights_it_needs() {
    let c = custody();
    let world = initialized(&c, 1_000_000);
    let accounts = withdraw_accounts(&world, &c);
    let (actions, _) = first_step(
        &accounts,
        Instruction::WithdrawFunds { lamports_from_treasury: 1 },
    );
    assert_eq!(metas(&actions[0]), vec![(c.investor, true, true), (c.temporary.0, true, true)]);
    assert_eq!(
        metas(&actions[1]),
        vec![
            (c.temporary.0, false, true),
            (Address::native_mint(), false, false),
            (c.temporary_authority.0, false, false),
            (Address::rent_sysvar(), false, false),
        ]
    );
    assert_eq!(
        metas(&actions[2]),
        vec![
            (c.w_sol.0, false, true),
            (c.temporary.0, false, true),
            (c.w_sol_authority.0, true, false),
        ]
    );
    assert_eq!(
        metas(&actions[3]),
        vec![
            (c.temporary.0, false, true),
            (c.investor, false, true),
            (c.temporary_authority.0, true, false),
        ]
    );
    let accounts = deposit_accounts(&world, &c);
    let (actions, _) = first_step(&accounts, Instruction::DepositFunds { lamports_to_treasury: 1 });
    assert_eq!(metas(&actions[0]), vec![(c.investor, true, true), (c.w_sol.0, false, true)]);
    assert_eq!(metas(&actions[1]), vec![(c.w_sol.0, false, true)]);
    for action in actions.iter() {
        match action {
            Action::Invoke { instruction, .. } => assert_ne!(instruction.program_id, c.investor),
            _ => panic!("no call"),
        }
    }
}
