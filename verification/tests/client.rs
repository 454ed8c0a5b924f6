use intermediary::command_processor::SubAccounts;
use intermediary::resolver::{ProgramDerivedAddress, WSolTokenAccountAddressResolver};
use intermediary::{
    AccountView, Address, ClientError, CommandProcessor, FeeSchedule, Instruction, Intermediary,
};
use solana_program::program_option::COption;
use solana_program::program_pack::Pack;
use solana_program::pubkey::Pubkey;
use spl_token::state::{Account, AccountState};

const FEE: u64 = 1010101;

fn address(n: u8) -> Address {
    Address { bytes: [n; 32] }
}

fn plain(key: Address, lamports: u64) -> AccountView {
    AccountView {
        key,
        owner: Address::system_program(),
        is_signer: false,
        is_writable: false,
        lamports,
        data: vec![],
    }
}

fn client() -> CommandProcessor {
    CommandProcessor { fees: FeeSchedule::standard() }
}

fn record() -> Intermediary {
    Intermediary {
        is_initialized: true,
        investor_pubkey: address(1),
        manager_pubkey: address(2),
        trader_pubkey: address(3),
        w_sol_token_account_pubkey: address(4),
        w_sol_token_account_authority_pubkey: address(5),
        temporary_w_sol_token_account_pubkey: address(6),
        temporary_w_sol_token_account_authority_pubkey: address(7),
        w_sol_token_account_authority_pubkey_bump_seed: 8,
        temporary_w_sol_token_account_pubkey_bump_seed: 9,
        temporary_w_sol_token_account_authority_pubkey_bump_seed: 10,
    }
}

fn record_account(record: &Intermediary) -> AccountView {
    AccountView {
        key: address(20),
        owner: Address::program(),
        is_signer: false,
        is_writable: false,
        lamports: 1,
        data: record.encode(),
    }
}

fn treasury(amount: u64) -> Vec<u8> {
    let mut data = vec![0; Account::LEN];
    let state = Account {
        mint: spl_token::native_mint::ID,
        owner: Pubkey::new_from_array([5; 32]),
        amount,
        state: AccountState::Initialized,
        is_native: COption::Some(2_039_280),
        ..Account::default()
    };
    Account::pack(state, &mut data).unwrap();
    data
}

#[test]
fn the_client_prepares_initialize_with_the_sub_accounts_it_finds() {
    let record = address(20);
    let request = client()
        .initialize(
            &plain(address(1), 10_000_000_000),
            &plain(address(2), 1),
            &plain(address(3), 1),
            &record,
            10,
            20,
            30,
        )
        .unwrap();
    let found = request.sub_accounts;
    assert_eq!(Some(found), SubAccounts::find(&record));
    assert_eq!(
        WSolTokenAccountAddressResolver { intermediary_pubkey: &record }.find(),
        Some((found.w_sol_token_account_pubkey, found.w_sol_token_account_pubkey_bump_seed))
    );
    let expected = Instruction::initialize(
        &Address::program(),
        &address(1),
        &record,
        &address(2),
        &address(3),
        &found.w_sol_token_account_pubkey,
        &found.w_sol_token_account_authority_pubkey,
        &found.temporary_w_sol_token_account_pubkey,
        &found.temporary_w_sol_token_account_authority_pubkey,
        30,
        found.w_sol_token_account_pubkey_bump_seed,
        found.w_sol_token_account_authority_pubkey_bump_seed,
        found.temporary_w_sol_token_account_pubkey_bump_seed,
        found.temporary_w_sol_token_account_authority_pubkey_bump_seed,
    )
    .unwrap();
    assert_eq!(request.instruction, expected);
}

#[test]
fn the_client_refuses_initialize_as_the_program_would() {
    let record = address(20);
    let c = client();
    let rich = plain(address(1), 10_000_000_000);
    assert_eq!(
        c.initialize(
            &rich,
            &plain(address(1), 1),
            &plain(address(3), 1),
            &record,
            10,
            20,
            30,
        ).unwrap_err(),
        ClientError::InvalidAccountPubkey
    );
    let mut owned = plain(address(2), 1);
    owned.owner = address(9);
    assert_eq!(
        c.initialize(&rich, &owned, &plain(address(3), 1), &record, 10, 20, 30).unwrap_err(),
        ClientError::InvalidAccountOwner
    );
    let mut full = plain(address(3), 1);
    full.data = vec![0];
    assert_eq!(
        c.initialize(&rich, &plain(address(2), 1), &full, &record, 10, 20, 30).unwrap_err(),
        ClientError::InvalidAccountData
    );
    assert_eq!(
        c.initialize(
            &rich,
            &plain(address(2), 0),
            &plain(address(3), 1),
            &record,
            10,
            20,
            30,
        ).unwrap_err(),
        ClientError::InvalidAccountLamports
    );
    assert_eq!(
        c.initialize(
            &plain(address(1), 10 + 20 + 30 + FEE - 1),
            &plain(address(2), 1),
            &plain(address(3), 1),
            &record,
            10,
            20,
            30,
        )
            .unwrap_err(),
        ClientError::InvalidAccountLamports
    );
    assert!(c
        .initialize(
            &plain(address(1), 10 + 20 + 30 + FEE),
            &plain(address(2), 1),
            &plain(address(3), 1),
            &record,
            10,
            20,
            30,
        )
        .is_ok());
}

#[test]
fn the_client_prepares_a_deposit_into_the_records_treasury() {
    let r = record();
    let made = client().deposit_funds(&plain(address(1), 5 + FEE), &record_account(&r), 5).unwrap();
    assert_eq!(
        made,
        Instruction::deposit_funds(
            &Address::program(),
            &address(1),
            &address(20),
            &address(4),
            5,
        ).unwrap()
    );
    assert_eq!(
        client().deposit_funds(&plain(address(1), 5 + FEE - 1), &record_account(&r), 5),
        Err(ClientError::InvalidAccountLamports)
    );
    assert_eq!(
        client().deposit_funds(&plain(address(2), 5 + FEE), &record_account(&r), 5),
        Err(ClientError::IntermediaryInvalidInvestor)
    );
    let blank = Intermediary { is_initialized: false, ..r };
    assert_eq!(
        client().deposit_funds(&plain(address(1), 5 + FEE), &record_account(&blank), 5),
        Err(ClientError::IntermediaryIsNotInitialized)
    );
    let mut broken = record_account(&r);
    broken.data.pop();
    assert_eq!(
        client().deposit_funds(&plain(address(1), 5 + FEE), &broken, 5),
        Err(ClientError::UnreadableRecord)
    );
}

#[test]
fn the_client_prepares_a_withdrawal_within_the_treasury() {
    let r = record();
    let investor = plain(address(1), 2_039_280 + FEE);
    let made = client().withdraw_funds(
        &investor,
        &record_account(&r),
        &treasury(100),
        2_039_280,
        100,
    ).unwrap();
    assert_eq!(
        made,
        Instruction::withdraw_funds(
            &Address::program(),
            &address(1),
            &address(20),
            &address(4),
            &address(5),
            &address(6),
            &address(7),
            100
        )
        .unwrap()
    );
    assert_eq!(
        client().withdraw_funds(&investor, &record_account(&r), &treasury(100), 2_039_280, 101),
        Err(ClientError::TreasuryExceeded { maximum: 100 })
    );
    assert_eq!(
        ClientError::TreasuryExceeded { maximum: 100 }.message(),
        "The maximum number of lamports from treasury is "
    );
    assert_eq!(
        client().withdraw_funds(&investor, &record_account(&r), &treasury(100), 2_039_281, 100),
        Err(ClientError::InvalidAccountLamports)
    );
    let mut broken = treasury(100);
    broken[108] = 7;
    assert_eq!(
        client().withdraw_funds(&investor, &record_account(&r), &broken, 2_039_280, 100),
        Err(ClientError::UnreadableTokenAccount)
    );
    assert_eq!(
        client().withdraw_funds(&investor, &record_account(&r), &vec![0; 164], 2_039_280, 0),
        Err(ClientError::UnreadableTokenAccount)
    );
}

#[test]
fn the_client_refuses_a_change_of_role_in_favour_of_a_holder() {
    let r = record();
    let c = client();
    let investor = plain(address(1), FEE);
    let manager = plain(address(2), FEE);
    for holder in [1, 2, 3] {
        assert_eq!(
            c.change_manager(&investor, &record_account(&r), &plain(address(holder), 1)),
            Err(ClientError::IntermediaryInvalidManager)
        );
        assert_eq!(
            c.change_trader(&manager, &record_account(&r), &plain(address(holder), 1)),
            Err(ClientError::IntermediaryInvalidTrader)
        );
    }
    assert_eq!(
        c.change_manager(&investor, &record_account(&r), &plain(address(30), 1)),
        Ok(
            Instruction::change_manager(
                &Address::program(),
                &address(1),
                &address(20),
                &address(30),
            ).unwrap(),
        )
    );
    assert_eq!(
        c.change_trader(&manager, &record_account(&r), &plain(address(30), 1)),
        Ok(
            Instruction::change_trader(
                &Address::program(),
                &address(2),
                &address(20),
                &address(30),
            ).unwrap(),
        )
    );
    assert_eq!(
        c.change_trader(&investor, &record_account(&r), &plain(address(30), 1)),
        Err(ClientError::IntermediaryInvalidManager)
    );
    assert_eq!(
        c.change_manager(&manager, &record_account(&r), &plain(address(30), 1)),
        Err(ClientError::IntermediaryInvalidInvestor)
    );
    assert_eq!(
        c.change_manager(&investor, &record_account(&r), &plain(address(30), 0)),
        Err(ClientError::InvalidAccountLamports)
    );
    assert_eq!(
        c.change_manager(&plain(address(1), FEE - 1), &record_account(&r), &plain(address(30), 1)),
        Err(ClientError::InvalidAccountLamports)
    );
}

#[test]
fn the_clients_sentences_are_those_of_the_program() {
    assert_eq!(ClientError::InvalidAccountPubkey.message(), "Invalid account pubkey.");
    assert_eq!(ClientError::IntermediaryInvalidTrader.message(), "Intermediary invalid trader.");
    assert_eq!(
        ClientError::IntermediaryIsNotInitialized.message(),
        "Intermediary is not initialized.",
    );
}
