use intermediary::extern_source::{
    create_pumpswap_buy_instruction, create_pumpswap_sell_instruction,
    create_raydium_swap_base_in_instruction, raydium_swap_base_in_pack,
};
use intermediary::{
    AccountMeta,
    Address,
    Error,
    Instruction,
    Intermediary,
    ProgramFailure,
    PubkeyError,
};

fn address(n: u8) -> Address {
    Address { bytes: [n; 32] }
}

fn commands() -> Vec<Instruction> {
    vec![
        Instruction::Initialize {
            lamports_to_treasury: 1_000_000,
            w_sol_token_account_pubkey_bump_seed: 255,
            w_sol_token_account_authority_pubkey_bump_seed: 254,
            temporary_w_sol_token_account_pubkey_bump_seed: 253,
            temporary_w_sol_token_account_authority_pubkey_bump_seed: 1,
        },
        Instruction::DepositFunds { lamports_to_treasury: 0 },
        Instruction::WithdrawFunds { lamports_from_treasury: u64::MAX },
        Instruction::BuyOnRaydium {
            input_token_amount: 0x0102030405060708,
            minimum_output_token_amount: 9,
            any_mint_token_account_pubkey_bump_seed: 7,
            any_mint_token_account_authority_pubkey_bump_seed: 8,
        },
        Instruction::SellOnRaydium {
            input_token_amount: 5,
            minimum_output_token_amount: None,
            any_mint_token_account_pubkey_bump_seed: 1,
            any_mint_token_account_authority_pubkey_bump_seed: 2,
            temporary_any_mint_token_account_pubkey_bump_seed: 3,
            temporary_any_mint_token_account_authority_pubkey_bump_seed: 4,
        },
        Instruction::SellOnRaydium {
            input_token_amount: 5,
            minimum_output_token_amount: Some(6),
            any_mint_token_account_pubkey_bump_seed: 1,
            any_mint_token_account_authority_pubkey_bump_seed: 2,
            temporary_any_mint_token_account_pubkey_bump_seed: 3,
            temporary_any_mint_token_account_authority_pubkey_bump_seed: 4,
        },
        Instruction::BuyOnPumpswap {
            base_amount_out: 10,
            maximum_quote_amount_in: 11,
            any_mint_token_account_pubkey_bump_seed: 12,
        },
        Instruction::SellOnPumpswap {
            input_token_amount: 13,
            minimum_output_token_amount: Some(0),
            any_mint_token_account_pubkey_bump_seed: 14,
            temporary_any_mint_token_account_pubkey_bump_seed: 15,
        },
        Instruction::SellOnPumpswap {
            input_token_amount: 13,
            minimum_output_token_amount: None,
            any_mint_token_account_pubkey_bump_seed: 14,
            temporary_any_mint_token_account_pubkey_bump_seed: 15,
        },
        Instruction::ChangeManager,
        Instruction::ChangeTrader,
    ]
}

#[test]
fn commands_stand_on_the_wire_as_borsh_writes_them() {
    let expected: Vec<Vec<u8>> = vec![
        borsh::to_vec(&(0u8, 1_000_000u64, 255u8, 254u8, 253u8, 1u8)).unwrap(),
        borsh::to_vec(&(1u8, 0u64)).unwrap(),
        borsh::to_vec(&(2u8, u64::MAX)).unwrap(),
        borsh::to_vec(&(3u8, 0x0102030405060708u64, 9u64, 7u8, 8u8)).unwrap(),
        borsh::to_vec(&(4u8, 5u64, None::<u64>, 1u8, 2u8, 3u8, 4u8)).unwrap(),
        borsh::to_vec(&(4u8, 5u64, Some(6u64), 1u8, 2u8, 3u8, 4u8)).unwrap(),
        borsh::to_vec(&(5u8, 10u64, 11u64, 12u8)).unwrap(),
        borsh::to_vec(&(6u8, 13u64, Some(0u64), 14u8, 15u8)).unwrap(),
        borsh::to_vec(&(6u8, 13u64, None::<u64>, 14u8, 15u8)).unwrap(),
        vec![7],
        vec![8],
    ];
    for (command, bytes) in commands().iter().zip(expected.iter()) {
        assert_eq!(&command.encode(), bytes);
    }
    assert_eq!(
        commands()[3].encode(),
        vec![3, 8, 7, 6, 5, 4, 3, 2, 1, 9, 0, 0, 0, 0, 0, 0, 0, 7, 8]
    );
}

#[test]
fn a_command_is_read_back_from_its_bytes() {
    for command in commands() {
        assert_eq!(Instruction::decode(&command.encode()), Some(command));
    }
}

#[test]
fn bytes_that_are_no_command_are_refused() {
    assert_eq!(Instruction::decode(&[]), None);
    assert_eq!(Instruction::decode(&[9]), None);
    assert_eq!(Instruction::decode(&[255, 0]), None);
    for command in commands() {
        let bytes = command.encode();
        let mut longer = bytes.clone();
        longer.push(0);
        assert_eq!(Instruction::decode(&longer), None);
        assert_eq!(Instruction::decode(&bytes[..bytes.len() - 1]), None);
    }
    let mut flagged = commands()[4].encode();
    flagged[9] = 2;
    assert_eq!(Instruction::decode(&flagged), None);
    assert!(borsh::from_slice::<(u8, u64, Option<u64>, u8, u8, u8, u8)>(&flagged).is_err());
    let mut flagged = commands()[5].encode();
    flagged[9] = 0;
    assert_eq!(Instruction::decode(&flagged), None);
    assert!(borsh::from_slice::<(u8, u64, Option<u64>, u8, u8, u8, u8)>(&flagged).is_err());
}

#[test]
fn decoding_agrees_with_borsh_on_a_sale() {
    let mut bytes = commands()[5].encode();
    for flag in 0..=3u8 {
        for cut in 0..=bytes.len() {
            bytes[9] = flag;
            let ours = Instruction::decode(&bytes[..cut]);
            let theirs = borsh::from_slice::<(u8, u64, Option<u64>, u8, u8, u8, u8)>(&bytes[..cut]);
            match (ours, theirs) {
                (None, Err(_)) => {}
                (
                    Some(Instruction::SellOnRaydium {
                        input_token_amount,
                        minimum_output_token_amount,
                        any_mint_token_account_pubkey_bump_seed,
                        any_mint_token_account_authority_pubkey_bump_seed,
                        temporary_any_mint_token_account_pubkey_bump_seed,
                        temporary_any_mint_token_account_authority_pubkey_bump_seed,
                    }),
                    Ok(t),
                ) => assert_eq!(
                    (
                        4,
                        input_token_amount,
                        minimum_output_token_amount,
                        any_mint_token_account_pubkey_bump_seed,
                        any_mint_token_account_authority_pubkey_bump_seed,
                        temporary_any_mint_token_account_pubkey_bump_seed,
                        temporary_any_mint_token_account_authority_pubkey_bump_seed
                    ),
                    t
                ),
                (ours, theirs) => panic!("{:?} against {:?}", ours, theirs.is_ok()),
            }
        }
    }
}

fn record() -> Intermediary {
    Intermediary {
        is_initialized: true,
        investor_pubkey: address(1),
        manager_pubkey: address(2),
        trader_pubkey: address(3),
        w_sol_token_account_pubkey: address(4),
        w_sol_token_account_authority_pubkey: address(5),
        temporary_w_sol_token_account_pubkey: address(6),
        temporary_w_sol_token_account_authority_pubkey: address(7),
        w_sol_token_account_authority_pubkey_bump_seed: 8,
        temporary_w_sol_token_account_pubkey_bump_seed: 9,
        temporary_w_sol_token_account_authority_pubkey_bump_seed: 10,
    }
}

#[test]
fn the_record_is_stored_as_borsh_stores_it() {
    let r = record();
    let expected = borsh::to_vec(&(
        true, [1u8; 32], [2u8; 32], [3u8; 32], [4u8; 32], [5u8; 32], [6u8; 32], [7u8; 32], 8u8, 9u8,
        10u8,
    ))
    .unwrap();
    assert_eq!(r.encode(), expected);
    assert_eq!(r.encode().len(), 228);
    assert_eq!(r.object_length(), 228);
    assert_eq!(Intermediary::decode(&expected), Some(r));
    let blank = Intermediary { is_initialized: false, ..r };
    assert_eq!(blank.encode()[0], 0);
    assert_eq!(Intermediary::decode(&blank.encode()), Some(blank));
}

#[test]
fn data_that_is_no_record_is_refused() {
    let bytes = record().encode();
    assert_eq!(Intermediary::decode(&bytes[..227]), None);
    let mut longer = bytes.clone();
    longer.push(0);
    assert_eq!(Intermediary::decode(&longer), None);
    let mut flagged = bytes.clone();
    flagged[0] = 2;
    assert_eq!(Intermediary::decode(&flagged), None);
    assert_eq!(Intermediary::decode(&[]), None);
}

#[test]
fn failures_are_numbered_by_their_position() {
    assert_eq!(Error::IntermediaryIsNotInitialized.code(), 0);
    assert_eq!(Error::InvalidAccountPubkey.code(), 12);
    assert_eq!(Error::TokenAccountInvalidMint.code(), 15);
    for code in 0..16 {
        assert_eq!(Error::from_code(code).unwrap().code(), code);
    }
    assert_eq!(Error::from_code(16), None);
    assert_eq!(Error::from_code(u32::MAX), None);
    assert_eq!(Error::type_of(), "Error_");
}

#[test]
fn failures_have_their_sentences() {
    assert_eq!(Error::IntermediaryIsNotInitialized.message(), "Intermediary is not initialized.");
    assert_eq!(Error::InvalidAccountLamports.message(), "Invalid account lamports.");
    assert_eq!(
        Error::TokenAccountInsufficientAmount.message(),
        "Token account insufficient amount.",
    );
    assert_eq!(
        Error::IntermediaryInvalidTemporaryWSolTokenAccountAuthority.name(),
        "IntermediaryInvalidTemporaryWSolTokenAccountAuthority"
    );
    assert_eq!(Error::TokenAccountInvalidAmount.name(), "TokenAccountInvalidAmount");
    assert_eq!(
        ProgramFailure::of_pubkey_error(PubkeyError::InvalidSeeds),
        ProgramFailure::InvalidSeeds
    );
    assert_eq!(
        ProgramFailure::of_pubkey_error(PubkeyError::MaxSeedLengthExceeded),
        ProgramFailure::MaxSeedLengthExceeded
    );
    assert_eq!(
        ProgramFailure::of_pubkey_error(PubkeyError::IllegalOwner),
        ProgramFailure::IllegalOwner,
    );
    assert_eq!(
        ProgramFailure::of_error(Error::InvalidAccountData),
        ProgramFailure::Custom(Error::InvalidAccountData),
    );
}

#[test]
fn the_swap_payload_is_a_tag_and_two_amounts() {
    assert_eq!(
        raydium_swap_base_in_pack(1, 0x0a0b),
        vec![9, 1, 0, 0, 0, 0, 0, 0, 0, 0x0b, 0x0a, 0, 0, 0, 0, 0, 0]
    );
    assert_eq!(raydium_swap_base_in_pack(u64::MAX, 0)[1..9], [255; 8]);
}

fn meta(n: u8, is_signer: bool, is_writable: bool) -> AccountMeta {
    AccountMeta { pubkey: address(n), is_signer, is_writable }
}

#[test]
fn the_swap_on_raydium_names_its_accounts_in_the_exchanges_order() {
    let k: Vec<Address> = (0..17).map(address).collect();
    let made = create_raydium_swap_base_in_instruction(
        &k[0], &k[1], &k[2], &k[3], &k[4], &k[5], &k[6], &k[7], &k[8], &k[9], &k[10], &k[11],
        &k[12], &k[13],
        &k[14], &k[15], &k[16], 3, 4,
    );
    assert_eq!(made.program_id, k[0]);
    assert_eq!(made.data, raydium_swap_base_in_pack(3, 4));
    let mut expected = vec![
        AccountMeta { pubkey: Address::token_program(), is_signer: false, is_writable: false },
    ];
    expected.extend([
        meta(1, false, true),
        meta(2, false, false),
        meta(3, false, true),
        meta(4, false, true),
        meta(5, false, true),
        meta(6, false, false),
        meta(7, false, true),
        meta(8, false, true),
        meta(9, false, true),
        meta(10, false, true),
        meta(11, false, true),
        meta(12, false, true),
        meta(13, false, false),
        meta(14, false, true),
        meta(15, false, true),
        meta(16, true, false),
    ]);
    assert_eq!(made.accounts, expected);
}

#[test]
fn the_calls_to_pumpswap_differ_in_their_first_eight_bytes() {
    let k: Vec<Address> = (0..15).map(address).collect();
    let buy = create_pumpswap_buy_instruction(
        &k[0], &k[1], &k[2], &k[3], &k[4], &k[5], &k[6], &k[7], &k[8], &k[9], &k[10], &k[11],
        &k[12], &k[13],
        &k[14], 7, 8,
    );
    let sell = create_pumpswap_sell_instruction(
        &k[0], &k[1], &k[2], &k[3], &k[4], &k[5], &k[6], &k[7], &k[8], &k[9], &k[10], &k[11],
        &k[12], &k[13],
        &k[14], 7, 8,
    );
    assert_eq!(buy.data[..8], [102, 6, 61, 18, 1, 218, 235, 234]);
    assert_eq!(sell.data[..8], [51, 230, 133, 164, 1, 127, 131, 173]);
    assert_eq!(buy.data[8..], sell.data[8..]);
    assert_eq!(buy.data[8..16], 7u64.to_le_bytes());
    assert_eq!(buy.data[16..], 8u64.to_le_bytes());
    assert_eq!(buy.accounts, sell.accounts);
    assert_eq!(buy.program_id, k[0]);
    let expected = vec![
        meta(1, false, false),
        meta(2, true, true),
        meta(3, false, false),
        meta(4, false, false),
        meta(5, false, false),
        meta(6, false, true),
        meta(7, false, true),
        meta(8, false, true),
        meta(9, false, true),
        meta(10, false, false),
        meta(11, false, true),
        meta(12, false, false),
        meta(13, false, false),
        AccountMeta { pubkey: Address::system_program(), is_signer: false, is_writable: false },
        AccountMeta {
            pubkey: Address::associated_token_account_program(),
            is_signer: false,
            is_writable: false,
        },
        meta(14, false, false),
        meta(0, false, false),
    ];
    assert_eq!(buy.accounts, expected);
}

#[test]
fn the_commands_name_their_accounts_in_the_programs_order() {
    let k: Vec<Address> = (0..23).map(address).collect();
    let made = Instruction::initialize(
        &k[0],
        &k[1],
        &k[2],
        &k[3],
        &k[4],
        &k[5],
        &k[6],
        &k[7],
        &k[8],
        9,
        1,
        2,
        3,
        4,
    )
        .unwrap();
    assert_eq!(made.program_id, k[0]);
    assert_eq!(
        made.data,
        Instruction::Initialize {
            lamports_to_treasury: 9,
            w_sol_token_account_pubkey_bump_seed: 1,
            w_sol_token_account_authority_pubkey_bump_seed: 2,
            temporary_w_sol_token_account_pubkey_bump_seed: 3,
            temporary_w_sol_token_account_authority_pubkey_bump_seed: 4,
        }
        .encode()
    );
    let well_known = |a: Address| AccountMeta { pubkey: a, is_signer: false, is_writable: false };
    assert_eq!(
        made.accounts,
        vec![
            meta(1, true, false),
            meta(2, true, true),
            meta(3, false, false),
            meta(4, false, false),
            meta(5, false, true),
            meta(6, false, false),
            meta(7, false, false),
            meta(8, false, false),
            well_known(Address::native_mint()),
            well_known(Address::system_program()),
            well_known(Address::rent_sysvar()),
            well_known(Address::token_program()),
        ]
    );

    let made = Instruction::deposit_funds(&k[0], &k[1], &k[2], &k[3], 5).unwrap();
    assert_eq!(made.data, vec![1, 5, 0, 0, 0, 0, 0, 0, 0]);
    assert_eq!(
        made.accounts,
        vec![
            meta(1, true, true),
            meta(2, false, false),
            meta(3, false, true),
            well_known(Address::system_program()),
            well_known(Address::token_program()),
        ]
    );

    let made = Instruction::withdraw_funds(
        &k[0],
        &k[1],
        &k[2],
        &k[3],
        &k[4],
        &k[5],
        &k[6],
        5,
    ).unwrap();
    assert_eq!(made.data, vec![2, 5, 0, 0, 0, 0, 0, 0, 0]);
    assert_eq!(made.accounts.len(), 10);
    assert_eq!(made.accounts[4], meta(5, false, true));
    assert_eq!(made.accounts[6], well_known(Address::native_mint()));

    let made = Instruction::change_manager(&k[0], &k[1], &k[2], &k[3]).unwrap();
    assert_eq!(made.data, vec![7]);
    assert_eq!(
        made.accounts,
        vec![
            meta(1, true, false),
            meta(2, false, true),
            meta(3, false, false),
            well_known(Address::system_program()),
        ]
    );
    let made = Instruction::change_trader(&k[0], &k[1], &k[2], &k[3]).unwrap();
    assert_eq!(made.data, vec![8]);
    assert_eq!(made.accounts[0], meta(1, true, false));

    let made = Instruction::buy_on_raydium(
        &k[0], &k[1], &k[2], &k[3], &k[4], &k[5], &k[6], &k[7], &k[8], &k[9], &k[10], &k[11],
        &k[12], &k[13],
        &k[14], &k[15], &k[16], &k[17], &k[18], &k[19], &k[20], &k[21], &k[22], &k[0], 1, 2, 3, 4,
    )
    .unwrap();
    assert_eq!(made.accounts.len(), 27);
    assert_eq!(made.accounts[8], well_known(Address::native_mint()));
    assert_eq!(made.accounts[9], meta(9, false, false));
    assert_eq!(made.accounts[13], meta(10, false, false));
    assert_eq!(made.accounts[14], meta(11, false, true));
    assert_eq!(made.accounts[26], meta(0, false, false));

    let made = Instruction::sell_on_raydium(
        &k[0], &k[1], &k[2], &k[3], &k[4], &k[5], &k[6], &k[7], &k[8], &k[9], &k[10], &k[11],
        &k[12], &k[13],
        &k[14], &k[15], &k[16], &k[17], &k[18], &k[19], &k[20], &k[21], &k[22], 1, None, 3, 4, 5, 6,
    )
    .unwrap();
    assert_eq!(made.accounts.len(), 25);
    assert_eq!(made.accounts[7], meta(8, false, false));
    assert_eq!(made.accounts[8], well_known(Address::system_program()));
    assert_eq!(made.data.len(), 14);

    let made = Instruction::buy_on_pumpswap(
        &k[0], &k[1], &k[2], &k[3], &k[4], &k[5], &k[6], &k[7], &k[8], &k[9], &k[10], &k[11],
        &k[12], &k[13],
        &k[14], &k[15], &k[16], &k[17], 1, 2, 3,
    )
    .unwrap();
    assert_eq!(made.accounts.len(), 22);
    assert_eq!(made.accounts[20], well_known(Address::associated_token_account_program()));
    assert_eq!(made.accounts[21], meta(17, false, false));

    let made = Instruction::sell_on_pumpswap(
        &k[0], &k[1], &k[2], &k[3], &k[4], &k[5], &k[6], &k[7], &k[8], &k[9], &k[10], &k[11],
        &k[12], &k[13],
        &k[14], &k[15], &k[16], &k[17], 1, Some(2), 3, 4,
    )
    .unwrap();
    assert_eq!(made.accounts.len(), 22);
    assert_eq!(made.accounts[3], meta(4, false, true));
    assert_eq!(made.accounts[5], meta(6, false, true));
    assert_eq!(made.data.len(), 20);
}
