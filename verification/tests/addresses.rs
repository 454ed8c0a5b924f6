use intermediary::address::{all_distinct, Address};
use intermediary::resolver::{
    AnyMintTokenAccountAddressResolver, ProgramDerivedAddress,
    TemporaryWSolTokenAccountAuthorityAddressResolver, WSolTokenAccountAddressResolver,
};
use solana_program::pubkey::Pubkey;
use std::str::FromStr;

fn key(a: &Address) -> Pubkey {
    Pubkey::new_from_array(a.bytes)
}

fn address(n: u8) -> Address {
    Address { bytes: [n; 32] }
}

#[test]
fn well_known_addresses_are_those_of_the_outside_programs() {
    assert_eq!(key(&Address::token_program()), spl_token::ID);
    assert_eq!(key(&Address::native_mint()), spl_token::native_mint::ID);
    assert_eq!(key(&Address::system_program()), solana_program::system_program::ID);
    assert_eq!(key(&Address::rent_sysvar()), solana_program::sysvar::rent::ID);
    assert_eq!(
        Address::associated_token_account_program().bytes,
        spl_associated_token_account::ID.to_bytes()
    );
    assert_eq!(
        key(&Address::program()),
        Pubkey::from_str("Dz463tPx4MBroW6LMFJFdsnqYQ2JM6N3GXmw3mMq3m68").unwrap()
    );
    assert_eq!(
        key(&Address::raydium_liquidity_pool_v4_program()),
        Pubkey::from_str("675kPX9MHTjS2zt1qfr1NYHuzeLXfQM9H24wFSUt1Mp8").unwrap()
    );
    assert_eq!(
        key(&Address::pumpswap_program()),
        Pubkey::from_str("pAMMBay6oceH9fJKBRHGP5D4bD4sWpmSwMn52FMfXEA").unwrap()
    );
}

#[test]
fn addresses_compare_by_their_bytes() {
    let mut other = address(7);
    assert!(address(7) == other);
    other.bytes[31] = 8;
    assert!(address(7) != other);
}

#[test]
fn all_distinct_finds_a_repeated_address() {
    assert!(all_distinct(&vec![]));
    assert!(all_distinct(&vec![address(1), address(2), address(3)]));
    assert!(!all_distinct(&vec![address(1), address(2), address(1)]));
    assert!(!all_distinct(&vec![address(2), address(2)]));
}

#[test]
fn find_agrees_with_the_outside_search() {
    let record = address(9);
    let resolver = WSolTokenAccountAddressResolver { intermediary_pubkey: &record };
    let (found, bump) = resolver.find().unwrap();
    let (expected, expected_bump) = Pubkey::find_program_address(
        &[
            spl_token::native_mint::ID.as_ref(),
            &record.bytes,
            key(&Address::program()).as_ref(),
        ],
        &key(&Address::program()),
    );
    assert_eq!(key(&found), expected);
    assert_eq!(bump, expected_bump);
    assert_ne!(found, record);
}

#[test]
fn create_recreates_what_find_found() {
    let record = address(11);
    let mint = address(12);
    let resolver = AnyMintTokenAccountAddressResolver {
        any_mint_token_mint_pubkey: &mint,
        intermediary_pubkey: &record,
    };
    let (found, bump) = resolver.find().unwrap();
    assert_eq!(resolver.create(bump), Ok(found));
    assert!(bump >= 1);
}

#[test]
fn seeds_stand_in_the_order_of_their_scheme() {
    let temporary = address(3);
    let record = address(4);
    let resolver = TemporaryWSolTokenAccountAuthorityAddressResolver {
        temporary_w_sol_token_account_pubkey: &temporary,
        intermediary_pubkey: &record,
    };
    assert_eq!(
        resolver.get_seeds(),
        vec![temporary, Address::native_mint(), Address::program(), record]
    );
}

#[test]
fn create_refuses_a_bump_that_lands_on_the_curve() {
    let record = address(9);
    let resolver = WSolTokenAccountAddressResolver { intermediary_pubkey: &record };
    let mut refused = 0;
    for bump in 0..=255u8 {
        let ours = resolver.create(bump);
        let theirs = Pubkey::create_program_address(
            &[
                spl_token::native_mint::ID.as_ref(),
                &record.bytes,
                key(&Address::program()).as_ref(),
                &[bump],
            ],
            &key(&Address::program()),
        );
        match (ours, theirs) {
            (Ok(a), Ok(b)) => assert_eq!(key(&a), b),
            (Err(intermediary::error::PubkeyError::InvalidSeeds), Err(_)) => refused += 1,
            _ => panic!("the two derivations disagree on bump {}", bump),
        }
    }
    assert!(refused > 0);
}
