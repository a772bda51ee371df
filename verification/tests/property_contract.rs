#![allow(dead_code, unused_imports)]

use anchor_lang::solana_program::pubkey::Pubkey;
use real_estate_factory::account::{Account, AccountError, Failure, Wallet};
use real_estate_factory::address::{
    property_metadata_address, property_stats_address, transfer_address, Address,
};
use real_estate_factory::property_contract::{
    add_property_metadata, get_property_stats, initialize_property_stats, transfer_share,
    AddPropertyMetadata, GetPropertyStats, InitializePropertyStats, PropertyError,
    PropertyMetadata, PropertyStats, PropertyStatsAccount, ShareNFT, TransferRecord,
    TransferShare,
};

const START: i64 = 1_700_000_000;

fn addr(n: u8) -> Address {
    Address::new([n; 32])
}

fn program() -> Address {
    addr(8)
}

fn wallet(n: u8) -> Wallet {
    Wallet { key: addr(n), lamports: 1_000_000 }
}

fn vacant<T>(key: Address) -> Account<T> {
    Account { key, lamports: 0, data: None }
}

fn records<T: std::fmt::Debug, E: std::fmt::Debug>(result: Result<T, Failure<E>>) -> AccountError {
    match result {
        Err(Failure::Account(e)) => e,
        other => panic!("expected the records to be rejected, got {:?}", other),
    }
}

fn unit(owner: u8, dividends_claimed: u64) -> Account<ShareNFT> {
    Account {
        key: addr(50),
        lamports: 9,
        data: Some(ShareNFT {
            property: addr(40),
            owner: addr(owner),
            token_id: 3,
            mint_time: START,
            dividends_claimed,
            bump: 250,
        }),
    }
}

fn transfer_accounts(share_nft: &Account<ShareNFT>, owner: u8, new_owner: u8, count: u64) -> TransferShare {
    let (key, _) = transfer_address(&program(), &share_nft.key, count).unwrap();
    TransferShare {
        share_nft: share_nft.clone(),
        transfer_record: vacant(key),
        owner: wallet(owner),
        new_owner: wallet(new_owner),
    }
}

#[test]
fn transfer_share_names_the_new_owner_and_records_the_transfer() {
    let share_nft = unit(10, 15);
    let mut accounts = transfer_accounts(&share_nft, 10, 11, 0);
    let (key, bump) = transfer_address(&program(), &share_nft.key, 0).unwrap();
    transfer_share(&program(), &mut accounts, START + 9, 0).unwrap();
    assert_eq!(
        accounts.share_nft.data,
        Some(ShareNFT { owner: addr(11), ..share_nft.data.unwrap() })
    );
    assert_eq!(accounts.transfer_record.key, key);
    assert_eq!(
        accounts.transfer_record.data,
        Some(TransferRecord {
            share_nft: share_nft.key,
            from: addr(10),
            to: addr(11),
            timestamp: START + 9,
            bump,
        })
    );
}

#[test]
fn transfer_share_keeps_what_the_unit_has_drawn() {
    let share_nft = unit(10, 15);
    let mut accounts = transfer_accounts(&share_nft, 10, 11, 0);
    transfer_share(&program(), &mut accounts, START, 0).unwrap();
    assert_eq!(accounts.share_nft.data.unwrap().dividends_claimed, 15);
}

#[test]
fn transfer_share_is_for_the_owner_of_the_unit() {
    let share_nft = unit(10, 0);
    let mut accounts = transfer_accounts(&share_nft, 12, 11, 0);
    let before = accounts.clone();
    assert_eq!(
        records(transfer_share(&program(), &mut accounts, START, 0)),
        AccountError::ConstraintHasOne
    );
    assert_eq!(accounts, before);
}

#[test]
fn transfer_share_needs_a_unit() {
    let mut accounts = transfer_accounts(&vacant(addr(50)), 10, 11, 0);
    assert_eq!(
        records(transfer_share(&program(), &mut accounts, START, 0)),
        AccountError::AccountNotInitialized
    );
}

#[test]
fn transfer_share_with_a_sequence_number_used_before_collides() {
    let share_nft = unit(10, 0);
    let mut first = transfer_accounts(&share_nft, 10, 11, 4);
    transfer_share(&program(), &mut first, START, 4).unwrap();
    let mut again = TransferShare {
        share_nft: first.share_nft.clone(),
        transfer_record: first.transfer_record.clone(),
        owner: wallet(11),
        new_owner: wallet(12),
    };
    let before = again.clone();
    assert_eq!(
        records(transfer_share(&program(), &mut again, START + 1, 4)),
        AccountError::AccountAlreadyInUse
    );
    assert_eq!(again, before);
    // Another sequence number has a place of its own.
    let mut next = transfer_accounts(&first.share_nft, 11, 12, 5);
    assert_eq!(transfer_share(&program(), &mut next, START + 1, 5), Ok(()));
    assert_ne!(next.transfer_record.key, first.transfer_record.key);
}

#[test]
fn transfer_share_rejects_the_place_of_another_sequence_number() {
    let share_nft = unit(10, 0);
    let mut accounts = transfer_accounts(&share_nft, 10, 11, 0);
    assert_eq!(
        records(transfer_share(&program(), &mut accounts, START, 1)),
        AccountError::ConstraintSeeds
    );
    assert_eq!(accounts.share_nft, share_nft);
}

#[test]
fn transfer_address_is_the_program_derived_address() {
    let (key, bump) = transfer_address(&program(), &addr(50), 258).unwrap();
    let (expected, expected_bump) = Pubkey::find_program_address(
        &[b"transfer", &[50u8; 32], &258u64.to_le_bytes()],
        &Pubkey::new_from_array([8u8; 32]),
    );
    assert_eq!(key.bytes, expected.to_bytes());
    assert_eq!(bump, expected_bump);
}

fn new_stats(property: u8) -> Account<PropertyStatsAccount> {
    let (key, _) = property_stats_address(&program(), &addr(property)).unwrap();
    let mut accounts = InitializePropertyStats {
        property_stats: vacant(key),
        property: wallet(property),
        admin: wallet(1),
    };
    initialize_property_stats(&program(), &mut accounts).unwrap();
    accounts.property_stats
}

#[test]
fn initialize_property_stats_starts_at_zero() {
    let (key, bump) = property_stats_address(&program(), &addr(40)).unwrap();
    let stats = new_stats(40);
    assert_eq!(stats.key, key);
    assert_eq!(
        stats.data,
        Some(PropertyStatsAccount {
            property: addr(40),
            total_investors: 0,
            total_volume: 0,
            total_transfers: 0,
            average_hold_time: 0,
            bump,
        })
    );
}

#[test]
fn initialize_property_stats_twice_collides() {
    let stats = new_stats(40);
    let mut accounts = InitializePropertyStats {
        property_stats: stats.clone(),
        property: wallet(40),
        admin: wallet(1),
    };
    assert_eq!(
        records(initialize_property_stats(&program(), &mut accounts)),
        AccountError::AccountAlreadyInUse
    );
    assert_eq!(accounts.property_stats, stats);
}

#[test]
fn initialize_property_stats_rejects_the_place_of_another_property() {
    let (key, _) = property_stats_address(&program(), &addr(41)).unwrap();
    let mut accounts = InitializePropertyStats {
        property_stats: vacant(key),
        property: wallet(40),
        admin: wallet(1),
    };
    assert_eq!(
        records(initialize_property_stats(&program(), &mut accounts)),
        AccountError::ConstraintSeeds
    );
}

#[test]
fn get_property_stats_hands_out_the_figures() {
    let mut stats = new_stats(40);
    {
        let s = stats.data.as_mut().unwrap();
        s.total_investors = 12;
        s.total_volume = 34_000;
        s.total_transfers = 5;
        s.average_hold_time = -7;
    }
    let accounts = GetPropertyStats { property_stats: stats, property: wallet(40) };
    assert_eq!(
        get_property_stats(&program(), &accounts),
        Ok(PropertyStats {
            total_investors: 12,
            total_volume: 34_000,
            total_transfers: 5,
            average_hold_time: -7,
        })
    );
}

#[test]
fn get_property_stats_needs_the_statistics_of_this_property() {
    let stats = new_stats(40);
    let accounts = GetPropertyStats { property_stats: stats.clone(), property: wallet(41) };
    assert_eq!(records(get_property_stats(&program(), &accounts)), AccountError::ConstraintSeeds);
    let mut forged = stats;
    forged.data.as_mut().unwrap().bump ^= 1;
    let accounts = GetPropertyStats { property_stats: forged, property: wallet(40) };
    assert_eq!(records(get_property_stats(&program(), &accounts)), AccountError::ConstraintSeeds);
    let (key, _) = property_stats_address(&program(), &addr(40)).unwrap();
    let accounts = GetPropertyStats { property_stats: vacant(key), property: wallet(40) };
    assert_eq!(
        records(get_property_stats(&program(), &accounts)),
        AccountError::AccountNotInitialized
    );
}

fn metadata_accounts(property: u8, key: &str) -> AddPropertyMetadata {
    let place = match property_metadata_address(&program(), &addr(property), key) {
        Some((address, _)) => address,
        None => addr(0),
    };
    AddPropertyMetadata {
        property_metadata: vacant(place),
        property: wallet(property),
        admin: wallet(1),
    }
}

#[test]
fn add_property_metadata_writes_the_entry() {
    let mut accounts = metadata_accounts(40, "heating");
    let (key, bump) = property_metadata_address(&program(), &addr(40), "heating").unwrap();
    add_property_metadata(&program(), &mut accounts, START, "heating".to_string(), "gas".to_string())
        .unwrap();
    assert_eq!(accounts.property_metadata.key, key);
    assert_eq!(
        accounts.property_metadata.data,
        Some(PropertyMetadata {
            property: addr(40),
            metadata_key: "heating".to_string(),
            metadata_value: "gas".to_string(),
            created_at: START,
            bump,
        })
    );
}

#[test]
fn add_property_metadata_under_a_key_used_before_collides() {
    let mut accounts = metadata_accounts(40, "heating");
    add_property_metadata(&program(), &mut accounts, START, "heating".to_string(), "gas".to_string())
        .unwrap();
    let before = accounts.clone();
    assert_eq!(
        records(add_property_metadata(
            &program(),
            &mut accounts,
            START + 1,
            "heating".to_string(),
            "oil".to_string()
        )),
        AccountError::AccountAlreadyInUse
    );
    assert_eq!(accounts, before);
}

#[test]
fn add_property_metadata_rejects_the_place_of_another_key() {
    let mut accounts = metadata_accounts(40, "heating");
    assert_eq!(
        records(add_property_metadata(
            &program(),
            &mut accounts,
            START,
            "cooling".to_string(),
            "none".to_string()
        )),
        AccountError::ConstraintSeeds
    );
}

#[test]
fn add_property_metadata_bounds_the_value() {
    let mut accounts = metadata_accounts(40, "notes");
    assert_eq!(
        add_property_metadata(&program(), &mut accounts, START, "notes".to_string(), "v".repeat(257)),
        Err(Failure::Program(PropertyError::MetadataValueTooLong))
    );
    assert_eq!(accounts.property_metadata.data, None);
    assert_eq!(
        add_property_metadata(&program(), &mut accounts, START, "notes".to_string(), "v".repeat(256)),
        Ok(())
    );
}

#[test]
fn add_property_metadata_derives_no_place_for_a_key_longer_than_a_seed() {
    // A key of more than 32 bytes is no seed: no place is derived for it, so
    // the records are rejected before the length of the key is looked at.
    let long = "k".repeat(33);
    assert_eq!(property_metadata_address(&program(), &addr(40), &long), None);
    let mut accounts = metadata_accounts(40, &long);
    assert_eq!(
        records(add_property_metadata(&program(), &mut accounts, START, long.clone(), "v".to_string())),
        AccountError::ConstraintSeeds
    );
    let longer = "k".repeat(65);
    let mut accounts = metadata_accounts(40, &longer);
    assert_eq!(
        records(add_property_metadata(&program(), &mut accounts, START, longer, "v".to_string())),
        AccountError::ConstraintSeeds
    );
    let fits = "k".repeat(32);
    let mut accounts = metadata_accounts(40, &fits);
    assert_eq!(
        add_property_metadata(&program(), &mut accounts, START, fits, "v".to_string()),
        Ok(())
    );
}
