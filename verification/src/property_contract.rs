//! The companion program of the ledger: it hands units from one owner to
//! the next and keeps a record of each transfer, and it keeps statistics and
//! named entries of metadata beside a property.

use crate::account::{verdict, Account, AccountError, Failure, Wallet};
use crate::address::{
    bump_of, lemma_derived_sits, property_metadata_address, property_metadata_seeds,
    property_stats_address, property_stats_seeds, same, transfer_address, transfer_seeds,
    Address, MAX_SEED_LEN,
};
use crate::checks::{check_vacancy, seat_error, vacancy_error};
use crate::state::{byte_len, stored_len};
use vstd::prelude::*;

verus! {

/// The longest key of an entry of metadata, in bytes.
pub const MAX_METADATA_KEY_LEN: usize = 64;

/// The longest value of an entry of metadata, in bytes.
pub const MAX_METADATA_VALUE_LEN: usize = 256;

/// One unit of a property, as this program keeps it.
#[derive(Clone, Copy, Debug, PartialEq, Eq)]
pub struct ShareNFT {
    pub property: Address,
    pub owner: Address,
    pub token_id: u64,
    pub mint_time: i64,
    pub dividends_claimed: u64,
    pub bump: u8,
}

/// The record of one transfer of a unit. It is written once and never
/// changed.
#[derive(Clone, Copy, Debug, PartialEq, Eq)]
pub struct TransferRecord {
    pub share_nft: Address,
    pub from: Address,
    pub to: Address,
    pub timestamp: i64,
    pub bump: u8,
}

/// The statistics kept beside a property.
#[derive(Clone, Copy, Debug, PartialEq, Eq)]
pub struct PropertyStatsAccount {
    pub property: Address,
    pub total_investors: u64,
    pub total_volume: u64,
    pub total_transfers: u64,
    pub average_hold_time: i64,
    pub bump: u8,
}

/// One named entry of the metadata of a property.
#[derive(Clone, Debug, PartialEq, Eq)]
pub struct PropertyMetadata {
    pub property: Address,
    pub metadata_key: String,
    pub metadata_value: String,
    pub created_at: i64,
    pub bump: u8,
}

/// The statistics of a property, as they are handed out.
#[derive(Clone, Copy, Debug, PartialEq, Eq)]
pub struct PropertyStats {
    pub total_investors: u64,
    pub total_volume: u64,
    pub total_transfers: u64,
    pub average_hold_time: i64,
}

/// The rules of this program that a call can break.
#[derive(Clone, Copy, Debug, PartialEq, Eq)]
pub enum PropertyError {
    MetadataKeyTooLong,
    MetadataValueTooLong,
}

/// The records of a call that hands a unit to another owner.
#[derive(Clone, Debug, PartialEq, Eq)]
pub struct TransferShare {
    pub share_nft: Account<ShareNFT>,
    pub transfer_record: Account<TransferRecord>,
    pub owner: Wallet,
    pub new_owner: Wallet,
}

/// The records of a call that reads the statistics of a property.
#[derive(Clone, Debug, PartialEq, Eq)]
pub struct GetPropertyStats {
    pub property_stats: Account<PropertyStatsAccount>,
    pub property: Wallet,
}

/// The records of a call that starts the statistics of a property.
#[derive(Clone, Debug, PartialEq, Eq)]
pub struct InitializePropertyStats {
    pub property_stats: Account<PropertyStatsAccount>,
    pub property: Wallet,
    pub admin: Wallet,
}

/// The records of a call that adds an entry to the metadata of a property.
#[derive(Clone, Debug, PartialEq, Eq)]
pub struct AddPropertyMetadata {
    pub property_metadata: Account<PropertyMetadata>,
    pub property: Wallet,
    pub admin: Wallet,
}

impl TransferShare {
    /// What is wrong with the records for a transfer with the given
    /// sequence number, if anything: the unit must be there and the caller
    /// the owner that it names, and the place of the record of this
    /// transfer free.
    pub open spec fn account_error(&self, program_id: Address, transfer_count: u64) -> Option<
        AccountError,
    > {
        match self.share_nft.data {
            Some(share_nft) => if share_nft.owner != self.owner.key {
                Some(AccountError::ConstraintHasOne)
            } else {
                vacancy_error(
                    self.transfer_record,
                    transfer_seeds(self.share_nft.key, transfer_count),
                    program_id,
                )
            },
            None => Some(AccountError::AccountNotInitialized),
        }
    }
}

impl GetPropertyStats {
    /// What is wrong with the records, if anything: the statistics must be
    /// there, in the place derived for the property.
    pub open spec fn account_error(&self, program_id: Address) -> Option<AccountError> {
        match self.property_stats.data {
            Some(stats) => seat_error(
                self.property_stats,
                stats.bump,
                property_stats_seeds(self.property.key),
                program_id,
            ),
            None => Some(AccountError::AccountNotInitialized),
        }
    }
}

impl InitializePropertyStats {
    /// What is wrong with the records, if anything: the place of the
    /// statistics must be the one derived for the property, and free.
    pub open spec fn account_error(&self, program_id: Address) -> Option<AccountError> {
        vacancy_error(self.property_stats, property_stats_seeds(self.property.key), program_id)
    }
}

impl AddPropertyMetadata {
    /// What is wrong with the records for an entry under the given key, if
    /// anything: the place of the entry must be the one derived for the
    /// property and the key, and free.
    pub open spec fn account_error(&self, program_id: Address, metadata_key: Seq<char>) -> Option<
        AccountError,
    > {
        vacancy_error(
            self.property_metadata,
            property_metadata_seeds(self.property.key, metadata_key),
            program_id,
        )
    }
}

/// The rule that an entry of metadata breaks, if any.
pub open spec fn add_property_metadata_error(
    metadata_key: Seq<char>,
    metadata_value: Seq<char>,
) -> Option<PropertyError> {
    if byte_len(metadata_key) > MAX_METADATA_KEY_LEN {
        Some(PropertyError::MetadataKeyTooLong)
    } else if byte_len(metadata_value) > MAX_METADATA_VALUE_LEN {
        Some(PropertyError::MetadataValueTooLong)
    } else {
        None
    }
}

/// Hands a unit to another owner and records the transfer under the
/// sequence number that the caller gives.
///
/// The call is rejected, and nothing changes, where no unit is kept in the
/// place handed in, the caller is not the owner that the unit names, or the
/// place of the record is not the one derived for the unit and the sequence
/// number, or holds a record already. Otherwise the unit names the new
/// owner and is unchanged in all else: what it has drawn of the dividends
/// stays drawn. The record names the unit, the old and the new owner, and
/// the time `now`.
pub fn transfer_share(
    program_id: &Address,
    accounts: &mut TransferShare,
    now: i64,
    transfer_count: u64,
) -> (result: Result<(), Failure<PropertyError>>)
    ensures
        result == verdict::<PropertyError>(
            old(accounts).account_error(*program_id, transfer_count),
            None,
        ),
        result is Err ==> *final(accounts) == *old(accounts),
        result is Ok ==> *final(accounts) == (TransferShare {
            share_nft: Account {
                data: Some(
                    ShareNFT {
                        owner: old(accounts).new_owner.key,
                        ..old(accounts).share_nft.data->0
                    },
                ),
                ..old(accounts).share_nft
            },
            transfer_record: Account {
                data: Some(
                    TransferRecord {
                        share_nft: old(accounts).share_nft.key,
                        from: old(accounts).owner.key,
                        to: old(accounts).new_owner.key,
                        timestamp: now,
                        bump: bump_of(
                            transfer_seeds(old(accounts).share_nft.key, transfer_count),
                            *program_id,
                        ),
                    },
                ),
                ..old(accounts).transfer_record
            },
            ..*old(accounts)
        }),
{
    let share_nft = match accounts.share_nft.data {
        Some(s) => s,
        None => {
            return Err(Failure::Account(AccountError::AccountNotInitialized));
        },
    };
    if !same(&share_nft.owner, &accounts.owner.key) {
        return Err(Failure::Account(AccountError::ConstraintHasOne));
    }
    let found = transfer_address(program_id, &accounts.share_nft.key, transfer_count);
    proof {
        lemma_derived_sits(
            found,
            accounts.transfer_record.key,
            transfer_seeds(accounts.share_nft.key, transfer_count),
            *program_id,
        );
    }
    let bump = match check_vacancy(found, &accounts.transfer_record) {
        Ok(b) => b,
        Err(e) => {
            return Err(Failure::Account(e));
        },
    };
    let old_owner = share_nft.owner;
    accounts.share_nft.data = Some(ShareNFT { owner: accounts.new_owner.key, ..share_nft });
    accounts.transfer_record.data = Some(
        TransferRecord {
            share_nft: accounts.share_nft.key,
            from: old_owner,
            to: accounts.new_owner.key,
            timestamp: now,
            bump,
        },
    );
    Ok(())
}

/// Reads the statistics of a property.
///
/// The call is rejected where no statistics are kept in the place handed
/// in, or the place is not the one derived for the property. Otherwise it
/// hands out the four figures as they are kept.
pub fn get_property_stats(program_id: &Address, accounts: &GetPropertyStats) -> (result: Result<
    PropertyStats,
    Failure<PropertyError>,
>)
    ensures
        match result {
            Ok(stats) => accounts.account_error(*program_id) is None && stats == (PropertyStats {
                total_investors: accounts.property_stats.data->0.total_investors,
                total_volume: accounts.property_stats.data->0.total_volume,
                total_transfers: accounts.property_stats.data->0.total_transfers,
                average_hold_time: accounts.property_stats.data->0.average_hold_time,
            }),
            Err(e) => accounts.account_error(*program_id) matches Some(error) && e
                == Failure::<PropertyError>::Account(error),
        },
{
    let stats = match accounts.property_stats.data {
        Some(s) => s,
        None => {
            return Err(Failure::Account(AccountError::AccountNotInitialized));
        },
    };
    let found = property_stats_address(program_id, &accounts.property.key);
    proof {
        lemma_derived_sits(
            found,
            accounts.property_stats.key,
            property_stats_seeds(accounts.property.key),
            *program_id,
        );
    }
    match found {
        Some((address, bump)) => if !same(&address, &accounts.property_stats.key) || bump
            != stats.bump {
            return Err(Failure::Account(AccountError::ConstraintSeeds));
        },
        None => {
            return Err(Failure::Account(AccountError::ConstraintSeeds));
        },
    }
    Ok(
        PropertyStats {
            total_investors: stats.total_investors,
            total_volume: stats.total_volume,
            total_transfers: stats.total_transfers,
            average_hold_time: stats.average_hold_time,
        },
    )
}

/// Starts the statistics of a property, with every figure at zero.
///
/// The call is rejected, and nothing changes, where the place handed in is
/// not the one derived for the property, or statistics are kept there
/// already.
pub fn initialize_property_stats(program_id: &Address, accounts: &mut InitializePropertyStats) -> (result:
    Result<(), Failure<PropertyError>>)
    ensures
        result == verdict::<PropertyError>(old(accounts).account_error(*program_id), None),
        result is Err ==> *final(accounts) == *old(accounts),
        result is Ok ==> *final(accounts) == (InitializePropertyStats {
            property_stats: Account {
                data: Some(
                    PropertyStatsAccount {
                        property: old(accounts).property.key,
                        total_investors: 0,
                        total_volume: 0,
                        total_transfers: 0,
                        average_hold_time: 0,
                        bump: bump_of(
                            property_stats_seeds(old(accounts).property.key),
                            *program_id,
                        ),
                    },
                ),
                ..old(accounts).property_stats
            },
            ..*old(accounts)
        }),
{
    let found = property_stats_address(program_id, &accounts.property.key);
    proof {
        lemma_derived_sits(
            found,
            accounts.property_stats.key,
            property_stats_seeds(accounts.property.key),
            *program_id,
        );
    }
    let bump = match check_vacancy(found, &accounts.property_stats) {
        Ok(b) => b,
        Err(e) => {
            return Err(Failure::Account(e));
        },
    };
    accounts.property_stats.data = Some(
        PropertyStatsAccount {
            property: accounts.property.key,
            total_investors: 0,
            total_volume: 0,
            total_transfers: 0,
            average_hold_time: 0,
            bump,
        },
    );
    Ok(())
}

/// Adds a named entry to the metadata of a property.
///
/// The call is rejected, and nothing changes, where the place handed in is
/// not the one derived for the property and the key, an entry is kept there
/// already, or the key or the value is too long. Otherwise the entry is
/// written with the key, the value and the time `now`.
///
/// The key is a seed of the entry's address, and no address is derived from
/// a seed of more than `MAX_SEED_LEN` bytes: a longer key is rejected for
/// its records, whatever place is handed in, and so before the bound on the
/// key itself is looked at.
pub fn add_property_metadata(
    program_id: &Address,
    accounts: &mut AddPropertyMetadata,
    now: i64,
    metadata_key: String,
    metadata_value: String,
) -> (result: Result<(), Failure<PropertyError>>)
    ensures
        result == verdict(
            old(accounts).account_error(*program_id, metadata_key@),
            add_property_metadata_error(metadata_key@, metadata_value@),
        ),
        byte_len(metadata_key@) > MAX_SEED_LEN ==> result == Err::<(), Failure<PropertyError>>(
            Failure::Account(AccountError::ConstraintSeeds),
        ),
        result is Err ==> *final(accounts) == *old(accounts),
        result is Ok ==> *final(accounts) == (AddPropertyMetadata {
            property_metadata: Account {
                data: Some(
                    PropertyMetadata {
                        property: old(accounts).property.key,
                        metadata_key,
                        metadata_value,
                        created_at: now,
                        bump: bump_of(
                            property_metadata_seeds(old(accounts).property.key, metadata_key@),
                            *program_id,
                        ),
                    },
                ),
                ..old(accounts).property_metadata
            },
            ..*old(accounts)
        }),
{
    let found = property_metadata_address(
        program_id,
        &accounts.property.key,
        metadata_key.as_str(),
    );
    proof {
        lemma_derived_sits(
            found,
            accounts.property_metadata.key,
            property_metadata_seeds(accounts.property.key, metadata_key@),
            *program_id,
        );
    }
    let bump = match check_vacancy(found, &accounts.property_metadata) {
        Ok(b) => b,
        Err(e) => {
            return Err(Failure::Account(e));
        },
    };
    if stored_len(&metadata_key) > MAX_METADATA_KEY_LEN {
        return Err(Failure::Program(PropertyError::MetadataKeyTooLong));
    }
    if stored_len(&metadata_value) > MAX_METADATA_VALUE_LEN {
        return Err(Failure::Program(PropertyError::MetadataValueTooLong));
    }
    accounts.property_metadata.data = Some(
        PropertyMetadata {
            property: accounts.property.key,
            metadata_key,
            metadata_value,
            created_at: now,
            bump,
        },
    );
    Ok(())
}

} // verus!
