//! The registry of the operator and the properties under it: how a property
//! comes to be, and how its sale is closed.

use crate::account::{first, verdict, Account, AccountError, Failure, Wallet};
use crate::address::{
    bump_of, factory_address, factory_seeds, lemma_derived_sits, property_address,
    property_seeds, same, Address,
};
use crate::checks::{
    check_factory, check_managed_property, check_proof, check_vacancy, factory_error,
    managed_property_error, proof_error, vacancy_error,
};
use crate::state::{
    byte_len, stored_len, Factory, FactoryError, Property, TeamMember, MAX_CID_LEN, MAX_NAME_LEN,
    MAX_TYPE_LEN,
};
use crate::team::{assert_authorized, authorization_error, operator_error};
use vstd::prelude::*;

verus! {

/// The records of a call that creates a property.
#[derive(Clone, Debug, PartialEq, Eq)]
pub struct CreateProperty {
    pub factory: Account<Factory>,
    pub property: Account<Property>,
    pub authority: Wallet,
    pub team_member: Option<Account<TeamMember>>,
}

impl CreateProperty {
    /// What is wrong with the records, if anything: the registry must be in
    /// its place, and the place of the property that comes next under it free.
    pub open spec fn account_error(&self, program_id: Address) -> Option<AccountError> {
        first(
            factory_error(self.factory, program_id),
            first(
                match self.factory.data {
                    Some(f) => vacancy_error(
                        self.property,
                        property_seeds(self.factory.key, f.property_count),
                        program_id,
                    ),
                    None => None,
                },
                proof_error(self.team_member),
            ),
        )
    }

    /// The bump seed that the new property remembers.
    pub open spec fn property_bump(&self, program_id: Address) -> u8 {
        match self.factory.data {
            Some(f) => bump_of(property_seeds(self.factory.key, f.property_count), program_id),
            None => 0,
        }
    }

    fn check(&self, program_id: &Address) -> (bump: Result<u8, AccountError>)
        ensures
            match bump {
                Ok(b) => self.account_error(*program_id) is None && b == self.property_bump(
                    *program_id,
                ),
                Err(e) => self.account_error(*program_id) == Some(e),
            },
    {
        match check_factory(program_id, &self.factory) {
            Some(e) => {
                return Err(e);
            },
            None => {},
        }
        let count = match &self.factory.data {
            Some(f) => f.property_count,
            None => {
                return Err(AccountError::AccountNotInitialized);
            },
        };
        let found = property_address(program_id, &self.factory.key, count);
        proof {
            lemma_derived_sits(
                found,
                self.property.key,
                property_seeds(self.factory.key, count),
                *program_id,
            );
        }
        let bump = match check_vacancy(found, &self.property) {
            Ok(b) => b,
            Err(e) => {
                return Err(e);
            },
        };
        match check_proof(&self.team_member) {
            Some(e) => Err(e),
            None => Ok(bump),
        }
    }
}

/// The rule that the terms of a new property break, if any, for a call made
/// at `now`.
pub open spec fn create_property_error(
    program_id: Address,
    accounts: CreateProperty,
    now: i64,
    asset_type: Seq<char>,
    name: Seq<char>,
    city: Seq<char>,
    province: Seq<char>,
    country: Seq<char>,
    total_shares: u64,
    share_price: u64,
    sale_duration: i64,
    property_type: Seq<char>,
    image_cid: Seq<char>,
    metadata_cid: Seq<char>,
) -> Option<FactoryError> {
    if byte_len(asset_type) > MAX_TYPE_LEN {
        Some(FactoryError::AssetTypeTooLong)
    } else if byte_len(name) > MAX_NAME_LEN {
        Some(FactoryError::NameTooLong)
    } else if byte_len(city) > MAX_NAME_LEN {
        Some(FactoryError::CityTooLong)
    } else if byte_len(province) > MAX_NAME_LEN {
        Some(FactoryError::ProvinceTooLong)
    } else if byte_len(country) > MAX_NAME_LEN {
        Some(FactoryError::CountryTooLong)
    } else if byte_len(property_type) > MAX_TYPE_LEN {
        Some(FactoryError::TypeTooLong)
    } else if byte_len(image_cid) > MAX_CID_LEN {
        Some(FactoryError::ImageCidTooLong)
    } else if byte_len(metadata_cid) > MAX_CID_LEN {
        Some(FactoryError::MetadataCidTooLong)
    } else if total_shares == 0 {
        Some(FactoryError::InvalidShareAmount)
    } else if share_price == 0 {
        Some(FactoryError::InvalidPrice)
    } else if sale_duration <= 0 {
        Some(FactoryError::InvalidDuration)
    } else {
        first(
            authorization_error(
                program_id,
                accounts.factory,
                accounts.authority.key,
                accounts.team_member,
            ),
            if now + sale_duration > i64::MAX {
                Some(FactoryError::MathOverflow)
            } else if accounts.factory.data matches Some(f) && f.property_count == u64::MAX {
                Some(FactoryError::MathOverflow)
            } else {
                None
            },
        )
    }
}

/// Creates the next property under the registry and opens its sale, which
/// lasts from `now` for `sale_duration` seconds.
///
/// The call is rejected, and nothing changes, where the records are not in
/// their places, a text is too long, a number of units, a price or a
/// duration is not positive, the caller may not act for the operator, or a
/// counter would overflow. Otherwise the property is written with the number
/// that the registry counts next, nothing sold and nothing paid yet, and the
/// registry counts one more.
pub fn create_property(
    program_id: &Address,
    accounts: &mut CreateProperty,
    now: i64,
    asset_type: String,
    name: String,
    city: String,
    province: String,
    country: String,
    total_shares: u64,
    share_price: u64,
    sale_duration: i64,
    surface: u32,
    rooms: u8,
    expected_return: u32,
    property_type: String,
    year_built: u16,
    image_cid: String,
    metadata_cid: String,
    voting_enabled: bool,
) -> (result: Result<(), Failure<FactoryError>>)
    ensures
        result == verdict(
            old(accounts).account_error(*program_id),
            create_property_error(
                *program_id,
                *old(accounts),
                now,
                asset_type@,
                name@,
                city@,
                province@,
                country@,
                total_shares,
                share_price,
                sale_duration,
                property_type@,
                image_cid@,
                metadata_cid@,
            ),
        ),
        result is Err ==> *final(accounts) == *old(accounts),
        result is Ok ==> ({
            let registry = old(accounts).factory.data->0;
            *final(accounts) == (CreateProperty {
            factory: Account {
                data: Some(
                    Factory { property_count: (registry.property_count + 1) as u64, ..registry },
                ),
                ..old(accounts).factory
            },
            property: Account {
                data: Some(
                    Property {
                        factory: old(accounts).factory.key,
                        property_id: registry.property_count,
                        asset_type,
                        name,
                        city,
                        province,
                        country,
                        total_shares,
                        share_price,
                        shares_sold: 0,
                        sale_start: now,
                        sale_end: (now + sale_duration) as i64,
                        is_active: true,
                        surface,
                        rooms,
                        expected_return,
                        property_type,
                        year_built,
                        image_cid,
                        metadata_cid,
                        voting_enabled,
                        total_dividends_deposited: 0,
                        total_dividends_claimed: 0,
                        proposal_count: 0,
                        is_liquidated: false,
                        liquidation_amount: 0,
                        liquidation_claimed: 0,
                        bump: old(accounts).property_bump(*program_id),
                    },
                ),
                ..old(accounts).property
            },
            ..*old(accounts)
        })
        }),
        result is Ok ==> final(accounts).property.data->0.well_formed(),
{
    let bump = match accounts.check(program_id) {
        Ok(b) => b,
        Err(e) => {
            return Err(Failure::Account(e));
        },
    };
    if stored_len(&asset_type) > MAX_TYPE_LEN {
        return Err(Failure::Program(FactoryError::AssetTypeTooLong));
    }
    if stored_len(&name) > MAX_NAME_LEN {
        return Err(Failure::Program(FactoryError::NameTooLong));
    }
    if stored_len(&city) > MAX_NAME_LEN {
        return Err(Failure::Program(FactoryError::CityTooLong));
    }
    if stored_len(&province) > MAX_NAME_LEN {
        return Err(Failure::Program(FactoryError::ProvinceTooLong));
    }
    if stored_len(&country) > MAX_NAME_LEN {
        return Err(Failure::Program(FactoryError::CountryTooLong));
    }
    if stored_len(&property_type) > MAX_TYPE_LEN {
        return Err(Failure::Program(FactoryError::TypeTooLong));
    }
    if stored_len(&image_cid) > MAX_CID_LEN {
        return Err(Failure::Program(FactoryError::ImageCidTooLong));
    }
    if stored_len(&metadata_cid) > MAX_CID_LEN {
        return Err(Failure::Program(FactoryError::MetadataCidTooLong));
    }
    if total_shares == 0 {
        return Err(Failure::Program(FactoryError::InvalidShareAmount));
    }
    if share_price == 0 {
        return Err(Failure::Program(FactoryError::InvalidPrice));
    }
    if sale_duration <= 0 {
        return Err(Failure::Program(FactoryError::InvalidDuration));
    }
    match assert_authorized(
        program_id,
        &accounts.factory,
        &accounts.authority,
        &accounts.team_member,
    ) {
        Ok(()) => {},
        Err(e) => {
            return Err(Failure::Program(e));
        },
    }
    let sale_end = match now.checked_add(sale_duration) {
        Some(end) => end,
        None => {
            return Err(Failure::Program(FactoryError::MathOverflow));
        },
    };
    let registry = match accounts.factory.data {
        Some(f) => f,
        None => {
            return Err(Failure::Account(AccountError::AccountNotInitialized));
        },
    };
    let next_count = match registry.property_count.checked_add(1) {
        Some(count) => count,
        None => {
            return Err(Failure::Program(FactoryError::MathOverflow));
        },
    };
    accounts.property.data = Some(
        Property {
            factory: accounts.factory.key,
            property_id: registry.property_count,
            asset_type,
            name,
            city,
            province,
            country,
            total_shares,
            share_price,
            shares_sold: 0,
            sale_start: now,
            sale_end,
            is_active: true,
            surface,
            rooms,
            expected_return,
            property_type,
            year_built,
            image_cid,
            metadata_cid,
            voting_enabled,
            total_dividends_deposited: 0,
            total_dividends_claimed: 0,
            proposal_count: 0,
            is_liquidated: false,
            liquidation_amount: 0,
            liquidation_claimed: 0,
            bump,
        },
    );
    accounts.factory.data = Some(Factory { property_count: next_count, ..registry });
    Ok(())
}

/// The records of a call that creates the registry.
#[derive(Clone, Debug, PartialEq, Eq)]
pub struct Initialize {
    pub factory: Account<Factory>,
    pub treasury: Wallet,
    pub payer: Wallet,
}

/// The records of a call that hands the registry to another operator.
#[derive(Clone, Debug, PartialEq, Eq)]
pub struct UpdateAdmin {
    pub factory: Account<Factory>,
    pub admin: Wallet,
}

/// The records of a call that closes the sale of a property.
#[derive(Clone, Debug, PartialEq, Eq)]
pub struct ClosePropertySale {
    pub factory: Account<Factory>,
    pub property: Account<Property>,
    pub authority: Wallet,
    pub team_member: Option<Account<TeamMember>>,
}

impl Initialize {
    /// What is wrong with the records, if anything: the place of the
    /// registry must be the one derived for the program, and free.
    pub open spec fn account_error(&self, program_id: Address) -> Option<AccountError> {
        vacancy_error(self.factory, factory_seeds(), program_id)
    }
}

impl UpdateAdmin {
    /// What is wrong with the records, if anything: the registry must be in
    /// its place, and the caller the operator that it names.
    pub open spec fn account_error(&self, program_id: Address) -> Option<AccountError> {
        first(
            factory_error(self.factory, program_id),
            operator_error(self.factory, self.admin.key),
        )
    }
}

impl ClosePropertySale {
    /// What is wrong with the records, if anything.
    pub open spec fn account_error(&self, program_id: Address) -> Option<AccountError> {
        managed_property_error(self.factory, self.property, self.team_member, program_id)
    }
}

/// The rule that closing the sale of a property at `now` breaks, if any.
pub open spec fn close_property_sale_error(
    program_id: Address,
    accounts: ClosePropertySale,
    now: i64,
) -> Option<FactoryError> {
    first(
        authorization_error(
            program_id,
            accounts.factory,
            accounts.authority.key,
            accounts.team_member,
        ),
        match accounts.property.data {
            Some(property) => if now <= property.sale_end {
                Some(FactoryError::SaleStillActive)
            } else {
                None
            },
            None => None,
        },
    )
}

/// Creates the registry of a program, with its operator and the wallet
/// that is paid for the units.
///
/// The call is rejected, and nothing changes, where the place handed in is
/// not the one derived for the program, or a registry is kept there
/// already. Otherwise the registry is written with no property counted.
pub fn initialize(program_id: &Address, accounts: &mut Initialize, admin: Address) -> (result:
    Result<(), Failure<FactoryError>>)
    ensures
        result == verdict::<FactoryError>(old(accounts).account_error(*program_id), None),
        result is Err ==> *final(accounts) == *old(accounts),
        result is Ok ==> *final(accounts) == (Initialize {
            factory: Account {
                data: Some(
                    Factory {
                        admin,
                        treasury: old(accounts).treasury.key,
                        property_count: 0,
                        bump: bump_of(factory_seeds(), *program_id),
                    },
                ),
                ..old(accounts).factory
            },
            ..*old(accounts)
        }),
{
    let found = factory_address(program_id);
    proof {
        lemma_derived_sits(found, accounts.factory.key, factory_seeds(), *program_id);
    }
    let bump = match check_vacancy(found, &accounts.factory) {
        Ok(b) => b,
        Err(e) => {
            return Err(Failure::Account(e));
        },
    };
    accounts.factory.data = Some(
        Factory { admin, treasury: accounts.treasury.key, property_count: 0, bump },
    );
    Ok(())
}

/// Hands the registry to another operator.
///
/// The call is rejected, and nothing changes, where the registry is not in
/// its place or the caller is not its operator. Otherwise the registry
/// names the new operator, and nothing else changes.
pub fn update_admin(program_id: &Address, accounts: &mut UpdateAdmin, new_admin: Address) -> (result:
    Result<(), Failure<FactoryError>>)
    ensures
        result == verdict::<FactoryError>(old(accounts).account_error(*program_id), None),
        result is Err ==> *final(accounts) == *old(accounts),
        result is Ok ==> *final(accounts) == (UpdateAdmin {
            factory: Account {
                data: Some(Factory { admin: new_admin, ..old(accounts).factory.data->0 }),
                ..old(accounts).factory
            },
            ..*old(accounts)
        }),
{
    match check_factory(program_id, &accounts.factory) {
        Some(e) => {
            return Err(Failure::Account(e));
        },
        None => {},
    }
    let registry = match accounts.factory.data {
        Some(f) => f,
        None => {
            return Err(Failure::Account(AccountError::AccountNotInitialized));
        },
    };
    if !same(&accounts.admin.key, &registry.admin) {
        return Err(Failure::Account(AccountError::ConstraintAddress));
    }
    accounts.factory.data = Some(Factory { admin: new_admin, ..registry });
    Ok(())
}

/// Closes the sale of a property whose sale window has passed.
///
/// The call is rejected, and nothing changes, where the records are not in
/// their places, the caller may not act for the operator, or the sale
/// window has not passed. Otherwise the sale is closed, whether or not it
/// was closed before.
pub fn close_property_sale(program_id: &Address, accounts: &mut ClosePropertySale, now: i64) -> (result:
    Result<(), Failure<FactoryError>>)
    ensures
        result == verdict(
            old(accounts).account_error(*program_id),
            close_property_sale_error(*program_id, *old(accounts), now),
        ),
        result is Err ==> *final(accounts) == *old(accounts),
        result is Ok ==> *final(accounts) == (ClosePropertySale {
            property: Account {
                data: Some(Property { is_active: false, ..old(accounts).property.data->0 }),
                ..old(accounts).property
            },
            ..*old(accounts)
        }),
        result is Ok && old(accounts).property.data->0.well_formed() ==> final(accounts)
            .property.data->0.well_formed(),
{
    match check_managed_property(
        program_id,
        &accounts.factory,
        &accounts.property,
        &accounts.team_member,
    ) {
        Some(e) => {
            return Err(Failure::Account(e));
        },
        None => {},
    }
    match assert_authorized(
        program_id,
        &accounts.factory,
        &accounts.authority,
        &accounts.team_member,
    ) {
        Ok(()) => {},
        Err(e) => {
            return Err(Failure::Program(e));
        },
    }
    match &mut accounts.property.data {
        Some(property) => {
            if now <= property.sale_end {
                return Err(Failure::Program(FactoryError::SaleStillActive));
            }
            property.is_active = false;
        },
        None => {
            return Err(Failure::Account(AccountError::AccountNotInitialized));
        },
    }
    Ok(())
}

} // verus!
