//! The end of a property: the operator pays in what the asset was sold for,
//! and each unit is paid its equal part once and is then retired.

use crate::account::{first, verdict, verdict_with, Account, AccountError, Failure, Transfer, Wallet};
use crate::address::{same, Address};
use crate::checks::{
    check_managed_property, check_own_property, check_share_nft, managed_property_error,
    own_property_error, share_nft_error,
};
use crate::state::{Factory, FactoryError, Property, ShareNFT, TeamMember};
use crate::team::{assert_authorized, authorization_error};
use vstd::prelude::*;

verus! {

/// The records of a call that pays in the proceeds of the final sale.
#[derive(Clone, Debug, PartialEq, Eq)]
pub struct LiquidateProperty {
    pub factory: Account<Factory>,
    pub property: Account<Property>,
    pub authority: Wallet,
    pub team_member: Option<Account<TeamMember>>,
}

/// The records of a call that pays a unit its part of the proceeds.
#[derive(Clone, Debug, PartialEq, Eq)]
pub struct ClaimLiquidation {
    pub property: Account<Property>,
    pub share_nft: Account<ShareNFT>,
    pub owner: Wallet,
}

impl LiquidateProperty {
    /// What is wrong with the records, if anything.
    pub open spec fn account_error(&self, program_id: Address) -> Option<AccountError> {
        managed_property_error(self.factory, self.property, self.team_member, program_id)
    }
}

impl ClaimLiquidation {
    /// What is wrong with the records, if anything: the property and the
    /// unit under it must be in their places.
    pub open spec fn account_error(&self, program_id: Address) -> Option<AccountError> {
        first(
            own_property_error(self.property, program_id),
            share_nft_error(self.share_nft, self.property.key, program_id),
        )
    }
}

/// What each unit is paid of the proceeds.
pub open spec fn liquidation_per_unit(property: Property) -> int
    recommends
        property.total_shares > 0,
{
    property.liquidation_amount as int / property.total_shares as int
}

/// The property after the proceeds were paid in.
pub open spec fn liquidated(property: Property, total_sale_amount: u64) -> Property {
    Property {
        is_liquidated: true,
        liquidation_amount: total_sale_amount,
        liquidation_claimed: 0,
        ..property
    }
}

/// The property after one unit was paid its part.
pub open spec fn after_liquidation_claim(property: Property) -> Property {
    Property {
        liquidation_claimed: (property.liquidation_claimed + liquidation_per_unit(property)) as u64,
        ..property
    }
}

/// The rule that paying in the proceeds breaks, if any.
pub open spec fn liquidate_property_error(
    program_id: Address,
    accounts: LiquidateProperty,
    total_sale_amount: u64,
) -> Option<FactoryError> {
    if total_sale_amount == 0 {
        Some(FactoryError::InvalidAmount)
    } else {
        first(
            authorization_error(
                program_id,
                accounts.factory,
                accounts.authority.key,
                accounts.team_member,
            ),
            match accounts.property.data {
                Some(property) => if property.shares_sold != property.total_shares {
                    Some(FactoryError::NoSharesSold)
                } else if property.is_active {
                    Some(FactoryError::SaleStillActive)
                } else if property.is_liquidated {
                    Some(FactoryError::AlreadyLiquidated)
                } else if property.total_shares == 0 {
                    Some(FactoryError::MathOverflow)
                } else if total_sale_amount % property.total_shares != 0 {
                    Some(FactoryError::InvalidAmount)
                } else {
                    None
                },
                None => None,
            },
        )
    }
}

/// Pays in the proceeds of the final sale of a property, to be shared out
/// among its units.
///
/// The call is rejected, and nothing changes, where the records are not in
/// their places, the amount is zero, the caller may not act for the
/// operator, units are left unsold, the sale is still open, the proceeds
/// were paid in before, or the amount is no multiple of the number of units.
/// Otherwise the property is marked as liquidated with this amount and
/// nothing claimed, and the caller owes the amount to the property.
pub fn liquidate_property(
    program_id: &Address,
    accounts: &mut LiquidateProperty,
    total_sale_amount: u64,
) -> (result: Result<Transfer, Failure<FactoryError>>)
    ensures
        result == verdict_with(
            old(accounts).account_error(*program_id),
            liquidate_property_error(*program_id, *old(accounts), total_sale_amount),
            Transfer {
                from: old(accounts).authority.key,
                to: old(accounts).property.key,
                lamports: total_sale_amount,
            },
        ),
        result is Err ==> *final(accounts) == *old(accounts),
        result is Ok ==> *final(accounts) == (LiquidateProperty {
            property: Account {
                data: Some(liquidated(old(accounts).property.data->0, total_sale_amount)),
                ..old(accounts).property
            },
            ..*old(accounts)
        }),
        result is Ok && old(accounts).property.data->0.well_formed() ==> final(accounts)
            .property.data->0.well_formed(),
{
    match check_managed_property(
        program_id,
        &accounts.factory,
        &accounts.property,
        &accounts.team_member,
    ) {
        Some(e) => {
            return Err(Failure::Account(e));
        },
        None => {},
    }
    if total_sale_amount == 0 {
        return Err(Failure::Program(FactoryError::InvalidAmount));
    }
    match assert_authorized(
        program_id,
        &accounts.factory,
        &accounts.authority,
        &accounts.team_member,
    ) {
        Ok(()) => {},
        Err(e) => {
            return Err(Failure::Program(e));
        },
    }
    match &mut accounts.property.data {
        Some(property) => {
            if property.shares_sold != property.total_shares {
                return Err(Failure::Program(FactoryError::NoSharesSold));
            }
            if property.is_active {
                return Err(Failure::Program(FactoryError::SaleStillActive));
            }
            if property.is_liquidated {
                return Err(Failure::Program(FactoryError::AlreadyLiquidated));
            }
            if property.total_shares == 0 {
                return Err(Failure::Program(FactoryError::MathOverflow));
            }
            if total_sale_amount % property.total_shares != 0 {
                return Err(Failure::Program(FactoryError::InvalidAmount));
            }
            property.is_liquidated = true;
            property.liquidation_amount = total_sale_amount;
            property.liquidation_claimed = 0;
        },
        None => {
            return Err(Failure::Account(AccountError::AccountNotInitialized));
        },
    }
    Ok(
        Transfer {
            from: accounts.authority.key,
            to: accounts.property.key,
            lamports: total_sale_amount,
        },
    )
}

/// The records after a unit was paid its part: the part has moved from the
/// property's balance to the owner's, the property counts it as claimed,
/// and the unit is gone, with what was held against it paid to the owner.
pub open spec fn after_claim_liquidation(accounts: ClaimLiquidation) -> ClaimLiquidation {
    let property = accounts.property.data->0;
    let part = liquidation_per_unit(property);
    ClaimLiquidation {
        property: Account {
            lamports: (accounts.property.lamports - part) as u64,
            data: Some(after_liquidation_claim(property)),
            ..accounts.property
        },
        share_nft: Account { lamports: 0, data: None, ..accounts.share_nft },
        owner: Wallet {
            lamports: (accounts.owner.lamports + part + accounts.share_nft.lamports) as u64,
            ..accounts.owner
        },
    }
}

/// The rule that paying a unit its part of the proceeds breaks, if any.
pub open spec fn claim_liquidation_error(accounts: ClaimLiquidation) -> Option<FactoryError> {
    match (accounts.property.data, accounts.share_nft.data) {
        (Some(property), Some(share_nft)) => {
            let part = liquidation_per_unit(property);
            if !property.is_liquidated {
                Some(FactoryError::NotLiquidated)
            } else if share_nft.owner != accounts.owner.key {
                Some(FactoryError::NotNftOwner)
            } else if share_nft.property != accounts.property.key {
                Some(FactoryError::WrongProperty)
            } else if property.total_shares == 0 {
                Some(FactoryError::MathOverflow)
            } else if accounts.property.lamports < part {
                Some(FactoryError::MathOverflow)
            } else if accounts.owner.lamports + part > u64::MAX {
                Some(FactoryError::MathOverflow)
            } else if property.liquidation_claimed + part > u64::MAX {
                Some(FactoryError::MathOverflow)
            } else if property.liquidation_claimed + part > property.liquidation_amount {
                Some(FactoryError::LiquidationInsufficientFunds)
            } else if accounts.owner.lamports + part + accounts.share_nft.lamports > u64::MAX {
                Some(FactoryError::MathOverflow)
            } else {
                None
            }
        },
        _ => None,
    }
}

/// Pays the owner of a unit its part of the proceeds of the final sale, and
/// retires the unit.
///
/// The call is rejected, and nothing changes, where the records are not in
/// their places, the proceeds were not paid in, the caller does not own the
/// unit, the unit belongs to another property, the balance held against the
/// property does not cover the part, or more would be paid out than came
/// in. Otherwise the part moves from the property's balance to the owner's,
/// the property counts it as claimed, and the unit's record is gone: what
/// was held against it goes to the owner too.
pub fn claim_liquidation(program_id: &Address, accounts: &mut ClaimLiquidation) -> (result: Result<
    (),
    Failure<FactoryError>,
>)
    ensures
        result == verdict(
            old(accounts).account_error(*program_id),
            claim_liquidation_error(*old(accounts)),
        ),
        result is Err ==> *final(accounts) == *old(accounts),
        result is Ok ==> *final(accounts) == after_claim_liquidation(*old(accounts)),
        result is Ok ==> old(accounts).property.data->0.liquidation_claimed <= final(accounts)
            .property.data->0.liquidation_claimed <= final(accounts)
            .property.data->0.liquidation_amount,
        result is Ok && old(accounts).property.data->0.well_formed() ==> final(accounts)
            .property.data->0.well_formed(),
{
    match check_own_property(program_id, &accounts.property) {
        Some(e) => {
            return Err(Failure::Account(e));
        },
        None => {},
    }
    match check_share_nft(program_id, &accounts.share_nft, &accounts.property.key) {
        Some(e) => {
            return Err(Failure::Account(e));
        },
        None => {},
    }
    let share_nft = match &accounts.share_nft.data {
        Some(s) => s,
        None => {
            return Err(Failure::Account(AccountError::AccountNotInitialized));
        },
    };
    let property = match &accounts.property.data {
        Some(p) => p,
        None => {
            return Err(Failure::Account(AccountError::AccountNotInitialized));
        },
    };
    if !property.is_liquidated {
        return Err(Failure::Program(FactoryError::NotLiquidated));
    }
    if !same(&share_nft.owner, &accounts.owner.key) {
        return Err(Failure::Program(FactoryError::NotNftOwner));
    }
    if !same(&share_nft.property, &accounts.property.key) {
        return Err(Failure::Program(FactoryError::WrongProperty));
    }
    let amount_per_share = match property.liquidation_amount.checked_div(property.total_shares) {
        Some(part) => part,
        None => {
            return Err(Failure::Program(FactoryError::MathOverflow));
        },
    };
    let property_balance = match accounts.property.lamports.checked_sub(amount_per_share) {
        Some(balance) => balance,
        None => {
            return Err(Failure::Program(FactoryError::MathOverflow));
        },
    };
    let owner_balance = match accounts.owner.lamports.checked_add(amount_per_share) {
        Some(balance) => balance,
        None => {
            return Err(Failure::Program(FactoryError::MathOverflow));
        },
    };
    let new_total_claimed = match property.liquidation_claimed.checked_add(amount_per_share) {
        Some(total) => total,
        None => {
            return Err(Failure::Program(FactoryError::MathOverflow));
        },
    };
    if new_total_claimed > property.liquidation_amount {
        return Err(Failure::Program(FactoryError::LiquidationInsufficientFunds));
    }
    let owner_balance = match owner_balance.checked_add(accounts.share_nft.lamports) {
        Some(balance) => balance,
        None => {
            return Err(Failure::Program(FactoryError::MathOverflow));
        },
    };
    match &mut accounts.property.data {
        Some(property) => {
            property.liquidation_claimed = new_total_claimed;
        },
        None => {},
    }
    accounts.property.lamports = property_balance;
    accounts.owner.lamports = owner_balance;
    accounts.share_nft.lamports = 0;
    accounts.share_nft.data = None;
    Ok(())
}

/// What was claimed of the proceeds never shrinks and never exceeds the
/// proceeds: every claim that is accepted adds one part, and is accepted
/// only while the sum stays within what was paid in.
pub proof fn lemma_liquidation_claims_within_proceeds(accounts: ClaimLiquidation)
    requires
        accounts.property.data is Some,
        accounts.share_nft.data is Some,
        claim_liquidation_error(accounts) is None,
    ensures
        ({
            let before = accounts.property.data->0;
            let after = after_liquidation_claim(before);
            &&& after.liquidation_claimed == before.liquidation_claimed + liquidation_per_unit(
                before,
            )
            &&& before.liquidation_claimed <= after.liquidation_claimed
            &&& after.liquidation_claimed <= after.liquidation_amount
            &&& after.liquidation_amount == before.liquidation_amount
        }),
{
    let before = accounts.property.data->0;
    assert(0 <= liquidation_per_unit(before)) by (nonlinear_arith)
        requires
            before.total_shares > 0,
            before.liquidation_amount >= 0,
            liquidation_per_unit(before) == before.liquidation_amount as int
                / before.total_shares as int,
    ;
}

/// A unit is paid once: the claim that is accepted leaves no unit behind,
/// and a claim for a unit that is gone is rejected for its records,
/// whatever else it is handed.
pub proof fn lemma_unit_is_paid_once(program_id: Address, first: ClaimLiquidation, second:
    ClaimLiquidation)
    requires
        second.share_nft == after_claim_liquidation(first).share_nft,
    ensures
        after_claim_liquidation(first).share_nft.data is None,
        second.account_error(program_id) is Some,
        verdict(second.account_error(program_id), claim_liquidation_error(second)) is Err,
{
}

/// The parts of all units together are the proceeds, to the last coin: the
/// proceeds are accepted only as a multiple of the number of units.
pub proof fn lemma_parts_exhaust_proceeds(property: Property)
    requires
        property.well_formed(),
        property.is_liquidated,
    ensures
        property.total_shares * liquidation_per_unit(property) == property.liquidation_amount,
{
    vstd::arithmetic::div_mod::lemma_fundamental_div_mod(
        property.liquidation_amount as int,
        property.total_shares as int,
    );
}

} // verus!
