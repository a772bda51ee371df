//! Dividends: what the operator pays in for a property is shared out in
//! equal parts among the units sold, each unit drawing what it has not drawn
//! yet. A part is rounded down; what the division leaves over stays in the
//! property's balance.

use crate::account::{first, verdict, verdict_with, Account, AccountError, Failure, Transfer, Wallet};
use crate::address::{same, Address};
use crate::checks::{
    check_managed_property, check_own_property, check_share_nft, managed_property_error,
    own_property_error, share_nft_error,
};
use crate::state::{Factory, FactoryError, Property, ShareNFT, TeamMember};
use crate::team::{assert_authorized, authorization_error};
use vstd::prelude::*;

verus! {

/// The records of a call that pays in dividends.
#[derive(Clone, Debug, PartialEq, Eq)]
pub struct DepositDividends {
    pub factory: Account<Factory>,
    pub property: Account<Property>,
    pub authority: Wallet,
    pub team_member: Option<Account<TeamMember>>,
}

/// The records of a call that draws the dividends of a unit.
#[derive(Clone, Debug, PartialEq, Eq)]
pub struct ClaimDividends {
    pub property: Account<Property>,
    pub share_nft: Account<ShareNFT>,
    pub owner: Wallet,
}

impl DepositDividends {
    /// What is wrong with the records, if anything.
    pub open spec fn account_error(&self, program_id: Address) -> Option<AccountError> {
        managed_property_error(self.factory, self.property, self.team_member, program_id)
    }
}

impl ClaimDividends {
    /// What is wrong with the records, if anything: the property and the
    /// unit under it must be in their places, and the caller must be the
    /// owner that the unit names.
    pub open spec fn account_error(&self, program_id: Address) -> Option<AccountError> {
        first(
            own_property_error(self.property, program_id),
            first(
                share_nft_error(self.share_nft, self.property.key, program_id),
                match self.share_nft.data {
                    Some(share_nft) => if share_nft.owner != self.owner.key {
                        Some(AccountError::ConstraintHasOne)
                    } else {
                        None
                    },
                    None => None,
                },
            ),
        )
    }
}

/// What each unit sold has been granted of all that was paid in, rounded
/// down.
pub open spec fn dividends_per_unit(total_dividends_deposited: int, shares_sold: int) -> int
    recommends
        shares_sold > 0,
{
    total_dividends_deposited / shares_sold
}

/// What a unit may still draw: what it was granted, less what it drew.
pub open spec fn claimable(property: Property, share_nft: ShareNFT) -> int
    recommends
        property.shares_sold > 0,
{
    dividends_per_unit(property.total_dividends_deposited as int, property.shares_sold as int)
        - share_nft.dividends_claimed
}

/// What is never shared out of all that was paid in, for the rounding.
pub open spec fn dividend_drift(property: Property) -> int
    recommends
        property.shares_sold > 0,
{
    property.total_dividends_deposited as int % property.shares_sold as int
}

/// The property after `amount` was paid in.
pub open spec fn after_deposit(property: Property, amount: u64) -> Property {
    Property {
        total_dividends_deposited: (property.total_dividends_deposited + amount) as u64,
        ..property
    }
}

/// The property after a unit drew `amount`.
pub open spec fn after_claim(property: Property, amount: int) -> Property {
    Property {
        total_dividends_claimed: (property.total_dividends_claimed + amount) as u64,
        ..property
    }
}

/// The unit after it drew `amount`.
pub open spec fn share_after_claim(share_nft: ShareNFT, amount: int) -> ShareNFT {
    ShareNFT { dividends_claimed: (share_nft.dividends_claimed + amount) as u64, ..share_nft }
}

/// The rule that paying in dividends breaks, if any.
pub open spec fn deposit_dividends_error(
    program_id: Address,
    accounts: DepositDividends,
    amount: u64,
) -> Option<FactoryError> {
    if amount == 0 {
        Some(FactoryError::InvalidAmount)
    } else {
        first(
            authorization_error(
                program_id,
                accounts.factory,
                accounts.authority.key,
                accounts.team_member,
            ),
            match accounts.property.data {
                Some(property) => if property.total_dividends_deposited + amount > u64::MAX {
                    Some(FactoryError::MathOverflow)
                } else {
                    None
                },
                None => None,
            },
        )
    }
}

/// The rule that drawing the dividends of a unit breaks, if any.
pub open spec fn claim_dividends_error(accounts: ClaimDividends) -> Option<FactoryError> {
    match (accounts.property.data, accounts.share_nft.data) {
        (Some(property), Some(share_nft)) => {
            let amount = claimable(property, share_nft);
            if property.shares_sold == 0 {
                Some(FactoryError::NoSharesSold)
            } else if amount <= 0 {
                Some(FactoryError::NoDividendsToClaim)
            } else if accounts.property.lamports < amount {
                Some(FactoryError::MathOverflow)
            } else if accounts.owner.lamports + amount > u64::MAX {
                Some(FactoryError::MathOverflow)
            } else if property.total_dividends_claimed + amount > u64::MAX {
                Some(FactoryError::MathOverflow)
            } else {
                None
            }
        },
        _ => None,
    }
}

/// Pays in dividends for a property.
///
/// The call is rejected, and nothing changes, where the records are not in
/// their places, the amount is zero, the caller may not act for the
/// operator, or the sum of what was paid in would overflow. Otherwise the
/// property counts the amount as paid in, and the caller owes it to the
/// property.
pub fn deposit_dividends(program_id: &Address, accounts: &mut DepositDividends, amount: u64) -> (result:
    Result<Transfer, Failure<FactoryError>>)
    ensures
        result == verdict_with(
            old(accounts).account_error(*program_id),
            deposit_dividends_error(*program_id, *old(accounts), amount),
            Transfer {
                from: old(accounts).authority.key,
                to: old(accounts).property.key,
                lamports: amount,
            },
        ),
        result is Err ==> *final(accounts) == *old(accounts),
        result is Ok ==> *final(accounts) == (DepositDividends {
            property: Account {
                data: Some(after_deposit(old(accounts).property.data->0, amount)),
                ..old(accounts).property
            },
            ..*old(accounts)
        }),
        result is Ok && old(accounts).property.data->0.well_formed() ==> final(accounts)
            .property.data->0.well_formed(),
{
    match check_managed_property(
        program_id,
        &accounts.factory,
        &accounts.property,
        &accounts.team_member,
    ) {
        Some(e) => {
            return Err(Failure::Account(e));
        },
        None => {},
    }
    if amount == 0 {
        return Err(Failure::Program(FactoryError::InvalidAmount));
    }
    match assert_authorized(
        program_id,
        &accounts.factory,
        &accounts.authority,
        &accounts.team_member,
    ) {
        Ok(()) => {},
        Err(e) => {
            return Err(Failure::Program(e));
        },
    }
    match &mut accounts.property.data {
        Some(property) => {
            match property.total_dividends_deposited.checked_add(amount) {
                Some(total) => {
                    property.total_dividends_deposited = total;
                },
                None => {
                    return Err(Failure::Program(FactoryError::MathOverflow));
                },
            }
        },
        None => {
            return Err(Failure::Account(AccountError::AccountNotInitialized));
        },
    }
    Ok(Transfer { from: accounts.authority.key, to: accounts.property.key, lamports: amount })
}

/// Pays the owner of a unit the dividends that the unit has not drawn yet.
///
/// The call is rejected, and nothing changes, where the records are not in
/// their places, the caller is not the owner that the unit names, no unit
/// was sold, the unit has nothing left to draw, or the balance held against
/// the property does not cover the amount. Otherwise the amount moves from
/// the property's balance to the owner's, and both the unit and the property
/// count it as drawn.
pub fn claim_dividends(program_id: &Address, accounts: &mut ClaimDividends) -> (result: Result<
    (),
    Failure<FactoryError>,
>)
    ensures
        result == verdict(
            old(accounts).account_error(*program_id),
            claim_dividends_error(*old(accounts)),
        ),
        result is Err ==> *final(accounts) == *old(accounts),
        result is Ok ==> ({
            let property = old(accounts).property.data->0;
            let share_nft = old(accounts).share_nft.data->0;
            let amount = claimable(property, share_nft);
            *final(accounts) == (ClaimDividends {
                property: Account {
                    lamports: (old(accounts).property.lamports - amount) as u64,
                    data: Some(after_claim(property, amount)),
                    ..old(accounts).property
                },
                share_nft: Account {
                    data: Some(share_after_claim(share_nft, amount)),
                    ..old(accounts).share_nft
                },
                owner: Wallet {
                    lamports: (old(accounts).owner.lamports + amount) as u64,
                    ..old(accounts).owner
                },
            })
        }),
        result is Ok ==> final(accounts).share_nft.data->0.dividends_claimed == dividends_per_unit(
            old(accounts).property.data->0.total_dividends_deposited as int,
            old(accounts).property.data->0.shares_sold as int,
        ),
        result is Ok && old(accounts).property.data->0.well_formed() ==> final(accounts)
            .property.data->0.well_formed(),
{
    match check_own_property(program_id, &accounts.property) {
        Some(e) => {
            return Err(Failure::Account(e));
        },
        None => {},
    }
    match check_share_nft(program_id, &accounts.share_nft, &accounts.property.key) {
        Some(e) => {
            return Err(Failure::Account(e));
        },
        None => {},
    }
    let share_nft = match &accounts.share_nft.data {
        Some(s) => s,
        None => {
            return Err(Failure::Account(AccountError::AccountNotInitialized));
        },
    };
    if !same(&share_nft.owner, &accounts.owner.key) {
        return Err(Failure::Account(AccountError::ConstraintHasOne));
    }
    let property = match &accounts.property.data {
        Some(p) => p,
        None => {
            return Err(Failure::Account(AccountError::AccountNotInitialized));
        },
    };
    if property.shares_sold == 0 {
        return Err(Failure::Program(FactoryError::NoSharesSold));
    }
    let dividends_per_share = property.total_dividends_deposited / property.shares_sold;
    let amount = match dividends_per_share.checked_sub(share_nft.dividends_claimed) {
        Some(rest) => rest,
        None => {
            return Err(Failure::Program(FactoryError::NoDividendsToClaim));
        },
    };
    if amount == 0 {
        return Err(Failure::Program(FactoryError::NoDividendsToClaim));
    }
    let property_balance = match accounts.property.lamports.checked_sub(amount) {
        Some(balance) => balance,
        None => {
            return Err(Failure::Program(FactoryError::MathOverflow));
        },
    };
    let owner_balance = match accounts.owner.lamports.checked_add(amount) {
        Some(balance) => balance,
        None => {
            return Err(Failure::Program(FactoryError::MathOverflow));
        },
    };
    let total_claimed = match property.total_dividends_claimed.checked_add(amount) {
        Some(total) => total,
        None => {
            return Err(Failure::Program(FactoryError::MathOverflow));
        },
    };
    match &mut accounts.property.data {
        Some(property) => {
            property.total_dividends_claimed = total_claimed;
        },
        None => {},
    }
    match &mut accounts.share_nft.data {
        Some(share_nft) => {
            share_nft.dividends_claimed = dividends_per_share;
        },
        None => {},
    }
    accounts.property.lamports = property_balance;
    accounts.owner.lamports = owner_balance;
    Ok(())
}

} // verus!
