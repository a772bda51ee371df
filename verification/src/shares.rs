//! How the units of a property are issued: one for each purchase, numbered
//! in the order of sale, until none is left.

use crate::account::{first, verdict_with, Account, AccountError, Failure, Transfer, Wallet};
use crate::address::{
    bump_of, lemma_derived_sits, same, share_nft_address, share_nft_seeds, Address,
};
use crate::checks::{
    check_factory, check_property, check_vacancy, factory_error, property_error, vacancy_error,
};
use crate::state::{
    byte_len, stored_len, Factory, FactoryError, Property, ShareNFT, MAX_SVG_LEN,
};
use vstd::prelude::*;

verus! {

/// The records of a call that buys a unit.
#[derive(Clone, Debug, PartialEq, Eq)]
pub struct BuyShare {
    pub factory: Account<Factory>,
    pub property: Account<Property>,
    pub share_nft: Account<ShareNFT>,
    pub buyer: Wallet,
    pub treasury: Wallet,
}

impl BuyShare {
    /// What is wrong with the records, if anything: the registry and the
    /// property under it must be in their places, the place of the unit that
    /// is sold next must be free, and the treasury must be the one that the
    /// registry names.
    pub open spec fn account_error(&self, program_id: Address) -> Option<AccountError> {
        first(
            factory_error(self.factory, program_id),
            first(
                property_error(self.property, self.factory.key, program_id),
                match (self.factory.data, self.property.data) {
                    (Some(registry), Some(property)) => first(
                        vacancy_error(
                            self.share_nft,
                            share_nft_seeds(self.property.key, property.shares_sold),
                            program_id,
                        ),
                        if self.treasury.key != registry.treasury {
                            Some(AccountError::ConstraintAddress)
                        } else {
                            None
                        },
                    ),
                    _ => None,
                },
            ),
        )
    }

    /// The bump seed that the new unit remembers.
    pub open spec fn share_nft_bump(&self, program_id: Address) -> u8 {
        match self.property.data {
            Some(property) => bump_of(
                share_nft_seeds(self.property.key, property.shares_sold),
                program_id,
            ),
            None => 0,
        }
    }

    fn check(&self, program_id: &Address) -> (bump: Result<u8, AccountError>)
        ensures
            match bump {
                Ok(b) => self.account_error(*program_id) is None && b == self.share_nft_bump(
                    *program_id,
                ),
                Err(e) => self.account_error(*program_id) == Some(e),
            },
    {
        match check_factory(program_id, &self.factory) {
            Some(e) => {
                return Err(e);
            },
            None => {},
        }
        match check_property(program_id, &self.property, &self.factory.key) {
            Some(e) => {
                return Err(e);
            },
            None => {},
        }
        let registry = match &self.factory.data {
            Some(f) => f,
            None => {
                return Err(AccountError::AccountNotInitialized);
            },
        };
        let property = match &self.property.data {
            Some(p) => p,
            None => {
                return Err(AccountError::AccountNotInitialized);
            },
        };
        let found = share_nft_address(program_id, &self.property.key, property.shares_sold);
        proof {
            lemma_derived_sits(
                found,
                self.share_nft.key,
                share_nft_seeds(self.property.key, property.shares_sold),
                *program_id,
            );
        }
        let bump = match check_vacancy(found, &self.share_nft) {
            Ok(b) => b,
            Err(e) => {
                return Err(e);
            },
        };
        if !same(&self.treasury.key, &registry.treasury) {
            return Err(AccountError::ConstraintAddress);
        }
        Ok(bump)
    }
}

/// The rule that a purchase made at `now` breaks, if any. A property of
/// which no unit is left is said to be sold out, whether or not it still
/// counts as open.
pub open spec fn buy_share_error(accounts: BuyShare, nft_svg_data: Seq<char>, now: i64) -> Option<
    FactoryError,
> {
    if byte_len(nft_svg_data) > MAX_SVG_LEN {
        Some(FactoryError::SvgDataTooLong)
    } else if byte_len(nft_svg_data) == 0 {
        Some(FactoryError::EmptySvgData)
    } else {
        match accounts.property.data {
            Some(property) => if now > property.sale_end {
                Some(FactoryError::SaleEnded)
            } else if property.shares_sold >= property.total_shares {
                Some(FactoryError::AllSharesSold)
            } else if !property.is_active {
                Some(FactoryError::PropertyInactive)
            } else {
                None
            },
            None => None,
        }
    }
}

/// The property after one more unit was sold: the sale closes with the
/// last unit.
pub open spec fn after_sale(property: Property) -> Property {
    Property {
        shares_sold: (property.shares_sold + 1) as u64,
        is_active: property.shares_sold + 1 < property.total_shares,
        ..property
    }
}

/// Whether `share_nft` is the unit that a purchase made at `now` creates.
pub open spec fn is_minted(
    share_nft: ShareNFT,
    accounts: BuyShare,
    nft_svg_data: Seq<char>,
    now: i64,
    bump: u8,
) -> bool {
    &&& accounts.property.data matches Some(property)
    &&& share_nft.property == accounts.property.key
    &&& share_nft.owner == accounts.buyer.key
    &&& share_nft.token_id == property.shares_sold
    &&& share_nft.mint_time == now
    &&& share_nft.dividends_claimed == 0
    &&& share_nft.nft_image_uri@ == Seq::<char>::empty()
    &&& share_nft.nft_metadata_uri@ == Seq::<char>::empty()
    &&& share_nft.voting_power == if property.voting_enabled {
        1u64
    } else {
        0u64
    }
    &&& share_nft.bump == bump
    &&& share_nft.nft_svg_data@ == nft_svg_data
}

/// Sells the next unit of a property to the caller.
///
/// The call is rejected, and nothing changes, where the records are not in
/// their places, the picture is empty or too long, the sale window has
/// passed, no unit is left, or the sale was closed. Otherwise the unit is
/// written with the number that the property counts next, owned by the
/// buyer, with nothing claimed and one vote where the property lets its
/// holders vote; the property counts one more unit sold and closes its sale
/// with the last; and the buyer owes the price to the treasury.
pub fn buy_share(program_id: &Address, accounts: &mut BuyShare, now: i64, nft_svg_data: String) -> (result:
    Result<Transfer, Failure<FactoryError>>)
    ensures
        result == verdict_with(
            old(accounts).account_error(*program_id),
            buy_share_error(*old(accounts), nft_svg_data@, now),
            Transfer {
                from: old(accounts).buyer.key,
                to: old(accounts).treasury.key,
                lamports: old(accounts).property.data->0.share_price,
            },
        ),
        result is Err ==> *final(accounts) == *old(accounts),
        result is Ok ==> {
            &&& final(accounts).factory == old(accounts).factory
            &&& final(accounts).buyer == old(accounts).buyer
            &&& final(accounts).treasury == old(accounts).treasury
            &&& final(accounts).property == (Account {
                data: Some(after_sale(old(accounts).property.data->0)),
                ..old(accounts).property
            })
            &&& final(accounts).share_nft.key == old(accounts).share_nft.key
            &&& final(accounts).share_nft.lamports == old(accounts).share_nft.lamports
            &&& final(accounts).share_nft.data matches Some(share_nft)
            &&& is_minted(
                share_nft,
                *old(accounts),
                nft_svg_data@,
                now,
                old(accounts).share_nft_bump(*program_id),
            )
        },
        result is Ok && old(accounts).property.data->0.well_formed() ==> final(accounts)
            .property.data->0.well_formed(),
{
    let bump = match accounts.check(program_id) {
        Ok(b) => b,
        Err(e) => {
            return Err(Failure::Account(e));
        },
    };
    let svg_len = stored_len(&nft_svg_data);
    if svg_len > MAX_SVG_LEN {
        return Err(Failure::Program(FactoryError::SvgDataTooLong));
    }
    if svg_len == 0 {
        return Err(Failure::Program(FactoryError::EmptySvgData));
    }
    let property_key = accounts.property.key;
    let buyer = accounts.buyer.key;
    let (price, share_nft) = match &mut accounts.property.data {
        Some(property) => {
            if now > property.sale_end {
                return Err(Failure::Program(FactoryError::SaleEnded));
            }
            if property.shares_sold >= property.total_shares {
                return Err(Failure::Program(FactoryError::AllSharesSold));
            }
            if !property.is_active {
                return Err(Failure::Program(FactoryError::PropertyInactive));
            }
            let share_nft = ShareNFT {
                property: property_key,
                owner: buyer,
                token_id: property.shares_sold,
                mint_time: now,
                dividends_claimed: 0,
                nft_image_uri: String::new(),
                nft_metadata_uri: String::new(),
                voting_power: if property.voting_enabled {
                    1
                } else {
                    0
                },
                bump,
                nft_svg_data,
            };
            property.shares_sold = property.shares_sold + 1;
            if property.shares_sold >= property.total_shares {
                property.is_active = false;
            }
            (property.share_price, share_nft)
        },
        None => {
            return Err(Failure::Account(AccountError::AccountNotInitialized));
        },
    };
    accounts.share_nft.data = Some(share_nft);
    Ok(Transfer { from: accounts.buyer.key, to: accounts.treasury.key, lamports: price })
}

/// No more units are sold than the property has, and a purchase closes
/// the sale exactly when it sells the last unit: after any purchase that is
/// accepted the sale is open if and only if a unit is left.
pub proof fn lemma_sale_closes_with_last_unit(accounts: BuyShare, nft_svg_data: Seq<char>, now: i64)
    requires
        accounts.property.data is Some,
        buy_share_error(accounts, nft_svg_data, now) is None,
    ensures
        ({
            let before = accounts.property.data->0;
            let after = after_sale(before);
            &&& before.is_active
            &&& after.shares_sold == before.shares_sold + 1
            &&& after.shares_sold <= after.total_shares
            &&& after.is_active <==> after.shares_sold < after.total_shares
            &&& !after.is_active <==> after.shares_sold == after.total_shares
        }),
{
}

/// A property of which no unit is left sells none, whatever else holds of
/// it: within the sale window the purchase is turned down as sold out.
pub proof fn lemma_sold_out_sells_nothing(accounts: BuyShare, nft_svg_data: Seq<char>, now: i64)
    requires
        accounts.property.data matches Some(property) && property.shares_sold
            >= property.total_shares,
    ensures
        buy_share_error(accounts, nft_svg_data, now) is Some,
        0 < byte_len(nft_svg_data) <= MAX_SVG_LEN && now <= accounts.property.data->0.sale_end
            ==> buy_share_error(accounts, nft_svg_data, now) == Some(FactoryError::AllSharesSold),
{
}

} // verus!
