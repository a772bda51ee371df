//! The books of a property's dividends, taken over all its units at once:
//! what the units have drawn adds up to what the property counts as drawn,
//! and never exceeds what was paid in.
//!
//! The units of a property are taken here as a sequence in the order of
//! their numbers; a unit that was retired stands in it as it was last kept.

use crate::dividends::{after_claim, after_deposit, claimable, dividends_per_unit, share_after_claim};
use crate::liquidation::after_liquidation_claim;
use crate::shares::after_sale;
use crate::state::{Property, ShareNFT};
use vstd::arithmetic::div_mod::{lemma_div_is_ordered, lemma_fundamental_div_mod};
use vstd::prelude::*;

verus! {

/// What the units have drawn of the dividends, all together.
pub open spec fn claimed_sum(units: Seq<ShareNFT>) -> int
    decreases units.len(),
{
    if units.len() == 0 {
        0
    } else {
        claimed_sum(units.drop_last()) + units.last().dividends_claimed
    }
}

/// Whether the books of a property and its units are in order: there is
/// one unit for each unit sold, none has drawn more than a unit is granted,
/// and what they have drawn adds up to what the property counts as drawn.
pub open spec fn books_balanced(property: Property, units: Seq<ShareNFT>) -> bool {
    &&& units.len() == property.shares_sold
    &&& claimed_sum(units) == property.total_dividends_claimed
    &&& forall|i: int|
        0 <= i < units.len() ==> (#[trigger] units[i]).dividends_claimed <= dividends_per_unit(
            property.total_dividends_deposited as int,
            property.shares_sold as int,
        )
}

/// What is granted to a unit does not shrink when more is paid in while
/// the number of units sold stays the same.
pub proof fn lemma_dividends_per_unit_grows(deposited: int, more: int, shares_sold: int)
    requires
        0 <= deposited <= more,
        shares_sold > 0,
    ensures
        dividends_per_unit(deposited, shares_sold) <= dividends_per_unit(more, shares_sold),
{
    lemma_div_is_ordered(deposited, more, shares_sold);
}

/// Paying in dividends never lowers what a unit of the property is granted.
pub proof fn lemma_deposit_raises_grant(property: Property, amount: u64)
    requires
        property.shares_sold > 0,
        property.total_dividends_deposited + amount <= u64::MAX,
    ensures
        dividends_per_unit(
            property.total_dividends_deposited as int,
            property.shares_sold as int,
        ) <= dividends_per_unit(
            after_deposit(property, amount).total_dividends_deposited as int,
            after_deposit(property, amount).shares_sold as int,
        ),
{
    lemma_dividends_per_unit_grows(
        property.total_dividends_deposited as int,
        property.total_dividends_deposited + amount,
        property.shares_sold as int,
    );
}

/// What is granted to all units together is what was paid in less the
/// rest of the division, and so never more than what was paid in.
pub proof fn lemma_grants_within_deposits(deposited: int, shares_sold: int)
    requires
        0 <= deposited,
        shares_sold > 0,
    ensures
        shares_sold * dividends_per_unit(deposited, shares_sold) == deposited - deposited
            % shares_sold,
        0 <= deposited % shares_sold < shares_sold,
        shares_sold * dividends_per_unit(deposited, shares_sold) <= deposited,
{
    lemma_fundamental_div_mod(deposited, shares_sold);
}

proof fn lemma_sum_bounded(units: Seq<ShareNFT>, bound: int)
    requires
        forall|i: int| 0 <= i < units.len() ==> (#[trigger] units[i]).dividends_claimed <= bound,
    ensures
        0 <= claimed_sum(units),
        units.len() > 0 ==> claimed_sum(units) <= units.len() * bound,
    decreases units.len(),
{
    if units.len() > 0 {
        let rest = units.drop_last();
        assert forall|i: int| 0 <= i < rest.len() implies (#[trigger] rest[i]).dividends_claimed
            <= bound by {
            assert(rest[i] == units[i]);
        }
        lemma_sum_bounded(rest, bound);
        assert(units.last() == units[units.len() - 1]);
        assert(units.last().dividends_claimed <= bound);
        assert(units.len() * bound == rest.len() * bound + bound) by (nonlinear_arith)
            requires
                units.len() == rest.len() + 1,
        ;
    }
}

proof fn lemma_sum_zero(units: Seq<ShareNFT>)
    requires
        claimed_sum(units) == 0,
    ensures
        forall|i: int| 0 <= i < units.len() ==> (#[trigger] units[i]).dividends_claimed == 0,
    decreases units.len(),
{
    if units.len() > 0 {
        let rest = units.drop_last();
        lemma_sum_bounded(rest, u64::MAX as int);
        lemma_sum_zero(rest);
        assert forall|i: int| 0 <= i < units.len() implies (#[trigger] units[i]).dividends_claimed
            == 0 by {
            if i < rest.len() {
                assert(rest[i] == units[i]);
            }
        }
    }
}

proof fn lemma_sum_push(units: Seq<ShareNFT>, unit: ShareNFT)
    ensures
        claimed_sum(units.push(unit)) == claimed_sum(units) + unit.dividends_claimed,
{
    assert(units.push(unit).drop_last() =~= units);
}

proof fn lemma_sum_update(units: Seq<ShareNFT>, i: int, unit: ShareNFT)
    requires
        0 <= i < units.len(),
    ensures
        claimed_sum(units.update(i, unit)) == claimed_sum(units) - units[i].dividends_claimed
            + unit.dividends_claimed,
    decreases units.len(),
{
    let rest = units.drop_last();
    if i == units.len() - 1 {
        assert(units.update(i, unit).drop_last() =~= rest);
    } else {
        lemma_sum_update(rest, i, unit);
        assert(units.update(i, unit).drop_last() =~= rest.update(i, unit));
        assert(units.update(i, unit).last() == units.last());
    }
}

/// Where the books are in order, no more was drawn than was paid in.
pub proof fn lemma_claims_within_deposits(property: Property, units: Seq<ShareNFT>)
    requires
        books_balanced(property, units),
    ensures
        property.total_dividends_claimed <= property.total_dividends_deposited,
{
    let sold = property.shares_sold as int;
    let deposited = property.total_dividends_deposited as int;
    if sold > 0 {
        lemma_sum_bounded(units, dividends_per_unit(deposited, sold));
        lemma_grants_within_deposits(deposited, sold);
    }
}

/// The books of a property of which nothing was sold, paid in or drawn are
/// in order: so are those of every property when it is created.
pub proof fn lemma_books_open_balanced(property: Property)
    requires
        property.shares_sold == 0,
        property.total_dividends_claimed == 0,
    ensures
        books_balanced(property, Seq::<ShareNFT>::empty()),
{
}

/// Selling a unit keeps the books in order, as long as nothing was drawn
/// before the sale. (A unit sold later lowers what each unit is granted,
/// below what earlier units may have drawn.)
pub proof fn lemma_sale_keeps_books(property: Property, units: Seq<ShareNFT>, unit: ShareNFT)
    requires
        books_balanced(property, units),
        property.shares_sold < property.total_shares,
        property.total_dividends_claimed == 0,
        unit.dividends_claimed == 0,
    ensures
        books_balanced(after_sale(property), units.push(unit)),
{
    lemma_sum_push(units, unit);
    lemma_sum_zero(units);
    let after = after_sale(property);
    let grown = units.push(unit);
    assert(0 <= dividends_per_unit(
        after.total_dividends_deposited as int,
        after.shares_sold as int,
    )) by {
        lemma_div_is_ordered(0, after.total_dividends_deposited as int, after.shares_sold as int);
    }
    assert forall|i: int| 0 <= i < grown.len() implies (#[trigger] grown[i]).dividends_claimed
        <= dividends_per_unit(
        after.total_dividends_deposited as int,
        after.shares_sold as int,
    ) by {
        if i < units.len() {
            assert(grown[i] == units[i]);
        }
    }
}

/// Paying in dividends keeps the books in order.
pub proof fn lemma_deposit_keeps_books(property: Property, units: Seq<ShareNFT>, amount: u64)
    requires
        books_balanced(property, units),
        property.total_dividends_deposited + amount <= u64::MAX,
    ensures
        books_balanced(after_deposit(property, amount), units),
{
    let after = after_deposit(property, amount);
    if property.shares_sold > 0 {
        lemma_dividends_per_unit_grows(
            property.total_dividends_deposited as int,
            after.total_dividends_deposited as int,
            property.shares_sold as int,
        );
    }
}

/// Drawing the dividends of a unit keeps the books in order, and what the
/// property then counts as drawn is within what was paid in: the sum cannot
/// overflow.
pub proof fn lemma_claim_keeps_books(property: Property, units: Seq<ShareNFT>, i: int)
    requires
        books_balanced(property, units),
        0 <= i < units.len(),
    ensures
        0 <= claimable(property, units[i]),
        property.total_dividends_claimed + claimable(property, units[i])
            <= property.total_dividends_deposited,
        books_balanced(
            after_claim(property, claimable(property, units[i])),
            units.update(i, share_after_claim(units[i], claimable(property, units[i]))),
        ),
{
    let sold = property.shares_sold as int;
    let deposited = property.total_dividends_deposited as int;
    let grant = dividends_per_unit(deposited, sold);
    let amount = claimable(property, units[i]);
    let unit = share_after_claim(units[i], amount);
    let drawn = units.update(i, unit);
    assert(units[i].dividends_claimed <= grant);
    lemma_grants_within_deposits(deposited, sold);
    assert(grant <= deposited) by (nonlinear_arith)
        requires
            sold * grant <= deposited,
            sold >= 1,
            0 <= deposited,
    ;
    assert(unit.dividends_claimed == grant);
    lemma_sum_update(units, i, unit);
    assert forall|j: int| 0 <= j < drawn.len() implies (#[trigger] drawn[j]).dividends_claimed
        <= grant by {
        if j != i {
            assert(drawn[j] == units[j]);
        }
    }
    lemma_sum_bounded(drawn, grant);
    assert(claimed_sum(drawn) == property.total_dividends_claimed + amount);
    assert(drawn.len() * grant == sold * grant);
}

/// Handing a unit to another owner keeps the books in order: the new owner
/// takes the unit with what it has drawn.
pub proof fn lemma_owner_change_keeps_books(
    property: Property,
    units: Seq<ShareNFT>,
    i: int,
    unit: ShareNFT,
)
    requires
        books_balanced(property, units),
        0 <= i < units.len(),
        unit.dividends_claimed == units[i].dividends_claimed,
    ensures
        books_balanced(property, units.update(i, unit)),
{
    lemma_sum_update(units, i, unit);
    let changed = units.update(i, unit);
    assert forall|j: int| 0 <= j < changed.len() implies (#[trigger] changed[j]).dividends_claimed
        <= dividends_per_unit(
        property.total_dividends_deposited as int,
        property.shares_sold as int,
    ) by {
        if j != i {
            assert(changed[j] == units[j]);
        }
    }
}

/// Paying a unit its part of the proceeds of the final sale keeps the books
/// of the dividends in order: the unit is retired with what it has drawn.
pub proof fn lemma_liquidation_claim_keeps_books(property: Property, units: Seq<ShareNFT>)
    requires
        books_balanced(property, units),
    ensures
        books_balanced(after_liquidation_claim(property), units),
{
}

} // verus!
