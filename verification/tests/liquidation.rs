#![allow(dead_code, unused_imports)]

use real_estate_factory::account::{Account, AccountError, Failure, Transfer, Wallet};
use real_estate_factory::address::{
    factory_address, property_address, proposal_address, share_nft_address, team_member_address,
    vote_address, Address,
};
use real_estate_factory::dividends::{
    claim_dividends, deposit_dividends, ClaimDividends, DepositDividends,
};
use real_estate_factory::governance::{
    cast_vote, close_proposal, create_proposal, CastVote, CloseProposal, CreateProposal,
};
use real_estate_factory::liquidation::{
    claim_liquidation, liquidate_property, ClaimLiquidation, LiquidateProperty,
};
use real_estate_factory::registry::{
    close_property_sale, create_property, initialize, update_admin, ClosePropertySale,
    CreateProperty, Initialize, UpdateAdmin,
};
use real_estate_factory::shares::{buy_share, BuyShare};
use real_estate_factory::state::{
    Factory, FactoryError, Property, Proposal, ShareNFT, TeamMember, Vote,
};
use real_estate_factory::team::{
    add_team_member, assert_authorized, remove_team_member, AddTeamMember, RemoveTeamMember,
};

const OPERATOR: u8 = 1;
const TREASURY: u8 = 2;
const MEMBER: u8 = 3;
const STRANGER: u8 = 4;
const START: i64 = 1_700_000_000;
const WEEK: i64 = 7 * 24 * 3600;

fn addr(n: u8) -> Address {
    Address::new([n; 32])
}

fn program() -> Address {
    addr(7)
}

fn wallet(n: u8) -> Wallet {
    Wallet { key: addr(n), lamports: 1_000_000 }
}

fn vacant<T>(key: Address) -> Account<T> {
    Account { key, lamports: 0, data: None }
}

fn rule<T: std::fmt::Debug>(result: Result<T, Failure<FactoryError>>) -> FactoryError {
    match result {
        Err(Failure::Program(e)) => e,
        other => panic!("expected a rule to be broken, got {:?}", other),
    }
}

fn records<T: std::fmt::Debug, E: std::fmt::Debug>(result: Result<T, Failure<E>>) -> AccountError {
    match result {
        Err(Failure::Account(e)) => e,
        other => panic!("expected the records to be rejected, got {:?}", other),
    }
}

fn new_factory() -> Account<Factory> {
    let (key, _) = factory_address(&program()).unwrap();
    let mut accounts =
        Initialize { factory: vacant(key), treasury: wallet(TREASURY), payer: wallet(OPERATOR) };
    initialize(&program(), &mut accounts, addr(OPERATOR)).unwrap();
    accounts.factory
}

fn next_property_slot(factory: &Account<Factory>) -> Account<Property> {
    let count = factory.data.as_ref().unwrap().property_count;
    let (key, _) = property_address(&program(), &factory.key, count).unwrap();
    vacant(key)
}

fn create_with(
    accounts: &mut CreateProperty,
    now: i64,
    name: &str,
    total_shares: u64,
    share_price: u64,
    sale_duration: i64,
    voting_enabled: bool,
) -> Result<(), Failure<FactoryError>> {
    create_property(
        &program(),
        accounts,
        now,
        "real_estate".to_string(),
        name.to_string(),
        "Paris".to_string(),
        "Ile-de-France".to_string(),
        "France".to_string(),
        total_shares,
        share_price,
        sale_duration,
        85,
        3,
        550,
        "Residential".to_string(),
        1998,
        "QmImage".to_string(),
        "QmMetadata".to_string(),
        voting_enabled,
    )
}

fn new_property(
    factory: &mut Account<Factory>,
    total_shares: u64,
    share_price: u64,
    voting_enabled: bool,
) -> Account<Property> {
    let mut accounts = CreateProperty {
        factory: factory.clone(),
        property: next_property_slot(factory),
        authority: wallet(OPERATOR),
        team_member: None,
    };
    create_with(&mut accounts, START, "Flat", total_shares, share_price, WEEK, voting_enabled)
        .unwrap();
    *factory = accounts.factory;
    accounts.property
}

fn buy_accounts(
    factory: &Account<Factory>,
    property: &Account<Property>,
    buyer: u8,
) -> BuyShare {
    let token = property.data.as_ref().unwrap().shares_sold;
    let (key, _) = share_nft_address(&program(), &property.key, token).unwrap();
    BuyShare {
        factory: factory.clone(),
        property: property.clone(),
        share_nft: vacant(key),
        buyer: wallet(buyer),
        treasury: wallet(TREASURY),
    }
}

fn buy(
    factory: &Account<Factory>,
    property: &mut Account<Property>,
    buyer: u8,
    now: i64,
) -> Result<(Account<ShareNFT>, Transfer), Failure<FactoryError>> {
    let mut accounts = buy_accounts(factory, property, buyer);
    let payment = buy_share(&program(), &mut accounts, now, "<svg/>".to_string())?;
    *property = accounts.property;
    Ok((accounts.share_nft, payment))
}

fn deposit(
    factory: &Account<Factory>,
    property: &mut Account<Property>,
    amount: u64,
) -> Result<Transfer, Failure<FactoryError>> {
    let mut accounts = DepositDividends {
        factory: factory.clone(),
        property: property.clone(),
        authority: wallet(OPERATOR),
        team_member: None,
    };
    let payment = deposit_dividends(&program(), &mut accounts, amount)?;
    *property = accounts.property;
    property.lamports += payment.lamports;
    Ok(payment)
}

fn claim(
    property: &mut Account<Property>,
    share_nft: &mut Account<ShareNFT>,
    owner: &mut Wallet,
) -> Result<(), Failure<FactoryError>> {
    let mut accounts = ClaimDividends {
        property: property.clone(),
        share_nft: share_nft.clone(),
        owner: *owner,
    };
    let result = claim_dividends(&program(), &mut accounts);
    *property = accounts.property;
    *share_nft = accounts.share_nft;
    *owner = accounts.owner;
    result
}

fn liquidate(
    factory: &Account<Factory>,
    property: &mut Account<Property>,
    amount: u64,
) -> Result<Transfer, Failure<FactoryError>> {
    let mut accounts = LiquidateProperty {
        factory: factory.clone(),
        property: property.clone(),
        authority: wallet(OPERATOR),
        team_member: None,
    };
    let payment = liquidate_property(&program(), &mut accounts, amount)?;
    *property = accounts.property;
    property.lamports += payment.lamports;
    Ok(payment)
}

fn claim_proceeds(
    property: &mut Account<Property>,
    share_nft: &mut Account<ShareNFT>,
    owner: &mut Wallet,
) -> Result<(), Failure<FactoryError>> {
    let mut accounts = ClaimLiquidation {
        property: property.clone(),
        share_nft: share_nft.clone(),
        owner: *owner,
    };
    let result = claim_liquidation(&program(), &mut accounts);
    *property = accounts.property;
    *share_nft = accounts.share_nft;
    *owner = accounts.owner;
    result
}

fn new_member(factory: &Account<Factory>, member: u8) -> Account<TeamMember> {
    let (key, _) = team_member_address(&program(), &factory.key, &addr(member)).unwrap();
    let mut accounts = AddTeamMember {
        factory: factory.clone(),
        team_member: vacant(key),
        wallet: wallet(member),
        admin: wallet(OPERATOR),
    };
    add_team_member(&program(), &mut accounts, START, addr(member)).unwrap();
    accounts.team_member
}

fn new_proposal(
    factory: &Account<Factory>,
    property: &mut Account<Property>,
    now: i64,
    duration: i64,
) -> Account<Proposal> {
    let count = property.data.as_ref().unwrap().proposal_count;
    let (key, _) = proposal_address(&program(), &property.key, count).unwrap();
    let mut accounts = CreateProposal {
        factory: factory.clone(),
        property: property.clone(),
        proposal: vacant(key),
        authority: wallet(OPERATOR),
        team_member: None,
    };
    create_proposal(
        &program(),
        &mut accounts,
        now,
        "Repaint the front".to_string(),
        "Shall the front be repainted this year?".to_string(),
        duration,
    )
    .unwrap();
    *property = accounts.property;
    accounts.proposal
}

fn vote_accounts(
    property: &Account<Property>,
    proposal: &Account<Proposal>,
    share_nft: &Account<ShareNFT>,
    voter: u8,
) -> CastVote {
    let (key, _) = vote_address(&program(), &proposal.key, &share_nft.key).unwrap();
    CastVote {
        property: property.clone(),
        proposal: proposal.clone(),
        share_nft: share_nft.clone(),
        vote: vacant(key),
        voter: wallet(voter),
    }
}

fn sold_out(total_shares: u64) -> (Account<Factory>, Account<Property>, Vec<Account<ShareNFT>>) {
    let mut factory = new_factory();
    let mut property = new_property(&mut factory, total_shares, 10, true);
    let mut units = Vec::new();
    for i in 0..total_shares {
        let (unit, _) = buy(&factory, &mut property, 10 + i as u8, START).unwrap();
        units.push(unit);
    }
    (factory, property, units)
}

#[test]
fn scenario_liquidation_of_four_units() {
    let (factory, mut property, mut units) = sold_out(4);
    let before = property.clone();
    assert_eq!(rule(liquidate(&factory, &mut property, 1001)), FactoryError::InvalidAmount);
    assert_eq!(property, before);

    let payment = liquidate(&factory, &mut property, 1000).unwrap();
    assert_eq!(payment, Transfer { from: addr(OPERATOR), to: property.key, lamports: 1000 });
    {
        let p = property.data.as_ref().unwrap();
        assert!(p.is_liquidated);
        assert_eq!(p.liquidation_amount, 1000);
        assert_eq!(p.liquidation_claimed, 0);
        assert_eq!(p.liquidation_amount / p.total_shares, 250);
    }
    for (i, unit) in units.iter_mut().enumerate() {
        unit.lamports = 7;
        let mut owner = Wallet { key: addr(10 + i as u8), lamports: 0 };
        claim_proceeds(&mut property, unit, &mut owner).unwrap();
        // The part, and what was held against the retired unit.
        assert_eq!(owner.lamports, 250 + 7);
        assert_eq!(unit.data, None);
        assert_eq!(unit.lamports, 0);
        assert_eq!(
            property.data.as_ref().unwrap().liquidation_claimed,
            250 * (i as u64 + 1)
        );
    }
    let p = property.data.as_ref().unwrap();
    assert_eq!(p.liquidation_claimed, p.liquidation_amount);
    assert_eq!(property.lamports, 0);
}

#[test]
fn a_retired_unit_cannot_claim_again() {
    let (factory, mut property, mut units) = sold_out(2);
    liquidate(&factory, &mut property, 10).unwrap();
    let mut owner = wallet(10);
    claim_proceeds(&mut property, &mut units[0], &mut owner).unwrap();
    let before = (property.clone(), units[0].clone(), owner);
    assert_eq!(
        records(claim_proceeds(&mut property, &mut units[0], &mut owner)),
        AccountError::AccountNotInitialized
    );
    assert_eq!((property, units[0].clone(), owner), before);
}

#[test]
fn a_retired_unit_draws_no_dividends() {
    let (factory, mut property, mut units) = sold_out(2);
    deposit(&factory, &mut property, 10).unwrap();
    liquidate(&factory, &mut property, 10).unwrap();
    let mut owner = wallet(10);
    claim_proceeds(&mut property, &mut units[0], &mut owner).unwrap();
    assert_eq!(
        records(claim(&mut property, &mut units[0], &mut owner)),
        AccountError::AccountNotInitialized
    );
}

#[test]
fn liquidate_property_needs_every_unit_sold() {
    let mut factory = new_factory();
    let mut property = new_property(&mut factory, 3, 10, false);
    buy(&factory, &mut property, 10, START).unwrap();
    assert_eq!(rule(liquidate(&factory, &mut property, 300)), FactoryError::NoSharesSold);
    assert!(!property.data.unwrap().is_liquidated);
}

#[test]
fn liquidate_property_needs_the_sale_closed() {
    let (factory, mut property, _units) = sold_out(2);
    property.data.as_mut().unwrap().is_active = true;
    assert_eq!(rule(liquidate(&factory, &mut property, 10)), FactoryError::SaleStillActive);
}

#[test]
fn liquidate_property_once() {
    let (factory, mut property, _units) = sold_out(2);
    liquidate(&factory, &mut property, 10).unwrap();
    let before = property.clone();
    assert_eq!(rule(liquidate(&factory, &mut property, 20)), FactoryError::AlreadyLiquidated);
    assert_eq!(property, before);
}

#[test]
fn liquidate_property_rejects_nothing() {
    let (factory, mut property, _units) = sold_out(2);
    assert_eq!(rule(liquidate(&factory, &mut property, 0)), FactoryError::InvalidAmount);
}

#[test]
fn liquidate_property_is_for_the_operator_and_members() {
    let (factory, property, _units) = sold_out(2);
    let mut accounts = LiquidateProperty {
        factory,
        property: property.clone(),
        authority: wallet(STRANGER),
        team_member: None,
    };
    assert_eq!(rule(liquidate_property(&program(), &mut accounts, 10)), FactoryError::Unauthorized);
    assert_eq!(accounts.property, property);
}

#[test]
fn liquidate_property_without_units_cannot_divide() {
    let mut factory = new_factory();
    let mut property = new_property(&mut factory, 1, 10, false);
    {
        let p = property.data.as_mut().unwrap();
        p.total_shares = 0;
        p.is_active = false;
    }
    assert_eq!(rule(liquidate(&factory, &mut property, 10)), FactoryError::MathOverflow);
}

#[test]
fn claim_liquidation_before_the_proceeds_came_in() {
    let (_factory, mut property, mut units) = sold_out(2);
    let mut owner = wallet(10);
    assert_eq!(
        rule(claim_proceeds(&mut property, &mut units[0], &mut owner)),
        FactoryError::NotLiquidated
    );
    assert!(units[0].data.is_some());
}

#[test]
fn claim_liquidation_is_for_the_owner_of_the_unit() {
    let (factory, mut property, mut units) = sold_out(2);
    liquidate(&factory, &mut property, 10).unwrap();
    let mut other = wallet(11);
    assert_eq!(
        rule(claim_proceeds(&mut property, &mut units[0], &mut other)),
        FactoryError::NotNftOwner
    );
    assert!(units[0].data.is_some());
    assert_eq!(other.lamports, 1_000_000);
}

#[test]
fn claim_liquidation_rejects_a_unit_that_names_another_property() {
    let (factory, mut property, mut units) = sold_out(2);
    liquidate(&factory, &mut property, 10).unwrap();
    units[0].data.as_mut().unwrap().property = addr(88);
    let mut owner = wallet(10);
    assert_eq!(
        rule(claim_proceeds(&mut property, &mut units[0], &mut owner)),
        FactoryError::WrongProperty
    );
}

#[test]
fn claim_liquidation_needs_the_unit_in_its_place() {
    let mut factory = new_factory();
    let mut first = new_property(&mut factory, 1, 10, false);
    let mut second = new_property(&mut factory, 1, 10, false);
    let (mut unit, _) = buy(&factory, &mut first, 10, START).unwrap();
    buy(&factory, &mut second, 11, START).unwrap();
    liquidate(&factory, &mut second, 10).unwrap();
    let mut owner = wallet(10);
    assert_eq!(
        records(claim_proceeds(&mut second, &mut unit, &mut owner)),
        AccountError::ConstraintSeeds
    );
}

#[test]
fn claim_liquidation_needs_the_balance_to_cover_the_part() {
    let (factory, mut property, mut units) = sold_out(2);
    liquidate(&factory, &mut property, 10).unwrap();
    property.lamports = 4;
    let mut owner = wallet(10);
    assert_eq!(
        rule(claim_proceeds(&mut property, &mut units[0], &mut owner)),
        FactoryError::MathOverflow
    );
    assert!(units[0].data.is_some());
    assert_eq!(property.data.unwrap().liquidation_claimed, 0);
}

#[test]
fn claim_liquidation_never_pays_out_more_than_came_in() {
    let (factory, mut property, mut units) = sold_out(2);
    liquidate(&factory, &mut property, 10).unwrap();
    property.lamports = 1_000;
    property.data.as_mut().unwrap().liquidation_claimed = 6;
    let mut owner = wallet(10);
    let before = (property.clone(), units[0].clone(), owner);
    assert_eq!(
        rule(claim_proceeds(&mut property, &mut units[0], &mut owner)),
        FactoryError::LiquidationInsufficientFunds
    );
    assert_eq!((property, units[0].clone(), owner), before);
}

#[test]
fn claim_liquidation_rejects_a_balance_beyond_the_counter() {
    let (factory, mut property, mut units) = sold_out(2);
    liquidate(&factory, &mut property, 10).unwrap();
    let mut owner = Wallet { key: addr(10), lamports: u64::MAX - 4 };
    assert_eq!(
        rule(claim_proceeds(&mut property, &mut units[0], &mut owner)),
        FactoryError::MathOverflow
    );
    // The part fits, but not what is held against the unit on top of it.
    units[0].lamports = 3;
    let mut owner = Wallet { key: addr(10), lamports: u64::MAX - 7 };
    assert_eq!(
        rule(claim_proceeds(&mut property, &mut units[0], &mut owner)),
        FactoryError::MathOverflow
    );
    let mut owner = Wallet { key: addr(10), lamports: u64::MAX - 8 };
    assert_eq!(claim_proceeds(&mut property, &mut units[0], &mut owner), Ok(()));
    assert_eq!(owner.lamports, u64::MAX);
}
