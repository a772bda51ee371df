//! The checks that every call makes of the records it is handed: that each
//! is there, and sits at the address derived for it.

use crate::account::{first, Account, AccountError};
use crate::address::{
    bump_at, factory_address, factory_seeds, lemma_derived_sits,
    property_address, property_seeds, proposal_address, proposal_seeds, share_nft_address,
    share_nft_seeds, sits_at, sits_at_with, team_member_address, team_member_seeds, Address,
};
use crate::state::{Factory, Property, Proposal, ShareNFT, TeamMember};
use vstd::prelude::*;

verus! {

/// What is wrong with a record that is to exist, given the bump seed that it
/// remembers and the seeds of its address.
pub open spec fn seat_error<T>(
    account: Account<T>,
    bump: u8,
    seeds: Seq<Seq<u8>>,
    program_id: Address,
) -> Option<AccountError> {
    if account.data is None {
        Some(AccountError::AccountNotInitialized)
    } else if !sits_at_with(account.key, bump, seeds, program_id) {
        Some(AccountError::ConstraintSeeds)
    } else {
        None
    }
}

/// What is wrong with a place where a record is to be created.
pub open spec fn vacancy_error<T>(
    account: Account<T>,
    seeds: Seq<Seq<u8>>,
    program_id: Address,
) -> Option<AccountError> {
    if !sits_at(account.key, seeds, program_id) {
        Some(AccountError::ConstraintSeeds)
    } else if account.data is Some {
        Some(AccountError::AccountAlreadyInUse)
    } else {
        None
    }
}

/// What is wrong with the registry handed to a call.
pub open spec fn factory_error(factory: Account<Factory>, program_id: Address) -> Option<
    AccountError,
> {
    match factory.data {
        Some(f) => seat_error(factory, f.bump, factory_seeds(), program_id),
        None => Some(AccountError::AccountNotInitialized),
    }
}

/// What is wrong with the property handed to a call, under the registry at
/// `factory`.
pub open spec fn property_error(
    property: Account<Property>,
    factory: Address,
    program_id: Address,
) -> Option<AccountError> {
    match property.data {
        Some(p) => seat_error(property, p.bump, property_seeds(factory, p.property_id), program_id),
        None => Some(AccountError::AccountNotInitialized),
    }
}

/// What is wrong with the property handed to a call without its registry:
/// the property names the registry itself.
pub open spec fn own_property_error(property: Account<Property>, program_id: Address) -> Option<
    AccountError,
> {
    match property.data {
        Some(p) => property_error(property, p.factory, program_id),
        None => Some(AccountError::AccountNotInitialized),
    }
}

/// What is wrong with the unit handed to a call, under the property at
/// `property`.
pub open spec fn share_nft_error(
    share_nft: Account<ShareNFT>,
    property: Address,
    program_id: Address,
) -> Option<AccountError> {
    match share_nft.data {
        Some(s) => seat_error(share_nft, s.bump, share_nft_seeds(property, s.token_id), program_id),
        None => Some(AccountError::AccountNotInitialized),
    }
}

/// What is wrong with the proposal handed to a call, under the property at
/// `property`.
pub open spec fn proposal_error(
    proposal: Account<Proposal>,
    property: Address,
    program_id: Address,
) -> Option<AccountError> {
    match proposal.data {
        Some(p) => seat_error(
            proposal,
            p.bump,
            proposal_seeds(property, p.proposal_id),
            program_id,
        ),
        None => Some(AccountError::AccountNotInitialized),
    }
}

/// What is wrong with the membership record handed to a call that changes
/// it, under the registry at `factory`.
pub open spec fn team_member_error(
    team_member: Account<TeamMember>,
    factory: Address,
    program_id: Address,
) -> Option<AccountError> {
    match team_member.data {
        Some(m) => seat_error(
            team_member,
            m.bump,
            team_member_seeds(factory, m.wallet),
            program_id,
        ),
        None => Some(AccountError::AccountNotInitialized),
    }
}

/// What is wrong with the membership record that a caller shows, if it shows
/// one: it must hold a record. Whether the record gives the caller any right
/// is decided later.
pub open spec fn proof_error(team_member: Option<Account<TeamMember>>) -> Option<AccountError> {
    match team_member {
        Some(account) => if account.data is None {
            Some(AccountError::AccountNotInitialized)
        } else {
            None
        },
        None => None,
    }
}

/// What is wrong with the records of a call that the operator, or a member
/// for it, makes on a property: the registry, the property under it, and the
/// membership record shown, if one is shown.
pub open spec fn managed_property_error(
    factory: Account<Factory>,
    property: Account<Property>,
    team_member: Option<Account<TeamMember>>,
    program_id: Address,
) -> Option<AccountError> {
    first(
        factory_error(factory, program_id),
        first(property_error(property, factory.key, program_id), proof_error(team_member)),
    )
}

/// Holds what a derivation says of a record against the record.
fn check_seat(found: Option<(Address, u8)>, key: &Address, bump: u8) -> (error: Option<
    AccountError,
>)
    ensures
        error == if found == Some((*key, bump)) {
            None
        } else {
            Some(AccountError::ConstraintSeeds)
        },
{
    match bump_at(found, key) {
        Some(b) => if b == bump {
            None
        } else {
            Some(AccountError::ConstraintSeeds)
        },
        None => Some(AccountError::ConstraintSeeds),
    }
}

/// Checks the registry handed to a call.
pub fn check_factory(program_id: &Address, factory: &Account<Factory>) -> (error: Option<
    AccountError,
>)
    ensures
        error == factory_error(*factory, *program_id),
{
    match &factory.data {
        Some(f) => {
            let found = factory_address(program_id);
            proof {
                lemma_derived_sits(found, factory.key, factory_seeds(), *program_id);
            }
            check_seat(found, &factory.key, f.bump)
        },
        None => Some(AccountError::AccountNotInitialized),
    }
}

/// Checks the property handed to a call, under the registry at `factory`.
pub fn check_property(program_id: &Address, property: &Account<Property>, factory: &Address) -> (error:
    Option<AccountError>)
    ensures
        error == property_error(*property, *factory, *program_id),
{
    match &property.data {
        Some(p) => {
            let found = property_address(program_id, factory, p.property_id);
            proof {
                lemma_derived_sits(
                    found,
                    property.key,
                    property_seeds(*factory, p.property_id),
                    *program_id,
                );
            }
            check_seat(found, &property.key, p.bump)
        },
        None => Some(AccountError::AccountNotInitialized),
    }
}

/// Checks the property handed to a call without its registry.
pub fn check_own_property(program_id: &Address, property: &Account<Property>) -> (error: Option<
    AccountError,
>)
    ensures
        error == own_property_error(*property, *program_id),
{
    match &property.data {
        Some(p) => check_property(program_id, property, &p.factory),
        None => Some(AccountError::AccountNotInitialized),
    }
}

/// Checks the unit handed to a call, under the property at `property`.
pub fn check_share_nft(program_id: &Address, share_nft: &Account<ShareNFT>, property: &Address) -> (error:
    Option<AccountError>)
    ensures
        error == share_nft_error(*share_nft, *property, *program_id),
{
    match &share_nft.data {
        Some(s) => {
            let found = share_nft_address(program_id, property, s.token_id);
            proof {
                lemma_derived_sits(
                    found,
                    share_nft.key,
                    share_nft_seeds(*property, s.token_id),
                    *program_id,
                );
            }
            check_seat(found, &share_nft.key, s.bump)
        },
        None => Some(AccountError::AccountNotInitialized),
    }
}

/// Checks the proposal handed to a call, under the property at `property`.
pub fn check_proposal(program_id: &Address, proposal: &Account<Proposal>, property: &Address) -> (error:
    Option<AccountError>)
    ensures
        error == proposal_error(*proposal, *property, *program_id),
{
    match &proposal.data {
        Some(p) => {
            let found = proposal_address(program_id, property, p.proposal_id);
            proof {
                lemma_derived_sits(
                    found,
                    proposal.key,
                    proposal_seeds(*property, p.proposal_id),
                    *program_id,
                );
            }
            check_seat(found, &proposal.key, p.bump)
        },
        None => Some(AccountError::AccountNotInitialized),
    }
}

/// Checks the membership record handed to a call that changes it.
pub fn check_team_member(
    program_id: &Address,
    team_member: &Account<TeamMember>,
    factory: &Address,
) -> (error: Option<AccountError>)
    ensures
        error == team_member_error(*team_member, *factory, *program_id),
{
    match &team_member.data {
        Some(m) => {
            let found = team_member_address(program_id, factory, &m.wallet);
            proof {
                lemma_derived_sits(
                    found,
                    team_member.key,
                    team_member_seeds(*factory, m.wallet),
                    *program_id,
                );
            }
            check_seat(found, &team_member.key, m.bump)
        },
        None => Some(AccountError::AccountNotInitialized),
    }
}

/// Checks the membership record that a caller shows, if it shows one.
pub fn check_proof(team_member: &Option<Account<TeamMember>>) -> (error: Option<AccountError>)
    ensures
        error == proof_error(*team_member),
{
    match team_member {
        Some(account) => if account.data.is_none() {
            Some(AccountError::AccountNotInitialized)
        } else {
            None
        },
        None => None,
    }
}

/// Checks the records of a call that the operator, or a member for it, makes
/// on a property.
pub fn check_managed_property(
    program_id: &Address,
    factory: &Account<Factory>,
    property: &Account<Property>,
    team_member: &Option<Account<TeamMember>>,
) -> (error: Option<AccountError>)
    ensures
        error == managed_property_error(*factory, *property, *team_member, *program_id),
{
    match check_factory(program_id, factory) {
        Some(e) => {
            return Some(e);
        },
        None => {},
    }
    match check_property(program_id, property, &factory.key) {
        Some(e) => {
            return Some(e);
        },
        None => {},
    }
    check_proof(team_member)
}

/// Checks the place where a record is to be created against the derivation
/// of its address, and gives the bump seed for the record to remember.
pub fn check_vacancy<T>(found: Option<(Address, u8)>, account: &Account<T>) -> (bump: Result<
    u8,
    AccountError,
>)
    ensures
        bump == match found {
            Some((address, b)) => if address != account.key {
                Err(AccountError::ConstraintSeeds)
            } else if account.data is Some {
                Err(AccountError::AccountAlreadyInUse)
            } else {
                Ok(b)
            },
            None => Err(AccountError::ConstraintSeeds),
        },
{
    match bump_at(found, &account.key) {
        Some(b) => if account.data.is_some() {
            Err(AccountError::AccountAlreadyInUse)
        } else {
            Ok(b)
        },
        None => Err(AccountError::ConstraintSeeds),
    }
}

} // verus!
