//! Proposals put to the holders of a property's units, and the tally of
//! their votes: each unit votes once on each proposal, and counts for one.

use crate::account::{first, verdict, Account, AccountError, Failure, Wallet};
use crate::address::{
    bump_of, lemma_derived_sits, proposal_address, proposal_seeds, same, sits_at, vote_address,
    vote_seeds, Address,
};
use crate::checks::{
    check_managed_property, check_own_property, check_proposal, check_share_nft, check_vacancy,
    managed_property_error, own_property_error, proposal_error, share_nft_error, vacancy_error,
};
use crate::state::{
    byte_len, stored_len, Factory, FactoryError, Property, Proposal, ShareNFT, TeamMember, Vote,
    MAX_DESCRIPTION_LEN, MAX_TITLE_LEN,
};
use crate::team::{assert_authorized, authorization_error};
use vstd::prelude::*;

verus! {

/// The records of a call that creates a proposal.
#[derive(Clone, Debug, PartialEq, Eq)]
pub struct CreateProposal {
    pub factory: Account<Factory>,
    pub property: Account<Property>,
    pub proposal: Account<Proposal>,
    pub authority: Wallet,
    pub team_member: Option<Account<TeamMember>>,
}

/// The records of a call that casts the vote of a unit.
#[derive(Clone, Debug, PartialEq, Eq)]
pub struct CastVote {
    pub property: Account<Property>,
    pub proposal: Account<Proposal>,
    pub share_nft: Account<ShareNFT>,
    pub vote: Account<Vote>,
    pub voter: Wallet,
}

/// The records of a call that closes a proposal.
#[derive(Clone, Debug, PartialEq, Eq)]
pub struct CloseProposal {
    pub factory: Account<Factory>,
    pub property: Account<Property>,
    pub proposal: Account<Proposal>,
    pub authority: Wallet,
    pub team_member: Option<Account<TeamMember>>,
}

impl CreateProposal {
    /// What is wrong with the records, if anything: the registry and the
    /// property under it must be in their places, and the place of the
    /// proposal that comes next under the property free.
    pub open spec fn account_error(&self, program_id: Address) -> Option<AccountError> {
        first(
            managed_property_error(self.factory, self.property, self.team_member, program_id),
            match self.property.data {
                Some(property) => vacancy_error(
                    self.proposal,
                    proposal_seeds(self.property.key, property.proposal_count),
                    program_id,
                ),
                None => None,
            },
        )
    }

    /// The bump seed that the new proposal remembers.
    pub open spec fn proposal_bump(&self, program_id: Address) -> u8 {
        match self.property.data {
            Some(property) => bump_of(
                proposal_seeds(self.property.key, property.proposal_count),
                program_id,
            ),
            None => 0,
        }
    }

    fn check(&self, program_id: &Address) -> (bump: Result<u8, AccountError>)
        ensures
            match bump {
                Ok(b) => self.account_error(*program_id) is None && b == self.proposal_bump(
                    *program_id,
                ),
                Err(e) => self.account_error(*program_id) == Some(e),
            },
    {
        match check_managed_property(
            program_id,
            &self.factory,
            &self.property,
            &self.team_member,
        ) {
            Some(e) => {
                return Err(e);
            },
            None => {},
        }
        let count = match &self.property.data {
            Some(p) => p.proposal_count,
            None => {
                return Err(AccountError::AccountNotInitialized);
            },
        };
        let found = proposal_address(program_id, &self.property.key, count);
        proof {
            lemma_derived_sits(
                found,
                self.proposal.key,
                proposal_seeds(self.property.key, count),
                *program_id,
            );
        }
        check_vacancy(found, &self.proposal)
    }
}

impl CastVote {
    /// What is wrong with the records, if anything: the property, and the
    /// proposal and the unit under it, must be in their places, and the
    /// place of the vote of this unit on this proposal free.
    pub open spec fn account_error(&self, program_id: Address) -> Option<AccountError> {
        first(
            own_property_error(self.property, program_id),
            first(
                proposal_error(self.proposal, self.property.key, program_id),
                first(
                    share_nft_error(self.share_nft, self.property.key, program_id),
                    vacancy_error(
                        self.vote,
                        vote_seeds(self.proposal.key, self.share_nft.key),
                        program_id,
                    ),
                ),
            ),
        )
    }

    /// The bump seed that the new vote remembers.
    pub open spec fn vote_bump(&self, program_id: Address) -> u8 {
        bump_of(vote_seeds(self.proposal.key, self.share_nft.key), program_id)
    }

    fn check(&self, program_id: &Address) -> (bump: Result<u8, AccountError>)
        ensures
            match bump {
                Ok(b) => self.account_error(*program_id) is None && b == self.vote_bump(
                    *program_id,
                ),
                Err(e) => self.account_error(*program_id) == Some(e),
            },
    {
        match check_own_property(program_id, &self.property) {
            Some(e) => {
                return Err(e);
            },
            None => {},
        }
        match check_proposal(program_id, &self.proposal, &self.property.key) {
            Some(e) => {
                return Err(e);
            },
            None => {},
        }
        match check_share_nft(program_id, &self.share_nft, &self.property.key) {
            Some(e) => {
                return Err(e);
            },
            None => {},
        }
        let found = vote_address(program_id, &self.proposal.key, &self.share_nft.key);
        proof {
            lemma_derived_sits(
                found,
                self.vote.key,
                vote_seeds(self.proposal.key, self.share_nft.key),
                *program_id,
            );
        }
        check_vacancy(found, &self.vote)
    }
}

impl CloseProposal {
    /// What is wrong with the records, if anything: the registry, the
    /// property under it and the proposal under the property must be in
    /// their places.
    pub open spec fn account_error(&self, program_id: Address) -> Option<AccountError> {
        first(
            managed_property_error(self.factory, self.property, self.team_member, program_id),
            proposal_error(self.proposal, self.property.key, program_id),
        )
    }
}

/// The rule that the terms of a new proposal break, if any, for a call made
/// at `now`.
pub open spec fn create_proposal_error(
    program_id: Address,
    accounts: CreateProposal,
    now: i64,
    title: Seq<char>,
    description: Seq<char>,
    voting_duration: i64,
) -> Option<FactoryError> {
    if byte_len(title) > MAX_TITLE_LEN {
        Some(FactoryError::TitleTooLong)
    } else if byte_len(description) > MAX_DESCRIPTION_LEN {
        Some(FactoryError::DescriptionTooLong)
    } else if voting_duration <= 0 {
        Some(FactoryError::InvalidDuration)
    } else {
        first(
            authorization_error(
                program_id,
                accounts.factory,
                accounts.authority.key,
                accounts.team_member,
            ),
            match accounts.property.data {
                Some(property) => if !property.voting_enabled {
                    Some(FactoryError::VotingDisabled)
                } else if now + voting_duration > i64::MAX {
                    Some(FactoryError::MathOverflow)
                } else if property.proposal_count == u64::MAX {
                    Some(FactoryError::MathOverflow)
                } else {
                    None
                },
                None => None,
            },
        )
    }
}

/// The rule that a vote cast at `now` breaks, if any.
pub open spec fn cast_vote_error(accounts: CastVote, now: i64, vote_choice: bool) -> Option<
    FactoryError,
> {
    match (accounts.property.data, accounts.proposal.data, accounts.share_nft.data) {
        (Some(property), Some(proposal), Some(share_nft)) => if !property.voting_enabled {
            Some(FactoryError::VotingDisabled)
        } else if !proposal.is_active {
            Some(FactoryError::ProposalInactive)
        } else if now > proposal.voting_ends_at {
            Some(FactoryError::VotingEnded)
        } else if share_nft.owner != accounts.voter.key {
            Some(FactoryError::NotNftOwner)
        } else if share_nft.property != accounts.property.key {
            Some(FactoryError::WrongProperty)
        } else if share_nft.voting_power == 0 {
            Some(FactoryError::NoVotingPower)
        } else if (if vote_choice {
            proposal.yes_votes
        } else {
            proposal.no_votes
        }) == u64::MAX {
            Some(FactoryError::MathOverflow)
        } else {
            None
        },
        _ => None,
    }
}

/// The rule that closing a proposal at `now` breaks, if any.
pub open spec fn close_proposal_error(program_id: Address, accounts: CloseProposal, now: i64) -> Option<
    FactoryError,
> {
    first(
        authorization_error(
            program_id,
            accounts.factory,
            accounts.authority.key,
            accounts.team_member,
        ),
        match accounts.proposal.data {
            Some(proposal) => if now <= proposal.voting_ends_at {
                Some(FactoryError::VotingStillActive)
            } else {
                None
            },
            None => None,
        },
    )
}

/// The proposal after one more vote was counted: one more for the side
/// chosen, whatever the weight that the unit carries.
pub open spec fn after_vote(proposal: Proposal, vote_choice: bool) -> Proposal {
    if vote_choice {
        Proposal { yes_votes: (proposal.yes_votes + 1) as u64, ..proposal }
    } else {
        Proposal { no_votes: (proposal.no_votes + 1) as u64, ..proposal }
    }
}

/// The records after a vote was cast at `now`: the vote stands in its
/// place, and the proposal counts one more for the side chosen.
pub open spec fn after_cast_vote(
    program_id: Address,
    accounts: CastVote,
    now: i64,
    vote_choice: bool,
) -> CastVote {
    CastVote {
        proposal: Account {
            data: Some(after_vote(accounts.proposal.data->0, vote_choice)),
            ..accounts.proposal
        },
        vote: Account {
            data: Some(
                Vote {
                    proposal: accounts.proposal.key,
                    voter: accounts.voter.key,
                    share_nft: accounts.share_nft.key,
                    vote_choice,
                    voted_at: now,
                    bump: accounts.vote_bump(program_id),
                },
            ),
            ..accounts.vote
        },
        ..accounts
    }
}

/// Puts a proposal to the holders of a property's units, open for votes
/// from `now` for `voting_duration` seconds.
///
/// The call is rejected, and nothing changes, where the records are not in
/// their places, the title or the description is too long, the duration is
/// not positive, the caller may not act for the operator, the property does
/// not let its holders vote, or a counter would overflow. Otherwise the
/// proposal is written with the number that the property counts next, open
/// and with no votes, and the property counts one more.
pub fn create_proposal(
    program_id: &Address,
    accounts: &mut CreateProposal,
    now: i64,
    title: String,
    description: String,
    voting_duration: i64,
) -> (result: Result<(), Failure<FactoryError>>)
    ensures
        result == verdict(
            old(accounts).account_error(*program_id),
            create_proposal_error(
                *program_id,
                *old(accounts),
                now,
                title@,
                description@,
                voting_duration,
            ),
        ),
        result is Err ==> *final(accounts) == *old(accounts),
        result is Ok ==> ({
            let property = old(accounts).property.data->0;
            *final(accounts) == (CreateProposal {
                property: Account {
                    data: Some(
                        Property {
                            proposal_count: (property.proposal_count + 1) as u64,
                            ..property
                        },
                    ),
                    ..old(accounts).property
                },
                proposal: Account {
                    data: Some(
                        Proposal {
                            property: old(accounts).property.key,
                            proposal_id: property.proposal_count,
                            title,
                            description,
                            creator: old(accounts).authority.key,
                            created_at: now,
                            voting_ends_at: (now + voting_duration) as i64,
                            yes_votes: 0,
                            no_votes: 0,
                            is_active: true,
                            is_executed: false,
                            bump: old(accounts).proposal_bump(*program_id),
                        },
                    ),
                    ..old(accounts).proposal
                },
                ..*old(accounts)
            })
        }),
        result is Ok ==> final(accounts).proposal.data->0.well_formed(),
        result is Ok && old(accounts).property.data->0.well_formed() ==> final(accounts)
            .property.data->0.well_formed(),
{
    let bump = match accounts.check(program_id) {
        Ok(b) => b,
        Err(e) => {
            return Err(Failure::Account(e));
        },
    };
    if stored_len(&title) > MAX_TITLE_LEN {
        return Err(Failure::Program(FactoryError::TitleTooLong));
    }
    if stored_len(&description) > MAX_DESCRIPTION_LEN {
        return Err(Failure::Program(FactoryError::DescriptionTooLong));
    }
    if voting_duration <= 0 {
        return Err(Failure::Program(FactoryError::InvalidDuration));
    }
    match assert_authorized(
        program_id,
        &accounts.factory,
        &accounts.authority,
        &accounts.team_member,
    ) {
        Ok(()) => {},
        Err(e) => {
            return Err(Failure::Program(e));
        },
    }
    let property_key = accounts.property.key;
    let creator = accounts.authority.key;
    let proposal = match &mut accounts.property.data {
        Some(property) => {
            if !property.voting_enabled {
                return Err(Failure::Program(FactoryError::VotingDisabled));
            }
            let voting_ends_at = match now.checked_add(voting_duration) {
                Some(end) => end,
                None => {
                    return Err(Failure::Program(FactoryError::MathOverflow));
                },
            };
            let proposal_id = property.proposal_count;
            let next_count = match proposal_id.checked_add(1) {
                Some(count) => count,
                None => {
                    return Err(Failure::Program(FactoryError::MathOverflow));
                },
            };
            property.proposal_count = next_count;
            Proposal {
                property: property_key,
                proposal_id,
                title,
                description,
                creator,
                created_at: now,
                voting_ends_at,
                yes_votes: 0,
                no_votes: 0,
                is_active: true,
                is_executed: false,
                bump,
            }
        },
        None => {
            return Err(Failure::Account(AccountError::AccountNotInitialized));
        },
    };
    accounts.proposal.data = Some(proposal);
    Ok(())
}

/// Casts the vote of a unit on a proposal.
///
/// The call is rejected, and nothing changes, where the records are not in
/// their places, this unit has voted on this proposal before, the property
/// does not let its holders vote, the proposal is closed or its time has
/// passed, the caller does not own the unit, the unit belongs to another
/// property or carries no vote, or the tally would overflow. Otherwise the
/// vote is written in the place of this unit and this proposal, and the
/// proposal counts one more for the side chosen.
pub fn cast_vote(program_id: &Address, accounts: &mut CastVote, now: i64, vote_choice: bool) -> (result:
    Result<(), Failure<FactoryError>>)
    ensures
        result == verdict(
            old(accounts).account_error(*program_id),
            cast_vote_error(*old(accounts), now, vote_choice),
        ),
        result is Err ==> *final(accounts) == *old(accounts),
        result is Ok ==> *final(accounts) == after_cast_vote(
            *program_id,
            *old(accounts),
            now,
            vote_choice,
        ),
        result is Ok && old(accounts).proposal.data->0.well_formed() ==> final(accounts)
            .proposal.data->0.well_formed(),
{
    let bump = match accounts.check(program_id) {
        Ok(b) => b,
        Err(e) => {
            return Err(Failure::Account(e));
        },
    };
    let property = match &accounts.property.data {
        Some(p) => p,
        None => {
            return Err(Failure::Account(AccountError::AccountNotInitialized));
        },
    };
    let share_nft = match &accounts.share_nft.data {
        Some(s) => s,
        None => {
            return Err(Failure::Account(AccountError::AccountNotInitialized));
        },
    };
    let voting_enabled = property.voting_enabled;
    let owned = same(&share_nft.owner, &accounts.voter.key);
    let belongs = same(&share_nft.property, &accounts.property.key);
    let voting_power = share_nft.voting_power;
    match &mut accounts.proposal.data {
        Some(proposal) => {
            if !voting_enabled {
                return Err(Failure::Program(FactoryError::VotingDisabled));
            }
            if !proposal.is_active {
                return Err(Failure::Program(FactoryError::ProposalInactive));
            }
            if now > proposal.voting_ends_at {
                return Err(Failure::Program(FactoryError::VotingEnded));
            }
            if !owned {
                return Err(Failure::Program(FactoryError::NotNftOwner));
            }
            if !belongs {
                return Err(Failure::Program(FactoryError::WrongProperty));
            }
            if voting_power == 0 {
                return Err(Failure::Program(FactoryError::NoVotingPower));
            }
            if vote_choice {
                match proposal.yes_votes.checked_add(1) {
                    Some(votes) => {
                        proposal.yes_votes = votes;
                    },
                    None => {
                        return Err(Failure::Program(FactoryError::MathOverflow));
                    },
                }
            } else {
                match proposal.no_votes.checked_add(1) {
                    Some(votes) => {
                        proposal.no_votes = votes;
                    },
                    None => {
                        return Err(Failure::Program(FactoryError::MathOverflow));
                    },
                }
            }
        },
        None => {
            return Err(Failure::Account(AccountError::AccountNotInitialized));
        },
    }
    accounts.vote.data = Some(
        Vote {
            proposal: accounts.proposal.key,
            voter: accounts.voter.key,
            share_nft: accounts.share_nft.key,
            vote_choice,
            voted_at: now,
            bump,
        },
    );
    Ok(())
}

/// Closes a proposal whose time for votes has passed: its tally stands.
///
/// The call is rejected, and nothing changes, where the records are not in
/// their places, the caller may not act for the operator, or the time for
/// votes has not passed. Otherwise the proposal is closed, whether or not
/// it was closed before.
pub fn close_proposal(program_id: &Address, accounts: &mut CloseProposal, now: i64) -> (result:
    Result<(), Failure<FactoryError>>)
    ensures
        result == verdict(
            old(accounts).account_error(*program_id),
            close_proposal_error(*program_id, *old(accounts), now),
        ),
        result is Err ==> *final(accounts) == *old(accounts),
        result is Ok ==> *final(accounts) == (CloseProposal {
            proposal: Account {
                data: Some(Proposal { is_active: false, ..old(accounts).proposal.data->0 }),
                ..old(accounts).proposal
            },
            ..*old(accounts)
        }),
        result is Ok && old(accounts).proposal.data->0.well_formed() ==> final(accounts)
            .proposal.data->0.well_formed(),
{
    match check_managed_property(
        program_id,
        &accounts.factory,
        &accounts.property,
        &accounts.team_member,
    ) {
        Some(e) => {
            return Err(Failure::Account(e));
        },
        None => {},
    }
    match check_proposal(program_id, &accounts.proposal, &accounts.property.key) {
        Some(e) => {
            return Err(Failure::Account(e));
        },
        None => {},
    }
    match assert_authorized(
        program_id,
        &accounts.factory,
        &accounts.authority,
        &accounts.team_member,
    ) {
        Ok(()) => {},
        Err(e) => {
            return Err(Failure::Program(e));
        },
    }
    match &mut accounts.proposal.data {
        Some(proposal) => {
            if now <= proposal.voting_ends_at {
                return Err(Failure::Program(FactoryError::VotingStillActive));
            }
            proposal.is_active = false;
        },
        None => {
            return Err(Failure::Account(AccountError::AccountNotInitialized));
        },
    }
    Ok(())
}

/// A vote is accepted only into the place derived from its proposal and
/// its unit, and only while that place is free.
pub proof fn lemma_vote_needs_free_place(program_id: Address, accounts: CastVote)
    requires
        accounts.account_error(program_id) is None,
    ensures
        accounts.vote.data is None,
        sits_at(accounts.vote.key, vote_seeds(accounts.proposal.key, accounts.share_nft.key), program_id),
{
}

/// A unit votes once on a proposal: after its vote was accepted, a second
/// vote of the same unit on the same proposal finds the place taken and is
/// rejected, whichever side it is for and whenever it is cast, and the
/// tally stands as the first vote left it.
pub proof fn lemma_unit_votes_once(
    program_id: Address,
    accounts: CastVote,
    now: i64,
    vote_choice: bool,
    later: i64,
    other_choice: bool,
)
    requires
        accounts.account_error(program_id) is None,
        cast_vote_error(accounts, now, vote_choice) is None,
    ensures
        ({
            let voted = after_cast_vote(program_id, accounts, now, vote_choice);
            &&& voted.account_error(program_id) == Some(AccountError::AccountAlreadyInUse)
            &&& verdict(
                voted.account_error(program_id),
                cast_vote_error(voted, later, other_choice),
            ) == Err::<(), Failure<FactoryError>>(
                Failure::Account(AccountError::AccountAlreadyInUse),
            )
        }),
{
}

} // verus!
