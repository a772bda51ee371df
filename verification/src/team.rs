//! Who may act for the operator: the operator itself, and the wallets to
//! which it gave its rights and has not taken them back.

use crate::account::{first, verdict, Account, AccountError, Failure, Wallet};
use crate::address::{
    bump_of, lemma_derived_sits, same, sits_at, team_member_address, team_member_seeds,
    Address,
};
use crate::checks::{
    check_factory, check_team_member, check_vacancy, factory_error, team_member_error,
    vacancy_error,
};
use crate::state::{Factory, FactoryError, TeamMember};
use vstd::prelude::*;

verus! {

/// Whether the caller is the operator of the registry.
pub open spec fn is_operator(factory: Account<Factory>, authority: Address) -> bool {
    factory.data matches Some(f) && f.admin == authority
}

/// Whether the record shown is an active membership of the caller under the
/// registry: it names the registry and the caller, and sits at the address
/// derived from the two.
pub open spec fn is_active_member(
    program_id: Address,
    factory: Account<Factory>,
    authority: Address,
    team_member: Option<Account<TeamMember>>,
) -> bool {
    &&& factory.data is Some
    &&& team_member matches Some(account)
    &&& account.data matches Some(member)
    &&& member.is_active
    &&& member.factory == factory.key
    &&& member.wallet == authority
    &&& sits_at(account.key, team_member_seeds(factory.key, authority), program_id)
}

/// Why the caller may not act for the operator, if it may not.
pub open spec fn authorization_error(
    program_id: Address,
    factory: Account<Factory>,
    authority: Address,
    team_member: Option<Account<TeamMember>>,
) -> Option<FactoryError> {
    if is_operator(factory, authority) {
        None
    } else if factory.data is None {
        Some(FactoryError::Unauthorized)
    } else {
        match team_member {
            Some(account) => match account.data {
                Some(member) => if !member.is_active {
                    Some(FactoryError::TeamMemberInactive)
                } else if member.factory != factory.key || member.wallet != authority || !sits_at(
                    account.key,
                    team_member_seeds(factory.key, authority),
                    program_id,
                ) {
                    Some(FactoryError::Unauthorized)
                } else {
                    None
                },
                None => Some(FactoryError::Unauthorized),
            },
            None => Some(FactoryError::Unauthorized),
        }
    }
}

/// A caller is let through exactly when it is the operator or shows an
/// active membership of its own that sits where it is derived.
pub proof fn lemma_authorized_iff(
    program_id: Address,
    factory: Account<Factory>,
    authority: Address,
    team_member: Option<Account<TeamMember>>,
)
    ensures
        authorization_error(program_id, factory, authority, team_member) is None <==> (is_operator(
            factory,
            authority,
        ) || is_active_member(program_id, factory, authority, team_member)),
{
}

/// Decides whether the caller may act for the operator of the registry.
pub fn assert_authorized(
    program_id: &Address,
    factory: &Account<Factory>,
    authority: &Wallet,
    team_member: &Option<Account<TeamMember>>,
) -> (verdict: Result<(), FactoryError>)
    ensures
        verdict == match authorization_error(*program_id, *factory, authority.key, *team_member) {
            Some(e) => Err::<(), FactoryError>(e),
            None => Ok(()),
        },
        verdict is Ok <==> (is_operator(*factory, authority.key) || is_active_member(
            *program_id,
            *factory,
            authority.key,
            *team_member,
        )),
{
    let registry = match &factory.data {
        Some(f) => f,
        None => {
            return Err(FactoryError::Unauthorized);
        },
    };
    if same(&authority.key, &registry.admin) {
        return Ok(());
    }
    match team_member {
        Some(account) => match &account.data {
            Some(member) => {
                if !member.is_active {
                    return Err(FactoryError::TeamMemberInactive);
                }
                if !same(&member.factory, &factory.key) {
                    return Err(FactoryError::Unauthorized);
                }
                if !same(&member.wallet, &authority.key) {
                    return Err(FactoryError::Unauthorized);
                }
                let expected = team_member_address(program_id, &factory.key, &authority.key);
                proof {
                    lemma_derived_sits(
                        expected,
                        account.key,
                        team_member_seeds(factory.key, authority.key),
                        *program_id,
                    );
                }
                match expected {
                    Some((address, _)) => if same(&address, &account.key) {
                        Ok(())
                    } else {
                        Err(FactoryError::Unauthorized)
                    },
                    None => Err(FactoryError::Unauthorized),
                }
            },
            None => Err(FactoryError::Unauthorized),
        },
        None => Err(FactoryError::Unauthorized),
    }
}

/// The records of a call that gives a wallet the rights of the operator.
#[derive(Clone, Debug, PartialEq, Eq)]
pub struct AddTeamMember {
    pub factory: Account<Factory>,
    pub team_member: Account<TeamMember>,
    pub wallet: Wallet,
    pub admin: Wallet,
}

/// The records of a call that takes the rights of the operator back.
#[derive(Clone, Debug, PartialEq, Eq)]
pub struct RemoveTeamMember {
    pub factory: Account<Factory>,
    pub team_member: Account<TeamMember>,
    pub admin: Wallet,
}

/// What is wrong with the caller of a call that only the operator makes.
pub open spec fn operator_error(factory: Account<Factory>, admin: Address) -> Option<AccountError> {
    match factory.data {
        Some(registry) => if admin != registry.admin {
            Some(AccountError::ConstraintAddress)
        } else {
            None
        },
        None => None,
    }
}

impl AddTeamMember {
    /// What is wrong with the records, if anything: the registry must be in
    /// its place, the place of the membership of the wallet under it free,
    /// and the caller the operator.
    pub open spec fn account_error(&self, program_id: Address) -> Option<AccountError> {
        first(
            factory_error(self.factory, program_id),
            first(
                vacancy_error(
                    self.team_member,
                    team_member_seeds(self.factory.key, self.wallet.key),
                    program_id,
                ),
                operator_error(self.factory, self.admin.key),
            ),
        )
    }
}

impl RemoveTeamMember {
    /// What is wrong with the records, if anything: the registry and the
    /// membership under it must be in their places, and the caller the
    /// operator.
    pub open spec fn account_error(&self, program_id: Address) -> Option<AccountError> {
        first(
            factory_error(self.factory, program_id),
            first(
                team_member_error(self.team_member, self.factory.key, program_id),
                operator_error(self.factory, self.admin.key),
            ),
        )
    }
}

/// Gives a wallet the rights of the operator over the registry.
///
/// The call is rejected, and nothing changes, where the registry is not in
/// its place, the place handed in is not the one derived for the wallet or
/// holds a membership already, or the caller is not the operator. Otherwise
/// an active membership is written there, which names `wallet`, the
/// operator and the time `now`.
pub fn add_team_member(
    program_id: &Address,
    accounts: &mut AddTeamMember,
    now: i64,
    wallet: Address,
) -> (result: Result<(), Failure<FactoryError>>)
    ensures
        result == verdict::<FactoryError>(old(accounts).account_error(*program_id), None),
        result is Err ==> *final(accounts) == *old(accounts),
        result is Ok ==> *final(accounts) == (AddTeamMember {
            team_member: Account {
                data: Some(
                    TeamMember {
                        factory: old(accounts).factory.key,
                        wallet,
                        added_by: old(accounts).admin.key,
                        added_at: now,
                        is_active: true,
                        bump: bump_of(
                            team_member_seeds(
                                old(accounts).factory.key,
                                old(accounts).wallet.key,
                            ),
                            *program_id,
                        ),
                    },
                ),
                ..old(accounts).team_member
            },
            ..*old(accounts)
        }),
{
    match check_factory(program_id, &accounts.factory) {
        Some(e) => {
            return Err(Failure::Account(e));
        },
        None => {},
    }
    let found = team_member_address(program_id, &accounts.factory.key, &accounts.wallet.key);
    proof {
        lemma_derived_sits(
            found,
            accounts.team_member.key,
            team_member_seeds(accounts.factory.key, accounts.wallet.key),
            *program_id,
        );
    }
    let bump = match check_vacancy(found, &accounts.team_member) {
        Ok(b) => b,
        Err(e) => {
            return Err(Failure::Account(e));
        },
    };
    let registry = match &accounts.factory.data {
        Some(f) => f,
        None => {
            return Err(Failure::Account(AccountError::AccountNotInitialized));
        },
    };
    if !same(&accounts.admin.key, &registry.admin) {
        return Err(Failure::Account(AccountError::ConstraintAddress));
    }
    accounts.team_member.data = Some(
        TeamMember {
            factory: accounts.factory.key,
            wallet,
            added_by: accounts.admin.key,
            added_at: now,
            is_active: true,
            bump,
        },
    );
    Ok(())
}

/// Takes the rights of the operator back from a wallet. The membership
/// stays on record, inactive.
///
/// The call is rejected, and nothing changes, where the registry or the
/// membership is not in its place, or the caller is not the operator.
/// Otherwise the membership is inactive, whether or not it was before.
pub fn remove_team_member(program_id: &Address, accounts: &mut RemoveTeamMember) -> (result:
    Result<(), Failure<FactoryError>>)
    ensures
        result == verdict::<FactoryError>(old(accounts).account_error(*program_id), None),
        result is Err ==> *final(accounts) == *old(accounts),
        result is Ok ==> *final(accounts) == (RemoveTeamMember {
            team_member: Account {
                data: Some(TeamMember { is_active: false, ..old(accounts).team_member.data->0 }),
                ..old(accounts).team_member
            },
            ..*old(accounts)
        }),
{
    match check_factory(program_id, &accounts.factory) {
        Some(e) => {
            return Err(Failure::Account(e));
        },
        None => {},
    }
    match check_team_member(program_id, &accounts.team_member, &accounts.factory.key) {
        Some(e) => {
            return Err(Failure::Account(e));
        },
        None => {},
    }
    let registry = match &accounts.factory.data {
        Some(f) => f,
        None => {
            return Err(Failure::Account(AccountError::AccountNotInitialized));
        },
    };
    if !same(&accounts.admin.key, &registry.admin) {
        return Err(Failure::Account(AccountError::ConstraintAddress));
    }
    match &mut accounts.team_member.data {
        Some(member) => {
            member.is_active = false;
        },
        None => {
            return Err(Failure::Account(AccountError::AccountNotInitialized));
        },
    }
    Ok(())
}

} // verus!
