//! What a call is handed: the records it may read and change, each with the
//! address it was found at, and the wallets that take part.

use crate::address::Address;
use vstd::prelude::*;

verus! {

/// A place in the store: its address, the balance held against it, and the
/// record kept there. `data` is `None` where no record is kept: before the
/// record is created and after it is retired.
#[derive(Clone, Debug, PartialEq, Eq)]
pub struct Account<T> {
    pub key: Address,
    pub lamports: u64,
    pub data: Option<T>,
}

/// A wallet that takes part in a call: the caller, or one that is named.
#[derive(Clone, Copy, Debug, PartialEq, Eq)]
pub struct Wallet {
    pub key: Address,
    pub lamports: u64,
}

/// A payment that the caller's wallet owes once the call is accepted. The
/// host moves the value; a call whose payment fails has no effect.
#[derive(Clone, Copy, Debug, PartialEq, Eq)]
pub struct Transfer {
    pub from: Address,
    pub to: Address,
    pub lamports: u64,
}

/// What can be wrong with the records handed to a call.
#[derive(Clone, Copy, Debug, PartialEq, Eq)]
pub enum AccountError {
    /// A record does not sit at the address derived for it.
    ConstraintSeeds,
    /// The caller is not the owner that the record names.
    ConstraintHasOne,
    /// A wallet is not the one that the registry names.
    ConstraintAddress,
    /// No record is kept where one is needed.
    AccountNotInitialized,
    /// A record is already kept where a new one is to be created.
    AccountAlreadyInUse,
}

/// Why a call was rejected: for the records it was handed, or for a rule
/// of the program.
#[derive(Clone, Copy, Debug, PartialEq, Eq)]
pub enum Failure<E> {
    Account(AccountError),
    Program(E),
}

/// The first of two findings.
pub open spec fn first<E>(a: Option<E>, b: Option<E>) -> Option<E> {
    if a is Some {
        a
    } else {
        b
    }
}

/// How a call ends that hands nothing back: rejected for its records, else
/// rejected for a rule, else accepted.
pub open spec fn verdict<E>(account: Option<AccountError>, rule: Option<E>) -> Result<
    (),
    Failure<E>,
> {
    match account {
        Some(e) => Err(Failure::Account(e)),
        None => match rule {
            Some(e) => Err(Failure::Program(e)),
            None => Ok(()),
        },
    }
}

/// How a call ends that hands back `value`: rejected for its records, else
/// rejected for a rule, else accepted with the value.
pub open spec fn verdict_with<V, E>(
    account: Option<AccountError>,
    rule: Option<E>,
    value: V,
) -> Result<V, Failure<E>> {
    match account {
        Some(e) => Err(Failure::Account(e)),
        None => match rule {
            Some(e) => Err(Failure::Program(e)),
            None => Ok(value),
        },
    }
}

} // verus!
