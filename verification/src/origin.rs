//! Who asks: what the host resolved of a request before it reaches the ledger.

use vstd::prelude::*;
use crate::types::{AccountId, Error};

verus! {

/// The origin of a request: the account that signed it, if any, and whether it
/// comes with elevated authority.
#[derive(Clone, Copy, Debug, PartialEq, Eq)]
pub struct Origin {
    /// The account that signed the request.
    pub signer: Option<AccountId>,
    /// Whether the request carries elevated, root-level authority.
    pub elevated: bool,
}

impl Origin {
    /// A request signed by `who`, without elevated authority.
    pub fn signed(who: AccountId) -> (origin: Origin)
        ensures
            origin == (Origin { signer: Some(who), elevated: false }),
    {
        Origin { signer: Some(who), elevated: false }
    }

    /// A request with elevated authority that nobody signed.
    pub fn root() -> (origin: Origin)
        ensures
            origin == (Origin { signer: None, elevated: true }),
    {
        Origin { signer: None, elevated: true }
    }

    /// A request that nobody signed and that has no authority.
    pub fn none() -> (origin: Origin)
        ensures
            origin == (Origin { signer: None, elevated: false }),
    {
        Origin { signer: None, elevated: false }
    }
}

/// The account that signed the request. Fails with `Unauthenticated` exactly
/// when nobody did.
pub fn ensure_signed(origin: Origin) -> (r: Result<AccountId, Error>)
    ensures
        r == match origin.signer {
            Some(who) => Ok::<AccountId, Error>(who),
            None => Err(Error::Unauthenticated),
        },
{
    match origin.signer {
        Some(who) => Ok(who),
        None => Err(Error::Unauthenticated),
    }
}

/// Checks that the request carries elevated authority. Fails with
/// `Unauthorized` exactly when it does not.
pub fn ensure_root(origin: Origin) -> (r: Result<(), Error>)
    ensures
        r == if origin.elevated {
            Ok::<(), Error>(())
        } else {
            Err(Error::Unauthorized)
        },
{
    if origin.elevated {
        Ok(())
    } else {
        Err(Error::Unauthorized)
    }
}

} // verus!
