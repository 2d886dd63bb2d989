//! The decisions handlers make from `Store` results.
//!
//! Handlers shape HTTP responses, which is outside this core; the decision of
//! which response a store answer calls for is this core's logic, stated and
//! proved here.

use vstd::prelude::*;

use crate::error::Error;
use crate::ids::{Principal, UserId};

verus! {

/// The outcome the username-availability endpoint reports.
pub enum Availability {
    /// No account holds the localpart: it can be registered.
    Available,
    /// An account already holds the localpart.
    InUse,
    /// The store failed; the caller reports a generic server-side failure and
    /// never leaks backend diagnostics to untrusted clients.
    Failed,
}

/// The availability decision for a username, from the store's existence
/// answer: absent means available, present means in use, and any error kind
/// means a generic failure.
pub fn availability_of(r: &Result<bool, Error>) -> (a: Availability)
    ensures
        a == (match r {
            Ok(exists) => if *exists {
                Availability::InUse
            } else {
                Availability::Available
            },
            Err(_) => Availability::Failed,
        }),
{
    match r {
        Ok(false) => Availability::Available,
        Ok(true) => Availability::InUse,
        Err(_) => Availability::Failed,
    }
}

/// The identity the whoami endpoint reports: exactly the validated
/// principal's account, taken on trust from the authentication middleware.
pub fn whoami(p: &Principal) -> (u: &UserId)
    ensures
        *u == p.user,
{
    &p.user
}

} // verus!
