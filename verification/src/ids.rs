//! Identifier types for accounts and the identifier forms a request may carry.

use vstd::prelude::*;

verus! {

/// The canonical identifier of an account: the server-local, unique
/// `localpart` together with the homeserver domain that owns it.
pub struct UserId {
    pub localpart: String,
    pub domain: String,
}

impl UserId {
    pub fn new(localpart: String, domain: String) -> (u: UserId)
        ensures
            u.localpart@ == localpart@,
            u.domain@ == domain@,
    {
        UserId { localpart, domain }
    }
}

/// A user identifier as supplied by a request, before resolution to a
/// canonical [`UserId`]. A localpart resolves against the account table; a
/// third-party identifier (e-mail address, phone number) is outside this
/// core's resolution policy and always resolves to an empty result.
pub enum UserIdentifier {
    Localpart(String),
    ThirdParty(String),
}

/// The validated identity the authentication middleware attaches to a
/// request: the account, and the device that issued the current access token
/// when one did. Produced outside this core and consumed read-only; never
/// persisted.
pub struct Principal {
    pub user: UserId,
    pub device_id: Option<String>,
}

} // verus!
