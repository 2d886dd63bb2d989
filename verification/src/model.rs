//! The mathematical model of a backend's durable state, and the result
//! contracts shared by every `Store` implementation.
//!
//! A backend's state is a [`StoreModel`]: the account table, the device table
//! keyed by `(localpart, device_id)`, the set of currently valid one-time
//! passwords, and the backend's pending native fault, if a failure mode is in
//! effect. The `*_post` predicates below say, for each operation, exactly
//! which result is owed in every state: the exact value when no fault is
//! pending, and otherwise the normalized pending fault — restricted to the
//! error kinds the operation may surface at all, so a fault outside that set
//! reads as the operation's own negative or no-op answer instead.

use vstd::prelude::*;

use crate::error::{code_of_fault, resolution_code_of_fault, CodeV, Error, FaultV};
use crate::ids::{UserId, UserIdentifier};

verus! {

/// What the store holds of one account: its mutable display name and its
/// password credential (a hash, never the plaintext).
#[verifier::ext_equal]
pub struct AccountV {
    pub display_name: Seq<char>,
    pub password_hash: Seq<char>,
}

/// The abstract state of one backend instance.
#[verifier::ext_equal]
pub struct StoreModel {
    /// The homeserver domain canonical identifiers are minted under.
    pub domain: Seq<char>,
    /// Accounts, keyed by localpart (unique and immutable once created).
    pub accounts: Map<Seq<char>, AccountV>,
    /// Devices, keyed by `(owner localpart, device_id)`; the value is the
    /// device's optional human-readable display name. Device identifiers are
    /// unique only within the owning account's namespace.
    pub devices: Map<(Seq<char>, Seq<char>), Option<Seq<char>>>,
    /// The `(owner localpart, otp)` pairs currently valid. A consumed or
    /// never-issued pair is simply absent; the two are indistinguishable.
    pub otps: Set<(Seq<char>, Seq<char>)>,
    /// The pending native fault, if the backend is in a failure mode.
    pub fault: Option<FaultV>,
}

impl StoreModel {
    /// The same state with another device table.
    pub open spec fn with_devices(self, d: Map<(Seq<char>, Seq<char>), Option<Seq<char>>>) -> StoreModel {
        StoreModel { devices: d, ..self }
    }
}

/// Result owed by an existence check whose true answer is `present`.
/// Existence checks never surface `RecordNotFound`: a zero-row condition
/// during an existence check is the successful answer `false`, so only the
/// remaining fault categories surface as errors.
pub open spec fn existence_check_post(m: StoreModel, present: bool, r: Result<bool, Error>) -> bool {
    match m.fault {
        None => r == Ok::<bool, Error>(present),
        Some(f) => if f == FaultV::RowNotFound {
            r == Ok::<bool, Error>(false)
        } else {
            r matches Err(e) && e@ == code_of_fault(f)
        },
    }
}

/// Result owed by a single-record lookup: the looked-up value when the record
/// exists, `RecordNotFound` when it does not, and the normalized pending
/// fault otherwise. `found` says whether the record exists and `value` what
/// the lookup returns of it.
pub open spec fn lookup_post(m: StoreModel, found: bool, value: Seq<char>, r: Result<String, Error>) -> bool {
    match m.fault {
        None => if found {
            r matches Ok(s) && s@ == value
        } else {
            r matches Err(e) && e@ == CodeV::RecordNotFound
        },
        Some(f) => r matches Err(e) && e@ == code_of_fault(f),
    }
}

/// Result owed by identifier resolution. A localpart with an account resolves
/// to the canonical identifier under the store's domain; any other identifier
/// resolves to an empty result, which is not an error. Resolution never
/// surfaces `RecordNotFound` — a zero-row condition is the empty result — and
/// never `InvalidSyntax`: its errors are `ConnectionFailed` and `Unknown`
/// alone, per [`resolution_code_of_fault`].
pub open spec fn fetch_user_id_post(m: StoreModel, ident: UserIdentifier, r: Result<Option<UserId>, Error>) -> bool {
    match m.fault {
        None => match ident {
            UserIdentifier::Localpart(l) => if m.accounts.contains_key(l@) {
                r matches Ok(Some(u)) && u.localpart@ == l@ && u.domain@ == m.domain
            } else {
                r matches Ok(o) && o is None
            },
            UserIdentifier::ThirdParty(_) => r matches Ok(o) && o is None,
        },
        Some(f) => if f == FaultV::RowNotFound {
            r matches Ok(o) && o is None
        } else {
            r matches Err(e) && e@ == resolution_code_of_fault(f)
        },
    }
}

/// A state in which an idempotent mutation is owed success: no fault is
/// pending, or only the zero-row fault is, which a mutation absorbs — a
/// backend reporting that no row matched has still carried the idempotent
/// operation out, as when a deletion finds nothing left to delete.
pub open spec fn mutation_succeeds(m: StoreModel) -> bool {
    m.fault is None || m.fault == Some(FaultV::RowNotFound)
}

/// Result owed by an idempotent mutation: `Ok` and the intended new state
/// whenever the mutation is owed success ([`mutation_succeeds`], which
/// includes a pending zero-row fault — mutations error with backend and
/// connection failures only, never with `RecordNotFound`); the normalized
/// fault and an unchanged state otherwise. `intended` is the state the
/// mutation aims for; it equals the old state whenever the mutation's effect
/// is already in place, which is what makes retrying such a mutation safe.
pub open spec fn mutation_post(old_m: StoreModel, new_m: StoreModel, intended: StoreModel, r: Result<(), Error>) -> bool {
    match old_m.fault {
        None => r == Ok::<(), Error>(()) && new_m == intended,
        Some(f) => if f == FaultV::RowNotFound {
            r == Ok::<(), Error>(()) && new_m == intended
        } else {
            (r matches Err(e) && e@ == code_of_fault(f)) && new_m == old_m
        },
    }
}

} // verus!
