//! The interface-level laws of the `Store` contract.
//!
//! Each law quantifies over the abstract state and over every result the
//! operation contracts admit, so it holds of any backend that meets the
//! `Store` contract, not only of the in-memory one.

use vstd::prelude::*;

use crate::error::{
    code_of_fault, lemma_fault_normalization_exact, resolution_code_of_fault, CodeV, Error, FaultV,
};
use crate::ids::{UserId, UserIdentifier};
use crate::model::{
    existence_check_post, fetch_user_id_post, mutation_post, mutation_succeeds, AccountV,
    StoreModel,
};
use crate::store::device_keys_of;

verus! {

/// An account not yet created reads as absent, and reads as present right
/// after its creation: with no fault pending, `check_username_exists` is owed
/// `Ok(false)` before the account table gains the localpart and `Ok(true)`
/// after it.
pub proof fn lemma_username_exists_tracks_creation(
    m: StoreModel,
    u: Seq<char>,
    a: AccountV,
    r_before: Result<bool, Error>,
    r_after: Result<bool, Error>,
)
    requires
        m.fault is None,
        !m.accounts.contains_key(u),
        existence_check_post(m, m.accounts.contains_key(u), r_before),
        existence_check_post(
            (StoreModel { accounts: m.accounts.insert(u, a), ..m }),
            m.accounts.insert(u, a).contains_key(u),
            r_after,
        ),
    ensures
        r_before == Ok::<bool, Error>(false),
        r_after == Ok::<bool, Error>(true),
{
}

/// `remove_device_id` is idempotent: whenever a mutation is owed success —
/// no fault pending, or only the zero-row fault, which a removal absorbs as
/// its no-op reading — removing the same device twice succeeds both times,
/// the second removal changes nothing, and the device reads as absent after
/// either removal.
pub proof fn lemma_remove_device_idempotent(
    m: StoreModel,
    k: (Seq<char>, Seq<char>),
    m1: StoreModel,
    r1: Result<(), Error>,
    m2: StoreModel,
    r2: Result<(), Error>,
)
    requires
        mutation_succeeds(m),
        mutation_post(m, m1, m.with_devices(m.devices.remove(k)), r1),
        mutation_post(m1, m2, m1.with_devices(m1.devices.remove(k)), r2),
    ensures
        r1 == Ok::<(), Error>(()),
        r2 == Ok::<(), Error>(()),
        m2 == m1,
        !m1.devices.contains_key(k),
        !m2.devices.contains_key(k),
{
    assert(m1.devices.remove(k) =~= m1.devices);
    assert(m1.with_devices(m1.devices.remove(k)) =~= m1);
}

/// After a bulk revocation, every device previously registered to the account
/// reads as absent: whenever the mutation is owed success,
/// `remove_all_device_ids` succeeds and a subsequent `check_device_id_exists`
/// on any device of that account is owed `Ok(false)`.
pub proof fn lemma_remove_all_revokes_every_device(
    m: StoreModel,
    l: Seq<char>,
    d: Seq<char>,
    m1: StoreModel,
    r: Result<(), Error>,
    rc: Result<bool, Error>,
)
    requires
        mutation_succeeds(m),
        mutation_post(m, m1, m.with_devices(m.devices.remove_keys(device_keys_of(l))), r),
        existence_check_post(m1, m1.devices.contains_key((l, d)), rc),
    ensures
        r == Ok::<(), Error>(()),
        !m1.devices.contains_key((l, d)),
        rc == Ok::<bool, Error>(false),
{
    assert(device_keys_of(l).contains((l, d)));
}

/// `set_device` is idempotent under repetition with the same arguments:
/// whenever the mutation is owed success, both calls succeed, the second
/// changes nothing, and the stored record is the one the call asked for.
pub proof fn lemma_set_device_idempotent(
    m: StoreModel,
    k: (Seq<char>, Seq<char>),
    name: Option<Seq<char>>,
    m1: StoreModel,
    r1: Result<(), Error>,
    m2: StoreModel,
    r2: Result<(), Error>,
)
    requires
        mutation_succeeds(m),
        mutation_post(m, m1, m.with_devices(m.devices.insert(k, name)), r1),
        mutation_post(m1, m2, m1.with_devices(m1.devices.insert(k, name)), r2),
    ensures
        r1 == Ok::<(), Error>(()),
        r2 == Ok::<(), Error>(()),
        m2 == m1,
        m1.devices.contains_key(k),
        m1.devices[k] == name,
{
    assert(m1.devices.insert(k, name) =~= m1.devices);
    assert(m1.with_devices(m1.devices.insert(k, name)) =~= m1);
}

/// Setting the same device twice with different display names updates the one
/// record instead of duplicating it: the device table ends exactly as if the
/// device had been set once, with the second name.
pub proof fn lemma_set_device_updates(
    m: StoreModel,
    k: (Seq<char>, Seq<char>),
    n1: Option<Seq<char>>,
    n2: Option<Seq<char>>,
    m1: StoreModel,
    r1: Result<(), Error>,
    m2: StoreModel,
    r2: Result<(), Error>,
)
    requires
        mutation_succeeds(m),
        mutation_post(m, m1, m.with_devices(m.devices.insert(k, n1)), r1),
        mutation_post(m1, m2, m1.with_devices(m1.devices.insert(k, n2)), r2),
    ensures
        r1 == Ok::<(), Error>(()),
        r2 == Ok::<(), Error>(()),
        m2.devices == m.devices.insert(k, n2),
        m2.devices.contains_key(k),
        m2.devices[k] == n2,
{
    assert(m1.devices.insert(k, n2) =~= m.devices.insert(k, n2));
}

/// An existence check never surfaces `RecordNotFound`, whatever state the
/// store is in and whatever fault is pending. In particular
/// `check_otp_exists` reports a never-issued and a consumed OTP alike as a
/// successful `false`, never as an error.
pub proof fn lemma_existence_check_never_record_not_found(
    m: StoreModel,
    present: bool,
    r: Result<bool, Error>,
)
    requires
        existence_check_post(m, present, r),
    ensures
        !(r matches Err(e) && e@ == CodeV::RecordNotFound),
{
    if r is Err {
        let f = m.fault.unwrap();
        lemma_fault_normalization_exact(f);
    }
}

/// A consumed OTP is indistinguishable from one never issued: with no fault
/// pending (or only the zero-row fault, which an existence check reads as
/// absence), `check_otp_exists` is owed `Ok(false)` for the consumed pair.
pub proof fn lemma_consumed_otp_reads_never_issued(
    m: StoreModel,
    k: (Seq<char>, Seq<char>),
    r: Result<bool, Error>,
)
    requires
        m.fault is None || m.fault == Some(FaultV::RowNotFound),
        existence_check_post(
            (StoreModel { otps: m.otps.remove(k), ..m }),
            m.otps.remove(k).contains(k),
            r,
        ),
    ensures
        r == Ok::<bool, Error>(false),
{
}

/// A mutation never surfaces `RecordNotFound`, whatever state the store is in
/// and whatever fault is pending: mutations error with backend and connection
/// failures only, and the zero-row condition is their no-op success.
pub proof fn lemma_mutation_never_record_not_found(
    old_m: StoreModel,
    new_m: StoreModel,
    intended: StoreModel,
    r: Result<(), Error>,
)
    requires
        mutation_post(old_m, new_m, intended, r),
    ensures
        !(r matches Err(e) && e@ == CodeV::RecordNotFound),
{
    if r is Err {
        let f = old_m.fault.unwrap();
        lemma_fault_normalization_exact(f);
    }
}

/// Identifier resolution errors only with `ConnectionFailed` or `Unknown`,
/// whatever state the store is in and whatever fault is pending: never
/// `RecordNotFound` (an unresolvable identifier is the empty result) and
/// never `InvalidSyntax`.
pub proof fn lemma_resolution_error_kinds(
    m: StoreModel,
    ident: UserIdentifier,
    r: Result<Option<UserId>, Error>,
)
    requires
        fetch_user_id_post(m, ident, r),
    ensures
        r matches Err(e) ==> (e@ == CodeV::ConnectionFailed || e@ matches CodeV::Unknown(_)),
{
}

/// Every fault a backend can be in surfaces as exactly one of the four error
/// kinds; no fifth kind and no native representation crosses the boundary.
pub proof fn lemma_every_fault_normalizes(f: FaultV)
    ensures
        code_of_fault(f) == CodeV::ConnectionFailed || code_of_fault(f) == CodeV::RecordNotFound
            || code_of_fault(f) == CodeV::InvalidSyntax || (code_of_fault(f) matches CodeV::Unknown(
            _,
        )),
{
}

} // verus!
