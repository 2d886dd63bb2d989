//! The storage capability contract every backend implements.
//!
//! Handlers and the authentication middleware call these operations through
//! the trait alone, never through a concrete backend type, so backends can be
//! substituted without touching call sites. The contract of each operation is
//! stated over the backend's abstract [`StoreModel`]: existence checks return
//! booleans and never `RecordNotFound`; lookups return `RecordNotFound` for a
//! missing record; mutations are idempotent, so a retried request whose first
//! outcome is unknown is safe to resend.

use vstd::prelude::*;

use crate::error::Error;
use crate::ids::{UserId, UserIdentifier};
use crate::model::{existence_check_post, fetch_user_id_post, lookup_post, mutation_post, StoreModel};

verus! {

/// The set of keys of every device owned by the account with localpart `l`.
pub open spec fn device_keys_of(l: Seq<char>) -> Set<(Seq<char>, Seq<char>)> {
    Set::new(|k: (Seq<char>, Seq<char>)| k.0 == l)
}

/// The display name a `set_device` call carries, as a specification value.
pub open spec fn opt_name_view(d: Option<&String>) -> Option<Seq<char>> {
    match d {
        Some(s) => Some(s@),
        None => None,
    }
}

/// An owned optional display name, as a specification value.
pub open spec fn opt_string_view(d: Option<String>) -> Option<Seq<char>> {
    match d {
        Some(s) => Some(s@),
        None => None,
    }
}

/// The capability set of a storage backend.
pub trait Store: Sized {
    /// The abstract durable state this instance currently holds.
    spec fn model(&self) -> StoreModel;

    /// The implementation's internal well-formedness; established by its
    /// constructor and preserved by every operation.
    spec fn inv(&self) -> bool;

    /// The name `get_type` reports for this backend.
    spec fn backend_name(&self) -> Seq<char>;

    /// A human-readable name of the backend, for diagnostics.
    fn get_type(&self) -> (r: String)
        ensures
            r@ == self.backend_name(),
    ;

    /// `true` iff an account with this localpart exists. Never
    /// `RecordNotFound`: absence is the successful answer `false`.
    fn check_username_exists(&self, username: &String) -> (r: Result<bool, Error>)
        requires
            self.inv(),
        ensures
            existence_check_post(self.model(), self.model().accounts.contains_key(username@), r),
    ;

    /// Resolve a request-supplied identifier to the canonical account
    /// identifier, or to an empty result (not an error) when it does not
    /// resolve.
    fn fetch_user_id(&self, ident: &UserIdentifier) -> (r: Result<Option<UserId>, Error>)
        requires
            self.inv(),
        ensures
            fetch_user_id_post(self.model(), *ident, r),
    ;

    /// The stored password hash of the account; `RecordNotFound` if the
    /// account does not exist.
    fn fetch_password_hash(&self, user: &UserId) -> (r: Result<String, Error>)
        requires
            self.inv(),
        ensures
            lookup_post(
                self.model(),
                self.model().accounts.contains_key(user.localpart@),
                self.model().accounts[user.localpart@].password_hash,
                r,
            ),
    ;

    /// The current display name of the account; `RecordNotFound` if the
    /// account does not exist.
    fn fetch_display_name(&self, user: &UserId) -> (r: Result<String, Error>)
        requires
            self.inv(),
        ensures
            lookup_post(
                self.model(),
                self.model().accounts.contains_key(user.localpart@),
                self.model().accounts[user.localpart@].display_name,
                r,
            ),
    ;

    /// `true` iff this exact one-time password is currently valid for the
    /// account. Never `RecordNotFound`: a consumed or never-issued OTP is the
    /// successful answer `false`, and the two are indistinguishable.
    fn check_otp_exists(&self, user: &UserId, otp: &String) -> (r: Result<bool, Error>)
        requires
            self.inv(),
        ensures
            existence_check_post(
                self.model(),
                self.model().otps.contains((user.localpart@, otp@)),
                r,
            ),
    ;

    /// `true` iff this device is registered to this account. Never
    /// `RecordNotFound`: absence is the successful answer `false`.
    fn check_device_id_exists(&self, user: &UserId, device_id: &String) -> (r: Result<bool, Error>)
        requires
            self.inv(),
        ensures
            existence_check_post(
                self.model(),
                self.model().devices.contains_key((user.localpart@, device_id@)),
                r,
            ),
    ;

    /// Idempotent deletion of one device: succeeds, as a no-op, even if the
    /// device was not registered.
    fn remove_device_id(&mut self, device_id: &String, user: &UserId) -> (r: Result<(), Error>)
        requires
            old(self).inv(),
        ensures
            final(self).inv(),
            mutation_post(
                old(self).model(),
                final(self).model(),
                old(self).model().with_devices(
                    old(self).model().devices.remove((user.localpart@, device_id@)),
                ),
                r,
            ),
    ;

    /// Idempotent bulk revocation of every device the account owns: succeeds
    /// even if the account owned no devices.
    fn remove_all_device_ids(&mut self, user: &UserId) -> (r: Result<(), Error>)
        requires
            old(self).inv(),
        ensures
            final(self).inv(),
            mutation_post(
                old(self).model(),
                final(self).model(),
                old(self).model().with_devices(
                    old(self).model().devices.remove_keys(device_keys_of(user.localpart@)),
                ),
                r,
            ),
    ;

    /// Insert-or-update of one device: creates the device if absent, replaces
    /// its display name if present; always leaves exactly one record for the
    /// `(account, device)` pair.
    fn set_device(&mut self, user: &UserId, device_id: &String, display_name: Option<&String>) -> (r: Result<(), Error>)
        requires
            old(self).inv(),
        ensures
            final(self).inv(),
            mutation_post(
                old(self).model(),
                final(self).model(),
                old(self).model().with_devices(
                    old(self).model().devices.insert(
                        (user.localpart@, device_id@),
                        opt_name_view(display_name),
                    ),
                ),
                r,
            ),
    ;
}

} // verus!
