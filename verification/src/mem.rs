//! The in-memory backend: a complete `Store` implementation holding its
//! records in process memory.
//!
//! Besides serving as the reference implementation of the `Store` contract,
//! it is the test backend: accounts and one-time passwords are configured
//! through [`MemStore::add_account`], [`MemStore::issue_otp`] and
//! [`MemStore::consume_otp`], and any native backend fault can be injected
//! with [`MemStore::set_fault`], so that every error path of a consumer can
//! be exercised without a live backend.

use vstd::prelude::*;

use crate::assoc::{
    has_key, keys_unique, lemma_map_of_index, lemma_map_of_push, lemma_map_of_swap_remove, map_of,
};
use crate::error::{BackendFault, Error, ErrorCode};
use crate::ids::{UserId, UserIdentifier};
use crate::model::{AccountV, StoreModel};
use crate::store::{device_keys_of, opt_string_view, Store};

verus! {

struct AccountRec {
    localpart: String,
    display_name: String,
    password_hash: String,
}

struct DeviceRec {
    localpart: String,
    device_id: String,
    display_name: Option<String>,
}

struct OtpRec {
    localpart: String,
    otp: String,
}

spec fn acc_key() -> spec_fn(AccountRec) -> Seq<char> {
    |r: AccountRec| r.localpart@
}

spec fn acc_val() -> spec_fn(AccountRec) -> AccountV {
    |r: AccountRec| AccountV { display_name: r.display_name@, password_hash: r.password_hash@ }
}

spec fn dev_key() -> spec_fn(DeviceRec) -> (Seq<char>, Seq<char>) {
    |r: DeviceRec| (r.localpart@, r.device_id@)
}

spec fn dev_val() -> spec_fn(DeviceRec) -> Option<Seq<char>> {
    |r: DeviceRec| opt_string_view(r.display_name)
}

spec fn otp_key() -> spec_fn(OtpRec) -> (Seq<char>, Seq<char>) {
    |r: OtpRec| (r.localpart@, r.otp@)
}

spec fn otp_val() -> spec_fn(OtpRec) -> () {
    |r: OtpRec| ()
}

fn find_account(accounts: &Vec<AccountRec>, localpart: &String) -> (r: Option<usize>)
    ensures
        match r {
            Some(i) => i < accounts@.len() && acc_key()(accounts@[i as int]) == localpart@,
            None => !has_key(accounts@, acc_key(), localpart@),
        },
{
    let mut i: usize = 0;
    while i < accounts.len()
        invariant
            i <= accounts@.len(),
            forall|j: int| 0 <= j < i ==> acc_key()(accounts@[j]) != localpart@,
        decreases accounts@.len() - i,
    {
        if accounts[i].localpart == *localpart {
            return Some(i);
        }
        i = i + 1;
    }
    None
}

fn find_device(devices: &Vec<DeviceRec>, localpart: &String, device_id: &String) -> (r: Option<usize>)
    ensures
        match r {
            Some(i) => i < devices@.len() && dev_key()(devices@[i as int]) == (localpart@, device_id@),
            None => !has_key(devices@, dev_key(), (localpart@, device_id@)),
        },
{
    let mut i: usize = 0;
    while i < devices.len()
        invariant
            i <= devices@.len(),
            forall|j: int| 0 <= j < i ==> dev_key()(devices@[j]) != (localpart@, device_id@),
        decreases devices@.len() - i,
    {
        if devices[i].localpart == *localpart && devices[i].device_id == *device_id {
            return Some(i);
        }
        i = i + 1;
    }
    None
}

fn find_device_owner(devices: &Vec<DeviceRec>, localpart: &String) -> (r: Option<usize>)
    ensures
        match r {
            Some(i) => i < devices@.len() && devices@[i as int].localpart@ == localpart@,
            None => forall|j: int| 0 <= j < devices@.len() ==> devices@[j].localpart@ != localpart@,
        },
{
    let mut i: usize = 0;
    while i < devices.len()
        invariant
            i <= devices@.len(),
            forall|j: int| 0 <= j < i ==> devices@[j].localpart@ != localpart@,
        decreases devices@.len() - i,
    {
        if devices[i].localpart == *localpart {
            return Some(i);
        }
        i = i + 1;
    }
    None
}

fn find_otp(otps: &Vec<OtpRec>, localpart: &String, otp: &String) -> (r: Option<usize>)
    ensures
        match r {
            Some(i) => i < otps@.len() && otp_key()(otps@[i as int]) == (localpart@, otp@),
            None => !has_key(otps@, otp_key(), (localpart@, otp@)),
        },
{
    let mut i: usize = 0;
    while i < otps.len()
        invariant
            i <= otps@.len(),
            forall|j: int| 0 <= j < i ==> otp_key()(otps@[j]) != (localpart@, otp@),
        decreases otps@.len() - i,
    {
        if otps[i].localpart == *localpart && otps[i].otp == *otp {
            return Some(i);
        }
        i = i + 1;
    }
    None
}

/// The in-memory backend instance.
pub struct MemStore {
    domain: String,
    accounts: Vec<AccountRec>,
    devices: Vec<DeviceRec>,
    otps: Vec<OtpRec>,
    fault: Option<BackendFault>,
}

impl MemStore {
    /// A fresh, empty store whose canonical identifiers live under `domain`,
    /// with no failure mode in effect.
    pub fn new(domain: String) -> (s: MemStore)
        ensures
            s.inv(),
            s.model().domain == domain@,
            s.model().accounts == Map::<Seq<char>, AccountV>::empty(),
            s.model().devices == Map::<(Seq<char>, Seq<char>), Option<Seq<char>>>::empty(),
            s.model().otps == Set::<(Seq<char>, Seq<char>)>::empty(),
            s.model().fault is None,
    {
        let s = MemStore {
            domain,
            accounts: Vec::new(),
            devices: Vec::new(),
            otps: Vec::new(),
            fault: None,
        };
        proof {
            assert(s.model().accounts =~= Map::<Seq<char>, AccountV>::empty());
            assert(s.model().devices =~= Map::<(Seq<char>, Seq<char>), Option<Seq<char>>>::empty());
            assert(s.model().otps =~= Set::<(Seq<char>, Seq<char>)>::empty());
        }
        s
    }

    /// Create the account with this localpart, or overwrite its profile and
    /// credential if it already exists. This is the registration primitive;
    /// localparts stay unique.
    pub fn add_account(&mut self, localpart: &String, display_name: &String, password_hash: &String)
        requires
            old(self).inv(),
        ensures
            final(self).inv(),
            final(self).model().accounts == old(self).model().accounts.insert(
                localpart@,
                (AccountV { display_name: display_name@, password_hash: password_hash@ }),
            ),
            final(self).model().devices == old(self).model().devices,
            final(self).model().otps == old(self).model().otps,
            final(self).model().fault == old(self).model().fault,
            final(self).model().domain == old(self).model().domain,
    {
        match find_account(&self.accounts, localpart) {
            Some(i) => {
                proof {
                    lemma_map_of_swap_remove(self.accounts@, acc_key(), acc_val(), i as int);
                }
                let _ = self.accounts.swap_remove(i);
            }
            None => {}
        }
        let rec = AccountRec {
            localpart: localpart.clone(),
            display_name: display_name.clone(),
            password_hash: password_hash.clone(),
        };
        proof {
            lemma_map_of_push(self.accounts@, acc_key(), acc_val(), rec);
        }
        self.accounts.push(rec);
        proof {
            assert(self.model().accounts =~= old(self).model().accounts.insert(
                localpart@,
                AccountV { display_name: display_name@, password_hash: password_hash@ },
            ));
        }
    }

    /// Make this one-time password currently valid for the account.
    pub fn issue_otp(&mut self, user: &UserId, otp: &String)
        requires
            old(self).inv(),
        ensures
            final(self).inv(),
            final(self).model().otps == old(self).model().otps.insert((user.localpart@, otp@)),
            final(self).model().accounts == old(self).model().accounts,
            final(self).model().devices == old(self).model().devices,
            final(self).model().fault == old(self).model().fault,
            final(self).model().domain == old(self).model().domain,
    {
        match find_otp(&self.otps, &user.localpart, otp) {
            Some(_) => {
                proof {
                    assert(self.model().otps =~= old(self).model().otps.insert(
                        (user.localpart@, otp@),
                    ));
                }
            }
            None => {
                let rec = OtpRec { localpart: user.localpart.clone(), otp: otp.clone() };
                proof {
                    lemma_map_of_push(self.otps@, otp_key(), otp_val(), rec);
                }
                self.otps.push(rec);
                proof {
                    assert(self.model().otps =~= old(self).model().otps.insert(
                        (user.localpart@, otp@),
                    ));
                }
            }
        }
    }

    /// Spend the one-time password: after consumption it reads exactly as one
    /// that was never issued.
    pub fn consume_otp(&mut self, user: &UserId, otp: &String)
        requires
            old(self).inv(),
        ensures
            final(self).inv(),
            final(self).model().otps == old(self).model().otps.remove((user.localpart@, otp@)),
            final(self).model().accounts == old(self).model().accounts,
            final(self).model().devices == old(self).model().devices,
            final(self).model().fault == old(self).model().fault,
            final(self).model().domain == old(self).model().domain,
    {
        match find_otp(&self.otps, &user.localpart, otp) {
            Some(i) => {
                proof {
                    lemma_map_of_swap_remove(self.otps@, otp_key(), otp_val(), i as int);
                }
                let _ = self.otps.swap_remove(i);
                proof {
                    assert(self.model().otps =~= old(self).model().otps.remove(
                        (user.localpart@, otp@),
                    ));
                }
            }
            None => {
                proof {
                    assert(self.model().otps =~= old(self).model().otps.remove(
                        (user.localpart@, otp@),
                    ));
                }
            }
        }
    }

    /// Put the backend into the failure mode of this native fault: until the
    /// fault is cleared, every operation answers as its contract reads that
    /// fault — most surface its normalized error; a zero-row fault reads as
    /// the negative answer of an existence check, the empty result of a
    /// resolution, and the no-op success of a mutation. This is the
    /// fault-injection surface of the test backend.
    pub fn set_fault(&mut self, f: BackendFault)
        requires
            old(self).inv(),
        ensures
            final(self).inv(),
            final(self).model().fault == Some(f@),
            final(self).model().accounts == old(self).model().accounts,
            final(self).model().devices == old(self).model().devices,
            final(self).model().otps == old(self).model().otps,
            final(self).model().domain == old(self).model().domain,
    {
        self.fault = Some(f);
    }

    /// Leave the failure mode.
    pub fn clear_fault(&mut self)
        requires
            old(self).inv(),
        ensures
            final(self).inv(),
            final(self).model().fault is None,
            final(self).model().accounts == old(self).model().accounts,
            final(self).model().devices == old(self).model().devices,
            final(self).model().otps == old(self).model().otps,
            final(self).model().domain == old(self).model().domain,
    {
        self.fault = None;
    }

    /// Inspect one device record: `None` when the device is not registered,
    /// `Some(name)` with its stored display name when it is.
    pub fn device_name(&self, user: &UserId, device_id: &String) -> (r: Option<Option<String>>)
        requires
            self.inv(),
        ensures
            match r {
                Some(n) => self.model().devices.contains_key((user.localpart@, device_id@))
                    && opt_string_view(n) == self.model().devices[(user.localpart@, device_id@)],
                None => !self.model().devices.contains_key((user.localpart@, device_id@)),
            },
    {
        match find_device(&self.devices, &user.localpart, device_id) {
            Some(i) => {
                proof {
                    lemma_map_of_index(self.devices@, dev_key(), dev_val(), i as int);
                }
                match &self.devices[i].display_name {
                    Some(n) => Some(Some(n.clone())),
                    None => Some(None),
                }
            }
            None => None,
        }
    }
}

impl Store for MemStore {
    closed spec fn model(&self) -> StoreModel {
        StoreModel {
            domain: self.domain@,
            accounts: map_of(self.accounts@, acc_key(), acc_val()),
            devices: map_of(self.devices@, dev_key(), dev_val()),
            otps: map_of(self.otps@, otp_key(), otp_val()).dom(),
            fault: match self.fault {
                Some(f) => Some(f@),
                None => None,
            },
        }
    }

    closed spec fn inv(&self) -> bool {
        keys_unique(self.accounts@, acc_key())
            && keys_unique(self.devices@, dev_key())
            && keys_unique(self.otps@, otp_key())
    }

    closed spec fn backend_name(&self) -> Seq<char> {
        "MemStore"@
    }

    fn get_type(&self) -> (r: String) {
        "MemStore".to_owned()
    }

    fn check_username_exists(&self, username: &String) -> (r: Result<bool, Error>) {
        match &self.fault {
            Some(f) => {
                return match f {
                    BackendFault::RowNotFound => Ok(false),
                    _ => Err(Error::from_fault(f)),
                };
            }
            None => {}
        }
        match find_account(&self.accounts, username) {
            Some(i) => {
                proof {
                    lemma_map_of_index(self.accounts@, acc_key(), acc_val(), i as int);
                }
                Ok(true)
            }
            None => Ok(false),
        }
    }

    fn fetch_user_id(&self, ident: &UserIdentifier) -> (r: Result<Option<UserId>, Error>) {
        match &self.fault {
            Some(f) => {
                return match f {
                    // a zero-row condition is the empty resolution result
                    BackendFault::RowNotFound => Ok(None),
                    // resolution may not surface InvalidSyntax: a rejected
                    // operation reads as an unclassified failure here
                    BackendFault::Database => Err(Error {
                        code: ErrorCode::Unknown(
                            "backend rejected the resolution query".to_owned(),
                        ),
                    }),
                    BackendFault::ColumnNotFound => Err(Error {
                        code: ErrorCode::Unknown(
                            "backend rejected the resolution query".to_owned(),
                        ),
                    }),
                    _ => Err(Error::from_fault(f)),
                };
            }
            None => {}
        }
        match ident {
            UserIdentifier::Localpart(l) => match find_account(&self.accounts, l) {
                Some(i) => {
                    proof {
                        lemma_map_of_index(self.accounts@, acc_key(), acc_val(), i as int);
                    }
                    Ok(Some(UserId { localpart: l.clone(), domain: self.domain.clone() }))
                }
                None => Ok(None),
            },
            UserIdentifier::ThirdParty(_) => Ok(None),
        }
    }

    fn fetch_password_hash(&self, user: &UserId) -> (r: Result<String, Error>) {
        match &self.fault {
            Some(f) => {
                return Err(Error::from_fault(f));
            }
            None => {}
        }
        match find_account(&self.accounts, &user.localpart) {
            Some(i) => {
                proof {
                    lemma_map_of_index(self.accounts@, acc_key(), acc_val(), i as int);
                }
                Ok(self.accounts[i].password_hash.clone())
            }
            None => Err(Error { code: ErrorCode::RecordNotFound }),
        }
    }

    fn fetch_display_name(&self, user: &UserId) -> (r: Result<String, Error>) {
        match &self.fault {
            Some(f) => {
                return Err(Error::from_fault(f));
            }
            None => {}
        }
        match find_account(&self.accounts, &user.localpart) {
            Some(i) => {
                proof {
                    lemma_map_of_index(self.accounts@, acc_key(), acc_val(), i as int);
                }
                Ok(self.accounts[i].display_name.clone())
            }
            None => Err(Error { code: ErrorCode::RecordNotFound }),
        }
    }

    fn check_otp_exists(&self, user: &UserId, otp: &String) -> (r: Result<bool, Error>) {
        match &self.fault {
            Some(f) => {
                return match f {
                    BackendFault::RowNotFound => Ok(false),
                    _ => Err(Error::from_fault(f)),
                };
            }
            None => {}
        }
        match find_otp(&self.otps, &user.localpart, otp) {
            Some(i) => {
                proof {
                    lemma_map_of_index(self.otps@, otp_key(), otp_val(), i as int);
                }
                Ok(true)
            }
            None => Ok(false),
        }
    }

    fn check_device_id_exists(&self, user: &UserId, device_id: &String) -> (r: Result<bool, Error>) {
        match &self.fault {
            Some(f) => {
                return match f {
                    BackendFault::RowNotFound => Ok(false),
                    _ => Err(Error::from_fault(f)),
                };
            }
            None => {}
        }
        match find_device(&self.devices, &user.localpart, device_id) {
            Some(i) => {
                proof {
                    lemma_map_of_index(self.devices@, dev_key(), dev_val(), i as int);
                }
                Ok(true)
            }
            None => Ok(false),
        }
    }

    fn remove_device_id(&mut self, device_id: &String, user: &UserId) -> (r: Result<(), Error>) {
        match &self.fault {
            // a zero-row report still means the deletion took effect: carry on
            Some(BackendFault::RowNotFound) => {}
            Some(f) => {
                return Err(Error::from_fault(f));
            }
            None => {}
        }
        match find_device(&self.devices, &user.localpart, device_id) {
            Some(i) => {
                proof {
                    lemma_map_of_swap_remove(self.devices@, dev_key(), dev_val(), i as int);
                }
                let _ = self.devices.swap_remove(i);
            }
            None => {
                proof {
                    assert(map_of(self.devices@, dev_key(), dev_val()) =~= map_of(
                        self.devices@,
                        dev_key(),
                        dev_val(),
                    ).remove((user.localpart@, device_id@)));
                }
            }
        }
        proof {
            assert(self.model() =~= old(self).model().with_devices(
                old(self).model().devices.remove((user.localpart@, device_id@)),
            ));
        }
        Ok(())
    }

    fn remove_all_device_ids(&mut self, user: &UserId) -> (r: Result<(), Error>) {
        match &self.fault {
            // a zero-row report still means the revocation took effect: carry on
            Some(BackendFault::RowNotFound) => {}
            Some(f) => {
                return Err(Error::from_fault(f));
            }
            None => {}
        }
        let ghost dm0 = old(self).model().devices;
        loop
            invariant
                keys_unique(self.devices@, dev_key()),
                self.accounts == old(self).accounts,
                self.otps == old(self).otps,
                self.domain == old(self).domain,
                self.fault == old(self).fault,
                forall|k: (Seq<char>, Seq<char>)|
                    #[trigger] map_of(self.devices@, dev_key(), dev_val()).contains_key(k)
                        ==> dm0.contains_key(k) && map_of(self.devices@, dev_key(), dev_val())[k]
                        == dm0[k],
                forall|k: (Seq<char>, Seq<char>)|
                    k.0 != user.localpart@ && #[trigger] dm0.contains_key(k) ==> map_of(
                        self.devices@,
                        dev_key(),
                        dev_val(),
                    ).contains_key(k),
            ensures
                keys_unique(self.devices@, dev_key()),
                self.accounts == old(self).accounts,
                self.otps == old(self).otps,
                self.domain == old(self).domain,
                self.fault == old(self).fault,
                forall|k: (Seq<char>, Seq<char>)|
                    #[trigger] map_of(self.devices@, dev_key(), dev_val()).contains_key(k)
                        ==> dm0.contains_key(k) && map_of(self.devices@, dev_key(), dev_val())[k]
                        == dm0[k],
                forall|k: (Seq<char>, Seq<char>)|
                    k.0 != user.localpart@ && #[trigger] dm0.contains_key(k) ==> map_of(
                        self.devices@,
                        dev_key(),
                        dev_val(),
                    ).contains_key(k),
                forall|j: int|
                    0 <= j < self.devices@.len() ==> #[trigger] self.devices@[j].localpart@
                        != user.localpart@,
            decreases self.devices@.len(),
        {
            match find_device_owner(&self.devices, &user.localpart) {
                Some(i) => {
                    proof {
                        lemma_map_of_swap_remove(self.devices@, dev_key(), dev_val(), i as int);
                    }
                    let _ = self.devices.swap_remove(i);
                }
                None => {
                    break;
                }
            }
        }
        proof {
            let m1 = map_of(self.devices@, dev_key(), dev_val());
            let m2 = dm0.remove_keys(device_keys_of(user.localpart@));
            assert forall|k: (Seq<char>, Seq<char>)| m1.contains_key(k) implies m2.contains_key(k)
                && m1[k] == m2[k] by {
                assert(k.0 != user.localpart@) by {
                    if k.0 == user.localpart@ {
                        let i = crate::assoc::index_of_key(self.devices@, dev_key(), k);
                        assert(0 <= i < self.devices@.len() && dev_key()(self.devices@[i]) == k);
                    }
                }
            }
            assert forall|k: (Seq<char>, Seq<char>)| m2.contains_key(k) implies m1.contains_key(
                k,
            ) by {}
            assert(m1 =~= m2);
            assert(self.model() =~= old(self).model().with_devices(
                old(self).model().devices.remove_keys(device_keys_of(user.localpart@)),
            ));
        }
        Ok(())
    }

    fn set_device(&mut self, user: &UserId, device_id: &String, display_name: Option<&String>) -> (r: Result<(), Error>) {
        match &self.fault {
            // a zero-row report still means the upsert took effect: carry on
            Some(BackendFault::RowNotFound) => {}
            Some(f) => {
                return Err(Error::from_fault(f));
            }
            None => {}
        }
        match find_device(&self.devices, &user.localpart, device_id) {
            Some(i) => {
                proof {
                    lemma_map_of_swap_remove(self.devices@, dev_key(), dev_val(), i as int);
                }
                let _ = self.devices.swap_remove(i);
            }
            None => {}
        }
        let name = match display_name {
            Some(s) => Some(s.clone()),
            None => None,
        };
        let rec = DeviceRec {
            localpart: user.localpart.clone(),
            device_id: device_id.clone(),
            display_name: name,
        };
        proof {
            lemma_map_of_push(self.devices@, dev_key(), dev_val(), rec);
        }
        self.devices.push(rec);
        proof {
            assert(self.model() =~= old(self).model().with_devices(
                old(self).model().devices.insert(
                    (user.localpart@, device_id@),
                    crate::store::opt_name_view(display_name),
                ),
            ));
        }
        Ok(())
    }
}

} // verus!
