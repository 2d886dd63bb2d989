use identity_store::error::{BackendFault, ErrorCode};
use identity_store::ids::{UserId, UserIdentifier};
use identity_store::mem::MemStore;
use identity_store::store::Store;

fn alice() -> UserId {
    UserId::new("alice".to_string(), "ruma.io".to_string())
}

fn store_with_alice() -> MemStore {
    let mut st = MemStore::new("ruma.io".to_string());
    st.add_account(
        &"alice".to_string(),
        &"Alice".to_string(),
        &"$2b$hash".to_string(),
    );
    st
}

#[test]
fn username_exists_tracks_creation() {
    let mut st = MemStore::new("ruma.io".to_string());
    assert!(matches!(
        st.check_username_exists(&"alice".to_string()),
        Ok(false)
    ));
    st.add_account(
        &"alice".to_string(),
        &"Alice".to_string(),
        &"$2b$hash".to_string(),
    );
    assert!(matches!(
        st.check_username_exists(&"alice".to_string()),
        Ok(true)
    ));
    assert!(matches!(
        st.check_username_exists(&"bob".to_string()),
        Ok(false)
    ));
}

#[test]
fn remove_device_id_is_idempotent() {
    let mut st = store_with_alice();
    let user = alice();
    let dev = "dev1".to_string();
    assert!(matches!(
        st.set_device(&user, &dev, Some(&"Phone".to_string())),
        Ok(())
    ));
    assert!(matches!(st.remove_device_id(&dev, &user), Ok(())));
    assert!(matches!(st.check_device_id_exists(&user, &dev), Ok(false)));
    assert!(matches!(st.remove_device_id(&dev, &user), Ok(())));
    assert!(matches!(st.check_device_id_exists(&user, &dev), Ok(false)));
}

#[test]
fn remove_all_device_ids_revokes_every_device() {
    let mut st = store_with_alice();
    let user = alice();
    st.add_account(
        &"bob".to_string(),
        &"Bob".to_string(),
        &"$2b$other".to_string(),
    );
    let bob = UserId::new("bob".to_string(), "ruma.io".to_string());
    assert!(matches!(
        st.set_device(&user, &"dev1".to_string(), Some(&"Phone".to_string())),
        Ok(())
    ));
    assert!(matches!(st.set_device(&user, &"dev2".to_string(), None), Ok(())));
    assert!(matches!(
        st.set_device(&bob, &"dev1".to_string(), Some(&"Tablet".to_string())),
        Ok(())
    ));
    assert!(matches!(st.remove_all_device_ids(&user), Ok(())));
    assert!(matches!(
        st.check_device_id_exists(&user, &"dev1".to_string()),
        Ok(false)
    ));
    assert!(matches!(
        st.check_device_id_exists(&user, &"dev2".to_string()),
        Ok(false)
    ));
    // bob's device with the colliding id survives: devices are scoped by account
    assert!(matches!(
        st.check_device_id_exists(&bob, &"dev1".to_string()),
        Ok(true)
    ));
    // revoking again, with nothing left, still succeeds
    assert!(matches!(st.remove_all_device_ids(&user), Ok(())));
}

#[test]
fn set_device_is_idempotent_under_repetition() {
    let mut st = store_with_alice();
    let user = alice();
    let dev = "dev1".to_string();
    let name = "Phone".to_string();
    for _ in 0..3 {
        assert!(matches!(st.set_device(&user, &dev, Some(&name)), Ok(())));
    }
    assert_eq!(st.device_name(&user, &dev), Some(Some("Phone".to_string())));
}

#[test]
fn set_device_updates_instead_of_duplicating() {
    let mut st = store_with_alice();
    let user = alice();
    let dev = "dev1".to_string();
    assert!(matches!(
        st.set_device(&user, &dev, Some(&"Phone".to_string())),
        Ok(())
    ));
    assert!(matches!(
        st.set_device(&user, &dev, Some(&"Laptop".to_string())),
        Ok(())
    ));
    assert_eq!(st.device_name(&user, &dev), Some(Some("Laptop".to_string())));
    // one removal leaves nothing of the pair: there was exactly one record
    assert!(matches!(st.remove_device_id(&dev, &user), Ok(())));
    assert_eq!(st.device_name(&user, &dev), None);
}

#[test]
fn set_device_without_name_stores_none() {
    let mut st = store_with_alice();
    let user = alice();
    let dev = "dev9".to_string();
    assert!(matches!(st.set_device(&user, &dev, None), Ok(())));
    assert_eq!(st.device_name(&user, &dev), Some(None));
}

#[test]
fn otp_absent_and_consumed_read_false() {
    let mut st = store_with_alice();
    let user = alice();
    let otp = "123456".to_string();
    // never issued
    assert!(matches!(st.check_otp_exists(&user, &otp), Ok(false)));
    st.issue_otp(&user, &otp);
    assert!(matches!(st.check_otp_exists(&user, &otp), Ok(true)));
    st.consume_otp(&user, &otp);
    // consumed reads exactly as never issued
    assert!(matches!(st.check_otp_exists(&user, &otp), Ok(false)));
    // a zero-row fault during the existence check is still a successful false
    st.set_fault(BackendFault::RowNotFound);
    assert!(matches!(st.check_otp_exists(&user, &otp), Ok(false)));
}

#[test]
fn fetch_display_name_and_password_hash() {
    let st = store_with_alice();
    let user = alice();
    assert_eq!(st.fetch_display_name(&user).ok(), Some("Alice".to_string()));
    assert_eq!(
        st.fetch_password_hash(&user).ok(),
        Some("$2b$hash".to_string())
    );
    let ghost_user = UserId::new("nobody".to_string(), "ruma.io".to_string());
    match st.fetch_display_name(&ghost_user) {
        Err(e) => assert!(matches!(e.code, ErrorCode::RecordNotFound)),
        Ok(_) => panic!("lookup of a missing account must fail"),
    }
    match st.fetch_password_hash(&ghost_user) {
        Err(e) => assert!(matches!(e.code, ErrorCode::RecordNotFound)),
        Ok(_) => panic!("lookup of a missing account must fail"),
    }
}

#[test]
fn fetch_user_id_resolves_localparts_only() {
    let st = store_with_alice();
    match st.fetch_user_id(&UserIdentifier::Localpart("alice".to_string())) {
        Ok(Some(u)) => {
            assert_eq!(u.localpart, "alice".to_string());
            assert_eq!(u.domain, "ruma.io".to_string());
        }
        _ => panic!("a registered localpart must resolve"),
    }
    assert!(matches!(
        st.fetch_user_id(&UserIdentifier::Localpart("bob".to_string())),
        Ok(None)
    ));
    assert!(matches!(
        st.fetch_user_id(&UserIdentifier::ThirdParty("alice@example.org".to_string())),
        Ok(None)
    ));
}

#[test]
fn get_type_names_the_backend() {
    let st = MemStore::new("ruma.io".to_string());
    assert_eq!(st.get_type(), "MemStore".to_string());
}

#[test]
fn scenario_register_alice_device_lifecycle() {
    let mut st = MemStore::new("ruma.io".to_string());
    st.add_account(
        &"alice".to_string(),
        &"alice".to_string(),
        &"$2b$hash".to_string(),
    );
    let user = alice();
    assert!(matches!(
        st.check_username_exists(&"alice".to_string()),
        Ok(true)
    ));
    assert!(matches!(
        st.check_device_id_exists(&user, &"dev1".to_string()),
        Ok(false)
    ));
    assert!(matches!(
        st.set_device(&user, &"dev1".to_string(), Some(&"Phone".to_string())),
        Ok(())
    ));
    assert!(matches!(
        st.check_device_id_exists(&user, &"dev1".to_string()),
        Ok(true)
    ));
    assert!(matches!(st.remove_all_device_ids(&user), Ok(())));
    assert!(matches!(
        st.check_device_id_exists(&user, &"dev1".to_string()),
        Ok(false)
    ));
}
