use identity_store::consumer::{availability_of, whoami, Availability};
use identity_store::error::{BackendFault, Error, ErrorCode};
use identity_store::ids::{Principal, UserId, UserIdentifier};
use identity_store::mem::MemStore;
use identity_store::store::Store;

#[test]
fn every_native_fault_maps_to_exactly_one_kind() {
    assert!(matches!(
        Error::from_fault(&BackendFault::Io).code,
        ErrorCode::ConnectionFailed
    ));
    assert!(matches!(
        Error::from_fault(&BackendFault::PoolClosed).code,
        ErrorCode::ConnectionFailed
    ));
    assert!(matches!(
        Error::from_fault(&BackendFault::PoolTimedOut).code,
        ErrorCode::ConnectionFailed
    ));
    assert!(matches!(
        Error::from_fault(&BackendFault::RowNotFound).code,
        ErrorCode::RecordNotFound
    ));
    assert!(matches!(
        Error::from_fault(&BackendFault::Database).code,
        ErrorCode::InvalidSyntax
    ));
    assert!(matches!(
        Error::from_fault(&BackendFault::ColumnNotFound).code,
        ErrorCode::InvalidSyntax
    ));
    match Error::from_fault(&BackendFault::Other("socket closed by peer".to_string())).code {
        ErrorCode::Unknown(msg) => assert_eq!(msg, "socket closed by peer".to_string()),
        _ => panic!("an unclassified fault must keep its diagnostic message"),
    }
}

#[test]
fn injected_connection_failure_surfaces_as_connection_failed() {
    let mut st = MemStore::new("ruma.io".to_string());
    st.add_account(&"alice".to_string(), &"Alice".to_string(), &"h".to_string());
    st.set_fault(BackendFault::Io);
    match st.check_username_exists(&"alice".to_string()) {
        Err(e) => assert!(matches!(e.code, ErrorCode::ConnectionFailed)),
        Ok(_) => panic!("a connection failure must surface"),
    }
    let user = UserId::new("alice".to_string(), "ruma.io".to_string());
    match st.set_device(&user, &"dev1".to_string(), None) {
        Err(e) => assert!(matches!(e.code, ErrorCode::ConnectionFailed)),
        Ok(_) => panic!("a connection failure must surface"),
    }
    // the failed mutation left no record behind
    st.clear_fault();
    assert!(matches!(
        st.check_device_id_exists(&user, &"dev1".to_string()),
        Ok(false)
    ));
}

#[test]
fn injected_zero_row_fault_is_record_not_found_on_lookups_only() {
    let mut st = MemStore::new("ruma.io".to_string());
    st.add_account(&"alice".to_string(), &"Alice".to_string(), &"h".to_string());
    st.set_fault(BackendFault::RowNotFound);
    let user = UserId::new("alice".to_string(), "ruma.io".to_string());
    // a lookup surfaces the missing row as an error
    match st.fetch_display_name(&user) {
        Err(e) => assert!(matches!(e.code, ErrorCode::RecordNotFound)),
        Ok(_) => panic!("a zero-row lookup must fail"),
    }
    // existence checks never surface RecordNotFound: absence is false
    assert!(matches!(
        st.check_username_exists(&"alice".to_string()),
        Ok(false)
    ));
    assert!(matches!(
        st.check_device_id_exists(&user, &"dev1".to_string()),
        Ok(false)
    ));
    assert!(matches!(
        st.check_otp_exists(&user, &"123456".to_string()),
        Ok(false)
    ));
}

#[test]
fn zero_row_fault_is_a_mutation_no_op_success() {
    let mut st = MemStore::new("ruma.io".to_string());
    st.add_account(&"alice".to_string(), &"Alice".to_string(), &"h".to_string());
    let user = UserId::new("alice".to_string(), "ruma.io".to_string());
    // mutations error with backend/connection failures only: a zero-row
    // report is their no-op success, and the operation still takes effect
    st.set_fault(BackendFault::RowNotFound);
    assert!(matches!(
        st.set_device(&user, &"dev1".to_string(), Some(&"Phone".to_string())),
        Ok(())
    ));
    st.clear_fault();
    assert!(matches!(
        st.check_device_id_exists(&user, &"dev1".to_string()),
        Ok(true)
    ));
    st.set_fault(BackendFault::RowNotFound);
    assert!(matches!(st.remove_device_id(&"dev1".to_string(), &user), Ok(())));
    assert!(matches!(st.remove_all_device_ids(&user), Ok(())));
    st.clear_fault();
    assert!(matches!(
        st.check_device_id_exists(&user, &"dev1".to_string()),
        Ok(false)
    ));
}

#[test]
fn resolution_fails_with_connection_failed_or_unknown_only() {
    let mut st = MemStore::new("ruma.io".to_string());
    st.add_account(&"alice".to_string(), &"Alice".to_string(), &"h".to_string());
    let alice = UserIdentifier::Localpart("alice".to_string());
    // a rejected operation surfaces as Unknown here, never InvalidSyntax
    st.set_fault(BackendFault::Database);
    match st.fetch_user_id(&alice) {
        Err(e) => assert!(matches!(e.code, ErrorCode::Unknown(_))),
        Ok(_) => panic!("an injected fault must surface"),
    }
    st.set_fault(BackendFault::Io);
    match st.fetch_user_id(&alice) {
        Err(e) => assert!(matches!(e.code, ErrorCode::ConnectionFailed)),
        Ok(_) => panic!("an injected fault must surface"),
    }
    // a zero-row condition is the empty resolution result, not an error
    st.set_fault(BackendFault::RowNotFound);
    assert!(matches!(st.fetch_user_id(&alice), Ok(None)));
}

#[test]
fn injected_faults_normalize_per_kind_and_clear() {
    let mut st = MemStore::new("ruma.io".to_string());
    st.add_account(&"alice".to_string(), &"Alice".to_string(), &"h".to_string());
    st.set_fault(BackendFault::Database);
    match st.check_username_exists(&"alice".to_string()) {
        Err(e) => assert!(matches!(e.code, ErrorCode::InvalidSyntax)),
        Ok(_) => panic!("a rejected operation must surface"),
    }
    st.set_fault(BackendFault::Other("disk on fire".to_string()));
    match st.check_username_exists(&"alice".to_string()) {
        Err(e) => match e.code {
            ErrorCode::Unknown(msg) => assert_eq!(msg, "disk on fire".to_string()),
            _ => panic!("an unclassified fault must surface as Unknown"),
        },
        Ok(_) => panic!("an unclassified fault must surface"),
    }
    st.clear_fault();
    assert!(matches!(
        st.check_username_exists(&"alice".to_string()),
        Ok(true)
    ));
}

#[test]
fn availability_decision_follows_the_store_answer() {
    assert!(matches!(availability_of(&Ok(false)), Availability::Available));
    assert!(matches!(availability_of(&Ok(true)), Availability::InUse));
    let err: Result<bool, Error> = Err(Error::from_fault(&BackendFault::Io));
    assert!(matches!(availability_of(&err), Availability::Failed));
}

#[test]
fn whoami_reports_the_principal_account() {
    let principal = Principal {
        user: UserId::new("alice".to_string(), "ruma.io".to_string()),
        device_id: Some("dev1".to_string()),
    };
    let u = whoami(&principal);
    assert_eq!(u.localpart, "alice".to_string());
    assert_eq!(u.domain, "ruma.io".to_string());
}
