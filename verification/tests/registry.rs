use peer_registry::errors::{to_error_core, ProviderError, SUCCESS_CODE};
use peer_registry::registry::{
    AccessContext, GetStatusServiceResult, ProviderServiceResult, Registry, Status,
};

fn ctx(caller: &str, owner: &str) -> AccessContext {
    AccessContext { caller_id: caller.to_string(), owner_id: owner.to_string() }
}

#[test]
fn register_idempotent() {
    let mut r = Registry::new();
    let owner = ctx("O", "O");
    assert_eq!(r.register(&owner, "A".to_string()), Ok(()));
    assert_eq!(r.register(&owner, "A".to_string()), Ok(()));
    assert!(r.get_status(&ctx("A", "O")).unwrap().is_registered);
}

#[test]
fn remove_absent_succeeds() {
    let mut r = Registry::new();
    let owner = ctx("O", "O");
    assert_eq!(r.remove(&owner, "ghost-peer".to_string()), Ok(()));
    assert!(!r.get_status(&ctx("ghost-peer", "O")).unwrap().is_registered);
}

#[test]
fn delegated_admission() {
    let mut r = Registry::new();
    assert_eq!(r.register(&ctx("O", "O"), "A".to_string()), Ok(()));
    // A is registered, not the owner, yet may admit B.
    assert_eq!(r.register(&ctx("A", "O"), "B".to_string()), Ok(()));
    assert!(r.get_status(&ctx("B", "O")).unwrap().is_registered);
    // C is neither the owner nor registered: rejected, D untouched.
    assert_eq!(
        r.register(&ctx("C", "O"), "D".to_string()),
        Err(ProviderError::Unauthorized)
    );
    assert!(!r.get_status(&ctx("D", "O")).unwrap().is_registered);
}

#[test]
fn status_default_false() {
    let r = Registry::new();
    assert!(!r.get_status(&ctx("never-registered", "O")).unwrap().is_registered);
    assert!(!r.get_status(&ctx("O", "O")).unwrap().is_registered);
}

#[test]
fn scenario_owner_chain() {
    let mut r = Registry::new();
    assert_eq!(r.register(&ctx("O", "O"), "A".to_string()), Ok(()));
    assert_eq!(r.get_status(&ctx("A", "O")), Ok(Status { is_registered: true }));
    assert_eq!(r.register(&ctx("A", "O"), "B".to_string()), Ok(()));
    assert_eq!(
        r.register(&ctx("X", "O"), "Y".to_string()),
        Err(ProviderError::Unauthorized)
    );
    assert_eq!(r.get_status(&ctx("Y", "O")), Ok(Status { is_registered: false }));
    assert_eq!(r.remove(&ctx("O", "O"), "A".to_string()), Ok(()));
    assert_eq!(r.get_status(&ctx("A", "O")), Ok(Status { is_registered: false }));
    // No de-registration cascade: B stays registered after A is removed.
    assert_eq!(r.get_status(&ctx("B", "O")), Ok(Status { is_registered: true }));
}

#[test]
fn unauthorized_remove_rejected() {
    let mut r = Registry::new();
    assert_eq!(r.register(&ctx("O", "O"), "A".to_string()), Ok(()));
    assert_eq!(
        r.remove(&ctx("X", "O"), "A".to_string()),
        Err(ProviderError::Unauthorized)
    );
    assert!(r.get_status(&ctx("A", "O")).unwrap().is_registered);
}

#[test]
fn empty_peer_id_rejected() {
    let mut r = Registry::new();
    assert_eq!(
        r.register(&ctx("O", "O"), String::new()),
        Err(ProviderError::InvalidArgument)
    );
    assert_eq!(
        r.remove(&ctx("O", "O"), String::new()),
        Err(ProviderError::InvalidArgument)
    );
}

#[test]
fn error_codes_stable() {
    assert_eq!(SUCCESS_CODE, 0);
    assert_eq!(to_error_core(&ProviderError::StorageFailure), 1);
    assert_eq!(to_error_core(&ProviderError::CorruptedRecord), 2);
    assert_eq!(to_error_core(&ProviderError::Unauthorized), 3);
    assert_eq!(to_error_core(&ProviderError::InvalidArgument), 4);
}

#[test]
fn error_messages_distinct() {
    let kinds = [
        ProviderError::StorageFailure,
        ProviderError::CorruptedRecord,
        ProviderError::Unauthorized,
        ProviderError::InvalidArgument,
    ];
    for e in &kinds {
        assert!(!e.message().is_empty());
    }
    assert_eq!(
        ProviderError::Unauthorized.message(),
        "caller is neither the owner nor a registered peer"
    );
}

#[test]
fn provider_service_result_from_ok() {
    let r = ProviderServiceResult::from(Ok(()));
    assert_eq!(r.ret_code, SUCCESS_CODE);
    assert_eq!(r.err_msg, "");
}

#[test]
fn provider_service_result_from_errors() {
    let kinds = [
        (ProviderError::StorageFailure, 1),
        (ProviderError::CorruptedRecord, 2),
        (ProviderError::Unauthorized, 3),
        (ProviderError::InvalidArgument, 4),
    ];
    for (e, code) in kinds {
        let r = ProviderServiceResult::from(Err(e));
        assert_eq!(r.ret_code, code);
        assert_eq!(r.err_msg, e.message());
    }
}

#[test]
fn get_status_service_result_from() {
    let ok_true = GetStatusServiceResult::from(Ok(true));
    assert_eq!(ok_true.ret_code, SUCCESS_CODE);
    assert_eq!(ok_true.err_msg, "");
    assert!(ok_true.status.is_registered);

    let ok_false = GetStatusServiceResult::from(Ok(false));
    assert!(!ok_false.status.is_registered);

    let err = GetStatusServiceResult::from(Err(ProviderError::StorageFailure));
    assert_eq!(err.ret_code, 1);
    assert_eq!(err.err_msg, ProviderError::StorageFailure.message());
    assert!(!err.status.is_registered);
}
