use voice_gateway::api::Blacklist;
use voice_gateway::registry::{
    admit_connection, registration_wait_step, resolve_connection_id, Admission, Registry,
    RegistrationWait, REGISTRATION_RETRY_SECONDS,
};

fn blacklist() -> Blacklist {
    Blacklist { blacklist: vec!["3E0245C352A345278CCE30FD262449CE".to_string()] }
}

#[test]
fn blacklisted_id_rejected_not_found_without_registry_mutation() {
    let registry: Registry<u32> = Registry::new();
    let bad = Some("3E0245C352A345278CCE30FD262449CE".to_string());
    // two attempts with the same blacklisted id: both not-found
    assert!(matches!(admit_connection(&blacklist(), &bad), Admission::RejectNotFound));
    assert!(matches!(admit_connection(&blacklist(), &bad), Admission::RejectNotFound));
    // and the registry was never touched
    assert!(!registry.contains(&"3E0245C352A345278CCE30FD262449CE".to_string()));
}

#[test]
fn ordinary_id_is_accepted() {
    let id = Some("store-42".to_string());
    assert!(matches!(admit_connection(&blacklist(), &id), Admission::Accept));
}

#[test]
fn missing_id_is_rejected() {
    assert!(matches!(admit_connection(&blacklist(), &None), Admission::RejectMissingId));
}

#[test]
fn query_parameter_wins_over_header() {
    assert_eq!(
        resolve_connection_id(Some("from-query".to_string()), Some("from-header".to_string())),
        Some("from-query".to_string())
    );
    assert_eq!(
        resolve_connection_id(None, Some("from-header".to_string())),
        Some("from-header".to_string())
    );
    assert_eq!(resolve_connection_id(None, None), None);
}

#[test]
fn message_connection_rejected_after_five_failed_lookups() {
    // the sibling never registers: four failures wait, the fifth rejects
    for failed in 0u64..4 {
        assert!(matches!(
            registration_wait_step(failed, false),
            RegistrationWait::RetryAfterDelay
        ));
    }
    assert!(matches!(registration_wait_step(4, false), RegistrationWait::Reject));
    assert_eq!(REGISTRATION_RETRY_SECONDS, 5);
}

#[test]
fn message_connection_proceeds_once_sibling_registers() {
    let mut registry: Registry<&'static str> = Registry::new();
    let id = "store-7".to_string();
    let mut failed: u64 = 0;
    let outcome = loop {
        // the audio connection registers while the message side is waiting
        if failed == 2 {
            registry.register(id.clone(), "queue-pair");
        }
        match registration_wait_step(failed, registry.contains(&id)) {
            RegistrationWait::Proceed => break "proceeded",
            RegistrationWait::Reject => break "rejected",
            RegistrationWait::RetryAfterDelay => failed += 1,
        }
    };
    assert_eq!(outcome, "proceeded");
}

#[test]
fn register_lookup_and_replace() {
    let mut registry: Registry<u32> = Registry::new();
    let a = "session-a".to_string();
    let b = "session-b".to_string();
    assert!(registry.lookup(&a).is_none());
    registry.register(a.clone(), 1);
    registry.register(b.clone(), 2);
    assert_eq!(registry.lookup(&a), Some(&1));
    assert_eq!(registry.lookup(&b), Some(&2));
    // re-registration replaces the prior entry for the same id
    registry.register(a.clone(), 3);
    assert_eq!(registry.lookup(&a), Some(&3));
    assert_eq!(registry.lookup(&b), Some(&2));
}

#[test]
fn remove_clears_only_the_named_session() {
    let mut registry: Registry<u32> = Registry::new();
    let a = "session-a".to_string();
    let b = "session-b".to_string();
    registry.register(a.clone(), 1);
    registry.register(b.clone(), 2);
    assert!(registry.remove(&a));
    assert!(!registry.contains(&a));
    assert_eq!(registry.lookup(&b), Some(&2));
    assert!(!registry.remove(&a));
}
