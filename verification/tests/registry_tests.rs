use wan_reconnect::registry::{echo, Echo, Registry};

#[test]
fn unknown_identifier_is_not_found() {
    let mut registry = Registry::new();
    assert_eq!(echo("nobody", &mut registry), Echo::NotFound);
    assert_eq!(registry.poll("nobody"), Echo::NotFound);
    assert!(!registry.contains("nobody"));
}

#[test]
fn registered_job_is_pending_until_delivery() {
    let mut registry = Registry::new();
    registry.register("J1".to_string());
    assert!(registry.contains("J1"));
    assert_eq!(echo("J1", &mut registry), Echo::Pending);
    assert_eq!(echo("J1", &mut registry), Echo::Pending);
    assert!(registry.contains("J1"));
}

#[test]
fn message_is_read_exactly_once() {
    let mut registry = Registry::new();
    registry.register("J1".to_string());
    assert!(registry.deliver("J1", "Done".to_string()));
    assert_eq!(echo("J1", &mut registry), Echo::Message("Done".to_string()));
    assert_eq!(echo("J1", &mut registry), Echo::NotFound);
    assert!(!registry.contains("J1"));
}

#[test]
fn second_delivery_is_refused() {
    let mut registry = Registry::new();
    registry.register("J1".to_string());
    assert!(registry.deliver("J1", "first".to_string()));
    assert!(!registry.deliver("J1", "second".to_string()));
    assert_eq!(registry.poll("J1"), Echo::Message("first".to_string()));
}

#[test]
fn delivery_to_unknown_identifier_is_refused() {
    let mut registry = Registry::new();
    assert!(!registry.deliver("J1", "Done".to_string()));
    assert_eq!(registry.poll("J1"), Echo::NotFound);
}

#[test]
fn delivery_after_read_is_refused() {
    let mut registry = Registry::new();
    registry.register("J1".to_string());
    assert!(registry.deliver("J1", "Done".to_string()));
    assert_eq!(registry.poll("J1"), Echo::Message("Done".to_string()));
    assert!(!registry.deliver("J1", "again".to_string()));
    assert_eq!(registry.poll("J1"), Echo::NotFound);
}

#[test]
fn registering_again_starts_over() {
    let mut registry = Registry::new();
    registry.register("J1".to_string());
    assert!(registry.deliver("J1", "old".to_string()));
    registry.register("J1".to_string());
    assert_eq!(registry.poll("J1"), Echo::Pending);
    assert!(registry.deliver("J1", "new".to_string()));
    assert_eq!(registry.poll("J1"), Echo::Message("new".to_string()));
    assert_eq!(registry.poll("J1"), Echo::NotFound);
}

#[test]
fn jobs_are_tracked_independently() {
    let mut registry = Registry::new();
    registry.register("A".to_string());
    registry.register("B".to_string());
    registry.register("C".to_string());
    assert!(registry.deliver("B", "b failed".to_string()));
    assert_eq!(registry.poll("A"), Echo::Pending);
    assert_eq!(registry.poll("C"), Echo::Pending);
    assert_eq!(registry.poll("B"), Echo::Message("b failed".to_string()));
    assert_eq!(registry.poll("B"), Echo::NotFound);
    assert!(registry.deliver("A", "Done".to_string()));
    assert!(registry.deliver("C", "c failed".to_string()));
    assert_eq!(registry.poll("C"), Echo::Message("c failed".to_string()));
    assert_eq!(registry.poll("A"), Echo::Message("Done".to_string()));
    assert_eq!(registry.poll("A"), Echo::NotFound);
    assert_eq!(registry.poll("C"), Echo::NotFound);
}

#[test]
fn empty_identifier_is_an_identifier() {
    let mut registry = Registry::new();
    assert_eq!(registry.poll(""), Echo::NotFound);
    registry.register(String::new());
    assert_eq!(registry.poll(""), Echo::Pending);
    assert!(registry.deliver("", String::new()));
    assert_eq!(registry.poll(""), Echo::Message(String::new()));
}
