use wan_reconnect::job::{Action, Event, Job, Operation};
use wan_reconnect::reconnect::{start_reconnect, start_with};
use wan_reconnect::registry::{echo, Echo, Registry};

fn run_to_delivery(mut job: Job, events: Vec<Event>) -> Option<String> {
    for event in events {
        let (next, action) = job.step(event);
        job = next;
        if let Action::Deliver(message) = action {
            return Some(message);
        }
    }
    None
}

#[test]
fn started_job_is_registered_before_it_runs() {
    let mut registry = Registry::new();
    let started = start_reconnect(&mut registry, "pw".to_string());
    assert_eq!(started.action, Action::Sleep(1));
    assert!(!started.job.is_finished());
    assert_eq!(echo(&started.id, &mut registry), Echo::Pending);
}

#[test]
fn minted_identifier_is_url_safe() {
    let mut registry = Registry::new();
    let started = start_reconnect(&mut registry, "pw".to_string());
    assert_eq!(started.id.len(), 36);
    assert!(started
        .id
        .chars()
        .all(|c| c == '-' || c.is_ascii_digit() || ('a'..='f').contains(&c)));
}

#[test]
fn minted_identifiers_differ() {
    let mut registry = Registry::new();
    let first = start_reconnect(&mut registry, "pw".to_string());
    let second = start_reconnect(&mut registry, "pw".to_string());
    assert_ne!(first.id, second.id);
    assert!(registry.deliver(&first.id, "Done".to_string()));
    assert_eq!(echo(&second.id, &mut registry), Echo::Pending);
    assert_eq!(echo(&first.id, &mut registry), Echo::Message("Done".to_string()));
    assert_eq!(echo(&second.id, &mut registry), Echo::Pending);
}

#[test]
fn reconnect_end_to_end() {
    let mut registry = Registry::new();
    let started = start_with(&mut registry, "J1".to_string(), "pw".to_string());
    assert_eq!(started.id, "J1");
    assert_eq!(echo("J1", &mut registry), Echo::Pending);
    let (job, action) = started.job.step(Event::Slept);
    assert_eq!(action, Action::Login("pw".to_string()));
    let (job, action) = job.step(Event::LoggedIn(Ok("abc".to_string())));
    assert_eq!(action, Action::SwitchWan("abc".to_string(), Operation::Disconnect));
    let message = run_to_delivery(
        job,
        vec![Event::Switched(Ok(())), Event::Slept, Event::Switched(Ok(()))],
    )
    .unwrap();
    assert!(registry.deliver("J1", message));
    assert_eq!(echo("J1", &mut registry), Echo::Message("Done".to_string()));
    assert_eq!(echo("J1", &mut registry), Echo::NotFound);
}

#[test]
fn failed_disconnect_is_what_the_poller_reads() {
    let mut registry = Registry::new();
    let started = start_with(&mut registry, "J2".to_string(), "pw".to_string());
    let message = run_to_delivery(
        started.job,
        vec![
            Event::Slept,
            Event::LoggedIn(Ok("abc".to_string())),
            Event::Switched(Err("router said no".to_string())),
        ],
    )
    .unwrap();
    assert!(registry.deliver("J2", message));
    assert_eq!(echo("J2", &mut registry), Echo::Message("router said no".to_string()));
    assert_eq!(echo("J2", &mut registry), Echo::NotFound);
}
