use tcp_console::builder::Builder;
use tcp_console::console::AcceptDecision;
use tcp_console::error::{describe_service_id, Error};
use tcp_console::ensure_newline;

#[test]
fn register_distinct_ids_succeeds() {
    let builder: Builder<&'static str> = Builder::new();
    let builder = builder.subscribe(1, "alpha").unwrap();
    let builder = builder.subscribe(2, "beta").unwrap();
    assert_eq!(builder.subscriptions.entries.len(), 2);
}

#[test]
fn register_duplicate_id_fails_naming_it() {
    let builder: Builder<&'static str> = Builder::new();
    let builder = builder.subscribe(7, "alpha").unwrap();
    let err = builder.subscribe(7, "beta").unwrap_err();
    assert_eq!(err, Error::ServiceIdUsed("7".to_string()));
}

#[test]
fn describe_service_id_is_decimal() {
    assert_eq!(describe_service_id(0), "0");
    assert_eq!(describe_service_id(10), "10");
    assert_eq!(describe_service_id(1234567890), "1234567890");
    assert_eq!(describe_service_id(u64::MAX), "18446744073709551615");
}

#[test]
fn build_without_port_fails() {
    let builder: Builder<&'static str> = Builder::new();
    assert_eq!(builder.build().unwrap_err(), Error::NoBindAddress);
}

#[test]
fn build_with_port_succeeds_and_terminates_welcome() {
    let builder: Builder<&'static str> = Builder::new();
    let console = builder.port(9210).welcome("hello").build().unwrap();
    assert_eq!(console.port, 9210);
    assert_eq!(console.welcome, "hello\n");
    assert!(!console.started);
}

#[test]
fn default_welcome_is_a_bare_newline() {
    let builder: Builder<&'static str> = Builder::new();
    let console = builder.port(1).build().unwrap();
    assert_eq!(console.welcome, "\n");
}

#[test]
fn welcome_already_terminated_is_kept() {
    let builder: Builder<&'static str> = Builder::new();
    let console = builder.port(1).welcome("hi\n").build().unwrap();
    assert_eq!(console.welcome, "hi\n");
}

#[test]
fn ensure_newline_appends_only_when_missing() {
    assert_eq!(ensure_newline("a".to_string()), "a\n");
    assert_eq!(ensure_newline("a\n".to_string()), "a\n");
    assert_eq!(ensure_newline(String::new()), "\n");
}

#[test]
fn spawn_twice_fails_and_keeps_state() {
    let builder: Builder<&'static str> = Builder::new();
    let mut console = builder.port(9211).build().unwrap();
    assert_eq!(console.spawn().unwrap(), 9211);
    assert!(console.started);
    assert_eq!(console.spawn().unwrap_err(), Error::AlreadyStarted);
    assert!(console.started);
    assert_eq!(console.port, 9211);
}

#[test]
fn stop_is_idempotent() {
    let builder: Builder<&'static str> = Builder::new();
    let mut console = builder.port(1).build().unwrap();
    assert!(!console.stop.is_stopped());
    console.stop();
    assert!(console.stop.is_stopped());
    console.stop();
    assert!(console.stop.is_stopped());
}

#[test]
fn no_connection_is_accepted_after_stop() {
    let builder: Builder<&'static str> = Builder::new();
    let console = builder.port(1).build().unwrap();
    assert_eq!(
        console.accept_decision(true, true, true),
        AcceptDecision::StopAccepting
    );
}

#[test]
fn loopback_only_rejects_remote_peers() {
    let builder: Builder<&'static str> = Builder::new();
    let console = builder.port(1).accept_only_localhost().build().unwrap();
    assert_eq!(
        console.accept_decision(false, true, false),
        AcceptDecision::Reject
    );
    assert_eq!(
        console.accept_decision(false, true, true),
        AcceptDecision::Spawn
    );
}

#[test]
fn unknown_peer_address_is_rejected() {
    let builder: Builder<&'static str> = Builder::new();
    let console = builder.port(1).build().unwrap();
    assert_eq!(
        console.accept_decision(false, false, false),
        AcceptDecision::Reject
    );
}

#[test]
fn without_restriction_remote_peers_are_accepted() {
    let builder: Builder<&'static str> = Builder::new();
    let console = builder.port(1).build().unwrap();
    assert_eq!(
        console.accept_decision(false, true, false),
        AcceptDecision::Spawn
    );
}
