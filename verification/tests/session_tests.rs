use tcp_console::codec::encode_envelope;
use tcp_console::registry::Registry;
use tcp_console::session::{Session, SessionCommand, SessionEvent, SessionPhase};

fn two_service_registry() -> Registry<&'static str> {
    let mut registry: Registry<&'static str> = Registry::new();
    registry.register(10, "alpha").unwrap();
    registry.register(20, "beta").unwrap();
    registry
}

#[test]
fn typed_envelope_reaches_exactly_its_service() {
    let registry = two_service_registry();
    let mut session = Session::new();
    let chunk = encode_envelope(20, b"payload");
    let cmd = session.on_event(&registry, SessionEvent::Chunk(chunk));
    assert_eq!(
        cmd,
        SessionCommand::InvokeHandler { index: 1, payload: b"payload".to_vec() }
    );
    assert_eq!(session.phase, SessionPhase::AwaitingTyped { index: 1 });
}

#[test]
fn typed_reply_is_written_verbatim() {
    let registry = two_service_registry();
    let mut session = Session::new();
    session.on_event(&registry, SessionEvent::Chunk(encode_envelope(10, b"ping")));
    let cmd = session.on_handler_result::<String>(Ok(Some(b"pong".to_vec())));
    assert_eq!(cmd, SessionCommand::Write(b"pong".to_vec()));
    assert_eq!(session.phase, SessionPhase::Receiving);
}

#[test]
fn typed_no_reply_writes_nothing() {
    let registry = two_service_registry();
    let mut session = Session::new();
    session.on_event(&registry, SessionEvent::Chunk(encode_envelope(10, b"ping")));
    let cmd = session.on_handler_result::<String>(Ok(None));
    assert_eq!(cmd, SessionCommand::Idle);
}

#[test]
fn typed_handler_error_is_swallowed() {
    let registry = two_service_registry();
    let mut session = Session::new();
    session.on_event(&registry, SessionEvent::Chunk(encode_envelope(10, b"ping")));
    let cmd = session.on_handler_result(Err("handler exploded".to_string()));
    assert_eq!(cmd, SessionCommand::Idle);
    assert_eq!(session.phase, SessionPhase::Receiving);
}

#[test]
fn typed_envelope_for_unknown_service_is_dropped() {
    let registry = two_service_registry();
    let mut session = Session::new();
    let cmd = session.on_event(&registry, SessionEvent::Chunk(encode_envelope(99, b"x")));
    assert_eq!(cmd, SessionCommand::Idle);
    assert_eq!(session.phase, SessionPhase::Receiving);
}

#[test]
fn malformed_chunk_starts_fallback_with_trimmed_text() {
    let registry = two_service_registry();
    let mut session = Session::new();
    let cmd = session.on_event(&registry, SessionEvent::Chunk(b"  status  \n".to_vec()));
    assert_eq!(
        cmd,
        SessionCommand::InvokeWeak { index: 0, text: "status".to_string() }
    );
}

#[test]
fn invalid_utf8_is_decoded_lossily() {
    let registry = two_service_registry();
    let mut session = Session::new();
    let cmd = session.on_event(&registry, SessionEvent::Chunk(vec![0xff, b'h', b'i']));
    assert_eq!(
        cmd,
        SessionCommand::InvokeWeak { index: 0, text: "\u{fffd}hi".to_string() }
    );
}

#[test]
fn first_fallback_success_wins_and_stops_iteration() {
    let registry = two_service_registry();
    let mut session = Session::new();
    session.on_event(&registry, SessionEvent::Chunk(b"status".to_vec()));
    let cmd = session.on_weak_result::<&str, String>(&registry, Ok(Some("all good".to_string())));
    assert_eq!(cmd, SessionCommand::WriteText("all good\n".to_string()));
    // back to receiving: the second subscription is never invoked for this chunk
    assert_eq!(session.phase, SessionPhase::Receiving);
}

#[test]
fn fallback_reply_keeps_existing_newline() {
    let registry = two_service_registry();
    let mut session = Session::new();
    session.on_event(&registry, SessionEvent::Chunk(b"status".to_vec()));
    let cmd = session.on_weak_result::<&str, String>(&registry, Ok(Some("done\n".to_string())));
    assert_eq!(cmd, SessionCommand::WriteText("done\n".to_string()));
}

#[test]
fn declining_subscription_passes_to_the_next() {
    let registry = two_service_registry();
    let mut session = Session::new();
    session.on_event(&registry, SessionEvent::Chunk(b"status".to_vec()));
    let cmd = session.on_weak_result::<&str, String>(&registry, Ok(None));
    assert_eq!(
        cmd,
        SessionCommand::InvokeWeak { index: 1, text: "status".to_string() }
    );
}

#[test]
fn failing_subscription_does_not_block_later_ones() {
    let registry = two_service_registry();
    let mut session = Session::new();
    session.on_event(&registry, SessionEvent::Chunk(b"status".to_vec()));
    let cmd = session.on_weak_result(&registry, Err("broken".to_string()));
    assert_eq!(
        cmd,
        SessionCommand::InvokeWeak { index: 1, text: "status".to_string() }
    );
}

#[test]
fn when_no_subscription_accepts_nothing_is_written() {
    let registry = two_service_registry();
    let mut session = Session::new();
    session.on_event(&registry, SessionEvent::Chunk(b"status".to_vec()));
    let cmd = session.on_weak_result::<&str, String>(&registry, Ok(None));
    assert!(matches!(cmd, SessionCommand::InvokeWeak { .. }));
    let cmd = session.on_weak_result::<&str, String>(&registry, Ok(None));
    assert_eq!(cmd, SessionCommand::Idle);
    assert_eq!(session.phase, SessionPhase::Receiving);
}

#[test]
fn exactly_one_reply_even_when_all_would_accept() {
    let registry = two_service_registry();
    let mut session = Session::new();
    let mut writes = 0;
    let mut cmd = session.on_event(&registry, SessionEvent::Chunk(b"who".to_vec()));
    // every subscription would answer; drive until the machine goes idle
    loop {
        match cmd {
            SessionCommand::InvokeWeak { .. } => {
                cmd = session
                    .on_weak_result::<&str, String>(&registry, Ok(Some("me".to_string())));
            }
            SessionCommand::WriteText(_) => {
                writes += 1;
                break;
            }
            other => panic!("unexpected command {other:?}"),
        }
    }
    assert_eq!(writes, 1);
    assert_eq!(session.phase, SessionPhase::Receiving);
}

#[test]
fn empty_registry_fallback_writes_nothing() {
    let registry: Registry<&'static str> = Registry::new();
    let mut session = Session::new();
    let cmd = session.on_event(&registry, SessionEvent::Chunk(b"anyone there".to_vec()));
    assert_eq!(cmd, SessionCommand::Idle);
    assert_eq!(session.phase, SessionPhase::Receiving);
}

#[test]
fn read_error_keeps_session_alive() {
    let registry = two_service_registry();
    let mut session = Session::new();
    let cmd = session.on_event(&registry, SessionEvent::ReadError);
    assert_eq!(cmd, SessionCommand::Idle);
    assert_eq!(session.phase, SessionPhase::Receiving);
}

#[test]
fn peer_close_ends_session() {
    let registry = two_service_registry();
    let mut session = Session::new();
    let cmd = session.on_event(&registry, SessionEvent::PeerClosed);
    assert_eq!(cmd, SessionCommand::Close);
    assert_eq!(session.phase, SessionPhase::Closed);
}

#[test]
fn shutdown_signal_ends_session() {
    let registry = two_service_registry();
    let mut session = Session::new();
    let cmd = session.on_event(&registry, SessionEvent::Stopped);
    assert_eq!(cmd, SessionCommand::Close);
    assert_eq!(session.phase, SessionPhase::Closed);
}
