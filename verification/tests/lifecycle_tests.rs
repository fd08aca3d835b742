use reverseproxy::acceptor::AcceptDecision;
use reverseproxy::acceptor::Acceptor;
use reverseproxy::classify::TransferError;
use reverseproxy::classify::Verdict;
use reverseproxy::classify::classify;
use reverseproxy::config::ForwardAddr;
use reverseproxy::config::ListenAddr;
use reverseproxy::logger::Logger;
use reverseproxy::logger::format_u64;
use reverseproxy::proxy::DialPlan;
use reverseproxy::proxy::ReverseProxy;
use reverseproxy::relay::Pump;
use reverseproxy::relay::PumpAction;
use reverseproxy::relay::PumpState;
use reverseproxy::relay::ReadOutcome;
use reverseproxy::relay::RelayStatus;
use reverseproxy::relay::relay_status;

#[test]
fn connection_identifiers_are_fresh_and_monotonic() {
    let mut acceptor = Acceptor::new();
    let mut seen: Vec<u64> = Vec::new();
    for _ in 0..50 {
        match acceptor.on_accept_result(true) {
            AcceptDecision::Dispatch(id) => seen.push(id),
            AcceptDecision::Stop => panic!("a successful accept must be dispatched"),
        }
    }
    for (k, id) in seen.iter().enumerate() {
        assert_eq!(*id, k as u64);
    }
    for j in 0..seen.len() {
        for k in (j + 1)..seen.len() {
            assert_ne!(seen[j], seen[k]);
        }
    }
}

#[test]
fn accept_failure_stops_the_loop() {
    let mut acceptor = Acceptor::new();
    assert!(matches!(
        acceptor.on_accept_result(true),
        AcceptDecision::Dispatch(0)
    ));
    assert_eq!(acceptor.on_accept_result(false), AcceptDecision::Stop);
    assert_eq!(acceptor.next_id, 1);
}

/// Relay one connection's payload through a fresh pump pair, as the
/// relay task for that connection would.
fn relay_payload(payload: &[u8]) -> (Vec<u8>, RelayStatus) {
    let mut forward = Pump::new();
    let mut backward = Pump::new();
    let mut sink: Vec<u8> = Vec::new();
    match forward.on_read(ReadOutcome::Data(payload.to_vec())) {
        PumpAction::Write(w) => {
            sink.extend_from_slice(&w);
            assert!(matches!(forward.on_write_result(true), PumpAction::ReadMore));
        }
        _ => panic!("a chunk must be written through"),
    }
    assert!(matches!(
        forward.on_read(ReadOutcome::Eof),
        PumpAction::Shutdown
    ));
    forward.on_shutdown_result(true);
    assert!(matches!(
        backward.on_read(ReadOutcome::Eof),
        PumpAction::Shutdown
    ));
    backward.on_shutdown_result(true);
    (sink, relay_status(&forward, &backward))
}

#[test]
fn concurrent_connections_are_isolated() {
    // Fifty connections with distinct payloads; the dial of one of them
    // is refused. The failure is classified local and every other
    // connection relays its own bytes unaffected.
    let mut acceptor = Acceptor::new();
    let refused: u64 = 17;
    let mut completed: usize = 0;
    for _ in 0..50 {
        let id = match acceptor.on_accept_result(true) {
            AcceptDecision::Dispatch(id) => id,
            AcceptDecision::Stop => panic!("a successful accept must be dispatched"),
        };
        if id == refused {
            let verdict = classify(&TransferError::ConnectionRefused);
            assert_eq!(verdict, Verdict::Local);
            continue;
        }
        let payload = format!("payload-{id}").into_bytes();
        let (sink, status) = relay_payload(&payload);
        assert_eq!(sink, payload);
        assert_eq!(status, RelayStatus::Complete);
        completed += 1;
    }
    assert_eq!(completed, 49);
    assert_eq!(acceptor.next_id, 50);
}

#[test]
fn startup_lines() {
    let listen = ListenAddr::Tcp(String::from("127.0.0.1:8080"));
    let forward = ForwardAddr::Unix(String::from("/tmp/temp.sock"));
    assert_eq!(
        Logger::listening_line(&listen).as_str(),
        "Listening on 'tcp://127.0.0.1:8080'."
    );
    assert_eq!(
        Logger::forwarding_line(&forward).as_str(),
        "Incoming connections will be forwarded to 'unix:///tmp/temp.sock'."
    );
}

#[test]
fn connection_lines() {
    assert_eq!(
        Logger::connection_established_line(0).as_str(),
        "Connection #0 established"
    );
    assert_eq!(
        Logger::connection_closed_line(42).as_str(),
        "Connection #42 closed"
    );
}

#[test]
fn transfer_failed_line() {
    let msg = TransferError::TimedOut.message();
    assert_eq!(
        Logger::transfer_failed_line(msg.as_str()).as_str(),
        "Transfer failed: Operation timed out"
    );
}

#[test]
fn decimal_formatting() {
    assert_eq!(format_u64(0).as_str(), "0");
    assert_eq!(format_u64(7).as_str(), "7");
    assert_eq!(format_u64(10).as_str(), "10");
    assert_eq!(format_u64(19054).as_str(), "19054");
    assert_eq!(
        format_u64(18446744073709551615).as_str(),
        "18446744073709551615"
    );
}

/// The end-to-end scenario of a TCP listener forwarded to a Unix-domain
/// socket, played over the engine's decision rules and an in-memory
/// echo server: the client's bytes reach the socket unchanged and the
/// echoed bytes come back identical.
#[test]
fn test_tcp_to_unix_socket() {
    let listen = ListenAddr::from_str("tcp://127.0.0.1:8888").unwrap();
    assert_eq!(listen, ListenAddr::Tcp(String::from("127.0.0.1:8888")));
    let forward = ForwardAddr::from_str("unix:///tmp/test.sock").unwrap();
    let engine = ReverseProxy::new(listen, forward);

    // The dial decision: a filesystem-socket forward endpoint is dialed
    // directly.
    let plan = engine.dial_plan();
    assert!(matches!(plan, DialPlan::Unix(p) if p == "/tmp/test.sock"));

    let msg = b"hello-from-tcp";
    assert_eq!(msg.len(), 14);

    // Client to server: the forward pump carries the client's bytes to
    // the Unix socket.
    let mut forward_pump = Pump::new();
    let mut server_received: Vec<u8> = Vec::new();
    match forward_pump.on_read(ReadOutcome::Data(msg.to_vec())) {
        PumpAction::Write(w) => {
            server_received.extend_from_slice(&w);
            assert!(matches!(
                forward_pump.on_write_result(true),
                PumpAction::ReadMore
            ));
        }
        _ => panic!("a chunk must be written through"),
    }
    assert_eq!(server_received, msg.to_vec());

    // The echo server writes the same bytes back: the backward pump
    // carries them to the client.
    let mut backward_pump = Pump::new();
    let mut client_received: Vec<u8> = Vec::new();
    match backward_pump.on_read(ReadOutcome::Data(server_received.clone())) {
        PumpAction::Write(w) => {
            client_received.extend_from_slice(&w);
            assert!(matches!(
                backward_pump.on_write_result(true),
                PumpAction::ReadMore
            ));
        }
        _ => panic!("a chunk must be written through"),
    }
    assert_eq!(&client_received[..], msg);

    // Both peers finish; the relay completes.
    assert!(matches!(
        forward_pump.on_read(ReadOutcome::Eof),
        PumpAction::Shutdown
    ));
    forward_pump.on_shutdown_result(true);
    assert!(matches!(
        backward_pump.on_read(ReadOutcome::Eof),
        PumpAction::Shutdown
    ));
    backward_pump.on_shutdown_result(true);
    assert_eq!(
        relay_status(&forward_pump, &backward_pump),
        RelayStatus::Complete
    );
}

/// The mirror scenario: a Unix-domain-socket listener forwarded to a TCP
/// endpoint.
#[test]
fn test_unix_socket_to_tcp() {
    let listen = ListenAddr::from_str("unix:///tmp/test.sock").unwrap();
    assert_eq!(listen, ListenAddr::Unix(String::from("/tmp/test.sock")));
    let forward = ForwardAddr::from_str("tcp://127.0.0.1:8889").unwrap();
    let engine = ReverseProxy::new(listen, forward);

    let plan = engine.dial_plan();
    assert!(matches!(plan, DialPlan::Direct(h) if h == "127.0.0.1:8889"));

    let msg = b"hello-from-unix";
    assert_eq!(msg.len(), 15);

    let mut forward_pump = Pump::new();
    let mut server_received: Vec<u8> = Vec::new();
    match forward_pump.on_read(ReadOutcome::Data(msg.to_vec())) {
        PumpAction::Write(w) => {
            server_received.extend_from_slice(&w);
            assert!(matches!(
                forward_pump.on_write_result(true),
                PumpAction::ReadMore
            ));
        }
        _ => panic!("a chunk must be written through"),
    }
    let mut backward_pump = Pump::new();
    let mut client_received: Vec<u8> = Vec::new();
    match backward_pump.on_read(ReadOutcome::Data(server_received.clone())) {
        PumpAction::Write(w) => {
            client_received.extend_from_slice(&w);
            assert!(matches!(
                backward_pump.on_write_result(true),
                PumpAction::ReadMore
            ));
        }
        _ => panic!("a chunk must be written through"),
    }
    assert_eq!(&client_received[..], msg);

    assert!(matches!(
        forward_pump.on_read(ReadOutcome::Eof),
        PumpAction::Shutdown
    ));
    forward_pump.on_shutdown_result(true);
    assert!(matches!(
        backward_pump.on_read(ReadOutcome::Eof),
        PumpAction::Shutdown
    ));
    backward_pump.on_shutdown_result(true);
    assert_eq!(forward_pump.state(), PumpState::Done);
    assert_eq!(backward_pump.state(), PumpState::Done);
}
