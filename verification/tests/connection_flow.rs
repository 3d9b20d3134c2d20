use shadow_proxy::connection::{synthetic_response, Connection, ConnectionAction, ConnectionEvent};
use shadow_proxy::error::ServerError;
use shadow_proxy::response::RawHttpResponse;
use shadow_proxy::stream::{is_last_read, ReadOutcome};

const REQUEST: &[u8] = b"GET /api HTTP/1.1\nHost: localhost:1234\n\n";

fn data(bytes: &[u8]) -> ConnectionEvent {
    ConnectionEvent::ClientRead(ReadOutcome::Data(bytes.to_vec()))
}

/// Feeds `events` to a fresh connection and gathers what it asks for.
fn run(bufsize: usize, events: Vec<ConnectionEvent>) -> (Connection, Vec<ConnectionAction>) {
    let (mut connection, first) = Connection::accept(bufsize);
    let mut actions = vec![first];
    for event in events {
        let (next, action) = connection.step(event);
        connection = next;
        actions.push(action);
    }
    (connection, actions)
}

/// The bytes written to the client over `actions`.
fn client_bytes(actions: &[ConnectionAction]) -> Vec<u8> {
    let mut written = Vec::new();
    for action in actions {
        if let ConnectionAction::WriteClient(bytes) = action {
            written.extend_from_slice(bytes);
        }
    }
    written
}

fn unresponsive() -> ServerError {
    ServerError::Unresponsive(String::from("127.0.0.1:4001"), String::from("Connection refused"))
}

#[test]
fn a_connection_begins_by_reading() {
    let (connection, action) = Connection::accept(1500);
    assert!(matches!(action, ConnectionAction::ReadClient));
    match connection {
        Connection::Reading { bufsize, request } => {
            assert_eq!(bufsize, 1500);
            assert_eq!(request.size(), 0);
        }
        other => panic!("{:?}", other),
    }
}

#[test]
fn success_path_writes_the_primary_response_and_hands_off() {
    let response = b"HTTP/1.1 200 OK\r\nContent-Length: 2\r\n\r\nhi".to_vec();
    let (connection, actions) = run(
        1500,
        vec![
            data(REQUEST),
            ConnectionEvent::PrimaryAnswered(Ok(RawHttpResponse::from(response.clone()))),
            ConnectionEvent::ClientWritten,
            ConnectionEvent::ClientClosed,
        ],
    );
    assert!(matches!(connection, Connection::Finished));
    assert_eq!(actions.len(), 5);
    assert!(matches!(actions[0], ConnectionAction::ReadClient));
    match &actions[1] {
        ConnectionAction::CallPrimary(bytes) => assert_eq!(bytes.as_slice(), REQUEST),
        other => panic!("{:?}", other),
    }
    match &actions[2] {
        ConnectionAction::WriteClient(bytes) => assert_eq!(bytes, &response),
        other => panic!("{:?}", other),
    }
    assert!(matches!(actions[3], ConnectionAction::ShutdownClient));
    match &actions[4] {
        ConnectionAction::HandOff(request, primary) => {
            assert_eq!(request.bytes(), REQUEST);
            assert_eq!(primary.bytes(), response.as_slice());
        }
        other => panic!("{:?}", other),
    }
    assert_eq!(client_bytes(&actions), response);
    assert_eq!(client_bytes(&actions[..4]), response);
}

#[test]
fn unresponsive_primary_gives_synthetic_503() {
    let (connection, actions) = run(
        1500,
        vec![
            data(REQUEST),
            ConnectionEvent::PrimaryAnswered(Err(unresponsive())),
            ConnectionEvent::ClientWritten,
            ConnectionEvent::ClientClosed,
        ],
    );
    assert!(matches!(connection, Connection::Finished));
    assert_eq!(client_bytes(&actions), b"HTTP/1.1 503 Service Unavailable".to_vec());
    assert!(matches!(actions[3], ConnectionAction::ShutdownClient));
    match &actions[4] {
        ConnectionAction::Fail(error) => {
            assert_eq!(error, &unresponsive());
            assert_eq!(
                error.message(),
                "server [127.0.0.1:4001] is unresponsive, reason: Connection refused"
            );
            assert!(error.message().contains("127.0.0.1:4001"));
        }
        other => panic!("{:?}", other),
    }
}

#[test]
fn failed_exchange_with_primary_gives_synthetic_500() {
    for error in [
        ServerError::ServerWriteError(String::from("p"), String::from("broken pipe")),
        ServerError::ServerReadError(String::from("p"), String::from("reset")),
    ] {
        let (_, actions) = run(
            1500,
            vec![
                data(REQUEST),
                ConnectionEvent::PrimaryAnswered(Err(error.clone())),
                ConnectionEvent::ClientWritten,
                ConnectionEvent::ClientClosed,
            ],
        );
        assert_eq!(client_bytes(&actions), b"HTTP/1.1 500 Internal Server Error".to_vec());
        assert!(matches!(actions[3], ConnectionAction::ShutdownClient));
        match &actions[4] {
            ConnectionAction::Fail(e) => assert_eq!(e, &error),
            other => panic!("{:?}", other),
        }
    }
}

#[test]
fn synthetic_responses() {
    assert_eq!(synthetic_response(&unresponsive()), "HTTP/1.1 503 Service Unavailable");
    assert_eq!(
        synthetic_response(&ServerError::ServerWriteError(String::new(), String::new())),
        "HTTP/1.1 500 Internal Server Error"
    );
    assert_eq!(
        synthetic_response(&ServerError::ServerReadError(String::new(), String::new())),
        "HTTP/1.1 500 Internal Server Error"
    );
}

#[test]
fn a_short_read_ends_the_request() {
    // a read that fills the buffer asks for another; one that does not, ends the request
    let (connection, actions) = run(4, vec![data(b"GET "), data(b"/ HT"), ConnectionEvent::ClientRead(ReadOutcome::WouldBlock), data(b"TP/")]);
    assert!(matches!(actions[1], ConnectionAction::ReadClient));
    assert!(matches!(actions[2], ConnectionAction::ReadClient));
    assert!(matches!(actions[3], ConnectionAction::ReadClient));
    match &actions[4] {
        ConnectionAction::CallPrimary(bytes) => assert_eq!(bytes.as_slice(), b"GET / HTTP/"),
        other => panic!("{:?}", other),
    }
    match connection {
        Connection::AwaitingPrimary { request } => assert_eq!(request.bytes(), b"GET / HTTP/"),
        other => panic!("{:?}", other),
    }
}

#[test]
fn end_of_stream_ends_the_request() {
    let (_, actions) = run(4, vec![data(b"GET "), data(b"")]);
    match &actions[2] {
        ConnectionAction::CallPrimary(bytes) => assert_eq!(bytes.as_slice(), b"GET "),
        other => panic!("{:?}", other),
    }
    let (_, actions) = run(0, vec![data(b"")]);
    assert!(matches!(&actions[1], ConnectionAction::CallPrimary(bytes) if bytes.is_empty()));
    let (_, actions) = run(1500, vec![data(b"")]);
    assert!(matches!(&actions[1], ConnectionAction::CallPrimary(bytes) if bytes.is_empty()));
}

#[test]
fn last_read_rule() {
    assert!(is_last_read(0, 1500));
    assert!(is_last_read(1, 1500));
    assert!(is_last_read(1499, 1500));
    assert!(!is_last_read(1500, 1500));
    assert!(!is_last_read(1501, 1500));
    assert!(is_last_read(0, 0));
    assert!(!is_last_read(1, 0));
    assert!(!is_last_read(1, 1));
}

#[test]
fn failed_client_read_closes_without_a_reply() {
    let (connection, actions) = run(
        1500,
        vec![
            ConnectionEvent::ClientRead(ReadOutcome::WouldBlock),
            ConnectionEvent::ClientRead(ReadOutcome::Failed(String::from("reset by peer"))),
            ConnectionEvent::ClientClosed,
        ],
    );
    assert!(matches!(connection, Connection::Finished));
    assert!(matches!(actions[1], ConnectionAction::ReadClient));
    assert!(matches!(actions[2], ConnectionAction::ShutdownClient));
    match &actions[3] {
        ConnectionAction::Fail(error) => {
            assert_eq!(
                error,
                &ServerError::ServerReadError(String::from("client"), String::from("reset by peer"))
            );
            assert_eq!(error.message(), "server [client] error while reading, reason: reset by peer");
        }
        other => panic!("{:?}", other),
    }
    assert!(client_bytes(&actions).is_empty());
}

#[test]
fn events_out_of_turn_change_nothing() {
    let (connection, actions) = run(
        1500,
        vec![
            ConnectionEvent::ClientWritten,
            ConnectionEvent::ClientClosed,
            ConnectionEvent::PrimaryAnswered(Ok(RawHttpResponse::from(b"x".to_vec()))),
            data(REQUEST),
            data(b"more"),
            ConnectionEvent::ClientWritten,
            ConnectionEvent::ClientClosed,
        ],
    );
    assert!(matches!(actions[1], ConnectionAction::Nothing));
    assert!(matches!(actions[2], ConnectionAction::Nothing));
    assert!(matches!(actions[3], ConnectionAction::Nothing));
    assert!(matches!(actions[4], ConnectionAction::CallPrimary(_)));
    assert!(matches!(actions[5], ConnectionAction::Nothing));
    assert!(matches!(actions[6], ConnectionAction::Nothing));
    assert!(matches!(actions[7], ConnectionAction::Nothing));
    match connection {
        Connection::AwaitingPrimary { request } => assert_eq!(request.bytes(), REQUEST),
        other => panic!("{:?}", other),
    }
    assert!(client_bytes(&actions).is_empty());
}

#[test]
fn nothing_reaches_the_client_after_the_hand_off() {
    let response = b"HTTP/1.1 200 OK\r\n\r\n".to_vec();
    let (connection, actions) = run(
        1500,
        vec![
            data(REQUEST),
            ConnectionEvent::PrimaryAnswered(Ok(RawHttpResponse::from(response.clone()))),
            ConnectionEvent::ClientWritten,
            ConnectionEvent::ClientClosed,
            // whatever comes later, a shadow's answer among it
            ConnectionEvent::PrimaryAnswered(Ok(RawHttpResponse::from(b"HTTP/1.1 500 no".to_vec()))),
            ConnectionEvent::PrimaryAnswered(Err(unresponsive())),
            data(b"GET / HTTP/1.1\n"),
            ConnectionEvent::ClientWritten,
            ConnectionEvent::ClientClosed,
        ],
    );
    assert!(matches!(connection, Connection::Finished));
    assert!(matches!(actions[4], ConnectionAction::HandOff(_, _)));
    for action in &actions[5..] {
        assert!(matches!(action, ConnectionAction::Nothing));
    }
    assert_eq!(client_bytes(&actions), response);
}

#[test]
fn reply_is_not_written_twice() {
    let response = b"HTTP/1.1 200 OK\r\n\r\n".to_vec();
    let (_, actions) = run(
        1500,
        vec![
            data(REQUEST),
            ConnectionEvent::PrimaryAnswered(Ok(RawHttpResponse::from(response.clone()))),
            ConnectionEvent::PrimaryAnswered(Ok(RawHttpResponse::from(b"other".to_vec()))),
            ConnectionEvent::ClientClosed,
            ConnectionEvent::ClientWritten,
            ConnectionEvent::ClientWritten,
            ConnectionEvent::ClientClosed,
        ],
    );
    assert!(matches!(actions[3], ConnectionAction::Nothing));
    assert!(matches!(actions[4], ConnectionAction::Nothing));
    assert!(matches!(actions[5], ConnectionAction::ShutdownClient));
    assert!(matches!(actions[6], ConnectionAction::Nothing));
    assert!(matches!(actions[7], ConnectionAction::HandOff(_, _)));
    assert_eq!(client_bytes(&actions), response);
}
