use matrix_sync::batch::{decode_batch, SyncError};
use matrix_sync::endpoint::Endpoint;
use matrix_sync::request::build_request;
use matrix_sync::sync::{ConnectOutcome, ConnectPoll, MatrixSyncClient, SyncEvent, SyncState, SyncStep};

fn endpoint() -> Endpoint {
    Endpoint { host: "localhost".to_string(), port: 8008, path: "/_matrix/client/r0/sync".to_string() }
}

fn expect_send(step: SyncStep) -> matrix_sync::request::SyncRequest {
    match step {
        SyncStep::Send(req) => req,
        _ => panic!("expected a request to send"),
    }
}

fn expect_ready(step: SyncStep) -> matrix_sync::batch::SyncResponse {
    match step {
        SyncStep::Ready(batch) => batch,
        _ => panic!("expected a batch"),
    }
}

fn expect_fail(step: SyncStep) -> SyncError {
    match step {
        SyncStep::Fail(e) => e,
        _ => panic!("expected a failure"),
    }
}

/// Brings a new client to the point where its first request is in flight.
fn connected_client() -> (MatrixSyncClient, matrix_sync::request::SyncRequest) {
    let mut client = MatrixSyncClient::new(endpoint(), "secret".to_string());
    assert!(matches!(client.poll_sync(SyncEvent::Poll), SyncStep::PollConnection));
    let req = expect_send(client.poll_sync(SyncEvent::Connect(ConnectOutcome::Established)));
    assert!(matches!(client.poll_sync(SyncEvent::Sent), SyncStep::PollResponse));
    (client, req)
}

#[test]
fn end_to_end_two_batches_then_rate_limited() {
    let (mut client, first) = connected_client();
    assert_eq!(first.host, "localhost");
    assert_eq!(first.since, None);
    assert!(!first.target.contains("since="));
    assert!(first.target.starts_with("/_matrix/client/r0/sync?access_token=secret&"));

    let body = br#"{"next_batch":"t1", "events":[]}"#.to_vec();
    let batch = expect_ready(client.poll_sync(SyncEvent::Response(200, body.clone())));
    assert_eq!(batch.next_batch, "t1");
    assert_eq!(batch.body, body);
    assert_eq!(client.next_token(), &Some("t1".to_string()));

    let second = expect_send(client.poll_sync(SyncEvent::Poll));
    assert_eq!(second.since, Some("t1".to_string()));
    assert!(second.target.ends_with("&since=t1"));
    assert!(matches!(client.poll_sync(SyncEvent::Sent), SyncStep::PollResponse));
    let body = br#"{"next_batch":"t2","events":[{"type":"m.room.message"}]}"#.to_vec();
    let batch = expect_ready(client.poll_sync(SyncEvent::Response(200, body)));
    assert_eq!(batch.next_batch, "t2");

    let third = expect_send(client.poll_sync(SyncEvent::Poll));
    assert_eq!(third.since, Some("t2".to_string()));
    assert!(matches!(client.poll_sync(SyncEvent::Sent), SyncStep::PollResponse));
    assert_eq!(expect_fail(client.poll_sync(SyncEvent::Response(429, Vec::new()))), SyncError::Status(429));
    assert_eq!(client.next_token(), &Some("t2".to_string()));
    assert_eq!(expect_fail(client.poll_sync(SyncEvent::Poll)), SyncError::Terminated);
}

#[test]
fn status_500_fails_and_keeps_token() {
    let (mut client, _) = connected_client();
    expect_ready(client.poll_sync(SyncEvent::Response(200, br#"{"next_batch":"s9"}"#.to_vec())));
    expect_send(client.poll_sync(SyncEvent::Poll));
    client.poll_sync(SyncEvent::Sent);
    let body = br#"{"next_batch":"other"}"#.to_vec();
    assert_eq!(expect_fail(client.poll_sync(SyncEvent::Response(500, body))), SyncError::Status(500));
    assert_eq!(client.next_token(), &Some("s9".to_string()));
}

#[test]
fn malformed_body_fails() {
    for body in [&b"not json"[..], br#"{"events":[]}"#, br#"{"next_batch":7}"#, br#"["t1"]"#] {
        let (mut client, _) = connected_client();
        assert_eq!(expect_fail(client.poll_sync(SyncEvent::Response(200, body.to_vec()))), SyncError::InvalidBody);
        assert_eq!(client.next_token(), &None);
        assert_eq!(expect_fail(client.poll_sync(SyncEvent::Poll)), SyncError::Terminated);
    }
}

#[test]
fn pending_connection_is_not_ready_again() {
    let mut client = MatrixSyncClient::new(endpoint(), "secret".to_string());
    assert_eq!(client.host(), "localhost");
    assert_eq!(client.port(), 8008);
    assert!(matches!(client.poll_sync(SyncEvent::Poll), SyncStep::PollConnection));
    for _ in 0..3 {
        assert!(matches!(client.poll_sync(SyncEvent::Connect(ConnectOutcome::Pending)), SyncStep::NotReady));
    }
    expect_send(client.poll_sync(SyncEvent::Connect(ConnectOutcome::Established)));
}

#[test]
fn pending_response_is_not_ready_again_without_resending() {
    let (mut client, _) = connected_client();
    for _ in 0..3 {
        assert!(matches!(client.poll_sync(SyncEvent::ResponsePending), SyncStep::NotReady));
        assert!(matches!(client.poll_sync(SyncEvent::Poll), SyncStep::PollResponse));
    }
    let batch = expect_ready(client.poll_sync(SyncEvent::Response(200, br#"{"next_batch":"a"}"#.to_vec())));
    assert_eq!(batch.next_batch, "a");
}

#[test]
fn connection_failure_is_fatal() {
    let mut client = MatrixSyncClient::new(endpoint(), "secret".to_string());
    assert_eq!(expect_fail(client.poll_sync(SyncEvent::Connect(ConnectOutcome::Failed))), SyncError::Connection);
    assert_eq!(expect_fail(client.poll_sync(SyncEvent::Connect(ConnectOutcome::Established))), SyncError::Terminated);
}

#[test]
fn transport_failure_is_fatal() {
    let (mut client, _) = connected_client();
    assert_eq!(expect_fail(client.poll_sync(SyncEvent::TransportFailed)), SyncError::Transport);
    assert_eq!(expect_fail(client.poll_sync(SyncEvent::Poll)), SyncError::Terminated);
}

#[test]
fn lifecycle_moves_to_connected_once() {
    let mut state = SyncState::Connecting;
    assert_eq!(state.poll(ConnectOutcome::Pending), ConnectPoll::NotReady);
    assert_eq!(state, SyncState::Connecting);
    assert_eq!(state.poll(ConnectOutcome::Failed), ConnectPoll::Failed);
    assert_eq!(state, SyncState::Connecting);
    assert_eq!(state.poll(ConnectOutcome::Established), ConnectPoll::Ready);
    assert_eq!(state, SyncState::Connected);
    assert_eq!(state.poll(ConnectOutcome::Failed), ConnectPoll::Ready);
    assert_eq!(state, SyncState::Connected);
}

#[test]
fn request_target_is_form_encoded() {
    let req = build_request(&"h".to_string(), &"/p".to_string(), &"a b".to_string(), &Some("t&1".to_string()));
    assert_eq!(req.host, "h");
    assert_eq!(
        req.target,
        "/p?access_token=a+b&filter=%7B%22presence%22%3A%7B%22not_types%22%3A%5B%22m.presence%22%5D%7D%7D&timeout=30000&since=t%261"
    );
    let req = build_request(&"h".to_string(), &"/p".to_string(), &"tok".to_string(), &None);
    assert!(req.target.ends_with("&timeout=30000"));
    assert_eq!(req.since, None);
}

#[test]
fn decode_reads_next_batch() {
    let body = br#"{"next_batch":"s72595_4483_1934","rooms":{}}"#.to_vec();
    let batch = decode_batch(body.clone()).ok().unwrap();
    assert_eq!(batch.next_batch, "s72595_4483_1934");
    assert_eq!(batch.body, body);
    assert_eq!(decode_batch(b"{".to_vec()).err(), Some(SyncError::InvalidBody));
}

#[test]
fn endpoint_from_base_url() {
    let e = Endpoint::from_base_url("https://example.org:8448/base/").unwrap();
    assert_eq!(e.host, "example.org");
    assert_eq!(e.port, 8448);
    assert_eq!(e.path, "/_matrix/client/r0/sync");
    let e = Endpoint::from_base_url("http://matrix.example.com").unwrap();
    assert_eq!(e.host, "matrix.example.com");
    assert_eq!(e.port, 80);
    assert!(Endpoint::from_base_url("data:text/plain,x").is_none());
    assert!(Endpoint::from_base_url("not a url").is_none());
    assert!(Endpoint::from_base_url("foo://example.org/").is_none());
}
