use attested_rpc::channel::MpscChannelTransport;
use attested_rpc::codec::ByteStream;
use attested_rpc::codec::ProtocolError;
use attested_rpc::message::OpMessage;
use attested_rpc::server::ConnOutcome;
use attested_rpc::server::ConnectionServer;
use attested_rpc::server::ServerPhase;
use attested_rpc::transport::FramedTransport;
use attested_rpc::transport::read_message;
use attested_rpc::transport::write_message;
use attested_rpc::ipc::StartServiceInput;
use attested_rpc::service::EchoService;

fn op(bytes: &[u8]) -> OpMessage {
    OpMessage { op: bytes.to_vec() }
}

/// Builds the byte stream a peer would have sent: one frame per message.
fn stream_with_messages(msgs: &[&[u8]]) -> Vec<u8> {
    let mut scratch = ByteStream::new(Vec::new());
    for m in msgs {
        let msg = op(m);
        write_message(&mut scratch, &msg);
    }
    scratch.outgoing
}

#[test]
fn test_echo_round_trip() {
    // Server side: the peer sent one ping request, then closed.
    let incoming = stream_with_messages(&[b"ping"]);
    let mut server = FramedTransport::new(ByteStream::new(incoming));
    let served = server.serve::<OpMessage, OpMessage, EchoService>(&EchoService {});
    assert!(served.is_ok());

    // Client side: read the server's reply as the response to our send.
    let mut client = FramedTransport::new(ByteStream::new(server.stream.outgoing.clone()));
    let resp: Result<OpMessage, ProtocolError> = client.send(&op(b"ping"));
    let resp = resp.expect("response must decode");
    assert_eq!(resp.op, b"pong".to_vec());
}

#[test]
fn test_echo_other_op_is_echoed() {
    let incoming = stream_with_messages(&[b"status"]);
    let mut server = FramedTransport::new(ByteStream::new(incoming));
    assert!(server.serve::<OpMessage, OpMessage, EchoService>(&EchoService {}).is_ok());
    let mut reader = ByteStream::new(server.stream.outgoing.clone());
    let echoed: OpMessage = read_message(&mut reader).expect("one response frame");
    assert_eq!(echoed.op, b"status".to_vec());
}

#[test]
fn test_graceful_disconnect() {
    // The peer closed its connection mid-idle: serve returns success and
    // writes nothing.
    let mut server = FramedTransport::new(ByteStream::new(Vec::new()));
    let served = server.serve::<OpMessage, OpMessage, EchoService>(&EchoService {});
    assert!(served.is_ok());
    assert!(server.stream.outgoing.is_empty());
}

#[test]
fn test_disconnect_mid_frame_is_clean_close() {
    // A length prefix promising more bytes than ever arrive: the read fails
    // as an io error, and serve treats it as a disconnect.
    let mut incoming = stream_with_messages(&[b"ping"]);
    incoming.truncate(incoming.len() - 2);
    let mut server = FramedTransport::new(ByteStream::new(incoming));
    let served = server.serve::<OpMessage, OpMessage, EchoService>(&EchoService {});
    assert!(served.is_ok());
    assert!(server.stream.outgoing.is_empty());
}

#[test]
fn test_requests_served_in_order() {
    // Two pipelined requests on one connection are answered strictly in
    // order: first the echo of "a", then the pong.
    let incoming = stream_with_messages(&[b"a", b"ping"]);
    let mut server = FramedTransport::new(ByteStream::new(incoming));
    assert!(server.serve::<OpMessage, OpMessage, EchoService>(&EchoService {}).is_ok());

    let mut reader = ByteStream::new(server.stream.outgoing.clone());
    let first: OpMessage = read_message(&mut reader).expect("first response");
    let second: OpMessage = read_message(&mut reader).expect("second response");
    assert_eq!(first.op, b"a".to_vec());
    assert_eq!(second.op, b"pong".to_vec());
    let end: Result<OpMessage, ProtocolError> = read_message(&mut reader);
    assert_eq!(end.unwrap_err(), ProtocolError::IoError);
}

#[test]
fn test_undecodable_payload_is_fatal() {
    // A complete frame whose payload is not a well-formed request: fatal to
    // the connection, unlike a disconnect.
    let mut scratch = ByteStream::new(Vec::new());
    scratch.write_frame(&b"123".to_vec());
    let mut reader = ByteStream::new(scratch.outgoing);
    let r: Result<StartServiceInput, ProtocolError> = read_message(&mut reader);
    assert_eq!(r.unwrap_err(), ProtocolError::DecodeError);
}

#[test]
fn test_truncated_header_is_io_error() {
    let mut reader = ByteStream::new(vec![0u8, 0, 0]);
    let r: Result<OpMessage, ProtocolError> = read_message(&mut reader);
    assert_eq!(r.unwrap_err(), ProtocolError::IoError);
}

#[test]
fn test_send_leaves_nothing_outstanding() {
    let response_bytes = stream_with_messages(&[b"pong"]);
    let mut client = FramedTransport::new(ByteStream::new(response_bytes));
    let resp: Result<OpMessage, ProtocolError> = client.send(&op(b"ping"));
    assert!(resp.is_ok());
    assert_eq!(client.in_flight, 0);

    // The request went out as exactly one frame carrying "ping".
    let mut reader = ByteStream::new(client.stream.outgoing.clone());
    let sent: OpMessage = read_message(&mut reader).expect("request frame");
    assert_eq!(sent.op, b"ping".to_vec());
}

#[test]
fn test_channel_echo_round_trip() {
    let mut t: MpscChannelTransport<OpMessage, OpMessage> = MpscChannelTransport::new();
    t.send_request(op(b"ping"));
    t.serve(&EchoService {});
    let resp = t.recv_response().expect("one response pending");
    assert_eq!(resp.op, b"pong".to_vec());
    assert!(t.recv_response().is_none());
}

#[test]
fn test_channel_fifo_order() {
    let mut t: MpscChannelTransport<OpMessage, OpMessage> = MpscChannelTransport::new();
    t.requests.push(op(b"one"));
    t.requests.push(op(b"ping"));
    t.requests.push(op(b"three"));
    t.serve(&EchoService {});
    assert_eq!(t.recv_response().unwrap().op, b"one".to_vec());
    assert_eq!(t.recv_response().unwrap().op, b"pong".to_vec());
    assert_eq!(t.recv_response().unwrap().op, b"three".to_vec());
}

#[test]
fn test_backpressure_bound() {
    // Pool of size 2 and three connection attempts: only two are served at
    // once; the third is admitted only after a worker frees up.
    let mut s = ConnectionServer::new(2);
    assert!(s.can_accept());
    s.accept_connection();
    assert!(s.can_accept());
    s.accept_connection();
    assert_eq!(s.active, 2);
    assert!(!s.can_accept());

    s.worker_done(ConnOutcome::Clean);
    assert!(s.can_accept());
    s.accept_connection();
    assert_eq!(s.active, 2);
}

#[test]
fn test_connection_isolation() {
    // Connection A fails with a protocol error while B and C are live: the
    // listener keeps listening and B and C are untouched.
    let mut s = ConnectionServer::new(4);
    s.accept_connection();
    s.accept_connection();
    s.accept_connection();
    s.worker_done(ConnOutcome::ProtocolFailure);
    assert_eq!(s.phase, ServerPhase::Listening);
    assert_eq!(s.active, 2);
    assert!(s.can_accept());

    s.worker_done(ConnOutcome::HandshakeFailure);
    assert_eq!(s.phase, ServerPhase::Listening);
    assert_eq!(s.active, 1);
}

#[test]
fn test_listener_failure_is_terminal() {
    let mut s = ConnectionServer::new(1);
    s.listener_failed();
    assert_eq!(s.phase, ServerPhase::Shutdown);
    assert!(!s.can_accept());
}
