//! End-to-end exercises of the coordination layer: two peers, each
//! with its own client handle and event loop, joined by this test
//! standing in for the network engine and the wire.

use file_sharing::client::{Client, CommandQueue};
use file_sharing::command::{
    Address, EngineAction, NetworkError, Outcome, PeerIdentity, ReplyValue, ResponseChannel,
};
use file_sharing::behaviour::{
    ComposedEvent, DiscoveryEvent, EngineEvent, ExchangeEvent, OutboundFailureKind,
};
use file_sharing::event_loop::EventLoop;
use file_sharing::protocol::{FileExchangeCodec, FileRequest, FileResponse};

#[test]
fn provide_discover_request_respond() {
    let peer_a = PeerIdentity(vec![0xA]);
    let mut client_a = Client::new(CommandQueue::new(1));
    let mut loop_a = EventLoop::new();
    let mut client_b = Client::new(CommandQueue::new(1));
    let mut loop_b = EventLoop::new();

    // Peer A starts providing "report.txt".
    let t_provide = client_a.start_providing(String::from("report.txt")).unwrap();
    let command = client_a.next_command().unwrap();
    let action = loop_a.handle_command(command);
    let (file_name, reply) = match action {
        EngineAction::PublishProvider { file_name, reply } => (file_name, reply),
        other => panic!("unexpected action {:?}", other),
    };
    assert_eq!(file_name, "report.txt");
    loop_a.register_start_providing(501, reply);
    let out = loop_a.on_engine_event(EngineEvent::Behaviour(ComposedEvent::Kademlia(
        DiscoveryEvent::StartProvidingDone { query_id: 501 },
    )));
    assert_eq!(
        out,
        Some(Outcome::Reply { reply: t_provide, value: ReplyValue::Providing })
    );

    // Peer B asks who provides "report.txt" and learns exactly A.
    let t_query = client_b.get_providers(String::from("report.txt")).unwrap();
    let action = loop_b.handle_command(client_b.next_command().unwrap());
    let reply = match action {
        EngineAction::QueryProviders { file_name, reply } => {
            assert_eq!(file_name, "report.txt");
            reply
        },
        other => panic!("unexpected action {:?}", other),
    };
    loop_b.register_get_providers(801, reply);
    let out = loop_b.on_engine_event(EngineEvent::Behaviour(ComposedEvent::Kademlia(
        DiscoveryEvent::ProvidersFound { query_id: 801, providers: vec![peer_a.clone()] },
    )));
    assert_eq!(
        out,
        Some(Outcome::Reply { reply: t_query, value: ReplyValue::Providers(vec![peer_a.clone()]) })
    );

    // Peer B requests the file from A.
    let t_request = client_b
        .request_file(peer_a.clone(), String::from("report.txt"))
        .unwrap();
    let action = loop_b.handle_command(client_b.next_command().unwrap());
    let reply = match action {
        EngineAction::OpenRequest { peer, file_name, reply } => {
            assert_eq!(peer, peer_a);
            assert_eq!(file_name, "report.txt");
            reply
        },
        other => panic!("unexpected action {:?}", other),
    };
    loop_b.register_request_file(901, reply);

    // The request crosses the wire to A byte-identically.
    let mut codec = FileExchangeCodec();
    let request_wire = codec.write_request(&FileRequest(String::from("report.txt"))).unwrap();
    let request = codec.read_request(&request_wire).unwrap();

    // A's event loop forwards the inbound request to its application
    // event stream, with the one-use response channel.
    let out = loop_a.on_engine_event(EngineEvent::Behaviour(ComposedEvent::RequestResponse(
        ExchangeEvent::RequestReceived { file_name: request.0, channel: ResponseChannel(31) },
    )));
    let (file_name, channel) = match out {
        Some(Outcome::InboundRequest { file_name, channel }) => (file_name, channel),
        other => panic!("expected an inbound request, got {:?}", other),
    };
    assert_eq!(file_name, "report.txt");

    // A's application answers with the file content.
    client_a.respond_file(String::from("hello world"), channel).unwrap();
    let action = loop_a.handle_command(client_a.next_command().unwrap());
    let file = match action {
        EngineAction::SendResponse { channel: c, file } => {
            assert_eq!(c, channel);
            file
        },
        other => panic!("unexpected action {:?}", other),
    };

    // The response crosses the wire back to B byte-identically.
    let response_wire = codec.write_response(&FileResponse(file)).unwrap();
    let response = codec.read_response(&response_wire).unwrap();
    assert_eq!(response, FileResponse(String::from("hello world")));

    // B's event loop pairs it with the request that opened the
    // exchange and resolves exactly that caller.
    let out = loop_b.on_engine_event(EngineEvent::Behaviour(ComposedEvent::RequestResponse(
        ExchangeEvent::ResponseReceived { request_id: 901, file: response.0 },
    )));
    assert_eq!(
        out,
        Some(Outcome::Reply {
            reply: t_request,
            value: ReplyValue::File(Ok(String::from("hello world"))),
        })
    );
}

#[test]
fn request_to_unreachable_peer_fails_instead_of_hanging() {
    let mut client_b = Client::new(CommandQueue::new(1));
    let mut loop_b = EventLoop::new();

    // Peer B requests a file from an identity with no known address
    // and no connection.
    let t_request = client_b
        .request_file(PeerIdentity(vec![0xEE]), String::from("report.txt"))
        .unwrap();
    let action = loop_b.handle_command(client_b.next_command().unwrap());
    let reply = match action {
        EngineAction::OpenRequest { reply, .. } => reply,
        other => panic!("unexpected action {:?}", other),
    };
    loop_b.register_request_file(77, reply);

    // The engine reports the dial failure for that exchange; the
    // caller gets a connection-level failure, and nothing dangles.
    let out = loop_b.on_engine_event(EngineEvent::Behaviour(ComposedEvent::RequestResponse(
        ExchangeEvent::OutboundFailure { request_id: 77, kind: OutboundFailureKind::Connection },
    )));
    assert_eq!(
        out,
        Some(Outcome::Reply {
            reply: t_request,
            value: ReplyValue::File(Err(NetworkError::ConnectionFailure)),
        })
    );
    assert!(!loop_b.has_pending_request_file(77));
}

#[test]
fn dial_without_address_is_refused_at_once() {
    let mut client = Client::new(CommandQueue::new(1));
    let t_dial = client
        .dial(
            PeerIdentity(vec![0xEE]),
            Address(String::from("/ip4/203.0.113.1/tcp/1")),
        )
        .unwrap();
    let action = EventLoop::new().handle_command(client.next_command().unwrap());
    let reply = match action {
        EngineAction::DialPeer { reply, .. } => reply,
        other => panic!("unexpected action {:?}", other),
    };
    // The engine refuses the dial synchronously: the caller is
    // answered at once rather than left waiting for an event.
    assert_eq!(
        EventLoop::dial_refused_outcome(reply),
        Outcome::Reply {
            reply: t_dial,
            value: ReplyValue::Dialed(Err(NetworkError::ConnectionFailure)),
        }
    );
}
