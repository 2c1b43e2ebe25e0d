use file_sharing::behaviour::{
    ComposedEvent, DiscoveryEvent, EngineEvent, ExchangeEvent, OutboundFailureKind,
};
use file_sharing::command::{
    Address, Command, EngineAction, NetworkError, Outcome, PeerIdentity, ReplyToken, ReplyValue,
    ResponseChannel,
};
use file_sharing::event_loop::EventLoop;

fn reply(out: Option<Outcome>) -> (ReplyToken, ReplyValue) {
    match out {
        Some(Outcome::Reply { reply, value }) => (reply, value),
        other => panic!("expected a reply, got {:?}", other),
    }
}

#[test]
fn every_command_maps_to_its_engine_action() {
    let event_loop = EventLoop::new();
    let token = ReplyToken(7);
    let action = event_loop.handle_command(Command::StartProviding {
        file_name: String::from("report.txt"),
        reply: token,
    });
    assert_eq!(
        action,
        EngineAction::PublishProvider { file_name: String::from("report.txt"), reply: token }
    );
    let action = event_loop.handle_command(Command::Dial {
        peer_id: PeerIdentity(vec![1, 2]),
        peer_addr: Address(String::from("/ip4/127.0.0.1/tcp/4001")),
        reply: token,
    });
    assert_eq!(
        action,
        EngineAction::DialPeer {
            peer_id: PeerIdentity(vec![1, 2]),
            peer_addr: Address(String::from("/ip4/127.0.0.1/tcp/4001")),
            reply: token,
        }
    );
    let action = event_loop.handle_command(Command::RespondFile {
        file: String::from("hello world"),
        channel: ResponseChannel(3),
    });
    assert_eq!(
        action,
        EngineAction::SendResponse { channel: ResponseChannel(3), file: String::from("hello world") }
    );
}

#[test]
fn providing_confirmation_resolves_its_caller_once() {
    let mut event_loop = EventLoop::new();
    event_loop.register_start_providing(41, ReplyToken(1));
    let out = event_loop.on_engine_event(EngineEvent::Behaviour(ComposedEvent::Kademlia(
        DiscoveryEvent::StartProvidingDone { query_id: 41 },
    )));
    assert_eq!(reply(out), (ReplyToken(1), ReplyValue::Providing));
    assert!(!event_loop.has_pending_start_providing(41));
    // The same confirmation again is a stray and resolves nothing.
    let again = event_loop.on_engine_event(EngineEvent::Behaviour(ComposedEvent::Kademlia(
        DiscoveryEvent::StartProvidingDone { query_id: 41 },
    )));
    assert!(again.is_none());
}

#[test]
fn providers_found_reach_their_caller() {
    let mut event_loop = EventLoop::new();
    event_loop.register_get_providers(9, ReplyToken(2));
    let out = event_loop.on_engine_event(EngineEvent::Behaviour(ComposedEvent::Kademlia(
        DiscoveryEvent::ProvidersFound {
            query_id: 9,
            providers: vec![PeerIdentity(vec![5]), PeerIdentity(vec![6])],
        },
    )));
    assert_eq!(
        reply(out),
        (
            ReplyToken(2),
            ReplyValue::Providers(vec![PeerIdentity(vec![5]), PeerIdentity(vec![6])])
        )
    );
}

#[test]
fn nobody_providing_is_an_empty_set_not_an_error() {
    let mut event_loop = EventLoop::new();
    event_loop.register_get_providers(12, ReplyToken(3));
    let out = event_loop.on_engine_event(EngineEvent::Behaviour(ComposedEvent::Kademlia(
        DiscoveryEvent::ProvidersFound { query_id: 12, providers: vec![] },
    )));
    assert_eq!(reply(out), (ReplyToken(3), ReplyValue::Providers(vec![])));
}

#[test]
fn failed_providers_query_is_an_empty_set_not_an_error() {
    let mut event_loop = EventLoop::new();
    event_loop.register_get_providers(13, ReplyToken(4));
    let out = event_loop.on_engine_event(EngineEvent::Behaviour(ComposedEvent::Kademlia(
        DiscoveryEvent::ProvidersQueryFailed { query_id: 13 },
    )));
    assert_eq!(reply(out), (ReplyToken(4), ReplyValue::Providers(vec![])));
    assert!(!event_loop.has_pending_get_providers(13));
}

#[test]
fn dial_outcomes_resolve_their_attempt() {
    let mut event_loop = EventLoop::new();
    event_loop.register_dial(70, ReplyToken(5));
    event_loop.register_dial(71, ReplyToken(6));
    let ok = event_loop.on_engine_event(EngineEvent::ConnectionEstablished { attempt_id: 70 });
    assert_eq!(reply(ok), (ReplyToken(5), ReplyValue::Dialed(Ok(()))));
    let err = event_loop.on_engine_event(EngineEvent::OutgoingConnectionError { attempt_id: 71 });
    assert_eq!(
        reply(err),
        (ReplyToken(6), ReplyValue::Dialed(Err(NetworkError::ConnectionFailure)))
    );
    assert!(!event_loop.has_pending_dial(70));
    assert!(!event_loop.has_pending_dial(71));
}

#[test]
fn response_resolves_the_request_that_opened_the_exchange() {
    let mut event_loop = EventLoop::new();
    event_loop.register_request_file(100, ReplyToken(8));
    let out = event_loop.on_engine_event(EngineEvent::Behaviour(ComposedEvent::RequestResponse(
        ExchangeEvent::ResponseReceived { request_id: 100, file: String::from("hello world") },
    )));
    assert_eq!(
        reply(out),
        (ReplyToken(8), ReplyValue::File(Ok(String::from("hello world"))))
    );
    assert!(!event_loop.has_pending_request_file(100));
}

#[test]
fn outbound_failure_resolves_with_a_transfer_error_not_a_hang() {
    let mut event_loop = EventLoop::new();
    event_loop.register_request_file(101, ReplyToken(9));
    let out = event_loop.on_engine_event(EngineEvent::Behaviour(ComposedEvent::RequestResponse(
        ExchangeEvent::OutboundFailure { request_id: 101, kind: OutboundFailureKind::Transfer },
    )));
    assert_eq!(
        reply(out),
        (ReplyToken(9), ReplyValue::File(Err(NetworkError::TransferFailure)))
    );
    assert!(!event_loop.has_pending_request_file(101));
}

#[test]
fn unreachable_peer_resolves_with_a_connection_error() {
    let mut event_loop = EventLoop::new();
    event_loop.register_request_file(102, ReplyToken(10));
    let out = event_loop.on_engine_event(EngineEvent::Behaviour(ComposedEvent::RequestResponse(
        ExchangeEvent::OutboundFailure { request_id: 102, kind: OutboundFailureKind::Connection },
    )));
    assert_eq!(
        reply(out),
        (ReplyToken(10), ReplyValue::File(Err(NetworkError::ConnectionFailure)))
    );
    assert!(!event_loop.has_pending_request_file(102));
}

#[test]
fn out_of_order_completions_never_swap_results() {
    let mut event_loop = EventLoop::new();
    event_loop.register_request_file(1, ReplyToken(21));
    event_loop.register_request_file(2, ReplyToken(22));
    // The second exchange completes first.
    let second = event_loop.on_engine_event(EngineEvent::Behaviour(
        ComposedEvent::RequestResponse(ExchangeEvent::ResponseReceived {
            request_id: 2,
            file: String::from("contents-two"),
        }),
    ));
    let first = event_loop.on_engine_event(EngineEvent::Behaviour(
        ComposedEvent::RequestResponse(ExchangeEvent::ResponseReceived {
            request_id: 1,
            file: String::from("contents-one"),
        }),
    ));
    assert_eq!(
        reply(second),
        (ReplyToken(22), ReplyValue::File(Ok(String::from("contents-two"))))
    );
    assert_eq!(
        reply(first),
        (ReplyToken(21), ReplyValue::File(Ok(String::from("contents-one"))))
    );
}

#[test]
fn inbound_request_is_forwarded_with_its_channel() {
    let mut event_loop = EventLoop::new();
    let out = event_loop.on_engine_event(EngineEvent::Behaviour(ComposedEvent::RequestResponse(
        ExchangeEvent::RequestReceived {
            file_name: String::from("report.txt"),
            channel: ResponseChannel(55),
        },
    )));
    assert_eq!(
        out,
        Some(Outcome::InboundRequest {
            file_name: String::from("report.txt"),
            channel: ResponseChannel(55),
        })
    );
}

#[test]
fn strays_and_log_only_events_resolve_nothing() {
    let mut event_loop = EventLoop::new();
    assert!(event_loop
        .on_engine_event(EngineEvent::ConnectionEstablished { attempt_id: 999 })
        .is_none());
    assert!(event_loop
        .on_engine_event(EngineEvent::NewListenAddr {
            addr: Address(String::from("/ip4/127.0.0.1/tcp/4001")),
        })
        .is_none());
    assert!(event_loop
        .on_engine_event(EngineEvent::Behaviour(ComposedEvent::RequestResponse(
            ExchangeEvent::InboundFailure,
        )))
        .is_none());
}

#[test]
fn synchronous_outcomes_carry_their_token() {
    assert_eq!(
        EventLoop::listen_outcome(ReplyToken(30), true),
        Outcome::Reply { reply: ReplyToken(30), value: ReplyValue::Listening(Ok(())) }
    );
    assert_eq!(
        EventLoop::listen_outcome(ReplyToken(31), false),
        Outcome::Reply {
            reply: ReplyToken(31),
            value: ReplyValue::Listening(Err(NetworkError::BindFailure)),
        }
    );
    assert_eq!(
        EventLoop::dial_refused_outcome(ReplyToken(32)),
        Outcome::Reply {
            reply: ReplyToken(32),
            value: ReplyValue::Dialed(Err(NetworkError::ConnectionFailure)),
        }
    );
    assert_eq!(
        EventLoop::request_refused_outcome(ReplyToken(33)),
        Outcome::Reply {
            reply: ReplyToken(33),
            value: ReplyValue::File(Err(NetworkError::ConnectionFailure)),
        }
    );
}

#[test]
fn composed_event_wraps_each_sub_behaviour() {
    let discovery = DiscoveryEvent::StartProvidingDone { query_id: 1 };
    assert_eq!(ComposedEvent::from(discovery.clone()), ComposedEvent::Kademlia(discovery));
    let exchange = ExchangeEvent::OutboundFailure { request_id: 2, kind: OutboundFailureKind::Transfer };
    assert_eq!(
        ComposedEvent::from(exchange.clone()),
        ComposedEvent::RequestResponse(exchange)
    );
}
