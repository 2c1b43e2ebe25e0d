//! The event loop's correlation state and its transition rules: the
//! single owner of the network engine drains commands, dispatches
//! them as engine instructions, and when the engine later reports an
//! outcome under a correlation id, delivers exactly one reply to the
//! caller that awaits it.

use vstd::hash_map::HashMapWithView;
use vstd::prelude::*;

use crate::behaviour::{ComposedEvent, DiscoveryEvent, EngineEvent, ExchangeEvent, OutboundFailureKind};
use crate::command::{Command, EngineAction, NetworkError, Outcome, ReplyToken, ReplyValue};

verus! {

broadcast use vstd::std_specs::hash::group_hash_axioms;

/// All pending-request state: for each kind of in-flight operation, a
/// map from the substrate-issued correlation id to the reply token
/// awaiting that operation's outcome. Each entry resolves exactly
/// once; resolving removes it.
pub struct EventLoop {
    dial: HashMapWithView<u64, ReplyToken>,
    start_providing: HashMapWithView<u64, ReplyToken>,
    get_providers: HashMapWithView<u64, ReplyToken>,
    request_file: HashMapWithView<u64, ReplyToken>,
}

impl EventLoop {
    /// Dial attempts awaiting a connection outcome, by attempt id.
    pub closed spec fn pending_dial(&self) -> Map<u64, ReplyToken> {
        self.dial@
    }

    /// Advertisements awaiting publication, by discovery query id.
    pub closed spec fn pending_start_providing(&self) -> Map<u64, ReplyToken> {
        self.start_providing@
    }

    /// Provider queries awaiting their result, by discovery query id.
    pub closed spec fn pending_get_providers(&self) -> Map<u64, ReplyToken> {
        self.get_providers@
    }

    /// Outbound file requests awaiting a response, by request id.
    pub closed spec fn pending_request_file(&self) -> Map<u64, ReplyToken> {
        self.request_file@
    }

    /// No pending entry of any kind differs between `pre` and `post`.
    pub open spec fn all_same(pre: &EventLoop, post: &EventLoop) -> bool {
        &&& post.pending_dial() == pre.pending_dial()
        &&& post.pending_start_providing() == pre.pending_start_providing()
        &&& post.pending_get_providers() == pre.pending_get_providers()
        &&& post.pending_request_file() == pre.pending_request_file()
    }

    /// Every pending map except the dial map is the same.
    pub open spec fn same_but_dial(pre: &EventLoop, post: &EventLoop) -> bool {
        &&& post.pending_start_providing() == pre.pending_start_providing()
        &&& post.pending_get_providers() == pre.pending_get_providers()
        &&& post.pending_request_file() == pre.pending_request_file()
    }

    /// Every pending map except the start-providing map is the same.
    pub open spec fn same_but_start_providing(pre: &EventLoop, post: &EventLoop) -> bool {
        &&& post.pending_dial() == pre.pending_dial()
        &&& post.pending_get_providers() == pre.pending_get_providers()
        &&& post.pending_request_file() == pre.pending_request_file()
    }

    /// Every pending map except the get-providers map is the same.
    pub open spec fn same_but_get_providers(pre: &EventLoop, post: &EventLoop) -> bool {
        &&& post.pending_dial() == pre.pending_dial()
        &&& post.pending_start_providing() == pre.pending_start_providing()
        &&& post.pending_request_file() == pre.pending_request_file()
    }

    /// Every pending map except the request-file map is the same.
    pub open spec fn same_but_request_file(pre: &EventLoop, post: &EventLoop) -> bool {
        &&& post.pending_dial() == pre.pending_dial()
        &&& post.pending_start_providing() == pre.pending_start_providing()
        &&& post.pending_get_providers() == pre.pending_get_providers()
    }

    /// A dial outcome for `attempt_id` resolves the one pending dial
    /// under that id with `value`, and nothing else; with no such
    /// entry the event is a stray and is ignored.
    pub open spec fn resolves_dial(
        pre: &EventLoop,
        post: &EventLoop,
        attempt_id: u64,
        value: ReplyValue,
        out: Option<Outcome>,
    ) -> bool {
        if pre.pending_dial().contains_key(attempt_id) {
            &&& post.pending_dial() == pre.pending_dial().remove(attempt_id)
            &&& Self::same_but_dial(pre, post)
            &&& out == Some(
                Outcome::Reply { reply: pre.pending_dial()[attempt_id], value },
            )
        } else {
            &&& Self::all_same(pre, post)
            &&& out is None
        }
    }

    /// A publication outcome resolves the one pending advertisement
    /// under `query_id` with the confirmation, and nothing else.
    pub open spec fn resolves_start_providing(
        pre: &EventLoop,
        post: &EventLoop,
        query_id: u64,
        out: Option<Outcome>,
    ) -> bool {
        if pre.pending_start_providing().contains_key(query_id) {
            &&& post.pending_start_providing() == pre.pending_start_providing().remove(query_id)
            &&& Self::same_but_start_providing(pre, post)
            &&& out == Some(
                Outcome::Reply {
                    reply: pre.pending_start_providing()[query_id],
                    value: ReplyValue::Providing,
                },
            )
        } else {
            &&& Self::all_same(pre, post)
            &&& out is None
        }
    }

    /// A providers outcome resolves the one pending query under
    /// `query_id` with exactly the given provider set — empty when the
    /// query failed, which to the caller is a valid answer and not an
    /// error — and nothing else.
    pub open spec fn resolves_get_providers(
        pre: &EventLoop,
        post: &EventLoop,
        query_id: u64,
        providers: Seq<crate::command::PeerIdentity>,
        out: Option<Outcome>,
    ) -> bool {
        if pre.pending_get_providers().contains_key(query_id) {
            &&& post.pending_get_providers() == pre.pending_get_providers().remove(query_id)
            &&& Self::same_but_get_providers(pre, post)
            &&& out matches Some(o)
            &&& o matches Outcome::Reply { reply, value }
            &&& reply == pre.pending_get_providers()[query_id]
            &&& value matches ReplyValue::Providers(found)
            &&& found@ == providers
        } else {
            &&& Self::all_same(pre, post)
            &&& out is None
        }
    }

    /// An exchange outcome resolves the one pending file request
    /// under `request_id` with `value`, and nothing else.
    pub open spec fn resolves_request_file(
        pre: &EventLoop,
        post: &EventLoop,
        request_id: u64,
        value: ReplyValue,
        out: Option<Outcome>,
    ) -> bool {
        if pre.pending_request_file().contains_key(request_id) {
            &&& post.pending_request_file() == pre.pending_request_file().remove(request_id)
            &&& Self::same_but_request_file(pre, post)
            &&& out == Some(
                Outcome::Reply { reply: pre.pending_request_file()[request_id], value },
            )
        } else {
            &&& Self::all_same(pre, post)
            &&& out is None
        }
    }

    /// A fresh loop with nothing in flight.
    pub fn new() -> (r: EventLoop)
        ensures
            r.pending_dial() == Map::<u64, ReplyToken>::empty(),
            r.pending_start_providing() == Map::<u64, ReplyToken>::empty(),
            r.pending_get_providers() == Map::<u64, ReplyToken>::empty(),
            r.pending_request_file() == Map::<u64, ReplyToken>::empty(),
    {
        EventLoop {
            dial: HashMapWithView::new(),
            start_providing: HashMapWithView::new(),
            get_providers: HashMapWithView::new(),
            request_file: HashMapWithView::new(),
        }
    }

    /// Consumes one command and dispatches it as the one engine
    /// instruction it calls for; the reply token rides along
    /// unchanged, so the reply can later be correlated.
    pub fn handle_command(&self, command: Command) -> (action: EngineAction)
        ensures
            match command {
                Command::StartListening { addr, reply } => action == EngineAction::Listen {
                    addr,
                    reply,
                },
                Command::Dial { peer_id, peer_addr, reply } => action == EngineAction::DialPeer {
                    peer_id,
                    peer_addr,
                    reply,
                },
                Command::StartProviding { file_name, reply } => action
                    == EngineAction::PublishProvider { file_name, reply },
                Command::GetProviders { file_name, reply } => action
                    == EngineAction::QueryProviders { file_name, reply },
                Command::RequestFile { file_name, peer, reply } => action
                    == EngineAction::OpenRequest { peer, file_name, reply },
                Command::RespondFile { file, channel } => action == EngineAction::SendResponse {
                    channel,
                    file,
                },
            },
    {
        match command {
            Command::StartListening { addr, reply } => EngineAction::Listen { addr, reply },
            Command::Dial { peer_id, peer_addr, reply } => EngineAction::DialPeer {
                peer_id,
                peer_addr,
                reply,
            },
            Command::StartProviding { file_name, reply } => EngineAction::PublishProvider {
                file_name,
                reply,
            },
            Command::GetProviders { file_name, reply } => EngineAction::QueryProviders {
                file_name,
                reply,
            },
            Command::RequestFile { file_name, peer, reply } => EngineAction::OpenRequest {
                peer,
                file_name,
                reply,
            },
            Command::RespondFile { file, channel } => EngineAction::SendResponse { channel, file },
        }
    }

    /// The bind result is known as soon as the engine is instructed
    /// to listen, so the reply goes straight back to its caller.
    pub fn listen_outcome(reply: ReplyToken, success: bool) -> (out: Outcome)
        ensures
            out == (Outcome::Reply {
                reply,
                value: ReplyValue::Listening(
                    if success {
                        Ok::<(), NetworkError>(())
                    } else {
                        Err::<(), NetworkError>(NetworkError::BindFailure)
                    },
                ),
            }),
    {
        if success {
            Outcome::Reply { reply, value: ReplyValue::Listening(Ok(())) }
        } else {
            Outcome::Reply { reply, value: ReplyValue::Listening(Err(NetworkError::BindFailure)) }
        }
    }

    /// A dial the engine refused outright (no known address, no
    /// transport) never gets an attempt id, so its caller is answered
    /// at once instead of being left to hang.
    pub fn dial_refused_outcome(reply: ReplyToken) -> (out: Outcome)
        ensures
            out == (Outcome::Reply {
                reply,
                value: ReplyValue::Dialed(
                    Err::<(), NetworkError>(NetworkError::ConnectionFailure),
                ),
            }),
    {
        Outcome::Reply { reply, value: ReplyValue::Dialed(Err(NetworkError::ConnectionFailure)) }
    }

    /// An outbound file request the engine refused outright never
    /// reached any connection, so its caller is answered at once
    /// with a connection failure.
    pub fn request_refused_outcome(reply: ReplyToken) -> (out: Outcome)
        ensures
            out == (Outcome::Reply {
                reply,
                value: ReplyValue::File(
                    Err::<String, NetworkError>(NetworkError::ConnectionFailure),
                ),
            }),
    {
        Outcome::Reply { reply, value: ReplyValue::File(Err(NetworkError::ConnectionFailure)) }
    }

    /// True when a dial under this attempt id is already in flight.
    pub fn has_pending_dial(&self, attempt_id: u64) -> (r: bool)
        ensures
            r == self.pending_dial().contains_key(attempt_id),
    {
        self.dial.contains_key(&attempt_id)
    }

    /// True when an advertisement under this query id is in flight.
    pub fn has_pending_start_providing(&self, query_id: u64) -> (r: bool)
        ensures
            r == self.pending_start_providing().contains_key(query_id),
    {
        self.start_providing.contains_key(&query_id)
    }

    /// True when a providers query under this query id is in flight.
    pub fn has_pending_get_providers(&self, query_id: u64) -> (r: bool)
        ensures
            r == self.pending_get_providers().contains_key(query_id),
    {
        self.get_providers.contains_key(&query_id)
    }

    /// True when a file request under this request id is in flight.
    pub fn has_pending_request_file(&self, request_id: u64) -> (r: bool)
        ensures
            r == self.pending_request_file().contains_key(request_id),
    {
        self.request_file.contains_key(&request_id)
    }

    /// Stores the reply channel of a dial under the attempt id the
    /// engine issued for it. An id may hold at most one pending
    /// entry: a second dial under a live id is a contract violation.
    pub fn register_dial(&mut self, attempt_id: u64, reply: ReplyToken)
        requires
            !old(self).pending_dial().contains_key(attempt_id),
        ensures
            final(self).pending_dial() == old(self).pending_dial().insert(attempt_id, reply),
            Self::same_but_dial(old(self), final(self)),
    {
        self.dial.insert(attempt_id, reply);
    }

    /// Stores the reply channel of an advertisement under its
    /// discovery query id.
    pub fn register_start_providing(&mut self, query_id: u64, reply: ReplyToken)
        requires
            !old(self).pending_start_providing().contains_key(query_id),
        ensures
            final(self).pending_start_providing() == old(self).pending_start_providing().insert(
                query_id,
                reply,
            ),
            Self::same_but_start_providing(old(self), final(self)),
    {
        self.start_providing.insert(query_id, reply);
    }

    /// Stores the reply channel of a providers query under its
    /// discovery query id.
    pub fn register_get_providers(&mut self, query_id: u64, reply: ReplyToken)
        requires
            !old(self).pending_get_providers().contains_key(query_id),
        ensures
            final(self).pending_get_providers() == old(self).pending_get_providers().insert(
                query_id,
                reply,
            ),
            Self::same_but_get_providers(old(self), final(self)),
    {
        self.get_providers.insert(query_id, reply);
    }

    /// Stores the reply channel of an outbound file request under the
    /// request id the engine issued for it.
    pub fn register_request_file(&mut self, request_id: u64, reply: ReplyToken)
        requires
            !old(self).pending_request_file().contains_key(request_id),
        ensures
            final(self).pending_request_file() == old(self).pending_request_file().insert(
                request_id,
                reply,
            ),
            Self::same_but_request_file(old(self), final(self)),
    {
        self.request_file.insert(request_id, reply);
    }

    /// Consumes one engine event. Every event that corresponds to a
    /// pending entry resolves that entry — removing it and producing
    /// exactly one reply, on failure paths as on success paths, so no
    /// caller is left to hang — while events with no pending entry,
    /// inbound failures and new listen addresses resolve nothing.
    /// An inbound request is forwarded to the application event
    /// stream with its one-use response channel.
    pub fn on_engine_event(&mut self, event: EngineEvent) -> (out: Option<Outcome>)
        ensures
            match event {
                EngineEvent::ConnectionEstablished { attempt_id } => Self::resolves_dial(
                    old(self),
                    final(self),
                    attempt_id,
                    ReplyValue::Dialed(Ok::<(), NetworkError>(())),
                    out,
                ),
                EngineEvent::OutgoingConnectionError { attempt_id } => Self::resolves_dial(
                    old(self),
                    final(self),
                    attempt_id,
                    ReplyValue::Dialed(Err::<(), NetworkError>(NetworkError::ConnectionFailure)),
                    out,
                ),
                EngineEvent::NewListenAddr { .. } => Self::all_same(old(self), final(self))
                    && out is None,
                EngineEvent::Behaviour(composed) => match composed {
                    ComposedEvent::Kademlia(discovery) => match discovery {
                        DiscoveryEvent::StartProvidingDone { query_id } => {
                            Self::resolves_start_providing(old(self), final(self), query_id, out)
                        },
                        DiscoveryEvent::ProvidersFound { query_id, providers } => {
                            Self::resolves_get_providers(
                                old(self),
                                final(self),
                                query_id,
                                providers@,
                                out,
                            )
                        },
                        DiscoveryEvent::ProvidersQueryFailed { query_id } => {
                            Self::resolves_get_providers(
                                old(self),
                                final(self),
                                query_id,
                                Seq::<crate::command::PeerIdentity>::empty(),
                                out,
                            )
                        },
                    },
                    ComposedEvent::RequestResponse(exchange) => match exchange {
                        ExchangeEvent::RequestReceived { file_name, channel } => {
                            &&& Self::all_same(old(self), final(self))
                            &&& out == Some(Outcome::InboundRequest { file_name, channel })
                        },
                        ExchangeEvent::ResponseReceived { request_id, file } => {
                            Self::resolves_request_file(
                                old(self),
                                final(self),
                                request_id,
                                ReplyValue::File(Ok::<String, NetworkError>(file)),
                                out,
                            )
                        },
                        ExchangeEvent::OutboundFailure { request_id, kind } => {
                            Self::resolves_request_file(
                                old(self),
                                final(self),
                                request_id,
                                ReplyValue::File(
                                    Err::<String, NetworkError>(
                                        match kind {
                                            OutboundFailureKind::Connection => NetworkError::ConnectionFailure,
                                            OutboundFailureKind::Transfer => NetworkError::TransferFailure,
                                        },
                                    ),
                                ),
                                out,
                            )
                        },
                        ExchangeEvent::InboundFailure => {
                            &&& Self::all_same(old(self), final(self))
                            &&& out is None
                        },
                    },
                },
            },
    {
        match event {
            EngineEvent::ConnectionEstablished { attempt_id } => {
                match self.dial.remove(&attempt_id) {
                    Some(reply) => Some(
                        Outcome::Reply { reply, value: ReplyValue::Dialed(Ok(())) },
                    ),
                    None => None,
                }
            },
            EngineEvent::OutgoingConnectionError { attempt_id } => {
                match self.dial.remove(&attempt_id) {
                    Some(reply) => Some(
                        Outcome::Reply {
                            reply,
                            value: ReplyValue::Dialed(Err(NetworkError::ConnectionFailure)),
                        },
                    ),
                    None => None,
                }
            },
            EngineEvent::NewListenAddr { .. } => None,
            EngineEvent::Behaviour(composed) => match composed {
                ComposedEvent::Kademlia(discovery) => match discovery {
                    DiscoveryEvent::StartProvidingDone { query_id } => {
                        match self.start_providing.remove(&query_id) {
                            Some(reply) => Some(
                                Outcome::Reply { reply, value: ReplyValue::Providing },
                            ),
                            None => None,
                        }
                    },
                    DiscoveryEvent::ProvidersFound { query_id, providers } => {
                        match self.get_providers.remove(&query_id) {
                            Some(reply) => Some(
                                Outcome::Reply { reply, value: ReplyValue::Providers(providers) },
                            ),
                            None => None,
                        }
                    },
                    DiscoveryEvent::ProvidersQueryFailed { query_id } => {
                        match self.get_providers.remove(&query_id) {
                            Some(reply) => Some(
                                Outcome::Reply { reply, value: ReplyValue::Providers(Vec::new()) },
                            ),
                            None => None,
                        }
                    },
                },
                ComposedEvent::RequestResponse(exchange) => match exchange {
                    ExchangeEvent::RequestReceived { file_name, channel } => Some(
                        Outcome::InboundRequest { file_name, channel },
                    ),
                    ExchangeEvent::ResponseReceived { request_id, file } => {
                        match self.request_file.remove(&request_id) {
                            Some(reply) => Some(
                                Outcome::Reply { reply, value: ReplyValue::File(Ok(file)) },
                            ),
                            None => None,
                        }
                    },
                    ExchangeEvent::OutboundFailure { request_id, kind } => {
                        match self.request_file.remove(&request_id) {
                            Some(reply) => {
                                let error = match kind {
                                    OutboundFailureKind::Connection => NetworkError::ConnectionFailure,
                                    OutboundFailureKind::Transfer => NetworkError::TransferFailure,
                                };
                                Some(Outcome::Reply { reply, value: ReplyValue::File(Err(error)) })
                            },
                            None => None,
                        }
                    },
                    ExchangeEvent::InboundFailure => None,
                },
            },
        }
    }
}

/// Law (reply exactly once, resolution side): resolving an in-flight
/// operation consumes its pending entry, so the same correlation id
/// cannot resolve a second reply; and no other entry is touched.
pub proof fn lemma_reply_exactly_once(pending: Map<u64, ReplyToken>, id: u64)
    requires
        pending.contains_key(id),
    ensures
        !pending.remove(id).contains_key(id),
        forall|other: u64|
            other != id ==> pending.remove(id).contains_key(other) == pending.contains_key(other),
        forall|other: u64|
            other != id && pending.contains_key(other) ==> pending.remove(id)[other]
                == pending[other],
{
}

/// Law (request/response pairing): the response text written into an
/// open exchange crosses the wire byte-identically — framed, parsed
/// and decoded back to the same text — and resolving the exchange
/// consumes exactly the entry registered for it, delivering to the
/// reply token of the request that opened it and to no other.
pub proof fn lemma_request_response_pairing(
    pending: Map<u64, ReplyToken>,
    request_id: u64,
    content: Seq<char>,
)
    requires
        pending.contains_key(request_id),
        1 <= vstd::utf8::encode_utf8(content).len() <= crate::protocol::MAX_MESSAGE_LEN,
    ensures
        crate::protocol::parse_frame(
            crate::protocol::frame_of(vstd::utf8::encode_utf8(content)),
        ) == Ok::<Seq<u8>, crate::protocol::CodecError>(vstd::utf8::encode_utf8(content)),
        vstd::utf8::decode_utf8(vstd::utf8::encode_utf8(content)) == content,
        !pending.remove(request_id).contains_key(request_id),
        forall|other: u64|
            other != request_id && pending.contains_key(other) ==> pending.remove(
                request_id,
            ).contains_key(other) && pending.remove(request_id)[other] == pending[other],
{
    crate::protocol::lemma_message_round_trip(content);
}

/// Law (no cross-talk): with two distinct exchanges in flight, each
/// resolves to its own reply token with its own result, whichever
/// completes first; the two resolutions commute.
pub proof fn lemma_no_cross_talk(pending: Map<u64, ReplyToken>, first: u64, second: u64)
    requires
        pending.contains_key(first),
        pending.contains_key(second),
        first != second,
    ensures
        pending.remove(second).contains_key(first) && pending.remove(second)[first]
            == pending[first],
        pending.remove(first).contains_key(second) && pending.remove(first)[second]
            == pending[second],
        pending.remove(first).remove(second) == pending.remove(second).remove(first),
{
    assert(pending.remove(first).remove(second) =~= pending.remove(second).remove(first));
}

} // verus!
