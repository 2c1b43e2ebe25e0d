//! The composed engine event: the two independent network behaviours
//! (provider discovery and request/response exchange) each raise
//! their own events, and this union merges them into the single
//! stream that the event loop consumes.

use vstd::prelude::*;

use crate::command::{Address, PeerIdentity, ResponseChannel};

verus! {

/// An event of the provider-discovery behaviour, keyed by the query
/// id that the substrate issued when the query started.
#[derive(Debug, Clone, PartialEq, Eq)]
pub enum DiscoveryEvent {
    /// The advertisement of a key is published.
    StartProvidingDone { query_id: u64 },
    /// The peers found to provide a key; possibly none.
    ProvidersFound { query_id: u64, providers: Vec<PeerIdentity> },
    /// The providers query failed or timed out; to its caller this
    /// surfaces as an empty provider set, never as an error.
    ProvidersQueryFailed { query_id: u64 },
}

/// Why an outbound exchange failed: before any connection stood, or
/// on one that did. The caller's error keeps that distinction.
#[derive(Debug, Clone, Copy, PartialEq, Eq, Structural)]
pub enum OutboundFailureKind {
    /// The peer could not be reached at all: no known address, no
    /// route, or every dial failed.
    Connection,
    /// The exchange broke after the connection stood: the peer
    /// closed early, timed out, or sent a malformed message.
    Transfer,
}

/// An event of the request/response behaviour.
#[derive(Debug, Clone, PartialEq, Eq)]
pub enum ExchangeEvent {
    /// A peer opened an exchange asking for a file; the channel must
    /// carry exactly one response back.
    RequestReceived { file_name: String, channel: ResponseChannel },
    /// The response to an outbound request arrived.
    ResponseReceived { request_id: u64, file: String },
    /// An outbound request failed, before or after its connection
    /// stood.
    OutboundFailure { request_id: u64, kind: OutboundFailureKind },
    /// A response of ours could not be delivered; the requester on
    /// the far end observes the failure instead, so nothing resolves
    /// here.
    InboundFailure,
}

/// The single discriminated event type of the composed behaviour:
/// whichever sub-behaviour raised an event, it arrives at the event
/// loop wrapped in the corresponding variant.
#[derive(Debug, Clone, PartialEq, Eq)]
pub enum ComposedEvent {
    RequestResponse(ExchangeEvent),
    Kademlia(DiscoveryEvent),
}

impl From<ExchangeEvent> for ComposedEvent {
    fn from(event: ExchangeEvent) -> (r: Self) {
        ComposedEvent::RequestResponse(event)
    }
}

impl vstd::std_specs::convert::FromSpecImpl<ExchangeEvent> for ComposedEvent {
    open spec fn obeys_from_spec() -> bool {
        true
    }

    open spec fn from_spec(event: ExchangeEvent) -> Self {
        ComposedEvent::RequestResponse(event)
    }
}

impl From<DiscoveryEvent> for ComposedEvent {
    fn from(event: DiscoveryEvent) -> (r: Self) {
        ComposedEvent::Kademlia(event)
    }
}

impl vstd::std_specs::convert::FromSpecImpl<DiscoveryEvent> for ComposedEvent {
    open spec fn obeys_from_spec() -> bool {
        true
    }

    open spec fn from_spec(event: DiscoveryEvent) -> Self {
        ComposedEvent::Kademlia(event)
    }
}

/// Everything the network engine can report to the event loop: an
/// event of the composed behaviour, a dial outcome keyed by its
/// attempt id, or a newly bound listen address.
#[derive(Debug, Clone, PartialEq, Eq)]
pub enum EngineEvent {
    Behaviour(ComposedEvent),
    ConnectionEstablished { attempt_id: u64 },
    OutgoingConnectionError { attempt_id: u64 },
    NewListenAddr { addr: Address },
}

} // verus!
