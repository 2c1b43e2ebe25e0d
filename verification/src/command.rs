//! The typed command protocol: what an application caller may ask of
//! the event loop, the engine instruction each command dispatches to,
//! and the values delivered back to callers.

use vstd::prelude::*;

verus! {

/// Opaque identity of a network participant: the raw bytes of its
/// public-key-derived identifier.
#[derive(Debug, Clone, PartialEq, Eq)]
pub struct PeerIdentity(pub Vec<u8>);

impl View for PeerIdentity {
    type V = Seq<u8>;

    open spec fn view(&self) -> Seq<u8> {
        self.0@
    }
}

/// A multi-protocol network address in its text form; a peer may have
/// many, and none is unique to a peer.
#[derive(Debug, Clone, PartialEq, Eq)]
pub struct Address(pub String);

impl View for Address {
    type V = Seq<char>;

    open spec fn view(&self) -> Seq<char> {
        self.0@
    }
}

/// Stands for one caller's single-use reply channel: each reply-bearing
/// command carries exactly one, and the event loop delivers to it
/// exactly once.
#[derive(Debug, Clone, Copy, PartialEq, Eq, Structural)]
pub struct ReplyToken(pub u64);

/// Single-use handle bound to one open inbound exchange; it travels
/// from the event loop through the application event stream back to
/// the event loop carrying the response, then is consumed.
#[derive(Debug, Clone, Copy, PartialEq, Eq, Structural)]
pub struct ResponseChannel(pub u64);

/// A failure surfaced to a caller; a providers query is never one
/// (an empty provider set is a normal answer).
#[derive(Debug, Clone, Copy, PartialEq, Eq, Structural)]
pub enum NetworkError {
    /// The listening address could not be bound.
    BindFailure,
    /// The peer was unreachable or the connection was refused or dropped.
    ConnectionFailure,
    /// An outbound exchange failed after the connection stood, the
    /// peer closed early, or its message could not be decoded.
    TransferFailure,
}

/// The closed set of operations a caller may request; each
/// reply-bearing command is consumed exactly once by the event loop.
#[derive(Debug, Clone, PartialEq, Eq)]
pub enum Command {
    StartListening { addr: Address, reply: ReplyToken },
    Dial { peer_id: PeerIdentity, peer_addr: Address, reply: ReplyToken },
    StartProviding { file_name: String, reply: ReplyToken },
    GetProviders { file_name: String, reply: ReplyToken },
    RequestFile { file_name: String, peer: PeerIdentity, reply: ReplyToken },
    RespondFile { file: String, channel: ResponseChannel },
}

/// The reply token a command carries, if it bears one; `RespondFile`
/// is fire-and-forget and bears none.
pub open spec fn reply_of(command: Command) -> Option<ReplyToken> {
    match command {
        Command::StartListening { reply, .. } => Some(reply),
        Command::Dial { reply, .. } => Some(reply),
        Command::StartProviding { reply, .. } => Some(reply),
        Command::GetProviders { reply, .. } => Some(reply),
        Command::RequestFile { reply, .. } => Some(reply),
        Command::RespondFile { .. } => None,
    }
}

/// The one engine instruction that a command dispatches to; the
/// reply token rides along so that the engine-issued correlation id
/// can be registered against it.
#[derive(Debug, Clone, PartialEq, Eq)]
pub enum EngineAction {
    Listen { addr: Address, reply: ReplyToken },
    DialPeer { peer_id: PeerIdentity, peer_addr: Address, reply: ReplyToken },
    PublishProvider { file_name: String, reply: ReplyToken },
    QueryProviders { file_name: String, reply: ReplyToken },
    OpenRequest { peer: PeerIdentity, file_name: String, reply: ReplyToken },
    SendResponse { channel: ResponseChannel, file: String },
}

/// The value delivered over a reply channel, one per reply-bearing
/// command.
#[derive(Debug, PartialEq, Eq)]
pub enum ReplyValue {
    /// Listening was bound, or why not.
    Listening(Result<(), NetworkError>),
    /// The dial completed, or why not.
    Dialed(Result<(), NetworkError>),
    /// The advertisement is published; publication has no failure at
    /// this layer.
    Providing,
    /// The peers currently known to provide a key; possibly none,
    /// which is a valid answer and not an error.
    Providers(Vec<PeerIdentity>),
    /// The requested file's content, or why the transfer failed.
    File(Result<String, NetworkError>),
}

/// What one event-loop step hands outward: a reply to the caller that
/// awaits it, or an inbound request for the application event stream.
#[derive(Debug, PartialEq, Eq)]
pub enum Outcome {
    Reply { reply: ReplyToken, value: ReplyValue },
    InboundRequest { file_name: String, channel: ResponseChannel },
}

} // verus!
