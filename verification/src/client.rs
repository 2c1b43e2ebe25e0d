//! The caller-facing handle: each call builds one command around a
//! fresh single-use reply token and submits it to the event loop's
//! bounded command queue, which serializes submission — when the loop
//! has not yet drained the previous command, the caller is told to
//! wait, and nothing is dropped or reordered.

use vstd::pervasive::unreached;
use vstd::prelude::*;

use crate::command::{reply_of, Address, Command, PeerIdentity, ReplyToken, ResponseChannel};

verus! {

/// The ordered, bounded channel of commands from callers to the
/// event loop; the bound is what gives submission its back-pressure.
pub struct CommandQueue {
    items: Vec<Command>,
    cap: usize,
}

impl View for CommandQueue {
    type V = Seq<Command>;

    closed spec fn view(&self) -> Seq<Command> {
        self.items@
    }
}

impl CommandQueue {
    /// How many commands may wait unread at once.
    pub closed spec fn capacity(&self) -> int {
        self.cap as int
    }

    /// An empty queue with the given bound; a bound of one already
    /// serializes command submission.
    pub fn new(capacity: usize) -> (q: CommandQueue)
        ensures
            q@ == Seq::<Command>::empty(),
            q.capacity() == capacity as int,
    {
        CommandQueue { items: Vec::new(), cap: capacity }
    }

    /// How many commands wait unread now.
    pub fn len(&self) -> (n: usize)
        ensures
            n as int == self@.len(),
    {
        self.items.len()
    }

    /// Back-pressure law: a full queue hands the command back
    /// untouched and keeps its contents — the caller stays suspended
    /// until the loop drains — while a queue with room appends at the
    /// tail; either way nothing is dropped and nothing is reordered.
    pub fn try_send(&mut self, command: Command) -> (r: Result<(), Command>)
        ensures
            old(self)@.len() < old(self).capacity() ==> r is Ok && final(self)@ == old(self)@.push(command),
            old(self)@.len() >= old(self).capacity() ==> r == Err::<(), Command>(command) && final(self)@ == old(self)@,
            final(self).capacity() == old(self).capacity(),
    {
        if self.items.len() >= self.cap {
            Err(command)
        } else {
            self.items.push(command);
            Ok(())
        }
    }

    /// The loop drains in submission order: always the oldest
    /// command first.
    pub fn next_command(&mut self) -> (r: Option<Command>)
        ensures
            old(self)@.len() == 0 ==> r is None && final(self)@ == old(self)@,
            old(self)@.len() > 0 ==> (r matches Some(c) && c == old(self)@[0]) && final(self)@
                == old(self)@.subrange(1, old(self)@.len() as int),
            final(self).capacity() == old(self).capacity(),
    {
        if self.items.len() == 0 {
            None
        } else {
            let c = self.items.remove(0);
            proof {
                assert(self.items@ =~= old(self).items@.subrange(
                    1,
                    old(self).items@.len() as int,
                ));
            }
            Some(c)
        }
    }
}

/// Single-use tokens: every token in `outbox` was minted below
/// `next`, and no two reply-bearing commands share one.
pub open spec fn fresh_tokens(outbox: Seq<Command>, next: u64) -> bool {
    &&& forall|i: int|
        0 <= i < outbox.len() ==> (match reply_of(#[trigger] outbox[i]) {
            Some(t) => t.0 < next,
            None => true,
        })
    &&& forall|i: int, j: int|
        0 <= i < j < outbox.len() ==> (match (
            reply_of(#[trigger] outbox[i]),
            reply_of(#[trigger] outbox[j]),
        ) {
            (Some(t), Some(u)) => t != u,
            _ => true,
        })
}

/// Appending a command whose token (if any) is minted at or above
/// `next` keeps tokens single-use under any advanced counter.
proof fn lemma_fresh_tokens_push(outbox: Seq<Command>, next: u64, command: Command, advanced: u64)
    requires
        fresh_tokens(outbox, next),
        next <= advanced,
        match reply_of(command) {
            Some(t) => next <= t.0 < advanced,
            None => true,
        },
    ensures
        fresh_tokens(outbox.push(command), advanced),
{
    let post = outbox.push(command);
    assert forall|i: int| 0 <= i < post.len() implies (match reply_of(#[trigger] post[i]) {
        Some(t) => t.0 < advanced,
        None => true,
    }) by {
        if i < outbox.len() {
            assert(post[i] == outbox[i]);
        } else {
            assert(post[i] == command);
        }
    }
    assert forall|i: int, j: int| 0 <= i < j < post.len() implies (match (
        reply_of(#[trigger] post[i]),
        reply_of(#[trigger] post[j]),
    ) {
        (Some(t), Some(u)) => t != u,
        _ => true,
    }) by {
        if j < outbox.len() {
            assert(post[i] == outbox[i] && post[j] == outbox[j]);
        } else {
            assert(post[i] == outbox[i] && post[j] == command);
        }
    }
}

/// Draining the oldest command keeps tokens single-use.
proof fn lemma_fresh_tokens_pop(outbox: Seq<Command>, next: u64)
    requires
        fresh_tokens(outbox, next),
        outbox.len() > 0,
    ensures
        fresh_tokens(outbox.subrange(1, outbox.len() as int), next),
{
    let post = outbox.subrange(1, outbox.len() as int);
    assert forall|i: int| 0 <= i < post.len() implies (match reply_of(#[trigger] post[i]) {
        Some(t) => t.0 < next,
        None => true,
    }) by {
        assert(post[i] == outbox[i + 1]);
    }
    assert forall|i: int, j: int| 0 <= i < j < post.len() implies (match (
        reply_of(#[trigger] post[i]),
        reply_of(#[trigger] post[j]),
    ) {
        (Some(t), Some(u)) => t != u,
        _ => true,
    }) by {
        assert(post[i] == outbox[i + 1] && post[j] == outbox[j + 1]);
    }
}

/// The cloneable caller handle. It owns nothing but the command
/// queue and the counter from which fresh reply tokens are minted,
/// one per reply-bearing call, never reused.
pub struct Client {
    queue: CommandQueue,
    next_reply: u64,
}

impl Client {
    /// The commands submitted and not yet drained, oldest first.
    pub closed spec fn outbox(&self) -> Seq<Command> {
        self.queue@
    }

    /// The token the next reply-bearing call will carry.
    pub closed spec fn next_token(&self) -> u64 {
        self.next_reply
    }

    /// The queue's bound.
    pub closed spec fn capacity(&self) -> int {
        self.queue.capacity()
    }

    /// Single-use law, as the handle's invariant: no reply token is
    /// ever issued twice, so no reply channel can be resolved twice.
    pub open spec fn wf(&self) -> bool {
        fresh_tokens(self.outbox(), self.next_token())
    }

    /// A handle over the given queue; tokens start at zero.
    pub fn new(queue: CommandQueue) -> (c: Client)
        ensures
            c.outbox() == queue@,
            c.capacity() == queue.capacity(),
            c.next_token() == 0,
            queue@ == Seq::<Command>::empty() ==> c.wf(),
    {
        Client { queue, next_reply: 0 }
    }

    /// The loop side of the model: drain the oldest command.
    pub fn next_command(&mut self) -> (r: Option<Command>)
        requires
            old(self).wf(),
        ensures
            final(self).wf(),
            final(self).capacity() == old(self).capacity(),
            final(self).next_token() == old(self).next_token(),
            old(self).outbox().len() == 0 ==> r is None && final(self).outbox() == old(self).outbox(),
            old(self).outbox().len() > 0 ==> (r matches Some(c) && c == old(self).outbox()[0])
                && final(self).outbox() == old(self).outbox().subrange(
                1,
                old(self).outbox().len() as int,
            ),
    {
        proof {
            if self.queue@.len() > 0 {
                lemma_fresh_tokens_pop(self.queue@, self.next_reply);
            }
        }
        self.queue.next_command()
    }

    /// Asks the event loop to listen on `addr`; the reply carries the
    /// bind result.
    pub fn start_listening(&mut self, addr: Address) -> (r: Result<ReplyToken, Address>)
        requires
            old(self).wf(),
            old(self).next_token() < u64::MAX,
        ensures
            final(self).wf(),
            final(self).capacity() == old(self).capacity(),
            old(self).outbox().len() < old(self).capacity() ==> (r matches Ok(t) && t
                == (ReplyToken(old(self).next_token())) && final(self).outbox() == old(self).outbox().push((Command::StartListening { addr, reply: t })) && final(self).next_token() == old(self).next_token() + 1),
            old(self).outbox().len() >= old(self).capacity() ==> r == Err::<ReplyToken, Address>(
                addr,
            ) && final(self).outbox() == old(self).outbox() && final(self).next_token() == old(self).next_token(),
    {
        let reply = ReplyToken(self.next_reply);
        match self.queue.try_send(Command::StartListening { addr, reply }) {
            Ok(_) => {
                proof {
                    lemma_fresh_tokens_push(
                        old(self).queue@,
                        self.next_reply,
                        Command::StartListening { addr, reply },
                        (self.next_reply + 1) as u64,
                    );
                }
                self.next_reply = self.next_reply + 1;
                Ok(reply)
            },
            Err(returned) => match returned {
                Command::StartListening { addr, .. } => Err(addr),
                _ => unreached(),
            },
        }
    }

    /// Asks the event loop to reach `peer_id` at `peer_addr`; the
    /// reply carries the connection outcome.
    pub fn dial(&mut self, peer_id: PeerIdentity, peer_addr: Address) -> (r: Result<
        ReplyToken,
        (PeerIdentity, Address),
    >)
        requires
            old(self).wf(),
            old(self).next_token() < u64::MAX,
        ensures
            final(self).wf(),
            final(self).capacity() == old(self).capacity(),
            old(self).outbox().len() < old(self).capacity() ==> (r matches Ok(t) && t
                == (ReplyToken(old(self).next_token())) && final(self).outbox() == old(self).outbox().push((Command::Dial { peer_id, peer_addr, reply: t })) && final(self).next_token() == old(self).next_token() + 1),
            old(self).outbox().len() >= old(self).capacity() ==> r == Err::<
                ReplyToken,
                (PeerIdentity, Address),
            >((peer_id, peer_addr)) && final(self).outbox() == old(self).outbox() && final(self).next_token() == old(self).next_token(),
    {
        let reply = ReplyToken(self.next_reply);
        match self.queue.try_send(Command::Dial { peer_id, peer_addr, reply }) {
            Ok(_) => {
                proof {
                    lemma_fresh_tokens_push(
                        old(self).queue@,
                        self.next_reply,
                        Command::Dial { peer_id, peer_addr, reply },
                        (self.next_reply + 1) as u64,
                    );
                }
                self.next_reply = self.next_reply + 1;
                Ok(reply)
            },
            Err(returned) => match returned {
                Command::Dial { peer_id, peer_addr, .. } => Err((peer_id, peer_addr)),
                _ => unreached(),
            },
        }
    }

    /// Advertises `file_name` in the discovery index; the reply
    /// confirms publication.
    pub fn start_providing(&mut self, file_name: String) -> (r: Result<ReplyToken, String>)
        requires
            old(self).wf(),
            old(self).next_token() < u64::MAX,
        ensures
            final(self).wf(),
            final(self).capacity() == old(self).capacity(),
            old(self).outbox().len() < old(self).capacity() ==> (r matches Ok(t) && t
                == (ReplyToken(old(self).next_token())) && final(self).outbox() == old(self).outbox().push((Command::StartProviding { file_name, reply: t })) && final(self).next_token() == old(self).next_token() + 1),
            old(self).outbox().len() >= old(self).capacity() ==> r == Err::<ReplyToken, String>(
                file_name,
            ) && final(self).outbox() == old(self).outbox() && final(self).next_token() == old(self).next_token(),
    {
        let reply = ReplyToken(self.next_reply);
        match self.queue.try_send(Command::StartProviding { file_name, reply }) {
            Ok(_) => {
                proof {
                    lemma_fresh_tokens_push(
                        old(self).queue@,
                        self.next_reply,
                        Command::StartProviding { file_name, reply },
                        (self.next_reply + 1) as u64,
                    );
                }
                self.next_reply = self.next_reply + 1;
                Ok(reply)
            },
            Err(returned) => match returned {
                Command::StartProviding { file_name, .. } => Err(file_name),
                _ => unreached(),
            },
        }
    }

    /// Asks which peers currently provide `file_name`; the reply
    /// carries the provider set, possibly empty, never an error.
    pub fn get_providers(&mut self, file_name: String) -> (r: Result<ReplyToken, String>)
        requires
            old(self).wf(),
            old(self).next_token() < u64::MAX,
        ensures
            final(self).wf(),
            final(self).capacity() == old(self).capacity(),
            old(self).outbox().len() < old(self).capacity() ==> (r matches Ok(t) && t
                == (ReplyToken(old(self).next_token())) && final(self).outbox() == old(self).outbox().push((Command::GetProviders { file_name, reply: t })) && final(self).next_token() == old(self).next_token() + 1),
            old(self).outbox().len() >= old(self).capacity() ==> r == Err::<ReplyToken, String>(
                file_name,
            ) && final(self).outbox() == old(self).outbox() && final(self).next_token() == old(self).next_token(),
    {
        let reply = ReplyToken(self.next_reply);
        match self.queue.try_send(Command::GetProviders { file_name, reply }) {
            Ok(_) => {
                proof {
                    lemma_fresh_tokens_push(
                        old(self).queue@,
                        self.next_reply,
                        Command::GetProviders { file_name, reply },
                        (self.next_reply + 1) as u64,
                    );
                }
                self.next_reply = self.next_reply + 1;
                Ok(reply)
            },
            Err(returned) => match returned {
                Command::GetProviders { file_name, .. } => Err(file_name),
                _ => unreached(),
            },
        }
    }

    /// Fetches `file_name` from `peer`; the reply carries the file
    /// content, or a connection failure when the peer could not be
    /// reached, or a transfer failure when the exchange broke after
    /// the connection stood.
    pub fn request_file(&mut self, peer: PeerIdentity, file_name: String) -> (r: Result<
        ReplyToken,
        (PeerIdentity, String),
    >)
        requires
            old(self).wf(),
            old(self).next_token() < u64::MAX,
        ensures
            final(self).wf(),
            final(self).capacity() == old(self).capacity(),
            old(self).outbox().len() < old(self).capacity() ==> (r matches Ok(t) && t
                == (ReplyToken(old(self).next_token())) && final(self).outbox() == old(self).outbox().push((Command::RequestFile { file_name, peer, reply: t })) && final(self).next_token() == old(self).next_token() + 1),
            old(self).outbox().len() >= old(self).capacity() ==> r == Err::<
                ReplyToken,
                (PeerIdentity, String),
            >((peer, file_name)) && final(self).outbox() == old(self).outbox() && final(self).next_token() == old(self).next_token(),
    {
        let reply = ReplyToken(self.next_reply);
        match self.queue.try_send(Command::RequestFile { file_name, peer, reply }) {
            Ok(_) => {
                proof {
                    lemma_fresh_tokens_push(
                        old(self).queue@,
                        self.next_reply,
                        Command::RequestFile { file_name, peer, reply },
                        (self.next_reply + 1) as u64,
                    );
                }
                self.next_reply = self.next_reply + 1;
                Ok(reply)
            },
            Err(returned) => match returned {
                Command::RequestFile { file_name, peer, .. } => Err((peer, file_name)),
                _ => unreached(),
            },
        }
    }

    /// Sends `file` into the open exchange behind `channel`;
    /// fire-and-forget, no reply — a delivery failure surfaces at the
    /// requester on the far end, not here.
    pub fn respond_file(&mut self, file: String, channel: ResponseChannel) -> (r: Result<
        (),
        (String, ResponseChannel),
    >)
        requires
            old(self).wf(),
        ensures
            final(self).wf(),
            final(self).capacity() == old(self).capacity(),
            final(self).next_token() == old(self).next_token(),
            old(self).outbox().len() < old(self).capacity() ==> r is Ok && final(self).outbox()
                == old(self).outbox().push((Command::RespondFile { file, channel })),
            old(self).outbox().len() >= old(self).capacity() ==> r == Err::<
                (),
                (String, ResponseChannel),
            >((file, channel)) && final(self).outbox() == old(self).outbox(),
    {
        match self.queue.try_send(Command::RespondFile { file, channel }) {
            Ok(_) => {
                proof {
                    lemma_fresh_tokens_push(
                        old(self).queue@,
                        self.next_reply,
                        Command::RespondFile { file, channel },
                        self.next_reply,
                    );
                }
                Ok(())
            },
            Err(returned) => match returned {
                Command::RespondFile { file, channel } => Err((file, channel)),
                _ => unreached(),
            },
        }
    }
}

} // verus!
