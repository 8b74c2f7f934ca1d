//! The collector's side of the channel: an accept loop that always has an
//! instance of the endpoint waiting for the next peer, and one reader per
//! accepted connection.
//!
//! The caller owns the endpoint instances and the tasks. It starts the
//! loop with [`begin_listen`], reports what happened to [`server_step`] and
//! [`reader_step`], and carries out the actions that come back.

use crate::frame::{
    decode_from_buffer, decoded, framed, has_terminator, lemma_round_trip, lemma_unterminated,
    TERMINATOR,
};
use vstd::multiset::Multiset;
use vstd::prelude::*;

verus! {

/// Where the accept loop stands.
#[derive(Debug, Clone, Copy, PartialEq, Eq, Structural)]
pub enum ServerState {
    /// The first instance of the endpoint is being created.
    Starting,
    /// An instance exists and waits for a peer.
    Listening,
    /// A peer has connected; the instance for the next peer is being
    /// created, and the connected peer waits for its reader.
    Replacing,
    /// The loop has ended.
    Stopped,
}

/// What the caller reports to the accept loop.
#[derive(Debug, Clone, Copy, PartialEq, Eq, Structural)]
pub enum ServerEvent {
    /// The instance asked for now exists.
    Created,
    /// The instance could not be created.
    CreateFailed,
    /// A peer has connected to the waiting instance.
    Connected,
    /// Waiting for a peer failed.
    ConnectFailed,
}

/// What the accept loop asks for.
#[derive(Debug, Clone, Copy, PartialEq, Eq, Structural)]
pub enum ServerAction {
    /// Create an instance of the endpoint. With `first_instance` the
    /// creation must fail if the endpoint already exists.
    Create { first_instance: bool },
    /// Wait for a peer on the instance just created.
    AwaitPeer,
    /// Start a reader for the connected peer, and wait for the next peer on
    /// the instance just created.
    ServeAndAwait,
    /// End the loop; a peer that waits for its reader is dropped.
    Stop,
}

/// The accept loop's policy: the state and the action that follow `event`
/// in `state`.
///
/// The first instance is created exclusively. Whenever a peer connects, the
/// instance for the next peer is created before the connected one gets its
/// reader, so that reading never keeps a peer from connecting. Any failure,
/// and any event that does not answer the call under way, ends the loop.
pub open spec fn server_next(state: ServerState, event: ServerEvent) -> (
    ServerState,
    ServerAction,
) {
    match (state, event) {
        (ServerState::Starting, ServerEvent::Created) => (
            ServerState::Listening,
            ServerAction::AwaitPeer,
        ),
        (ServerState::Listening, ServerEvent::Connected) => (
            ServerState::Replacing,
            ServerAction::Create { first_instance: false },
        ),
        (ServerState::Replacing, ServerEvent::Created) => (
            ServerState::Listening,
            ServerAction::ServeAndAwait,
        ),
        _ => (ServerState::Stopped, ServerAction::Stop),
    }
}

/// Whether `event` reports a failure.
pub open spec fn is_failure(event: ServerEvent) -> bool {
    event is CreateFailed || event is ConnectFailed
}

/// Whether `event` answers the call that is under way in `state`.
pub open spec fn answers(state: ServerState, event: ServerEvent) -> bool {
    match state {
        ServerState::Starting | ServerState::Replacing => event is Created || event
            is CreateFailed,
        ServerState::Listening => event is Connected || event is ConnectFailed,
        ServerState::Stopped => false,
    }
}

/// The trace of an accept loop that started in `state` and was told
/// `events` in turn: the state it ends in, how many peers connected, and how
/// many readers were started.
pub open spec fn server_run(state: ServerState, events: Seq<ServerEvent>) -> (
    ServerState,
    nat,
    nat,
)
    decreases events.len(),
{
    if events.len() == 0 {
        (state, 0, 0)
    } else {
        let (next, action) = server_next(state, events[0]);
        let rest = server_run(next, events.drop_first());
        let connected: nat = if state is Listening && events[0] is Connected {
            1
        } else {
            0
        };
        let served: nat = if action is ServeAndAwait {
            1
        } else {
            0
        };
        (rest.0, connected + rest.1, served + rest.2)
    }
}

/// Whether no event of a run, started in `state`, reports a failure or
/// fails to answer the call under way.
pub open spec fn runs_smoothly(state: ServerState, events: Seq<ServerEvent>) -> bool
    decreases events.len(),
{
    events.len() > 0 ==> {
        &&& answers(state, events[0])
        &&& !is_failure(events[0])
        &&& runs_smoothly(server_next(state, events[0]).0, events.drop_first())
    }
}

impl ServerState {
    /// The state in which the accept loop starts; the first action is
    /// `Create { first_instance: true }`.
    pub open spec fn first() -> ServerState {
        ServerState::Starting
    }
}

/// The accept loop ends only on a failure or on an event that does not
/// answer its call; it asks for the exclusive first instance at no later
/// time; and it starts a reader only when the instance for the next peer
/// exists.
pub proof fn lemma_accept_policy(state: ServerState, event: ServerEvent)
    ensures
        answers(state, event) && !is_failure(event) ==> !(server_next(state, event).0 is Stopped),
        !(server_next(state, event).1 matches ServerAction::Create { first_instance: true }),
        server_next(state, event).1 is ServeAndAwait ==> state is Replacing && event is Created
            && server_next(state, event).0 is Listening,
{
}

/// While nothing fails the loop never stops, no peer is refused and none
/// is served twice: every peer that connected has got its reader, but for
/// the one whose successor instance is still being created.
pub proof fn lemma_every_peer_served(state: ServerState, events: Seq<ServerEvent>)
    requires
        runs_smoothly(state, events),
        !(state is Stopped),
    ensures
        ({
            let (end, connected, served) = server_run(state, events);
            let before: nat = if state is Replacing {
                1
            } else {
                0
            };
            let after: nat = if end is Replacing {
                1
            } else {
                0
            };
            !(end is Stopped) && before + connected == served + after
        }),
    decreases events.len(),
{
    if events.len() > 0 {
        lemma_every_peer_served(server_next(state, events[0]).0, events.drop_first());
    }
}

/// Starts the accept loop: the state to start in and the first call to
/// make, which creates the first instance of the endpoint exclusively.
pub fn begin_listen() -> (r: (ServerState, ServerAction))
    ensures
        r == (ServerState::first(), ServerAction::Create { first_instance: true }),
{
    (ServerState::Starting, ServerAction::Create { first_instance: true })
}

/// One step of the accept loop.
pub fn server_step(state: ServerState, event: ServerEvent) -> (r: (ServerState, ServerAction))
    ensures
        r == server_next(state, event),
{
    match state {
        ServerState::Starting => match event {
            ServerEvent::Created => (ServerState::Listening, ServerAction::AwaitPeer),
            _ => (ServerState::Stopped, ServerAction::Stop),
        },
        ServerState::Listening => match event {
            ServerEvent::Connected => (
                ServerState::Replacing,
                ServerAction::Create { first_instance: false },
            ),
            _ => (ServerState::Stopped, ServerAction::Stop),
        },
        ServerState::Replacing => match event {
            ServerEvent::Created => (ServerState::Listening, ServerAction::ServeAndAwait),
            _ => (ServerState::Stopped, ServerAction::Stop),
        },
        ServerState::Stopped => (ServerState::Stopped, ServerAction::Stop),
    }
}

/// What happened when a reader polled its connection.
#[derive(Debug, Clone, Copy, PartialEq, Eq, Structural)]
pub enum ReaderEvent {
    /// Waiting for the connection to become readable failed.
    NotReadable,
    /// The read put `len` bytes at the start of the buffer.
    Read { len: usize },
    /// The read had nothing to deliver yet.
    WouldBlock,
    /// The read failed for any other reason.
    ReadFailed,
}

/// What a reader does next.
#[derive(Debug, PartialEq, Eq)]
pub enum ReaderAction {
    /// Yield, wait until the connection is readable, and read again.
    Poll,
    /// Hand this text to the output, then end: a connection carries one
    /// message.
    Publish(String),
    /// End without publishing.
    Stop,
}

/// A [`ReaderAction`] with its text as a sequence.
pub enum ReaderActionView {
    Poll,
    Publish(Seq<char>),
    Stop,
}

impl View for ReaderAction {
    type V = ReaderActionView;

    open spec fn view(&self) -> ReaderActionView {
        match self {
            ReaderAction::Poll => ReaderActionView::Poll,
            ReaderAction::Publish(text) => ReaderActionView::Publish(text@),
            ReaderAction::Stop => ReaderActionView::Stop,
        }
    }
}

/// The reader's policy for one poll of its connection, whose read used
/// `buffer`.
///
/// A read that delivered a terminator publishes the text before it and
/// ends the reader. A read without terminator is inconclusive: nothing is
/// published, the bytes are dropped and the reader polls again, as it does
/// after a read of no bytes or one that would block. A failure ends the
/// reader, and so does a length that the buffer cannot hold.
pub open spec fn reader_next(event: ReaderEvent, buffer: Seq<u8>) -> ReaderActionView {
    match event {
        ReaderEvent::Read { len } => {
            if len > buffer.len() {
                ReaderActionView::Stop
            } else if decoded(buffer.take(len as int)).1 {
                ReaderActionView::Publish(decoded(buffer.take(len as int)).0)
            } else {
                ReaderActionView::Poll
            }
        },
        ReaderEvent::WouldBlock => ReaderActionView::Poll,
        ReaderEvent::NotReadable | ReaderEvent::ReadFailed => ReaderActionView::Stop,
    }
}

/// What a sender writes, a reader publishes: a read that delivered the
/// frame of a text, whatever follows it in the buffer, publishes that text.
pub proof fn lemma_reader_publishes_frame(text: Seq<char>, buffer: Seq<u8>, len: usize)
    requires
        !has_terminator(text),
        framed(text).len() <= len <= buffer.len(),
        buffer.take(framed(text).len() as int) == framed(text),
    ensures
        reader_next(ReaderEvent::Read { len }, buffer) == ReaderActionView::Publish(text),
{
    let valid = buffer.take(len as int);
    let trailing = valid.skip(framed(text).len() as int);
    assert(valid =~= framed(text) + trailing) by {
        assert(valid.take(framed(text).len() as int) =~= buffer.take(framed(text).len() as int));
    }
    lemma_round_trip(text, trailing);
}

/// A read without terminator is never published, however many bytes it
/// delivered.
pub proof fn lemma_reader_keeps_polling(buffer: Seq<u8>, len: usize)
    requires
        len <= buffer.len(),
        !buffer.take(len as int).contains(TERMINATOR),
    ensures
        reader_next(ReaderEvent::Read { len }, buffer) == ReaderActionView::Poll,
{
    lemma_unterminated(buffer.take(len as int));
}

/// One poll of a reader as the policy sees it: the outcome of the read and
/// the buffer that was read into.
pub struct ReaderPoll {
    pub event: ReaderEvent,
    pub buffer: Seq<u8>,
}

/// What a reader publishes over its life, given the polls of its
/// connection in turn: the text of the first poll that is not answered with
/// `Poll`, if that poll is answered with `Publish`.
pub open spec fn reader_run(polls: Seq<ReaderPoll>) -> Option<Seq<char>>
    decreases polls.len(),
{
    if polls.len() == 0 {
        None
    } else {
        match reader_next(polls[0].event, polls[0].buffer) {
            ReaderActionView::Poll => reader_run(polls.drop_first()),
            ReaderActionView::Publish(text) => Some(text),
            ReaderActionView::Stop => None,
        }
    }
}

/// The lines that the readers of `connections` publish, each with the
/// number of times it is published. Every connection has a reader of its
/// own, which decides from its own reads alone, so the order in which the
/// readers run does not enter.
pub open spec fn published(connections: Seq<Seq<ReaderPoll>>) -> Multiset<Seq<char>>
    decreases connections.len(),
{
    if connections.len() == 0 {
        Multiset::empty()
    } else {
        let before = published(connections.drop_last());
        match reader_run(connections.last()) {
            Some(text) => before.insert(text),
            None => before,
        }
    }
}

/// Whether a poll delivered the frame of `text` at the start of its read.
pub open spec fn carries(poll: ReaderPoll, text: Seq<char>) -> bool {
    &&& poll.event matches ReaderEvent::Read { len }
    &&& framed(text).len() <= len <= poll.buffer.len()
    &&& poll.buffer.take(framed(text).len() as int) == framed(text)
}

/// Whether the polls of a connection deliver the frame of `text` in one
/// read, after any number of polls that the policy answers with `Poll`.
pub open spec fn delivers(polls: Seq<ReaderPoll>, text: Seq<char>) -> bool {
    exists|k: int|
        0 <= k < polls.len() && #[trigger] carries(polls[k], text) && forall|j: int|
            0 <= j < k ==> reader_next(#[trigger] polls[j].event, polls[j].buffer) is Poll
}

/// The events of an accept loop to which `peers` peers connect in turn
/// while nothing fails.
pub open spec fn accepting(peers: nat) -> Seq<ServerEvent>
    decreases peers,
{
    if peers == 0 {
        Seq::empty()
    } else {
        seq![ServerEvent::Connected, ServerEvent::Created] + accepting((peers - 1) as nat)
    }
}

/// A reader whose connection delivers the frame of a text publishes that
/// text.
proof fn lemma_reader_run_publishes(polls: Seq<ReaderPoll>, text: Seq<char>, k: int)
    requires
        !has_terminator(text),
        0 <= k < polls.len(),
        carries(polls[k], text),
        forall|j: int| 0 <= j < k ==> reader_next(#[trigger] polls[j].event, polls[j].buffer) is Poll,
    ensures
        reader_run(polls) == Some(text),
    decreases k,
{
    if k == 0 {
        let len = polls[0].event->len;
        lemma_reader_publishes_frame(text, polls[0].buffer, len);
    } else {
        let rest = polls.drop_first();
        assert(reader_next(polls[0].event, polls[0].buffer) is Poll);
        assert(rest[k - 1] == polls[k]);
        assert forall|j: int| 0 <= j < k - 1 implies reader_next(
            #[trigger] rest[j].event,
            rest[j].buffer,
        ) is Poll by {
            assert(rest[j] == polls[j + 1]);
        }
        lemma_reader_run_publishes(rest, text, k - 1);
    }
}

/// No peer is refused: an accept loop that listens, and to which any number
/// of peers connect while nothing fails, accepts every one of them, gives
/// every one its reader, and listens again.
pub proof fn lemma_all_peers_accepted(peers: nat)
    ensures
        runs_smoothly(ServerState::Listening, accepting(peers)),
        server_run(ServerState::Listening, accepting(peers)) == (
            ServerState::Listening,
            peers,
            peers,
        ),
    decreases peers,
{
    if peers > 0 {
        let rest = accepting((peers - 1) as nat);
        let events = accepting(peers);
        let after_connect = events.drop_first();
        lemma_all_peers_accepted((peers - 1) as nat);
        assert(events[0] == ServerEvent::Connected);
        assert(after_connect[0] == ServerEvent::Created);
        assert(after_connect.drop_first() =~= rest);
        assert(server_run(ServerState::Replacing, after_connect) == (
            ServerState::Listening,
            (peers - 1) as nat,
            peers,
        ));
        assert(runs_smoothly(ServerState::Replacing, after_connect));
    }
}

/// Every message is published exactly once, in whatever order the readers
/// run: when each connection delivers the frame of its message in one
/// read, the published lines are the messages, each as often as it was
/// sent, and nothing else.
pub proof fn lemma_all_messages_published(
    messages: Seq<Seq<char>>,
    connections: Seq<Seq<ReaderPoll>>,
)
    requires
        messages.len() == connections.len(),
        forall|i: int|
            #![trigger messages[i]]
            0 <= i < messages.len() ==> !has_terminator(messages[i]) && delivers(
                connections[i],
                messages[i],
            ),
    ensures
        published(connections) == messages.to_multiset(),
    decreases messages.len(),
{
    if messages.len() == 0 {
        assert(messages.to_multiset() =~= Multiset::empty()) by {
            messages.to_multiset_ensures();
            assert(messages.to_multiset().len() == 0);
        }
    } else {
        let text = messages.last();
        let polls = connections.last();
        let earlier = messages.drop_last();
        assert(!has_terminator(messages[messages.len() - 1]));
        assert(delivers(polls, text));
        let k = choose|k: int|
            0 <= k < polls.len() && #[trigger] carries(polls[k], text) && forall|j: int|
                0 <= j < k ==> reader_next(#[trigger] polls[j].event, polls[j].buffer) is Poll;
        lemma_reader_run_publishes(polls, text, k);
        assert forall|i: int| 0 <= i < earlier.len() implies !has_terminator(
            #[trigger] earlier[i],
        ) && delivers(connections.drop_last()[i], earlier[i]) by {
            assert(earlier[i] == messages[i]);
            assert(connections.drop_last()[i] == connections[i]);
        }
        lemma_all_messages_published(earlier, connections.drop_last());
        assert(messages =~= earlier.push(text));
        vstd::seq_lib::to_multiset_build(earlier, text);
    }
}

/// One poll of a reader: decides from the outcome of the read, and from the
/// buffer it read into, what the reader does next.
pub fn reader_step(event: ReaderEvent, buffer: &[u8]) -> (action: ReaderAction)
    ensures
        action@ == reader_next(event, buffer@),
{
    match event {
        ReaderEvent::Read { len } => {
            if len > buffer.len() {
                ReaderAction::Stop
            } else {
                let (text, complete) = decode_from_buffer(buffer, len);
                if complete {
                    ReaderAction::Publish(text)
                } else {
                    ReaderAction::Poll
                }
            }
        },
        ReaderEvent::WouldBlock => ReaderAction::Poll,
        _ => ReaderAction::Stop,
    }
}

} // verus!
