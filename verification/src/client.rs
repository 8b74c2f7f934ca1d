//! The sender's side of the channel: one connection, one framed message,
//! no acknowledgement.
//!
//! The caller performs the operating system calls. It starts with
//! [`begin_send`], reports the outcome of each call to [`client_step`], and
//! carries out the action that comes back, until that is
//! [`ClientAction::Finish`].

use crate::frame::{encode, framed, has_terminator};
use vstd::prelude::*;

verus! {

/// How many times a busy endpoint is tried again before the message is
/// given up.
pub const MAX_RETRIES: u32 = 10;

/// How long one wait for a busy endpoint may take, in milliseconds.
pub const RETRY_WAIT_MILLIS: u32 = 10;

/// Where a send stands.
#[derive(Debug, Clone, Copy, PartialEq, Eq, Structural)]
pub enum ClientState {
    /// An attempt to open the endpoint is under way, after `retries` waits.
    Opening { retries: u32 },
    /// A wait for the busy endpoint is under way; it is wait number `retries`.
    Waiting { retries: u32 },
    /// The connection is open and the frame is being written.
    Writing,
    /// The connection is being closed.
    Closing,
    /// Nothing is left to do.
    Done,
}

/// What the caller reports back.
#[derive(Debug, Clone, Copy, PartialEq, Eq, Structural)]
pub enum ClientEvent {
    /// The endpoint was opened for writing.
    Opened,
    /// The endpoint exists but every instance of it is taken.
    Busy,
    /// The endpoint could not be opened for any other reason.
    OpenFailed,
    /// The wait ended with an instance free.
    EndpointFree,
    /// The wait ended without an instance becoming free.
    WaitExpired,
    /// The write returned, whether it succeeded or not.
    Written,
    /// The connection was closed.
    Closed,
}

/// What the caller does next.
#[derive(Debug, PartialEq, Eq)]
pub enum ClientAction {
    /// Try to open the endpoint for writing.
    Open,
    /// Wait for an instance of the endpoint, at most this long.
    Wait { millis: u32 },
    /// Write these bytes in one call.
    Write(Vec<u8>),
    /// Close the connection.
    Close,
    /// Return to the caller; nothing is reported, whatever happened.
    Finish,
}

/// A [`ClientAction`] with its bytes as a sequence.
pub enum ClientActionView {
    Open,
    Wait { millis: u32 },
    Write(Seq<u8>),
    Close,
    Finish,
}

impl View for ClientAction {
    type V = ClientActionView;

    open spec fn view(&self) -> ClientActionView {
        match self {
            ClientAction::Open => ClientActionView::Open,
            ClientAction::Wait { millis } => ClientActionView::Wait { millis: *millis },
            ClientAction::Write(bytes) => ClientActionView::Write(bytes@),
            ClientAction::Close => ClientActionView::Close,
            ClientAction::Finish => ClientActionView::Finish,
        }
    }
}

/// The sender's policy: the state and the action that follow `event` in
/// `state`, for the message `text`.
///
/// A busy endpoint is waited for and tried again, [`MAX_RETRIES`] times at
/// most. Once the endpoint is open the frame of `text` is written in one
/// call and the connection is closed, whatever the write returned; a text
/// that cannot be framed is not written at all. Every failure, and every
/// event that does not answer the call under way, ends the send silently,
/// after closing the connection if one is open.
pub open spec fn client_next(state: ClientState, event: ClientEvent, text: Seq<char>) -> (
    ClientState,
    ClientActionView,
) {
    match (state, event) {
        (ClientState::Opening { retries }, ClientEvent::Opened) => {
            if has_terminator(text) {
                (ClientState::Closing, ClientActionView::Close)
            } else {
                (ClientState::Writing, ClientActionView::Write(framed(text)))
            }
        },
        (ClientState::Opening { retries }, ClientEvent::Busy) => {
            if retries < MAX_RETRIES {
                (
                    ClientState::Waiting { retries: (retries + 1) as u32 },
                    ClientActionView::Wait { millis: RETRY_WAIT_MILLIS },
                )
            } else {
                (ClientState::Done, ClientActionView::Finish)
            }
        },
        (ClientState::Waiting { retries }, ClientEvent::EndpointFree) => (
            ClientState::Opening { retries },
            ClientActionView::Open,
        ),
        (ClientState::Writing, _) => (ClientState::Closing, ClientActionView::Close),
        _ => (ClientState::Done, ClientActionView::Finish),
    }
}

/// An upper bound on the steps that are left before a send is done.
pub open spec fn steps_left(state: ClientState) -> nat {
    match state {
        ClientState::Opening { retries } => if retries < MAX_RETRIES {
            (3 + 2 * (MAX_RETRIES - retries)) as nat
        } else {
            3
        },
        ClientState::Waiting { retries } => if retries < MAX_RETRIES {
            (4 + 2 * (MAX_RETRIES - retries)) as nat
        } else {
            4
        },
        ClientState::Writing => 2,
        ClientState::Closing => 1,
        ClientState::Done => 0,
    }
}

/// The state a send is in after the caller has reported `events` in turn,
/// starting in `state`.
pub open spec fn client_run(state: ClientState, events: Seq<ClientEvent>, text: Seq<char>)
    -> ClientState
    decreases events.len(),
{
    if events.len() == 0 {
        state
    } else {
        client_run(client_next(state, events[0], text).0, events.drop_first(), text)
    }
}

/// How many of the actions of a run, starting in `state`, satisfy `wanted`.
pub open spec fn count_actions(
    state: ClientState,
    events: Seq<ClientEvent>,
    text: Seq<char>,
    wanted: spec_fn(ClientActionView) -> bool,
) -> nat
    decreases events.len(),
{
    if events.len() == 0 {
        0
    } else {
        let (next, action) = client_next(state, events[0], text);
        let here: nat = if wanted(action) {
            1
        } else {
            0
        };
        here + count_actions(next, events.drop_first(), text, wanted)
    }
}

impl ClientState {
    /// The state in which a send starts; the first action is
    /// [`ClientAction::Open`].
    pub open spec fn first() -> ClientState {
        ClientState::Opening { retries: 0 }
    }
}

/// Every step brings a send nearer to its end, and a send that is done
/// stays done.
pub proof fn lemma_step_makes_progress(state: ClientState, event: ClientEvent, text: Seq<char>)
    ensures
        state != ClientState::Done ==> steps_left(client_next(state, event, text).0) < steps_left(
            state,
        ),
        state == ClientState::Done ==> client_next(state, event, text) == (
            ClientState::Done,
            ClientActionView::Finish,
        ),
{
}

/// A send never stalls: whatever the caller reports, it is done after as
/// many steps as `steps_left` allows, 23 from the start.
pub proof fn lemma_send_is_bounded(state: ClientState, events: Seq<ClientEvent>, text: Seq<char>)
    requires
        events.len() >= steps_left(state),
    ensures
        client_run(state, events, text) == ClientState::Done,
        steps_left(ClientState::first()) == 23,
    decreases events.len(),
{
    if events.len() > 0 {
        lemma_step_makes_progress(state, events[0], text);
        lemma_send_is_bounded(client_next(state, events[0], text).0, events.drop_first(), text);
    }
}

/// Fire and forget: in a whole send the endpoint is opened at most once more
/// than it is retried, and the message is written at most once.
pub proof fn lemma_send_attempts(events: Seq<ClientEvent>, text: Seq<char>)
    ensures
        count_actions(
            ClientState::first(),
            events,
            text,
            |a: ClientActionView| a is Open,
        ) <= MAX_RETRIES,
        count_actions(ClientState::first(), events, text, |a: ClientActionView| a is Write) <= 1,
{
    lemma_opens_left(ClientState::first(), events, text);
    lemma_writes_left(ClientState::first(), events, text);
}

/// How often a send in `state` can still ask to open the endpoint.
spec fn opens_left(state: ClientState) -> int {
    match state {
        ClientState::Opening { retries } => if retries < MAX_RETRIES {
            MAX_RETRIES - retries
        } else {
            0
        },
        ClientState::Waiting { retries } => if retries <= MAX_RETRIES {
            MAX_RETRIES - retries + 1
        } else {
            1
        },
        _ => 0,
    }
}

/// How often a send in `state` can still ask to write.
spec fn writes_left(state: ClientState) -> int {
    match state {
        ClientState::Opening { .. } | ClientState::Waiting { .. } => 1,
        _ => 0,
    }
}

/// A run asks to open the endpoint no more often than `opens_left` says.
proof fn lemma_opens_left(state: ClientState, events: Seq<ClientEvent>, text: Seq<char>)
    ensures
        count_actions(state, events, text, |a: ClientActionView| a is Open) <= opens_left(state),
    decreases events.len(),
{
    if events.len() > 0 {
        lemma_opens_left(client_next(state, events[0], text).0, events.drop_first(), text);
    }
}

/// A run asks to write no more often than `writes_left` says.
proof fn lemma_writes_left(state: ClientState, events: Seq<ClientEvent>, text: Seq<char>)
    ensures
        count_actions(state, events, text, |a: ClientActionView| a is Write) <= writes_left(state),
    decreases events.len(),
{
    if events.len() > 0 {
        lemma_writes_left(client_next(state, events[0], text).0, events.drop_first(), text);
    }
}

/// Starts a send: the state to start in and the first call to make.
pub fn begin_send() -> (r: (ClientState, ClientAction))
    ensures
        r.0 == ClientState::first(),
        r.1@ == ClientActionView::Open,
{
    (ClientState::Opening { retries: 0 }, ClientAction::Open)
}

/// One step of a send: takes the outcome of the call under way and returns
/// the state that follows and the call to make next.
pub fn client_step(state: ClientState, event: ClientEvent, text: &str) -> (r: (
    ClientState,
    ClientAction,
))
    ensures
        (r.0, r.1@) == client_next(state, event, text@),
{
    match state {
        ClientState::Opening { retries } => match event {
            ClientEvent::Opened => match encode(text) {
                Ok(bytes) => (ClientState::Writing, ClientAction::Write(bytes)),
                Err(_) => (ClientState::Closing, ClientAction::Close),
            },
            ClientEvent::Busy => {
                if retries < MAX_RETRIES {
                    (
                        ClientState::Waiting { retries: retries + 1 },
                        ClientAction::Wait { millis: RETRY_WAIT_MILLIS },
                    )
                } else {
                    (ClientState::Done, ClientAction::Finish)
                }
            },
            _ => (ClientState::Done, ClientAction::Finish),
        },
        ClientState::Waiting { retries } => match event {
            ClientEvent::EndpointFree => (ClientState::Opening { retries }, ClientAction::Open),
            _ => (ClientState::Done, ClientAction::Finish),
        },
        ClientState::Writing => (ClientState::Closing, ClientAction::Close),
        _ => (ClientState::Done, ClientAction::Finish),
    }
}

} // verus!
