//! One WebSocket connection as a state machine: Connecting, then Open, then
//! Closed. The caller feeds it each event of the connection and performs
//! the action it returns.

use vstd::prelude::*;
use vstd::string::*;
use crate::store::CodeStore;
use crate::text::{code_update_json, encode_code_update, encode_string, json_string_of};

verus! {

/// The state of a session.
#[derive(PartialEq, Eq, Structural, Clone, Copy, Debug)]
pub enum SessionState {
    Connecting,
    Open,
    Closed,
}

/// A code-update message, `{"code": ...}`.
pub struct CodeUpdate {
    pub code: String,
}

/// The reason given with a close frame: a close code and an optional text.
pub struct CloseReason {
    pub code: u16,
    pub description: Option<String>,
}

impl View for CloseReason {
    type V = (u16, Option<Seq<char>>);

    open spec fn view(&self) -> (u16, Option<Seq<char>>) {
        (
            self.code,
            match self.description {
                Some(d) => Some(d@),
                None => None,
            },
        )
    }
}

pub open spec fn close_view(c: Option<CloseReason>) -> Option<(u16, Option<Seq<char>>)> {
    match c {
        Some(r) => Some(r@),
        None => None,
    }
}

/// What happens on a connection.
pub enum Event {
    /// The connection was accepted.
    Opened,
    /// A text frame; `None` where it did not parse as a code update.
    Text(Option<CodeUpdate>),
    Ping(Vec<u8>),
    Pong(Vec<u8>),
    Binary(Vec<u8>),
    Close(Option<CloseReason>),
}

/// The abstract value of an `Event`.
pub enum EventView {
    Opened,
    Text(Option<Seq<char>>),
    Ping(Seq<u8>),
    Pong(Seq<u8>),
    Binary(Seq<u8>),
    Close(Option<(u16, Option<Seq<char>>)>),
}

impl View for Event {
    type V = EventView;

    open spec fn view(&self) -> EventView {
        match self {
            Event::Opened => EventView::Opened,
            Event::Text(u) => EventView::Text(
                match u {
                    Some(c) => Some(c.code@),
                    None => None,
                },
            ),
            Event::Ping(p) => EventView::Ping(p@),
            Event::Pong(p) => EventView::Pong(p@),
            Event::Binary(b) => EventView::Binary(b@),
            Event::Close(c) => EventView::Close(close_view(*c)),
        }
    }
}

/// A frame for the caller to send.
pub enum Action {
    SendText(String),
    SendPong(Vec<u8>),
    SendClose(Option<CloseReason>),
}

/// The abstract value of an `Action`.
pub enum Outgoing {
    Text(Seq<char>),
    Pong(Seq<u8>),
    Close(Option<(u16, Option<Seq<char>>)>),
}

impl View for Action {
    type V = Outgoing;

    open spec fn view(&self) -> Outgoing {
        match self {
            Action::SendText(t) => Outgoing::Text(t@),
            Action::SendPong(p) => Outgoing::Pong(p@),
            Action::SendClose(c) => Outgoing::Close(close_view(*c)),
        }
    }
}

pub open spec fn action_view(a: Option<Action>) -> Option<Outgoing> {
    match a {
        Some(x) => Some(x@),
        None => None,
    }
}

/// The text of the greeting sent when a connection opens.
pub open spec fn greeting() -> Seq<char> {
    "WebSocket connection established"@
}

/// The state after an event.
pub open spec fn next_state(s: SessionState, e: EventView) -> SessionState {
    match s {
        SessionState::Connecting => if e is Opened {
            SessionState::Open
        } else {
            SessionState::Connecting
        },
        SessionState::Open => if e is Close {
            SessionState::Closed
        } else {
            SessionState::Open
        },
        SessionState::Closed => SessionState::Closed,
    }
}

/// The store's content after an event: only a well-formed code update on an
/// open session replaces it.
pub open spec fn store_after(s: SessionState, before: Seq<char>, e: EventView) -> Seq<char> {
    match e {
        EventView::Text(Some(code)) => if s is Open {
            code
        } else {
            before
        },
        _ => before,
    }
}

/// The frame sent in answer to an event, if any.
pub open spec fn reply_to(s: SessionState, e: EventView) -> Option<Outgoing> {
    match s {
        SessionState::Connecting => if e is Opened {
            Some(Outgoing::Text(code_update_json(greeting())))
        } else {
            None
        },
        SessionState::Open => match e {
            EventView::Text(Some(code)) => Some(Outgoing::Text(json_string_of(code))),
            EventView::Ping(p) => Some(Outgoing::Pong(p)),
            EventView::Close(c) => Some(Outgoing::Close(c)),
            _ => None,
        },
        SessionState::Closed => None,
    }
}

/// The frames sent, in order, in answer to a run of events from state `s`.
pub open spec fn replies(s: SessionState, events: Seq<EventView>) -> Seq<Outgoing>
    decreases events.len(),
{
    if events.len() == 0 {
        Seq::empty()
    } else {
        let here = match reply_to(s, events[0]) {
            Some(o) => seq![o],
            None => Seq::empty(),
        };
        here + replies(next_state(s, events[0]), events.drop_first())
    }
}

/// One connection.
pub struct Session {
    pub state: SessionState,
}

impl Session {
    /// A connection not yet accepted.
    pub fn new() -> (r: Session)
        ensures
            r.state == SessionState::Connecting,
    {
        Session { state: SessionState::Connecting }
    }

    /// Handles one event: updates the state and the store, and returns the
    /// frame to send, if any. A text frame that did not parse is dropped and
    /// the session stays open.
    pub fn step(&mut self, store: &mut CodeStore, event: Event) -> (r: Option<Action>)
        ensures
            final(self).state == next_state(old(self).state, event@),
            final(store)@ == store_after(old(self).state, old(store)@, event@),
            action_view(r) == reply_to(old(self).state, event@),
    {
        match self.state {
            SessionState::Connecting => match event {
                Event::Opened => {
                    self.state = SessionState::Open;
                    let greeting = String::from_str("WebSocket connection established");
                    Some(Action::SendText(encode_code_update(greeting.as_str())))
                },
                _ => None,
            },
            SessionState::Open => match event {
                Event::Text(Some(update)) => {
                    store.set(update.code);
                    let stored = store.get();
                    Some(Action::SendText(encode_string(stored.as_str())))
                },
                Event::Ping(payload) => Some(Action::SendPong(payload)),
                Event::Close(reason) => {
                    self.state = SessionState::Closed;
                    Some(Action::SendClose(reason))
                },
                _ => None,
            },
            SessionState::Closed => None,
        }
    }
}

/// Whatever events a new connection sees, the first frame it sends is the
/// greeting: nothing is answered before the connection is accepted, and
/// accepting it sends the greeting at once.
pub proof fn law_greeting_comes_first(events: Seq<EventView>)
    ensures
        replies(SessionState::Connecting, events).len() > 0 ==> replies(
            SessionState::Connecting,
            events,
        )[0] == Outgoing::Text(code_update_json(greeting())),
    decreases events.len(),
{
    if events.len() > 0 && !(events[0] is Opened) {
        law_greeting_comes_first(events.drop_first());
        assert(replies(SessionState::Connecting, events) =~= replies(
            SessionState::Connecting,
            events.drop_first(),
        ));
    }
}

} // verus!
