//! One connected client's side of the relay: a state machine from the
//! events of its connection to the actions the caller must perform on the
//! hub and on the transport. This relay is broadcast-only: text that a
//! client sends is ignored.
use vstd::prelude::*;
use crate::message::{BroadcastMessage, GenericResponse, MessageView, carried};

verus! {

/// The lifecycle of a session. `Closing` is passed through within the step
/// that closes the session: it unregisters and ends in `Closed`.
#[derive(Clone, Copy, Debug, PartialEq, Eq, Structural)]
pub enum SessionState {
    Connecting,
    Active,
    Closing,
    Closed,
}

/// What happens to a session.
pub enum SessionEvent {
    /// The transport upgrade completed.
    Started,
    /// The hub pushed a message to the session (the greeting is one too).
    Delivered(BroadcastMessage),
    /// The client sent a text frame.
    InboundText(String),
    /// The client sent a close frame.
    InboundClose,
    /// Reading from or writing to the transport failed.
    TransportFailed,
    /// The connection is being torn down, for whatever reason.
    Stopping,
}

/// What the caller must do after a step.
pub enum SessionAction {
    /// Register the session with the hub, then deliver the hub's current
    /// state to it as its greeting.
    Register,
    /// Write this envelope to the transport.
    Send(GenericResponse),
    /// Unregister the session from the hub and release the transport.
    Unregister,
    /// Nothing.
    Ignore,
}

/// The kind of an event, as a mathematical value.
pub enum EventKind {
    Started,
    Delivered(MessageView),
    InboundText,
    InboundClose,
    TransportFailed,
    Stopping,
}

/// The kind of an action, as a mathematical value.
pub enum ActionKind {
    Register,
    Send(MessageView),
    Unregister,
    Ignore,
}

pub open spec fn event_kind(e: SessionEvent) -> EventKind {
    match e {
        SessionEvent::Started => EventKind::Started,
        SessionEvent::Delivered(m) => EventKind::Delivered(m@),
        SessionEvent::InboundText(_) => EventKind::InboundText,
        SessionEvent::InboundClose => EventKind::InboundClose,
        SessionEvent::TransportFailed => EventKind::TransportFailed,
        SessionEvent::Stopping => EventKind::Stopping,
    }
}

/// An action that writes a message sends the "Message broadcasted"
/// envelope with that one message.
pub open spec fn action_kind(a: SessionAction) -> ActionKind {
    match a {
        SessionAction::Register => ActionKind::Register,
        SessionAction::Send(r) => if r.status@ == "success"@ && r.message@ == "Message broadcasted"@
            && carried(r).len() == 1 {
            ActionKind::Send(carried(r)[0])
        } else {
            ActionKind::Ignore
        },
        SessionAction::Unregister => ActionKind::Unregister,
        SessionAction::Ignore => ActionKind::Ignore,
    }
}

/// The next state and the action, for a state and an event.
pub open spec fn step_spec(s: SessionState, e: EventKind) -> (SessionState, ActionKind) {
    match e {
        EventKind::Started => if s == SessionState::Connecting {
            (SessionState::Active, ActionKind::Register)
        } else {
            (s, ActionKind::Ignore)
        },
        EventKind::Delivered(m) => if s == SessionState::Active {
            (s, ActionKind::Send(m))
        } else {
            (s, ActionKind::Ignore)
        },
        EventKind::InboundText => (s, ActionKind::Ignore),
        EventKind::InboundClose | EventKind::TransportFailed | EventKind::Stopping => if s
            == SessionState::Closed {
            (s, ActionKind::Ignore)
        } else if s == SessionState::Connecting {
            (SessionState::Closed, ActionKind::Ignore)
        } else {
            (SessionState::Closed, ActionKind::Unregister)
        },
    }
}

/// The state after the events, in order.
pub open spec fn run_session(s: SessionState, evs: Seq<EventKind>) -> SessionState
    decreases evs.len(),
{
    if evs.len() == 0 {
        s
    } else {
        run_session(step_spec(s, evs[0]).0, evs.subrange(1, evs.len() as int))
    }
}

/// How many of the steps through the events ask for action `a`.
pub open spec fn count_actions(s: SessionState, evs: Seq<EventKind>, a: ActionKind) -> nat
    decreases evs.len(),
{
    if evs.len() == 0 {
        0
    } else {
        (if step_spec(s, evs[0]).1 == a { 1nat } else { 0nat }) + count_actions(
            step_spec(s, evs[0]).0,
            evs.subrange(1, evs.len() as int),
            a,
        )
    }
}

/// A session asks to be registered at most once, and asks to be
/// unregistered exactly once if it was registered and has closed, however
/// close frames, write failures and teardown race, and never otherwise.
pub proof fn lemma_unregister_once(evs: Seq<EventKind>)
    ensures
        count_actions(SessionState::Connecting, evs, ActionKind::Register) <= 1,
        count_actions(SessionState::Connecting, evs, ActionKind::Unregister) == if count_actions(
            SessionState::Connecting,
            evs,
            ActionKind::Register,
        ) == 1 && run_session(SessionState::Connecting, evs) == SessionState::Closed {
            1nat
        } else {
            0nat
        },
{
    lemma_counts(SessionState::Connecting, evs);
}

proof fn lemma_counts(s: SessionState, evs: Seq<EventKind>)
    ensures
        s == SessionState::Closed ==> run_session(s, evs) == s
            && count_actions(s, evs, ActionKind::Register) == 0
            && count_actions(s, evs, ActionKind::Unregister) == 0,
        (s == SessionState::Active || s == SessionState::Closing) ==> count_actions(
            s,
            evs,
            ActionKind::Register,
        ) == 0 && count_actions(s, evs, ActionKind::Unregister) == if run_session(s, evs)
            == SessionState::Closed {
            1nat
        } else {
            0nat
        },
        s == SessionState::Connecting ==> count_actions(s, evs, ActionKind::Register) <= 1
            && count_actions(s, evs, ActionKind::Unregister) == if count_actions(
            s,
            evs,
            ActionKind::Register,
        ) == 1 && run_session(s, evs) == SessionState::Closed {
            1nat
        } else {
            0nat
        },
    decreases evs.len(),
{
    if evs.len() > 0 {
        let rest = evs.subrange(1, evs.len() as int);
        let next = step_spec(s, evs[0]).0;
        lemma_counts(next, rest);
    }
}

/// The server side of one connection, known to the hub by `id`.
pub struct MyWs {
    pub id: u64,
    pub state: SessionState,
}

impl MyWs {
    /// A session that has not started yet.
    pub fn new(id: u64) -> (r: MyWs)
        ensures
            r.id == id,
            r.state == SessionState::Connecting,
    {
        MyWs { id, state: SessionState::Connecting }
    }

    /// Advances the session by one event and says what the caller must do.
    pub fn step(&mut self, event: SessionEvent) -> (r: SessionAction)
        ensures
            final(self).id == old(self).id,
            (final(self).state, action_kind(r)) == step_spec(old(self).state, event_kind(event)),
    {
        match event {
            SessionEvent::Started => {
                if self.state == SessionState::Connecting {
                    self.state = SessionState::Active;
                    SessionAction::Register
                } else {
                    SessionAction::Ignore
                }
            },
            SessionEvent::Delivered(msg) => {
                if self.state == SessionState::Active {
                    let ghost m = msg@;
                    let r = GenericResponse::broadcasted(msg);
                    assert(carried(r)[0] == m);
                    SessionAction::Send(r)
                } else {
                    SessionAction::Ignore
                }
            },
            SessionEvent::InboundText(_) => SessionAction::Ignore,
            SessionEvent::InboundClose | SessionEvent::TransportFailed | SessionEvent::Stopping => {
                if self.state == SessionState::Closed {
                    SessionAction::Ignore
                } else if self.state == SessionState::Connecting {
                    self.state = SessionState::Closed;
                    SessionAction::Ignore
                } else {
                    self.state = SessionState::Closed;
                    SessionAction::Unregister
                }
            },
        }
    }
}

} // verus!
