//! What one client connection sends: the snapshot replayed as deltas, then
//! every live delta, until an error delta, the end of the channel or a failed
//! send stops it.
use vstd::prelude::*;

use crate::event::{init_deltas, Delta, State};
use crate::{debug_text, display_text, Error};

verus! {

/// Messages the server sends outside the current-event protocol: keep-alives
/// and the error that ends a connection.
#[derive(Debug)]
pub enum ServerMessage {
    Ping,
    Error { debug: String, display: String },
}

impl ServerMessage {
    /// The message that reports an error to the client before the connection ends.
    pub fn from_error(e: &Error) -> (r: ServerMessage)
        ensures
            r matches ServerMessage::Error { debug, display } && debug@ == debug_text(*e)
                && display@ == display_text(*e),
    {
        ServerMessage::Error { debug: e.to_debug_string(), display: e.to_string() }
    }
}

/// Where a session stands.
#[derive(Debug, PartialEq, Eq, Structural)]
pub enum Phase {
    /// Waiting for the node's snapshot.
    Joining,
    /// Forwarding live deltas.
    Streaming,
    /// Nothing more is sent.
    Stopped,
}

/// What happens to a session.
pub enum SessionEvent {
    /// The node handed over its state at subscription.
    Joined(Result<State, Error>),
    /// The node applied a delta.
    Received(Delta),
    /// The delta channel ended.
    Closed,
    /// Sending to the client failed.
    SendFailed,
}

/// One client's session in the current-event protocol.
pub struct Session {
    pub phase: Phase,
}

/// The phase a session moves to on an event.
pub open spec fn next_phase(phase: Phase, event: SessionEvent) -> Phase {
    match (phase, event) {
        (Phase::Joining, SessionEvent::Joined(Ok(_))) => Phase::Streaming,
        (Phase::Streaming, SessionEvent::Received(d)) => if d is Error {
            Phase::Stopped
        } else {
            Phase::Streaming
        },
        _ => Phase::Stopped,
    }
}

/// The error delta a session sends when the node failed: it carries the
/// error's diagnostic and human-readable texts.
pub open spec fn reports(d: Delta, e: Error) -> bool {
    d matches Delta::Error { debug, display } && debug@ == debug_text(e) && display@ == display_text(
        e,
    )
}

/// Whether `out` is what a session in `phase` sends, in order, on an event.
pub open spec fn sends(phase: Phase, event: SessionEvent, out: Seq<Delta>) -> bool {
    match (phase, event) {
        (Phase::Joining, SessionEvent::Joined(Ok(s))) => out == init_deltas(s),
        (Phase::Joining, SessionEvent::Joined(Err(e))) => out.len() == 1 && reports(out[0], e),
        (Phase::Streaming, SessionEvent::Received(d)) => out == seq![d],
        _ => out.len() == 0,
    }
}

/// A stopped session sends nothing more and stays stopped, whatever happens.
pub proof fn lemma_stopped_session_is_silent(event: SessionEvent, out: Seq<Delta>)
    requires
        sends(Phase::Stopped, event, out),
    ensures
        out.len() == 0,
        next_phase(Phase::Stopped, event) == Phase::Stopped,
{
}

impl Session {
    pub fn new() -> (r: Session)
        ensures
            r.phase == Phase::Joining,
    {
        Session { phase: Phase::Joining }
    }

    pub fn is_stopped(&self) -> (r: bool)
        ensures
            r == (self.phase == Phase::Stopped),
    {
        match self.phase {
            Phase::Stopped => true,
            _ => false,
        }
    }

    /// Advances the session by one event and returns the deltas to send, in
    /// order. A snapshot is replayed as the version, then the event or its
    /// absence; a failed node is reported by one error delta, after which
    /// nothing is sent. Live deltas are forwarded one by one; an error delta
    /// is the last. A closed channel or a failed send stops the session.
    pub fn step(&mut self, event: SessionEvent) -> (r: Vec<Delta>)
        ensures
            final(self).phase == next_phase(old(self).phase, event),
            sends(old(self).phase, event, r@),
    {
        let mut out: Vec<Delta> = Vec::new();
        match (&self.phase, event) {
            (Phase::Joining, SessionEvent::Joined(Ok(state))) => {
                out = state.to_init_deltas();
                self.phase = Phase::Streaming;
            },
            (Phase::Joining, SessionEvent::Joined(Err(e))) => {
                out.push(Delta::from_error(&e));
                self.phase = Phase::Stopped;
            },
            (Phase::Streaming, SessionEvent::Received(delta)) => {
                let last = match &delta {
                    Delta::Error { .. } => true,
                    _ => false,
                };
                out.push(delta);
                if last {
                    self.phase = Phase::Stopped;
                }
            },
            _ => {
                self.phase = Phase::Stopped;
            },
        }
        proof {
            if old(self).phase == Phase::Streaming && event is Received {
                assert(out@ =~= seq![event->Received_0]);
            }
        }
        out
    }
}

/// What a client asks for once authenticated.
#[derive(Debug, PartialEq, Eq, Structural)]
pub enum SessionPurpose {
    /// The game subsystem, served elsewhere.
    RicochetRobots,
    /// The current-event protocol.
    CurrentEvent,
}

/// Where a connection stands before and after its purpose is known.
#[derive(Debug, PartialEq, Eq, Structural)]
pub enum ConnectionPhase {
    AwaitingCredential,
    AwaitingPurpose,
    /// Handed to the current-event session.
    Events,
    /// Handed to the game subsystem.
    Game,
    Closed,
}

/// What happens to a connection.
pub enum ConnectionInput {
    /// The credential was read and checked against the authentication service.
    Credential { known: bool },
    /// The session purpose was read.
    Purpose(SessionPurpose),
    /// Reading, authenticating or a session failed.
    Failed(Error),
}

/// What the connection does next.
pub enum ConnectionAction {
    /// Start the keep-alive pings and read the purpose.
    StartHeartbeat,
    /// Run the current-event session.
    RunEvents,
    /// Run the game session.
    RunGame,
    /// Send this message and close.
    Report(ServerMessage),
    /// Close without sending.
    Close,
}

/// One client connection: authentication, then the session its purpose selects.
pub struct Connection {
    pub phase: ConnectionPhase,
}

/// The phase a connection moves to on an input.
pub open spec fn next_connection_phase(phase: ConnectionPhase, input: ConnectionInput) -> ConnectionPhase {
    match (phase, input) {
        (ConnectionPhase::AwaitingCredential, ConnectionInput::Credential { known: true }) => ConnectionPhase::AwaitingPurpose,
        (ConnectionPhase::AwaitingPurpose, ConnectionInput::Purpose(SessionPurpose::CurrentEvent)) => ConnectionPhase::Events,
        (ConnectionPhase::AwaitingPurpose, ConnectionInput::Purpose(SessionPurpose::RicochetRobots)) => ConnectionPhase::Game,
        _ => ConnectionPhase::Closed,
    }
}

/// Whether the message reports this error.
pub open spec fn reports_error(m: ServerMessage, e: Error) -> bool {
    m matches ServerMessage::Error { debug, display } && debug@ == debug_text(e) && display@ == display_text(e)
}

/// Whether `a` is what a connection in `phase` does on an input: an unknown
/// credential and any failure before closing are reported to the client;
/// input out of order closes the connection silently.
pub open spec fn connection_does(phase: ConnectionPhase, input: ConnectionInput, a: ConnectionAction) -> bool {
    match (phase, input) {
        (ConnectionPhase::AwaitingCredential, ConnectionInput::Credential { known }) => if known {
            a is StartHeartbeat
        } else {
            a matches ConnectionAction::Report(m) && reports_error(m, Error::UnknownApiKey)
        },
        (ConnectionPhase::AwaitingPurpose, ConnectionInput::Purpose(p)) => if p == SessionPurpose::CurrentEvent {
            a is RunEvents
        } else {
            a is RunGame
        },
        (ConnectionPhase::Closed, _) => a is Close,
        (_, ConnectionInput::Failed(e)) => a matches ConnectionAction::Report(m) && reports_error(m, e),
        _ => a is Close,
    }
}

impl Connection {
    pub fn new() -> (r: Connection)
        ensures
            r.phase == ConnectionPhase::AwaitingCredential,
    {
        Connection { phase: ConnectionPhase::AwaitingCredential }
    }

    /// Advances the connection by one input and says what to do next.
    pub fn advance(&mut self, input: ConnectionInput) -> (r: ConnectionAction)
        ensures
            final(self).phase == next_connection_phase(old(self).phase, input),
            connection_does(old(self).phase, input, r),
    {
        match (&self.phase, input) {
            (ConnectionPhase::AwaitingCredential, ConnectionInput::Credential { known }) => {
                if known {
                    self.phase = ConnectionPhase::AwaitingPurpose;
                    ConnectionAction::StartHeartbeat
                } else {
                    self.phase = ConnectionPhase::Closed;
                    ConnectionAction::Report(ServerMessage::from_error(&Error::UnknownApiKey))
                }
            },
            (ConnectionPhase::AwaitingPurpose, ConnectionInput::Purpose(purpose)) => match purpose {
                SessionPurpose::CurrentEvent => {
                    self.phase = ConnectionPhase::Events;
                    ConnectionAction::RunEvents
                },
                SessionPurpose::RicochetRobots => {
                    self.phase = ConnectionPhase::Game;
                    ConnectionAction::RunGame
                },
            },
            (ConnectionPhase::Closed, _) => ConnectionAction::Close,
            (_, ConnectionInput::Failed(e)) => {
                self.phase = ConnectionPhase::Closed;
                ConnectionAction::Report(ServerMessage::from_error(&e))
            },
            _ => {
                self.phase = ConnectionPhase::Closed;
                ConnectionAction::Close
            },
        }
    }
}

} // verus!
