//! The life of a connection: `Connecting`, `Established`, `Closing`, `Closed`.
//!
//! A connection's handle exists from the end of the handshake. Two tasks run
//! beside it: the accept loop, and a watcher that tells the consumer once why
//! the session closed. The application may ask for the session to be closed
//! at any time; finalizing the handle stops both tasks and closes the session
//! abruptly with code zero.
//!
//! The functions here decide what is to be done on each event. Doing it, and
//! waiting for the next event, is the caller's part.

use crate::transport::{connection_error_text, connection_text, ErrorCode};
use vstd::prelude::*;

verus! {

/// Where a connection stands.
#[derive(Clone, Copy, Debug, PartialEq, Eq, Structural)]
pub enum ConnectionState {
    /// The handshake is in flight; no handle exists yet.
    Connecting,
    /// The handshake succeeded; both tasks run.
    Established,
    /// Either side asked for the session to be closed; the session is winding
    /// down.
    Closing,
    /// The consumer has been told that the session closed, or the handshake
    /// failed, or the handle was finalized.
    Closed,
}

/// A request to close the session: an application code and opaque reason
/// bytes.
#[derive(Debug, PartialEq, Eq)]
pub struct CloseRequest {
    pub code: ErrorCode,
    pub reason: Vec<u8>,
}

impl View for CloseRequest {
    type V = (u64, Seq<u8>);

    open spec fn view(&self) -> (u64, Seq<u8>) {
        (self.code@, self.reason@)
    }
}

/// What can happen to a connection.
#[derive(Debug, PartialEq, Eq)]
pub enum ConnectionEvent {
    /// The handshake completed.
    Connected,
    /// The handshake failed, with the failure as text.
    ConnectFailed(String),
    /// The application asks for the session to be closed.
    CloseRequested(CloseRequest),
    /// The close watcher saw the session begin to close.
    SessionClosing,
    /// The session has closed and is idle, with the reason as text.
    SessionClosed(String),
    /// The handle is being finalized.
    Finalized,
}

/// An event by what it holds.
pub enum ConnectionEventView {
    Connected,
    ConnectFailed(Seq<char>),
    CloseRequested(u64, Seq<u8>),
    SessionClosing,
    SessionClosed(Seq<char>),
    Finalized,
}

impl View for ConnectionEvent {
    type V = ConnectionEventView;

    open spec fn view(&self) -> ConnectionEventView {
        match *self {
            ConnectionEvent::Connected => ConnectionEventView::Connected,
            ConnectionEvent::ConnectFailed(text) => ConnectionEventView::ConnectFailed(text@),
            ConnectionEvent::CloseRequested(request) => ConnectionEventView::CloseRequested(
                request.code@,
                request.reason@,
            ),
            ConnectionEvent::SessionClosing => ConnectionEventView::SessionClosing,
            ConnectionEvent::SessionClosed(text) => ConnectionEventView::SessionClosed(text@),
            ConnectionEvent::Finalized => ConnectionEventView::Finalized,
        }
    }
}

/// What the caller is asked to do.
#[derive(Debug, PartialEq, Eq)]
pub enum ConnectionAction {
    /// Start the close watcher and the accept loop.
    StartTasks,
    /// Fail the connect request with this text; no handle is produced.
    FailConnect(String),
    /// Ask the transport to close the session with this code and reason.
    CloseSession(CloseRequest),
    /// Tell the consumer that the connection closed, and why.
    NotifyClosed(String),
    /// Stop the close watcher and the accept loop.
    StopTasks,
}

/// An action by what it holds.
pub enum ConnectionActionView {
    StartTasks,
    FailConnect(Seq<char>),
    CloseSession(u64, Seq<u8>),
    NotifyClosed(Seq<char>),
    StopTasks,
}

impl View for ConnectionAction {
    type V = ConnectionActionView;

    open spec fn view(&self) -> ConnectionActionView {
        match *self {
            ConnectionAction::StartTasks => ConnectionActionView::StartTasks,
            ConnectionAction::FailConnect(text) => ConnectionActionView::FailConnect(text@),
            ConnectionAction::CloseSession(request) => ConnectionActionView::CloseSession(
                request.code@,
                request.reason@,
            ),
            ConnectionAction::NotifyClosed(text) => ConnectionActionView::NotifyClosed(text@),
            ConnectionAction::StopTasks => ConnectionActionView::StopTasks,
        }
    }
}

/// The views of a list of actions, in order.
pub open spec fn connection_action_views(actions: Seq<ConnectionAction>) -> Seq<
    ConnectionActionView,
> {
    actions.map_values(|a: ConnectionAction| a@)
}

/// One event in one state: the actions to carry out, in order, and the state
/// that follows.
pub open spec fn connection_step(state: ConnectionState, event: ConnectionEventView) -> (
    Seq<ConnectionActionView>,
    ConnectionState,
) {
    match (state, event) {
        (ConnectionState::Connecting, ConnectionEventView::Connected) => (
            seq![ConnectionActionView::StartTasks],
            ConnectionState::Established,
        ),
        (ConnectionState::Connecting, ConnectionEventView::ConnectFailed(text)) => (
            seq![ConnectionActionView::FailConnect(text)],
            ConnectionState::Closed,
        ),
        (ConnectionState::Connecting, _) => (Seq::empty(), ConnectionState::Connecting),
        (_, ConnectionEventView::Connected) => (Seq::empty(), state),
        (_, ConnectionEventView::ConnectFailed(_)) => (Seq::empty(), state),
        (_, ConnectionEventView::CloseRequested(code, reason)) => (
            seq![ConnectionActionView::CloseSession(code, reason)],
            if state is Established {
                ConnectionState::Closing
            } else {
                state
            },
        ),
        (_, ConnectionEventView::SessionClosing) => (
            Seq::empty(),
            if state is Established {
                ConnectionState::Closing
            } else {
                state
            },
        ),
        (ConnectionState::Closed, ConnectionEventView::SessionClosed(_)) => (
            Seq::empty(),
            ConnectionState::Closed,
        ),
        (_, ConnectionEventView::SessionClosed(text)) => (
            seq![ConnectionActionView::NotifyClosed(text)],
            ConnectionState::Closed,
        ),
        (_, ConnectionEventView::Finalized) => (
            seq![
                ConnectionActionView::StopTasks,
                ConnectionActionView::CloseSession(0, Seq::empty()),
            ],
            ConnectionState::Closed,
        ),
    }
}

/// A connection's life over `events`, from `state`: all actions in order, and
/// the state at the end.
pub open spec fn connection_run(state: ConnectionState, events: Seq<ConnectionEventView>) -> (
    Seq<ConnectionActionView>,
    ConnectionState,
)
    decreases events.len(),
{
    if events.len() == 0 {
        (Seq::empty(), state)
    } else {
        let before = connection_run(state, events.drop_last());
        let turn = connection_step(before.1, events.last());
        (before.0 + turn.0, turn.1)
    }
}

/// How often `actions` tell the consumer that the connection closed.
pub open spec fn closure_notices(actions: Seq<ConnectionActionView>) -> nat
    decreases actions.len(),
{
    if actions.len() == 0 {
        0
    } else {
        closure_notices(actions.drop_last()) + if actions.last() is NotifyClosed {
            1nat
        } else {
            0nat
        }
    }
}

/// The lifecycle of one connection.
pub struct Connection {
    state: ConnectionState,
}

impl View for Connection {
    type V = ConnectionState;

    closed spec fn view(&self) -> ConnectionState {
        self.state
    }
}

impl Connection {
    /// A connection whose handshake has just been started.
    pub fn new() -> (connection: Self)
        ensures
            connection@ is Connecting,
    {
        Connection { state: ConnectionState::Connecting }
    }

    /// Where the connection stands.
    pub fn state(&self) -> (state: ConnectionState)
        ensures
            state == self@,
    {
        self.state
    }

    /// Takes one event and says what to do, in order.
    pub fn step(&mut self, event: ConnectionEvent) -> (actions: Vec<ConnectionAction>)
        ensures
            (connection_action_views(actions@), final(self)@) == connection_step(
                old(self)@,
                event@,
            ),
    {
        let mut actions: Vec<ConnectionAction> = Vec::new();
        let state = self.state;
        match event {
            ConnectionEvent::Connected => {
                if let ConnectionState::Connecting = state {
                    self.state = ConnectionState::Established;
                    actions.push(ConnectionAction::StartTasks);
                }
            },
            ConnectionEvent::ConnectFailed(text) => {
                if let ConnectionState::Connecting = state {
                    self.state = ConnectionState::Closed;
                    actions.push(ConnectionAction::FailConnect(text));
                }
            },
            ConnectionEvent::CloseRequested(request) => {
                match state {
                    ConnectionState::Connecting => {},
                    ConnectionState::Established => {
                        self.state = ConnectionState::Closing;
                        actions.push(ConnectionAction::CloseSession(request));
                    },
                    _ => {
                        actions.push(ConnectionAction::CloseSession(request));
                    },
                }
            },
            ConnectionEvent::SessionClosing => {
                if let ConnectionState::Established = state {
                    self.state = ConnectionState::Closing;
                }
            },
            ConnectionEvent::SessionClosed(text) => {
                match state {
                    ConnectionState::Connecting => {},
                    ConnectionState::Closed => {},
                    _ => {
                        self.state = ConnectionState::Closed;
                        actions.push(ConnectionAction::NotifyClosed(text));
                    },
                }
            },
            ConnectionEvent::Finalized => {
                match state {
                    ConnectionState::Connecting => {},
                    _ => {
                        self.state = ConnectionState::Closed;
                        actions.push(ConnectionAction::StopTasks);
                        actions.push(
                            ConnectionAction::CloseSession(
                                CloseRequest { code: ErrorCode::from_u32(0), reason: Vec::new() },
                            ),
                        );
                    },
                }
            },
        }
        assert(connection_action_views(actions@) =~= connection_step(old(self)@, event@).0);
        actions
    }

    /// The application's request to close the session with `code`, and with
    /// `reason` if it gave one: the reason is empty otherwise.
    pub fn close_connection(&mut self, code: u32, reason: Option<Vec<u8>>) -> (actions: Vec<
        ConnectionAction,
    >)
        ensures
            (connection_action_views(actions@), final(self)@) == connection_step(
                old(self)@,
                ConnectionEventView::CloseRequested(
                    code as u64,
                    match reason {
                        Some(bytes) => bytes@,
                        None => Seq::empty(),
                    },
                ),
            ),
    {
        let reason = match reason {
            Some(bytes) => bytes,
            None => Vec::new(),
        };
        let request = CloseRequest { code: ErrorCode::from_u32(code), reason };
        self.step(ConnectionEvent::CloseRequested(request))
    }

    /// The close watcher's first report: the session has begun to close.
    pub fn session_closing(&mut self)
        ensures
            (Seq::<ConnectionActionView>::empty(), final(self)@) == connection_step(
                old(self)@,
                ConnectionEventView::SessionClosing,
            ),
    {
        let actions = self.step(ConnectionEvent::SessionClosing);
        assert(connection_action_views(actions@).len() == 0);
        assert(connection_action_views(actions@) =~= Seq::empty());
    }

    /// The close watcher's last report: the session closed for `reason` and
    /// is idle. The consumer is told the text that `reason` displays as, once.
    pub fn session_closed(&mut self, reason: &quinn::ConnectionError) -> (actions: Vec<
        ConnectionAction,
    >)
        ensures
            (connection_action_views(actions@), final(self)@) == connection_step(
                old(self)@,
                ConnectionEventView::SessionClosed(connection_text(*reason)),
            ),
    {
        let text = connection_error_text(reason);
        self.step(ConnectionEvent::SessionClosed(text))
    }

    /// Finalizes the handle: both tasks are stopped and the session is closed
    /// with code zero and no reason.
    pub fn finalize(&mut self) -> (actions: Vec<ConnectionAction>)
        ensures
            (connection_action_views(actions@), final(self)@) == connection_step(
                old(self)@,
                ConnectionEventView::Finalized,
            ),
    {
        self.step(ConnectionEvent::Finalized)
    }
}

/// Over the whole life of a connection, whatever happens to it, the consumer
/// is told at most once that it closed, and a connection that is closed stays
/// closed.
pub proof fn lemma_one_closure_notice(events: Seq<ConnectionEventView>)
    ensures
        closure_notices(connection_run(ConnectionState::Connecting, events).0) <= 1,
        closure_notices(connection_run(ConnectionState::Connecting, events).0) == 1
            ==> connection_run(ConnectionState::Connecting, events).1 is Closed,
    decreases events.len(),
{
    if events.len() > 0 {
        lemma_one_closure_notice(events.drop_last());
        let before = connection_run(ConnectionState::Connecting, events.drop_last());
        let turn = connection_step(before.1, events.last());
        lemma_notices_of_concat(before.0, turn.0);
        lemma_notices_of_turn(before.1, events.last());
    }
}

/// A single turn tells the consumer of the closure at most once, and only on
/// the way into `Closed` from a state that is not `Closed`.
proof fn lemma_notices_of_turn(state: ConnectionState, event: ConnectionEventView)
    ensures
        closure_notices(connection_step(state, event).0) <= 1,
        closure_notices(connection_step(state, event).0) == 1 ==> !(state is Closed)
            && connection_step(state, event).1 is Closed,
        state is Closed ==> connection_step(state, event).1 is Closed,
{
    let turn = connection_step(state, event).0;
    if turn.len() == 1 {
        assert(turn.drop_last() =~= Seq::empty());
        assert(closure_notices(turn.drop_last()) == 0);
    } else if turn.len() == 2 {
        assert(turn.drop_last().drop_last() =~= Seq::empty());
        assert(closure_notices(turn.drop_last().drop_last()) == 0);
        assert(closure_notices(turn.drop_last()) == 0);
    }
}

/// The closure notices of two lists of actions in a row add up.
proof fn lemma_notices_of_concat(
    first: Seq<ConnectionActionView>,
    second: Seq<ConnectionActionView>,
)
    ensures
        closure_notices(first + second) == closure_notices(first) + closure_notices(second),
    decreases second.len(),
{
    if second.len() == 0 {
        assert(first + second =~= first);
    } else {
        lemma_notices_of_concat(first, second.drop_last());
        assert((first + second).drop_last() =~= first + second.drop_last());
        assert((first + second).last() == second.last());
    }
}

} // verus!
