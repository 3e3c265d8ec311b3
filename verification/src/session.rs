use vstd::prelude::*;

use crate::bus::{Bus, RecvOutcome, RecvView, Subscription, spec_recv_cursor, spec_recv_outcome};
use crate::message::{CAPACITY, Message, MessageView, is_sentinel, payload_is_sentinel, valid_origin};

verus! {

/// Lifecycle of a session: it relays as soon as its socket is acquired,
/// starts terminating once it observes the sentinel (or its socket fails),
/// and is closed once its bus handles are released.
#[derive(Clone, Copy, Debug, PartialEq, Eq, Structural)]
pub enum SessionState {
    Connected,
    Relaying,
    Terminating,
    Closed,
}

/// Per-peer runtime state: the stable peer id, the lifecycle state, and this
/// session's private subscription into the bus. The socket itself stays with
/// the caller, which feeds its bytes in and writes delivered payloads out.
pub struct Session {
    peer_id: i32,
    state: SessionState,
    sub: Subscription,
}

/// The mathematical content of a session.
pub ghost struct SessionView {
    pub peer_id: int,
    pub state: SessionState,
    pub cursor: nat,
}

impl View for Session {
    type V = SessionView;

    closed spec fn view(&self) -> SessionView {
        SessionView { peer_id: self.peer_id as int, state: self.state, cursor: self.sub@ }
    }
}

/// What one bus poll asks the caller to do with its socket.
#[derive(Debug, PartialEq, Eq)]
pub enum SessionPoll {
    /// A message from the other peer: write its payload to the socket.
    Deliver(Message),
    /// This session's own message came back and was discarded.
    Skipped,
    /// Nothing pending.
    Idle,
    /// The session fell behind the bus by this many messages.
    Lagged(usize),
    /// The bus reported closure; the session stops relaying.
    Stopped,
}

impl Session {
    /// Session invariant: its peer id names a peer.
    pub open spec fn wf(&self) -> bool {
        valid_origin(self@.peer_id)
    }

    /// A session for one accepted peer: registers its publisher handle and
    /// takes its private subscription before any relaying starts.
    pub fn new(peer_id: i32, bus: &mut Bus) -> (s: Session)
        requires
            valid_origin(peer_id as int),
            old(bus)@.publishers < usize::MAX as nat,
            old(bus)@.subscribers < usize::MAX as nat,
        ensures
            final(bus)@.log == old(bus)@.log,
            final(bus)@.bound == old(bus)@.bound,
            final(bus)@.publishers == old(bus)@.publishers + 1,
            final(bus)@.subscribers == old(bus)@.subscribers + 1,
            s@.peer_id == peer_id as int,
            s@.state == SessionState::Connected,
            s@.cursor == old(bus)@.log.len(),
            s.wf(),
    {
        bus.register_publisher();
        let sub = bus.subscribe();
        Session { peer_id, state: SessionState::Connected, sub }
    }

    /// The session's stable peer id.
    pub fn peer_id(&self) -> (id: i32)
        ensures
            id as int == self@.peer_id,
    {
        self.peer_id
    }

    /// Where the session stands in its lifecycle.
    pub fn state(&self) -> (s: SessionState)
        ensures
            s == self@.state,
    {
        self.state
    }

    /// Connected -> Relaying: the socket handle is in place.
    pub fn start(&mut self)
        requires
            old(self)@.state == SessionState::Connected,
        ensures
            final(self)@.peer_id == old(self)@.peer_id,
            final(self)@.cursor == old(self)@.cursor,
            final(self)@.state == SessionState::Relaying,
    {
        self.state = SessionState::Relaying;
    }

    /// Bytes arrived on this session's socket: wrap them in a message tagged
    /// with this session's peer id and publish it. On the sentinel the
    /// session turns to Terminating — after publishing, so the peer's quit
    /// is still observed by everyone else.
    pub fn handle_socket_read(&mut self, bus: &mut Bus, payload: Vec<u8>)
        requires
            old(self).wf(),
            old(self)@.state == SessionState::Relaying,
            payload@.len() <= CAPACITY as int,
        ensures
            final(bus)@.log == old(bus)@.log.push(
                MessageView { payload: payload@, origin: old(self)@.peer_id },
            ),
            final(bus)@.bound == old(bus)@.bound,
            final(bus)@.publishers == old(bus)@.publishers,
            final(bus)@.subscribers == old(bus)@.subscribers,
            final(self)@.peer_id == old(self)@.peer_id,
            final(self)@.cursor == old(self)@.cursor,
            final(self)@.state == (if is_sentinel(payload@) {
                SessionState::Terminating
            } else {
                SessionState::Relaying
            }),
            final(self).wf(),
    {
        let quit = payload_is_sentinel(&payload);
        let m = Message::new(payload, self.peer_id);
        bus.publish(m);
        if quit {
            self.state = SessionState::Terminating;
        }
    }

    /// One non-blocking poll of the bus. A delivered message never carries
    /// this session's own origin: a session's own traffic coming back on its
    /// subscription is discarded, never echoed to its socket. Observing
    /// another peer's sentinel turns the session to Terminating, after the
    /// sentinel itself is handed out for relaying.
    pub fn poll_bus(&mut self, bus: &Bus) -> (r: SessionPoll)
        requires
            old(self).wf(),
            old(self)@.state == SessionState::Relaying,
        ensures
            final(self)@.peer_id == old(self)@.peer_id,
            final(self)@.cursor == spec_recv_cursor(bus@, old(self)@.cursor),
            final(self).wf(),
            (match r {
                SessionPoll::Deliver(m) => {
                    &&& spec_recv_outcome(bus@, old(self)@.cursor) == RecvView::Msg(m@)
                    &&& m@.origin != old(self)@.peer_id
                    &&& final(self)@.state == (if is_sentinel(m@.payload) {
                        SessionState::Terminating
                    } else {
                        SessionState::Relaying
                    })
                },
                SessionPoll::Skipped => {
                    &&& spec_recv_outcome(bus@, old(self)@.cursor) matches RecvView::Msg(mv)
                        && mv.origin == old(self)@.peer_id
                    &&& final(self)@.state == SessionState::Relaying
                },
                SessionPoll::Idle => {
                    &&& spec_recv_outcome(bus@, old(self)@.cursor) == RecvView::Empty
                    &&& final(self)@.state == SessionState::Relaying
                },
                SessionPoll::Lagged(k) => {
                    &&& spec_recv_outcome(bus@, old(self)@.cursor) == RecvView::Lagged(k as nat)
                    &&& final(self)@.state == SessionState::Relaying
                },
                SessionPoll::Stopped => {
                    &&& spec_recv_outcome(bus@, old(self)@.cursor) == RecvView::Closed
                    &&& final(self)@.state == SessionState::Terminating
                },
            }),
    {
        match bus.receive(&mut self.sub) {
            RecvOutcome::Msg(m) => {
                if m.origin == self.peer_id {
                    SessionPoll::Skipped
                } else {
                    let quit = payload_is_sentinel(&m.payload);
                    if quit {
                        self.state = SessionState::Terminating;
                    }
                    SessionPoll::Deliver(m)
                }
            },
            RecvOutcome::Empty => SessionPoll::Idle,
            RecvOutcome::Lagged(k) => SessionPoll::Lagged(k),
            RecvOutcome::Closed => {
                self.state = SessionState::Terminating;
                SessionPoll::Stopped
            },
        }
    }

    /// A genuine socket failure (not "no data yet") ends relaying.
    pub fn socket_failed(&mut self)
        requires
            old(self)@.state == SessionState::Relaying,
        ensures
            final(self)@.peer_id == old(self)@.peer_id,
            final(self)@.cursor == old(self)@.cursor,
            final(self)@.state == SessionState::Terminating,
    {
        self.state = SessionState::Terminating;
    }

    /// Terminating -> Closed: releases this session's publisher handle and
    /// its subscription promptly, so the bus's closure signal stays accurate.
    pub fn close(&mut self, bus: &mut Bus)
        requires
            old(self)@.state == SessionState::Terminating,
            old(bus)@.publishers >= 1,
            old(bus)@.subscribers >= 1,
        ensures
            final(bus)@.log == old(bus)@.log,
            final(bus)@.bound == old(bus)@.bound,
            final(bus)@.publishers == old(bus)@.publishers - 1,
            final(bus)@.subscribers == old(bus)@.subscribers - 1,
            final(self)@.peer_id == old(self)@.peer_id,
            final(self)@.cursor == old(self)@.cursor,
            final(self)@.state == SessionState::Closed,
    {
        bus.drop_publisher();
        bus.drop_subscription();
        self.state = SessionState::Closed;
    }
}

} // verus!
