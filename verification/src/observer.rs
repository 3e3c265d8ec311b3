use vstd::prelude::*;

use crate::bus::{Bus, RecvOutcome, RecvView, Subscription, spec_recv_cursor, spec_recv_outcome};
use crate::message::{Message, MessageView};

verus! {

/// The observer watches until the bus closes, then it is finished.
#[derive(Clone, Copy, Debug, PartialEq, Eq, Structural)]
pub enum ObserverState {
    Watching,
    Finished,
}

/// What one observer poll did.
#[derive(Debug, PartialEq, Eq)]
pub enum ObserverPoll {
    /// A message was received and appended to the observer's log.
    Logged,
    /// Nothing pending.
    Idle,
    /// The observer fell behind by this many messages; it notes the loss
    /// and keeps watching.
    Missed(usize),
    /// No publisher remains: the whole server may shut down.
    Finished,
}

/// The passive bus subscriber: it never publishes, it records every message
/// it receives — exactly one entry per message, in publish order — and it
/// detects when no publisher remains, which is the server's shutdown signal.
pub struct Observer {
    sub: Subscription,
    entries: Vec<Message>,
    state: ObserverState,
}

/// The mathematical content of an observer.
pub ghost struct ObserverView {
    pub cursor: nat,
    pub entries: Seq<MessageView>,
    pub state: ObserverState,
}

impl View for Observer {
    type V = ObserverView;

    closed spec fn view(&self) -> ObserverView {
        ObserverView {
            cursor: self.sub@,
            entries: self.entries@.map_values(|m: Message| m@),
            state: self.state,
        }
    }
}

impl Observer {
    /// An observer on the given bus. It takes only a subscription — no
    /// publisher handle, so it can never originate a message.
    pub fn new(bus: &mut Bus) -> (o: Observer)
        requires
            old(bus)@.subscribers < usize::MAX as nat,
        ensures
            final(bus)@.log == old(bus)@.log,
            final(bus)@.bound == old(bus)@.bound,
            final(bus)@.publishers == old(bus)@.publishers,
            final(bus)@.subscribers == old(bus)@.subscribers + 1,
            o@.cursor == old(bus)@.log.len(),
            o@.entries == Seq::<MessageView>::empty(),
            o@.state == ObserverState::Watching,
    {
        let sub = bus.subscribe();
        let o = Observer { sub, entries: Vec::new(), state: ObserverState::Watching };
        proof {
            assert(o@.entries =~= Seq::<MessageView>::empty());
        }
        o
    }

    /// Where the observer stands.
    pub fn state(&self) -> (s: ObserverState)
        ensures
            s == self@.state,
    {
        self.state
    }

    /// Everything the observer has logged, in publish order.
    pub fn entries(&self) -> (r: &Vec<Message>)
        ensures
            r@.map_values(|m: Message| m@) == self@.entries,
    {
        &self.entries
    }

    /// One non-blocking poll of the bus. Each received message is logged
    /// exactly once; a lag is noted and watching continues; closure — no
    /// publisher left — finishes the observer within this one turn.
    pub fn poll(&mut self, bus: &Bus) -> (r: ObserverPoll)
        requires
            old(self)@.state == ObserverState::Watching,
        ensures
            final(self)@.cursor == spec_recv_cursor(bus@, old(self)@.cursor),
            (match r {
                ObserverPoll::Logged => {
                    &&& spec_recv_outcome(bus@, old(self)@.cursor) matches RecvView::Msg(mv)
                        && final(self)@.entries == old(self)@.entries.push(mv)
                    &&& final(self)@.state == ObserverState::Watching
                },
                ObserverPoll::Idle => {
                    &&& spec_recv_outcome(bus@, old(self)@.cursor) == RecvView::Empty
                    &&& final(self)@.entries == old(self)@.entries
                    &&& final(self)@.state == ObserverState::Watching
                },
                ObserverPoll::Missed(k) => {
                    &&& spec_recv_outcome(bus@, old(self)@.cursor) == RecvView::Lagged(k as nat)
                    &&& final(self)@.entries == old(self)@.entries
                    &&& final(self)@.state == ObserverState::Watching
                },
                ObserverPoll::Finished => {
                    &&& spec_recv_outcome(bus@, old(self)@.cursor) == RecvView::Closed
                    &&& final(self)@.entries == old(self)@.entries
                    &&& final(self)@.state == ObserverState::Finished
                },
            }),
    {
        match bus.receive(&mut self.sub) {
            RecvOutcome::Msg(m) => {
                let ghost prev = self.entries@;
                self.entries.push(m);
                proof {
                    assert(self.entries@.map_values(|mm: Message| mm@) =~= prev.map_values(
                        |mm: Message| mm@,
                    ).push(self.entries@[prev.len() as int]@));
                }
                ObserverPoll::Logged
            },
            RecvOutcome::Empty => ObserverPoll::Idle,
            RecvOutcome::Lagged(k) => ObserverPoll::Missed(k),
            RecvOutcome::Closed => {
                self.state = ObserverState::Finished;
                ObserverPoll::Finished
            },
        }
    }
}

} // verus!
