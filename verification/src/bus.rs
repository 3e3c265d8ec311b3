use vstd::prelude::*;

use crate::message::{Message, MessageView};

verus! {

/// How many pending messages a subscriber may fall behind before it lags.
pub const DEFAULT_BOUND: usize = 128;

/// The shared fan-out channel: a publish-ordered log of messages, the bound
/// on how far a subscriber may fall behind, and counts of the live handles.
/// Every subscriber reads the same single publish order through its own
/// cursor; one subscriber draining never affects another's view.
pub struct Bus {
    log: Vec<Message>,
    bound: usize,
    publishers: usize,
    subscribers: usize,
}

/// One subscriber's private read cursor into the bus's publish order.
pub struct Subscription {
    cursor: usize,
}

/// The mathematical content of a bus.
pub ghost struct BusView {
    pub log: Seq<MessageView>,
    pub bound: nat,
    pub publishers: nat,
    pub subscribers: nat,
}

impl BusView {
    /// Bus invariant: a positive lag bound, and every published message valid.
    pub open spec fn wf(self) -> bool {
        &&& self.bound >= 1
        &&& forall|i: int| 0 <= i < self.log.len() ==> (#[trigger] self.log[i]).valid()
    }
}

impl View for Bus {
    type V = BusView;

    closed spec fn view(&self) -> BusView {
        BusView {
            log: self.log@.map_values(|m: Message| m@),
            bound: self.bound as nat,
            publishers: self.publishers as nat,
            subscribers: self.subscribers as nat,
        }
    }
}

impl View for Subscription {
    type V = nat;

    closed spec fn view(&self) -> nat {
        self.cursor as nat
    }
}

/// What one receive attempt yields.
#[derive(Debug, PartialEq, Eq)]
pub enum RecvOutcome {
    /// The next pending message for this subscriber.
    Msg(Message),
    /// Nothing new is pending, but publishers remain.
    Empty,
    /// The subscriber fell behind the bound; it missed this many messages.
    Lagged(usize),
    /// Nothing is pending and no publisher remains: no message will ever come.
    Closed,
}

/// The mathematical content of a receive outcome.
pub ghost enum RecvView {
    Msg(MessageView),
    Empty,
    Lagged(nat),
    Closed,
}

/// What a receive on bus `b` at read position `cursor` yields: the oldest
/// still-retained unread message, a lag notice naming how many messages fell
/// outside the retained window, emptiness, or closure once no publisher is
/// left.
pub open spec fn spec_recv_outcome(b: BusView, cursor: nat) -> RecvView {
    if cursor >= b.log.len() {
        if b.publishers == 0 {
            RecvView::Closed
        } else {
            RecvView::Empty
        }
    } else if b.log.len() - cursor > b.bound {
        RecvView::Lagged((b.log.len() - cursor - b.bound) as nat)
    } else {
        RecvView::Msg(b.log[cursor as int])
    }
}

/// Where the cursor stands after one receive: unchanged when nothing was
/// pending, snapped forward to the retained window on a lag, otherwise one
/// past the message just delivered.
pub open spec fn spec_recv_cursor(b: BusView, cursor: nat) -> nat {
    if cursor >= b.log.len() {
        cursor
    } else if b.log.len() - cursor > b.bound {
        (b.log.len() - b.bound) as nat
    } else {
        cursor + 1
    }
}

/// Copies a payload byte for byte.
fn copy_bytes(src: &Vec<u8>) -> (r: Vec<u8>)
    ensures
        r@ == src@,
{
    let mut out: Vec<u8> = Vec::new();
    let mut i: usize = 0;
    while i < src.len()
        invariant
            i <= src@.len(),
            out@ == src@.subrange(0, i as int),
        decreases src@.len() - i,
    {
        out.push(src[i]);
        proof {
            assert(src@.subrange(0, i + 1) =~= src@.subrange(0, i as int).push(src@[i as int]));
        }
        i += 1;
    }
    proof {
        assert(src@.subrange(0, src@.len() as int) =~= src@);
    }
    out
}

impl Bus {
    /// A fresh bus with the given lag bound and no handles yet.
    pub fn new(bound: usize) -> (b: Bus)
        requires
            bound >= 1,
        ensures
            b@.log == Seq::<MessageView>::empty(),
            b@.bound == bound as nat,
            b@.publishers == 0,
            b@.subscribers == 0,
            b@.wf(),
    {
        let b = Bus { log: Vec::new(), bound, publishers: 0, subscribers: 0 };
        proof {
            assert(b@.log =~= Seq::<MessageView>::empty());
        }
        b
    }

    /// Records one more live publisher handle.
    pub fn register_publisher(&mut self)
        requires
            old(self)@.publishers < usize::MAX as nat,
        ensures
            final(self)@.log == old(self)@.log,
            final(self)@.bound == old(self)@.bound,
            final(self)@.publishers == old(self)@.publishers + 1,
            final(self)@.subscribers == old(self)@.subscribers,
    {
        self.publishers = self.publishers + 1;
    }

    /// Releases one publisher handle.
    pub fn drop_publisher(&mut self)
        requires
            old(self)@.publishers >= 1,
        ensures
            final(self)@.log == old(self)@.log,
            final(self)@.bound == old(self)@.bound,
            final(self)@.publishers == old(self)@.publishers - 1,
            final(self)@.subscribers == old(self)@.subscribers,
    {
        self.publishers = self.publishers - 1;
    }

    /// Hands out a fresh subscription whose cursor starts at the present end
    /// of the log: a new subscriber sees only what is published from now on.
    pub fn subscribe(&mut self) -> (s: Subscription)
        requires
            old(self)@.subscribers < usize::MAX as nat,
        ensures
            final(self)@.log == old(self)@.log,
            final(self)@.bound == old(self)@.bound,
            final(self)@.publishers == old(self)@.publishers,
            final(self)@.subscribers == old(self)@.subscribers + 1,
            s@ == old(self)@.log.len(),
    {
        self.subscribers = self.subscribers + 1;
        Subscription { cursor: self.log.len() }
    }

    /// Releases one subscription handle.
    pub fn drop_subscription(&mut self)
        requires
            old(self)@.subscribers >= 1,
        ensures
            final(self)@.log == old(self)@.log,
            final(self)@.bound == old(self)@.bound,
            final(self)@.publishers == old(self)@.publishers,
            final(self)@.subscribers == old(self)@.subscribers - 1,
    {
        self.subscribers = self.subscribers - 1;
    }

    /// Appends a message to the single bus-wide publish order. Never blocks
    /// the publisher: a subscriber that falls behind is told so on receive.
    pub fn publish(&mut self, m: Message)
        requires
            m.valid(),
        ensures
            final(self)@.log == old(self)@.log.push(m@),
            final(self)@.bound == old(self)@.bound,
            final(self)@.publishers == old(self)@.publishers,
            final(self)@.subscribers == old(self)@.subscribers,
    {
        let ghost prev = self.log@;
        self.log.push(m);
        proof {
            assert(self.log@.map_values(|mm: Message| mm@) =~= prev.map_values(
                |mm: Message| mm@,
            ).push(m@));
        }
    }

    /// The number of messages published so far.
    pub fn len(&self) -> (n: usize)
        ensures
            n as nat == self@.log.len(),
    {
        self.log.len()
    }

    /// The number of live publisher handles.
    pub fn publisher_count(&self) -> (n: usize)
        ensures
            n as nat == self@.publishers,
    {
        self.publishers
    }

    /// The number of live subscription handles.
    pub fn subscriber_count(&self) -> (n: usize)
        ensures
            n as nat == self@.subscribers,
    {
        self.subscribers
    }

    /// One non-blocking receive attempt for the given subscription: yields
    /// exactly what the bus model says for its cursor, and moves the cursor
    /// exactly as the model says. Each subscription reads the one publish
    /// order independently of every other.
    pub fn receive(&self, sub: &mut Subscription) -> (r: RecvOutcome)
        ensures
            final(sub)@ == spec_recv_cursor(self@, old(sub)@),
            (match r {
                RecvOutcome::Msg(m) => spec_recv_outcome(self@, old(sub)@) == RecvView::Msg(m@),
                RecvOutcome::Empty => spec_recv_outcome(self@, old(sub)@) == RecvView::Empty,
                RecvOutcome::Lagged(k) => spec_recv_outcome(self@, old(sub)@) == RecvView::Lagged(
                    k as nat,
                ),
                RecvOutcome::Closed => spec_recv_outcome(self@, old(sub)@) == RecvView::Closed,
            }),
    {
        let n = self.log.len();
        if sub.cursor >= n {
            if self.publishers == 0 {
                RecvOutcome::Closed
            } else {
                RecvOutcome::Empty
            }
        } else if n - sub.cursor > self.bound {
            let missed = n - sub.cursor - self.bound;
            sub.cursor = n - self.bound;
            RecvOutcome::Lagged(missed)
        } else {
            let entry = &self.log[sub.cursor];
            let m = Message { payload: copy_bytes(&entry.payload), origin: entry.origin };
            sub.cursor = sub.cursor + 1;
            RecvOutcome::Msg(m)
        }
    }
}

/// Delivery law: a subscriber that stands within the bound receives the
/// pending messages one at a time, in publish order, each exactly once —
/// the cursor steps past each message as it is delivered.
pub proof fn lemma_in_order_delivery(b: BusView, cursor: nat)
    requires
        cursor < b.log.len(),
        b.log.len() - cursor <= b.bound,
    ensures
        spec_recv_outcome(b, cursor) == RecvView::Msg(b.log[cursor as int]),
        spec_recv_cursor(b, cursor) == cursor + 1,
{
}

/// Observer termination law: once no publisher handle remains and a
/// subscriber has drained the log, its very next receive yields Closed.
pub proof fn lemma_closed_when_drained(b: BusView, cursor: nat)
    requires
        b.publishers == 0,
        cursor >= b.log.len(),
    ensures
        spec_recv_outcome(b, cursor) == RecvView::Closed,
{
}

/// Lag law: a subscriber paused while `n` messages were published, `n` beyond
/// the bound, is told on its next receive how many it missed — never more
/// than `n` — and the receive after that delivers the oldest retained
/// message: lag is signalled, not fatal.
pub proof fn lemma_lag_recovery(b: BusView, cursor: nat, n: nat)
    requires
        b.bound >= 1,
        b.log.len() == cursor + n,
        n > b.bound,
    ensures
        spec_recv_outcome(b, cursor) == RecvView::Lagged((n - b.bound) as nat),
        (n - b.bound) as nat <= n,
        spec_recv_outcome(b, spec_recv_cursor(b, cursor)) == RecvView::Msg(
            b.log[b.log.len() - b.bound],
        ),
        spec_recv_cursor(b, spec_recv_cursor(b, cursor)) == b.log.len() - b.bound + 1,
{
}

} // verus!
