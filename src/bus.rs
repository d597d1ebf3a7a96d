//! Fan-out of "artifact changed" notices to every connected viewer.
use vstd::prelude::*;

verus! {

/// How many notices the bus keeps for subscribers that fall behind.
pub const BUS_CAPACITY: usize = 16;

/// What the bus holds: every notice ever published, in order, of which
/// those from `first` on are still kept.
pub struct BusState {
    pub capacity: nat,
    pub history: Seq<Seq<char>>,
    pub first: nat,
}

/// A bus state that the bus can be in.
pub open spec fn bus_wf(b: BusState) -> bool {
    &&& b.capacity > 0
    &&& b.first <= b.history.len() <= b.first + b.capacity
}

/// The state after publishing `m`: it is added, and the oldest kept notice
/// is dropped when the bus is full.
pub open spec fn publish_step(b: BusState, m: Seq<char>) -> BusState {
    BusState {
        capacity: b.capacity,
        history: b.history.push(m),
        first: if b.history.len() == b.first + b.capacity {
            b.first + 1
        } else {
            b.first
        },
    }
}

/// The state after publishing each of `ms`, in order.
pub open spec fn publish_all(b: BusState, ms: Seq<Seq<char>>) -> BusState
    decreases ms.len(),
{
    if ms.len() == 0 {
        b
    } else {
        publish_all(publish_step(b, ms[0]), ms.drop_first())
    }
}

/// What one receive hands a subscriber.
#[derive(Debug)]
pub enum Delivery {
    /// The next notice after the subscriber's position.
    Message(String),
    /// The subscriber fell behind: this many notices were dropped for it,
    /// and it moves on to the oldest one kept.
    Lagged(u64),
    /// Nothing new since the subscriber's position.
    Empty,
}

/// One subscriber's position: the number of the next notice it will read.
pub struct Subscription {
    next: u64,
}

impl Subscription {
    pub closed spec fn position(&self) -> nat {
        self.next as nat
    }
}

/// A bounded broadcast channel. Publishing never blocks and never fails;
/// each subscriber reads at its own pace, and one that falls more than the
/// capacity behind loses the oldest notices, for itself alone.
pub struct NotificationBus {
    capacity: usize,
    kept: Vec<String>,
    first_seq: u64,
    history: Ghost<Seq<Seq<char>>>,
}

impl View for NotificationBus {
    type V = BusState;

    closed spec fn view(&self) -> BusState {
        BusState {
            capacity: self.capacity as nat,
            history: self.history@,
            first: self.first_seq as nat,
        }
    }
}

impl NotificationBus {
    /// The bus's internal consistency.
    pub closed spec fn wf(&self) -> bool {
        &&& self.capacity > 0
        &&& self.kept@.len() <= self.capacity
        &&& self.first_seq + self.kept@.len() == self.history@.len()
        &&& self.history@.len() <= u64::MAX
        &&& forall|i: int|
            0 <= i < self.kept@.len() ==> #[trigger] self.kept@[i]@ == self.history@[self.first_seq
                + i]
    }

    /// An empty bus that keeps up to `capacity` notices.
    pub fn new(capacity: usize) -> (r: NotificationBus)
        requires
            capacity > 0,
        ensures
            r.wf(),
            r@ == (BusState { capacity: capacity as nat, history: Seq::empty(), first: 0 }),
    {
        NotificationBus {
            capacity,
            kept: Vec::new(),
            first_seq: 0,
            history: Ghost(Seq::empty()),
        }
    }

    /// How many notices have been published so far.
    pub fn published(&self) -> (r: u64)
        requires
            self.wf(),
        ensures
            r == self@.history.len(),
    {
        self.first_seq + self.kept.len() as u64
    }

    /// Sends `m` to every subscriber, present or not yet caught up.
    pub fn publish(&mut self, m: String)
        requires
            old(self).wf(),
            old(self)@.history.len() < u64::MAX,
        ensures
            final(self).wf(),
            final(self)@ == publish_step(old(self)@, m@),
    {
        let ghost h = self.history@;
        if self.kept.len() == self.capacity {
            self.kept.remove(0);
            self.first_seq = self.first_seq + 1;
        }
        self.kept.push(m);
        self.history = Ghost(h.push(m@));
        assert(self@ =~= publish_step(old(self)@, m@));
    }

    /// A new subscriber, which sees the notices published from now on.
    pub fn subscribe(&self) -> (r: Subscription)
        requires
            self.wf(),
        ensures
            r.position() == self@.history.len(),
    {
        Subscription { next: self.first_seq + self.kept.len() as u64 }
    }

    /// The next notice for `sub`, and its new position.
    pub fn receive(&self, sub: &mut Subscription) -> (r: Delivery)
        requires
            self.wf(),
        ensures
            old(sub).position() < self@.first ==> r == Delivery::Lagged(
                (self@.first - old(sub).position()) as u64,
            ) && final(sub).position() == self@.first,
            self@.first <= old(sub).position() < self@.history.len() ==> (match r {
                Delivery::Message(m) => m@ == self@.history[old(sub).position() as int],
                _ => false,
            }) && final(sub).position() == old(sub).position() + 1,
            old(sub).position() >= self@.history.len() ==> r == Delivery::Empty && final(sub).position()
                == old(sub).position(),
    {
        if sub.next < self.first_seq {
            let missed = self.first_seq - sub.next;
            sub.next = self.first_seq;
            Delivery::Lagged(missed)
        } else if sub.next - self.first_seq < self.kept.len() as u64 {
            let i = (sub.next - self.first_seq) as usize;
            let m = self.kept[i].clone();
            sub.next = sub.next + 1;
            Delivery::Message(m)
        } else {
            Delivery::Empty
        }
    }
}

/// Publishes that the artifact at `path` changed; with no subscribers this
/// is no error, and nobody who subscribes later sees it.
pub fn notify_clients(bus: &mut NotificationBus, path: &str)
    requires
        old(bus).wf(),
        old(bus)@.history.len() < u64::MAX,
    ensures
        final(bus).wf(),
        final(bus)@ == publish_step(old(bus)@, path@),
{
    bus.publish(path.to_string());
}

/// A notice published before a subscriber connects is never handed to it:
/// publishing is recorded at a number below the position that `subscribe`
/// hands out afterwards, and receiving only moves forward from there.
pub proof fn law_no_replay(b: BusState, m: Seq<char>)
    requires
        bus_wf(b),
    ensures
        bus_wf(publish_step(b, m)),
        publish_step(b, m).history[b.history.len() as int] == m,
        b.history.len() < publish_step(b, m).history.len(),
{
}

proof fn lemma_publish_all(b: BusState, ms: Seq<Seq<char>>)
    requires
        bus_wf(b),
    ensures
        bus_wf(publish_all(b, ms)),
        publish_all(b, ms).history == b.history + ms,
        publish_all(b, ms).capacity == b.capacity,
        publish_all(b, ms).first <= b.first + ms.len(),
        b.first <= publish_all(b, ms).first,
        publish_all(b, ms).history.len() - publish_all(b, ms).first <= b.capacity,
        publish_all(b, ms).history.len() <= publish_all(b, ms).first + b.capacity,
        publish_all(b, ms).first <= b.first || publish_all(b, ms).first + b.capacity
            <= publish_all(b, ms).history.len(),
    decreases ms.len(),
{
    if ms.len() > 0 {
        let b1 = publish_step(b, ms[0]);
        lemma_publish_all(b1, ms.drop_first());
        assert(b.history + ms =~= b1.history + ms.drop_first());
    }
}

/// A subscriber that connects and then falls no more than the capacity
/// behind finds every notice published after it subscribed, in publish
/// order, still kept, and nothing after them.
pub proof fn law_subscriber_sees_later(b: BusState, ms: Seq<Seq<char>>)
    requires
        bus_wf(b),
        ms.len() <= b.capacity,
    ensures
        publish_all(b, ms).history.len() == b.history.len() + ms.len(),
        forall|i: int|
            0 <= i < ms.len() ==> publish_all(b, ms).first <= b.history.len() + i
                && #[trigger] publish_all(b, ms).history[b.history.len() + i] == ms[i],
{
    lemma_publish_all(b, ms);
    let after = publish_all(b, ms);
    assert forall|i: int| 0 <= i < ms.len() implies after.first <= b.history.len() + i
        && #[trigger] after.history[b.history.len() + i] == ms[i] by {
        assert((b.history + ms)[b.history.len() + i] == ms[i]);
    }
}

} // verus!
