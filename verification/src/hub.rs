//! The notification hub: publish and subscribe, one topic per order.
//!
//! Every subscriber has an inbox of its own, bounded by the hub's
//! capacity. A publish puts the snapshot at the end of the inbox of every
//! subscriber of that order and never waits: where an inbox is full, its
//! oldest snapshot gives way and the inbox is marked, so that the
//! subscriber's next read reports the loss before any later snapshot.

use std::collections::HashMap;
use std::collections::VecDeque;
use vstd::prelude::*;
use crate::order::{snapshots, OrderView, PaymentOrder};

verus! {

broadcast use vstd::std_specs::hash::group_hash_axioms;

/// The receiving end of a subscription: the order it follows and the
/// token that tells it from every other subscription of the hub.
#[derive(Clone, Copy, Debug, PartialEq, Eq, Structural)]
pub struct Subscription {
    pub order_id: u64,
    pub token: u64,
}

/// What one read of a subscription yields.
#[derive(Debug, PartialEq, Eq)]
pub enum Delivery {
    /// The next snapshot, in the order of publication.
    Snapshot(PaymentOrder),
    /// Snapshots were lost because the inbox was full: those that follow
    /// are the oldest that remain.
    Lagged,
    /// Nothing is waiting; the hub is open.
    Pending,
    /// The stream has ended: the hub is closed and nothing is waiting, or
    /// the subscription is not live.
    Closed,
}

/// What one read of a subscription yields, as plain values.
pub enum DeliveryView {
    Snapshot(OrderView),
    Lagged,
    Pending,
    Closed,
}

impl View for Delivery {
    type V = DeliveryView;

    open spec fn view(&self) -> DeliveryView {
        match self {
            Delivery::Snapshot(order) => DeliveryView::Snapshot(order@),
            Delivery::Lagged => DeliveryView::Lagged,
            Delivery::Pending => DeliveryView::Pending,
            Delivery::Closed => DeliveryView::Closed,
        }
    }
}

/// The inbox of one subscriber: the snapshots that wait to be read, oldest
/// first, and whether any were lost since the last report.
pub struct InboxView {
    pub pending: Seq<OrderView>,
    pub lagged: bool,
}

impl InboxView {
    /// The inbox of a new subscriber: nothing waits, nothing was lost.
    pub open spec fn empty() -> InboxView {
        InboxView { pending: Seq::empty(), lagged: false }
    }

    /// The inbox after a publish of `snapshot` under a capacity of
    /// `capacity` snapshots: the snapshot is added at the end, and where
    /// the inbox was full the oldest one is dropped and the loss marked.
    pub open spec fn accept(self, snapshot: OrderView, capacity: nat) -> InboxView {
        if self.pending.len() < capacity {
            InboxView { pending: self.pending.push(snapshot), lagged: self.lagged }
        } else {
            InboxView { pending: self.pending.drop_first().push(snapshot), lagged: true }
        }
    }

    /// What a read of the inbox yields while the hub is open (`open`) or
    /// after it was closed.
    pub open spec fn head(self, open: bool) -> DeliveryView {
        if self.lagged {
            DeliveryView::Lagged
        } else if self.pending.len() > 0 {
            DeliveryView::Snapshot(self.pending[0])
        } else if open {
            DeliveryView::Pending
        } else {
            DeliveryView::Closed
        }
    }

    /// The inbox after a read: a reported loss is cleared, a delivered
    /// snapshot is gone, and otherwise nothing changes.
    pub open spec fn after_read(self) -> InboxView {
        if self.lagged {
            InboxView { pending: self.pending, lagged: false }
        } else if self.pending.len() > 0 {
            InboxView { pending: self.pending.drop_first(), lagged: false }
        } else {
            self
        }
    }
}

/// The state of a hub: its capacity, whether it is open, how many tokens
/// it has issued, and the inbox of every live subscription.
pub struct HubView {
    pub capacity: nat,
    pub open: bool,
    pub issued: u64,
    pub inboxes: Map<Subscription, InboxView>,
}

impl HubView {
    /// An open hub without subscribers.
    pub open spec fn empty(capacity: nat) -> HubView {
        HubView { capacity, open: true, issued: 0, inboxes: Map::empty() }
    }

    /// The capacity is at least one, no inbox holds more than the
    /// capacity, and every live token was issued.
    pub open spec fn well_formed(self) -> bool {
        &&& self.capacity >= 1
        &&& forall|s: Subscription| #[trigger]
            self.inboxes.contains_key(s) ==> s.token < self.issued && self.inboxes[s].pending.len()
                <= self.capacity
    }

    /// Whether the hub can take one more subscriber.
    pub open spec fn accepts_subscribers(self) -> bool {
        self.open && self.issued < u64::MAX
    }

    /// The subscription that the next `subscribe` to `order_id` returns.
    pub open spec fn next_subscription(self, order_id: u64) -> Subscription {
        Subscription { order_id, token: self.issued }
    }

    /// The hub after a subscribe to `order_id`: the new subscription has
    /// an empty inbox, so it sees nothing that was published before.
    pub open spec fn subscribed(self, order_id: u64) -> HubView {
        if self.accepts_subscribers() {
            HubView {
                issued: (self.issued + 1) as u64,
                inboxes: self.inboxes.insert(self.next_subscription(order_id), InboxView::empty()),
                ..self
            }
        } else {
            self
        }
    }

    /// The hub after a publish of `snapshot` for `order_id`: every inbox
    /// of that order accepts the snapshot, no other inbox changes, and a
    /// closed hub drops the snapshot.
    pub open spec fn published(self, order_id: u64, snapshot: OrderView) -> HubView {
        if self.open {
            HubView {
                inboxes: Map::new(
                    |s: Subscription| self.inboxes.contains_key(s),
                    |s: Subscription|
                        if s.order_id == order_id {
                            self.inboxes[s].accept(snapshot, self.capacity)
                        } else {
                            self.inboxes[s]
                        },
                ),
                ..self
            }
        } else {
            self
        }
    }

    /// What a read of `sub` yields.
    pub open spec fn delivery(self, sub: Subscription) -> DeliveryView {
        if self.inboxes.contains_key(sub) {
            self.inboxes[sub].head(self.open)
        } else {
            DeliveryView::Closed
        }
    }

    /// The hub after a read of `sub`.
    pub open spec fn received(self, sub: Subscription) -> HubView {
        if self.inboxes.contains_key(sub) {
            HubView { inboxes: self.inboxes.insert(sub, self.inboxes[sub].after_read()), ..self }
        } else {
            self
        }
    }

    /// The hub after `sub` has left.
    pub open spec fn unsubscribed(self, sub: Subscription) -> HubView {
        HubView { inboxes: self.inboxes.remove(sub), ..self }
    }

    /// The hub after it was closed: what waits in the inboxes stays to be
    /// read.
    pub open spec fn closed(self) -> HubView {
        HubView { open: false, ..self }
    }
}

struct Inbox {
    token: u64,
    pending: VecDeque<PaymentOrder>,
    lagged: bool,
}

impl Inbox {
    spec fn state(&self) -> InboxView {
        InboxView { pending: snapshots(self.pending@), lagged: self.lagged }
    }
}

spec fn has_token(inboxes: Seq<Inbox>, token: u64) -> bool {
    exists|i: int| 0 <= i < inboxes.len() && #[trigger] inboxes[i].token == token
}

spec fn slot_of(inboxes: Seq<Inbox>, token: u64) -> int {
    choose|i: int| 0 <= i < inboxes.len() && #[trigger] inboxes[i].token == token
}

spec fn distinct_tokens(inboxes: Seq<Inbox>) -> bool {
    forall|i: int, j: int|
        0 <= i < j < inboxes.len() ==> #[trigger] inboxes[i].token != #[trigger] inboxes[j].token
}

proof fn lemma_slot(inboxes: Seq<Inbox>, i: int)
    requires
        distinct_tokens(inboxes),
        0 <= i < inboxes.len(),
    ensures
        has_token(inboxes, inboxes[i].token),
        slot_of(inboxes, inboxes[i].token) == i,
{
    let token = inboxes[i].token;
    let j = slot_of(inboxes, token);
    assert(0 <= j < inboxes.len() && inboxes[j].token == token);
    if j < i {
        assert(inboxes[j].token != inboxes[i].token);
    } else if i < j {
        assert(inboxes[i].token != inboxes[j].token);
    }
}

proof fn lemma_same_tokens(before: Seq<Inbox>, after: Seq<Inbox>)
    requires
        distinct_tokens(before),
        after.len() == before.len(),
        forall|i: int| 0 <= i < before.len() ==> (#[trigger] after[i]).token == before[i].token,
    ensures
        distinct_tokens(after),
        forall|t: u64| #[trigger] has_token(after, t) == has_token(before, t),
        forall|t: u64| has_token(before, t) ==> #[trigger] slot_of(after, t) == slot_of(before, t),
{
    assert forall|i: int, j: int| 0 <= i < j < after.len() implies #[trigger] after[i].token
        != #[trigger] after[j].token by {
        assert(before[i].token != before[j].token);
    }
    assert forall|t: u64| #[trigger] has_token(after, t) == has_token(before, t) by {
        if has_token(before, t) {
            let i = slot_of(before, t);
            assert(after[i].token == t);
        }
        if has_token(after, t) {
            let i = slot_of(after, t);
            assert(before[i].token == t);
        }
    }
    assert forall|t: u64| has_token(before, t) implies #[trigger] slot_of(after, t) == slot_of(
        before,
        t,
    ) by {
        let i = slot_of(before, t);
        assert(after[i].token == t);
        lemma_slot(after, i);
    }
}

/// The per-order publish and subscribe channel of status snapshots.
pub struct NotificationHub {
    capacity: usize,
    open: bool,
    issued: u64,
    topics: HashMap<u64, Vec<Inbox>>,
}

impl View for NotificationHub {
    type V = HubView;

    closed spec fn view(&self) -> HubView {
        HubView {
            capacity: self.capacity as nat,
            open: self.open,
            issued: self.issued,
            inboxes: Map::new(
                |s: Subscription|
                    self.topics@.contains_key(s.order_id) && has_token(
                        self.topics@[s.order_id]@,
                        s.token,
                    ),
                |s: Subscription|
                    self.topics@[s.order_id]@[slot_of(self.topics@[s.order_id]@, s.token)].state(),
            ),
        }
    }
}

fn find(inboxes: &Vec<Inbox>, token: u64) -> (at: Option<usize>)
    ensures
        match at {
            Some(i) => i < inboxes.len() && inboxes[i as int].token == token,
            None => !has_token(inboxes@, token),
        },
{
    let mut i: usize = 0;
    while i < inboxes.len()
        invariant
            i <= inboxes.len(),
            forall|j: int| 0 <= j < i ==> inboxes[j].token != token,
        decreases inboxes.len() - i,
    {
        if inboxes[i].token == token {
            return Some(i);
        }
        i += 1;
    }
    None
}

impl NotificationHub {
    /// The state is well formed, every topic has a subscriber, and no token
    /// occurs twice.
    pub closed spec fn wf(&self) -> bool {
        &&& self.capacity >= 1
        &&& forall|order_id: u64| #[trigger]
            self.topics@.contains_key(order_id) ==> {
                let inboxes = self.topics@[order_id]@;
                &&& inboxes.len() > 0
                &&& distinct_tokens(inboxes)
                &&& forall|i: int|
                    0 <= i < inboxes.len() ==> (#[trigger] inboxes[i]).token < self.issued
                        && inboxes[i].pending@.len() <= self.capacity
            }
    }

    /// A hub that is well formed has a well-formed state.
    pub proof fn lemma_well_formed(&self)
        requires
            self.wf(),
        ensures
            self@.well_formed(),
    {
        assert forall|s: Subscription| #[trigger] self@.inboxes.contains_key(s) implies s.token
            < self@.issued && self@.inboxes[s].pending.len() <= self@.capacity by {
            let inboxes = self.topics@[s.order_id]@;
            let i = slot_of(inboxes, s.token);
            assert(inboxes[i].token < self.issued);
        }
    }

    /// An open hub without subscribers, whose inboxes hold up to
    /// `capacity` snapshots each, and at least one.
    pub fn new(capacity: usize) -> (hub: NotificationHub)
        ensures
            hub.wf(),
            hub@ == HubView::empty(
                if capacity == 0 {
                    1nat
                } else {
                    capacity as nat
                },
            ),
    {
        let hub = NotificationHub {
            capacity: if capacity == 0 {
                1
            } else {
                capacity
            },
            open: true,
            issued: 0,
            topics: HashMap::new(),
        };
        assert(hub@.inboxes =~= Map::<Subscription, InboxView>::empty());
        hub
    }

    /// How many snapshots an inbox holds at most.
    pub fn capacity(&self) -> (capacity: usize)
        ensures
            capacity == self@.capacity,
    {
        self.capacity
    }

    /// Whether the hub still takes publishes and subscribers.
    pub fn is_open(&self) -> (open: bool)
        ensures
            open == self@.open,
    {
        self.open
    }

    /// Whether `sub` is live: subscribed and not yet gone.
    pub fn is_live(&self, sub: &Subscription) -> (live: bool)
        requires
            self.wf(),
        ensures
            live == self@.inboxes.contains_key(*sub),
    {
        match self.topics.get(&sub.order_id) {
            Some(inboxes) => find(inboxes, sub.token).is_some(),
            None => false,
        }
    }

    /// Opens a subscription to the snapshots of `order_id`. It receives
    /// every snapshot published for that order from now on and none from
    /// before. `None` where the hub is closed or has no token left to
    /// issue; the hub is then unchanged.
    pub fn subscribe(&mut self, order_id: u64) -> (sub: Option<Subscription>)
        requires
            old(self).wf(),
        ensures
            final(self).wf(),
            final(self)@ == old(self)@.subscribed(order_id),
            sub == if old(self)@.accepts_subscribers() {
                Some(old(self)@.next_subscription(order_id))
            } else {
                None
            },
    {
        if !self.open || self.issued == u64::MAX {
            return None;
        }
        let token = self.issued;
        let sub = Subscription { order_id, token };
        let mut inboxes = match self.topics.remove(&order_id) {
            Some(inboxes) => inboxes,
            None => Vec::new(),
        };
        let ghost before = inboxes@;
        inboxes.push(Inbox { token, pending: VecDeque::new(), lagged: false });
        let ghost after = inboxes@;
        self.topics.insert(order_id, inboxes);
        self.issued = token + 1;
        proof {
            let last = after.len() - 1;
            assert(after[last].state() =~= InboxView::empty()) by {
                assert(snapshots(after[last].pending@) =~= Seq::<OrderView>::empty());
            }
            assert(distinct_tokens(after)) by {
                assert forall|i: int, j: int| 0 <= i < j < after.len() implies #[trigger] after[i].token
                    != #[trigger] after[j].token by {
                    if j < last {
                        assert(before[i].token != before[j].token);
                    } else {
                        assert(before[i].token < token);
                    }
                }
            }
            assert forall|t: u64| has_token(after, t) <==> has_token(before, t) || t == token by {
                if has_token(before, t) {
                    let i = slot_of(before, t);
                    assert(after[i].token == t);
                }
                if t == token {
                    assert(after[last].token == t);
                }
                if has_token(after, t) {
                    let i = slot_of(after, t);
                    if i < last {
                        assert(before[i].token == t);
                    }
                }
            }
            assert forall|t: u64| has_token(before, t) implies after[slot_of(after, t)]
                == before[slot_of(before, t)] by {
                let i = slot_of(before, t);
                assert(after[i].token == t);
                lemma_slot(after, i);
            }
            lemma_slot(after, last);
            assert(self@.inboxes =~= old(self)@.subscribed(order_id).inboxes);
        }
        Some(sub)
    }

    /// Publishes `snapshot` to the subscribers of `order_id` and returns at
    /// once. Each of them finds it behind what already waits in its inbox;
    /// an inbox that is full loses its oldest snapshot and is marked as
    /// lagged. Without a subscriber, or on a closed hub, the snapshot is
    /// dropped and nothing changes. Subscribers of other orders are not
    /// touched.
    pub fn publish(&mut self, order_id: u64, snapshot: &PaymentOrder)
        requires
            old(self).wf(),
        ensures
            final(self).wf(),
            final(self)@ == old(self)@.published(order_id, snapshot@),
    {
        if !self.open {
            return ;
        }
        let capacity = self.capacity;
        let mut inboxes = match self.topics.remove(&order_id) {
            Some(inboxes) => inboxes,
            None => {
                assert(self.topics@ =~= old(self).topics@);
                assert(self@.inboxes =~= old(self)@.published(order_id, snapshot@).inboxes);
                return ;
            },
        };
        let ghost before = inboxes@;
        let mut i: usize = 0;
        while i < inboxes.len()
            invariant
                capacity >= 1,
                i <= inboxes.len(),
                inboxes.len() == before.len(),
                forall|j: int| 0 <= j < before.len() ==> (#[trigger] inboxes[j]).token == before[j].token,
                forall|j: int|
                    0 <= j < before.len() ==> (#[trigger] inboxes[j]).pending@.len() <= capacity,
                forall|j: int| i <= j < before.len() ==> #[trigger] inboxes[j] == before[j],
                forall|j: int|
                    0 <= j < i ==> (#[trigger] inboxes[j]).state() == before[j].state().accept(
                        snapshot@,
                        capacity as nat,
                    ),
            decreases inboxes.len() - i,
        {
            let ghost was = inboxes[i as int].pending@;
            let ghost prior = inboxes@;
            if inboxes[i].pending.len() >= capacity {
                inboxes[i].pending.pop_front();
                inboxes[i].lagged = true;
            }
            inboxes[i].pending.push_back(snapshot.clone());
            proof {
                if was.len() < capacity {
                    assert(snapshots(inboxes[i as int].pending@) =~= snapshots(was).push(
                        snapshot@,
                    ));
                } else {
                    assert(snapshots(inboxes[i as int].pending@) =~= snapshots(
                        was,
                    ).drop_first().push(snapshot@));
                }
                assert forall|j: int| 0 <= j < before.len() && j != i implies #[trigger] inboxes[j]
                    == prior[j] by {}
            }
            i += 1;
        }
        let ghost after = inboxes@;
        self.topics.insert(order_id, inboxes);
        proof {
            lemma_same_tokens(before, after);
            let goal = old(self)@.published(order_id, snapshot@);
            assert forall|s: Subscription| #[trigger]
                self@.inboxes.contains_key(s) == goal.inboxes.contains_key(s) by {
                if s.order_id == order_id {
                    assert(has_token(after, s.token) == has_token(before, s.token));
                }
            }
            assert forall|s: Subscription| #[trigger]
                self@.inboxes.contains_key(s) implies self@.inboxes[s] == goal.inboxes[s] by {
                if s.order_id == order_id {
                    assert(has_token(after, s.token) == has_token(before, s.token));
                    assert(slot_of(after, s.token) == slot_of(before, s.token));
                }
            }
            assert(self@.inboxes =~= goal.inboxes);
        }
    }

    /// Reads `sub` once, without waiting. A loss is reported first, as
    /// `Lagged`, and cleared; then the snapshots come in the order of
    /// their publication, one for each read; with nothing waiting the read
    /// yields `Pending` on an open hub and `Closed` on a closed one. A
    /// subscription that is not live yields `Closed`. No other
    /// subscription is touched.
    pub fn recv(&mut self, sub: &Subscription) -> (delivery: Delivery)
        requires
            old(self).wf(),
        ensures
            final(self).wf(),
            delivery@ == old(self)@.delivery(*sub),
            final(self)@ == old(self)@.received(*sub),
    {
        let open = self.open;
        let mut inboxes = match self.topics.remove(&sub.order_id) {
            Some(inboxes) => inboxes,
            None => {
                assert(self.topics@ =~= old(self).topics@);
                assert(self@.inboxes =~= old(self)@.inboxes);
                return Delivery::Closed;
            },
        };
        let ghost before = inboxes@;
        let at = find(&inboxes, sub.token);
        let delivery = match at {
            None => Delivery::Closed,
            Some(i) => {
                if inboxes[i].lagged {
                    inboxes[i].lagged = false;
                    Delivery::Lagged
                } else {
                    match inboxes[i].pending.pop_front() {
                        Some(order) => {
                            assert(snapshots(inboxes[i as int].pending@) =~= snapshots(
                                before[i as int].pending@,
                            ).drop_first());
                            Delivery::Snapshot(order)
                        },
                        None => {
                            assert(inboxes[i as int].pending@ =~= before[i as int].pending@);
                            if open {
                                Delivery::Pending
                            } else {
                                Delivery::Closed
                            }
                        },
                    }
                }
            },
        };
        let ghost after = inboxes@;
        self.topics.insert(sub.order_id, inboxes);
        proof {
            lemma_same_tokens(before, after);
            let goal = old(self)@.received(*sub);
            match at {
                Some(i) => {
                    lemma_slot(before, i as int);
                    lemma_slot(after, i as int);
                    assert(after[i as int].state() == before[i as int].state().after_read());
                },
                None => {
                    assert(after =~= before);
                },
            }
            assert forall|s: Subscription| #[trigger]
                self@.inboxes.contains_key(s) == goal.inboxes.contains_key(s) by {
                if s.order_id == sub.order_id {
                    assert(has_token(after, s.token) == has_token(before, s.token));
                }
            }
            assert forall|s: Subscription| #[trigger]
                self@.inboxes.contains_key(s) implies self@.inboxes[s] == goal.inboxes[s] by {
                if s.order_id == sub.order_id {
                    assert(has_token(after, s.token) == has_token(before, s.token));
                    assert(slot_of(after, s.token) == slot_of(before, s.token));
                    let j = slot_of(before, s.token);
                    if at is Some && j != at->0 {
                        assert(after[j] == before[j]);
                    }
                }
            }
            assert(self@.inboxes =~= goal.inboxes);
        }
        delivery
    }

    /// Ends `sub`: its inbox is released with whatever still waited in it,
    /// and later reads of it yield `Closed`. No other subscription is
    /// touched, and ending a subscription that is not live changes
    /// nothing.
    pub fn unsubscribe(&mut self, sub: &Subscription)
        requires
            old(self).wf(),
        ensures
            final(self).wf(),
            final(self)@ == old(self)@.unsubscribed(*sub),
    {
        let mut inboxes = match self.topics.remove(&sub.order_id) {
            Some(inboxes) => inboxes,
            None => {
                assert(self.topics@ =~= old(self).topics@);
                assert(self@.inboxes =~= old(self)@.unsubscribed(*sub).inboxes);
                return ;
            },
        };
        let ghost before = inboxes@;
        let at = find(&inboxes, sub.token);
        match at {
            Some(i) => {
                inboxes.remove(i);
            },
            None => {},
        }
        let ghost after = inboxes@;
        proof {
            match at {
                Some(i) => {
                    lemma_slot(before, i as int);
                    assert(distinct_tokens(after)) by {
                        assert forall|a: int, b: int| 0 <= a < b < after.len() implies #[trigger] after[a].token
                            != #[trigger] after[b].token by {
                            let a0 = if a < i { a } else { a + 1 };
                            let b0 = if b < i { b } else { b + 1 };
                            assert(after[a] == before[a0]);
                            assert(after[b] == before[b0]);
                            assert(before[a0].token != before[b0].token);
                        }
                    }
                    assert forall|t: u64| #[trigger]
                        has_token(after, t) == (has_token(before, t) && t != sub.token) by {
                        if has_token(before, t) && t != sub.token {
                            let j = slot_of(before, t);
                            let j1 = if j < i { j } else { j - 1 };
                            assert(after[j1] == before[j]);
                            assert(after[j1].token == t);
                        }
                        if has_token(after, t) {
                            let j = slot_of(after, t);
                            let j0 = if j < i { j } else { j + 1 };
                            assert(after[j] == before[j0]);
                            assert(before[j0].token == t);
                            if t == sub.token {
                                lemma_slot(before, j0);
                            }
                        }
                    }
                    assert forall|t: u64| has_token(after, t) implies #[trigger] after[slot_of(
                        after,
                        t,
                    )] == before[slot_of(before, t)] by {
                        let j = slot_of(after, t);
                        let j0 = if j < i { j } else { j + 1 };
                        assert(after[j] == before[j0]);
                        lemma_slot(before, j0);
                    }
                },
                None => {
                    assert(after =~= before);
                },
            }
        }
        if inboxes.len() > 0 {
            self.topics.insert(sub.order_id, inboxes);
        }
        proof {
            let goal = old(self)@.unsubscribed(*sub);
            assert forall|s: Subscription| #[trigger]
                self@.inboxes.contains_key(s) == goal.inboxes.contains_key(s) by {
                if s.order_id == sub.order_id {
                    if at is Some {
                        assert(has_token(after, s.token) == (has_token(before, s.token) && s.token
                            != sub.token));
                    }
                    if after.len() == 0 {
                        assert(!has_token(after, s.token));
                    }
                }
            }
            assert forall|s: Subscription| #[trigger]
                self@.inboxes.contains_key(s) implies self@.inboxes[s] == goal.inboxes[s] by {
                if s.order_id == sub.order_id {
                    if at is Some {
                        assert(has_token(after, s.token));
                        assert(after[slot_of(after, s.token)] == before[slot_of(before, s.token)]);
                    }
                }
            }
            assert(self@.inboxes =~= goal.inboxes);
        }
    }

    /// Closes the hub: from now on publishes are dropped and no one can
    /// subscribe. What waits in the inboxes can still be read; after that
    /// every read yields `Closed`.
    pub fn close(&mut self)
        requires
            old(self).wf(),
        ensures
            final(self).wf(),
            final(self)@ == old(self)@.closed(),
    {
        self.open = false;
        assert(self@.inboxes =~= old(self)@.inboxes);
    }
}

/// A new subscriber sees no history: right after `subscribe`, nothing
/// waits in its inbox, whatever was published before.
pub proof fn law_no_history(hub: HubView, order_id: u64)
    requires
        hub.well_formed(),
        hub.accepts_subscribers(),
    ensures
        hub.subscribed(order_id).delivery(hub.next_subscription(order_id)) == DeliveryView::Pending,
        hub.subscribed(order_id).well_formed(),
{
}

/// Snapshots are delivered in the order of their publication: a
/// subscriber of an order for which `first` and then `second` are
/// published, on a hub with room for two, reads `first`, then `second`,
/// then finds nothing more.
pub proof fn law_publish_order(hub: HubView, order_id: u64, first: OrderView, second: OrderView)
    requires
        hub.well_formed(),
        hub.accepts_subscribers(),
        hub.capacity >= 2,
    ensures
        ({
            let sub = hub.next_subscription(order_id);
            let sent = hub.subscribed(order_id).published(order_id, first).published(
                order_id,
                second,
            );
            &&& sent.delivery(sub) == DeliveryView::Snapshot(first)
            &&& sent.received(sub).delivery(sub) == DeliveryView::Snapshot(second)
            &&& sent.received(sub).received(sub).delivery(sub) == DeliveryView::Pending
        }),
{
    let sub = hub.next_subscription(order_id);
    let one = hub.subscribed(order_id).published(order_id, first);
    let sent = one.published(order_id, second);
    assert(one.inboxes[sub].pending =~= seq![first]);
    assert(sent.inboxes[sub].pending =~= seq![first, second]);
    assert(sent.received(sub).inboxes[sub].pending =~= seq![second]);
    assert(sent.received(sub).received(sub).inboxes[sub].pending =~= Seq::<OrderView>::empty());
}

/// A publish keeps what waits in an inbox in order: the inbox of a
/// subscriber of that order afterwards ends with the new snapshot, behind
/// everything that waited before, less the oldest where the inbox was
/// full; and then the loss is marked, so that it is reported before
/// anything else is read.
pub proof fn law_overflow_is_reported(hub: HubView, sub: Subscription, snapshot: OrderView)
    requires
        hub.well_formed(),
        hub.open,
        hub.inboxes.contains_key(sub),
    ensures
        ({
            let before = hub.inboxes[sub];
            let after = hub.published(sub.order_id, snapshot).inboxes[sub];
            let full = before.pending.len() == hub.capacity;
            &&& after.pending == if full {
                before.pending.drop_first().push(snapshot)
            } else {
                before.pending.push(snapshot)
            }
            &&& after.lagged == (before.lagged || full)
            &&& full ==> hub.published(sub.order_id, snapshot).delivery(sub)
                == DeliveryView::Lagged
            &&& hub.published(sub.order_id, snapshot).well_formed()
        }),
{
}

/// A publish for an order without subscribers is dropped: the hub is as
/// it was.
pub proof fn law_publish_without_subscribers(hub: HubView, order_id: u64, snapshot: OrderView)
    requires
        forall|s: Subscription| hub.inboxes.contains_key(s) ==> s.order_id != order_id,
    ensures
        hub.published(order_id, snapshot) == hub,
{
    assert(hub.published(order_id, snapshot).inboxes =~= hub.inboxes);
}

/// A publish for one order leaves the subscribers of every other order
/// alone.
pub proof fn law_publish_is_per_order(
    hub: HubView,
    order_id: u64,
    snapshot: OrderView,
    other: Subscription,
)
    requires
        other.order_id != order_id,
    ensures
        hub.published(order_id, snapshot).inboxes.contains_key(other) == hub.inboxes.contains_key(
            other,
        ),
        hub.inboxes.contains_key(other) ==> hub.published(order_id, snapshot).inboxes[other]
            == hub.inboxes[other],
        hub.published(order_id, snapshot).delivery(other) == hub.delivery(other),
{
}

} // verus!
