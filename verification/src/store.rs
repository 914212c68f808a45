//! The order store: the registry of orders by identifier.
//!
//! A store is one value with exclusive access for every change, so each
//! operation is atomic: a caller that shares a store among threads puts it
//! behind one lock, and every interleaving of calls is then some sequence
//! of the operations below.

use std::collections::HashMap;
use vstd::prelude::*;
use crate::order::{OrderView, PaymentOrder};

verus! {

broadcast use vstd::std_specs::hash::group_hash_axioms;

/// Why the store refused an operation.
#[derive(Clone, Copy, Debug, PartialEq, Eq, Structural)]
pub enum StoreError {
    /// An order with this identifier is already stored.
    DuplicateId,
    /// No order with this identifier is stored.
    NotFound,
}

/// The registry of orders.
pub struct OrderStore {
    orders: HashMap<u64, PaymentOrder>,
}

impl View for OrderStore {
    type V = Map<u64, OrderView>;

    /// The stored snapshots by identifier.
    closed spec fn view(&self) -> Map<u64, OrderView> {
        self.orders@.map_values(|o: PaymentOrder| o@)
    }
}

impl OrderStore {
    /// Every order is stored under its own identifier.
    pub closed spec fn wf(&self) -> bool {
        forall|id: u64| #[trigger] self.orders@.contains_key(id) ==> self.orders@[id].id == id
    }

    /// The order stored under `id`, as the value it is.
    pub closed spec fn entry(&self, id: u64) -> PaymentOrder {
        self.orders@[id]
    }

    /// What `wf` and `entry` mean for the view: the view holds the
    /// snapshots of the entries, each under its own identifier, and there
    /// are finitely many.
    pub proof fn lemma_view(&self)
        requires
            self.wf(),
        ensures
            self@.dom().finite(),
            forall|id: u64| #[trigger]
                self@.contains_key(id) ==> self@[id] == self.entry(id)@ && self@[id].id == id,
    {
        assert(self@.dom() =~= self.orders@.dom());
    }

    /// An empty store.
    pub fn new() -> (store: OrderStore)
        ensures
            store.wf(),
            store@ == Map::<u64, OrderView>::empty(),
    {
        let store = OrderStore { orders: HashMap::new() };
        assert(store@ =~= Map::<u64, OrderView>::empty());
        store
    }

    /// The number of orders stored.
    pub fn len(&self) -> (n: usize)
        requires
            self.wf(),
        ensures
            n == self@.len(),
    {
        proof {
            lemma_same_size(self.orders@);
        }
        self.orders.len()
    }

    /// Whether an order is stored under `id`.
    pub fn contains(&self, id: u64) -> (found: bool)
        requires
            self.wf(),
        ensures
            found == self@.contains_key(id),
    {
        self.orders.contains_key(&id)
    }

    /// Adds a new order under its identifier. An identifier that is
    /// already in use is refused with `DuplicateId` and the store stays as
    /// it was: no order is ever overwritten.
    pub fn insert(&mut self, order: PaymentOrder) -> (done: Result<(), StoreError>)
        requires
            old(self).wf(),
        ensures
            final(self).wf(),
            match done {
                Ok(_) => !old(self)@.contains_key(order.id) && final(self)@ == old(self)@.insert(
                    order.id,
                    order@,
                ) && final(self).entry(order.id) == order,
                Err(e) => e == StoreError::DuplicateId && old(self)@.contains_key(order.id)
                    && final(self)@ == old(self)@,
            },
            forall|id: u64|
                id != order.id && old(self)@.contains_key(id) ==> #[trigger] final(self).entry(id)
                    == old(self).entry(id),
    {
        let id = order.id;
        if self.orders.contains_key(&id) {
            return Err(StoreError::DuplicateId);
        }
        let ghost snapshot = order@;
        self.orders.insert(id, order);
        assert(self@ =~= old(self)@.insert(id, snapshot));
        Ok(())
    }

    /// The current snapshot of the order stored under `id`, or `NotFound`.
    pub fn get(&self, id: u64) -> (found: Result<PaymentOrder, StoreError>)
        requires
            self.wf(),
        ensures
            match found {
                Ok(order) => self@.contains_key(id) && order == self.entry(id) && order@
                    == self@[id] && order.id == id,
                Err(e) => e == StoreError::NotFound && !self@.contains_key(id),
            },
    {
        match self.orders.get(&id) {
            Some(order) => Ok(order.clone()),
            None => Err(StoreError::NotFound),
        }
    }

    /// Reads the order stored under `id`, applies `mutator` to it and
    /// stores what comes back in its place, all in one step; returns the
    /// new snapshot, or `NotFound` where no order is stored under `id`, in
    /// which case `mutator` is not called and nothing changes.
    ///
    /// `mutator` must be callable on the stored order and must hand back
    /// what that order may become: the same terms under the same
    /// identifier, the status unchanged or one step further.
    pub fn update<F: FnOnce(PaymentOrder) -> PaymentOrder>(&mut self, id: u64, mutator: F) -> (done:
        Result<PaymentOrder, StoreError>)
        requires
            old(self).wf(),
            old(self)@.contains_key(id) ==> call_requires(mutator, (old(self).entry(id),)),
            forall|next: PaymentOrder|
                old(self)@.contains_key(id) && call_ensures(mutator, (old(self).entry(id),), next)
                    ==> old(self)@[id].may_become(next@),
        ensures
            final(self).wf(),
            match done {
                Ok(order) => old(self)@.contains_key(id) && call_ensures(
                    mutator,
                    (old(self).entry(id),),
                    order,
                ) && final(self)@ == old(self)@.insert(id, order@) && final(self).entry(id)
                    == order,
                Err(e) => e == StoreError::NotFound && !old(self)@.contains_key(id) && final(self)@
                    == old(self)@,
            },
            forall|other: u64|
                other != id && old(self)@.contains_key(other) ==> #[trigger] final(self).entry(
                    other,
                ) == old(self).entry(other),
    {
        let current = match self.orders.get(&id) {
            Some(order) => order.clone(),
            None => {
                return Err(StoreError::NotFound);
            },
        };
        let next = mutator(current);
        assert(old(self)@[id] == old(self).entry(id)@);
        assert(old(self)@[id].may_become(next@));
        let snapshot = next.clone();
        self.orders.insert(id, next);
        assert(self@ =~= old(self)@.insert(id, snapshot@));
        Ok(snapshot)
    }
}

/// Taking the snapshot of every value keeps the number of entries.
proof fn lemma_same_size(m: Map<u64, PaymentOrder>)
    requires
        m.dom().finite(),
    ensures
        m.map_values(|o: PaymentOrder| o@).len() == m.len(),
{
    assert(m.map_values(|o: PaymentOrder| o@).dom() =~= m.dom());
}

} // verus!
