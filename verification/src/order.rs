//! The order: a payment intent, its snapshot in specifications, and the
//! rules by which it may change.

use vstd::prelude::*;
use crate::pricing::{address_of, price_of, PaymentMethod, Plan, CURRENCY};

verus! {

/// How long an order stays payable: thirty minutes, in milliseconds.
pub const ORDER_TTL_MS: i64 = 1_800_000;

/// The confirmation delay of a default deployment: ten seconds, in
/// milliseconds.
pub const DEFAULT_CONFIRMATION_DELAY_MS: u64 = 10_000;

/// The text that `chrono` writes, in the form of RFC 3339 and in UTC, for
/// the instant `ms` milliseconds after the Unix epoch; `None` for an
/// instant that lies outside the dates that `chrono` can hold.
pub uninterp spec fn rfc3339_text(ms: i64) -> Option<Seq<char>>;

/// `DateTime::<Utc>::from_timestamp_millis` and then `DateTime::to_rfc3339`
/// of `chrono`: the first gives the date of the instant, or `None` where
/// it has none; the second writes that date. The text is a function of the
/// instant alone, since the date is in UTC.
#[verifier::external_body]
fn rfc3339_of(ms: i64) -> (text: Option<String>)
    ensures
        match text {
            Some(t) => rfc3339_text(ms) == Some(t@),
            None => rfc3339_text(ms) is None,
        },
{
    match chrono::DateTime::<chrono::Utc>::from_timestamp_millis(ms) {
        Some(date) => Some(date.to_rfc3339()),
        None => None,
    }
}

/// Where an order stands in its life.
#[derive(Clone, Copy, Debug, PartialEq, Eq, Structural)]
pub enum OrderStatus {
    Created,
    Paid,
    Confirmed,
    Expired,
    Cancelled,
}

impl OrderStatus {
    /// The lower-case name of the status.
    pub open spec fn name(&self) -> Seq<char> {
        match self {
            OrderStatus::Created => "created"@,
            OrderStatus::Paid => "paid"@,
            OrderStatus::Confirmed => "confirmed"@,
            OrderStatus::Expired => "expired"@,
            OrderStatus::Cancelled => "cancelled"@,
        }
    }

    /// The lower-case name of the status.
    pub fn as_str(&self) -> (name: &'static str)
        ensures
            name@ == self.name(),
    {
        match self {
            OrderStatus::Created => "created",
            OrderStatus::Paid => "paid",
            OrderStatus::Confirmed => "confirmed",
            OrderStatus::Expired => "expired",
            OrderStatus::Cancelled => "cancelled",
        }
    }

    /// No order leaves a terminal status.
    pub open spec fn terminal(&self) -> bool {
        *self == OrderStatus::Confirmed || *self == OrderStatus::Expired || *self
            == OrderStatus::Cancelled
    }

    /// Decides whether the status is terminal.
    pub fn is_terminal(&self) -> (yes: bool)
        ensures
            yes == self.terminal(),
    {
        match self {
            OrderStatus::Confirmed | OrderStatus::Expired | OrderStatus::Cancelled => true,
            OrderStatus::Created | OrderStatus::Paid => false,
        }
    }
}

/// One step of the order state machine: a created order may be paid,
/// confirmed, expired or cancelled, a paid order may be confirmed, and
/// nothing else moves.
pub open spec fn can_follow(from: OrderStatus, to: OrderStatus) -> bool {
    match from {
        OrderStatus::Created => to != OrderStatus::Created,
        OrderStatus::Paid => to == OrderStatus::Confirmed,
        OrderStatus::Confirmed | OrderStatus::Expired | OrderStatus::Cancelled => false,
    }
}

/// A payment intent. Amounts are in micro-units, instants in milliseconds
/// since the Unix epoch.
#[derive(Debug, PartialEq, Eq)]
pub struct PaymentOrder {
    pub id: u64,
    pub user_id: String,
    pub plan: Plan,
    pub amount: u64,
    pub currency: String,
    pub payment_method: PaymentMethod,
    pub status: OrderStatus,
    pub payment_address: String,
    pub payment_amount: u64,
    pub created_at: i64,
    pub expires_at: i64,
    pub tx_hash: Option<String>,
    pub paid_at: Option<i64>,
    pub confirmations: Option<u32>,
    pub confirmed_at: Option<i64>,
}

/// What an order holds, as plain values.
pub struct OrderView {
    pub id: u64,
    pub user_id: Seq<char>,
    pub plan: Plan,
    pub amount: u64,
    pub currency: Seq<char>,
    pub payment_method: PaymentMethod,
    pub status: OrderStatus,
    pub payment_address: Seq<char>,
    pub payment_amount: u64,
    pub created_at: i64,
    pub expires_at: i64,
    pub tx_hash: Option<Seq<char>>,
    pub paid_at: Option<i64>,
    pub confirmations: Option<u32>,
    pub confirmed_at: Option<i64>,
}

impl OrderView {
    /// The order as it is created: for `owner`, on `plan` and `method`, at
    /// the instant `now`, under the identifier `id`.
    pub open spec fn fresh(
        id: u64,
        owner: Seq<char>,
        plan: Plan,
        method: PaymentMethod,
        now: i64,
    ) -> OrderView {
        OrderView {
            id,
            user_id: owner,
            plan,
            amount: price_of(plan),
            currency: CURRENCY@,
            payment_method: method,
            status: OrderStatus::Created,
            payment_address: address_of(method),
            payment_amount: price_of(plan),
            created_at: now,
            expires_at: (now + ORDER_TTL_MS) as i64,
            tx_hash: None,
            paid_at: None,
            confirmations: None,
            confirmed_at: None,
        }
    }

    /// The terms of an order agree with the pricing and routing tables, it
    /// expires exactly `ORDER_TTL_MS` after its creation, and it carries
    /// confirmation data only once it has left `Created`, and all of it
    /// once it is `Confirmed`.
    pub open spec fn well_formed(&self) -> bool {
        &&& self.amount == price_of(self.plan)
        &&& self.payment_amount == self.amount
        &&& self.payment_address == address_of(self.payment_method)
        &&& self.currency == CURRENCY@
        &&& self.expires_at == self.created_at + ORDER_TTL_MS
        &&& self.status == OrderStatus::Created ==> self.unconfirmed()
        &&& self.status == OrderStatus::Confirmed ==> self.confirmed_at is Some
            && self.confirmations is Some
    }

    /// No field that is filled after creation is set.
    pub open spec fn unconfirmed(&self) -> bool {
        &&& self.tx_hash is None
        &&& self.paid_at is None
        &&& self.confirmations is None
        &&& self.confirmed_at is None
    }

    /// The two snapshots agree on everything that is fixed at creation.
    pub open spec fn same_terms(&self, other: OrderView) -> bool {
        &&& self.id == other.id
        &&& self.user_id == other.user_id
        &&& self.plan == other.plan
        &&& self.amount == other.amount
        &&& self.currency == other.currency
        &&& self.payment_method == other.payment_method
        &&& self.payment_address == other.payment_address
        &&& self.payment_amount == other.payment_amount
        &&& self.created_at == other.created_at
        &&& self.expires_at == other.expires_at
    }

    /// `next` is what this order may become: the terms stay, and the
    /// status stays or takes one step of the state machine.
    pub open spec fn may_become(&self, next: OrderView) -> bool {
        &&& self.same_terms(next)
        &&& (next.status == self.status || can_follow(self.status, next.status))
    }

    /// In a listing, this order stands before `other`: it was created
    /// later, or at the same instant under the higher identifier.
    pub open spec fn listed_before(&self, other: OrderView) -> bool {
        self.created_at > other.created_at || (self.created_at == other.created_at && self.id
            > other.id)
    }

    /// The order is still `Created` and at least `delay_ms` milliseconds
    /// have passed since its creation.
    pub open spec fn confirmation_due(&self, now: i64, delay_ms: u64) -> bool {
        self.status == OrderStatus::Created && now - self.created_at >= delay_ms
    }

    /// The order with its confirmation recorded at `now`.
    pub open spec fn confirmed(&self, now: i64) -> OrderView {
        OrderView {
            status: OrderStatus::Confirmed,
            confirmations: Some(1u32),
            confirmed_at: Some(now),
            ..*self
        }
    }

    /// The order after a status read at `now`: confirmed where
    /// confirmation is due, unchanged where it is not.
    pub open spec fn after_read(&self, now: i64, delay_ms: u64) -> OrderView {
        if self.confirmation_due(now, delay_ms) {
            self.confirmed(now)
        } else {
            *self
        }
    }
}

impl View for PaymentOrder {
    type V = OrderView;

    open spec fn view(&self) -> OrderView {
        OrderView {
            id: self.id,
            user_id: self.user_id@,
            plan: self.plan,
            amount: self.amount,
            currency: self.currency@,
            payment_method: self.payment_method,
            status: self.status,
            payment_address: self.payment_address@,
            payment_amount: self.payment_amount,
            created_at: self.created_at,
            expires_at: self.expires_at,
            tx_hash: match self.tx_hash {
                Some(t) => Some(t@),
                None => None,
            },
            paid_at: self.paid_at,
            confirmations: self.confirmations,
            confirmed_at: self.confirmed_at,
        }
    }
}

impl Clone for PaymentOrder {
    fn clone(&self) -> (copy: Self)
        ensures
            copy == *self,
    {
        PaymentOrder {
            id: self.id,
            user_id: self.user_id.clone(),
            plan: self.plan,
            amount: self.amount,
            currency: self.currency.clone(),
            payment_method: self.payment_method,
            status: self.status,
            payment_address: self.payment_address.clone(),
            payment_amount: self.payment_amount,
            created_at: self.created_at,
            expires_at: self.expires_at,
            tx_hash: match &self.tx_hash {
                Some(t) => Some(t.clone()),
                None => None,
            },
            paid_at: self.paid_at,
            confirmations: self.confirmations,
            confirmed_at: self.confirmed_at,
        }
    }
}

impl PaymentOrder {
    /// A new order for `owner` on `plan` and `method`, created at `now`
    /// under the identifier `id`: priced and routed by the tables, in
    /// status `Created`, payable for `ORDER_TTL_MS`.
    pub fn new(id: u64, owner: &str, plan: Plan, method: PaymentMethod, now: i64) -> (order:
        PaymentOrder)
        requires
            now + ORDER_TTL_MS <= i64::MAX,
        ensures
            order@ == OrderView::fresh(id, owner@, plan, method, now),
            order@.well_formed(),
    {
        let amount = plan.price();
        PaymentOrder {
            id,
            user_id: owner.to_owned(),
            plan,
            amount,
            currency: CURRENCY.to_owned(),
            payment_method: method,
            status: OrderStatus::Created,
            payment_address: method.address().to_owned(),
            payment_amount: amount,
            created_at: now,
            expires_at: now + ORDER_TTL_MS,
            tx_hash: None,
            paid_at: None,
            confirmations: None,
            confirmed_at: None,
        }
    }

    /// The instant of creation as text, in the form of RFC 3339: what a
    /// database or a log takes. `None` for an instant without a date.
    pub fn created_at_text(&self) -> (text: Option<String>)
        ensures
            match text {
                Some(t) => rfc3339_text(self.created_at) == Some(t@),
                None => rfc3339_text(self.created_at) is None,
            },
    {
        rfc3339_of(self.created_at)
    }

    /// The instant of expiry as text, in the form of RFC 3339. `None` for
    /// an instant without a date.
    pub fn expires_at_text(&self) -> (text: Option<String>)
        ensures
            match text {
                Some(t) => rfc3339_text(self.expires_at) == Some(t@),
                None => rfc3339_text(self.expires_at) is None,
            },
    {
        rfc3339_of(self.expires_at)
    }

    /// Decides whether, in a listing, this order stands before `other`.
    pub fn is_listed_before(&self, other: &PaymentOrder) -> (before: bool)
        ensures
            before == self@.listed_before(other@),
    {
        self.created_at > other.created_at || (self.created_at == other.created_at && self.id
            > other.id)
    }

    /// Decides whether a status read at `now` confirms the order.
    pub fn confirmation_due(&self, now: i64, delay_ms: u64) -> (due: bool)
        ensures
            due == self@.confirmation_due(now, delay_ms),
    {
        match self.status {
            OrderStatus::Created => (now as i128) - (self.created_at as i128) >= (delay_ms as i128),
            _ => false,
        }
    }

    /// Applies the confirmation rule of a status read at `now`: an order
    /// that is still `Created` after `delay_ms` milliseconds becomes
    /// `Confirmed`, with one confirmation, at `now`; any other order comes
    /// back as it was.
    pub fn after_read(self, now: i64, delay_ms: u64) -> (next: PaymentOrder)
        ensures
            next@ == self@.after_read(now, delay_ms),
            self@.may_become(next@),
            self@.well_formed() ==> next@.well_formed(),
    {
        if self.confirmation_due(now, delay_ms) {
            let mut next = self;
            next.status = OrderStatus::Confirmed;
            next.confirmations = Some(1);
            next.confirmed_at = Some(now);
            next
        } else {
            self
        }
    }
}

/// Where `order` goes in a listing: behind the orders at its head that it
/// does not stand before, which is in front of the first one that it
/// stands before, or at the end.
pub open spec fn listed_position(list: Seq<OrderView>, order: OrderView) -> nat
    decreases list.len(),
{
    if list.len() == 0 || order.listed_before(list[0]) {
        0
    } else {
        1 + listed_position(list.drop_first(), order)
    }
}

/// The listing `list` with `order` put in at its place.
pub open spec fn with_listed(list: Seq<OrderView>, order: OrderView) -> Seq<OrderView> {
    list.insert(listed_position(list, order) as int, order)
}

/// A listing is in order: each order stands before all that follow it, so
/// the instants of creation never rise along the listing, and among
/// orders of one instant the identifiers fall.
pub open spec fn in_listing_order(list: Seq<OrderView>) -> bool {
    forall|i: int, j: int| 0 <= i < j < list.len() ==> #[trigger] list[i].listed_before(#[trigger] list[j])
}

/// `listed_position` is the first place whose order `order` stands
/// before, or the end.
pub proof fn lemma_listed_position(list: Seq<OrderView>, order: OrderView, at: int)
    requires
        0 <= at <= list.len(),
        forall|j: int| 0 <= j < at ==> !order.listed_before(#[trigger] list[j]),
        at == list.len() || order.listed_before(list[at]),
    ensures
        listed_position(list, order) == at,
    decreases list.len(),
{
    if at > 0 {
        assert(!order.listed_before(list[0]));
        assert forall|j: int| 0 <= j < at - 1 implies !order.listed_before(
            #[trigger] list.drop_first()[j],
        ) by {
            assert(list.drop_first()[j] == list[j + 1]);
        }
        lemma_listed_position(list.drop_first(), order, at - 1);
    }
}

/// What `listed_position` gives: a place in the listing or its end, with
/// no order before it that `order` stands before, and at it, if it is not
/// the end, an order that `order` stands before.
pub proof fn lemma_position_bounds(list: Seq<OrderView>, order: OrderView)
    ensures
        listed_position(list, order) <= list.len(),
        forall|j: int|
            0 <= j < listed_position(list, order) ==> !order.listed_before(#[trigger] list[j]),
        listed_position(list, order) == list.len() || order.listed_before(
            list[listed_position(list, order) as int],
        ),
    decreases list.len(),
{
    if list.len() == 0 || order.listed_before(list[0]) {
    } else {
        let rest = list.drop_first();
        lemma_position_bounds(rest, order);
        let p = listed_position(rest, order) as int;
        assert forall|j: int| 0 <= j < p + 1 implies !order.listed_before(#[trigger] list[j]) by {
            if j > 0 {
                assert(list[j] == rest[j - 1]);
            }
        }
        if p < rest.len() {
            assert(list[p + 1] == rest[p]);
        }
    }
}

/// Puts `order` into the listing `list` at its place.
pub fn insert_listed(list: &mut Vec<PaymentOrder>, order: PaymentOrder)
    ensures
        snapshots(final(list)@) == with_listed(snapshots(old(list)@), order@),
{
    let mut at: usize = 0;
    while at < list.len() && !order.is_listed_before(&list[at])
        invariant
            at <= list.len(),
            *list == *old(list),
            forall|j: int| 0 <= j < at ==> !order@.listed_before(#[trigger] snapshots(list@)[j]),
        decreases list.len() - at,
    {
        at += 1;
    }
    proof {
        lemma_listed_position(snapshots(list@), order@, at as int);
    }
    let ghost shown = order@;
    list.insert(at, order);
    assert(snapshots(list@) =~= snapshots(old(list)@).insert(at as int, shown));
}

/// The snapshots of a list of orders, in their order.
pub open spec fn snapshots(orders: Seq<PaymentOrder>) -> Seq<OrderView> {
    orders.map_values(|order: PaymentOrder| order@)
}

/// What a client sends to open an order.
#[derive(Debug, PartialEq, Eq)]
pub struct CreatePaymentRequest {
    pub plan: String,
    pub payment_method: String,
}

/// What a client gets back for an order it opened.
#[derive(Debug, PartialEq, Eq)]
pub struct CreatePaymentResponse {
    pub order: PaymentOrder,
    pub qr_code: String,
    pub deep_link: String,
}

} // verus!
