//! The lifecycle engine: it opens orders, advances them when their status
//! is read, and publishes every change to the notification hub.
//!
//! Confirmation is lazy. Nothing runs in the background: an order is
//! confirmed by the first status read that finds it old enough, so a
//! caller that waits for the confirmation has to read the status, or to
//! subscribe and have someone else read it.

use vstd::prelude::*;
use crate::clock::now_millis;
use crate::hub::{Delivery, HubView, NotificationHub, Subscription};
use crate::laws::law_listing_is_by_creation;
use crate::order::{
    in_listing_order,
    insert_listed,
    snapshots,
    with_listed,
    CreatePaymentRequest,
    CreatePaymentResponse,
    OrderView,
    PaymentOrder,
    DEFAULT_CONFIRMATION_DELAY_MS,
    ORDER_TTL_MS,
};
use crate::paging::{limit_of, offset_of, page_window, window_rows, PageWindow};
use crate::payload::{deeplink_text, generate_deeplink, generate_qr, qr_text};
use crate::pricing::{method_of, plan_of, PaymentMethod, Plan};
use crate::store::OrderStore;
use crate::text::str_eq;

verus! {

/// The inbox capacity of a default deployment.
pub const DEFAULT_INBOX_CAPACITY: usize = 16;

/// Why the engine refused a request.
#[derive(Clone, Copy, Debug, PartialEq, Eq, Structural)]
pub enum OrderError {
    /// The plan is none of the known plans.
    UnsupportedPlan,
    /// The payment method is none of the known rails.
    UnsupportedMethod,
    /// No order has this identifier.
    NotFound,
    /// No unused identifier was left for a new order.
    DuplicateId,
    /// The request names no owner and the deployment demands one.
    Unauthenticated,
}

impl OrderError {
    /// The status code under which the error is reported over HTTP.
    pub open spec fn code(&self) -> u16 {
        match self {
            OrderError::UnsupportedPlan => 400,
            OrderError::UnsupportedMethod => 400,
            OrderError::Unauthenticated => 401,
            OrderError::NotFound => 404,
            OrderError::DuplicateId => 500,
        }
    }

    /// The status code under which the error is reported over HTTP: 400
    /// for a request that names an unknown plan or rail, 401 for a missing
    /// owner, 404 for an unknown order, 500 for a failure of the engine
    /// itself.
    pub fn status_code(&self) -> (code: u16)
        ensures
            code == self.code(),
    {
        match self {
            OrderError::UnsupportedPlan => 400,
            OrderError::UnsupportedMethod => 400,
            OrderError::Unauthenticated => 401,
            OrderError::NotFound => 404,
            OrderError::DuplicateId => 500,
        }
    }

    /// The name of the error in reports.
    pub open spec fn kind_name(&self) -> Seq<char> {
        match self {
            OrderError::UnsupportedPlan => "UnsupportedPlan"@,
            OrderError::UnsupportedMethod => "UnsupportedMethod"@,
            OrderError::NotFound => "NotFound"@,
            OrderError::DuplicateId => "DuplicateId"@,
            OrderError::Unauthenticated => "Unauthenticated"@,
        }
    }

    /// The name of the error in reports.
    pub fn kind(&self) -> (name: &'static str)
        ensures
            name@ == self.kind_name(),
    {
        match self {
            OrderError::UnsupportedPlan => "UnsupportedPlan",
            OrderError::UnsupportedMethod => "UnsupportedMethod",
            OrderError::NotFound => "NotFound",
            OrderError::DuplicateId => "DuplicateId",
            OrderError::Unauthenticated => "Unauthenticated",
        }
    }

    /// A sentence for the person who made the request.
    pub open spec fn message_text(&self) -> Seq<char> {
        match self {
            OrderError::UnsupportedPlan => "不支持的套餐"@,
            OrderError::UnsupportedMethod => "不支持的支付方式"@,
            OrderError::NotFound => "订单不存在"@,
            OrderError::DuplicateId => "订单编号已用尽"@,
            OrderError::Unauthenticated => "用户未登录"@,
        }
    }

    /// A sentence for the person who made the request.
    pub fn message(&self) -> (text: String)
        ensures
            text@ == self.message_text(),
    {
        match self {
            OrderError::UnsupportedPlan => "不支持的套餐".to_owned(),
            OrderError::UnsupportedMethod => "不支持的支付方式".to_owned(),
            OrderError::NotFound => "订单不存在".to_owned(),
            OrderError::DuplicateId => "订单编号已用尽".to_owned(),
            OrderError::Unauthenticated => "用户未登录".to_owned(),
        }
    }
}

/// How a deployment is set up.
#[derive(Debug)]
pub struct ServiceConfig {
    /// How long after its creation an order is confirmed, in
    /// milliseconds.
    pub confirmation_delay_ms: u64,
    /// How many snapshots the inbox of a subscriber holds.
    pub inbox_capacity: usize,
    /// The owner of an order that is opened without one; `None` where
    /// every order must name its owner.
    pub placeholder_owner: Option<String>,
}

impl ServiceConfig {
    /// The default deployment: confirmation after ten seconds, inboxes of
    /// sixteen snapshots, and every order must name its owner.
    pub fn standard() -> (config: ServiceConfig)
        ensures
            config.confirmation_delay_ms == DEFAULT_CONFIRMATION_DELAY_MS,
            config.inbox_capacity == DEFAULT_INBOX_CAPACITY,
            config.placeholder_owner is None,
    {
        ServiceConfig {
            confirmation_delay_ms: DEFAULT_CONFIRMATION_DELAY_MS,
            inbox_capacity: DEFAULT_INBOX_CAPACITY,
            placeholder_owner: None,
        }
    }
}

/// The state of the engine: the orders by identifier, the hub, the number
/// of identifiers issued, and the settings.
pub struct ServiceView {
    pub orders: Map<u64, OrderView>,
    pub hub: HubView,
    pub issued: u64,
    pub delay_ms: u64,
    pub placeholder: Option<Seq<char>>,
}

impl ServiceView {
    /// The engine as it starts: no orders, an open hub without
    /// subscribers.
    pub open spec fn initial(delay_ms: u64, capacity: nat, placeholder: Option<Seq<char>>)
        -> ServiceView {
        ServiceView {
            orders: Map::empty(),
            hub: HubView::empty(capacity),
            issued: 0,
            delay_ms,
            placeholder,
        }
    }

    /// Every order is well formed and stored under its own identifier,
    /// which is one of those issued; the hub is well formed.
    pub open spec fn well_formed(self) -> bool {
        &&& self.hub.well_formed()
        &&& forall|id: u64| #[trigger]
            self.orders.contains_key(id) ==> {
                &&& 1 <= id <= self.issued
                &&& self.orders[id].id == id
                &&& self.orders[id].well_formed()
            }
    }

    /// The owner of a new order: the one that the request names, else the
    /// deployment's placeholder, if it has one.
    pub open spec fn owner_for(self, given: Option<Seq<char>>) -> Option<Seq<char>> {
        match given {
            Some(owner) => Some(owner),
            None => self.placeholder,
        }
    }

    /// The error that refuses a creation request, if any. The plan is
    /// checked first, then the rail, then the owner, then whether an
    /// identifier is left. Whether a request is refused does not depend
    /// on the instant at which it is made.
    pub open spec fn refusal(self, plan: Seq<char>, method: Seq<char>, owner: Option<Seq<char>>)
        -> Option<OrderError> {
        if plan_of(plan) is None {
            Some(OrderError::UnsupportedPlan)
        } else if method_of(method) is None {
            Some(OrderError::UnsupportedMethod)
        } else if self.owner_for(owner) is None {
            Some(OrderError::Unauthenticated)
        } else if self.issued == u64::MAX {
            Some(OrderError::DuplicateId)
        } else {
            None
        }
    }

    /// The order that a creation request opens at `now`, or the error
    /// that refuses it.
    pub open spec fn creation(
        self,
        plan: Seq<char>,
        method: Seq<char>,
        owner: Option<Seq<char>>,
        now: i64,
    ) -> Result<OrderView, OrderError> {
        match self.refusal(plan, method, owner) {
            Some(e) => Err(e),
            None => Ok(
                OrderView::fresh(
                    (self.issued + 1) as u64,
                    self.owner_for(owner)->0,
                    plan_of(plan)->0,
                    method_of(method)->0,
                    now,
                ),
            ),
        }
    }

    /// The engine after `order` was opened: it is stored, its identifier
    /// counts as issued, and its first snapshot is published.
    pub open spec fn with_created(self, order: OrderView) -> ServiceView {
        ServiceView {
            orders: self.orders.insert(order.id, order),
            hub: self.hub.published(order.id, order),
            issued: order.id,
            ..self
        }
    }

    /// The engine after a creation request: with the new order where the
    /// request is accepted, unchanged where it is refused.
    pub open spec fn after_creation(
        self,
        plan: Seq<char>,
        method: Seq<char>,
        owner: Option<Seq<char>>,
        now: i64,
    ) -> ServiceView {
        match self.creation(plan, method, owner, now) {
            Ok(order) => self.with_created(order),
            Err(_) => self,
        }
    }

    /// What a status read of `id` at `now` returns: the order after the
    /// confirmation rule, or `NotFound`.
    pub open spec fn status(self, id: u64, now: i64) -> Result<OrderView, OrderError> {
        if self.orders.contains_key(id) {
            Ok(self.orders[id].after_read(now, self.delay_ms))
        } else {
            Err(OrderError::NotFound)
        }
    }

    /// The engine after a status read of `id` at `now`: where the read
    /// confirms the order, the confirmed order is stored and published;
    /// otherwise nothing changes.
    pub open spec fn after_status(self, id: u64, now: i64) -> ServiceView {
        if self.orders.contains_key(id) && self.orders[id].confirmation_due(now, self.delay_ms) {
            let next = self.orders[id].confirmed(now);
            ServiceView {
                orders: self.orders.insert(id, next),
                hub: self.hub.published(id, next),
                ..self
            }
        } else {
            self
        }
    }

    /// The listing of the orders of `owner` among those with an identifier
    /// up to `upto`: each of them put in at its place, so that the order
    /// created last comes first, and of two orders created at the same
    /// instant the one with the higher identifier.
    pub open spec fn newest_first(self, upto: nat, owner: Seq<char>) -> Seq<OrderView>
        decreases upto,
    {
        if upto == 0 {
            Seq::empty()
        } else {
            let older = self.newest_first((upto - 1) as nat, owner);
            if self.orders.contains_key(upto as u64) && self.orders[upto as u64].user_id == owner {
                with_listed(older, self.orders[upto as u64])
            } else {
                older
            }
        }
    }

    /// The listing of all orders of `owner`, by the instant of creation,
    /// the latest first: see `newest_first` and, for what it comes to,
    /// `laws::law_listing_is_by_creation`.
    pub open spec fn orders_of(self, owner: Seq<char>) -> Seq<OrderView> {
        self.newest_first(self.issued as nat, owner)
    }

    /// The engine after status reads of `id` at each of `times`, in turn.
    pub open spec fn after_statuses(self, id: u64, times: Seq<i64>) -> ServiceView
        decreases times.len(),
    {
        if times.len() == 0 {
            self
        } else {
            self.after_statuses(id, times.drop_last()).after_status(id, times.last())
        }
    }
}

/// The owner that a caller names, as plain characters.
pub open spec fn named(owner: Option<&str>) -> Option<Seq<char>> {
    match owner {
        Some(o) => Some(o@),
        None => None,
    }
}

/// `receipt` answers a creation request for the rail named `method` whose
/// outcome is `expected`: the same error, or the expected order with its
/// image payload and its deep link.
pub open spec fn answers_creation(
    receipt: Result<CreatePaymentResponse, OrderError>,
    expected: Result<OrderView, OrderError>,
    method: Seq<char>,
) -> bool {
    match expected {
        Ok(order) => {
            &&& receipt matches Ok(r)
            &&& r.order@ == order
            &&& r.qr_code@ == qr_text(order.payment_address, order.amount, method)
            &&& r.deep_link@ == deeplink_text(order.payment_address, order.amount, method)
        },
        Err(e) => receipt matches Err(f) && f == e,
    }
}

/// `snapshot` answers a status read whose outcome is `expected`.
pub open spec fn answers_status(
    snapshot: Result<PaymentOrder, OrderError>,
    expected: Result<OrderView, OrderError>,
) -> bool {
    match expected {
        Ok(order) => snapshot matches Ok(s) && s@ == order,
        Err(e) => snapshot matches Err(f) && f == e,
    }
}

/// The lifecycle engine.
pub struct OrderService {
    store: OrderStore,
    hub: NotificationHub,
    issued: u64,
    confirmation_delay_ms: u64,
    placeholder_owner: Option<String>,
}

impl View for OrderService {
    type V = ServiceView;

    closed spec fn view(&self) -> ServiceView {
        ServiceView {
            orders: self.store@,
            hub: self.hub@,
            issued: self.issued,
            delay_ms: self.confirmation_delay_ms,
            placeholder: match self.placeholder_owner {
                Some(owner) => Some(owner@),
                None => None,
            },
        }
    }
}

impl OrderService {
    /// The store and the hub are sound and the state is well formed.
    pub closed spec fn wf(&self) -> bool {
        &&& self.store.wf()
        &&& self.hub.wf()
        &&& self@.well_formed()
    }

    /// A sound engine has a well-formed state.
    pub proof fn lemma_well_formed(&self)
        requires
            self.wf(),
        ensures
            self@.well_formed(),
    {
    }

    /// An engine without orders, set up as `config` says. An inbox
    /// capacity of zero counts as one.
    pub fn new(config: ServiceConfig) -> (service: OrderService)
        ensures
            service.wf(),
            service@ == ServiceView::initial(
                config.confirmation_delay_ms,
                if config.inbox_capacity == 0 {
                    1nat
                } else {
                    config.inbox_capacity as nat
                },
                match config.placeholder_owner {
                    Some(owner) => Some(owner@),
                    None => None,
                },
            ),
    {
        let hub = NotificationHub::new(config.inbox_capacity);
        proof {
            hub.lemma_well_formed();
        }
        OrderService {
            store: OrderStore::new(),
            hub,
            issued: 0,
            confirmation_delay_ms: config.confirmation_delay_ms,
            placeholder_owner: config.placeholder_owner,
        }
    }

    /// How long after its creation an order is confirmed, in
    /// milliseconds.
    pub fn confirmation_delay_ms(&self) -> (delay: u64)
        ensures
            delay == self@.delay_ms,
    {
        self.confirmation_delay_ms
    }

    /// The number of orders opened so far.
    pub fn order_count(&self) -> (count: u64)
        ensures
            count == self@.issued,
    {
        self.issued
    }

    /// Opens an order at the instant `now`.
    ///
    /// The request is refused with `UnsupportedPlan` where its plan is
    /// unknown, else with `UnsupportedMethod` where its rail is unknown,
    /// else with `Unauthenticated` where neither the caller nor the
    /// deployment names an owner, else with `DuplicateId` where no
    /// identifier is left; a refused request changes nothing. Otherwise
    /// the new order gets the next identifier, is priced and routed by
    /// the tables, is stored in status `Created`, and its snapshot is
    /// published; the receipt holds the order, its image payload and its
    /// deep link, both written with the rail's name as the request gave
    /// it.
    pub fn create_order_at(
        &mut self,
        request: &CreatePaymentRequest,
        owner: Option<&str>,
        now: i64,
    ) -> (receipt: Result<CreatePaymentResponse, OrderError>)
        requires
            old(self).wf(),
            now + ORDER_TTL_MS <= i64::MAX,
        ensures
            final(self).wf(),
            final(self)@ == old(self)@.after_creation(
                request.plan@,
                request.payment_method@,
                named(owner),
                now,
            ),
            answers_creation(
                receipt,
                old(self)@.creation(request.plan@, request.payment_method@, named(owner), now),
                request.payment_method@,
            ),
    {
        let plan = match Plan::parse(request.plan.as_str()) {
            Some(plan) => plan,
            None => {
                return Err(OrderError::UnsupportedPlan);
            },
        };
        let method = match PaymentMethod::parse(request.payment_method.as_str()) {
            Some(method) => method,
            None => {
                return Err(OrderError::UnsupportedMethod);
            },
        };
        let owner: &str = match owner {
            Some(owner) => owner,
            None => match &self.placeholder_owner {
                Some(owner) => owner.as_str(),
                None => {
                    return Err(OrderError::Unauthenticated);
                },
            },
        };
        if self.issued == u64::MAX {
            return Err(OrderError::DuplicateId);
        }
        let order = PaymentOrder::new(self.issued + 1, owner, plan, method, now);
        let qr_code = generate_qr(
            order.payment_address.as_str(),
            order.amount,
            request.payment_method.as_str(),
        );
        let deep_link = generate_deeplink(
            order.payment_address.as_str(),
            order.amount,
            request.payment_method.as_str(),
        );
        let id = order.id;
        proof {
            self.store.lemma_view();
        }
        match self.store.insert(order.clone()) {
            Ok(_) => {},
            Err(_) => {
                return Err(OrderError::DuplicateId);
            },
        }
        self.hub.publish(id, &order);
        self.issued = id;
        proof {
            self.hub.lemma_well_formed();
        }
        Ok(CreatePaymentResponse { order, qr_code, deep_link })
    }

    /// Reads the status of the order `id` at the instant `now`.
    ///
    /// `NotFound` where no order has that identifier; nothing changes
    /// then. Otherwise the confirmation rule is applied: an order that is
    /// still `Created` and at least the confirmation delay old becomes
    /// `Confirmed`, with one confirmation, at `now`, and this snapshot is
    /// stored and published. Any other order, and every other order, stays
    /// as it is and nothing is published. The snapshot after the rule is
    /// returned.
    pub fn get_status_at(&mut self, id: u64, now: i64) -> (snapshot: Result<
        PaymentOrder,
        OrderError,
    >)
        requires
            old(self).wf(),
        ensures
            final(self).wf(),
            final(self)@ == old(self)@.after_status(id, now),
            answers_status(snapshot, old(self)@.status(id, now)),
    {
        let delay = self.confirmation_delay_ms;
        proof {
            self.store.lemma_view();
        }
        let current = match self.store.get(id) {
            Ok(order) => order,
            Err(_) => {
                return Err(OrderError::NotFound);
            },
        };
        if !current.confirmation_due(now, delay) {
            return Ok(current);
        }
        let mutator = |order: PaymentOrder| -> (next: PaymentOrder)
            ensures
                next@ == order@.after_read(now, delay),
                order@.may_become(next@),
                order@.well_formed() ==> next@.well_formed(),
            { order.after_read(now, delay) };
        match self.store.update(id, mutator) {
            Ok(order) => {
                self.hub.publish(id, &order);
                proof {
                    self.hub.lemma_well_formed();
                }
                Ok(order)
            },
            Err(_) => Err(OrderError::NotFound),
        }
    }

    /// The error that refuses a creation request, if any: see
    /// `ServiceView::refusal`. Nothing changes.
    pub fn refusal(&self, request: &CreatePaymentRequest, owner: Option<&str>) -> (error: Option<
        OrderError,
    >)
        requires
            self.wf(),
        ensures
            error == self@.refusal(request.plan@, request.payment_method@, named(owner)),
    {
        if Plan::parse(request.plan.as_str()).is_none() {
            Some(OrderError::UnsupportedPlan)
        } else if PaymentMethod::parse(request.payment_method.as_str()).is_none() {
            Some(OrderError::UnsupportedMethod)
        } else if owner.is_none() && self.placeholder_owner.is_none() {
            Some(OrderError::Unauthenticated)
        } else if self.issued == u64::MAX {
            Some(OrderError::DuplicateId)
        } else {
            None
        }
    }

    /// Opens an order at the instant that a clock reading gave, if it gave
    /// one.
    ///
    /// A request that is refused gets its error whatever the reading,
    /// and changes nothing. Any other request is opened as by
    /// `create_order_at` where the reading gave an instant from which the
    /// instant of expiry can be counted, `now + ORDER_TTL_MS <= i64::MAX`.
    /// Where it gave none, or a later one, the result is `None` and
    /// nothing changes.
    pub fn create_order_when(
        &mut self,
        request: &CreatePaymentRequest,
        owner: Option<&str>,
        instant: Option<i64>,
    ) -> (receipt: Option<Result<CreatePaymentResponse, OrderError>>)
        requires
            old(self).wf(),
        ensures
            final(self).wf(),
            match old(self)@.refusal(request.plan@, request.payment_method@, named(owner)) {
                Some(e) => receipt matches Some(Err(f)) && f == e && final(self)@ == old(self)@,
                None => match instant {
                    Some(now) => if now + ORDER_TTL_MS <= i64::MAX {
                        &&& receipt matches Some(answer)
                        &&& final(self)@ == old(self)@.after_creation(
                            request.plan@,
                            request.payment_method@,
                            named(owner),
                            now,
                        )
                        &&& answers_creation(
                            answer,
                            old(self)@.creation(
                                request.plan@,
                                request.payment_method@,
                                named(owner),
                                now,
                            ),
                            request.payment_method@,
                        )
                    } else {
                        receipt is None && final(self)@ == old(self)@
                    },
                    None => receipt is None && final(self)@ == old(self)@,
                },
            },
    {
        match self.refusal(request, owner) {
            Some(e) => {
                return Some(Err(e));
            },
            None => {},
        }
        let now = match instant {
            Some(now) => now,
            None => {
                return None;
            },
        };
        if now > i64::MAX - ORDER_TTL_MS {
            return None;
        }
        Some(self.create_order_at(request, owner, now))
    }

    /// Opens an order now: `create_order_when` with the reading of the
    /// system clock. So the result is `None`, and nothing changes, only
    /// for a request that is not refused while the clock stands before the
    /// Unix epoch or too late for an order to expire.
    pub fn create_order(&mut self, request: &CreatePaymentRequest, owner: Option<&str>) -> (receipt:
        Option<Result<CreatePaymentResponse, OrderError>>)
        requires
            old(self).wf(),
        ensures
            final(self).wf(),
            match old(self)@.refusal(request.plan@, request.payment_method@, named(owner)) {
                Some(e) => receipt matches Some(Err(f)) && f == e && final(self)@ == old(self)@,
                None => match receipt {
                    Some(answer) => exists|now: i64|
                        {
                            &&& 0 <= now
                            &&& now + ORDER_TTL_MS <= i64::MAX
                            &&& final(self)@ == #[trigger] old(self)@.after_creation(
                                request.plan@,
                                request.payment_method@,
                                named(owner),
                                now,
                            )
                            &&& answers_creation(
                                answer,
                                old(self)@.creation(
                                    request.plan@,
                                    request.payment_method@,
                                    named(owner),
                                    now,
                                ),
                                request.payment_method@,
                            )
                        },
                    None => final(self)@ == old(self)@,
                },
            },
    {
        let instant = now_millis();
        let receipt = self.create_order_when(request, owner, instant);
        proof {
            if old(self)@.refusal(request.plan@, request.payment_method@, named(owner)) is None
                && receipt is Some {
                let now = instant->0;
                assert(self@ == old(self)@.after_creation(
                    request.plan@,
                    request.payment_method@,
                    named(owner),
                    now,
                ));
            }
        }
        receipt
    }

    /// Reads the status of the order `id` at the instant that a clock
    /// reading gave, if it gave one.
    ///
    /// `NotFound` where no order has that identifier, whatever the
    /// reading. Any other read is made as by `get_status_at` where the
    /// reading gave an instant; where it gave none, the result is `None`
    /// and nothing changes.
    pub fn get_status_when(&mut self, id: u64, instant: Option<i64>) -> (snapshot: Option<
        Result<PaymentOrder, OrderError>,
    >)
        requires
            old(self).wf(),
        ensures
            final(self).wf(),
            if old(self)@.orders.contains_key(id) {
                match instant {
                    Some(now) => {
                        &&& snapshot matches Some(answer)
                        &&& final(self)@ == old(self)@.after_status(id, now)
                        &&& answers_status(answer, old(self)@.status(id, now))
                    },
                    None => snapshot is None && final(self)@ == old(self)@,
                }
            } else {
                snapshot matches Some(Err(e)) && e == OrderError::NotFound && final(self)@ == old(
                    self,
                )@
            },
    {
        if !self.store.contains(id) {
            return Some(Err(OrderError::NotFound));
        }
        match instant {
            Some(now) => Some(self.get_status_at(id, now)),
            None => None,
        }
    }

    /// Reads the status of the order `id` now: `get_status_when` with the
    /// reading of the system clock. So the result is `None`, and nothing
    /// changes, only for an order that is there while the clock stands
    /// before the Unix epoch or beyond what an `i64` holds.
    pub fn get_status(&mut self, id: u64) -> (snapshot: Option<Result<PaymentOrder, OrderError>>)
        requires
            old(self).wf(),
        ensures
            final(self).wf(),
            if old(self)@.orders.contains_key(id) {
                match snapshot {
                    Some(answer) => exists|now: i64|
                        {
                            &&& 0 <= now
                            &&& final(self)@ == #[trigger] old(self)@.after_status(id, now)
                            &&& answers_status(answer, old(self)@.status(id, now))
                        },
                    None => final(self)@ == old(self)@,
                }
            } else {
                snapshot matches Some(Err(e)) && e == OrderError::NotFound && final(self)@ == old(
                    self,
                )@
            },
    {
        let instant = now_millis();
        let snapshot = self.get_status_when(id, instant);
        proof {
            if old(self)@.orders.contains_key(id) && snapshot is Some {
                assert(self@ == old(self)@.after_status(id, instant->0));
            }
        }
        snapshot
    }

    /// The order `id` as it is stored, without applying any rule.
    pub fn peek(&self, id: u64) -> (snapshot: Result<PaymentOrder, OrderError>)
        requires
            self.wf(),
        ensures
            match snapshot {
                Ok(order) => self@.orders.contains_key(id) && order@ == self@.orders[id],
                Err(e) => e == OrderError::NotFound && !self@.orders.contains_key(id),
            },
    {
        match self.store.get(id) {
            Ok(order) => Ok(order),
            Err(_) => Err(OrderError::NotFound),
        }
    }

    /// One page of the orders of `owner`, listed by the instant of their
    /// creation, the latest first, and among orders of one instant the
    /// higher identifier first: the page `page` where pages hold `size`
    /// orders, with the defaults of `page_window` for numbers that are not
    /// positive. Without an owner the page is empty. Nothing changes and no
    /// rule is applied.
    pub fn page(&self, owner: Option<&str>, page: i64, size: i64) -> (orders: Vec<PaymentOrder>)
        requires
            self.wf(),
            offset_of(page, size) <= i64::MAX,
        ensures
            match owner {
                Some(o) => snapshots(orders@) == window_rows(
                    self@.orders_of(o@),
                    PageWindow { limit: limit_of(size) as i64, offset: offset_of(page, size) as i64 },
                ),
                None => orders@.len() == 0,
            },
            in_listing_order(snapshots(orders@)),
            forall|i: int|
                0 <= i < orders@.len() ==> owner is Some && (#[trigger] orders@[i])@.user_id
                    == owner->0@ && self@.orders.contains_key(orders@[i].id)
                    && self@.orders[orders@[i].id] == orders@[i]@,
    {
        let mut out: Vec<PaymentOrder> = Vec::new();
        let owner = match owner {
            Some(owner) => owner,
            None => {
                return out;
            },
        };
        let window = page_window(page, size);
        let mut listing: Vec<PaymentOrder> = Vec::new();
        let mut id: u64 = 0;
        assert(snapshots(listing@) =~= self@.newest_first(0, owner@));
        while id < self.issued
            invariant
                self.wf(),
                id <= self.issued,
                snapshots(listing@) == self@.newest_first(id as nat, owner@),
            decreases self.issued - id,
        {
            id = id + 1;
            match self.store.get(id) {
                Ok(order) => {
                    if str_eq(order.user_id.as_str(), owner) {
                        insert_listed(&mut listing, order);
                    }
                },
                Err(_) => {},
            }
        }
        let len = listing.len();
        let start: usize = if window.offset as u64 > len as u64 {
            len
        } else {
            window.offset as usize
        };
        let end: usize = if window.limit as u64 > (len - start) as u64 {
            len
        } else {
            start + window.limit as usize
        };
        let mut i: usize = start;
        assert(snapshots(out@) =~= snapshots(listing@).subrange(start as int, i as int));
        while i < end
            invariant
                start <= i <= end <= listing.len(),
                snapshots(out@) == snapshots(listing@).subrange(start as int, i as int),
            decreases end - i,
        {
            let ghost before = out@;
            let copy = listing[i].clone();
            assert(copy@ == snapshots(listing@)[i as int]);
            out.push(copy);
            i += 1;
            assert(snapshots(out@) =~= snapshots(before).push(copy@));
            assert(snapshots(out@) =~= snapshots(listing@).subrange(start as int, i as int));
        }
        proof {
            let w = PageWindow { limit: limit_of(size) as i64, offset: offset_of(page, size) as i64 };
            assert(w == window);
            let full = self@.orders_of(owner@);
            assert(snapshots(out@) =~= window_rows(full, window));
            law_listing_is_by_creation(self@, owner@);
            assert forall|i: int, j: int| 0 <= i < j < out@.len() implies #[trigger] snapshots(
                out@,
            )[i].listed_before(#[trigger] snapshots(out@)[j]) by {
                assert(snapshots(out@)[i] == full[start + i]);
                assert(snapshots(out@)[j] == full[start + j]);
            }
            assert forall|i: int| 0 <= i < out@.len() implies (#[trigger] out@[i])@.user_id
                == owner@ && self@.orders.contains_key(out@[i].id) && self@.orders[out@[i].id]
                == out@[i]@ by {
                assert(snapshots(out@)[i] == full[start + i]);
                assert(snapshots(out@)[i] == out@[i]@);
            }
        }
        out
    }

    /// Subscribes to the status changes of the order `id`: see
    /// `NotificationHub::subscribe`. The orders are not touched.
    pub fn subscribe(&mut self, id: u64) -> (sub: Option<Subscription>)
        requires
            old(self).wf(),
        ensures
            final(self).wf(),
            final(self)@ == (ServiceView { hub: old(self)@.hub.subscribed(id), ..old(self)@ }),
            sub == if old(self)@.hub.accepts_subscribers() {
                Some(old(self)@.hub.next_subscription(id))
            } else {
                None
            },
    {
        let sub = self.hub.subscribe(id);
        proof {
            self.hub.lemma_well_formed();
        }
        sub
    }

    /// Reads a subscription once: see `NotificationHub::recv`. The orders
    /// are not touched.
    pub fn poll(&mut self, sub: &Subscription) -> (delivery: Delivery)
        requires
            old(self).wf(),
        ensures
            final(self).wf(),
            final(self)@ == (ServiceView { hub: old(self)@.hub.received(*sub), ..old(self)@ }),
            delivery@ == old(self)@.hub.delivery(*sub),
    {
        let delivery = self.hub.recv(sub);
        proof {
            self.hub.lemma_well_formed();
        }
        delivery
    }

    /// Ends a subscription: see `NotificationHub::unsubscribe`. The
    /// orders are not touched.
    pub fn unsubscribe(&mut self, sub: &Subscription)
        requires
            old(self).wf(),
        ensures
            final(self).wf(),
            final(self)@ == (ServiceView { hub: old(self)@.hub.unsubscribed(*sub), ..old(self)@ }),
    {
        self.hub.unsubscribe(sub);
        proof {
            self.hub.lemma_well_formed();
        }
    }

    /// Closes the hub, which ends every stream once it is read to its end:
    /// see `NotificationHub::close`. Orders can still be opened and read.
    pub fn shutdown(&mut self)
        requires
            old(self).wf(),
        ensures
            final(self).wf(),
            final(self)@ == (ServiceView { hub: old(self)@.hub.closed(), ..old(self)@ }),
    {
        self.hub.close();
        proof {
            self.hub.lemma_well_formed();
        }
    }
}

} // verus!
