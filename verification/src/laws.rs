//! What holds of the lifecycle engine in every state: laws over the
//! models that the contracts of `service`, `store` and `hub` speak of.

use vstd::prelude::*;
use crate::hub::{law_publish_order, DeliveryView, Subscription};
use crate::order::{
    in_listing_order,
    lemma_position_bounds,
    listed_position,
    OrderStatus,
    OrderView,
    ORDER_TTL_MS,
};
use crate::pricing::{address_of, method_of, plan_of, price_of};
use crate::service::{OrderError, ServiceView};

verus! {

/// An accepted order follows the tables: for a known plan and a known
/// rail, with an owner and an identifier to give, the request is accepted,
/// and the new order is `Created`, costs what the pricing table says of
/// the plan and is paid to the address that the routing table gives for
/// the rail.
pub proof fn law_creation_follows_tables(
    engine: ServiceView,
    plan: Seq<char>,
    method: Seq<char>,
    owner: Option<Seq<char>>,
    now: i64,
)
    requires
        plan_of(plan) is Some,
        method_of(method) is Some,
        engine.owner_for(owner) is Some,
        engine.issued < u64::MAX,
    ensures
        engine.creation(plan, method, owner, now) matches Ok(order) && {
            &&& order.amount == price_of(plan_of(plan)->0)
            &&& order.payment_amount == order.amount
            &&& order.payment_address == address_of(method_of(method)->0)
            &&& order.status == OrderStatus::Created
            &&& order.unconfirmed()
            &&& order.id == engine.issued + 1
            &&& engine.after_creation(plan, method, owner, now).orders.contains_key(order.id)
            &&& engine.after_creation(plan, method, owner, now).orders[order.id] == order
        },
{
}

/// Identifiers are never used twice, and opening an order leaves every
/// other order alone: the identifier of a new order belonged to no order
/// before, and every order that was there is there afterwards, unchanged.
pub proof fn law_identifiers_are_fresh(
    engine: ServiceView,
    plan: Seq<char>,
    method: Seq<char>,
    owner: Option<Seq<char>>,
    now: i64,
    other: u64,
)
    requires
        engine.well_formed(),
        engine.creation(plan, method, owner, now) is Ok,
    ensures
        !engine.orders.contains_key(engine.creation(plan, method, owner, now)->Ok_0.id),
        engine.orders.contains_key(other) ==> {
            &&& engine.after_creation(plan, method, owner, now).orders.contains_key(other)
            &&& engine.after_creation(plan, method, owner, now).orders[other]
                == engine.orders[other]
        },
        engine.after_creation(plan, method, owner, now).orders.dom() == engine.orders.dom().insert(
            engine.creation(plan, method, owner, now)->Ok_0.id,
        ),
{
    let id = engine.creation(plan, method, owner, now)->Ok_0.id;
    if engine.orders.contains_key(id) {
        assert(id <= engine.issued);
    }
    assert(engine.after_creation(plan, method, owner, now).orders.dom() =~= engine.orders.dom().insert(
        id,
    ));
}

/// What the engine accepts it keeps sound: after any creation request at
/// an instant from which the expiry can still be counted, and after any
/// status read, a well-formed state is well formed, and no order that was
/// there is gone.
pub proof fn law_state_stays_well_formed(
    engine: ServiceView,
    plan: Seq<char>,
    method: Seq<char>,
    owner: Option<Seq<char>>,
    id: u64,
    now: i64,
)
    requires
        engine.well_formed(),
    ensures
        now + ORDER_TTL_MS <= i64::MAX ==> engine.after_creation(
            plan,
            method,
            owner,
            now,
        ).well_formed(),
        engine.after_status(id, now).well_formed(),
        forall|other: u64|
            engine.orders.contains_key(other) ==> #[trigger] engine.after_creation(
                plan,
                method,
                owner,
                now,
            ).orders.contains_key(other) && engine.after_status(id, now).orders.contains_key(other),
{
    let created = engine.after_creation(plan, method, owner, now);
    if now + ORDER_TTL_MS <= i64::MAX {
        match engine.creation(plan, method, owner, now) {
            Ok(order) => {
                assert(order.well_formed());
                assert forall|s: Subscription| #[trigger]
                    created.hub.inboxes.contains_key(s) implies s.token < created.hub.issued
                    && created.hub.inboxes[s].pending.len() <= created.hub.capacity by {
                    assert(engine.hub.inboxes.contains_key(s));
                }
            },
            Err(_) => {},
        }
    }
    let read = engine.after_status(id, now);
    assert forall|s: Subscription| #[trigger] read.hub.inboxes.contains_key(s) implies s.token
        < read.hub.issued && read.hub.inboxes[s].pending.len() <= read.hub.capacity by {
        assert(engine.hub.inboxes.contains_key(s));
    }
}

/// A request for an unknown plan fails with `UnsupportedPlan` and changes
/// nothing: the engine is as it was, and an identifier that no order had
/// before still has none.
pub proof fn law_unknown_plan_changes_nothing(
    engine: ServiceView,
    plan: Seq<char>,
    method: Seq<char>,
    owner: Option<Seq<char>>,
    now: i64,
    id: u64,
    later: i64,
)
    requires
        plan_of(plan) is None,
    ensures
        engine.creation(plan, method, owner, now) == Err::<OrderView, OrderError>(
            OrderError::UnsupportedPlan,
        ),
        engine.after_creation(plan, method, owner, now) == engine,
        !engine.orders.contains_key(id) ==> engine.after_creation(plan, method, owner, now).status(
            id,
            later,
        ) == Err::<OrderView, OrderError>(OrderError::NotFound),
{
}

/// A request for an unknown rail, or without an owner where one is
/// demanded, fails with its own error and changes nothing either.
pub proof fn law_refused_requests_change_nothing(
    engine: ServiceView,
    plan: Seq<char>,
    method: Seq<char>,
    owner: Option<Seq<char>>,
    now: i64,
)
    ensures
        engine.creation(plan, method, owner, now) is Err ==> engine.after_creation(
            plan,
            method,
            owner,
            now,
        ) == engine,
        plan_of(plan) is Some && method_of(method) is None ==> engine.creation(
            plan,
            method,
            owner,
            now,
        ) == Err::<OrderView, OrderError>(OrderError::UnsupportedMethod),
        plan_of(plan) is Some && method_of(method) is Some && engine.owner_for(owner) is None
            ==> engine.creation(plan, method, owner, now) == Err::<OrderView, OrderError>(
            OrderError::Unauthenticated,
        ),
{
}

/// Reads within the delay are idempotent: two status reads of a created
/// order, both earlier than the confirmation delay after its creation,
/// return the same snapshot in status `Created`, and neither changes the
/// engine.
pub proof fn law_reads_within_delay(engine: ServiceView, id: u64, first: i64, second: i64)
    requires
        engine.orders.contains_key(id),
        engine.orders[id].status == OrderStatus::Created,
        first - engine.orders[id].created_at < engine.delay_ms,
        second - engine.orders[id].created_at < engine.delay_ms,
    ensures
        engine.status(id, first) == Ok::<OrderView, OrderError>(engine.orders[id]),
        engine.after_status(id, first) == engine,
        engine.after_status(id, first).status(id, second) == engine.status(id, first),
        engine.after_status(id, first).after_status(id, second) == engine,
{
}

/// Confirmation comes with the delay and not before: of an order that was
/// opened at `opened`, a status read at `now` returns `Confirmed`, with
/// one confirmation and `now` as the instant of confirmation, where `now`
/// is the delay or more after `opened`; an earlier read returns the order
/// as it was opened, `Created` and without any confirmation data.
pub proof fn law_confirmation_after_delay(
    engine: ServiceView,
    plan: Seq<char>,
    method: Seq<char>,
    owner: Option<Seq<char>>,
    opened: i64,
    now: i64,
)
    requires
        engine.creation(plan, method, owner, opened) is Ok,
    ensures
        ({
            let order = engine.creation(plan, method, owner, opened)->Ok_0;
            let read = engine.after_creation(plan, method, owner, opened).status(order.id, now);
            &&& read matches Ok(snapshot)
            &&& snapshot.same_terms(order)
            &&& now - opened >= engine.delay_ms ==> {
                &&& snapshot.status == OrderStatus::Confirmed
                &&& snapshot.confirmations == Some(1u32)
                &&& snapshot.confirmed_at == Some(now)
            }
            &&& now - opened < engine.delay_ms ==> {
                &&& snapshot == order
                &&& snapshot.status == OrderStatus::Created
                &&& snapshot.unconfirmed()
            }
        }),
{
}

/// A status read never touches another order, never adds or removes one,
/// and changes only the status and the confirmation data of the order it
/// reads.
pub proof fn law_status_is_local(engine: ServiceView, id: u64, now: i64, other: u64)
    ensures
        engine.after_status(id, now).orders.dom() =~= engine.orders.dom(),
        other != id && engine.orders.contains_key(other) ==> engine.after_status(
            id,
            now,
        ).orders[other] == engine.orders[other],
        engine.orders.contains_key(id) ==> engine.orders[id].may_become(
            engine.after_status(id, now).orders[id],
        ),
        engine.after_status(id, now).issued == engine.issued,
{
}

/// An order that has left `Created` is never changed by a status read,
/// whenever the read comes.
pub proof fn law_settled_orders_stay(engine: ServiceView, id: u64, now: i64)
    requires
        engine.orders.contains_key(id),
        engine.orders[id].status != OrderStatus::Created,
    ensures
        engine.after_status(id, now) == engine,
        engine.status(id, now) == Ok::<OrderView, OrderError>(engine.orders[id]),
{
}

/// Whether the read at `now` is late enough to confirm an order opened at
/// `opened` under a delay of `delay_ms`.
pub open spec fn late_enough(opened: i64, delay_ms: u64, now: i64) -> bool {
    now - opened >= delay_ms
}

/// Any number of status reads, in any order of their instants, confirm an
/// order at most once. After reads of a created order at each of `times`
/// in turn: where none of them came the delay or more after the creation,
/// the order is as it was; otherwise it is `Confirmed` with exactly one
/// confirmation, at the instant of the first read that was late enough,
/// whatever reads came after it. This is what every interleaving of
/// concurrent reads comes to, since each read has the engine to itself.
pub proof fn law_reads_confirm_once(engine: ServiceView, id: u64, times: Seq<i64>)
    requires
        engine.orders.contains_key(id),
        engine.orders[id].status == OrderStatus::Created,
    ensures
        ({
            let before = engine.orders[id];
            let end = engine.after_statuses(id, times);
            &&& end.orders.contains_key(id)
            &&& before.same_terms(end.orders[id])
            &&& (forall|i: int|
                0 <= i < times.len() ==> !#[trigger] late_enough(
                    before.created_at,
                    engine.delay_ms,
                    times[i],
                )) ==> end == engine
            &&& (exists|i: int|
                0 <= i < times.len() && #[trigger] late_enough(
                    before.created_at,
                    engine.delay_ms,
                    times[i],
                )) ==> {
                &&& end.orders[id].status == OrderStatus::Confirmed
                &&& end.orders[id].confirmations == Some(1u32)
                &&& exists|k: int|
                    {
                        &&& 0 <= k < times.len()
                        &&& #[trigger] late_enough(before.created_at, engine.delay_ms, times[k])
                        &&& forall|j: int|
                            0 <= j < k ==> !#[trigger] late_enough(
                                before.created_at,
                                engine.delay_ms,
                                times[j],
                            )
                        &&& end.orders[id].confirmed_at == Some(times[k])
                    }
            }
        }),
    decreases times.len(),
{
    let before = engine.orders[id];
    if times.len() > 0 {
        let head = times.drop_last();
        let last = times.last();
        law_reads_confirm_once(engine, id, head);
        let mid = engine.after_statuses(id, head);
        let end = engine.after_statuses(id, times);
        assert(end == mid.after_status(id, last));
        assert(forall|i: int| 0 <= i < head.len() ==> head[i] == times[i]);
        if exists|i: int|
            0 <= i < head.len() && #[trigger] late_enough(
                before.created_at,
                engine.delay_ms,
                head[i],
            ) {
            let i = choose|i: int|
                0 <= i < head.len() && #[trigger] late_enough(
                    before.created_at,
                    engine.delay_ms,
                    head[i],
                );
            assert(late_enough(before.created_at, engine.delay_ms, times[i]));
            let k = choose|k: int|
                {
                    &&& 0 <= k < head.len()
                    &&& #[trigger] late_enough(before.created_at, engine.delay_ms, head[k])
                    &&& forall|j: int|
                        0 <= j < k ==> !#[trigger] late_enough(
                            before.created_at,
                            engine.delay_ms,
                            head[j],
                        )
                    &&& mid.orders[id].confirmed_at == Some(head[k])
                };
            assert(end == mid);
            assert(late_enough(before.created_at, engine.delay_ms, times[k]));
            assert(forall|j: int|
                0 <= j < k ==> !#[trigger] late_enough(
                    before.created_at,
                    engine.delay_ms,
                    times[j],
                ));
        } else {
            assert(mid == engine);
            if late_enough(before.created_at, engine.delay_ms, last) {
                let k = times.len() - 1;
                assert(times[k] == last);
                assert(forall|j: int|
                    0 <= j < k ==> !#[trigger] late_enough(
                        before.created_at,
                        engine.delay_ms,
                        times[j],
                    )) by {
                    assert forall|j: int| 0 <= j < k implies !#[trigger] late_enough(
                        before.created_at,
                        engine.delay_ms,
                        times[j],
                    ) by {
                        assert(head[j] == times[j]);
                        assert(!late_enough(before.created_at, engine.delay_ms, head[j]));
                    }
                }
            } else {
                assert forall|i: int| 0 <= i < times.len() implies !#[trigger] late_enough(
                    before.created_at,
                    engine.delay_ms,
                    times[i],
                ) by {
                    if i < head.len() {
                        assert(head[i] == times[i]);
                        assert(!late_enough(before.created_at, engine.delay_ms, head[i]));
                    }
                }
            }
        }
    }
}

/// Status changes reach a subscriber in the order in which they happen:
/// who subscribes to an order before it is opened, on a hub with room for
/// two snapshots, reads the `Created` snapshot first and the `Confirmed`
/// one after it, once a status read has confirmed the order, and nothing
/// in between or after.
pub proof fn law_changes_arrive_in_order(
    engine: ServiceView,
    plan: Seq<char>,
    method: Seq<char>,
    owner: Option<Seq<char>>,
    opened: i64,
    now: i64,
)
    requires
        engine.well_formed(),
        engine.hub.accepts_subscribers(),
        engine.hub.capacity >= 2,
        engine.creation(plan, method, owner, opened) is Ok,
        now - opened >= engine.delay_ms,
    ensures
        ({
            let order = engine.creation(plan, method, owner, opened)->Ok_0;
            let sub = engine.hub.next_subscription(order.id);
            let watched = ServiceView { hub: engine.hub.subscribed(order.id), ..engine };
            let end = watched.after_creation(plan, method, owner, opened).after_status(
                order.id,
                now,
            );
            &&& end.hub.delivery(sub) == DeliveryView::Snapshot(order)
            &&& end.hub.received(sub).delivery(sub) == DeliveryView::Snapshot(order.confirmed(now))
            &&& end.hub.received(sub).received(sub).delivery(sub) == DeliveryView::Pending
        }),
{
    let order = engine.creation(plan, method, owner, opened)->Ok_0;
    let sub = engine.hub.next_subscription(order.id);
    let watched = ServiceView { hub: engine.hub.subscribed(order.id), ..engine };
    assert(watched.creation(plan, method, owner, opened) == engine.creation(
        plan,
        method,
        owner,
        opened,
    ));
    let created = watched.after_creation(plan, method, owner, opened);
    assert(created.hub == engine.hub.subscribed(order.id).published(order.id, order));
    let end = created.after_status(order.id, now);
    assert(end.hub == created.hub.published(order.id, order.confirmed(now)));
    law_publish_order(engine.hub, order.id, order, order.confirmed(now));
}

/// What holds of the listing of the orders of `owner` with an identifier
/// up to `upto`.
proof fn lemma_listing(engine: ServiceView, upto: nat, owner: Seq<char>)
    requires
        engine.well_formed(),
        upto <= engine.issued,
    ensures
        in_listing_order(engine.newest_first(upto, owner)),
        forall|i: int|
            0 <= i < engine.newest_first(upto, owner).len() ==> {
                let e = #[trigger] engine.newest_first(upto, owner)[i];
                &&& 1 <= e.id <= upto
                &&& engine.orders.contains_key(e.id)
                &&& engine.orders[e.id] == e
                &&& e.user_id == owner
            },
        forall|id: u64|
            1 <= id <= upto && #[trigger] engine.orders.contains_key(id) && engine.orders[id].user_id
                == owner ==> engine.newest_first(upto, owner).contains(engine.orders[id]),
    decreases upto,
{
    if upto > 0 {
        let older = engine.newest_first((upto - 1) as nat, owner);
        let list = engine.newest_first(upto, owner);
        lemma_listing(engine, (upto - 1) as nat, owner);
        if engine.orders.contains_key(upto as u64) && engine.orders[upto as u64].user_id == owner {
            let o = engine.orders[upto as u64];
            assert(o.id == upto);
            let p = listed_position(older, o) as int;
            lemma_position_bounds(older, o);
            assert(list == older.insert(p, o));
            assert(list.len() == older.len() + 1);
            assert(forall|k: int| 0 <= k < p ==> list[k] == older[k]);
            assert(list[p] == o);
            assert(forall|k: int| p < k < list.len() ==> list[k] == older[k - 1]);
            assert forall|i: int, j: int| 0 <= i < j < list.len() implies #[trigger] list[i].listed_before(
                #[trigger] list[j],
            ) by {
                if j < p {
                    assert(older[i].listed_before(older[j]));
                } else if j == p {
                    assert(!o.listed_before(older[i]));
                    assert(older[i].id <= upto - 1);
                } else if i < p {
                    assert(older[i].listed_before(older[j - 1]));
                } else if i == p {
                    assert(o.listed_before(older[p]));
                    if j - 1 > p {
                        assert(older[p].listed_before(older[j - 1]));
                    }
                } else {
                    assert(older[i - 1].listed_before(older[j - 1]));
                }
            }
            assert forall|i: int| 0 <= i < list.len() implies {
                let e = #[trigger] list[i];
                &&& 1 <= e.id <= upto
                &&& engine.orders.contains_key(e.id)
                &&& engine.orders[e.id] == e
                &&& e.user_id == owner
            } by {
                if i < p {
                    assert(list[i] == older[i]);
                } else if i > p {
                    assert(list[i] == older[i - 1]);
                }
            }
            assert forall|id: u64|
                1 <= id <= upto && #[trigger] engine.orders.contains_key(id)
                    && engine.orders[id].user_id == owner implies list.contains(
                engine.orders[id],
            ) by {
                if id == upto {
                    assert(list[p] == engine.orders[id]);
                } else {
                    assert(older.contains(engine.orders[id]));
                    let k = choose|k: int| 0 <= k < older.len() && older[k] == engine.orders[id];
                    if k < p {
                        assert(list[k] == engine.orders[id]);
                    } else {
                        assert(list[k + 1] == engine.orders[id]);
                    }
                }
            }
        } else {
            assert forall|id: u64|
                1 <= id <= upto && #[trigger] engine.orders.contains_key(id)
                    && engine.orders[id].user_id == owner implies list.contains(
                engine.orders[id],
            ) by {
                assert(id <= upto - 1);
            }
        }
    }
}

/// A listing is by the instant of creation. The listing of the orders of
/// an owner holds each order of that owner once and no other order, and
/// it is in order: an order stands before every order that was created
/// earlier, whatever their identifiers, and before every order that was
/// created at the same instant under a lower identifier.
pub proof fn law_listing_is_by_creation(engine: ServiceView, owner: Seq<char>)
    requires
        engine.well_formed(),
    ensures
        in_listing_order(engine.orders_of(owner)),
        forall|i: int, j: int|
            0 <= i < j < engine.orders_of(owner).len() ==> (#[trigger] engine.orders_of(
                owner,
            )[i]).created_at >= (#[trigger] engine.orders_of(owner)[j]).created_at,
        forall|i: int|
            0 <= i < engine.orders_of(owner).len() ==> {
                let e = #[trigger] engine.orders_of(owner)[i];
                &&& engine.orders.contains_key(e.id)
                &&& engine.orders[e.id] == e
                &&& e.user_id == owner
            },
        forall|id: u64| #[trigger]
            engine.orders.contains_key(id) && engine.orders[id].user_id == owner
                ==> engine.orders_of(owner).contains(engine.orders[id]),
{
    lemma_listing(engine, engine.issued as nat, owner);
    let list = engine.orders_of(owner);
    assert forall|i: int, j: int| 0 <= i < j < list.len() implies (#[trigger] list[i]).created_at
        >= (#[trigger] list[j]).created_at by {
        assert(list[i].listed_before(list[j]));
    }
}

} // verus!
