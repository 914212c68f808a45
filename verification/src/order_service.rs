//! The order operations as the request handlers call them: on behalf of
//! the user in whose scope the request runs.

use vstd::prelude::*;
use crate::auth::UserScope;
use crate::clock::now_millis;
use crate::models::OrderDTO;
use crate::order::{
    in_listing_order,
    snapshots,
    CreatePaymentResponse,
    PaymentOrder,
    ORDER_TTL_MS,
};
use crate::paging::{limit_of, offset_of, window_rows, PageWindow};
use crate::service::{answers_creation, OrderError, OrderService};

verus! {

/// The user of a scope, as characters.
pub open spec fn user_of(scope: UserScope) -> Option<Seq<char>> {
    match scope.user_id {
        Some(id) => Some(id@),
        None => None,
    }
}

/// Opens the order that `payload` asks for, for the user of `scope`, at
/// the instant that a clock reading gave, if it gave one:
/// `OrderService::create_order_when` with the plan and the rail of the
/// payload and that user as the owner.
pub fn create_when(
    service: &mut OrderService,
    payload: &OrderDTO,
    scope: &UserScope,
    instant: Option<i64>,
) -> (receipt: Option<Result<CreatePaymentResponse, OrderError>>)
    requires
        old(service).wf(),
    ensures
        final(service).wf(),
        match old(service)@.refusal(payload.plan_type@, payload.network@, user_of(*scope)) {
            Some(e) => receipt matches Some(Err(f)) && f == e && final(service)@ == old(service)@,
            None => match instant {
                Some(now) => if now + ORDER_TTL_MS <= i64::MAX {
                    &&& receipt matches Some(answer)
                    &&& final(service)@ == old(service)@.after_creation(
                        payload.plan_type@,
                        payload.network@,
                        user_of(*scope),
                        now,
                    )
                    &&& answers_creation(
                        answer,
                        old(service)@.creation(
                            payload.plan_type@,
                            payload.network@,
                            user_of(*scope),
                            now,
                        ),
                        payload.network@,
                    )
                } else {
                    receipt is None && final(service)@ == old(service)@
                },
                None => receipt is None && final(service)@ == old(service)@,
            },
        },
{
    let request = payload.to_request();
    match &scope.user_id {
        Some(id) => service.create_order_when(&request, Some(id.as_str()), instant),
        None => service.create_order_when(&request, None, instant),
    }
}

/// Opens the order that `payload` asks for, now, for the user of `scope`:
/// `create_when` with the reading of the system clock. So the result is
/// `None`, and nothing changes, only for a request that is not refused
/// while the clock stands before the Unix epoch or too late for an order
/// to expire.
pub fn create(service: &mut OrderService, payload: &OrderDTO, scope: &UserScope) -> (receipt:
    Option<Result<CreatePaymentResponse, OrderError>>)
    requires
        old(service).wf(),
    ensures
        final(service).wf(),
        match old(service)@.refusal(payload.plan_type@, payload.network@, user_of(*scope)) {
            Some(e) => receipt matches Some(Err(f)) && f == e && final(service)@ == old(service)@,
            None => match receipt {
                Some(answer) => exists|now: i64|
                    {
                        &&& 0 <= now
                        &&& now + ORDER_TTL_MS <= i64::MAX
                        &&& final(service)@ == #[trigger] old(service)@.after_creation(
                            payload.plan_type@,
                            payload.network@,
                            user_of(*scope),
                            now,
                        )
                        &&& answers_creation(
                            answer,
                            old(service)@.creation(
                                payload.plan_type@,
                                payload.network@,
                                user_of(*scope),
                                now,
                            ),
                            payload.network@,
                        )
                    },
                None => final(service)@ == old(service)@,
            },
        },
{
    let instant = now_millis();
    let receipt = create_when(service, payload, scope, instant);
    proof {
        if old(service)@.refusal(payload.plan_type@, payload.network@, user_of(*scope)) is None
            && receipt is Some {
            assert(service@ == old(service)@.after_creation(
                payload.plan_type@,
                payload.network@,
                user_of(*scope),
                instant->0,
            ));
        }
    }
    receipt
}

/// One page of the orders of the user of `scope`, listed by the instant
/// of their creation, the latest first: `OrderService::page` for that
/// user. Outside any user's scope the page is empty.
pub fn page(service: &OrderService, scope: &UserScope, number: i64, size: i64) -> (orders: Vec<
    PaymentOrder,
>)
    requires
        service.wf(),
        offset_of(number, size) <= i64::MAX,
    ensures
        match user_of(*scope) {
            Some(user) => snapshots(orders@) == window_rows(
                service@.orders_of(user),
                PageWindow { limit: limit_of(size) as i64, offset: offset_of(number, size) as i64 },
            ),
            None => orders@.len() == 0,
        },
        in_listing_order(snapshots(orders@)),
{
    match &scope.user_id {
        Some(id) => service.page(Some(id.as_str()), number, size),
        None => service.page(None, number, size),
    }
}

} // verus!
