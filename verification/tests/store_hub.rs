use demochain_api::hub::{Delivery, NotificationHub, Subscription};
use demochain_api::order::{
    insert_listed, OrderStatus, PaymentOrder, DEFAULT_CONFIRMATION_DELAY_MS, ORDER_TTL_MS,
};
use demochain_api::pricing::{PaymentMethod, Plan};
use demochain_api::store::{OrderStore, StoreError};

fn order(id: u64, now: i64) -> PaymentOrder {
    PaymentOrder::new(id, "alice", Plan::Monthly, PaymentMethod::UsdtTrc20, now)
}

#[test]
fn a_new_order_is_priced_routed_and_created() {
    let o = PaymentOrder::new(7, "bob", Plan::Yearly, PaymentMethod::UsdtErc20, 1_000);
    assert_eq!(o.id, 7);
    assert_eq!(o.user_id, "bob");
    assert_eq!(o.plan, Plan::Yearly);
    assert_eq!(o.amount, 10_000_000);
    assert_eq!(o.payment_amount, 10_000_000);
    assert_eq!(o.currency, "USDT");
    assert_eq!(o.payment_method, PaymentMethod::UsdtErc20);
    assert_eq!(o.payment_address, "0x1111111111111111111111111111111111111111");
    assert_eq!(o.status, OrderStatus::Created);
    assert_eq!(o.created_at, 1_000);
    assert_eq!(o.expires_at, 1_000 + 30 * 60 * 1000);
    assert_eq!(o.tx_hash, None);
    assert_eq!(o.paid_at, None);
    assert_eq!(o.confirmations, None);
    assert_eq!(o.confirmed_at, None);
    assert_eq!(ORDER_TTL_MS, 1_800_000);
    assert_eq!(DEFAULT_CONFIRMATION_DELAY_MS, 10_000);
}

#[test]
fn an_order_at_the_latest_instant_still_expires_later() {
    let o = order(1, i64::MAX - ORDER_TTL_MS);
    assert_eq!(o.expires_at, i64::MAX);
    assert_eq!(o.expires_at - o.created_at, ORDER_TTL_MS);
    let early = order(2, i64::MIN);
    assert_eq!(early.expires_at, i64::MIN + ORDER_TTL_MS);
}

#[test]
fn the_rule_confirms_at_the_delay_and_not_before() {
    let o = order(1, 5_000);
    assert!(!o.confirmation_due(14_999, 10_000));
    assert!(o.confirmation_due(15_000, 10_000));
    assert!(o.confirmation_due(5_000, 0));
    assert!(!o.confirmation_due(i64::MIN, 0));
    assert!(!o.confirmation_due(i64::MAX, u64::MAX));
    let early = o.clone().after_read(14_999, 10_000);
    assert_eq!(early, o);
    let late = o.clone().after_read(15_000, 10_000);
    assert_eq!(late.status, OrderStatus::Confirmed);
    assert_eq!(late.confirmations, Some(1));
    assert_eq!(late.confirmed_at, Some(15_000));
    assert_eq!(late.amount, o.amount);
    assert_eq!(late.payment_address, o.payment_address);
    assert_eq!(late.expires_at, o.expires_at);
    let again = late.clone().after_read(99_000, 10_000);
    assert_eq!(again, late);
}

#[test]
fn status_names_and_terminal_states() {
    assert_eq!(OrderStatus::Created.as_str(), "created");
    assert_eq!(OrderStatus::Paid.as_str(), "paid");
    assert_eq!(OrderStatus::Confirmed.as_str(), "confirmed");
    assert_eq!(OrderStatus::Expired.as_str(), "expired");
    assert_eq!(OrderStatus::Cancelled.as_str(), "cancelled");
    assert!(!OrderStatus::Created.is_terminal());
    assert!(!OrderStatus::Paid.is_terminal());
    assert!(OrderStatus::Confirmed.is_terminal());
    assert!(OrderStatus::Expired.is_terminal());
    assert!(OrderStatus::Cancelled.is_terminal());
}

#[test]
fn store_insert_then_get() {
    let mut store = OrderStore::new();
    assert_eq!(store.len(), 0);
    assert!(!store.contains(1));
    assert_eq!(store.get(1), Err(StoreError::NotFound));
    assert_eq!(store.insert(order(1, 10)), Ok(()));
    assert_eq!(store.insert(order(2, 20)), Ok(()));
    assert_eq!(store.len(), 2);
    assert!(store.contains(1));
    assert_eq!(store.get(1), Ok(order(1, 10)));
    assert_eq!(store.get(2), Ok(order(2, 20)));
    assert_eq!(store.get(3), Err(StoreError::NotFound));
}

#[test]
fn store_refuses_a_duplicate_and_keeps_the_first() {
    let mut store = OrderStore::new();
    assert_eq!(store.insert(order(1, 10)), Ok(()));
    assert_eq!(store.insert(order(1, 99)), Err(StoreError::DuplicateId));
    assert_eq!(store.len(), 1);
    assert_eq!(store.get(1), Ok(order(1, 10)));
}

#[test]
fn store_update_replaces_one_order() {
    let mut store = OrderStore::new();
    store.insert(order(1, 10)).unwrap();
    store.insert(order(2, 20)).unwrap();
    let updated = store.update(1, |o| o.after_read(10_010, 10_000));
    let updated = updated.unwrap();
    assert_eq!(updated.status, OrderStatus::Confirmed);
    assert_eq!(updated.confirmed_at, Some(10_010));
    assert_eq!(store.get(1), Ok(updated));
    assert_eq!(store.get(2), Ok(order(2, 20)));
    assert_eq!(store.len(), 2);
}

#[test]
fn store_update_of_a_missing_order_calls_nothing() {
    let mut store = OrderStore::new();
    store.insert(order(1, 10)).unwrap();
    let mut called = false;
    let r = store.update(5, |o| {
        called = true;
        o
    });
    assert_eq!(r, Err(StoreError::NotFound));
    assert!(!called);
    assert_eq!(store.len(), 1);
    assert_eq!(store.get(1), Ok(order(1, 10)));
}

#[test]
fn hub_delivers_in_publish_order() {
    let mut hub = NotificationHub::new(4);
    let sub = hub.subscribe(1).unwrap();
    let a = order(1, 10);
    let b = a.clone().after_read(20_000, 10_000);
    hub.publish(1, &a);
    hub.publish(1, &b);
    assert_eq!(hub.recv(&sub), Delivery::Snapshot(a));
    assert_eq!(hub.recv(&sub), Delivery::Snapshot(b));
    assert_eq!(hub.recv(&sub), Delivery::Pending);
    assert_eq!(hub.recv(&sub), Delivery::Pending);
}

#[test]
fn hub_subscribers_see_no_history() {
    let mut hub = NotificationHub::new(4);
    let early = hub.subscribe(1).unwrap();
    hub.publish(1, &order(1, 10));
    let late = hub.subscribe(1).unwrap();
    assert_eq!(hub.recv(&late), Delivery::Pending);
    hub.publish(1, &order(1, 11));
    assert_eq!(hub.recv(&late), Delivery::Snapshot(order(1, 11)));
    assert_eq!(hub.recv(&early), Delivery::Snapshot(order(1, 10)));
    assert_eq!(hub.recv(&early), Delivery::Snapshot(order(1, 11)));
}

#[test]
fn hub_drops_a_publish_without_subscribers() {
    let mut hub = NotificationHub::new(4);
    hub.publish(1, &order(1, 10));
    let sub = hub.subscribe(1).unwrap();
    assert_eq!(hub.recv(&sub), Delivery::Pending);
}

#[test]
fn hub_topics_are_per_order() {
    let mut hub = NotificationHub::new(4);
    let one = hub.subscribe(1).unwrap();
    let two = hub.subscribe(2).unwrap();
    assert_eq!(one, Subscription { order_id: 1, token: 0 });
    assert_eq!(two, Subscription { order_id: 2, token: 1 });
    hub.publish(2, &order(2, 10));
    assert_eq!(hub.recv(&one), Delivery::Pending);
    assert_eq!(hub.recv(&two), Delivery::Snapshot(order(2, 10)));
}

#[test]
fn hub_reports_a_slow_subscriber_as_lagged() {
    let mut hub = NotificationHub::new(2);
    assert_eq!(hub.capacity(), 2);
    let slow = hub.subscribe(1).unwrap();
    let fast = hub.subscribe(1).unwrap();
    hub.publish(1, &order(1, 1));
    assert_eq!(hub.recv(&fast), Delivery::Snapshot(order(1, 1)));
    hub.publish(1, &order(1, 2));
    assert_eq!(hub.recv(&fast), Delivery::Snapshot(order(1, 2)));
    hub.publish(1, &order(1, 3));
    assert_eq!(hub.recv(&fast), Delivery::Snapshot(order(1, 3)));
    hub.publish(1, &order(1, 4));
    assert_eq!(hub.recv(&slow), Delivery::Lagged);
    assert_eq!(hub.recv(&slow), Delivery::Snapshot(order(1, 3)));
    assert_eq!(hub.recv(&slow), Delivery::Snapshot(order(1, 4)));
    assert_eq!(hub.recv(&slow), Delivery::Pending);
    assert_eq!(hub.recv(&fast), Delivery::Snapshot(order(1, 4)));
}

#[test]
fn hub_capacity_of_zero_counts_as_one() {
    let mut hub = NotificationHub::new(0);
    assert_eq!(hub.capacity(), 1);
    let sub = hub.subscribe(1).unwrap();
    hub.publish(1, &order(1, 1));
    hub.publish(1, &order(1, 2));
    assert_eq!(hub.recv(&sub), Delivery::Lagged);
    assert_eq!(hub.recv(&sub), Delivery::Snapshot(order(1, 2)));
}

#[test]
fn hub_unsubscribe_ends_one_stream() {
    let mut hub = NotificationHub::new(4);
    let a = hub.subscribe(1).unwrap();
    let b = hub.subscribe(1).unwrap();
    hub.publish(1, &order(1, 1));
    assert!(hub.is_live(&a));
    hub.unsubscribe(&a);
    assert!(!hub.is_live(&a));
    assert!(hub.is_live(&b));
    assert_eq!(hub.recv(&a), Delivery::Closed);
    assert_eq!(hub.recv(&b), Delivery::Snapshot(order(1, 1)));
    hub.unsubscribe(&b);
    hub.unsubscribe(&b);
    assert_eq!(hub.recv(&b), Delivery::Closed);
    let c = hub.subscribe(1).unwrap();
    assert_eq!(c.token, 2);
    assert_eq!(hub.recv(&c), Delivery::Pending);
}

#[test]
fn hub_close_ends_streams_after_what_waits() {
    let mut hub = NotificationHub::new(4);
    let sub = hub.subscribe(1).unwrap();
    hub.publish(1, &order(1, 1));
    assert!(hub.is_open());
    hub.close();
    assert!(!hub.is_open());
    hub.publish(1, &order(1, 2));
    assert_eq!(hub.subscribe(1), None);
    assert_eq!(hub.recv(&sub), Delivery::Snapshot(order(1, 1)));
    assert_eq!(hub.recv(&sub), Delivery::Closed);
}

#[test]
fn hub_unknown_subscription_is_closed() {
    let mut hub = NotificationHub::new(4);
    assert_eq!(hub.recv(&Subscription { order_id: 9, token: 9 }), Delivery::Closed);
    let sub = hub.subscribe(1).unwrap();
    assert_eq!(
        hub.recv(&Subscription { order_id: 2, token: sub.token }),
        Delivery::Closed
    );
    assert_eq!(
        hub.recv(&Subscription { order_id: 1, token: sub.token + 1 }),
        Delivery::Closed
    );
}

#[test]
fn instants_are_written_as_rfc3339() {
    let o = order(1, 0);
    assert_eq!(o.created_at_text(), Some("1970-01-01T00:00:00+00:00".to_string()));
    assert_eq!(o.expires_at_text(), Some("1970-01-01T00:30:00+00:00".to_string()));
    let o = order(1, 1_700_000_000_123);
    assert_eq!(o.created_at_text(), Some("2023-11-14T22:13:20.123+00:00".to_string()));
    assert_eq!(o.expires_at_text(), Some("2023-11-14T22:43:20.123+00:00".to_string()));
    let o = order(1, -1);
    assert_eq!(o.created_at_text(), Some("1969-12-31T23:59:59.999+00:00".to_string()));
    let mut far = order(1, 0);
    far.created_at = i64::MIN;
    far.expires_at = i64::MAX;
    assert_eq!(far.created_at_text(), None);
    assert_eq!(far.expires_at_text(), None);
    let last = order(1, 253_402_300_799_999);
    assert_eq!(last.created_at_text(), Some("9999-12-31T23:59:59.999+00:00".to_string()));
}

#[test]
fn listings_put_later_orders_first() {
    let a = order(1, 100);
    let b = order(2, 50);
    let c = order(3, 100);
    let d = order(4, 75);
    assert!(a.is_listed_before(&b));
    assert!(!b.is_listed_before(&a));
    assert!(c.is_listed_before(&a));
    assert!(!a.is_listed_before(&c));
    assert!(!a.is_listed_before(&a));
    let mut list = Vec::new();
    for o in [a, b, c, d] {
        insert_listed(&mut list, o);
    }
    let ids: Vec<u64> = list.iter().map(|o| o.id).collect();
    assert_eq!(ids, vec![3, 1, 4, 2]);
    insert_listed(&mut list, order(5, 10));
    insert_listed(&mut list, order(6, 1_000));
    let ids: Vec<u64> = list.iter().map(|o| o.id).collect();
    assert_eq!(ids, vec![6, 3, 1, 4, 2, 5]);
}
