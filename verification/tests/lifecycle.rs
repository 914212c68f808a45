use demochain_api::auth::UserScope;
use demochain_api::hub::Delivery;
use demochain_api::models::OrderDTO;
use demochain_api::order::{CreatePaymentRequest, OrderStatus, PaymentOrder};
use demochain_api::order_service;
use demochain_api::payload::{generate_deeplink, generate_qr};
use demochain_api::pricing::{address_for_method, price_for_plan, Plan};
use demochain_api::service::{OrderError, OrderService, ServiceConfig};

fn request(plan: &str, method: &str) -> CreatePaymentRequest {
    CreatePaymentRequest { plan: plan.to_string(), payment_method: method.to_string() }
}

fn engine() -> OrderService {
    OrderService::new(ServiceConfig::standard())
}

fn engine_with(delay_ms: u64, capacity: usize, placeholder: Option<&str>) -> OrderService {
    OrderService::new(ServiceConfig {
        confirmation_delay_ms: delay_ms,
        inbox_capacity: capacity,
        placeholder_owner: placeholder.map(|s| s.to_string()),
    })
}

#[test]
fn standard_deployment() {
    let config = ServiceConfig::standard();
    assert_eq!(config.confirmation_delay_ms, 10_000);
    assert_eq!(config.inbox_capacity, 16);
    assert_eq!(config.placeholder_owner, None);
    let svc = engine();
    assert_eq!(svc.confirmation_delay_ms(), 10_000);
    assert_eq!(svc.order_count(), 0);
}

#[test]
fn every_valid_pair_follows_the_tables() {
    let mut svc = engine();
    let mut expected_id = 0;
    for plan in ["monthly", "yearly", "lifetime"] {
        for method in ["usdt_trc20", "usdt_erc20", "usdt_bep20", "rail_a", "rail_b", "rail_c"] {
            expected_id += 1;
            let receipt = svc.create_order_at(&request(plan, method), Some("alice"), 500).unwrap();
            let address = address_for_method(method).unwrap();
            let price = price_for_plan(plan).unwrap();
            assert_eq!(receipt.order.id, expected_id);
            assert_eq!(receipt.order.payment_address, address);
            assert_eq!(receipt.order.amount, price);
            assert_eq!(receipt.order.payment_amount, price);
            assert_eq!(receipt.order.status, OrderStatus::Created);
            assert_eq!(receipt.order.user_id, "alice");
            assert_eq!(receipt.order.currency, "USDT");
            assert_eq!(receipt.order.created_at, 500);
            assert_eq!(receipt.order.expires_at, 1_800_500);
            assert_eq!(receipt.qr_code, generate_qr(address, price, method));
            assert_eq!(receipt.deep_link, generate_deeplink(address, price, method));
            assert_eq!(svc.peek(expected_id), Ok(receipt.order));
        }
    }
    assert_eq!(svc.order_count(), 18);
}

#[test]
fn an_unknown_plan_changes_nothing() {
    let mut svc = engine();
    for plan in ["", "weekly", "Monthly", "monthly\n"] {
        let r = svc.create_order_at(&request(plan, "usdt_trc20"), Some("alice"), 500);
        assert_eq!(r, Err(OrderError::UnsupportedPlan));
    }
    assert_eq!(svc.order_count(), 0);
    assert_eq!(svc.get_status_at(1, 1_000_000), Err(OrderError::NotFound));
    assert_eq!(svc.peek(1), Err(OrderError::NotFound));
    let first = svc.create_order_at(&request("monthly", "usdt_trc20"), Some("alice"), 500);
    assert_eq!(first.unwrap().order.id, 1);
}

#[test]
fn errors_come_in_the_order_of_the_checks() {
    let mut svc = engine();
    assert_eq!(
        svc.create_order_at(&request("weekly", "paypal"), None, 0),
        Err(OrderError::UnsupportedPlan)
    );
    assert_eq!(
        svc.create_order_at(&request("monthly", "paypal"), None, 0),
        Err(OrderError::UnsupportedMethod)
    );
    assert_eq!(
        svc.create_order_at(&request("monthly", "usdt_erc20"), None, 0),
        Err(OrderError::Unauthenticated)
    );
    assert_eq!(svc.order_count(), 0);
    assert_eq!(svc.peek(1), Err(OrderError::NotFound));
}

#[test]
fn a_placeholder_owner_stands_in() {
    let mut svc = engine_with(10_000, 4, Some("guest"));
    let anonymous = svc.create_order_at(&request("yearly", "usdt_bep20"), None, 0).unwrap();
    assert_eq!(anonymous.order.user_id, "guest");
    let named = svc.create_order_at(&request("yearly", "usdt_bep20"), Some("carol"), 0).unwrap();
    assert_eq!(named.order.user_id, "carol");
}

#[test]
fn error_reports() {
    assert_eq!(OrderError::UnsupportedPlan.status_code(), 400);
    assert_eq!(OrderError::UnsupportedMethod.status_code(), 400);
    assert_eq!(OrderError::Unauthenticated.status_code(), 401);
    assert_eq!(OrderError::NotFound.status_code(), 404);
    assert_eq!(OrderError::DuplicateId.status_code(), 500);
    assert_eq!(OrderError::UnsupportedPlan.kind(), "UnsupportedPlan");
    assert_eq!(OrderError::UnsupportedMethod.kind(), "UnsupportedMethod");
    assert_eq!(OrderError::Unauthenticated.kind(), "Unauthenticated");
    assert_eq!(OrderError::NotFound.kind(), "NotFound");
    assert_eq!(OrderError::DuplicateId.kind(), "DuplicateId");
    assert_eq!(OrderError::UnsupportedPlan.message(), "不支持的套餐");
    assert_eq!(OrderError::UnsupportedMethod.message(), "不支持的支付方式");
    assert_eq!(OrderError::Unauthenticated.message(), "用户未登录");
    assert_eq!(OrderError::NotFound.message(), "订单不存在");
    assert_eq!(OrderError::DuplicateId.message(), "订单编号已用尽");
}

#[test]
fn reads_within_the_delay_are_idempotent() {
    let mut svc = engine();
    let opened = svc.create_order_at(&request("monthly", "usdt_trc20"), Some("alice"), 1_000).unwrap();
    let first = svc.get_status_at(1, 1_000).unwrap();
    let second = svc.get_status_at(1, 10_999).unwrap();
    assert_eq!(first.status, OrderStatus::Created);
    assert_eq!(second.status, OrderStatus::Created);
    assert_eq!(first, second);
    assert_eq!(first, opened.order);
    assert_eq!(second.confirmed_at, None);
    assert_eq!(second.confirmations, None);
    assert_eq!(second.paid_at, None);
    assert_eq!(second.tx_hash, None);
}

#[test]
fn confirmation_comes_at_the_delay() {
    let mut svc = engine();
    svc.create_order_at(&request("monthly", "usdt_trc20"), Some("alice"), 1_000).unwrap();
    let before = svc.get_status_at(1, 10_999).unwrap();
    assert_eq!(before.status, OrderStatus::Created);
    assert_eq!(before.confirmations, None);
    assert_eq!(before.confirmed_at, None);
    let at = svc.get_status_at(1, 11_000).unwrap();
    assert_eq!(at.status, OrderStatus::Confirmed);
    assert_eq!(at.confirmations, Some(1));
    assert_eq!(at.confirmed_at, Some(11_000));
    assert_eq!(at.amount, before.amount);
    assert_eq!(at.payment_address, before.payment_address);
    assert_eq!(at.created_at, 1_000);
    assert_eq!(at.expires_at, 1_801_000);
}

#[test]
fn the_delay_is_a_setting() {
    let mut now = engine_with(0, 4, None);
    now.create_order_at(&request("monthly", "usdt_trc20"), Some("alice"), 1_000).unwrap();
    assert_eq!(now.get_status_at(1, 1_000).unwrap().status, OrderStatus::Confirmed);
    assert_eq!(now.get_status_at(1, 1_000).unwrap().confirmed_at, Some(1_000));
    let mut never = engine_with(u64::MAX, 4, None);
    never.create_order_at(&request("monthly", "usdt_trc20"), Some("alice"), 1_000).unwrap();
    assert_eq!(never.get_status_at(1, i64::MAX).unwrap().status, OrderStatus::Created);
    let mut past = engine_with(0, 4, None);
    past.create_order_at(&request("monthly", "usdt_trc20"), Some("alice"), 1_000).unwrap();
    assert_eq!(past.get_status_at(1, 999).unwrap().status, OrderStatus::Created);
}

#[test]
fn many_reads_across_the_boundary_confirm_once() {
    let mut svc = engine();
    svc.create_order_at(&request("lifetime", "usdt_erc20"), Some("alice"), 0).unwrap();
    let times = [9_998, 10_001, 9_999, 10_000, 10_003, 5, 20_000, 9_000, 10_002];
    let mut seen = Vec::new();
    for t in times {
        seen.push(svc.get_status_at(1, t).unwrap());
    }
    assert_eq!(seen[0].status, OrderStatus::Created);
    for s in &seen[1..] {
        assert_eq!(s.status, OrderStatus::Confirmed);
        assert_eq!(s.confirmations, Some(1));
        assert_eq!(s.confirmed_at, Some(10_001));
    }
    let end = svc.peek(1).unwrap();
    assert_eq!(end.status, OrderStatus::Confirmed);
    assert_eq!(end.confirmations, Some(1));
    assert_eq!(end.confirmed_at, Some(10_001));
    assert_eq!(end.amount, 15_000_000);
}

#[test]
fn a_read_touches_one_order_only() {
    let mut svc = engine();
    svc.create_order_at(&request("monthly", "usdt_trc20"), Some("alice"), 0).unwrap();
    svc.create_order_at(&request("yearly", "usdt_erc20"), Some("bob"), 0).unwrap();
    svc.get_status_at(1, 50_000).unwrap();
    assert_eq!(svc.peek(2).unwrap().status, OrderStatus::Created);
    assert_eq!(svc.peek(1).unwrap().status, OrderStatus::Confirmed);
    assert_eq!(svc.order_count(), 2);
}

#[test]
fn subscribers_read_created_then_confirmed() {
    let mut svc = engine();
    let sub = svc.subscribe(1).unwrap();
    let opened = svc.create_order_at(&request("monthly", "usdt_trc20"), Some("alice"), 0).unwrap();
    svc.get_status_at(1, 5_000).unwrap();
    let confirmed = svc.get_status_at(1, 10_000).unwrap();
    svc.get_status_at(1, 20_000).unwrap();
    assert_eq!(svc.poll(&sub), Delivery::Snapshot(opened.order));
    assert_eq!(svc.poll(&sub), Delivery::Snapshot(confirmed));
    assert_eq!(svc.poll(&sub), Delivery::Pending);
}

#[test]
fn a_later_subscriber_reads_the_confirmation_only() {
    let mut svc = engine();
    svc.create_order_at(&request("monthly", "usdt_trc20"), Some("alice"), 0).unwrap();
    let sub = svc.subscribe(1).unwrap();
    let other = svc.subscribe(2).unwrap();
    assert_eq!(svc.poll(&sub), Delivery::Pending);
    let confirmed = svc.get_status_at(1, 10_000).unwrap();
    assert_eq!(svc.poll(&sub), Delivery::Snapshot(confirmed));
    assert_eq!(svc.poll(&sub), Delivery::Pending);
    assert_eq!(svc.poll(&other), Delivery::Pending);
    svc.unsubscribe(&sub);
    assert_eq!(svc.poll(&sub), Delivery::Closed);
    svc.shutdown();
    assert_eq!(svc.poll(&other), Delivery::Closed);
    assert_eq!(svc.subscribe(1), None);
    assert_eq!(svc.get_status_at(1, 10_000).unwrap().status, OrderStatus::Confirmed);
}

#[test]
fn end_to_end() {
    let mut svc = engine();
    let receipt = svc.create_order_at(&request("monthly", "rail_a"), Some("alice"), 1_700_000_000_000).unwrap();
    assert_eq!(receipt.order.amount, Plan::Monthly.price());
    assert_eq!(receipt.order.amount, 3_000_000);
    assert_eq!(receipt.order.payment_address, "TL1a2b3c4d5e6f7g8h9i0j");
    assert_eq!(receipt.order.status, OrderStatus::Created);
    let id = receipt.order.id;
    let later = svc.get_status_at(id, 1_700_000_000_000 + 10_001).unwrap();
    assert_eq!(later.status, OrderStatus::Confirmed);
    assert_eq!(later.confirmations, Some(1));
    assert_eq!(svc.get_status_at(id + 1, 1_700_000_000_000 + 10_001), Err(OrderError::NotFound));
}

#[test]
fn end_to_end_by_the_clock() {
    let mut quick = engine_with(0, 4, None);
    let receipt = quick
        .create_order(&request("monthly", "usdt_trc20"), Some("alice"))
        .unwrap()
        .unwrap();
    assert!(receipt.order.created_at > 1_600_000_000_000);
    assert_eq!(receipt.order.expires_at - receipt.order.created_at, 1_800_000);
    let read = quick.get_status(receipt.order.id).unwrap().unwrap();
    assert_eq!(read.status, OrderStatus::Confirmed);
    assert_eq!(read.confirmations, Some(1));
    assert!(read.confirmed_at.unwrap() >= receipt.order.created_at);
    assert_eq!(quick.get_status(99), Some(Err(OrderError::NotFound)));
    let mut slow = engine();
    let receipt = slow
        .create_order(&request("monthly", "usdt_trc20"), Some("alice"))
        .unwrap()
        .unwrap();
    let read = slow.get_status(receipt.order.id).unwrap().unwrap();
    assert_eq!(read.status, OrderStatus::Created);
    assert_eq!(read, receipt.order);
}

#[test]
fn refusals_do_not_wait_for_the_clock() {
    let mut svc = engine();
    assert_eq!(svc.refusal(&request("weekly", "cash"), None), Some(OrderError::UnsupportedPlan));
    assert_eq!(svc.refusal(&request("yearly", "cash"), None), Some(OrderError::UnsupportedMethod));
    assert_eq!(
        svc.refusal(&request("yearly", "usdt_erc20"), None),
        Some(OrderError::Unauthenticated)
    );
    assert_eq!(svc.refusal(&request("yearly", "usdt_erc20"), Some("alice")), None);
    assert_eq!(
        svc.create_order(&request("weekly", "usdt_erc20"), Some("alice")),
        Some(Err(OrderError::UnsupportedPlan))
    );
    assert_eq!(
        svc.create_order(&request("yearly", "cash"), Some("alice")),
        Some(Err(OrderError::UnsupportedMethod))
    );
    assert_eq!(
        svc.create_order(&request("yearly", "usdt_erc20"), None),
        Some(Err(OrderError::Unauthenticated))
    );
    assert_eq!(svc.order_count(), 0);
    let guest = engine_with(10_000, 4, Some("guest"));
    assert_eq!(guest.refusal(&request("yearly", "usdt_erc20"), None), None);
}

#[test]
fn orders_at_the_edges_of_time() {
    let mut svc = engine();
    let last = svc
        .create_order_at(&request("monthly", "usdt_trc20"), Some("alice"), i64::MAX - 1_800_000)
        .unwrap();
    assert_eq!(last.order.expires_at, i64::MAX);
    let first = svc
        .create_order_at(&request("monthly", "usdt_trc20"), Some("alice"), i64::MIN)
        .unwrap();
    assert_eq!(first.order.expires_at, i64::MIN + 1_800_000);
    assert_eq!(svc.get_status_at(2, i64::MIN + 9_999).unwrap().status, OrderStatus::Created);
    assert_eq!(svc.get_status_at(2, i64::MAX).unwrap().status, OrderStatus::Confirmed);
    assert_eq!(svc.get_status_at(1, i64::MIN).unwrap().status, OrderStatus::Created);
    assert_eq!(
        svc.get_status_at(1, i64::MAX - 1_800_000 + 9_999).unwrap().status,
        OrderStatus::Created
    );
    assert_eq!(svc.get_status_at(1, i64::MAX).unwrap().status, OrderStatus::Confirmed);
}

#[test]
fn pages_list_an_owner_newest_first() {
    let mut svc = engine();
    for i in 0..7 {
        let owner = if i % 2 == 0 { "alice" } else { "bob" };
        svc.create_order_at(&request("monthly", "usdt_trc20"), Some(owner), i).unwrap();
    }
    let ids = |orders: Vec<PaymentOrder>| orders.iter().map(|o| o.id).collect::<Vec<u64>>();
    assert_eq!(ids(svc.page(Some("alice"), 1, 10)), vec![7, 5, 3, 1]);
    assert_eq!(ids(svc.page(Some("bob"), 1, 10)), vec![6, 4, 2]);
    assert_eq!(ids(svc.page(Some("alice"), 1, 3)), vec![7, 5, 3]);
    assert_eq!(ids(svc.page(Some("alice"), 2, 3)), vec![1]);
    assert_eq!(ids(svc.page(Some("alice"), 3, 3)), Vec::<u64>::new());
    assert_eq!(ids(svc.page(Some("alice"), 0, 0)), vec![7, 5, 3, 1]);
    assert_eq!(ids(svc.page(Some("alice"), -4, -1)), vec![7, 5, 3, 1]);
    assert_eq!(ids(svc.page(Some("alice"), 2, 1)), vec![5]);
    assert_eq!(ids(svc.page(Some("nobody"), 1, 10)), Vec::<u64>::new());
    assert_eq!(ids(svc.page(None, 1, 10)), Vec::<u64>::new());
    assert!(svc.page(Some("bob"), 1, 1).iter().all(|o| o.user_id == "bob"));
}

#[test]
fn pages_list_by_the_instant_of_creation() {
    let mut svc = engine();
    let ids = |orders: Vec<PaymentOrder>| orders.iter().map(|o| o.id).collect::<Vec<u64>>();
    for now in [100, 50] {
        svc.create_order_at(&request("monthly", "usdt_trc20"), Some("alice"), now).unwrap();
    }
    assert_eq!(ids(svc.page(Some("alice"), 1, 10)), vec![1, 2]);
    for (owner, now) in [("alice", 100), ("bob", 500), ("alice", 75), ("alice", 300), ("alice", 50)] {
        svc.create_order_at(&request("monthly", "usdt_trc20"), Some(owner), now).unwrap();
    }
    assert_eq!(ids(svc.page(Some("alice"), 1, 10)), vec![6, 3, 1, 5, 7, 2]);
    assert_eq!(ids(svc.page(Some("alice"), 1, 2)), vec![6, 3]);
    assert_eq!(ids(svc.page(Some("alice"), 2, 2)), vec![1, 5]);
    assert_eq!(ids(svc.page(Some("alice"), 3, 2)), vec![7, 2]);
    assert_eq!(ids(svc.page(Some("alice"), 4, 2)), Vec::<u64>::new());
    assert_eq!(ids(svc.page(Some("bob"), 1, 10)), vec![4]);
    let created: Vec<i64> = svc.page(Some("alice"), 1, 10).iter().map(|o| o.created_at).collect();
    assert_eq!(created, vec![300, 100, 100, 75, 50, 50]);
}

#[test]
fn handlers_act_for_the_user_of_the_scope() {
    let mut svc = OrderService::new(ServiceConfig::standard());
    let dto = OrderDTO { plan_type: "yearly".to_string(), network: "usdt_bep20".to_string() };
    let alice = UserScope::of("alice".to_string());
    let nobody = UserScope::anonymous();
    assert_eq!(
        order_service::create(&mut svc, &dto, &nobody),
        Some(Err(OrderError::Unauthenticated))
    );
    let receipt = order_service::create(&mut svc, &dto, &alice).unwrap().unwrap();
    assert_eq!(receipt.order.id, 1);
    assert_eq!(receipt.order.user_id, "alice");
    assert_eq!(receipt.order.amount, 10_000_000);
    assert_eq!(receipt.order.payment_address, "0x2222222222222222222222222222222222222222");
    assert_eq!(
        receipt.deep_link,
        "bnb:0x2222222222222222222222222222222222222222?amount=10&token=0x55d398326f99059fF775485246999027B3197955"
    );
    let bad = OrderDTO { plan_type: "yearly".to_string(), network: "cash".to_string() };
    assert_eq!(
        order_service::create(&mut svc, &bad, &alice),
        Some(Err(OrderError::UnsupportedMethod))
    );
    svc.create_order_at(&dto.to_request(), Some("alice"), receipt.order.created_at + 5).unwrap();
    order_service::create(&mut svc, &dto, &UserScope::of("bob".to_string())).unwrap().unwrap();
    let ids: Vec<u64> = order_service::page(&svc, &alice, 1, 10).iter().map(|o| o.id).collect();
    assert_eq!(ids, vec![2, 1]);
    assert!(order_service::page(&svc, &nobody, 1, 10).is_empty());
}

#[test]
fn orders_open_when_the_clock_gives_an_instant() {
    let mut svc = engine();
    let good = request("monthly", "usdt_trc20");
    assert_eq!(svc.create_order_when(&good, Some("alice"), None), None);
    assert_eq!(svc.create_order_when(&good, Some("alice"), Some(i64::MAX - 1_799_999)), None);
    assert_eq!(svc.create_order_when(&good, Some("alice"), Some(i64::MAX)), None);
    assert_eq!(svc.order_count(), 0);
    assert_eq!(svc.peek(1), Err(OrderError::NotFound));
    for instant in [None, Some(5), Some(i64::MAX)] {
        assert_eq!(
            svc.create_order_when(&request("weekly", "usdt_trc20"), Some("alice"), instant),
            Some(Err(OrderError::UnsupportedPlan))
        );
        assert_eq!(
            svc.create_order_when(&request("monthly", "cash"), Some("alice"), instant),
            Some(Err(OrderError::UnsupportedMethod))
        );
        assert_eq!(
            svc.create_order_when(&good, None, instant),
            Some(Err(OrderError::Unauthenticated))
        );
    }
    assert_eq!(svc.order_count(), 0);
    let last = svc
        .create_order_when(&good, Some("alice"), Some(i64::MAX - 1_800_000))
        .unwrap()
        .unwrap();
    assert_eq!((last.order.id, last.order.expires_at), (1, i64::MAX));
    let early = svc.create_order_when(&good, Some("alice"), Some(-7)).unwrap().unwrap();
    assert_eq!((early.order.id, early.order.created_at, early.order.expires_at), (2, -7, 1_799_993));
    assert_eq!(early.order.amount, 3_000_000);
    assert_eq!(svc.order_count(), 2);
}

#[test]
fn statuses_are_read_when_the_clock_gives_an_instant() {
    let mut svc = engine();
    svc.create_order_at(&request("monthly", "usdt_trc20"), Some("alice"), 0).unwrap();
    assert_eq!(svc.get_status_when(2, None), Some(Err(OrderError::NotFound)));
    assert_eq!(svc.get_status_when(2, Some(50_000)), Some(Err(OrderError::NotFound)));
    assert_eq!(svc.get_status_when(1, None), None);
    assert_eq!(svc.peek(1).unwrap().status, OrderStatus::Created);
    let early = svc.get_status_when(1, Some(9_999)).unwrap().unwrap();
    assert_eq!(early.status, OrderStatus::Created);
    let late = svc.get_status_when(1, Some(10_000)).unwrap().unwrap();
    assert_eq!(late.status, OrderStatus::Confirmed);
    assert_eq!(late.confirmed_at, Some(10_000));
    assert_eq!(svc.get_status_when(1, None), None);
    assert_eq!(svc.peek(1), Ok(late));
}

#[test]
fn handlers_open_orders_when_the_clock_gives_an_instant() {
    let mut svc = engine();
    let dto = OrderDTO { plan_type: "lifetime".to_string(), network: "usdt_erc20".to_string() };
    let alice = UserScope::of("alice".to_string());
    assert_eq!(order_service::create_when(&mut svc, &dto, &alice, None), None);
    assert_eq!(order_service::create_when(&mut svc, &dto, &alice, Some(i64::MAX)), None);
    assert_eq!(
        order_service::create_when(&mut svc, &dto, &UserScope::anonymous(), None),
        Some(Err(OrderError::Unauthenticated))
    );
    let receipt = order_service::create_when(&mut svc, &dto, &alice, Some(1_000)).unwrap().unwrap();
    assert_eq!(receipt.order.id, 1);
    assert_eq!(receipt.order.user_id, "alice");
    assert_eq!(receipt.order.amount, 15_000_000);
    assert_eq!(receipt.order.created_at, 1_000);
    assert_eq!(receipt.order.payment_address, "0x1111111111111111111111111111111111111111");
}
