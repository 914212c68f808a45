use demochain_api::payload::{
    escape, format_amount, generate_deeplink, generate_qr, BEP20_TOKEN, ERC20_TOKEN, TRC20_TOKEN,
};
use demochain_api::pricing::{
    address_for_method, price_for_plan, PaymentMethod, Plan, BEP20_ADDRESS, ERC20_ADDRESS,
    LIFETIME_PRICE, MONTHLY_PRICE, TRC20_ADDRESS, YEARLY_PRICE,
};
use demochain_api::text::{push_decimal, starts_with, str_eq, take_until};

fn float_text(micros: u64) -> String {
    format!("{}", micros as f64 / 1_000_000.0)
}

fn expected_qr(address: &str, amount: f64, method: &str) -> String {
    let data = format!("{}:{}?amount={}", method, address, amount);
    let svg = format!(
        "<svg width='200' height='200' xmlns='http://www.w3.org/2000/svg'>
            <rect width='200' height='200' fill='white'/>
            <text x='100' y='100' text-anchor='middle' font-size='12' fill='black'>{}</text>
        </svg>",
        data
    );
    format!(
        "data:image/svg+xml;charset=utf-8,{}",
        svg.replace("#", "%23").replace(" ", "%20")
    )
}

#[test]
fn prices_follow_the_table() {
    assert_eq!(price_for_plan("monthly"), Some(3_000_000));
    assert_eq!(price_for_plan("yearly"), Some(10_000_000));
    assert_eq!(price_for_plan("lifetime"), Some(15_000_000));
    assert_eq!(MONTHLY_PRICE, 3_000_000);
    assert_eq!(YEARLY_PRICE, 10_000_000);
    assert_eq!(LIFETIME_PRICE, 15_000_000);
}

#[test]
fn unknown_plans_have_no_price() {
    assert_eq!(price_for_plan(""), None);
    assert_eq!(price_for_plan("Monthly"), None);
    assert_eq!(price_for_plan("monthly "), None);
    assert_eq!(price_for_plan("weekly"), None);
    assert_eq!(price_for_plan("monthl"), None);
}

#[test]
fn addresses_follow_the_routing_table() {
    assert_eq!(address_for_method("usdt_trc20"), Some("TL1a2b3c4d5e6f7g8h9i0j"));
    assert_eq!(
        address_for_method("usdt_erc20"),
        Some("0x1111111111111111111111111111111111111111")
    );
    assert_eq!(
        address_for_method("usdt_bep20"),
        Some("0x2222222222222222222222222222222222222222")
    );
    assert_eq!(address_for_method("rail_a"), Some(TRC20_ADDRESS));
    assert_eq!(address_for_method("rail_b"), Some(ERC20_ADDRESS));
    assert_eq!(address_for_method("rail_c"), Some(BEP20_ADDRESS));
}

#[test]
fn unknown_methods_have_no_address() {
    assert_eq!(address_for_method(""), None);
    assert_eq!(address_for_method("usdt"), None);
    assert_eq!(address_for_method("USDT_TRC20"), None);
    assert_eq!(address_for_method("rail_d"), None);
}

#[test]
fn names_are_read_back() {
    for plan in [Plan::Monthly, Plan::Yearly, Plan::Lifetime] {
        assert_eq!(Plan::parse(plan.as_str()), Some(plan));
    }
    for method in [PaymentMethod::UsdtTrc20, PaymentMethod::UsdtErc20, PaymentMethod::UsdtBep20] {
        assert_eq!(PaymentMethod::parse(method.as_str()), Some(method));
    }
    assert_eq!(PaymentMethod::UsdtTrc20.as_str(), "usdt_trc20");
    assert_eq!(Plan::Lifetime.as_str(), "lifetime");
    assert_eq!(Plan::Yearly.price(), 10_000_000);
    assert_eq!(PaymentMethod::UsdtBep20.address(), BEP20_ADDRESS);
}

#[test]
fn amounts_are_written_in_units() {
    assert_eq!(format_amount(0), "0");
    assert_eq!(format_amount(3_000_000), "3");
    assert_eq!(format_amount(10_000_000), "10");
    assert_eq!(format_amount(15_000_000), "15");
    assert_eq!(format_amount(3_500_000), "3.5");
    assert_eq!(format_amount(1), "0.000001");
    assert_eq!(format_amount(1_000_001), "1.000001");
    assert_eq!(format_amount(120_030_400), "120.0304");
    assert_eq!(format_amount(999_999), "0.999999");
    assert_eq!(format_amount(100), "0.0001");
    assert_eq!(format_amount(u64::MAX), "18446744073709.551615");
}

#[test]
fn amounts_read_like_floats() {
    let samples: [u64; 12] = [
        0, 1, 10, 250_000, 999_999, 1_000_000, 1_500_000, 3_000_000, 10_000_000, 15_000_000,
        123_456_789, 7_000_100,
    ];
    for micros in samples {
        assert_eq!(format_amount(micros), float_text(micros));
    }
}

#[test]
fn decimals_are_written_without_leading_zeros() {
    let mut out = String::from("n=");
    push_decimal(&mut out, 0);
    push_decimal(&mut out, 907);
    push_decimal(&mut out, u64::MAX);
    assert_eq!(out, "n=090718446744073709551615");
}

#[test]
fn escape_replaces_hash_and_space_only() {
    assert_eq!(escape(""), "");
    assert_eq!(escape("a b#c"), "a%20b%23c");
    assert_eq!(escape("  ##"), "%20%20%23%23");
    assert_eq!(escape("<x y='1'>\n%é</x>"), "<x%20y='1'>\n%é</x>");
}

#[test]
fn qr_payload_is_the_escaped_image() {
    let got = generate_qr("TL1a2b3c4d5e6f7g8h9i0j", 3_000_000, "usdt_trc20");
    assert_eq!(got, expected_qr("TL1a2b3c4d5e6f7g8h9i0j", 3.0, "usdt_trc20"));
    assert!(got.starts_with("data:image/svg+xml;charset=utf-8,<svg%20width='200'"));
    assert!(got.contains(">usdt_trc20:TL1a2b3c4d5e6f7g8h9i0j?amount=3</text>"));
    assert!(!got.contains(' '));
    assert!(got.ends_with("</text>\n%20%20%20%20%20%20%20%20</svg>"));
}

#[test]
fn qr_payload_shows_the_method_as_given() {
    for (address, micros, amount, method) in [
        ("0x1111111111111111111111111111111111111111", 10_000_000u64, 10.0f64, "usdt_erc20"),
        ("0x2222222222222222222222222222222222222222", 15_000_000, 15.0, "usdt_bep20"),
        ("some address#1", 2_500_000, 2.5, "no such rail"),
        ("", 0, 0.0, ""),
    ] {
        assert_eq!(generate_qr(address, micros, method), expected_qr(address, amount, method));
    }
}

#[test]
fn deep_links_are_per_rail() {
    assert_eq!(
        generate_deeplink(TRC20_ADDRESS, 3_000_000, "usdt_trc20"),
        "tronlink://transfer?to=TL1a2b3c4d5e6f7g8h9i0j&amount=3&token=TR7NHqjeKQxGTCi8q8ZY4pL8otSzgjLj6t"
    );
    assert_eq!(
        generate_deeplink(ERC20_ADDRESS, 3_000_000, "usdt_erc20"),
        "ethereum:0x1111111111111111111111111111111111111111@1?value=3000000&token=0xdAC17F958D2ee523a2206206994597C13D831ec7"
    );
    assert_eq!(
        generate_deeplink(BEP20_ADDRESS, 10_000_000, "usdt_bep20"),
        "bnb:0x2222222222222222222222222222222222222222?amount=10&token=0x55d398326f99059fF775485246999027B3197955"
    );
    assert_eq!(
        generate_deeplink("X", 1_500_000, "rail_c"),
        format!("bnb:X?amount=1.5&token={}", BEP20_TOKEN)
    );
    assert_eq!(
        generate_deeplink("X", 1_500_000, "rail_b"),
        format!("ethereum:X@1?value=1500000&token={}", ERC20_TOKEN)
    );
    assert_eq!(
        generate_deeplink("X", 1, "rail_a"),
        format!("tronlink://transfer?to=X&amount=0.000001&token={}", TRC20_TOKEN)
    );
}

#[test]
fn deep_link_of_an_unknown_method_is_empty() {
    assert_eq!(generate_deeplink(TRC20_ADDRESS, 3_000_000, "paypal"), "");
    assert_eq!(generate_deeplink(TRC20_ADDRESS, 3_000_000, ""), "");
    assert_eq!(generate_deeplink(TRC20_ADDRESS, 3_000_000, "USDT_TRC20"), "");
}

#[test]
fn strings_compare_by_characters() {
    assert!(str_eq("", ""));
    assert!(str_eq("héllo", "héllo"));
    assert!(!str_eq("héllo", "hello"));
    assert!(!str_eq("abc", "abcd"));
    assert!(!str_eq("é", "e\u{301}"));
    assert!(starts_with("/assets/x", "/assets/"));
    assert!(starts_with("abc", ""));
    assert!(starts_with("abc", "abc"));
    assert!(!starts_with("ab", "abc"));
    assert!(!starts_with("/Assets/x", "/assets/"));
}

#[test]
fn take_until_stops_at_the_first_match() {
    assert_eq!(take_until("alice@example.com", '@'), "alice");
    assert_eq!(take_until("a@b@c", '@'), "a");
    assert_eq!(take_until("@b", '@'), "");
    assert_eq!(take_until("no at sign", '@'), "no at sign");
    assert_eq!(take_until("", '@'), "");
    assert_eq!(take_until("./data/db.sqlite?mode=rwc", '?'), "./data/db.sqlite");
}
