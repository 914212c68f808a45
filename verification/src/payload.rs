//! The payload generator: the text of an amount, the wallet deep link and
//! the scannable image payload of a payment.

use vstd::prelude::*;
use crate::pricing::{method_of, PaymentMethod, MICROS_PER_UNIT};
use crate::text::{decimal, digit_char, push_decimal, push_text};

verus! {

/// Token reference carried by deep links on the TRC-20 rail.
pub const TRC20_TOKEN: &'static str = "TR7NHqjeKQxGTCi8q8ZY4pL8otSzgjLj6t";

/// Token reference carried by deep links on the ERC-20 rail.
pub const ERC20_TOKEN: &'static str = "0xdAC17F958D2ee523a2206206994597C13D831ec7";

/// Token reference carried by deep links on the BEP-20 rail.
pub const BEP20_TOKEN: &'static str = "0x55d398326f99059fF775485246999027B3197955";

/// What every image payload begins with.
pub const QR_PREFIX: &'static str = "data:image/svg+xml;charset=utf-8,";

/// The image markup before the payment data.
pub const SVG_OPEN: &'static str =
    "<svg width='200' height='200' xmlns='http://www.w3.org/2000/svg'>\n            <rect width='200' height='200' fill='white'/>\n            <text x='100' y='100' text-anchor='middle' font-size='12' fill='black'>";

/// The image markup after the payment data.
pub const SVG_CLOSE: &'static str = "</text>\n        </svg>";

/// The `width` lowest decimal digits of `n`, highest first, with leading
/// zeros where `n` is short.
pub open spec fn padded_decimal(n: nat, width: nat) -> Seq<char>
    decreases width,
{
    if width == 0 {
        Seq::empty()
    } else {
        padded_decimal(n / 10, (width - 1) as nat).push(digit_char((n % 10) as int))
    }
}

/// The digits after the decimal point of `frac` parts in `10^width`,
/// without trailing zeros: empty when `frac` is zero.
pub open spec fn fraction_digits(frac: nat, width: nat) -> Seq<char>
    decreases width,
{
    if width == 0 || frac == 0 {
        Seq::empty()
    } else if frac % 10 == 0 {
        fraction_digits(frac / 10, (width - 1) as nat)
    } else {
        padded_decimal(frac, width)
    }
}

/// An amount of micro-units written in units of the currency: the whole
/// part, then, only where the amount is no whole number of units, a point
/// and the fraction without trailing zeros. Three units are "3", three and
/// a half are "3.5".
pub open spec fn amount_text(micros: u64) -> Seq<char> {
    let whole = (micros / MICROS_PER_UNIT) as nat;
    let frac = (micros % MICROS_PER_UNIT) as nat;
    if frac == 0 {
        decimal(whole)
    } else {
        decimal(whole) + seq!['.'] + fraction_digits(frac, 6)
    }
}

/// What one character becomes in an image payload.
pub open spec fn escaped_char(c: char) -> Seq<char> {
    if c == '#' {
        "%23"@
    } else if c == ' ' {
        "%20"@
    } else {
        seq![c]
    }
}

/// `s` with every `#` written as `%23` and every space as `%20`.
pub open spec fn escaped(s: Seq<char>) -> Seq<char>
    decreases s.len(),
{
    if s.len() == 0 {
        Seq::empty()
    } else {
        escaped(s.drop_last()) + escaped_char(s.last())
    }
}

/// The payment data that the image shows: rail, address and amount.
pub open spec fn qr_data(address: Seq<char>, amount: u64, method: Seq<char>) -> Seq<char> {
    method + ":"@ + address + "?amount="@ + amount_text(amount)
}

/// The image payload of a payment.
pub open spec fn qr_text(address: Seq<char>, amount: u64, method: Seq<char>) -> Seq<char> {
    QR_PREFIX@ + escaped(SVG_OPEN@ + qr_data(address, amount, method) + SVG_CLOSE@)
}

/// The wallet deep link of a payment on a given rail.
pub open spec fn deeplink_for(address: Seq<char>, amount: u64, method: PaymentMethod) -> Seq<
    char,
> {
    match method {
        PaymentMethod::UsdtTrc20 => "tronlink://transfer?to="@ + address + "&amount="@
            + amount_text(amount) + "&token="@ + TRC20_TOKEN@,
        PaymentMethod::UsdtErc20 => "ethereum:"@ + address + "@1?value="@ + decimal(amount as nat)
            + "&token="@ + ERC20_TOKEN@,
        PaymentMethod::UsdtBep20 => "bnb:"@ + address + "?amount="@ + amount_text(amount)
            + "&token="@ + BEP20_TOKEN@,
    }
}

/// The wallet deep link of a payment: empty where `method` names no rail.
pub open spec fn deeplink_text(address: Seq<char>, amount: u64, method: Seq<char>) -> Seq<char> {
    match method_of(method) {
        Some(m) => deeplink_for(address, amount, m),
        None => Seq::empty(),
    }
}

fn push_digit(out: &mut String, d: u64)
    requires
        d <= 9,
    ensures
        final(out)@ == old(out)@.push(digit_char(d as int)),
{
    let mut one = String::new();
    push_decimal(&mut one, d);
    assert(one@ =~= seq![digit_char(d as int)]);
    out.append(one.as_str());
    assert(out@ =~= old(out)@.push(digit_char(d as int)));
}

fn push_padded(out: &mut String, n: u64, width: u8)
    ensures
        final(out)@ == old(out)@ + padded_decimal(n as nat, width as nat),
    decreases width,
{
    if width > 0 {
        push_padded(out, n / 10, width - 1);
        push_digit(out, n % 10);
    }
    assert(out@ =~= old(out)@ + padded_decimal(n as nat, width as nat));
}

/// Appends the text of an amount to `out`.
pub fn push_amount(out: &mut String, micros: u64)
    ensures
        final(out)@ == old(out)@ + amount_text(micros),
{
    let whole = micros / MICROS_PER_UNIT;
    let frac = micros % MICROS_PER_UNIT;
    push_decimal(out, whole);
    if frac != 0 {
        push_text(out, ".");
        proof {
            reveal_strlit(".");
            assert("."@ =~= seq!['.']);
        }
        let mut rest: u64 = frac;
        let mut width: u8 = 6;
        while width > 0 && rest % 10 == 0
            invariant
                rest != 0,
                width <= 6,
                fraction_digits(rest as nat, width as nat) == fraction_digits(frac as nat, 6),
            decreases width,
        {
            rest = rest / 10;
            width = width - 1;
        }
        push_padded(out, rest, width);
        assert(out@ =~= old(out)@ + amount_text(micros));
    }
}

/// The text of an amount of micro-units, in units of the currency.
pub fn format_amount(micros: u64) -> (text: String)
    ensures
        text@ == amount_text(micros),
{
    let mut text = String::new();
    push_amount(&mut text, micros);
    assert(text@ =~= amount_text(micros));
    text
}

/// Writes `s` for an image payload, `#` as `%23` and space as `%20`.
pub fn escape(s: &str) -> (out: String)
    ensures
        out@ == escaped(s@),
{
    let mut out = String::new();
    for c in it: s.chars()
        invariant
            it.seq() == s@,
            out@ == escaped(s@.subrange(0, it.index() as int)),
    {
        let ghost done = s@.subrange(0, it.index() as int);
        let ghost next = s@.subrange(0, it.index() + 1);
        assert(next.drop_last() =~= done);
        assert(next.last() == c);
        if c == '#' {
            out.append("%23");
        } else if c == ' ' {
            out.append("%20");
        } else {
            out.push(c);
            assert(out@ =~= escaped(done) + seq![c]);
        }
    }
    assert(s@.subrange(0, s@.len() as int) =~= s@);
    out
}

/// The scannable image payload for a payment of `amount` micro-units to
/// `address` on the rail named `method`: a data URI of an SVG image that
/// shows the payment data, with `#` and space escaped. The rail's name is
/// shown as given.
pub fn generate_qr(address: &str, amount: u64, method: &str) -> (payload: String)
    ensures
        payload@ == qr_text(address@, amount, method@),
{
    let mut svg = String::new();
    push_text(&mut svg, SVG_OPEN);
    push_text(&mut svg, method);
    push_text(&mut svg, ":");
    push_text(&mut svg, address);
    push_text(&mut svg, "?amount=");
    push_amount(&mut svg, amount);
    push_text(&mut svg, SVG_CLOSE);
    assert(svg@ =~= SVG_OPEN@ + qr_data(address@, amount, method@) + SVG_CLOSE@);
    let body = escape(svg.as_str());
    let mut payload = String::new();
    push_text(&mut payload, QR_PREFIX);
    push_text(&mut payload, body.as_str());
    assert(payload@ =~= qr_text(address@, amount, method@));
    payload
}

/// The wallet deep link for a payment on `method`: each rail has its own
/// URI scheme and token reference, and the ERC-20 rail states the amount
/// in micro-units.
pub fn deeplink(address: &str, amount: u64, method: PaymentMethod) -> (link: String)
    ensures
        link@ == deeplink_for(address@, amount, method),
{
    let mut link = String::new();
    match method {
        PaymentMethod::UsdtTrc20 => {
            push_text(&mut link, "tronlink://transfer?to=");
            push_text(&mut link, address);
            push_text(&mut link, "&amount=");
            push_amount(&mut link, amount);
            push_text(&mut link, "&token=");
            push_text(&mut link, TRC20_TOKEN);
        },
        PaymentMethod::UsdtErc20 => {
            push_text(&mut link, "ethereum:");
            push_text(&mut link, address);
            push_text(&mut link, "@1?value=");
            push_decimal(&mut link, amount);
            push_text(&mut link, "&token=");
            push_text(&mut link, ERC20_TOKEN);
        },
        PaymentMethod::UsdtBep20 => {
            push_text(&mut link, "bnb:");
            push_text(&mut link, address);
            push_text(&mut link, "?amount=");
            push_amount(&mut link, amount);
            push_text(&mut link, "&token=");
            push_text(&mut link, BEP20_TOKEN);
        },
    }
    assert(link@ =~= deeplink_for(address@, amount, method));
    link
}

/// The wallet deep link for a payment of `amount` micro-units to `address`
/// on the rail named `method`; the empty string where `method` names no
/// rail.
pub fn generate_deeplink(address: &str, amount: u64, method: &str) -> (link: String)
    ensures
        link@ == deeplink_text(address@, amount, method@),
{
    match PaymentMethod::parse(method) {
        Some(m) => deeplink(address, amount, m),
        None => String::new(),
    }
}

} // verus!
