//! The pricing and routing tables: what each plan costs and which address
//! receives the payment on each rail.
//!
//! Amounts are whole numbers of micro-units: one unit of the currency is
//! `MICROS_PER_UNIT` micro-units, the precision of the stablecoin that all
//! three rails carry.

use vstd::prelude::*;
use crate::text::str_eq;

verus! {

/// Micro-units in one unit of the currency.
pub const MICROS_PER_UNIT: u64 = 1_000_000;

/// Price of the monthly plan, in micro-units.
pub const MONTHLY_PRICE: u64 = 3_000_000;

/// Price of the yearly plan, in micro-units.
pub const YEARLY_PRICE: u64 = 10_000_000;

/// Price of the lifetime plan, in micro-units.
pub const LIFETIME_PRICE: u64 = 15_000_000;

/// Code of the one currency in which every order is priced.
pub const CURRENCY: &'static str = "USDT";

/// Receiving address on the TRC-20 rail.
pub const TRC20_ADDRESS: &'static str = "TL1a2b3c4d5e6f7g8h9i0j";

/// Receiving address on the ERC-20 rail.
pub const ERC20_ADDRESS: &'static str = "0x1111111111111111111111111111111111111111";

/// Receiving address on the BEP-20 rail.
pub const BEP20_ADDRESS: &'static str = "0x2222222222222222222222222222222222222222";

/// A subscription plan.
#[derive(Clone, Copy, Debug, PartialEq, Eq, Structural)]
pub enum Plan {
    Monthly,
    Yearly,
    Lifetime,
}

/// A payment rail.
#[derive(Clone, Copy, Debug, PartialEq, Eq, Structural)]
pub enum PaymentMethod {
    UsdtTrc20,
    UsdtErc20,
    UsdtBep20,
}

/// The plan that `name` identifies, if any. Names are case-sensitive.
pub open spec fn plan_of(name: Seq<char>) -> Option<Plan> {
    if name == "monthly"@ {
        Some(Plan::Monthly)
    } else if name == "yearly"@ {
        Some(Plan::Yearly)
    } else if name == "lifetime"@ {
        Some(Plan::Lifetime)
    } else {
        None
    }
}

/// The price of `plan` in micro-units.
pub open spec fn price_of(plan: Plan) -> u64 {
    match plan {
        Plan::Monthly => MONTHLY_PRICE,
        Plan::Yearly => YEARLY_PRICE,
        Plan::Lifetime => LIFETIME_PRICE,
    }
}

/// The rail that `name` identifies, if any. A rail answers to its network
/// name and to a short alias.
pub open spec fn method_of(name: Seq<char>) -> Option<PaymentMethod> {
    if name == "usdt_trc20"@ || name == "rail_a"@ {
        Some(PaymentMethod::UsdtTrc20)
    } else if name == "usdt_erc20"@ || name == "rail_b"@ {
        Some(PaymentMethod::UsdtErc20)
    } else if name == "usdt_bep20"@ || name == "rail_c"@ {
        Some(PaymentMethod::UsdtBep20)
    } else {
        None
    }
}

/// The address that receives payments on `method`.
pub open spec fn address_of(method: PaymentMethod) -> Seq<char> {
    match method {
        PaymentMethod::UsdtTrc20 => TRC20_ADDRESS@,
        PaymentMethod::UsdtErc20 => ERC20_ADDRESS@,
        PaymentMethod::UsdtBep20 => BEP20_ADDRESS@,
    }
}

impl Plan {
    /// Reads a plan from its name.
    pub fn parse(name: &str) -> (plan: Option<Plan>)
        ensures
            plan == plan_of(name@),
    {
        if str_eq(name, "monthly") {
            Some(Plan::Monthly)
        } else if str_eq(name, "yearly") {
            Some(Plan::Yearly)
        } else if str_eq(name, "lifetime") {
            Some(Plan::Lifetime)
        } else {
            None
        }
    }

    /// The name of the plan: `Plan::parse` reads it back.
    pub fn as_str(&self) -> (name: &'static str)
        ensures
            plan_of(name@) == Some(*self),
            name@ == self.name(),
    {
        proof {
            lemma_plan_names_differ();
        }
        match self {
            Plan::Monthly => "monthly",
            Plan::Yearly => "yearly",
            Plan::Lifetime => "lifetime",
        }
    }

    /// The name of the plan as a sequence of characters.
    pub open spec fn name(&self) -> Seq<char> {
        match self {
            Plan::Monthly => "monthly"@,
            Plan::Yearly => "yearly"@,
            Plan::Lifetime => "lifetime"@,
        }
    }

    /// The price of the plan in micro-units.
    pub fn price(&self) -> (micros: u64)
        ensures
            micros == price_of(*self),
    {
        match self {
            Plan::Monthly => MONTHLY_PRICE,
            Plan::Yearly => YEARLY_PRICE,
            Plan::Lifetime => LIFETIME_PRICE,
        }
    }
}

impl PaymentMethod {
    /// Reads a rail from its network name or its alias.
    pub fn parse(name: &str) -> (method: Option<PaymentMethod>)
        ensures
            method == method_of(name@),
    {
        if str_eq(name, "usdt_trc20") || str_eq(name, "rail_a") {
            Some(PaymentMethod::UsdtTrc20)
        } else if str_eq(name, "usdt_erc20") || str_eq(name, "rail_b") {
            Some(PaymentMethod::UsdtErc20)
        } else if str_eq(name, "usdt_bep20") || str_eq(name, "rail_c") {
            Some(PaymentMethod::UsdtBep20)
        } else {
            None
        }
    }

    /// The network name of the rail: `PaymentMethod::parse` reads it back.
    pub fn as_str(&self) -> (name: &'static str)
        ensures
            method_of(name@) == Some(*self),
            name@ == self.name(),
    {
        proof {
            lemma_method_names_differ();
        }
        match self {
            PaymentMethod::UsdtTrc20 => "usdt_trc20",
            PaymentMethod::UsdtErc20 => "usdt_erc20",
            PaymentMethod::UsdtBep20 => "usdt_bep20",
        }
    }

    /// The network name of the rail as a sequence of characters.
    pub open spec fn name(&self) -> Seq<char> {
        match self {
            PaymentMethod::UsdtTrc20 => "usdt_trc20"@,
            PaymentMethod::UsdtErc20 => "usdt_erc20"@,
            PaymentMethod::UsdtBep20 => "usdt_bep20"@,
        }
    }

    /// The address that receives payments on the rail.
    pub fn address(&self) -> (address: &'static str)
        ensures
            address@ == address_of(*self),
    {
        match self {
            PaymentMethod::UsdtTrc20 => TRC20_ADDRESS,
            PaymentMethod::UsdtErc20 => ERC20_ADDRESS,
            PaymentMethod::UsdtBep20 => BEP20_ADDRESS,
        }
    }
}

/// The three plan names are three different strings.
pub proof fn lemma_plan_names_differ()
    ensures
        "monthly"@ != "yearly"@,
        "monthly"@ != "lifetime"@,
        "yearly"@ != "lifetime"@,
{
    reveal_strlit("monthly");
    reveal_strlit("yearly");
    reveal_strlit("lifetime");
    assert("monthly"@.len() == 7);
    assert("yearly"@.len() == 6);
    assert("lifetime"@.len() == 8);
}

/// The six rail names and aliases are six different strings.
pub proof fn lemma_method_names_differ()
    ensures
        "usdt_trc20"@ != "usdt_erc20"@,
        "usdt_trc20"@ != "usdt_bep20"@,
        "usdt_erc20"@ != "usdt_bep20"@,
        "usdt_trc20"@ != "rail_b"@,
        "usdt_trc20"@ != "rail_c"@,
        "usdt_erc20"@ != "rail_a"@,
        "usdt_erc20"@ != "rail_c"@,
        "usdt_bep20"@ != "rail_a"@,
        "usdt_bep20"@ != "rail_b"@,
        "rail_a"@ != "rail_b"@,
        "rail_a"@ != "rail_c"@,
        "rail_b"@ != "rail_c"@,
{
    reveal_strlit("usdt_trc20");
    reveal_strlit("usdt_erc20");
    reveal_strlit("usdt_bep20");
    reveal_strlit("rail_a");
    reveal_strlit("rail_b");
    reveal_strlit("rail_c");
    assert("usdt_trc20"@[5] == 't');
    assert("usdt_erc20"@[5] == 'e');
    assert("usdt_bep20"@[5] == 'b');
    assert("usdt_trc20"@.len() == 10);
    assert("usdt_erc20"@.len() == 10);
    assert("usdt_bep20"@.len() == 10);
    assert("rail_a"@.len() == 6);
    assert("rail_b"@.len() == 6);
    assert("rail_c"@.len() == 6);
    assert("rail_a"@[5] == 'a');
    assert("rail_b"@[5] == 'b');
    assert("rail_c"@[5] == 'c');
}

/// Looks up the price of a plan by its name: `None` for a name that
/// identifies no plan.
pub fn price_for_plan(plan: &str) -> (price: Option<u64>)
    ensures
        price == match plan_of(plan@) {
            Some(p) => Some(price_of(p)),
            None => None,
        },
{
    match Plan::parse(plan) {
        Some(p) => Some(p.price()),
        None => None,
    }
}

/// Looks up the receiving address of a rail by its name: `None` for a name
/// that identifies no rail.
pub fn address_for_method(method: &str) -> (address: Option<&'static str>)
    ensures
        match method_of(method@) {
            Some(m) => address matches Some(a) && a@ == address_of(m),
            None => address is None,
        },
{
    match PaymentMethod::parse(method) {
        Some(m) => Some(m.address()),
        None => None,
    }
}

} // verus!
