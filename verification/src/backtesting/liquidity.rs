//! Liquidity tier classification of underlyings and the per-symbol
//! parameters of the √-participation mid-price impact model.
//!
//! The tier parameters are exact integers here: half-spreads in basis points,
//! Kyle's λ and the permanent fraction in hundredths. Average daily traded
//! value is in whole dollars.

use crate::text::str_equal;
use vstd::prelude::*;

verus! {

/// Market-cap / liquidity classification for an underlying.
#[derive(Debug, Clone, Copy, PartialEq, Eq, Structural)]
pub enum LiquidityTier {
    /// >$500 B market cap, >$2 B avg daily value.
    MegaCap,
    /// $50 B – $500 B market cap, $200 M – $2 B ADV.
    LargeCap,
    /// $2 B – $50 B market cap, $10 M – $200 M ADV.
    MidCap,
    /// $300 M – $2 B market cap, $1 M – $10 M ADV.
    SmallCap,
    /// <$300 M market cap, <$1 M ADV.
    MicroCap,
}

/// Report label of a tier.
pub open spec fn tier_label(t: LiquidityTier) -> Seq<char> {
    match t {
        LiquidityTier::MegaCap => "MegaCap  (>$500B)"@,
        LiquidityTier::LargeCap => "LargeCap ($50B-$500B)"@,
        LiquidityTier::MidCap => "MidCap   ($2B-$50B)"@,
        LiquidityTier::SmallCap => "SmallCap ($300M-$2B)"@,
        LiquidityTier::MicroCap => "MicroCap (<$300M)"@,
    }
}

/// Intrinsic one-way half-spread of a tier, in basis points.
pub open spec fn tier_half_spread_bps(t: LiquidityTier) -> nat {
    match t {
        LiquidityTier::MegaCap => 3,
        LiquidityTier::LargeCap => 10,
        LiquidityTier::MidCap => 25,
        LiquidityTier::SmallCap => 70,
        LiquidityTier::MicroCap => 200,
    }
}

/// Kyle's λ of a tier, in hundredths.
pub open spec fn tier_impact_hundredths(t: LiquidityTier) -> nat {
    match t {
        LiquidityTier::MegaCap => 3,
        LiquidityTier::LargeCap => 8,
        LiquidityTier::MidCap => 20,
        LiquidityTier::SmallCap => 50,
        LiquidityTier::MicroCap => 120,
    }
}

/// Permanent fraction of the mid-price impact of a tier, in hundredths.
pub open spec fn tier_permanent_hundredths(t: LiquidityTier) -> nat {
    match t {
        LiquidityTier::MegaCap => 50,
        LiquidityTier::LargeCap => 55,
        LiquidityTier::MidCap => 60,
        LiquidityTier::SmallCap => 65,
        LiquidityTier::MicroCap => 70,
    }
}

/// Position of a tier from most (0) to least (4) liquid.
pub open spec fn tier_rank(t: LiquidityTier) -> nat {
    match t {
        LiquidityTier::MegaCap => 0,
        LiquidityTier::LargeCap => 1,
        LiquidityTier::MidCap => 2,
        LiquidityTier::SmallCap => 3,
        LiquidityTier::MicroCap => 4,
    }
}

impl LiquidityTier {
    /// Intrinsic one-way half-spread for a single-contract order, in basis points.
    pub fn base_half_spread_bps(&self) -> (r: u32)
        ensures
            r == tier_half_spread_bps(*self),
    {
        match self {
            LiquidityTier::MegaCap => 3,
            LiquidityTier::LargeCap => 10,
            LiquidityTier::MidCap => 25,
            LiquidityTier::SmallCap => 70,
            LiquidityTier::MicroCap => 200,
        }
    }

    /// Kyle's lambda (λ) in hundredths: the mid price moves by
    /// `λ × √(order_value / ADV) × mid`.
    pub fn impact_coefficient(&self) -> (r: u32)
        ensures
            r == tier_impact_hundredths(*self),
    {
        match self {
            LiquidityTier::MegaCap => 3,
            LiquidityTier::LargeCap => 8,
            LiquidityTier::MidCap => 20,
            LiquidityTier::SmallCap => 50,
            LiquidityTier::MicroCap => 120,
        }
    }

    /// Fraction of the mid-price impact that is permanent, in hundredths.
    pub fn permanent_fraction(&self) -> (r: u32)
        ensures
            r == tier_permanent_hundredths(*self),
    {
        match self {
            LiquidityTier::MegaCap => 50,
            LiquidityTier::LargeCap => 55,
            LiquidityTier::MidCap => 60,
            LiquidityTier::SmallCap => 65,
            LiquidityTier::MicroCap => 70,
        }
    }

    /// All tiers, from most to least liquid.
    pub fn all_tiers() -> (r: [LiquidityTier; 5])
        ensures
            r@ == seq![
                LiquidityTier::MegaCap,
                LiquidityTier::LargeCap,
                LiquidityTier::MidCap,
                LiquidityTier::SmallCap,
                LiquidityTier::MicroCap,
            ],
            forall|i: int| 0 <= i < 5 ==> tier_rank(#[trigger] r@[i]) == i,
    {
        let r = [
            LiquidityTier::MegaCap,
            LiquidityTier::LargeCap,
            LiquidityTier::MidCap,
            LiquidityTier::SmallCap,
            LiquidityTier::MicroCap,
        ];
        assert(r@ =~= seq![
            LiquidityTier::MegaCap,
            LiquidityTier::LargeCap,
            LiquidityTier::MidCap,
            LiquidityTier::SmallCap,
            LiquidityTier::MicroCap,
        ]);
        r
    }

    /// Human-readable label for use in reports.
    pub fn label(&self) -> (r: &'static str)
        ensures
            r@ == tier_label(*self),
    {
        match self {
            LiquidityTier::MegaCap => "MegaCap  (>$500B)",
            LiquidityTier::LargeCap => "LargeCap ($50B-$500B)",
            LiquidityTier::MidCap => "MidCap   ($2B-$50B)",
            LiquidityTier::SmallCap => "SmallCap ($300M-$2B)",
            LiquidityTier::MicroCap => "MicroCap (<$300M)",
        }
    }
}

/// Parameters of the mid-price impact model for one underlying.
#[derive(Debug, Clone, Copy, PartialEq, Eq, Structural)]
pub struct MidPriceImpact {
    /// Liquidity tier of the underlying, driving λ and the permanent fraction.
    pub tier: LiquidityTier,
    /// Average daily value traded, in whole dollars.
    pub avg_daily_value: u64,
}

/// The representative tier and average daily value of a known ticker,
/// looked up exactly (the caller upper-cases first).
pub open spec fn known_ticker(sym: Seq<char>) -> Option<(LiquidityTier, u64)> {
    if sym == "SPY"@ {
        Some((LiquidityTier::MegaCap, 30_000_000_000u64))
    } else if sym == "QQQ"@ {
        Some((LiquidityTier::MegaCap, 15_000_000_000u64))
    } else if sym == "IWM"@ {
        Some((LiquidityTier::MegaCap, 4_000_000_000u64))
    } else if sym == "AAPL"@ {
        Some((LiquidityTier::MegaCap, 6_000_000_000u64))
    } else if sym == "MSFT"@ {
        Some((LiquidityTier::MegaCap, 4_000_000_000u64))
    } else if sym == "NVDA"@ {
        Some((LiquidityTier::MegaCap, 12_000_000_000u64))
    } else if sym == "AMZN"@ {
        Some((LiquidityTier::MegaCap, 3_000_000_000u64))
    } else if sym == "META"@ {
        Some((LiquidityTier::MegaCap, 2_500_000_000u64))
    } else if sym == "GOOGL"@ {
        Some((LiquidityTier::MegaCap, 2_000_000_000u64))
    } else if sym == "GLD"@ {
        Some((LiquidityTier::LargeCap, 1_000_000_000u64))
    } else if sym == "TLT"@ {
        Some((LiquidityTier::LargeCap, 500_000_000u64))
    } else if sym == "TSLA"@ {
        Some((LiquidityTier::LargeCap, 1_500_000_000u64))
    } else if sym == "AMD"@ {
        Some((LiquidityTier::LargeCap, 1_200_000_000u64))
    } else if sym == "QCOM"@ {
        Some((LiquidityTier::LargeCap, 600_000_000u64))
    } else if sym == "COIN"@ {
        Some((LiquidityTier::LargeCap, 500_000_000u64))
    } else if sym == "PLTR"@ {
        Some((LiquidityTier::LargeCap, 400_000_000u64))
    } else {
        None
    }
}

/// The impact parameters that `known_ticker` gives for `sym`, if any.
pub open spec fn impact_for(sym: Seq<char>) -> Option<MidPriceImpact> {
    match known_ticker(sym) {
        Some((tier, adv)) => Some(MidPriceImpact { tier, avg_daily_value: adv }),
        None => None,
    }
}

/// What `str::to_uppercase` returns for a string (Unicode upper-case mapping).
pub uninterp spec fn uppercase_of(s: Seq<char>) -> Seq<char>;

/// Calls `str::to_uppercase`. Claimed: the result is the fixed Unicode
/// upper-case mapping of the argument, a function of the argument alone.
#[verifier::external_body]
fn to_uppercase(s: &str) -> (r: String)
    ensures
        r@ == uppercase_of(s@),
{
    s.to_uppercase()
}

impl MidPriceImpact {
    /// An impact calculator with explicit tier and daily trading value.
    pub fn new(tier: LiquidityTier, avg_daily_value: u64) -> (r: MidPriceImpact)
        ensures
            r.tier == tier,
            r.avg_daily_value == avg_daily_value,
    {
        MidPriceImpact { tier, avg_daily_value }
    }

    /// Parameters of an already upper-cased ticker: `None` for an unknown one.
    pub fn for_upper_symbol(upper: &str) -> (r: Option<MidPriceImpact>)
        ensures
            r == impact_for(upper@),
    {
        let (tier, adv): (LiquidityTier, u64) = if str_equal(upper, "SPY") {
            (LiquidityTier::MegaCap, 30_000_000_000)
        } else if str_equal(upper, "QQQ") {
            (LiquidityTier::MegaCap, 15_000_000_000)
        } else if str_equal(upper, "IWM") {
            (LiquidityTier::MegaCap, 4_000_000_000)
        } else if str_equal(upper, "AAPL") {
            (LiquidityTier::MegaCap, 6_000_000_000)
        } else if str_equal(upper, "MSFT") {
            (LiquidityTier::MegaCap, 4_000_000_000)
        } else if str_equal(upper, "NVDA") {
            (LiquidityTier::MegaCap, 12_000_000_000)
        } else if str_equal(upper, "AMZN") {
            (LiquidityTier::MegaCap, 3_000_000_000)
        } else if str_equal(upper, "META") {
            (LiquidityTier::MegaCap, 2_500_000_000)
        } else if str_equal(upper, "GOOGL") {
            (LiquidityTier::MegaCap, 2_000_000_000)
        } else if str_equal(upper, "GLD") {
            (LiquidityTier::LargeCap, 1_000_000_000)
        } else if str_equal(upper, "TLT") {
            (LiquidityTier::LargeCap, 500_000_000)
        } else if str_equal(upper, "TSLA") {
            (LiquidityTier::LargeCap, 1_500_000_000)
        } else if str_equal(upper, "AMD") {
            (LiquidityTier::LargeCap, 1_200_000_000)
        } else if str_equal(upper, "QCOM") {
            (LiquidityTier::LargeCap, 600_000_000)
        } else if str_equal(upper, "COIN") {
            (LiquidityTier::LargeCap, 500_000_000)
        } else if str_equal(upper, "PLTR") {
            (LiquidityTier::LargeCap, 400_000_000)
        } else {
            return None;
        };
        Some(MidPriceImpact::new(tier, adv))
    }

    /// Convenience constructor from well-known ticker symbols, matched
    /// without regard to case. `None` for unknown tickers.
    pub fn for_symbol(symbol: &str) -> (r: Option<MidPriceImpact>)
        ensures
            r == impact_for(uppercase_of(symbol@)),
    {
        let upper = to_uppercase(symbol);
        MidPriceImpact::for_upper_symbol(upper.as_str())
    }
}

/// Law: the tiers are ordered from most to least liquid: a less liquid tier
/// has a wider half-spread, a larger impact coefficient and a larger
/// permanent fraction.
pub proof fn lemma_tier_parameters_monotone(a: LiquidityTier, b: LiquidityTier)
    requires
        tier_rank(a) < tier_rank(b),
    ensures
        tier_half_spread_bps(a) < tier_half_spread_bps(b),
        tier_impact_hundredths(a) < tier_impact_hundredths(b),
        tier_permanent_hundredths(a) < tier_permanent_hundredths(b),
{
}

} // verus!
