use dollarbill::backtesting::liquidity::{LiquidityTier, MidPriceImpact};

#[test]
fn all_tiers_most_to_least_liquid() {
    assert_eq!(
        LiquidityTier::all_tiers(),
        [
            LiquidityTier::MegaCap,
            LiquidityTier::LargeCap,
            LiquidityTier::MidCap,
            LiquidityTier::SmallCap,
            LiquidityTier::MicroCap
        ]
    );
}

#[test]
fn tier_labels() {
    assert_eq!(LiquidityTier::MegaCap.label(), "MegaCap  (>$500B)");
    assert_eq!(LiquidityTier::LargeCap.label(), "LargeCap ($50B-$500B)");
    assert_eq!(LiquidityTier::MidCap.label(), "MidCap   ($2B-$50B)");
    assert_eq!(LiquidityTier::SmallCap.label(), "SmallCap ($300M-$2B)");
    assert_eq!(LiquidityTier::MicroCap.label(), "MicroCap (<$300M)");
}

#[test]
fn tier_parameters_grow_with_illiquidity() {
    let tiers = LiquidityTier::all_tiers();
    let bps: Vec<u32> = tiers.iter().map(|t| t.base_half_spread_bps()).collect();
    assert_eq!(bps, vec![3, 10, 25, 70, 200]);
    let lambda: Vec<u32> = tiers.iter().map(|t| t.impact_coefficient()).collect();
    assert_eq!(lambda, vec![3, 8, 20, 50, 120]);
    let perm: Vec<u32> = tiers.iter().map(|t| t.permanent_fraction()).collect();
    assert_eq!(perm, vec![50, 55, 60, 65, 70]);
}

#[test]
fn for_symbol_known_tickers_any_case() {
    let spy = MidPriceImpact::for_symbol("spy").unwrap();
    assert_eq!(spy.tier, LiquidityTier::MegaCap);
    assert_eq!(spy.avg_daily_value, 30_000_000_000);
    let pltr = MidPriceImpact::for_symbol("Pltr").unwrap();
    assert_eq!(pltr.tier, LiquidityTier::LargeCap);
    assert_eq!(pltr.avg_daily_value, 400_000_000);
    assert_eq!(MidPriceImpact::for_symbol("GOOGL").unwrap().avg_daily_value, 2_000_000_000);
}

#[test]
fn for_symbol_unknown_ticker_is_none() {
    assert!(MidPriceImpact::for_symbol("XYZ").is_none());
    assert!(MidPriceImpact::for_symbol("").is_none());
    assert!(MidPriceImpact::for_upper_symbol("spy").is_none());
    assert_eq!(MidPriceImpact::for_upper_symbol("TSLA"), Some(MidPriceImpact::new(LiquidityTier::LargeCap, 1_500_000_000)));
}
