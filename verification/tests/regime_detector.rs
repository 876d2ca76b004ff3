use dollarbill::analysis::advanced_classifier::MarketRegime;
use dollarbill::analysis::regime_detector::RegimeDetector;
use dollarbill::backtesting::regime_pipeline::regime_label;

const ALL: [MarketRegime; 5] = [
    MarketRegime::LowVol,
    MarketRegime::HighVol,
    MarketRegime::Trending,
    MarketRegime::MeanReverting,
    MarketRegime::EventDriven,
];

#[test]
fn test_all_regimes_return_weight_tables() {
    for regime in ALL {
        let weights = RegimeDetector::strategy_weights(&regime);
        assert!(!weights.is_empty(), "Weight table empty for {:?}", regime);
        for (name, w) in weights {
            assert!(!name.is_empty(), "Empty strategy name in {:?}", regime);
            assert!(w > 0, "Non-positive weight for {} in {:?}", name, regime);
        }
    }
}

#[test]
fn test_weight_for_known_strategy() {
    // 2.0 in hundredths
    let w = RegimeDetector::weight_for(&MarketRegime::HighVol, "Vol Mean Reversion");
    assert_eq!(w, 200);
}

#[test]
fn test_weight_for_unknown_strategy_defaults_to_one() {
    let w = RegimeDetector::weight_for(&MarketRegime::HighVol, "NonExistentStrategy");
    assert_eq!(w, 100);
}

#[test]
fn test_momentum_down_weighted_in_low_vol() {
    let w_low = RegimeDetector::weight_for(&MarketRegime::LowVol, "Momentum");
    let w_trend = RegimeDetector::weight_for(&MarketRegime::Trending, "Momentum");
    assert!(w_trend > w_low, "Momentum should weigh more in Trending than LowVol");
}

#[test]
fn test_mean_reversion_down_weighted_in_trending() {
    let w_trend = RegimeDetector::weight_for(&MarketRegime::Trending, "Mean Reversion");
    let w_mr = RegimeDetector::weight_for(&MarketRegime::MeanReverting, "Mean Reversion");
    assert!(w_mr > w_trend, "Mean Reversion should weigh more in MeanReverting than Trending");
}

#[test]
fn weight_for_agrees_with_table_entries() {
    for regime in ALL {
        for (name, w) in RegimeDetector::strategy_weights(&regime) {
            assert_eq!(RegimeDetector::weight_for(&regime, name), w);
        }
    }
    assert_eq!(RegimeDetector::weight_for(&MarketRegime::Trending, "Mean Reversion"), 30);
    assert_eq!(RegimeDetector::weight_for(&MarketRegime::Trending, "mean reversion"), 100);
}

#[test]
fn sizing_multiplier_values() {
    assert_eq!(RegimeDetector::sizing_multiplier(&MarketRegime::HighVol), 35);
    assert_eq!(RegimeDetector::sizing_multiplier(&MarketRegime::LowVol), 180);
    assert_eq!(RegimeDetector::sizing_multiplier(&MarketRegime::Trending), 100);
    assert_eq!(RegimeDetector::sizing_multiplier(&MarketRegime::MeanReverting), 100);
    assert_eq!(RegimeDetector::sizing_multiplier(&MarketRegime::EventDriven), 50);
}

#[test]
fn regime_labels() {
    assert_eq!(regime_label(&MarketRegime::HighVol), "HighVol");
    assert_eq!(regime_label(&MarketRegime::LowVol), "LowVol");
    assert_eq!(regime_label(&MarketRegime::Trending), "Trending");
    assert_eq!(regime_label(&MarketRegime::MeanReverting), "MeanReverting");
    assert_eq!(regime_label(&MarketRegime::EventDriven), "EventDriven");
}

// Annualised volatility and trend strength in basis points.

#[test]
fn test_scalar_high_vol_regime() {
    assert_eq!(RegimeDetector::detect_from_scalars(4500, 0), MarketRegime::HighVol);
}

#[test]
fn test_scalar_low_vol_regime() {
    assert_eq!(RegimeDetector::detect_from_scalars(1000, 1000), MarketRegime::LowVol);
}

#[test]
fn test_scalar_trending_regime() {
    assert_eq!(RegimeDetector::detect_from_scalars(2500, 8000), MarketRegime::Trending);
    assert_eq!(RegimeDetector::detect_from_scalars(2500, -8000), MarketRegime::Trending);
}

#[test]
fn test_scalar_mean_reverting_regime() {
    assert_eq!(RegimeDetector::detect_from_scalars(2000, 1000), MarketRegime::MeanReverting);
}

#[test]
fn scalar_thresholds_are_strict() {
    assert_eq!(RegimeDetector::detect_from_scalars(4000, 0), MarketRegime::MeanReverting);
    assert_eq!(RegimeDetector::detect_from_scalars(1500, 0), MarketRegime::MeanReverting);
    assert_eq!(RegimeDetector::detect_from_scalars(1000, 3000), MarketRegime::MeanReverting);
    assert_eq!(RegimeDetector::detect_from_scalars(1000, 6001), MarketRegime::Trending);
    assert_eq!(RegimeDetector::detect_from_scalars(i64::MIN, i64::MIN), MarketRegime::Trending);
}
