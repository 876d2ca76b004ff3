use dollarbill::analysis::advanced_classifier::{classify_personality_advanced, PersonalityFeatures};
use dollarbill::analysis::stock_classifier::{determine_personality, strategy_recommendations, StockPersonality};

#[test]
fn recommendations_for_each_personality() {
    let (best, worst) = strategy_recommendations(&StockPersonality::MomentumLeader);
    assert_eq!(best, vec!["Short-Term Momentum", "Breakout Trading", "Trend Following"]);
    assert_eq!(worst, vec!["Long-Term Holding", "Mean Reversion", "Cash-Secured Puts"]);
    let (best, worst) = strategy_recommendations(&StockPersonality::StableAccumulator);
    assert_eq!(best, vec!["Cash-Secured Puts", "Covered Calls", "Collar Strategy"]);
    assert_eq!(worst, vec!["Long Calls", "Speculative Strategies", "Iron Butterfly"]);
    for p in [
        StockPersonality::MeanReverting,
        StockPersonality::TrendFollower,
        StockPersonality::VolatileBreaker,
    ] {
        let (b, w) = strategy_recommendations(&p);
        assert_eq!(b.len(), 3);
        assert_eq!(w.len(), 3);
        assert!(b.iter().all(|s| !w.contains(s)));
    }
}

// Metrics in basis points (0.6 → 6000).
#[test]
fn test_stock_classification() {
    // High volatility momentum leader (like NVDA)
    let p = determine_personality(6000, 8000, 3000, 8000);
    assert_eq!(p, StockPersonality::MomentumLeader);
    assert!(strategy_recommendations(&p).0.contains(&"Short-Term Momentum".to_string()));
    // Mean reverting stock (like TSLA)
    let p = determine_personality(7000, 4000, 7000, 4000);
    assert_eq!(p, StockPersonality::MeanReverting);
    assert!(strategy_recommendations(&p).0.contains(&"Volatility Mean Reversion".to_string()));
}

#[test]
fn personality_bands() {
    assert_eq!(determine_personality(6000, 0, 0, 0), StockPersonality::VolatileBreaker);
    assert_eq!(determine_personality(5000, 7000, 0, 0), StockPersonality::TrendFollower);
    assert_eq!(determine_personality(3000, 0, 5500, 0), StockPersonality::MeanReverting);
    assert_eq!(determine_personality(3000, 0, 0, 0), StockPersonality::MomentumLeader);
    assert_eq!(determine_personality(2000, 0, 4500, 0), StockPersonality::StableAccumulator);
    assert_eq!(determine_personality(2500, 0, 4000, 0), StockPersonality::TrendFollower);
}

fn features(vol: i64, trend: i64, mom: i64, persist: i64, breakout: i64, speed: i64, strength: i64, sr: i64, beta: i64) -> PersonalityFeatures {
    PersonalityFeatures {
        volatility_percentile: vol,
        trend_strength: trend,
        momentum_acceleration: mom,
        trend_persistence: persist,
        breakout_frequency: breakout,
        mean_reversion_speed: speed,
        mean_reversion_strength: strength,
        support_resistance_strength: sr,
        beta_stability: beta,
    }
}

#[test]
fn advanced_classifier_momentum_leader() {
    let f = features(8000, 8000, 8000, 8000, 7000, 2000, 2000, 3000, 5000);
    assert_eq!(classify_personality_advanced(&f), (StockPersonality::MomentumLeader, 90));
}

#[test]
fn advanced_classifier_all_zero_features() {
    let f = features(0, 0, 0, 0, 0, 0, 0, 0, 0);
    assert_eq!(classify_personality_advanced(&f), (StockPersonality::StableAccumulator, 30));
}

#[test]
fn advanced_classifier_tie_goes_to_later_personality() {
    let f = features(5000, 0, 7000, 5000, 0, 8000, 0, 0, 5000);
    assert_eq!(classify_personality_advanced(&f), (StockPersonality::MeanReverting, 30));
}

#[test]
fn advanced_classifier_stable_accumulator() {
    let f = features(3500, 5000, 0, 5000, 0, 0, 0, 9000, 9000);
    let (p, c) = classify_personality_advanced(&f);
    assert_eq!(p, StockPersonality::StableAccumulator);
    assert_eq!(c, 90);
}
