//! Stock personalities and the strategies that suit them.

use crate::text::string_views;
use vstd::prelude::*;

verus! {

/// Stock personality types based on historical behavior patterns.
#[derive(Debug, Clone, Copy, PartialEq, Eq, Structural)]
pub enum StockPersonality {
    /// High momentum, trend-following stocks (NVDA, PLTR).
    MomentumLeader,
    /// Volatile stocks that tend to revert to mean (TSLA, COIN).
    MeanReverting,
    /// Stable stocks that follow broader market trends (MSFT, GOOGL).
    TrendFollower,
    /// Extremely volatile stocks prone to breakouts.
    VolatileBreaker,
    /// Low volatility, stable accumulation stocks.
    StableAccumulator,
}

/// Best and worst strategies for a personality, in order of preference.
pub open spec fn recommendations(p: StockPersonality) -> (Seq<Seq<char>>, Seq<Seq<char>>) {
    match p {
        StockPersonality::MomentumLeader => (seq!["Short-Term Momentum"@, "Breakout Trading"@, "Trend Following"@], seq!["Long-Term Holding"@, "Mean Reversion"@, "Cash-Secured Puts"@]),
        StockPersonality::MeanReverting => (seq!["Volatility Mean Reversion"@, "Iron Butterfly"@, "Iron Condor"@], seq!["Momentum Trading"@, "Trend Following"@, "Breakout Trading"@]),
        StockPersonality::TrendFollower => (seq!["Medium-Term RSI"@, "Moving Average Crossover"@, "Covered Calls"@], seq!["Short-Term Scalping"@, "High-Frequency Trading"@, "Iron Butterfly"@]),
        StockPersonality::VolatileBreaker => (seq!["Iron Butterfly"@, "Volatility Harvesting"@, "Calendar Spreads"@], seq!["Directional Calls"@, "Directional Puts"@, "Long Options"@]),
        StockPersonality::StableAccumulator => (seq!["Cash-Secured Puts"@, "Covered Calls"@, "Collar Strategy"@], seq!["Long Calls"@, "Speculative Strategies"@, "Iron Butterfly"@]),
    }
}

fn three_strings(a: &str, b: &str, c: &str) -> (r: Vec<String>)
    ensures
        string_views(r@) == seq![a@, b@, c@],
{
    let r = vec![String::from_str(a), String::from_str(b), String::from_str(c)];
    assert(string_views(r@) =~= seq![a@, b@, c@]);
    r
}

/// Strategy recommendations for a personality type: `(best, worst)`.
pub fn strategy_recommendations(personality: &StockPersonality) -> (r: (Vec<String>, Vec<String>))
    ensures
        string_views(r.0@) == recommendations(*personality).0,
        string_views(r.1@) == recommendations(*personality).1,
{
    match *personality {
        StockPersonality::MomentumLeader => (three_strings("Short-Term Momentum", "Breakout Trading", "Trend Following"), three_strings("Long-Term Holding", "Mean Reversion", "Cash-Secured Puts")),
        StockPersonality::MeanReverting => (three_strings("Volatility Mean Reversion", "Iron Butterfly", "Iron Condor"), three_strings("Momentum Trading", "Trend Following", "Breakout Trading")),
        StockPersonality::TrendFollower => (three_strings("Medium-Term RSI", "Moving Average Crossover", "Covered Calls"), three_strings("Short-Term Scalping", "High-Frequency Trading", "Iron Butterfly")),
        StockPersonality::VolatileBreaker => (three_strings("Iron Butterfly", "Volatility Harvesting", "Calendar Spreads"), three_strings("Directional Calls", "Directional Puts", "Long Options")),
        StockPersonality::StableAccumulator => (three_strings("Cash-Secured Puts", "Covered Calls", "Collar Strategy"), three_strings("Long Calls", "Speculative Strategies", "Iron Butterfly")),
    }
}

/// The personality of a stock from its average volatility, trend
/// strength, mean-reversion tendency and momentum sensitivity, all in basis
/// points (`0.50` → `5000`).
pub open spec fn personality_of(vol: int, trend: int, reversion: int, momentum: int) -> StockPersonality {
    if vol > 5000 {
        if momentum > 7000 {
            StockPersonality::MomentumLeader
        } else if reversion > 6000 {
            StockPersonality::MeanReverting
        } else {
            StockPersonality::VolatileBreaker
        }
    } else if vol > 2500 {
        if trend > 6000 {
            StockPersonality::TrendFollower
        } else if reversion > 5000 {
            StockPersonality::MeanReverting
        } else {
            StockPersonality::MomentumLeader
        }
    } else if reversion > 4000 {
        StockPersonality::StableAccumulator
    } else {
        StockPersonality::TrendFollower
    }
}

/// Classify a stock by its metrics in basis points: high volatility
/// (above 50%) splits on momentum then reversion, medium volatility (above
/// 25%) on trend then reversion, low volatility on reversion.
pub fn determine_personality(
    volatility: i64,
    trend_strength: i64,
    reversion_tendency: i64,
    momentum_sensitivity: i64,
) -> (p: StockPersonality)
    ensures
        p == personality_of(
            volatility as int,
            trend_strength as int,
            reversion_tendency as int,
            momentum_sensitivity as int,
        ),
{
    if volatility > 5000 {
        if momentum_sensitivity > 7000 {
            StockPersonality::MomentumLeader
        } else if reversion_tendency > 6000 {
            StockPersonality::MeanReverting
        } else {
            StockPersonality::VolatileBreaker
        }
    } else if volatility > 2500 {
        if trend_strength > 6000 {
            StockPersonality::TrendFollower
        } else if reversion_tendency > 5000 {
            StockPersonality::MeanReverting
        } else {
            StockPersonality::MomentumLeader
        }
    } else if reversion_tendency > 4000 {
        StockPersonality::StableAccumulator
    } else {
        StockPersonality::TrendFollower
    }
}

/// Law: only high-volatility stocks are volatile breakers, and only
/// low-volatility stocks are stable accumulators.
pub proof fn lemma_personality_volatility_bands(vol: int, trend: int, reversion: int, momentum: int)
    ensures
        personality_of(vol, trend, reversion, momentum) == StockPersonality::VolatileBreaker ==> vol > 5000,
        personality_of(vol, trend, reversion, momentum) == StockPersonality::StableAccumulator ==> vol <= 2500,
{
}

/// Law: the classification bands. Above 50% volatility: momentum over 0.70
/// makes a MomentumLeader, otherwise reversion over 0.60 a MeanReverting
/// stock, otherwise a VolatileBreaker. Between 25% and 50%: a trend over
/// 0.60 makes a TrendFollower whatever the reversion and momentum,
/// otherwise reversion over 0.50 a MeanReverting stock, otherwise a
/// MomentumLeader. At most 25%: reversion over 0.40 makes a
/// StableAccumulator, otherwise a TrendFollower.
pub proof fn lemma_personality_bands(vol: int, trend: int, reversion: int, momentum: int)
    ensures
        2500 < vol <= 5000 && trend > 6000 ==> personality_of(vol, trend, reversion, momentum)
            == StockPersonality::TrendFollower,
        2500 < vol <= 5000 && trend <= 6000 && reversion > 5000 ==> personality_of(vol, trend, reversion, momentum)
            == StockPersonality::MeanReverting,
        2500 < vol <= 5000 && trend <= 6000 && reversion <= 5000 ==> personality_of(vol, trend, reversion, momentum)
            == StockPersonality::MomentumLeader,
        vol > 5000 && momentum > 7000 ==> personality_of(vol, trend, reversion, momentum)
            == StockPersonality::MomentumLeader,
        vol > 5000 && momentum <= 7000 && reversion > 6000 ==> personality_of(vol, trend, reversion, momentum)
            == StockPersonality::MeanReverting,
        vol > 5000 && momentum <= 7000 && reversion <= 6000 ==> personality_of(vol, trend, reversion, momentum)
            == StockPersonality::VolatileBreaker,
        vol <= 2500 && reversion > 4000 ==> personality_of(vol, trend, reversion, momentum)
            == StockPersonality::StableAccumulator,
        vol <= 2500 && reversion <= 4000 ==> personality_of(vol, trend, reversion, momentum)
            == StockPersonality::TrendFollower,
{
}

} // verus!
