//! Market regime classes and the feature-scoring personality classifier.
//!
//! Features are in basis points (`0.75` → `7500`); scores in tenths of a
//! point (`2.5` → `25`); confidence in hundredths (`0.85` → `85`).

use crate::analysis::stock_classifier::StockPersonality;
use vstd::prelude::*;

verus! {

/// Market regime classification for context-aware analysis.
#[derive(Debug, Clone, Copy, PartialEq, Eq, Hash, Structural)]
pub enum MarketRegime {
    /// Calm markets.
    LowVol,
    /// Stressed markets.
    HighVol,
    /// Strong directional momentum.
    Trending,
    /// Range-bound, choppy.
    MeanReverting,
    /// Earnings/news dominated.
    EventDriven,
}

/// The features the personality classifier scores, in basis points.
#[derive(Debug, Clone, Copy, PartialEq, Eq, Structural)]
pub struct PersonalityFeatures {
    /// Volatility rank against its own history (0–10000).
    pub volatility_percentile: i64,
    /// Directional consistency (0–10000).
    pub trend_strength: i64,
    /// Rate of change of momentum.
    pub momentum_acceleration: i64,
    /// How long trends last (0–10000).
    pub trend_persistence: i64,
    /// Rate of range breakouts.
    pub breakout_frequency: i64,
    /// How fast the price reverts (0–10000).
    pub mean_reversion_speed: i64,
    /// How much the price reverts (0–10000).
    pub mean_reversion_strength: i64,
    /// Strength of support and resistance levels.
    pub support_resistance_strength: i64,
    /// Stability of the market beta (0–10000).
    pub beta_stability: i64,
}

/// `points` when `cond` holds, else nothing.
pub open spec fn award(cond: bool, points: int) -> int {
    if cond {
        points
    } else {
        0
    }
}

/// MomentumLeader score: momentum, trend persistence, volatility, breakouts.
pub open spec fn momentum_score(f: PersonalityFeatures) -> int {
    award(f.momentum_acceleration > 6000, 30) + award(f.trend_persistence > 7000, 25) + award(
        f.volatility_percentile > 7500,
        20,
    ) + award(f.breakout_frequency > 6000, 15)
}

/// MeanReverting score: reversion speed and strength, support and
/// resistance, short-lived trends.
pub open spec fn reverting_score(f: PersonalityFeatures) -> int {
    award(f.mean_reversion_speed > 7000, 30) + award(f.mean_reversion_strength > 6000, 25) + award(
        f.support_resistance_strength > 6000,
        20,
    ) + award(f.trend_persistence < 4000, 15)
}

/// TrendFollower score: sustained trends, medium volatility, stable beta.
pub open spec fn trend_score(f: PersonalityFeatures) -> int {
    award(f.trend_strength > 7000 && f.trend_persistence > 6000, 30) + award(
        f.volatility_percentile > 3000 && f.volatility_percentile < 8000,
        20,
    ) + award(f.beta_stability > 7000, 15)
}

/// VolatileBreaker score: extreme volatility, breakouts, unstable beta.
pub open spec fn breaker_score(f: PersonalityFeatures) -> int {
    award(f.volatility_percentile > 9000, 30) + award(f.breakout_frequency > 7000, 25) + award(
        f.beta_stability < 4000,
        20,
    )
}

/// StableAccumulator score: low volatility, steady trends, stable beta,
/// support and resistance.
pub open spec fn stable_score(f: PersonalityFeatures) -> int {
    award(f.volatility_percentile < 4000, 30) + award(
        f.trend_strength > 4000 && f.volatility_percentile < 6000,
        25,
    ) + award(f.beta_stability > 8000, 20) + award(f.support_resistance_strength > 5000, 15)
}

/// The five personality scores in tenths of a point, in the order
/// MomentumLeader, MeanReverting, TrendFollower, VolatileBreaker,
/// StableAccumulator.
pub open spec fn personality_scores(f: PersonalityFeatures) -> Seq<int> {
    seq![momentum_score(f), reverting_score(f), trend_score(f), breaker_score(f), stable_score(f)]
}

/// Index of the last maximum of a non-empty sequence (ties go to the later
/// entry).
pub open spec fn last_max_index(s: Seq<int>) -> int
    decreases s.len(),
{
    if s.len() <= 1 {
        0
    } else {
        let j = last_max_index(s.drop_last());
        if s.last() >= s[j] {
            s.len() - 1
        } else {
            j
        }
    }
}

/// The personality at position `i` of the score order.
pub open spec fn personality_at(i: int) -> StockPersonality {
    if i == 0 {
        StockPersonality::MomentumLeader
    } else if i == 1 {
        StockPersonality::MeanReverting
    } else if i == 2 {
        StockPersonality::TrendFollower
    } else if i == 3 {
        StockPersonality::VolatileBreaker
    } else {
        StockPersonality::StableAccumulator
    }
}

/// The classification: the best-scoring personality (the later one on a
/// tie) and the confidence `min(score / 10 points, 1)` in hundredths.
pub open spec fn classify_features(f: PersonalityFeatures) -> (StockPersonality, int) {
    let s = personality_scores(f);
    let i = last_max_index(s);
    (personality_at(i), if s[i] < 100 { s[i] } else { 100 })
}

fn award_if(cond: bool, points: u32) -> (r: u32)
    ensures
        r == award(cond, points as int),
{
    if cond {
        points
    } else {
        0
    }
}

fn momentum_points(f: &PersonalityFeatures) -> (r: u32)
    ensures
        r == momentum_score(*f),
{
    award_if(f.momentum_acceleration > 6000, 30) + award_if(f.trend_persistence > 7000, 25) + award_if(
        f.volatility_percentile > 7500,
        20,
    ) + award_if(f.breakout_frequency > 6000, 15)
}

fn reverting_points(f: &PersonalityFeatures) -> (r: u32)
    ensures
        r == reverting_score(*f),
{
    award_if(f.mean_reversion_speed > 7000, 30) + award_if(f.mean_reversion_strength > 6000, 25) + award_if(
        f.support_resistance_strength > 6000,
        20,
    ) + award_if(f.trend_persistence < 4000, 15)
}

fn trend_points(f: &PersonalityFeatures) -> (r: u32)
    ensures
        r == trend_score(*f),
{
    award_if(f.trend_strength > 7000 && f.trend_persistence > 6000, 30) + award_if(
        f.volatility_percentile > 3000 && f.volatility_percentile < 8000,
        20,
    ) + award_if(f.beta_stability > 7000, 15)
}

fn breaker_points(f: &PersonalityFeatures) -> (r: u32)
    ensures
        r == breaker_score(*f),
{
    award_if(f.volatility_percentile > 9000, 30) + award_if(f.breakout_frequency > 7000, 25) + award_if(
        f.beta_stability < 4000,
        20,
    )
}

fn stable_points(f: &PersonalityFeatures) -> (r: u32)
    ensures
        r == stable_score(*f),
{
    award_if(f.volatility_percentile < 4000, 30) + award_if(
        f.trend_strength > 4000 && f.volatility_percentile < 6000,
        25,
    ) + award_if(f.beta_stability > 8000, 20) + award_if(f.support_resistance_strength > 5000, 15)
}

fn personality_score_array(f: &PersonalityFeatures) -> (r: [u32; 5])
    ensures
        forall|k: int| 0 <= k < 5 ==> r@[k] as int == #[trigger] personality_scores(*f)[k],
{
    let r = [momentum_points(f), reverting_points(f), trend_points(f), breaker_points(f), stable_points(f)];
    assert(r@ =~= seq![r[0], r[1], r[2], r[3], r[4]]);
    r
}

fn last_max_position(scores: &[u32; 5], Ghost(spec_scores): Ghost<Seq<int>>) -> (best: usize)
    requires
        spec_scores.len() == 5,
        forall|k: int| 0 <= k < 5 ==> scores@[k] as int == #[trigger] spec_scores[k],
    ensures
        best as int == last_max_index(spec_scores),
        best < 5,
{
    let mut best: usize = 0;
    let mut i: usize = 1;
    while i < 5
        invariant
            1 <= i <= 5,
            best < i,
            spec_scores.len() == 5,
            forall|k: int| 0 <= k < 5 ==> scores@[k] as int == #[trigger] spec_scores[k],
            best as int == last_max_index(spec_scores.subrange(0, i as int)),
        decreases 5 - i,
    {
        proof {
            let pre = spec_scores.subrange(0, i + 1);
            assert(pre.drop_last() =~= spec_scores.subrange(0, i as int));
            assert(pre.last() == spec_scores[i as int]);
            assert(pre[best as int] == spec_scores[best as int]);
        }
        if scores[i] >= scores[best] {
            best = i;
        }
        i = i + 1;
    }
    assert(spec_scores.subrange(0, 5) =~= spec_scores);
    best
}

/// Score the features against each personality profile and return the
/// best match with its confidence (hundredths).
pub fn classify_personality_advanced(features: &PersonalityFeatures) -> (r: (StockPersonality, u32))
    ensures
        r.0 == classify_features(*features).0,
        r.1 == classify_features(*features).1,
{
    let scores = personality_score_array(features);
    let ghost spec_scores = personality_scores(*features);
    let best = last_max_position(&scores, Ghost(spec_scores));
    let personality = if best == 0 {
        StockPersonality::MomentumLeader
    } else if best == 1 {
        StockPersonality::MeanReverting
    } else if best == 2 {
        StockPersonality::TrendFollower
    } else if best == 3 {
        StockPersonality::VolatileBreaker
    } else {
        StockPersonality::StableAccumulator
    };
    let top = scores[best];
    let confidence = if top < 100 {
        top
    } else {
        100
    };
    (personality, confidence)
}

/// Law: the chosen personality scores at least as high as every other,
/// and strictly higher than every personality listed after it.
pub proof fn lemma_last_max_index(s: Seq<int>)
    requires
        s.len() >= 1,
    ensures
        0 <= last_max_index(s) < s.len(),
        forall|k: int| 0 <= k < s.len() ==> #[trigger] s[k] <= s[last_max_index(s)],
        forall|k: int| last_max_index(s) < k < s.len() ==> #[trigger] s[k] < s[last_max_index(s)],
    decreases s.len(),
{
    if s.len() > 1 {
        let t = s.drop_last();
        lemma_last_max_index(t);
        let j = last_max_index(t);
        assert forall|k: int| 0 <= k < t.len() implies t[k] == s[k] by {}
    }
}

/// Law: the advanced classifier returns the personality whose own profile
/// scores best. The returned personality's score (momentum_score for a
/// MomentumLeader, reverting_score for MeanReverting, trend_score for a
/// TrendFollower, breaker_score for a VolatileBreaker, stable_score for a
/// StableAccumulator) is at least every other score; a personality whose
/// score is strictly above all four others is the one returned; on a tie
/// the later personality in the order MomentumLeader, MeanReverting,
/// TrendFollower, VolatileBreaker, StableAccumulator wins, so the returned
/// score is strictly above every score after it; and the confidence is that
/// best score capped at 100.
pub proof fn lemma_classifier_picks_best_profile(f: PersonalityFeatures)
    ensures
        ({
            let (p, c) = classify_features(f);
            let (ml, mr, tf, vb, sa) = (
                momentum_score(f),
                reverting_score(f),
                trend_score(f),
                breaker_score(f),
                stable_score(f),
            );
            let best = if p == StockPersonality::MomentumLeader {
                ml
            } else if p == StockPersonality::MeanReverting {
                mr
            } else if p == StockPersonality::TrendFollower {
                tf
            } else if p == StockPersonality::VolatileBreaker {
                vb
            } else {
                sa
            };
            &&& best >= ml && best >= mr && best >= tf && best >= vb && best >= sa
            &&& c == (if best < 100 { best } else { 100 })
            &&& (p == StockPersonality::MomentumLeader ==> ml > mr && ml > tf && ml > vb && ml > sa)
            &&& (p == StockPersonality::MeanReverting ==> mr > tf && mr > vb && mr > sa)
            &&& (p == StockPersonality::TrendFollower ==> tf > vb && tf > sa)
            &&& (p == StockPersonality::VolatileBreaker ==> vb > sa)
            &&& (ml > mr && ml > tf && ml > vb && ml > sa ==> p == StockPersonality::MomentumLeader)
            &&& (mr > ml && mr > tf && mr > vb && mr > sa ==> p == StockPersonality::MeanReverting)
            &&& (tf > ml && tf > mr && tf > vb && tf > sa ==> p == StockPersonality::TrendFollower)
            &&& (vb > ml && vb > mr && vb > tf && vb > sa ==> p == StockPersonality::VolatileBreaker)
            &&& (sa > ml && sa > mr && sa > tf && sa > vb ==> p == StockPersonality::StableAccumulator)
        }),
{
    let s = personality_scores(f);
    lemma_last_max_index(s);
    let i = last_max_index(s);
    assert(s[0] == momentum_score(f));
    assert(s[1] == reverting_score(f));
    assert(s[2] == trend_score(f));
    assert(s[3] == breaker_score(f));
    assert(s[4] == stable_score(f));
    assert(s[0] <= s[i] && s[1] <= s[i] && s[2] <= s[i] && s[3] <= s[i] && s[4] <= s[i]);
}

} // verus!
