//! Regime-dependent strategy weights and position-sizing multipliers.
//!
//! Weights and multipliers are expressed in hundredths (`1.50` → `150`);
//! annualised volatility and trend strength in basis points (`0.40` → `4000`).

use crate::analysis::advanced_classifier::MarketRegime;
use crate::text::str_equal;
use vstd::prelude::*;

verus! {

/// Lightweight market regime classifier.
pub struct RegimeDetector;

/// The per-strategy weight table of a regime, in hundredths.
pub open spec fn weight_table(regime: MarketRegime) -> Seq<(Seq<char>, u32)> {
    match regime {
        MarketRegime::LowVol => seq![
            ("Cash-Secured Puts"@, 200u32),
            ("Mean Reversion"@, 200u32),
            ("Vol Mean Reversion"@, 150u32),
            ("Vol Arbitrage"@, 50u32),
            ("Momentum"@, 50u32),
            ("Breakout"@, 50u32),
        ],
        MarketRegime::HighVol => seq![
            ("Vol Mean Reversion"@, 200u32),
            ("Vol Arbitrage"@, 200u32),
            ("Cash-Secured Puts"@, 150u32),
            ("Mean Reversion"@, 50u32),
            ("Momentum"@, 70u32),
            ("Breakout"@, 70u32),
        ],
        MarketRegime::Trending => seq![
            ("Momentum"@, 200u32),
            ("Breakout"@, 200u32),
            ("Vol Arbitrage"@, 100u32),
            ("Vol Mean Reversion"@, 70u32),
            ("Mean Reversion"@, 30u32),
            ("Cash-Secured Puts"@, 50u32),
        ],
        MarketRegime::MeanReverting => seq![
            ("Mean Reversion"@, 200u32),
            ("Vol Mean Reversion"@, 150u32),
            ("Cash-Secured Puts"@, 150u32),
            ("Vol Arbitrage"@, 70u32),
            ("Momentum"@, 50u32),
            ("Breakout"@, 30u32),
        ],
        MarketRegime::EventDriven => seq![
            ("Vol Arbitrage"@, 200u32),
            ("Vol Mean Reversion"@, 150u32),
            ("Momentum"@, 100u32),
            ("Mean Reversion"@, 50u32),
            ("Cash-Secured Puts"@, 50u32),
            ("Breakout"@, 50u32),
        ],
    }
}

/// Weight of the first table entry named `name`, or 100 (= 1.0) when absent.
pub open spec fn lookup_weight(table: Seq<(Seq<char>, u32)>, name: Seq<char>) -> u32
    decreases table.len(),
{
    if table.len() == 0 {
        100
    } else if table[0].0 == name {
        table[0].1
    } else {
        lookup_weight(table.drop_first(), name)
    }
}

/// Global position-sizing multiplier of a regime, in hundredths.
pub open spec fn spec_sizing_multiplier(regime: MarketRegime) -> u32 {
    match regime {
        MarketRegime::HighVol => 35,
        MarketRegime::LowVol => 180,
        MarketRegime::Trending => 100,
        MarketRegime::MeanReverting => 100,
        MarketRegime::EventDriven => 50,
    }
}

pub open spec fn table_view(v: Seq<(&str, u32)>) -> Seq<(Seq<char>, u32)> {
    v.map_values(|e: (&str, u32)| (e.0@, e.1))
}

/// The regime of an annualised volatility and a trend strength, both in
/// basis points: above 40% volatility HighVol; below 15% with |trend| under
/// 0.30 LowVol; |trend| above 0.60 Trending; otherwise MeanReverting.
pub open spec fn classify_regime(ann_vol: int, trend: int) -> MarketRegime {
    if ann_vol > 4000 {
        MarketRegime::HighVol
    } else if ann_vol < 1500 && -3000 < trend < 3000 {
        MarketRegime::LowVol
    } else if trend > 6000 || trend < -6000 {
        MarketRegime::Trending
    } else {
        MarketRegime::MeanReverting
    }
}

impl RegimeDetector {
    /// Classify pre-computed scalars: annualised volatility and trend
    /// strength in basis points.
    pub fn detect_from_scalars(ann_vol: i64, trend_strength: i64) -> (r: MarketRegime)
        ensures
            r == classify_regime(ann_vol as int, trend_strength as int),
    {
        if ann_vol > 4000 {
            MarketRegime::HighVol
        } else if ann_vol < 1500 && -3000 < trend_strength && trend_strength < 3000 {
            MarketRegime::LowVol
        } else if trend_strength > 6000 || trend_strength < -6000 {
            MarketRegime::Trending
        } else {
            MarketRegime::MeanReverting
        }
    }

    /// Per-strategy weight multipliers (hundredths) for a regime. Strategy
    /// names not listed weigh 100 (= 1.0).
    pub fn strategy_weights(regime: &MarketRegime) -> (r: Vec<(&'static str, u32)>)
        ensures
            table_view(r@) == weight_table(*regime),
    {
        let r = match *regime {
            MarketRegime::LowVol => vec![
                ("Cash-Secured Puts", 200u32),
                ("Mean Reversion", 200u32),
                ("Vol Mean Reversion", 150u32),
                ("Vol Arbitrage", 50u32),
                ("Momentum", 50u32),
                ("Breakout", 50u32),
            ],
            MarketRegime::HighVol => vec![
                ("Vol Mean Reversion", 200u32),
                ("Vol Arbitrage", 200u32),
                ("Cash-Secured Puts", 150u32),
                ("Mean Reversion", 50u32),
                ("Momentum", 70u32),
                ("Breakout", 70u32),
            ],
            MarketRegime::Trending => vec![
                ("Momentum", 200u32),
                ("Breakout", 200u32),
                ("Vol Arbitrage", 100u32),
                ("Vol Mean Reversion", 70u32),
                ("Mean Reversion", 30u32),
                ("Cash-Secured Puts", 50u32),
            ],
            MarketRegime::MeanReverting => vec![
                ("Mean Reversion", 200u32),
                ("Vol Mean Reversion", 150u32),
                ("Cash-Secured Puts", 150u32),
                ("Vol Arbitrage", 70u32),
                ("Momentum", 50u32),
                ("Breakout", 30u32),
            ],
            MarketRegime::EventDriven => vec![
                ("Vol Arbitrage", 200u32),
                ("Vol Mean Reversion", 150u32),
                ("Momentum", 100u32),
                ("Mean Reversion", 50u32),
                ("Cash-Secured Puts", 50u32),
                ("Breakout", 50u32),
            ],
        };
        assert(table_view(r@) =~= weight_table(*regime));
        r
    }

    /// The regime weight (hundredths) of a single strategy name; 100 (= 1.0)
    /// when the strategy is not in the table.
    pub fn weight_for(regime: &MarketRegime, strategy_name: &str) -> (w: u32)
        ensures
            w == lookup_weight(weight_table(*regime), strategy_name@),
    {
        let table = Self::strategy_weights(regime);
        let mut i: usize = 0;
        assert(table@.len() == weight_table(*regime).len());
        assert(weight_table(*regime).subrange(0, table@.len() as int) =~= weight_table(*regime));
        while i < table.len()
            invariant
                i <= table@.len(),
                table_view(table@) == weight_table(*regime),
                lookup_weight(weight_table(*regime), strategy_name@) == lookup_weight(
                    weight_table(*regime).subrange(i as int, table@.len() as int),
                    strategy_name@,
                ),
            decreases table@.len() - i,
        {
            let (name, w) = table[i];
            let ghost rest = weight_table(*regime).subrange(i as int, table@.len() as int);
            assert(rest[0] == (name@, w));
            if str_equal(name, strategy_name) {
                return w;
            }
            assert(rest.drop_first() =~= weight_table(*regime).subrange(i + 1, table@.len() as int));
            i = i + 1;
        }
        100
    }

    /// Global position-sizing multiplier (hundredths) for a regime:
    /// HighVol 35, LowVol 180, Trending 100, MeanReverting 100, EventDriven 50.
    pub fn sizing_multiplier(regime: &MarketRegime) -> (m: u32)
        ensures
            m == spec_sizing_multiplier(*regime),
    {
        match *regime {
            MarketRegime::HighVol => 35,
            MarketRegime::LowVol => 180,
            MarketRegime::Trending => 100,
            MarketRegime::MeanReverting => 100,
            MarketRegime::EventDriven => 50,
        }
    }
}

/// Law: the scalar classifier never reports EventDriven, and the trend's
/// direction does not matter, only its size.
pub proof fn lemma_classify_symmetric_in_trend(ann_vol: int, trend: int)
    ensures
        classify_regime(ann_vol, trend) == classify_regime(ann_vol, -trend),
        classify_regime(ann_vol, trend) != MarketRegime::EventDriven,
{
}

/// Law: every regime has a non-empty weight table whose strategy names are
/// non-empty and whose weights are positive.
pub proof fn lemma_weight_tables_well_formed(regime: MarketRegime)
    ensures
        weight_table(regime).len() > 0,
        forall|i: int|
            0 <= i < weight_table(regime).len() ==> (#[trigger] weight_table(regime)[i]).0.len() > 0
                && weight_table(regime)[i].1 > 0,
{
    reveal_strlit("Cash-Secured Puts");
    reveal_strlit("Mean Reversion");
    reveal_strlit("Vol Mean Reversion");
    reveal_strlit("Vol Arbitrage");
    reveal_strlit("Momentum");
    reveal_strlit("Breakout");
}

/// Law: volatility above 40% is HighVol whatever the trend, and only then;
/// LowVol is exactly volatility under 15% with a trend of size under 0.30;
/// Trending is exactly volatility of at most 40% with a trend of size over
/// 0.60; everything else is MeanReverting. HighVol always carries the
/// smallest sizing multiplier, 0.35.
pub proof fn lemma_regime_bands(ann_vol: int, trend: int)
    ensures
        ann_vol > 4000 ==> classify_regime(ann_vol, trend) == MarketRegime::HighVol,
        classify_regime(ann_vol, trend) == MarketRegime::HighVol <==> ann_vol > 4000,
        classify_regime(ann_vol, trend) == MarketRegime::LowVol <==> (ann_vol < 1500 && -3000 < trend
            && trend < 3000),
        classify_regime(ann_vol, trend) == MarketRegime::Trending <==> (ann_vol <= 4000 && (trend > 6000
            || trend < -6000)),
        classify_regime(ann_vol, trend) == MarketRegime::MeanReverting <==> (ann_vol <= 4000 && !(ann_vol
            < 1500 && -3000 < trend && trend < 3000) && -6000 <= trend && trend <= 6000),
        ann_vol > 4000 ==> spec_sizing_multiplier(classify_regime(ann_vol, trend)) == 35,
{
}

} // verus!
