//! Pre-trade decision gate: regime labels for the audit log.

use crate::analysis::advanced_classifier::MarketRegime;
use vstd::prelude::*;

verus! {

pub open spec fn spec_regime_label(r: MarketRegime) -> Seq<char> {
    match r {
        MarketRegime::HighVol => "HighVol"@,
        MarketRegime::LowVol => "LowVol"@,
        MarketRegime::Trending => "Trending"@,
        MarketRegime::MeanReverting => "MeanReverting"@,
        MarketRegime::EventDriven => "EventDriven"@,
    }
}

/// The regime's name as it appears in the audit log.
pub fn regime_label(r: &MarketRegime) -> (s: String)
    ensures
        s@ == spec_regime_label(*r),
{
    match *r {
        MarketRegime::HighVol => String::from_str("HighVol"),
        MarketRegime::LowVol => String::from_str("LowVol"),
        MarketRegime::Trending => String::from_str("Trending"),
        MarketRegime::MeanReverting => String::from_str("MeanReverting"),
        MarketRegime::EventDriven => String::from_str("EventDriven"),
    }
}

} // verus!
