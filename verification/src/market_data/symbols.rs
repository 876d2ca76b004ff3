//! Popular and viral stock symbols for analysis.

use crate::text::{str_equal, str_views, string_views};
use vstd::prelude::*;

verus! {

/// Stock configuration as stored in `config/stocks.json`.
#[derive(Debug)]
pub struct StockConfig {
    pub stocks: Vec<Stock>,
}

#[derive(Debug)]
pub struct Stock {
    pub symbol: String,
    pub market: String,
    pub sector: String,
    pub enabled: bool,
    pub notes: Option<String>,
}

/// Symbols of the enabled stocks among `stocks`, in order.
pub open spec fn enabled_stock_symbols(stocks: Seq<Stock>) -> Seq<Seq<char>>
    decreases stocks.len(),
{
    if stocks.len() == 0 {
        Seq::empty()
    } else {
        let rest = enabled_stock_symbols(stocks.drop_last());
        if stocks.last().enabled {
            rest.push(stocks.last().symbol@)
        } else {
            rest
        }
    }
}

impl StockConfig {
    /// The symbols of the enabled stocks, in file order (what
    /// `load_enabled_stocks` returns once the file is read).
    pub fn enabled_symbols(&self) -> (r: Vec<String>)
        ensures
            string_views(r@) == enabled_stock_symbols(self.stocks@),
    {
        let mut out: Vec<String> = Vec::new();
        let mut i: usize = 0;
        while i < self.stocks.len()
            invariant
                i <= self.stocks@.len(),
                string_views(out@) == enabled_stock_symbols(self.stocks@.subrange(0, i as int)),
            decreases self.stocks@.len() - i,
        {
            proof {
                assert(self.stocks@.subrange(0, i + 1).drop_last() =~= self.stocks@.subrange(0, i as int));
            }
            if self.stocks[i].enabled {
                let ghost before = out@;
                out.push(self.stocks[i].symbol.clone());
                proof {
                    assert(string_views(out@) =~= string_views(before).push(
                        self.stocks@[i as int].symbol@,
                    ));
                }
            }
            i = i + 1;
        }
        assert(self.stocks@.subrange(0, self.stocks@.len() as int) =~= self.stocks@);
        out
    }
}

/// Array of 20 viral and popular stocks for trading analysis.
pub const VIRAL_STOCKS: [&'static str; 20] = [
    "TSLA",  // Tesla - Electric vehicles, most traded stock
    "NVDA",  // NVIDIA - AI chips, data centers
    "AAPL",  // Apple - Consumer electronics
    "MSFT",  // Microsoft - Cloud computing, AI
    "GOOGL",  // Alphabet (Google) - Search, cloud, AI
    "META",  // Meta (Facebook) - Social media
    "AMZN",  // Amazon - E-commerce, cloud (AWS)
    "AMD",  // Advanced Micro Devices - Semiconductors
    "GME",  // GameStop - The first meme stock
    "AMC",  // AMC Entertainment - Meme stock
    "PLTR",  // Palantir - Big data analytics
    "RIVN",  // Rivian - Electric vehicles
    "COIN",  // Coinbase - Cryptocurrency exchange
    "SOFI",  // SoFi - Fintech
    "NIO",  // Nio - Chinese EV maker
    "SNAP",  // Snap Inc - Social media
    "RBLX",  // Roblox - Gaming platform
    "UBER",  // Uber - Ride sharing
    "LCID",  // Lucid Motors - Luxury EVs
    "F",  // Ford - Traditional auto + EVs
];

/// The viral stock list as character sequences.
pub open spec fn viral_stocks() -> Seq<Seq<char>> {
    str_views(VIRAL_STOCKS@)
}

/// Get a stock symbol by index.
pub fn get_symbol(index: usize) -> (r: Option<&'static str>)
    ensures
        index < 20 ==> (r matches Some(s) && s@ == viral_stocks()[index as int]),
        index >= 20 ==> r is None,
{
    if index < 20 {
        Some(VIRAL_STOCKS[index])
    } else {
        None
    }
}

/// Get all symbols as a Vec.
pub fn all_symbols() -> (r: Vec<&'static str>)
    ensures
        str_views(r@) == viral_stocks(),
{
    let mut out: Vec<&'static str> = Vec::new();
    let mut i: usize = 0;
    while i < 20
        invariant
            i <= 20,
            out@.len() == i,
            str_views(out@) == viral_stocks().subrange(0, i as int),
        decreases 20 - i,
    {
        let ghost before = out@;
        let s = VIRAL_STOCKS[i];
        assert(s == VIRAL_STOCKS@[i as int]);
        out.push(s);
        proof {
            assert(out@ == before.push(s));
            assert(str_views(out@) =~= viral_stocks().subrange(0, i + 1)) by {
                assert forall|k: int| 0 <= k < i + 1 implies #[trigger] str_views(out@)[k]
                    == viral_stocks().subrange(0, i + 1)[k] by {
                    if k < i {
                        assert(out@[k] == before[k]);
                    }
                }
            }
        }
        i = i + 1;
    }
    assert(viral_stocks().subrange(0, 20) =~= viral_stocks());
    out
}

/// Check if a symbol is in the viral stocks list (exact, case-sensitive).
pub fn is_viral_stock(symbol: &str) -> (r: bool)
    ensures
        r == viral_stocks().contains(symbol@),
{
    let mut i: usize = 0;
    while i < 20
        invariant
            i <= 20,
            forall|k: int| 0 <= k < i ==> viral_stocks()[k] != symbol@,
        decreases 20 - i,
    {
        if str_equal(VIRAL_STOCKS[i], symbol) {
            assert(viral_stocks()[i as int] == symbol@);
            return true;
        }
        i = i + 1;
    }
    false
}

/// Law: every symbol handed out by index is recognised as a viral stock.
pub proof fn lemma_listed_symbols_are_viral(index: int)
    requires
        0 <= index < 20,
    ensures
        viral_stocks().contains(viral_stocks()[index]),
{
}

/// A short fingerprint of a symbol: its length and first three characters.
pub open spec fn symbol_key(s: Seq<char>) -> (nat, char, char, char) {
    (s.len(), s[0], if s.len() > 1 { s[1] } else { ' ' }, if s.len() > 2 { s[2] } else { ' ' })
}

/// Law: the twenty viral symbols are pairwise distinct, so `get_symbol`
/// and `all_symbols` never hand out a symbol twice.
pub proof fn lemma_viral_stocks_distinct()
    ensures
        viral_stocks().len() == 20,
        forall|i: int, j: int|
            0 <= i < 20 && 0 <= j < 20 && i != j ==> #[trigger] viral_stocks()[i] != #[trigger] viral_stocks()[j],
{
    reveal_strlit("TSLA");
    reveal_strlit("NVDA");
    reveal_strlit("AAPL");
    reveal_strlit("MSFT");
    reveal_strlit("GOOGL");
    reveal_strlit("META");
    reveal_strlit("AMZN");
    reveal_strlit("AMD");
    reveal_strlit("GME");
    reveal_strlit("AMC");
    reveal_strlit("PLTR");
    reveal_strlit("RIVN");
    reveal_strlit("COIN");
    reveal_strlit("SOFI");
    reveal_strlit("NIO");
    reveal_strlit("SNAP");
    reveal_strlit("RBLX");
    reveal_strlit("UBER");
    reveal_strlit("LCID");
    reveal_strlit("F");
    assert(viral_stocks()[0] == "TSLA"@);
    assert(viral_stocks()[1] == "NVDA"@);
    assert(viral_stocks()[2] == "AAPL"@);
    assert(viral_stocks()[3] == "MSFT"@);
    assert(viral_stocks()[4] == "GOOGL"@);
    assert(viral_stocks()[5] == "META"@);
    assert(viral_stocks()[6] == "AMZN"@);
    assert(viral_stocks()[7] == "AMD"@);
    assert(viral_stocks()[8] == "GME"@);
    assert(viral_stocks()[9] == "AMC"@);
    assert(viral_stocks()[10] == "PLTR"@);
    assert(viral_stocks()[11] == "RIVN"@);
    assert(viral_stocks()[12] == "COIN"@);
    assert(viral_stocks()[13] == "SOFI"@);
    assert(viral_stocks()[14] == "NIO"@);
    assert(viral_stocks()[15] == "SNAP"@);
    assert(viral_stocks()[16] == "RBLX"@);
    assert(viral_stocks()[17] == "UBER"@);
    assert(viral_stocks()[18] == "LCID"@);
    assert(viral_stocks()[19] == "F"@);
    assert forall|i: int, j: int| 0 <= i < 20 && 0 <= j < 20 && i != j implies #[trigger] viral_stocks()[i]
        != #[trigger] viral_stocks()[j] by {
        assert(symbol_key(viral_stocks()[i]) != symbol_key(viral_stocks()[j]));
    }
}

} // verus!
