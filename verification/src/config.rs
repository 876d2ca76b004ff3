//! Configuration rules: the stock universe and the pricing method.

use crate::models::heston_analytical::IntegrationMethod;
use crate::text::{str_equal, string_views};
use vstd::prelude::*;

verus! {

// ═══ Stock universe config (config/stocks.json) ═══════════════════════════

#[derive(Debug, Clone)]
pub struct StockConfig {
    pub symbol: String,
    pub market: Option<String>,
    pub sector: Option<String>,
    pub enabled: bool,
    pub notes: Option<String>,
}

#[derive(Debug)]
pub struct StocksConfig {
    pub stocks: Vec<StockConfig>,
}

/// The stock is enabled and listed on `market`.
pub open spec fn on_market(s: StockConfig, market: Seq<char>) -> bool {
    s.enabled && (s.market matches Some(m) && m@ == market)
}

/// Symbols of the stocks satisfying `keep`, in order.
pub open spec fn symbols_where(stocks: Seq<StockConfig>, keep: spec_fn(StockConfig) -> bool) -> Seq<Seq<char>>
    decreases stocks.len(),
{
    if stocks.len() == 0 {
        Seq::empty()
    } else {
        let rest = symbols_where(stocks.drop_last(), keep);
        if keep(stocks.last()) {
            rest.push(stocks.last().symbol@)
        } else {
            rest
        }
    }
}

pub open spec fn enabled_symbols_of(stocks: Seq<StockConfig>) -> Seq<Seq<char>> {
    symbols_where(stocks, |s: StockConfig| s.enabled)
}

pub open spec fn market_symbols_of(stocks: Seq<StockConfig>, market: Seq<char>) -> Seq<Seq<char>> {
    symbols_where(stocks, |s: StockConfig| on_market(s, market))
}

impl StocksConfig {
    /// Symbols of the enabled stocks, in file order.
    pub fn enabled_symbols(&self) -> (r: Vec<String>)
        ensures
            string_views(r@) == enabled_symbols_of(self.stocks@),
    {
        let ghost keep = |s: StockConfig| s.enabled;
        let mut out: Vec<String> = Vec::new();
        let mut i: usize = 0;
        while i < self.stocks.len()
            invariant
                i <= self.stocks@.len(),
                keep == (|s: StockConfig| s.enabled),
                string_views(out@) == symbols_where(self.stocks@.subrange(0, i as int), keep),
            decreases self.stocks@.len() - i,
        {
            proof {
                assert(self.stocks@.subrange(0, i + 1).drop_last() =~= self.stocks@.subrange(0, i as int));
            }
            if self.stocks[i].enabled {
                let ghost before = out@;
                out.push(self.stocks[i].symbol.clone());
                proof {
                    assert(string_views(out@) =~= string_views(before).push(self.stocks@[i as int].symbol@));
                }
            }
            i = i + 1;
        }
        assert(self.stocks@.subrange(0, self.stocks@.len() as int) =~= self.stocks@);
        out
    }

    /// Symbols of the enabled stocks listed on `market`, in file order.
    pub fn symbols_by_market(&self, market: &str) -> (r: Vec<String>)
        ensures
            string_views(r@) == market_symbols_of(self.stocks@, market@),
    {
        let ghost keep = |s: StockConfig| on_market(s, market@);
        let mut out: Vec<String> = Vec::new();
        let mut i: usize = 0;
        while i < self.stocks.len()
            invariant
                i <= self.stocks@.len(),
                keep == (|s: StockConfig| on_market(s, market@)),
                string_views(out@) == symbols_where(self.stocks@.subrange(0, i as int), keep),
            decreases self.stocks@.len() - i,
        {
            proof {
                assert(self.stocks@.subrange(0, i + 1).drop_last() =~= self.stocks@.subrange(0, i as int));
            }
            let stock = &self.stocks[i];
            let matches_market = match &stock.market {
                Some(m) => str_equal(m.as_str(), market),
                None => false,
            };
            if stock.enabled && matches_market {
                let ghost before = out@;
                out.push(stock.symbol.clone());
                proof {
                    assert(string_views(out@) =~= string_views(before).push(self.stocks@[i as int].symbol@));
                }
            }
            i = i + 1;
        }
        assert(self.stocks@.subrange(0, self.stocks@.len() as int) =~= self.stocks@);
        out
    }
}

/// The symbols kept by a stricter filter form a sub-multiset of those kept
/// by a looser one, in the same order (here: as a subsequence count bound
/// and membership).
proof fn lemma_stricter_filter(
    stocks: Seq<StockConfig>,
    strict: spec_fn(StockConfig) -> bool,
    loose: spec_fn(StockConfig) -> bool,
    x: Seq<char>,
)
    requires
        forall|s: StockConfig| #[trigger] strict(s) ==> loose(s),
    ensures
        symbols_where(stocks, strict).contains(x) ==> symbols_where(stocks, loose).contains(x),
        symbols_where(stocks, strict).len() <= symbols_where(stocks, loose).len(),
    decreases stocks.len(),
{
    if stocks.len() > 0 {
        lemma_stricter_filter(stocks.drop_last(), strict, loose, x);
        let rs = symbols_where(stocks.drop_last(), strict);
        let rl = symbols_where(stocks.drop_last(), loose);
        if symbols_where(stocks, strict).contains(x) {
            let k = choose|k: int| 0 <= k < symbols_where(stocks, strict).len() && symbols_where(stocks, strict)[k] == x;
            if strict(stocks.last()) {
                if k < rs.len() {
                    assert(rs[k] == x);
                    let j = choose|j: int| 0 <= j < rl.len() && rl[j] == x;
                    assert(symbols_where(stocks, loose)[j] == x);
                } else {
                    assert(symbols_where(stocks, loose).last() == x);
                }
            } else {
                assert(rs[k] == x);
                let j = choose|j: int| 0 <= j < rl.len() && rl[j] == x;
                if loose(stocks.last()) {
                    assert(symbols_where(stocks, loose)[j] == x);
                }
            }
        }
    }
}

/// `a` is the subsequence of `b` at the strictly increasing positions `idx`.
pub open spec fn subsequence_at(a: Seq<Seq<char>>, b: Seq<Seq<char>>, idx: Seq<int>) -> bool {
    &&& idx.len() == a.len()
    &&& forall|i: int| 0 <= i < idx.len() ==> 0 <= #[trigger] idx[i] < b.len() && a[i] == b[idx[i]]
    &&& forall|i: int, j: int| 0 <= i < j < idx.len() ==> #[trigger] idx[i] < #[trigger] idx[j]
}

/// The positions in the loosely filtered list of the strictly filtered
/// symbols.
proof fn stricter_filter_positions(
    stocks: Seq<StockConfig>,
    strict: spec_fn(StockConfig) -> bool,
    loose: spec_fn(StockConfig) -> bool,
) -> (idx: Seq<int>)
    requires
        forall|s: StockConfig| #[trigger] strict(s) ==> loose(s),
    ensures
        subsequence_at(symbols_where(stocks, strict), symbols_where(stocks, loose), idx),
    decreases stocks.len(),
{
    if stocks.len() == 0 {
        Seq::empty()
    } else {
        let prev = stricter_filter_positions(stocks.drop_last(), strict, loose);
        let rl = symbols_where(stocks.drop_last(), loose);
        if strict(stocks.last()) {
            assert(loose(stocks.last()));
            let idx = prev.push(rl.len() as int);
            assert forall|i: int, j: int| 0 <= i < j < idx.len() implies #[trigger] idx[i] < #[trigger] idx[j] by {
                if j < prev.len() {
                    assert(idx[i] == prev[i] && idx[j] == prev[j]);
                } else {
                    assert(idx[i] == prev[i]);
                }
            }
            idx
        } else {
            prev
        }
    }
}

/// Law: the symbols listed for a market are a subsequence of the enabled
/// symbols (same stocks, same order), and stocks without a market never
/// appear in any market's list.
pub proof fn lemma_market_symbols_subsequence(stocks: Seq<StockConfig>, market: Seq<char>)
    ensures
        exists|idx: Seq<int>| subsequence_at(market_symbols_of(stocks, market), enabled_symbols_of(stocks), idx),
        forall|s: StockConfig| s.market is None ==> !on_market(s, market),
{
    let idx = stricter_filter_positions(stocks, |s: StockConfig| on_market(s, market), |s: StockConfig| s.enabled);
    assert(subsequence_at(market_symbols_of(stocks, market), enabled_symbols_of(stocks), idx));
}

/// Law: the symbols listed for a market are enabled symbols, and there are
/// never more of them than enabled symbols.
pub proof fn lemma_market_symbols_are_enabled(stocks: Seq<StockConfig>, market: Seq<char>, symbol: Seq<char>)
    ensures
        market_symbols_of(stocks, market).contains(symbol) ==> enabled_symbols_of(stocks).contains(symbol),
        market_symbols_of(stocks, market).len() <= enabled_symbols_of(stocks).len(),
{
    lemma_stricter_filter(stocks, |s: StockConfig| on_market(s, market), |s: StockConfig| s.enabled, symbol);
}

// ═══ Volatility-surface / pricing config ═══════════════════════════════════

/// Integration method tag as it appears in the JSON.
#[derive(Debug, Clone, Copy, PartialEq, Eq, Structural)]
pub enum IntegrationMethodConfig {
    CarrMadan,
    GaussLaguerre,
}

impl Default for IntegrationMethodConfig {
    fn default() -> (r: Self)
        ensures
            r == IntegrationMethodConfig::CarrMadan,
    {
        IntegrationMethodConfig::CarrMadan
    }
}

/// Default number of Gauss-Laguerre nodes.
pub fn default_gl_nodes() -> (r: usize)
    ensures
        r == 32,
{
    32
}

pub open spec fn clamp_nodes(n: usize) -> usize {
    if n < 2 {
        2
    } else if n > 128 {
        128
    } else {
        n
    }
}

/// The engine-level [`IntegrationMethod`] for a config tag and node count;
/// the node count is clamped to 2–128.
pub fn integration_method_for(method: IntegrationMethodConfig, gauss_laguerre_nodes: usize) -> (r:
    IntegrationMethod)
    ensures
        method == IntegrationMethodConfig::CarrMadan ==> r == IntegrationMethod::CarrMadan,
        method == IntegrationMethodConfig::GaussLaguerre ==> r == (IntegrationMethod::GaussLaguerre {
            nodes: clamp_nodes(gauss_laguerre_nodes),
        }),
{
    match method {
        IntegrationMethodConfig::CarrMadan => IntegrationMethod::CarrMadan,
        IntegrationMethodConfig::GaussLaguerre => {
            let nodes = if gauss_laguerre_nodes < 2 {
                2
            } else if gauss_laguerre_nodes > 128 {
                128
            } else {
                gauss_laguerre_nodes
            };
            IntegrationMethod::GaussLaguerre { nodes }
        },
    }
}

} // verus!
