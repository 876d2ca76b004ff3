//! Endpoints of the Alpaca REST API: which server a client talks to and
//! the paths and query strings of its requests.

use crate::text::{dec_int, push_signed_decimal, str_equal};
use vstd::prelude::*;
use vstd::string::StringExecFns;

verus! {

/// Paper-trading endpoint.
pub const PAPER_TRADING_URL: &'static str = "https://paper-api.alpaca.markets";
/// Live (real money) trading endpoint.
pub const LIVE_TRADING_URL: &'static str = "https://api.alpaca.markets";
/// Market data endpoint.
pub const MARKET_DATA_URL: &'static str = "https://data.alpaca.markets";

/// Live trading is selected by `APCA_LIVE=1` and nothing else.
pub fn is_live_flag(value: &str) -> (b: bool)
    ensures
        b == (value@ == "1"@),
{
    str_equal(value, "1")
}

/// The trading endpoint: live when `live`, paper otherwise.
pub fn trading_base_url(live: bool) -> (r: &'static str)
    ensures
        r@ == (if live {
            LIVE_TRADING_URL@
        } else {
            PAPER_TRADING_URL@
        }),
{
    if live {
        LIVE_TRADING_URL
    } else {
        PAPER_TRADING_URL
    }
}

/// `/v2/orders`, filtered by `status` when one is given.
pub open spec fn orders_path_spec(status: Option<Seq<char>>) -> Seq<char> {
    match status {
        Some(s) => "/v2/orders?status="@ + s,
        None => "/v2/orders"@,
    }
}

/// The endpoint listing orders, optionally filtered by status.
pub fn orders_path(status: Option<&str>) -> (r: String)
    ensures
        r@ == orders_path_spec(
            match status {
                Some(s) => Some(s@),
                None => None,
            },
        ),
{
    match status {
        Some(s) => {
            let mut p = String::from_str("/v2/orders?status=");
            p.append(s);
            p
        },
        None => String::from_str("/v2/orders"),
    }
}

/// The historical bars URL of `symbol` (IEX feed), with the optional end
/// time and limit appended as query parameters.
pub open spec fn bars_url_spec(
    data_url: Seq<char>,
    symbol: Seq<char>,
    timeframe: Seq<char>,
    start: Seq<char>,
    end: Option<Seq<char>>,
    limit: Option<i32>,
) -> Seq<char> {
    let base = data_url + "/v2/stocks/"@ + symbol + "/bars?timeframe="@ + timeframe + "&start="@ + start
        + "&feed=iex"@;
    let with_end = match end {
        Some(e) => base + "&end="@ + e,
        None => base,
    };
    match limit {
        Some(l) => with_end + "&limit="@ + dec_int(l as int),
        None => with_end,
    }
}

/// Build the historical bars URL.
pub fn bars_url(
    data_url: &str,
    symbol: &str,
    timeframe: &str,
    start: &str,
    end: Option<&str>,
    limit: Option<i32>,
) -> (r: String)
    ensures
        r@ == bars_url_spec(
            data_url@,
            symbol@,
            timeframe@,
            start@,
            match end {
                Some(e) => Some(e@),
                None => None,
            },
            limit,
        ),
{
    let mut url = String::from_str(data_url);
    url.append("/v2/stocks/");
    url.append(symbol);
    url.append("/bars?timeframe=");
    url.append(timeframe);
    url.append("&start=");
    url.append(start);
    url.append("&feed=iex");
    if let Some(e) = end {
        url.append("&end=");
        url.append(e);
    }
    if let Some(l) = limit {
        url.append("&limit=");
        push_signed_decimal(&mut url, l as i64);
    }
    url
}

} // verus!
