use dollarbill::alpaca::endpoints::{bars_url, is_live_flag, orders_path, trading_base_url, MARKET_DATA_URL};
use dollarbill::alpaca::retry::{is_terminal_order_status, is_transient, retry_action, RequestOutcome, RetryAction};

#[test]
fn transient_statuses() {
    for s in [429u16, 502, 503, 504] {
        assert!(is_transient(s));
    }
    for s in [200u16, 400, 401, 404, 422, 500, 501] {
        assert!(!is_transient(s));
    }
}

#[test]
fn retry_backoff_doubles_until_last_attempt() {
    assert_eq!(retry_action(0, RequestOutcome::Status(503)), RetryAction::Retry { delay_ms: 500 });
    assert_eq!(retry_action(1, RequestOutcome::Status(429)), RetryAction::Retry { delay_ms: 1000 });
    assert_eq!(
        retry_action(2, RequestOutcome::NetworkError { timeout_or_connect: true }),
        RetryAction::Retry { delay_ms: 2000 }
    );
    assert_eq!(retry_action(3, RequestOutcome::Status(503)), RetryAction::Fail);
}

#[test]
fn success_and_permanent_errors() {
    assert_eq!(retry_action(0, RequestOutcome::Status(200)), RetryAction::Deliver);
    assert_eq!(retry_action(3, RequestOutcome::Status(204)), RetryAction::Deliver);
    assert_eq!(retry_action(0, RequestOutcome::Status(422)), RetryAction::Fail);
    assert_eq!(retry_action(0, RequestOutcome::NetworkError { timeout_or_connect: false }), RetryAction::Fail);
}

#[test]
fn terminal_order_statuses() {
    for s in ["filled", "canceled", "expired", "rejected", "done_for_day"] {
        assert!(is_terminal_order_status(s));
    }
    for s in ["new", "partially_filled", "accepted", "Filled", ""] {
        assert!(!is_terminal_order_status(s));
    }
}

#[test]
fn base_url_selection() {
    assert!(is_live_flag("1"));
    assert!(!is_live_flag("true"));
    assert!(!is_live_flag(""));
    assert_eq!(trading_base_url(true), "https://api.alpaca.markets");
    assert_eq!(trading_base_url(false), "https://paper-api.alpaca.markets");
}

#[test]
fn request_paths() {
    assert_eq!(orders_path(None), "/v2/orders");
    assert_eq!(orders_path(Some("open")), "/v2/orders?status=open");
    assert_eq!(
        bars_url(MARKET_DATA_URL, "AAPL", "1Day", "2021-01-01T00:00:00Z", None, None),
        "https://data.alpaca.markets/v2/stocks/AAPL/bars?timeframe=1Day&start=2021-01-01T00:00:00Z&feed=iex"
    );
    assert_eq!(
        bars_url(MARKET_DATA_URL, "SPY", "5Min", "s", Some("e"), Some(100)),
        "https://data.alpaca.markets/v2/stocks/SPY/bars?timeframe=5Min&start=s&feed=iex&end=e&limit=100"
    );
    assert_eq!(bars_url("u", "X", "t", "s", None, Some(-3)), "u/v2/stocks/X/bars?timeframe=t&start=s&feed=iex&limit=-3");
}
