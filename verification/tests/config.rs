use dollarbill::config::{default_gl_nodes, integration_method_for, IntegrationMethodConfig, StockConfig, StocksConfig};
use dollarbill::models::heston_analytical::IntegrationMethod;

fn stock(symbol: &str, market: Option<&str>, enabled: bool) -> StockConfig {
    StockConfig {
        symbol: symbol.to_string(),
        market: market.map(|m| m.to_string()),
        sector: None,
        enabled,
        notes: None,
    }
}

#[test]
fn enabled_symbols_in_file_order() {
    let cfg = StocksConfig {
        stocks: vec![
            stock("TSLA", Some("US"), true),
            stock("BHP", Some("AU"), false),
            stock("AAPL", Some("US"), true),
            stock("SHOP", None, true),
        ],
    };
    assert_eq!(cfg.enabled_symbols(), vec!["TSLA", "AAPL", "SHOP"]);
    assert_eq!(cfg.symbols_by_market("US"), vec!["TSLA", "AAPL"]);
    assert_eq!(cfg.symbols_by_market("AU"), Vec::<String>::new());
    assert_eq!(cfg.symbols_by_market("us"), Vec::<String>::new());
}

#[test]
fn integration_method_clamps_nodes() {
    assert_eq!(default_gl_nodes(), 32);
    assert_eq!(integration_method_for(IntegrationMethodConfig::CarrMadan, 64), IntegrationMethod::CarrMadan);
    assert_eq!(
        integration_method_for(IntegrationMethodConfig::GaussLaguerre, 64),
        IntegrationMethod::GaussLaguerre { nodes: 64 }
    );
    assert_eq!(
        integration_method_for(IntegrationMethodConfig::GaussLaguerre, 1),
        IntegrationMethod::GaussLaguerre { nodes: 2 }
    );
    assert_eq!(
        integration_method_for(IntegrationMethodConfig::GaussLaguerre, 500),
        IntegrationMethod::GaussLaguerre { nodes: 128 }
    );
    assert_eq!(IntegrationMethodConfig::default(), IntegrationMethodConfig::CarrMadan);
}

#[test]
fn integration_method_display() {
    assert_eq!(IntegrationMethod::CarrMadan.to_display_string(), "Carr-Madan (Gauss-Lobatto)");
    assert_eq!(IntegrationMethod::GaussLaguerre { nodes: 64 }.to_display_string(), "Gauss-Laguerre (64 nodes)");
    assert_eq!(IntegrationMethod::default(), IntegrationMethod::CarrMadan);
}
