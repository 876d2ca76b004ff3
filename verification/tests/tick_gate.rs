use dollarbill::alpaca::tick_gate::{should_evaluate_tick, PriceWindow};

#[test]
fn window_keeps_most_recent_values() {
    let mut w: PriceWindow<f64> = PriceWindow::new(3);
    for p in [1.0, 2.0, 3.0, 4.0, 5.0] {
        w.push(p);
    }
    assert_eq!(w.len(), 3);
    assert_eq!(w.buffer().iter().copied().collect::<Vec<f64>>(), vec![3.0, 4.0, 5.0]);
}

#[test]
fn zero_capacity_window_stays_empty() {
    let mut w: PriceWindow<u32> = PriceWindow::new(0);
    w.push(7);
    assert_eq!(w.len(), 0);
}

#[test]
fn tick_gate_rules() {
    assert!(should_evaluate_tick(22, 22, false, None, 300));
    assert!(!should_evaluate_tick(21, 22, false, None, 300));
    assert!(!should_evaluate_tick(50, 22, true, None, 300));
    assert!(!should_evaluate_tick(50, 22, false, Some(299), 300));
    assert!(should_evaluate_tick(50, 22, false, Some(300), 300));
}
