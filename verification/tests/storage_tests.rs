use bracket_arb::decimal::DecimalPct;
use bracket_arb::kalshi::types::{ArbDirection, ArbOpportunity, BracketQuote, Order};
use bracket_arb::storage::{
    effective_size, expected_leg_price, reconcile, trade_figures, TradeFigures, TradeSide,
};

fn bracket(ticker: &str, ask: i64, bid: i64) -> BracketQuote {
    BracketQuote {
        ticker: ticker.to_string(),
        title: ticker.to_string(),
        yes_ask_cents: ask,
        yes_bid_cents: bid,
        depth_at_no: 10,
        depth_at_yes: 10,
    }
}

fn opportunity(direction: ArbDirection, net: i64) -> ArbOpportunity {
    ArbOpportunity {
        event_ticker: "EVT".to_string(),
        event_title: "Event".to_string(),
        direction,
        brackets: vec![bracket("A", 20, 60), bracket("B", 25, 61), bracket("C", 40, 62)],
        sum_cents: 85,
        total_fees_cents: 22,
        gross_profit_cents: 75,
        net_profit_cents: net,
        roi_pct: DecimalPct { mantissa: 0, scale: 0 },
    }
}

fn filled(ticker: &str, yes_price: Option<i64>, count: Option<i64>, fill: Option<i64>) -> (String, Order) {
    (
        ticker.to_string(),
        Order {
            order_id: format!("o-{}", ticker),
            ticker: ticker.to_string(),
            status: "executed".to_string(),
            action: "buy".to_string(),
            side: "yes".to_string(),
            order_type: "limit".to_string(),
            yes_price,
            no_price: None,
            count,
            remaining_count: None,
            fill_count: fill,
        },
    )
}

#[test]
fn a_trade_row_has_side_price_and_fee() {
    let order = filled("A", Some(25), Some(5), None).1;
    assert_eq!(
        trade_figures(ArbDirection::Long, &order, 5),
        TradeFigures { side: TradeSide::BuyYes, price_cents: 25, fee_cents: 7 }
    );
    assert_eq!(
        trade_figures(ArbDirection::Short, &order, 2),
        TradeFigures { side: TradeSide::SellYes, price_cents: 25, fee_cents: 3 }
    );
    let unpriced = filled("A", None, Some(5), None).1;
    assert_eq!(
        trade_figures(ArbDirection::Long, &unpriced, 5),
        TradeFigures { side: TradeSide::BuyYes, price_cents: 0, fee_cents: 0 }
    );
    assert_eq!(TradeSide::BuyYes.label(), "BUY_YES");
    assert_eq!(TradeSide::SellYes.label(), "SELL_YES");
}

#[test]
fn the_effective_size_prefers_the_fill_count() {
    assert_eq!(effective_size(&filled("A", Some(1), Some(5), Some(3)).1), 3);
    assert_eq!(effective_size(&filled("A", Some(1), Some(5), None).1), 5);
    assert_eq!(effective_size(&filled("A", Some(1), None, None).1), 0);
    assert_eq!(effective_size(&filled("A", Some(1), None, Some(0)).1), 0);
}

#[test]
fn expected_prices_are_found_by_ticker() {
    let opp = opportunity(ArbDirection::Long, 53);
    assert_eq!(expected_leg_price(&opp.brackets, "A", ArbDirection::Long), 20);
    assert_eq!(expected_leg_price(&opp.brackets, "C", ArbDirection::Long), 40);
    assert_eq!(expected_leg_price(&opp.brackets, "B", ArbDirection::Short), 61);
    assert_eq!(expected_leg_price(&opp.brackets, "Z", ArbDirection::Long), 0);
    assert_eq!(expected_leg_price(&[], "A", ArbDirection::Long), 0);
    let twice = vec![bracket("A", 20, 60), bracket("A", 30, 70)];
    assert_eq!(expected_leg_price(&twice, "A", ArbDirection::Long), 20);
}

#[test]
fn a_long_fill_at_the_expected_prices_has_no_slippage() {
    let opp = opportunity(ArbDirection::Long, 53);
    let orders = vec![
        filled("A", Some(20), Some(5), None),
        filled("B", Some(25), Some(5), None),
        filled("C", Some(40), Some(5), None),
    ];
    let rec = reconcile(&opp, &orders);
    // 100 * 5 - (100 + 125 + 200) - (6 + 7 + 9)
    assert_eq!(rec.actual_net_cents, 53);
    assert_eq!(rec.expected_net_cents, 53);
    assert_eq!(rec.slippage_cents, 0);
    assert_eq!(rec.drifts.len(), 3);
    assert!(rec.drifts.iter().all(|d| !d.slipped()));
    assert_eq!(rec.drifts[1].ticker, "B");
    assert_eq!(rec.drifts[1].expected_cents, 25);
    assert_eq!(rec.drifts[1].actual_cents, 25);
}

#[test]
fn a_worse_fill_shows_as_slippage() {
    let opp = opportunity(ArbDirection::Long, 53);
    let orders = vec![
        filled("A", Some(22), Some(5), Some(5)),
        filled("B", Some(25), Some(5), Some(5)),
        filled("C", Some(40), Some(5), Some(5)),
    ];
    let rec = reconcile(&opp, &orders);
    // fee(5, 22) = ceil(7 * 5 * 22 * 78 / 10_000) = ceil(6.006) = 7
    // 500 - (110 + 125 + 200) - (7 + 7 + 9) = 42
    assert_eq!(rec.actual_net_cents, 42);
    assert_eq!(rec.slippage_cents, -11);
    assert!(rec.drifts[0].slipped());
    assert_eq!(rec.drifts[0].expected_cents, 20);
    assert_eq!(rec.drifts[0].actual_cents, 22);
    assert!(!rec.drifts[1].slipped());
}

#[test]
fn a_short_fill_is_reckoned_against_the_liability() {
    let opp = opportunity(ArbDirection::Short, 388);
    let orders = vec![
        filled("A", Some(60), Some(5), None),
        filled("B", Some(61), Some(5), None),
        filled("C", Some(62), Some(5), None),
    ];
    let rec = reconcile(&opp, &orders);
    // Revenue 300 + 305 + 310 = 915, liability 500, fees 9 + 9 + 9.
    // fee(5, 61) = ceil(8.3265) = 9, fee(5, 62) = ceil(8.246) = 9
    assert_eq!(rec.actual_net_cents, 915 - 500 - 27);
    assert_eq!(rec.slippage_cents, 0);
    assert_eq!(rec.drifts[2].expected_cents, 62);
}

#[test]
fn an_incomplete_fill_is_reckoned_on_what_filled() {
    let opp = opportunity(ArbDirection::Long, 60);
    let orders = vec![filled("A", Some(20), Some(5), None)];
    let rec = reconcile(&opp, &orders);
    // 100 * 5 - 100 - 6
    assert_eq!(rec.actual_net_cents, 394);
    assert_eq!(rec.expected_net_cents, 60);
    assert_eq!(rec.slippage_cents, 334);
}

#[test]
fn the_payout_is_reckoned_on_the_first_leg() {
    let opp = opportunity(ArbDirection::Long, 53);
    let orders = vec![
        filled("A", Some(20), Some(5), Some(3)),
        filled("B", Some(25), Some(5), None),
    ];
    let rec = reconcile(&opp, &orders);
    // Payout 100 * 3; cost 20 * 3 + 25 * 5; fees fee(3, 20) = 4 and fee(5, 25) = 7.
    assert_eq!(rec.actual_net_cents, 300 - 185 - 11);
}

#[test]
fn nothing_filled_reconciles_to_nothing() {
    let opp = opportunity(ArbDirection::Long, 53);
    let rec = reconcile(&opp, &[]);
    assert_eq!(rec.actual_net_cents, 0);
    assert_eq!(rec.slippage_cents, -53);
    assert!(rec.drifts.is_empty());
}

#[test]
fn an_unknown_ticker_expects_nothing() {
    let opp = opportunity(ArbDirection::Long, 53);
    let rec = reconcile(&opp, &[filled("Z", Some(20), Some(5), None)]);
    assert_eq!(rec.drifts[0].expected_cents, 0);
    assert!(rec.drifts[0].slipped());
}

#[test]
fn slippage_is_exact_at_the_ends_of_the_range() {
    let opp = opportunity(ArbDirection::Long, i64::MIN);
    let rec = reconcile(&opp, &[filled("A", Some(20), Some(5), None)]);
    assert_eq!(rec.actual_net_cents, 394);
    assert_eq!(rec.slippage_cents, 394 - i64::MIN as i128);
    let opp = opportunity(ArbDirection::Long, i64::MAX);
    let rec = reconcile(&opp, &[filled("A", Some(20), Some(5), None)]);
    assert_eq!(rec.slippage_cents, 394 - i64::MAX as i128);
}
