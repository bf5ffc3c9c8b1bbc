use bracket_arb::executor::{
    build_order_request, build_order_requests, classify_status, legs_are_in_range,
    ExecutionResult, LegStatus,
    Outcome, MAX_LEGS,
};
use bracket_arb::decimal::DecimalPct;
use bracket_arb::kalshi::types::{ArbDirection, ArbOpportunity, BracketQuote, Order};
use bracket_arb::risk::RiskDelta;
use serde_json::{Number, Value};

fn make_bracket(ticker: &str, yes_ask: i64, yes_bid: i64) -> BracketQuote {
    BracketQuote {
        ticker: ticker.to_string(),
        title: format!("{} title", ticker),
        yes_ask_cents: yes_ask,
        yes_bid_cents: yes_bid,
        depth_at_no: 100,
        depth_at_yes: 100,
    }
}

fn to_value(body: &str) -> Value {
    serde_json::from_str(body).unwrap()
}

fn payload(ticker: &str, action: &str, count: u64, yes_price: i64) -> Value {
    let mut object = serde_json::Map::new();
    object.insert("ticker".to_string(), Value::String(ticker.to_string()));
    object.insert("action".to_string(), Value::String(action.to_string()));
    object.insert("side".to_string(), Value::String("yes".to_string()));
    object.insert("type".to_string(), Value::String("limit".to_string()));
    object.insert("count".to_string(), Value::Number(Number::from(count)));
    object.insert("yes_price".to_string(), Value::Number(Number::from(yes_price)));
    object.insert("no_price".to_string(), Value::Null);
    Value::Object(object)
}

fn order(id: &str, ticker: &str, status: &str, yes_price: Option<i64>, count: Option<i64>) -> Order {
    Order {
        order_id: id.to_string(),
        ticker: ticker.to_string(),
        status: status.to_string(),
        action: "buy".to_string(),
        side: "yes".to_string(),
        order_type: "limit".to_string(),
        yes_price,
        no_price: None,
        count,
        remaining_count: None,
        fill_count: None,
    }
}

#[test]
fn test_build_order_long_payload() {
    let bracket = make_bracket("TICKER-A", 35, 20);
    let req = build_order_request(&bracket, ArbDirection::Long, 5);
    let val = to_value(&req.to_json());
    assert_eq!(val, payload("TICKER-A", "buy", 5, 35));
}

#[test]
fn test_build_order_short_payload() {
    let bracket = make_bracket("TICKER-B", 35, 20);
    let req = build_order_request(&bracket, ArbDirection::Short, 3);
    let val = to_value(&req.to_json());
    assert_eq!(val, payload("TICKER-B", "sell", 3, 20));
}

#[test]
fn test_long_uses_ask_not_bid() {
    let bracket = make_bracket("T", 42, 18);
    let req = build_order_request(&bracket, ArbDirection::Long, 1);
    assert_eq!(req.yes_price, Some(42), "Long must use yes_ask_cents");
    assert_ne!(req.yes_price, Some(18), "Long must NOT use yes_bid_cents");
}

#[test]
fn test_short_uses_bid_not_ask() {
    let bracket = make_bracket("T", 42, 18);
    let req = build_order_request(&bracket, ArbDirection::Short, 1);
    assert_eq!(req.yes_price, Some(18), "Short must use yes_bid_cents");
    assert_ne!(req.yes_price, Some(42), "Short must NOT use yes_ask_cents");
}

#[test]
fn test_order_type_serializes_as_type() {
    let bracket = make_bracket("T", 50, 50);
    let req = build_order_request(&bracket, ArbDirection::Long, 1);
    let val = to_value(&req.to_json());
    assert!(val.get("type").is_some(), "JSON must have 'type' key");
    assert!(val.get("order_type").is_none(), "JSON must NOT have 'order_type' key");
}

#[test]
fn test_position_size_flows_through() {
    let bracket = make_bracket("T", 30, 20);
    for size in [1u32, 5, 100] {
        let req = build_order_request(&bracket, ArbDirection::Long, size);
        assert_eq!(req.count, size);
    }
}

#[test]
fn test_no_price_always_null() {
    let bracket = make_bracket("T", 60, 40);
    let long = build_order_request(&bracket, ArbDirection::Long, 1);
    let short = build_order_request(&bracket, ArbDirection::Short, 1);
    assert_eq!(long.no_price, None, "Long no_price must be None");
    assert_eq!(short.no_price, None, "Short no_price must be None");
}

#[test]
fn order_request_names_ticker_action_side_and_type() {
    let bracket = make_bracket("KX-1", 35, 20);
    let long = build_order_request(&bracket, ArbDirection::Long, 5);
    assert_eq!(long.ticker, "KX-1");
    assert_eq!(long.action, "buy");
    assert_eq!(long.side, "yes");
    assert_eq!(long.order_type, "limit");
    let short = build_order_request(&bracket, ArbDirection::Short, 5);
    assert_eq!(short.action, "sell");
    assert_eq!(short.side, "yes");
    assert_eq!(short.order_type, "limit");
}

#[test]
fn order_body_is_written_field_by_field() {
    let bracket = make_bracket("TICKER-A", 35, 20);
    let req = build_order_request(&bracket, ArbDirection::Long, 5);
    assert_eq!(
        req.to_json(),
        "{\"ticker\":\"TICKER-A\",\"action\":\"buy\",\"side\":\"yes\",\"type\":\"limit\",\"count\":5,\"yes_price\":35,\"no_price\":null}"
    );
}

#[test]
fn order_body_escapes_texts_and_signs_amounts() {
    let mut req = build_order_request(&make_bracket("A\"B\\C\n", 1, 1), ArbDirection::Long, 0);
    req.yes_price = Some(-12);
    req.no_price = Some(i64::MIN);
    req.count = u32::MAX;
    let body = req.to_json();
    assert!(body.starts_with("{\"ticker\":\"A\\\"B\\\\C\\n\","));
    let val = to_value(&body);
    assert_eq!(val.get("ticker"), Some(&Value::String("A\"B\\C\n".to_string())));
    assert_eq!(val.get("count"), Some(&Value::Number(Number::from(u32::MAX))));
    assert_eq!(val.get("yes_price"), Some(&Value::Number(Number::from(-12))));
    assert_eq!(val.get("no_price"), Some(&Value::Number(Number::from(i64::MIN))));
}

#[test]
fn one_request_per_bracket_in_order() {
    let opp = ArbOpportunity {
        event_ticker: "E".to_string(),
        event_title: "Event".to_string(),
        direction: ArbDirection::Short,
        brackets: vec![make_bracket("A", 20, 60), make_bracket("B", 25, 61), make_bracket("C", 40, 62)],
        sum_cents: 183,
        total_fees_cents: 27,
        gross_profit_cents: 415,
        net_profit_cents: 388,
        roi_pct: DecimalPct { mantissa: 776, scale: 1 },
    };
    let reqs = build_order_requests(&opp, 5);
    assert_eq!(reqs.len(), 3);
    for (req, bracket) in reqs.iter().zip(opp.brackets.iter()) {
        assert_eq!(*req, build_order_request(bracket, ArbDirection::Short, 5));
    }
    assert_eq!(reqs[0].ticker, "A");
    assert_eq!(reqs[2].yes_price, Some(62));
}

#[test]
fn statuses_are_classified() {
    assert_eq!(classify_status("executed"), LegStatus::Filled);
    assert_eq!(classify_status("resting"), LegStatus::Resting);
    assert_eq!(classify_status("canceled"), LegStatus::Other);
    assert_eq!(classify_status("pending"), LegStatus::Other);
    assert_eq!(classify_status(""), LegStatus::Other);
    assert_eq!(classify_status("Executed"), LegStatus::Other);
    assert_eq!(classify_status("executed "), LegStatus::Other);
}

#[test]
fn legs_are_sorted_by_what_came_back() {
    let mut result = ExecutionResult::new("EVT", ArbDirection::Long);
    assert_eq!(result.event_ticker, "EVT");
    assert_eq!(result.direction, ArbDirection::Long);
    assert!(result.is_total_failure());
    assert!(!result.is_fully_filled());
    result.record_leg("A".to_string(), Some(order("o1", "A", "executed", Some(20), Some(5))));
    result.record_leg("B".to_string(), Some(order("o2", "B", "resting", Some(25), Some(5))));
    result.record_leg("C".to_string(), None);
    result.record_leg("D".to_string(), Some(order("o4", "D", "pending", Some(40), Some(5))));
    assert_eq!(result.filled.len(), 1);
    assert_eq!(result.filled[0].0, "A");
    assert_eq!(result.filled[0].1.order_id, "o1");
    assert_eq!(result.resting.len(), 1);
    assert_eq!(result.resting[0].1.order_id, "o2");
    assert_eq!(result.other.len(), 1);
    assert_eq!(result.other[0].0, "D");
    assert_eq!(result.api_failures, vec!["C".to_string()]);
    assert_eq!(result.outcome(), Outcome::Mixed);
}

#[test]
fn fully_filled_needs_a_fill_and_nothing_else() {
    let mut result = ExecutionResult::new("EVT", ArbDirection::Long);
    assert!(!result.is_fully_filled());
    assert_eq!(result.outcome(), Outcome::TotalFailure);
    result.record_leg("A".to_string(), Some(order("o1", "A", "executed", Some(20), Some(5))));
    result.record_leg("B".to_string(), Some(order("o2", "B", "executed", Some(25), Some(5))));
    assert!(result.is_fully_filled());
    assert!(!result.is_total_failure());
    assert_eq!(result.outcome(), Outcome::FullyFilled);
    assert!(result.orders_to_cancel().is_empty());
    let settlement = result.settle(60);
    assert_eq!(settlement.outcome, Outcome::FullyFilled);
    assert_eq!(settlement.delta, RiskDelta { opened: true, pnl_cents: 60, orders: 2 });
    assert!(settlement.cancel_order_ids.is_empty());
    result.record_leg("C".to_string(), None);
    assert!(!result.is_fully_filled());
    assert_eq!(result.outcome(), Outcome::Mixed);
}

#[test]
fn total_failure_changes_nothing() {
    let mut result = ExecutionResult::new("EVT", ArbDirection::Short);
    result.record_leg("A".to_string(), None);
    result.record_leg("B".to_string(), None);
    assert!(result.is_total_failure());
    assert!(result.is_in_range());
    let settlement = result.settle(60);
    assert_eq!(settlement.outcome, Outcome::TotalFailure);
    assert_eq!(settlement.delta, RiskDelta { opened: false, pnl_cents: 0, orders: 0 });
    assert!(settlement.cancel_order_ids.is_empty());
}

#[test]
fn mixed_execution_cancels_and_books_the_worst_case() {
    // Three brackets, expected net +60: one executed, one resting, one
    // failed dispatch.
    let mut result = ExecutionResult::new("EVT", ArbDirection::Long);
    result.record_leg("A".to_string(), Some(order("o1", "A", "executed", Some(20), Some(5))));
    result.record_leg("B".to_string(), Some(order("o2", "B", "resting", Some(25), Some(5))));
    result.record_leg("C".to_string(), None);
    assert!(result.is_in_range());
    assert_eq!(result.outcome(), Outcome::Mixed);
    assert_eq!(result.filled_cost(), 100);
    assert_eq!(result.orders_to_cancel(), vec!["o2".to_string()]);
    let settlement = result.settle(60);
    assert_eq!(settlement.outcome, Outcome::Mixed);
    // Two orders count, not three; the filled leg's 20 * 5 is lost.
    assert_eq!(settlement.delta, RiskDelta { opened: false, pnl_cents: -100, orders: 2 });
    assert_eq!(settlement.cancel_order_ids, vec!["o2".to_string()]);
}

#[test]
fn cancellations_take_resting_before_other() {
    let mut result = ExecutionResult::new("EVT", ArbDirection::Long);
    result.record_leg("A".to_string(), Some(order("o1", "A", "pending", Some(20), Some(5))));
    result.record_leg("B".to_string(), Some(order("o2", "B", "resting", Some(25), Some(5))));
    result.record_leg("C".to_string(), Some(order("o3", "C", "canceled", Some(25), Some(5))));
    result.record_leg("D".to_string(), Some(order("o4", "D", "resting", Some(25), Some(5))));
    assert_eq!(
        result.orders_to_cancel(),
        vec!["o2".to_string(), "o4".to_string(), "o1".to_string(), "o3".to_string()]
    );
    let settlement = result.settle(10);
    assert_eq!(settlement.delta, RiskDelta { opened: false, pnl_cents: 0, orders: 4 });
}

#[test]
fn missing_amounts_count_as_zero() {
    let mut result = ExecutionResult::new("EVT", ArbDirection::Long);
    result.record_leg("A".to_string(), Some(order("o1", "A", "executed", None, Some(5))));
    result.record_leg("B".to_string(), Some(order("o2", "B", "executed", Some(30), None)));
    result.record_leg("C".to_string(), Some(order("o3", "C", "executed", Some(30), Some(2))));
    result.record_leg("D".to_string(), None);
    assert_eq!(result.filled_cost(), 60);
}

#[test]
fn results_out_of_range_are_recognised() {
    let mut result = ExecutionResult::new("EVT", ArbDirection::Long);
    result.record_leg("A".to_string(), Some(order("o1", "A", "executed", Some(100), Some(u32::MAX as i64))));
    assert!(result.is_in_range());
    assert_eq!(result.filled_cost(), 429_496_729_500);
    result.record_leg("B".to_string(), Some(order("o2", "B", "executed", Some(101), Some(1))));
    assert!(!result.is_in_range());
    let mut negative = ExecutionResult::new("EVT", ArbDirection::Long);
    negative.record_leg("A".to_string(), Some(order("o1", "A", "executed", Some(5), Some(-1))));
    assert!(!negative.is_in_range());
    let mut resting = ExecutionResult::new("EVT", ArbDirection::Long);
    resting.record_leg("A".to_string(), Some(order("o1", "A", "resting", Some(500), Some(-1))));
    assert!(resting.is_in_range());
    assert_eq!(MAX_LEGS, 1_000_000);
}

#[test]
fn legs_are_in_range_with_prices_to_100_and_counts_in_32_bits() {
    let leg = |price: Option<i64>, count: Option<i64>| {
        ("A".to_string(), order("o1", "A", "executed", price, count))
    };
    assert!(legs_are_in_range(&[]));
    assert!(legs_are_in_range(&[leg(Some(0), Some(0)), leg(Some(100), Some(u32::MAX as i64))]));
    assert!(legs_are_in_range(&[leg(None, None)]));
    assert!(!legs_are_in_range(&[leg(Some(-1), Some(1))]));
    assert!(!legs_are_in_range(&[leg(Some(1), Some(u32::MAX as i64 + 1))]));
    let mut filled_over = leg(Some(1), Some(1));
    filled_over.1.fill_count = Some(-1);
    assert!(!legs_are_in_range(&[filled_over]));
}
