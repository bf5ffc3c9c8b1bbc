use bracket_arb::kalshi::types::{
    clone_quotes, ArbDirection, BracketQuote, Orderbook, OrderbookResponse, PriceLevel,
};
use serde_json::Value;

/// One side of a book on the wire: absent or null is no side, otherwise a
/// list of `[price, quantity]` pairs.
fn side(value: &Value) -> Option<Vec<PriceLevel>> {
    value.as_array().map(|levels| {
        levels
            .iter()
            .map(|level| {
                PriceLevel::from_pair((level[0].as_i64().unwrap(), level[1].as_i64().unwrap()))
            })
            .collect()
    })
}

/// Reads an order-book response as the client does.
fn response_from_json(text: &str) -> OrderbookResponse {
    let value: Value = serde_json::from_str(text).expect("response should be JSON");
    let book = &value["orderbook"];
    OrderbookResponse { orderbook: Orderbook::from_wire(side(&book["yes"]), side(&book["no"])) }
}

#[test]
fn test_deserialize_orderbook_both_sides() {
    let json = "{\"orderbook\":{\"no\":[[1,5084],[2,2839]],\"yes\":[[70,81],[75,120],[80,44],[90,7],[95,31]]}}";
    let resp = response_from_json(json);
    let ob = &resp.orderbook;

    assert_eq!(ob.no.len(), 2);
    assert_eq!(ob.no[0].price, 1);
    assert_eq!(ob.no[0].quantity, 5084);
    assert_eq!(ob.no[1].price, 2);
    assert_eq!(ob.no[1].quantity, 2839);

    assert_eq!(ob.yes.len(), 5);
    assert_eq!(ob.yes[0].price, 70);
    assert_eq!(ob.yes[0].quantity, 81);
    assert_eq!(ob.yes[4].price, 95);
    assert_eq!(ob.yes[4].quantity, 31);

    for level in ob.no.iter().chain(ob.yes.iter()) {
        assert!(level.price >= 1 && level.price <= 99, "price {} out of range", level.price);
        assert!(level.quantity > 0, "quantity {} should be positive", level.quantity);
    }
}

#[test]
fn test_deserialize_orderbook_null_yes() {
    let json = "{\"orderbook\":{\"no\":[[70,100]],\"yes\":null}}";
    let resp = response_from_json(json);
    let ob = &resp.orderbook;

    assert_eq!(ob.no.len(), 1);
    assert_eq!(ob.no[0].price, 70);
    assert_eq!(ob.no[0].quantity, 100);

    assert!(ob.yes.is_empty(), "null yes should deserialize as empty vec");
}

#[test]
fn test_deserialize_orderbook_null_both() {
    let json = r#"{"orderbook":{"no":null,"yes":null}}"#;
    let resp = response_from_json(json);
    assert!(resp.orderbook.no.is_empty());
    assert!(resp.orderbook.yes.is_empty());
}

#[test]
fn an_absent_side_is_empty_too() {
    let resp = response_from_json("{\"orderbook\":{\"no\":[[70,100]]}}");
    assert_eq!(resp.orderbook.no, vec![PriceLevel { price: 70, quantity: 100 }]);
    assert!(resp.orderbook.yes.is_empty());
    let resp = response_from_json("{\"orderbook\":{}}");
    assert!(resp.orderbook.no.is_empty());
    assert!(resp.orderbook.yes.is_empty());
}

#[test]
fn null_or_absent_sides_are_empty() {
    let book = Orderbook::from_wire(None, None);
    assert!(book.no.is_empty());
    assert!(book.yes.is_empty());
}

#[test]
fn a_null_yes_side_leaves_the_no_side() {
    let book = Orderbook::from_wire(None, Some(vec![PriceLevel::from_pair((70, 100))]));
    assert_eq!(book.no.len(), 1);
    assert_eq!(book.no[0].price, 70);
    assert_eq!(book.no[0].quantity, 100);
    assert!(book.yes.is_empty(), "null yes should be the empty side");
}

#[test]
fn both_sides_keep_their_levels_in_order() {
    let no = vec![PriceLevel::from_pair((1, 5084)), PriceLevel::from_pair((2, 2839))];
    let yes: Vec<PriceLevel> = [(70, 81), (75, 10), (80, 4), (90, 12), (95, 31)]
        .iter()
        .map(|pair| PriceLevel::from_pair(*pair))
        .collect();
    let book = Orderbook::from_wire(Some(yes), Some(no));
    assert_eq!(book.no.len(), 2);
    assert_eq!(book.no[0].price, 1);
    assert_eq!(book.no[0].quantity, 5084);
    assert_eq!(book.no[1].price, 2);
    assert_eq!(book.no[1].quantity, 2839);
    assert_eq!(book.yes.len(), 5);
    assert_eq!(book.yes[0].price, 70);
    assert_eq!(book.yes[0].quantity, 81);
    assert_eq!(book.yes[4].price, 95);
    assert_eq!(book.yes[4].quantity, 31);
    for level in book.no.iter().chain(book.yes.iter()) {
        assert!(level.is_valid());
    }
}

#[test]
fn a_level_is_valid_from_1_to_99_cents_with_a_quantity() {
    assert!(PriceLevel { price: 1, quantity: 1 }.is_valid());
    assert!(PriceLevel { price: 99, quantity: 1 }.is_valid());
    assert!(!PriceLevel { price: 0, quantity: 1 }.is_valid());
    assert!(!PriceLevel { price: 100, quantity: 1 }.is_valid());
    assert!(!PriceLevel { price: 50, quantity: 0 }.is_valid());
    assert!(!PriceLevel { price: 50, quantity: -4 }.is_valid());
}

#[test]
fn directions_have_upper_case_labels() {
    assert_eq!(ArbDirection::Long.label(), "LONG");
    assert_eq!(ArbDirection::Short.label(), "SHORT");
}

#[test]
fn quotes_are_copied_whole() {
    let quotes = vec![
        BracketQuote {
            ticker: "A".to_string(),
            title: "Alpha".to_string(),
            yes_ask_cents: 20,
            yes_bid_cents: 18,
            depth_at_no: 7,
            depth_at_yes: 9,
        },
        BracketQuote {
            ticker: "B".to_string(),
            title: "Beta".to_string(),
            yes_ask_cents: 30,
            yes_bid_cents: 28,
            depth_at_no: 1,
            depth_at_yes: 2,
        },
    ];
    assert_eq!(clone_quotes(&quotes), quotes);
    assert_eq!(quotes[1].clone(), quotes[1]);
    assert!(clone_quotes(&[]).is_empty());
}
