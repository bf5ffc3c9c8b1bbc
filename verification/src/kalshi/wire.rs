//! The JSON body of an order placement.
//!
//! The body is an object with the fields `ticker`, `action`, `side`, `type`,
//! `count`, `yes_price` and `no_price`, in this order; the price of the side
//! that is not used is `null`. Texts are quoted and escaped by `serde_json`.

use crate::kalshi::types::{CreateOrderRequest, CreateOrderRequestView};
use crate::text::{decimal_text, push_decimal, push_signed};
use vstd::prelude::*;

verus! {

/// The JSON string literal, quotes included, that `serde_json` writes for a
/// text.
pub uninterp spec fn json_string_literal(text: Seq<char>) -> Seq<char>;

/// The JSON of an optional amount: its decimal numeral, or `null`.
pub open spec fn json_amount(amount: Option<int>) -> Seq<char> {
    match amount {
        Some(n) => decimal_text(n),
        None => "null"@,
    }
}

/// The JSON body of an order placement.
pub open spec fn order_request_json(req: CreateOrderRequestView) -> Seq<char> {
    "{\"ticker\":"@ + json_string_literal(req.ticker) + ",\"action\":"@ + json_string_literal(
        req.action,
    ) + ",\"side\":"@ + json_string_literal(req.side) + ",\"type\":"@ + json_string_literal(
        req.order_type,
    ) + ",\"count\":"@ + decimal_text(req.count) + ",\"yes_price\":"@ + json_amount(req.yes_price)
        + ",\"no_price\":"@ + json_amount(req.no_price) + "}"@
}

/// Appends the JSON of an optional amount.
pub fn push_json_amount(out: &mut String, amount: Option<i64>)
    ensures
        final(out)@ == old(out)@ + json_amount(
            match amount {
                Some(n) => Some(n as int),
                None => None,
            },
        ),
{
    match amount {
        Some(n) => push_signed(out, n),
        None => out.append("null"),
    }
}

/// Appends a text as a JSON string.
pub fn push_json_string(out: &mut String, text: &str)
    ensures
        final(out)@ == old(out)@ + json_string_literal(text@),
{
    out.append(json_quote(text).as_str());
}

impl CreateOrderRequest {
    /// The JSON body that places this order. The order type goes out under
    /// the name `type`.
    pub fn to_json(&self) -> (body: String)
        ensures
            body@ == order_request_json(self@),
    {
        let mut body = "{\"ticker\":".to_owned();
        push_json_string(&mut body, self.ticker.as_str());
        body.append(",\"action\":");
        push_json_string(&mut body, self.action.as_str());
        body.append(",\"side\":");
        push_json_string(&mut body, self.side.as_str());
        body.append(",\"type\":");
        push_json_string(&mut body, self.order_type.as_str());
        body.append(",\"count\":");
        push_decimal(&mut body, self.count as u64);
        body.append(",\"yes_price\":");
        push_json_amount(&mut body, self.yes_price);
        body.append(",\"no_price\":");
        push_json_amount(&mut body, self.no_price);
        body.append("}");
        body
    }
}

/// Quotes a text as a JSON string with `serde_json::to_string`. Trusted:
/// the literal depends on the text alone; it is named
/// `json_string_literal`. Serialising a text does not fail.
#[verifier::external_body]
fn json_quote(text: &str) -> (literal: String)
    ensures
        literal@ == json_string_literal(text@),
{
    serde_json::to_string(text).unwrap_or_default()
}

} // verus!
