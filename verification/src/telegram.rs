//! Alerts to the chat service: whether one is sent, where to, and what it
//! says. Sending is left to the caller.

use crate::executor::{ExecutionResult, ExecutionResultView};
use crate::kalshi::types::{str_opt, ArbOpportunity, ArbOpportunityView};
use crate::kalshi::wire::{json_string_literal, push_json_string};
use crate::risk::{RiskBlock, RiskLimits, MAX_DAILY_ORDERS, MAX_OPEN_ARBS};
use crate::text::{decimal_digits, dollars_text, push_decimal_wide, push_dollars};
use vstd::prelude::*;

verus! {

/// The environment variable that holds the bot token.
pub const BOT_TOKEN_VAR: &'static str = "TELEGRAM_BOT_TOKEN";

/// The environment variable that holds the chat id.
pub const CHAT_ID_VAR: &'static str = "TELEGRAM_CHAT_ID";

/// A message to post: the address and the JSON body.
#[derive(Debug, PartialEq, Eq)]
pub struct AlertRequest {
    pub url: String,
    pub body: String,
}

/// The address that a message is posted to for a bot token.
pub open spec fn alert_url_of(token: Seq<char>) -> Seq<char> {
    "https://api.telegram.org/bot"@ + token + "/sendMessage"@
}

/// The JSON body of a message: the chat, the text, and Markdown as parse
/// mode.
pub open spec fn alert_body_of(chat_id: Seq<char>, message: Seq<char>) -> Seq<char> {
    "{\"chat_id\":"@ + json_string_literal(chat_id) + ",\"text\":"@ + json_string_literal(message)
        + ",\"parse_mode\":\"Markdown\"}"@
}

/// What is posted for a message, given the bot token and the chat id from
/// the environment: nothing unless both are set.
pub open spec fn alert_of(
    token: Option<Seq<char>>,
    chat_id: Option<Seq<char>>,
    message: Seq<char>,
) -> Option<(Seq<char>, Seq<char>)> {
    match (token, chat_id) {
        (Some(t), Some(c)) => Some((alert_url_of(t), alert_body_of(c, message))),
        _ => None,
    }
}

/// The request that delivers a message, if alerting is switched on: both
/// the bot token and the chat id must be set.
pub fn alert_request(token: Option<&str>, chat_id: Option<&str>, message: &str) -> (request: Option<
    AlertRequest,
>)
    ensures
        (match request {
            Some(r) => Some((r.url@, r.body@)),
            None => None,
        }) == alert_of(str_opt(token), str_opt(chat_id), message@),
{
    let t = match token {
        Some(t) => t,
        None => { return None; },
    };
    let c = match chat_id {
        Some(c) => c,
        None => { return None; },
    };
    let mut url = "https://api.telegram.org/bot".to_owned();
    url.append(t);
    url.append("/sendMessage");
    let mut body = "{\"chat_id\":".to_owned();
    push_json_string(&mut body, c);
    body.append(",\"text\":");
    push_json_string(&mut body, message);
    body.append(",\"parse_mode\":\"Markdown\"}");
    Some(AlertRequest { url, body })
}

/// The alert of a blocked opportunity: the reason and the counters.
pub open spec fn risk_limit_text(block: RiskBlock, event_ticker: Seq<char>, limits: RiskLimits) -> Seq<
    char,
> {
    "*RISK LIMIT: "@ + block.reason_text() + "*\nEvent: `"@ + event_ticker + "`\nOpen arbs: "@
        + decimal_digits(limits.open_arbs as nat) + "/"@ + decimal_digits(MAX_OPEN_ARBS as nat)
        + "\nDaily P&L: $"@ + dollars_text(limits.daily_pnl_cents as int) + "\nDaily orders: "@
        + decimal_digits(limits.daily_orders as nat) + "/"@ + decimal_digits(
        MAX_DAILY_ORDERS as nat,
    )
}

/// The alert of an opportunity that a circuit breaker blocked.
pub fn risk_limit_alert(block: RiskBlock, event_ticker: &str, limits: &RiskLimits) -> (text: String)
    ensures
        text@ == risk_limit_text(block, event_ticker@, *limits),
{
    let mut text = "*RISK LIMIT: ".to_owned();
    text.append(block.reason());
    text.append("*\nEvent: `");
    text.append(event_ticker);
    text.append("`\nOpen arbs: ");
    push_decimal_wide(&mut text, limits.open_arbs as u128);
    text.append("/");
    push_decimal_wide(&mut text, MAX_OPEN_ARBS as u128);
    text.append("\nDaily P&L: $");
    push_dollars(&mut text, limits.daily_pnl_cents as i128);
    text.append("\nDaily orders: ");
    push_decimal_wide(&mut text, limits.daily_orders as u128);
    text.append("/");
    push_decimal_wide(&mut text, MAX_DAILY_ORDERS as u128);
    text
}

/// The head of an execution alert: title, event, direction and brackets.
pub open spec fn alert_head(title: Seq<char>, opp: ArbOpportunityView) -> Seq<char> {
    title + "\nEvent: `"@ + opp.event_ticker + "`\nDirection: "@ + opp.direction.label_text()
        + "\nBrackets: "@ + decimal_digits(opp.brackets.len())
}

/// The alert of an execution in which no order was placed.
pub open spec fn total_failure_text(opp: ArbOpportunityView, result: ExecutionResultView) -> Seq<
    char,
> {
    alert_head("*TOTAL FAILURE*"@, opp) + "\nAll "@ + decimal_digits(result.api_failures.len())
        + " orders failed"@
}

/// The alert of a mixed execution: how many legs filled, rest and failed,
/// and the profit that was expected.
pub open spec fn partial_fill_text(opp: ArbOpportunityView, result: ExecutionResultView) -> Seq<
    char,
> {
    alert_head("*PARTIAL FILL*"@, opp) + "\nFilled: "@ + decimal_digits(result.filled.len())
        + "\nResting: "@ + decimal_digits(result.resting.len()) + " (cancelled)\nFailed: "@
        + decimal_digits(result.api_failures.len() + result.other.len())
        + "\nExpected profit: $"@ + dollars_text(opp.net_profit_cents)
}

/// Starts an execution alert.
fn start_alert(title: &str, opp: &ArbOpportunity) -> (text: String)
    ensures
        text@ == alert_head(title@, opp@),
{
    let mut text = title.to_owned();
    text.append("\nEvent: `");
    text.append(opp.event_ticker.as_str());
    text.append("`\nDirection: ");
    text.append(opp.direction.label());
    text.append("\nBrackets: ");
    push_decimal_wide(&mut text, opp.brackets.len() as u128);
    text
}

/// The alert of an execution in which no order was placed.
pub fn total_failure_alert(opp: &ArbOpportunity, result: &ExecutionResult) -> (text: String)
    ensures
        text@ == total_failure_text(opp@, result@),
{
    let mut text = start_alert("*TOTAL FAILURE*", opp);
    text.append("\nAll ");
    push_decimal_wide(&mut text, result.api_failures.len() as u128);
    text.append(" orders failed");
    text
}

/// The alert of a mixed execution.
pub fn partial_fill_alert(opp: &ArbOpportunity, result: &ExecutionResult) -> (text: String)
    ensures
        text@ == partial_fill_text(opp@, result@),
{
    let mut text = start_alert("*PARTIAL FILL*", opp);
    text.append("\nFilled: ");
    push_decimal_wide(&mut text, result.filled.len() as u128);
    text.append("\nResting: ");
    push_decimal_wide(&mut text, result.resting.len() as u128);
    text.append(" (cancelled)\nFailed: ");
    push_decimal_wide(&mut text, result.api_failures.len() as u128 + result.other.len() as u128);
    text.append("\nExpected profit: $");
    push_dollars(&mut text, opp.net_profit_cents as i128);
    text
}

} // verus!
