//! The persistent records: the rows of the four append-only files, and the
//! reconciliation of filled orders against the opportunity they were placed
//! for. Appending a row to its file is left to the caller.

use crate::clock::UtcStamp;
use crate::decimal::decimal_one_place;
use crate::detector::{fee_cents, leg_price, lemma_fee_bounds, taker_fee_cents};
use crate::executor::{leg_views, legs_in_range, or_zero, order_ids, order_in_range};
use crate::kalshi::types::{
    quote_views, ArbDirection, ArbOpportunity, ArbOpportunityView, BracketQuote, BracketQuoteView,
    Order, OrderView,
};
use crate::text::{decimal_digits, dollars_text, push_decimal_wide, push_dollars, text_eq};
use vstd::prelude::*;

verus! {

// --- Trades ---

/// The figures of one trade row.
#[derive(Debug, Clone, Copy, PartialEq, Eq, Structural)]
pub struct TradeFigures {
    /// What was done: YES was bought or sold.
    pub side: TradeSide,
    /// The YES price of the order in cents, 0 when the exchange gave none.
    pub price_cents: i64,
    /// The taker fee of the leg at that price and the position size.
    pub fee_cents: i64,
}

/// The side of a trade row.
#[derive(Debug, Clone, Copy, PartialEq, Eq, Structural)]
pub enum TradeSide {
    BuyYes,
    SellYes,
}

impl TradeSide {
    /// The label of the side in a trade row.
    pub fn label(&self) -> (name: &'static str)
        ensures
            name@ == (match *self {
                TradeSide::BuyYes => "BUY_YES"@,
                TradeSide::SellYes => "SELL_YES"@,
            }),
    {
        match self {
            TradeSide::BuyYes => "BUY_YES",
            TradeSide::SellYes => "SELL_YES",
        }
    }
}

/// The figures of the trade row of one placed order.
pub fn trade_figures(direction: ArbDirection, order: &Order, position_size: u32) -> (row:
    TradeFigures)
    ensures
        row.side == (match direction {
            ArbDirection::Long => TradeSide::BuyYes,
            ArbDirection::Short => TradeSide::SellYes,
        }),
        row.price_cents == or_zero(order@.yes_price),
        row.fee_cents == fee_cents(position_size as int, or_zero(order@.yes_price)),
{
    let price_cents = match order.yes_price {
        Some(p) => p,
        None => 0,
    };
    TradeFigures {
        side: match direction {
            ArbDirection::Long => TradeSide::BuyYes,
            ArbDirection::Short => TradeSide::SellYes,
        },
        price_cents,
        fee_cents: taker_fee_cents(position_size, price_cents),
    }
}

// --- Reconciliation ---

/// The size at which an order took effect: its fill count, else its count,
/// else 0.
pub open spec fn effective_count(o: OrderView) -> int {
    match o.fill_count {
        Some(c) => c,
        None => or_zero(o.count),
    }
}

/// What the filled legs cost or earned: price times effective size, summed.
pub open spec fn actual_notional(legs: Seq<(Seq<char>, OrderView)>) -> int
    decreases legs.len(),
{
    if legs.len() == 0 {
        0
    } else {
        actual_notional(legs.drop_last()) + or_zero(legs.last().1.yes_price) * effective_count(
            legs.last().1,
        )
    }
}

/// The fees of the filled legs, each at its own price and size and rounded
/// up on its own.
pub open spec fn actual_fees(legs: Seq<(Seq<char>, OrderView)>) -> int
    decreases legs.len(),
{
    if legs.len() == 0 {
        0
    } else {
        actual_fees(legs.drop_last()) + fee_cents(
            effective_count(legs.last().1),
            or_zero(legs.last().1.yes_price),
        )
    }
}

/// The position size that the payout is reckoned on: the effective size of
/// the first filled leg, 0 when nothing filled.
pub open spec fn reference_size(legs: Seq<(Seq<char>, OrderView)>) -> int {
    if legs.len() == 0 {
        0
    } else {
        effective_count(legs[0].1)
    }
}

/// The net profit that the fills gave: when long, the payout of 100 cents
/// per contract less cost and fees; when short, the revenue less the
/// liability of 100 cents per contract and fees.
pub open spec fn actual_net(legs: Seq<(Seq<char>, OrderView)>, direction: ArbDirection) -> int {
    match direction {
        ArbDirection::Long => 100 * reference_size(legs) - actual_notional(legs) - actual_fees(
            legs,
        ),
        ArbDirection::Short => actual_notional(legs) - 100 * reference_size(legs) - actual_fees(
            legs,
        ),
    }
}

/// The price that the opportunity expected for a ticker: that of the first
/// bracket with this ticker, 0 when there is none.
pub open spec fn expected_price(
    brackets: Seq<BracketQuoteView>,
    ticker: Seq<char>,
    direction: ArbDirection,
) -> int
    decreases brackets.len(),
{
    if brackets.len() == 0 {
        0
    } else if brackets[0].ticker == ticker {
        leg_price(brackets[0], direction)
    } else {
        expected_price(brackets.drop_first(), ticker, direction)
    }
}

/// The expected and the actual price of one filled leg.
#[derive(Debug, PartialEq, Eq)]
pub struct PriceDrift {
    pub ticker: String,
    pub expected_cents: i64,
    pub actual_cents: i64,
}

pub struct PriceDriftView {
    pub ticker: Seq<char>,
    pub expected_cents: int,
    pub actual_cents: int,
}

impl View for PriceDrift {
    type V = PriceDriftView;

    open spec fn view(&self) -> PriceDriftView {
        PriceDriftView {
            ticker: self.ticker@,
            expected_cents: self.expected_cents as int,
            actual_cents: self.actual_cents as int,
        }
    }
}

impl PriceDrift {
    /// Whether the fill price differs from the expected one.
    pub fn slipped(&self) -> (r: bool)
        ensures
            r == (self@.actual_cents != self@.expected_cents),
    {
        self.actual_cents != self.expected_cents
    }
}

/// The drift of one leg against the brackets of the opportunity.
pub open spec fn drift_of(
    brackets: Seq<BracketQuoteView>,
    direction: ArbDirection,
    leg: (Seq<char>, OrderView),
) -> PriceDriftView {
    PriceDriftView {
        ticker: leg.0,
        expected_cents: expected_price(brackets, leg.0, direction),
        actual_cents: or_zero(leg.1.yes_price),
    }
}

/// The outcome of a reconciliation. Price drift is reported per leg and
/// never changes the figures.
#[derive(Debug, PartialEq, Eq)]
pub struct Reconciliation {
    pub expected_net_cents: i64,
    pub actual_net_cents: i64,
    /// Actual less expected net.
    pub slippage_cents: i128,
    /// One entry per filled leg, in order.
    pub drifts: Vec<PriceDrift>,
}

/// The notional and the fees of legs in range are bounded per leg.
pub proof fn lemma_actuals_bounds(legs: Seq<(Seq<char>, OrderView)>)
    requires
        forall|i: int| 0 <= i < legs.len() ==> order_in_range((#[trigger] legs[i]).1),
    ensures
        0 <= actual_notional(legs) <= legs.len() * 429_496_729_500,
        0 <= actual_fees(legs) <= legs.len() * 8_589_934_590,
    decreases legs.len(),
{
    if legs.len() > 0 {
        let front = legs.drop_last();
        assert forall|i: int| 0 <= i < front.len() implies order_in_range(
            (#[trigger] front[i]).1,
        ) by {
            assert(front[i] == legs[i]);
        }
        lemma_actuals_bounds(front);
        let o = legs[legs.len() - 1].1;
        assert(order_in_range(o));
        let price = or_zero(o.yes_price);
        let count = effective_count(o);
        assert(0 <= price * count <= 429_496_729_500) by (nonlinear_arith)
            requires
                0 <= price <= 100,
                0 <= count <= 4_294_967_295,
        ;
        lemma_fee_bounds(count, price);
    }
}

/// The price that the opportunity expected for `ticker`.
pub fn expected_leg_price(brackets: &[BracketQuote], ticker: &str, direction: ArbDirection) -> (price:
    i64)
    ensures
        price == expected_price(quote_views(brackets@), ticker@, direction),
{
    let ghost views = quote_views(brackets@);
    let mut i: usize = 0;
    assert(views.skip(0) =~= views);
    while i < brackets.len()
        invariant
            i <= brackets.len(),
            views == quote_views(brackets@),
            expected_price(views, ticker@, direction) == expected_price(
                views.skip(i as int),
                ticker@,
                direction,
            ),
        decreases brackets.len() - i,
    {
        let b = &brackets[i];
        proof {
            assert(views.skip(i as int)[0] == b@);
            assert(views.skip(i as int).drop_first() =~= views.skip(i + 1));
        }
        if text_eq(b.ticker.as_str(), ticker) {
            return match direction {
                ArbDirection::Long => b.yes_ask_cents,
                ArbDirection::Short => b.yes_bid_cents,
            };
        }
        i += 1;
    }
    assert(views.skip(brackets.len() as int).len() == 0);
    0
}

/// The views of a list of drifts.
pub open spec fn drift_views(drifts: Seq<PriceDrift>) -> Seq<PriceDriftView> {
    drifts.map_values(|d: PriceDrift| d@)
}

/// Reconciles the filled orders of an execution against the opportunity:
/// recomputes the net profit from the prices and sizes that the exchange
/// reported, with the fee of each leg at its own price and size, and sets it
/// against the expected net profit.
pub fn reconcile(opp: &ArbOpportunity, filled_orders: &[(String, Order)]) -> (rec: Reconciliation)
    requires
        legs_in_range(leg_views(filled_orders@)),
    ensures
        rec.expected_net_cents == opp.net_profit_cents,
        rec.actual_net_cents == actual_net(leg_views(filled_orders@), opp.direction),
        rec.slippage_cents == actual_net(leg_views(filled_orders@), opp.direction)
            - opp.net_profit_cents,
        rec.drifts.len() == filled_orders.len(),
        forall|i: int|
            0 <= i < rec.drifts.len() ==> (#[trigger] rec.drifts[i])@ == drift_of(
                opp@.brackets,
                opp.direction,
                leg_views(filled_orders@)[i],
            ),
{
    let ghost legs = leg_views(filled_orders@);
    let mut notional: i64 = 0;
    let mut fees: i64 = 0;
    let mut drifts: Vec<PriceDrift> = Vec::new();
    let mut i: usize = 0;
    while i < filled_orders.len()
        invariant
            i <= filled_orders.len(),
            legs == leg_views(filled_orders@),
            legs_in_range(legs),
            notional == actual_notional(legs.take(i as int)),
            fees == actual_fees(legs.take(i as int)),
            0 <= notional <= i * 429_496_729_500,
            0 <= fees <= i * 8_589_934_590,
            drifts.len() == i,
            forall|j: int|
                0 <= j < i ==> (#[trigger] drifts[j])@ == drift_of(
                    opp@.brackets,
                    opp.direction,
                    legs[j],
                ),
        decreases filled_orders.len() - i,
    {
        let ticker = &filled_orders[i].0;
        let order = &filled_orders[i].1;
        proof {
            assert(legs[i as int] == (ticker@, order@));
            assert(legs.take(i + 1).drop_last() =~= legs.take(i as int));
            assert(legs.take(i + 1).last() == legs[i as int]);
            assert(order_in_range(legs[i as int].1));
        }
        let actual_price = match order.yes_price {
            Some(p) => p,
            None => 0,
        };
        let size = effective_size(order);
        assert(0 <= actual_price * size <= 429_496_729_500) by (nonlinear_arith)
            requires
                0 <= actual_price <= 100,
                0 <= size <= 4_294_967_295,
        ;
        proof {
            lemma_fee_bounds(size as int, actual_price as int);
        }
        notional = notional + actual_price * size;
        fees = fees + taker_fee_cents(size as u32, actual_price);
        let expected = expected_leg_price(opp.brackets.as_slice(), ticker.as_str(), opp.direction);
        drifts.push(
            PriceDrift { ticker: ticker.clone(), expected_cents: expected, actual_cents: actual_price },
        );
        i += 1;
    }
    assert(legs.take(filled_orders.len() as int) =~= legs);
    let reference: i64 = if filled_orders.len() == 0 {
        0
    } else {
        assert(legs[0] == (filled_orders[0].0@, filled_orders[0].1@));
        assert(order_in_range(legs[0].1));
        effective_size(&filled_orders[0].1)
    };
    let actual_net: i64 = match opp.direction {
        ArbDirection::Long => 100 * reference - notional - fees,
        ArbDirection::Short => notional - 100 * reference - fees,
    };
    Reconciliation {
        expected_net_cents: opp.net_profit_cents,
        actual_net_cents: actual_net,
        slippage_cents: actual_net as i128 - opp.net_profit_cents as i128,
        drifts,
    }
}

/// The size at which an order took effect: its fill count, else its count,
/// else 0.
pub fn effective_size(order: &Order) -> (size: i64)
    ensures
        size == effective_count(order@),
{
    match order.fill_count {
        Some(c) => c,
        None => match order.count {
            Some(c) => c,
            None => 0,
        },
    }
}

// --- Rows ---

/// The file of the opportunity rows.
pub const OPPORTUNITIES_FILE: &'static str = "data/opportunities.md";

/// The file of the trade rows.
pub const TRADES_FILE: &'static str = "data/trades.md";

/// The file of the scan rows.
pub const SCANS_FILE: &'static str = "data/scans.md";

/// The file of the reconciliation rows.
pub const RECONCILIATION_FILE: &'static str = "data/reconciliation.md";

/// The row of a detected opportunity: time, event, direction, number of
/// brackets, price sum, fees and net profit in dollars, return in percent,
/// and whether it was executed.
pub open spec fn opportunity_row_text(ts: Seq<char>, opp: ArbOpportunityView, executed: bool) -> Seq<
    char,
> {
    "| "@ + ts + " | "@ + opp.event_ticker + " | "@ + opp.direction.label_text() + " | "@
        + decimal_digits(opp.brackets.len()) + " | $"@ + dollars_text(opp.sum_cents) + " | $"@
        + dollars_text(opp.total_fees_cents) + " | $"@ + dollars_text(opp.net_profit_cents)
        + " | "@ + decimal_one_place(opp.roi_pct.0, opp.roi_pct.1) + "% | "@ + (if executed {
        "YES"@
    } else {
        "NO"@
    }) + " |"@
}

/// The row of a detected opportunity.
pub fn opportunity_row(stamp: &UtcStamp, opp: &ArbOpportunity, executed: bool) -> (row: String)
    requires
        opp.roi_pct.wf(),
    ensures
        row@ == opportunity_row_text(stamp.iso_text(), opp@, executed),
{
    let mut row = "| ".to_owned();
    row.append(stamp.iso8601().as_str());
    row.append(" | ");
    row.append(opp.event_ticker.as_str());
    row.append(" | ");
    row.append(opp.direction.label());
    row.append(" | ");
    push_decimal_wide(&mut row, opp.brackets.len() as u128);
    row.append(" | $");
    push_dollars(&mut row, opp.sum_cents as i128);
    row.append(" | $");
    push_dollars(&mut row, opp.total_fees_cents as i128);
    row.append(" | $");
    push_dollars(&mut row, opp.net_profit_cents as i128);
    row.append(" | ");
    row.append(opp.roi_pct.to_one_place().as_str());
    row.append("% | ");
    row.append(if executed {
        "YES"
    } else {
        "NO"
    });
    row.append(" |");
    row
}

/// The row of a placed order: time, event, ticker, side, price in dollars,
/// count, fee in dollars, order id and status.
pub open spec fn trade_row_text(
    ts: Seq<char>,
    event_ticker: Seq<char>,
    direction: ArbDirection,
    ticker: Seq<char>,
    order: OrderView,
    position_size: int,
) -> Seq<char> {
    "| "@ + ts + " | "@ + event_ticker + " | "@ + ticker + " | "@ + (match direction {
        ArbDirection::Long => "BUY_YES"@,
        ArbDirection::Short => "SELL_YES"@,
    }) + " | $"@ + dollars_text(or_zero(order.yes_price)) + " | "@ + decimal_digits(
        position_size as nat,
    ) + " | $"@ + dollars_text(fee_cents(position_size, or_zero(order.yes_price))) + " | "@
        + order.order_id + " | "@ + order.status + " |"@
}

/// The row of a placed order.
pub fn trade_row(
    stamp: &UtcStamp,
    opp: &ArbOpportunity,
    ticker: &str,
    order: &Order,
    position_size: u32,
) -> (row: String)
    ensures
        row@ == trade_row_text(
            stamp.iso_text(),
            opp@.event_ticker,
            opp.direction,
            ticker@,
            order@,
            position_size as int,
        ),
{
    let figures = trade_figures(opp.direction, order, position_size);
    let mut row = "| ".to_owned();
    row.append(stamp.iso8601().as_str());
    row.append(" | ");
    row.append(opp.event_ticker.as_str());
    row.append(" | ");
    row.append(ticker);
    row.append(" | ");
    row.append(figures.side.label());
    row.append(" | $");
    push_dollars(&mut row, figures.price_cents as i128);
    row.append(" | ");
    push_decimal_wide(&mut row, position_size as u128);
    row.append(" | $");
    push_dollars(&mut row, figures.fee_cents as i128);
    row.append(" | ");
    row.append(order.order_id.as_str());
    row.append(" | ");
    row.append(order.status.as_str());
    row.append(" |");
    row
}

/// The row of a completed scan cycle: time and the numbers of series,
/// events, opportunities and trades.
pub fn scan_row(
    stamp: &UtcStamp,
    series_count: usize,
    events_count: usize,
    opportunities: usize,
    trades: usize,
) -> (row: String)
    ensures
        row@ == "| "@ + stamp.iso_text() + " | "@ + decimal_digits(series_count as nat) + " | "@
            + decimal_digits(events_count as nat) + " | "@ + decimal_digits(opportunities as nat)
            + " | "@ + decimal_digits(trades as nat) + " |"@,
{
    let mut row = "| ".to_owned();
    row.append(stamp.iso8601().as_str());
    row.append(" | ");
    push_decimal_wide(&mut row, series_count as u128);
    row.append(" | ");
    push_decimal_wide(&mut row, events_count as u128);
    row.append(" | ");
    push_decimal_wide(&mut row, opportunities as u128);
    row.append(" | ");
    push_decimal_wide(&mut row, trades as u128);
    row.append(" |");
    row
}

/// Texts joined by a comma and a space.
pub open spec fn joined(parts: Seq<Seq<char>>) -> Seq<char>
    decreases parts.len(),
{
    if parts.len() == 0 {
        Seq::empty()
    } else if parts.len() == 1 {
        parts[0]
    } else {
        joined(parts.drop_last()) + ", "@ + parts.last()
    }
}

/// The statuses of the legs.
pub open spec fn leg_statuses(legs: Seq<(Seq<char>, OrderView)>) -> Seq<Seq<char>> {
    legs.map_values(|leg: (Seq<char>, OrderView)| leg.1.status)
}

/// The order ids, or the statuses, of the filled orders, joined by a comma
/// and a space.
pub fn joined_field(filled_orders: &[(String, Order)], statuses: bool) -> (text: String)
    ensures
        text@ == joined(
            if statuses {
                leg_statuses(leg_views(filled_orders@))
            } else {
                order_ids(leg_views(filled_orders@))
            },
        ),
{
    let ghost legs = leg_views(filled_orders@);
    let ghost parts = if statuses {
        leg_statuses(legs)
    } else {
        order_ids(legs)
    };
    let mut text = String::new();
    let mut i: usize = 0;
    assert(parts.take(0) =~= Seq::<Seq<char>>::empty());
    while i < filled_orders.len()
        invariant
            i <= filled_orders.len(),
            legs == leg_views(filled_orders@),
            parts == (if statuses {
                leg_statuses(legs)
            } else {
                order_ids(legs)
            }),
            text@ == joined(parts.take(i as int)),
        decreases filled_orders.len() - i,
    {
        let order = &filled_orders[i].1;
        proof {
            assert(legs[i as int].1 == order@);
            assert(parts.take(i + 1).drop_last() =~= parts.take(i as int));
            assert(parts.take(i + 1).last() == parts[i as int]);
        }
        let ghost before = text@;
        if i > 0 {
            text.append(", ");
        }
        text.append(
            if statuses {
                order.status.as_str()
            } else {
                order.order_id.as_str()
            },
        );
        proof {
            if i == 0 {
                assert(before =~= Seq::<char>::empty());
                assert(text@ =~= parts[0]);
            }
        }
        i += 1;
    }
    assert(parts.take(filled_orders.len() as int) =~= parts);
    text
}

/// The row of a reconciliation: time, event, direction, order ids,
/// statuses, expected and actual net profit and slippage in dollars, marked
/// as incomplete where not every leg filled.
pub open spec fn reconciliation_row_text(
    ts: Seq<char>,
    opp: ArbOpportunityView,
    legs: Seq<(Seq<char>, OrderView)>,
    incomplete: bool,
) -> Seq<char> {
    "| "@ + ts + " | "@ + opp.event_ticker + " | "@ + opp.direction.label_text() + " | "@
        + joined(order_ids(legs)) + " | "@ + joined(leg_statuses(legs)) + " | $"@
        + dollars_text(opp.net_profit_cents) + " | $"@ + dollars_text(
        actual_net(legs, opp.direction),
    ) + " | $"@ + dollars_text(actual_net(legs, opp.direction) - opp.net_profit_cents) + (if incomplete {
        " (INCOMPLETE)"@
    } else {
        Seq::empty()
    }) + " |"@
}

/// The row of a reconciliation of filled orders against their opportunity.
pub fn reconciliation_row(
    stamp: &UtcStamp,
    opp: &ArbOpportunity,
    filled_orders: &[(String, Order)],
    incomplete: bool,
) -> (row: String)
    requires
        legs_in_range(leg_views(filled_orders@)),
    ensures
        row@ == reconciliation_row_text(
            stamp.iso_text(),
            opp@,
            leg_views(filled_orders@),
            incomplete,
        ),
{
    let rec = reconcile(opp, filled_orders);
    let mut row = "| ".to_owned();
    row.append(stamp.iso8601().as_str());
    row.append(" | ");
    row.append(opp.event_ticker.as_str());
    row.append(" | ");
    row.append(opp.direction.label());
    row.append(" | ");
    row.append(joined_field(filled_orders, false).as_str());
    row.append(" | ");
    row.append(joined_field(filled_orders, true).as_str());
    row.append(" | $");
    push_dollars(&mut row, rec.expected_net_cents as i128);
    row.append(" | $");
    push_dollars(&mut row, rec.actual_net_cents as i128);
    row.append(" | $");
    push_dollars(&mut row, rec.slippage_cents);
    if incomplete {
        row.append(" (INCOMPLETE)");
    }
    row.append(" |");
    row
}

} // verus!
