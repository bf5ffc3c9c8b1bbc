//! Wire-level and derived data of the exchange.
//!
//! Every type that carries text has a view in which the text is a
//! `Seq<char>`; contracts elsewhere in the crate speak of those views.

use crate::decimal::DecimalPct;
use vstd::prelude::*;

verus! {

/// The view of optional text.
pub open spec fn text_opt(t: Option<String>) -> Option<Seq<char>> {
    match t {
        Some(s) => Some(s@),
        None => None,
    }
}

/// The view of an optional text slice.
pub open spec fn str_opt(t: Option<&str>) -> Option<Seq<char>> {
    match t {
        Some(s) => Some(s@),
        None => None,
    }
}

/// The view of an optional amount.
pub open spec fn int_opt(v: Option<i64>) -> Option<int> {
    match v {
        Some(n) => Some(n as int),
        None => None,
    }
}

// --- Series ---

/// A family of events listed by the exchange.
#[derive(Debug, PartialEq, Eq)]
pub struct Series {
    pub ticker: String,
    pub title: String,
    pub status: Option<String>,
}

pub struct SeriesView {
    pub ticker: Seq<char>,
    pub title: Seq<char>,
    pub status: Option<Seq<char>>,
}

impl View for Series {
    type V = SeriesView;

    open spec fn view(&self) -> SeriesView {
        SeriesView { ticker: self.ticker@, title: self.title@, status: text_opt(self.status) }
    }
}

/// A copy of optional text.
pub fn clone_text_opt(t: &Option<String>) -> (copy: Option<String>)
    ensures
        text_opt(copy) == text_opt(*t),
{
    match t {
        Some(s) => Some(s.clone()),
        None => None,
    }
}

impl Clone for Series {
    fn clone(&self) -> (copy: Self)
        ensures
            copy@ == self@,
    {
        Series {
            ticker: self.ticker.clone(),
            title: self.title.clone(),
            status: clone_text_opt(&self.status),
        }
    }
}

/// One page of the series catalog.
#[derive(Debug, PartialEq, Eq)]
pub struct SeriesResponse {
    pub series: Vec<Series>,
    pub cursor: Option<String>,
}

// --- Markets ---

/// One outcome market of an event.
#[derive(Debug, PartialEq, Eq)]
pub struct Market {
    pub ticker: String,
    pub title: String,
    pub subtitle: Option<String>,
    pub status: String,
    pub result: Option<String>,
}

pub struct MarketView {
    pub ticker: Seq<char>,
    pub title: Seq<char>,
    pub subtitle: Option<Seq<char>>,
    pub status: Seq<char>,
    pub result: Option<Seq<char>>,
}

impl View for Market {
    type V = MarketView;

    open spec fn view(&self) -> MarketView {
        MarketView {
            ticker: self.ticker@,
            title: self.title@,
            subtitle: text_opt(self.subtitle),
            status: self.status@,
            result: text_opt(self.result),
        }
    }
}

impl Clone for Market {
    fn clone(&self) -> (copy: Self)
        ensures
            copy@ == self@,
    {
        Market {
            ticker: self.ticker.clone(),
            title: self.title.clone(),
            subtitle: clone_text_opt(&self.subtitle),
            status: self.status.clone(),
            result: clone_text_opt(&self.result),
        }
    }
}

// --- Events ---

/// An event with its nested markets.
#[derive(Debug, PartialEq, Eq)]
pub struct Event {
    pub event_ticker: String,
    pub title: String,
    pub mutually_exclusive: bool,
    pub status: Option<String>,
    pub markets: Vec<Market>,
}

pub struct EventView {
    pub event_ticker: Seq<char>,
    pub title: Seq<char>,
    pub mutually_exclusive: bool,
    pub status: Option<Seq<char>>,
    pub markets: Seq<MarketView>,
}

impl View for Event {
    type V = EventView;

    open spec fn view(&self) -> EventView {
        EventView {
            event_ticker: self.event_ticker@,
            title: self.title@,
            mutually_exclusive: self.mutually_exclusive,
            status: text_opt(self.status),
            markets: self.markets@.map_values(|m: Market| m@),
        }
    }
}

/// One page of the events of a series.
#[derive(Debug, PartialEq, Eq)]
pub struct EventsResponse {
    pub events: Vec<Event>,
    pub cursor: Option<String>,
}

// --- Orderbook ---

/// One resting level of an order book: a price in cents and the quantity
/// offered at it. On the wire a level is the pair `[price, quantity]`.
#[derive(Debug, Clone, Copy, PartialEq, Eq, Structural)]
pub struct PriceLevel {
    pub price: i64,
    pub quantity: i64,
}

impl PriceLevel {
    /// A level as the exchange defines it: a price of 1 to 99 cents and a
    /// positive quantity.
    pub open spec fn wf(self) -> bool {
        1 <= self.price <= 99 && self.quantity >= 1
    }

    /// The level that the wire pair `[price, quantity]` stands for.
    pub fn from_pair(pair: (i64, i64)) -> (level: PriceLevel)
        ensures
            level.price == pair.0,
            level.quantity == pair.1,
    {
        PriceLevel { price: pair.0, quantity: pair.1 }
    }

    /// Whether this level is one the exchange can have sent.
    pub fn is_valid(&self) -> (ok: bool)
        ensures
            ok == self.wf(),
    {
        1 <= self.price && self.price <= 99 && self.quantity >= 1
    }
}

/// Every level of one side is well formed.
pub open spec fn levels_wf(levels: Seq<PriceLevel>) -> bool {
    forall|i: int| 0 <= i < levels.len() ==> (#[trigger] levels[i]).wf()
}

/// The two sides of a market's book. Neither side is assumed to be sorted.
#[derive(Debug, PartialEq, Eq)]
pub struct Orderbook {
    pub yes: Vec<PriceLevel>,
    pub no: Vec<PriceLevel>,
}

pub struct OrderbookView {
    pub yes: Seq<PriceLevel>,
    pub no: Seq<PriceLevel>,
}

impl View for Orderbook {
    type V = OrderbookView;

    open spec fn view(&self) -> OrderbookView {
        OrderbookView { yes: self.yes@, no: self.no@ }
    }
}

/// The levels of a side that may be absent (or null) on the wire.
pub open spec fn side_or_empty(side: Option<Vec<PriceLevel>>) -> Seq<PriceLevel> {
    match side {
        Some(levels) => levels@,
        None => Seq::empty(),
    }
}

impl Orderbook {
    /// The book that the wire form stands for: a side that is absent or null
    /// is the empty side.
    pub fn from_wire(yes: Option<Vec<PriceLevel>>, no: Option<Vec<PriceLevel>>) -> (book:
        Orderbook)
        ensures
            book.yes@ == side_or_empty(yes),
            book.no@ == side_or_empty(no),
    {
        let yes_levels = match yes {
            Some(levels) => levels,
            None => Vec::new(),
        };
        let no_levels = match no {
            Some(levels) => levels,
            None => Vec::new(),
        };
        Orderbook { yes: yes_levels, no: no_levels }
    }
}

/// The body of an order-book response.
#[derive(Debug, PartialEq, Eq)]
pub struct OrderbookResponse {
    pub orderbook: Orderbook,
}

// --- Orders ---

/// The body of an order placement. On the wire `order_type` is the field
/// `type`, and the price of the unused side is null.
#[derive(Debug, PartialEq, Eq)]
pub struct CreateOrderRequest {
    pub ticker: String,
    pub action: String,
    pub side: String,
    pub order_type: String,
    pub count: u32,
    pub yes_price: Option<i64>,
    pub no_price: Option<i64>,
}

pub struct CreateOrderRequestView {
    pub ticker: Seq<char>,
    pub action: Seq<char>,
    pub side: Seq<char>,
    pub order_type: Seq<char>,
    pub count: int,
    pub yes_price: Option<int>,
    pub no_price: Option<int>,
}

impl View for CreateOrderRequest {
    type V = CreateOrderRequestView;

    open spec fn view(&self) -> CreateOrderRequestView {
        CreateOrderRequestView {
            ticker: self.ticker@,
            action: self.action@,
            side: self.side@,
            order_type: self.order_type@,
            count: self.count as int,
            yes_price: int_opt(self.yes_price),
            no_price: int_opt(self.no_price),
        }
    }
}

/// An order as the exchange reports it.
#[derive(Debug, PartialEq, Eq)]
pub struct Order {
    pub order_id: String,
    pub ticker: String,
    pub status: String,
    pub action: String,
    pub side: String,
    pub order_type: String,
    pub yes_price: Option<i64>,
    pub no_price: Option<i64>,
    pub count: Option<i64>,
    pub remaining_count: Option<i64>,
    pub fill_count: Option<i64>,
}

pub struct OrderView {
    pub order_id: Seq<char>,
    pub ticker: Seq<char>,
    pub status: Seq<char>,
    pub action: Seq<char>,
    pub side: Seq<char>,
    pub order_type: Seq<char>,
    pub yes_price: Option<int>,
    pub no_price: Option<int>,
    pub count: Option<int>,
    pub remaining_count: Option<int>,
    pub fill_count: Option<int>,
}

impl View for Order {
    type V = OrderView;

    open spec fn view(&self) -> OrderView {
        OrderView {
            order_id: self.order_id@,
            ticker: self.ticker@,
            status: self.status@,
            action: self.action@,
            side: self.side@,
            order_type: self.order_type@,
            yes_price: int_opt(self.yes_price),
            no_price: int_opt(self.no_price),
            count: int_opt(self.count),
            remaining_count: int_opt(self.remaining_count),
            fill_count: int_opt(self.fill_count),
        }
    }
}

/// The body of an order-placement response.
#[derive(Debug, PartialEq, Eq)]
pub struct CreateOrderResponse {
    pub order: Order,
}

// --- Bracket analysis ---

/// The two Dutch-book directions.
#[derive(Debug, Clone, Copy, PartialEq, Eq, Structural)]
pub enum ArbDirection {
    /// Buy YES on every bracket.
    Long,
    /// Sell YES on every bracket.
    Short,
}

impl ArbDirection {
    /// The upper-case name of the direction.
    pub open spec fn label_text(self) -> Seq<char> {
        match self {
            ArbDirection::Long => "LONG"@,
            ArbDirection::Short => "SHORT"@,
        }
    }

    /// The upper-case name of the direction, `LONG` or `SHORT`.
    pub fn label(&self) -> (name: &'static str)
        ensures
            name@ == self.label_text(),
    {
        match self {
            ArbDirection::Long => "LONG",
            ArbDirection::Short => "SHORT",
        }
    }
}

/// The top of one market's book from the point of view of a YES taker.
#[derive(Debug, PartialEq, Eq)]
pub struct BracketQuote {
    pub ticker: String,
    pub title: String,
    /// Cost to buy YES: 100 minus the best NO bid.
    pub yes_ask_cents: i64,
    /// Revenue from selling YES: the best YES bid, 0 when there is none.
    pub yes_bid_cents: i64,
    /// Quantity at the best NO bid.
    pub depth_at_no: i64,
    /// Quantity at the best YES bid.
    pub depth_at_yes: i64,
}

pub struct BracketQuoteView {
    pub ticker: Seq<char>,
    pub title: Seq<char>,
    pub yes_ask_cents: int,
    pub yes_bid_cents: int,
    pub depth_at_no: int,
    pub depth_at_yes: int,
}

impl View for BracketQuote {
    type V = BracketQuoteView;

    open spec fn view(&self) -> BracketQuoteView {
        BracketQuoteView {
            ticker: self.ticker@,
            title: self.title@,
            yes_ask_cents: self.yes_ask_cents as int,
            yes_bid_cents: self.yes_bid_cents as int,
            depth_at_no: self.depth_at_no as int,
            depth_at_yes: self.depth_at_yes as int,
        }
    }
}

impl Clone for BracketQuote {
    fn clone(&self) -> (copy: Self)
        ensures
            copy@ == self@,
    {
        BracketQuote {
            ticker: self.ticker.clone(),
            title: self.title.clone(),
            yes_ask_cents: self.yes_ask_cents,
            yes_bid_cents: self.yes_bid_cents,
            depth_at_no: self.depth_at_no,
            depth_at_yes: self.depth_at_yes,
        }
    }
}

/// The views of a list of quotes.
pub open spec fn quote_views(quotes: Seq<BracketQuote>) -> Seq<BracketQuoteView> {
    quotes.map_values(|q: BracketQuote| q@)
}

/// A copy of a list of quotes.
pub fn clone_quotes(quotes: &[BracketQuote]) -> (copy: Vec<BracketQuote>)
    ensures
        quote_views(copy@) == quote_views(quotes@),
{
    let mut copy: Vec<BracketQuote> = Vec::new();
    let mut i: usize = 0;
    while i < quotes.len()
        invariant
            i <= quotes.len(),
            copy.len() == i,
            forall|j: int| 0 <= j < i ==> (#[trigger] copy[j])@ == quotes[j]@,
        decreases quotes.len() - i,
    {
        copy.push(quotes[i].clone());
        i += 1;
    }
    assert(quote_views(copy@) =~= quote_views(quotes@));
    copy
}

/// One direction of one event that passed every gate, with its economics in
/// integer cents.
#[derive(Debug, PartialEq, Eq)]
pub struct ArbOpportunity {
    pub event_ticker: String,
    pub event_title: String,
    pub direction: ArbDirection,
    pub brackets: Vec<BracketQuote>,
    pub sum_cents: i64,
    pub total_fees_cents: i64,
    pub gross_profit_cents: i64,
    pub net_profit_cents: i64,
    pub roi_pct: DecimalPct,
}

pub struct ArbOpportunityView {
    pub event_ticker: Seq<char>,
    pub event_title: Seq<char>,
    pub direction: ArbDirection,
    pub brackets: Seq<BracketQuoteView>,
    pub sum_cents: int,
    pub total_fees_cents: int,
    pub gross_profit_cents: int,
    pub net_profit_cents: int,
    pub roi_pct: (int, nat),
}

impl View for ArbOpportunity {
    type V = ArbOpportunityView;

    open spec fn view(&self) -> ArbOpportunityView {
        ArbOpportunityView {
            event_ticker: self.event_ticker@,
            event_title: self.event_title@,
            direction: self.direction,
            brackets: quote_views(self.brackets@),
            sum_cents: self.sum_cents as int,
            total_fees_cents: self.total_fees_cents as int,
            gross_profit_cents: self.gross_profit_cents as int,
            net_profit_cents: self.net_profit_cents as int,
            roi_pct: self.roi_pct@,
        }
    }
}

impl Clone for ArbOpportunity {
    fn clone(&self) -> (copy: Self)
        ensures
            copy@ == self@,
    {
        ArbOpportunity {
            event_ticker: self.event_ticker.clone(),
            event_title: self.event_title.clone(),
            direction: self.direction,
            brackets: clone_quotes(self.brackets.as_slice()),
            sum_cents: self.sum_cents,
            total_fees_cents: self.total_fees_cents,
            gross_profit_cents: self.gross_profit_cents,
            net_profit_cents: self.net_profit_cents,
            roi_pct: self.roi_pct,
        }
    }
}

/// The views of a list of opportunities.
pub open spec fn opportunity_views(opps: Seq<ArbOpportunity>) -> Seq<ArbOpportunityView> {
    opps.map_values(|o: ArbOpportunity| o@)
}

} // verus!
