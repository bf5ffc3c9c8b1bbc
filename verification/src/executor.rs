//! Order placement payloads and the classification of what came back.

use crate::kalshi::types::{
    ArbDirection, ArbOpportunity, BracketQuote, BracketQuoteView, CreateOrderRequest,
    CreateOrderRequestView, Order, OrderView,
};
use crate::risk::{delta_of, RiskDelta};
use crate::text::text_eq;
use vstd::prelude::*;

verus! {

/// The limit order of one leg: buy YES at the ask when long, sell YES at the
/// bid when short, for the whole position; the NO price stays unset.
pub open spec fn order_request_of(
    bracket: BracketQuoteView,
    direction: ArbDirection,
    position_size: int,
) -> CreateOrderRequestView {
    CreateOrderRequestView {
        ticker: bracket.ticker,
        action: match direction {
            ArbDirection::Long => "buy"@,
            ArbDirection::Short => "sell"@,
        },
        side: "yes"@,
        order_type: "limit"@,
        count: position_size,
        yes_price: Some(
            match direction {
                ArbDirection::Long => bracket.yes_ask_cents,
                ArbDirection::Short => bracket.yes_bid_cents,
            },
        ),
        no_price: None,
    }
}

/// Builds the order of one leg from its quote and the direction.
pub fn build_order_request(bracket: &BracketQuote, direction: ArbDirection, position_size: u32) -> (req:
    CreateOrderRequest)
    ensures
        req@ == order_request_of(bracket@, direction, position_size as int),
{
    match direction {
        ArbDirection::Long => CreateOrderRequest {
            ticker: bracket.ticker.clone(),
            action: "buy".to_owned(),
            side: "yes".to_owned(),
            order_type: "limit".to_owned(),
            count: position_size,
            yes_price: Some(bracket.yes_ask_cents),
            no_price: None,
        },
        ArbDirection::Short => CreateOrderRequest {
            ticker: bracket.ticker.clone(),
            action: "sell".to_owned(),
            side: "yes".to_owned(),
            order_type: "limit".to_owned(),
            count: position_size,
            yes_price: Some(bracket.yes_bid_cents),
            no_price: None,
        },
    }
}

/// The orders of an opportunity: one per bracket, in the order of the
/// brackets. All of them are to be dispatched before any is awaited.
pub fn build_order_requests(opp: &ArbOpportunity, position_size: u32) -> (reqs: Vec<
    CreateOrderRequest,
>)
    ensures
        reqs.len() == opp.brackets.len(),
        forall|i: int|
            0 <= i < reqs.len() ==> (#[trigger] reqs[i])@ == order_request_of(
                opp.brackets[i]@,
                opp.direction,
                position_size as int,
            ),
{
    let mut reqs: Vec<CreateOrderRequest> = Vec::new();
    let mut i: usize = 0;
    while i < opp.brackets.len()
        invariant
            i <= opp.brackets.len(),
            reqs.len() == i,
            forall|j: int|
                0 <= j < i ==> (#[trigger] reqs[j])@ == order_request_of(
                    opp.brackets[j]@,
                    opp.direction,
                    position_size as int,
                ),
        decreases opp.brackets.len() - i,
    {
        reqs.push(build_order_request(&opp.brackets[i], opp.direction, position_size));
        i += 1;
    }
    reqs
}

/// What became of one accepted order.
#[derive(Debug, Clone, Copy, PartialEq, Eq, Structural)]
pub enum LegStatus {
    /// The exchange reported `executed`.
    Filled,
    /// The exchange reported `resting`.
    Resting,
    /// The exchange reported any other status.
    Other,
}

/// The class of an order status.
pub open spec fn leg_status_of(status: Seq<char>) -> LegStatus {
    if status == "executed"@ {
        LegStatus::Filled
    } else if status == "resting"@ {
        LegStatus::Resting
    } else {
        LegStatus::Other
    }
}

/// Classifies the status that the exchange reported for an order.
pub fn classify_status(status: &str) -> (class: LegStatus)
    ensures
        class == leg_status_of(status@),
{
    if text_eq(status, "executed") {
        LegStatus::Filled
    } else if text_eq(status, "resting") {
        LegStatus::Resting
    } else {
        LegStatus::Other
    }
}

/// The legs of one execution, sorted by what became of them. A leg whose
/// dispatch was lost altogether is in none of the lists.
#[derive(Debug, PartialEq, Eq)]
pub struct ExecutionResult {
    pub event_ticker: String,
    pub direction: ArbDirection,
    pub filled: Vec<(String, Order)>,
    pub resting: Vec<(String, Order)>,
    pub other: Vec<(String, Order)>,
    pub api_failures: Vec<String>,
}

/// The views of a list of placed legs.
pub open spec fn leg_views(legs: Seq<(String, Order)>) -> Seq<(Seq<char>, OrderView)> {
    legs.map_values(|leg: (String, Order)| (leg.0@, leg.1@))
}

/// The views of a list of tickers.
pub open spec fn ticker_views(tickers: Seq<String>) -> Seq<Seq<char>> {
    tickers.map_values(|t: String| t@)
}

pub struct ExecutionResultView {
    pub event_ticker: Seq<char>,
    pub direction: ArbDirection,
    pub filled: Seq<(Seq<char>, OrderView)>,
    pub resting: Seq<(Seq<char>, OrderView)>,
    pub other: Seq<(Seq<char>, OrderView)>,
    pub api_failures: Seq<Seq<char>>,
}

impl View for ExecutionResult {
    type V = ExecutionResultView;

    open spec fn view(&self) -> ExecutionResultView {
        ExecutionResultView {
            event_ticker: self.event_ticker@,
            direction: self.direction,
            filled: leg_views(self.filled@),
            resting: leg_views(self.resting@),
            other: leg_views(self.other@),
            api_failures: ticker_views(self.api_failures@),
        }
    }
}

/// The overall outcome of an execution.
#[derive(Debug, Clone, Copy, PartialEq, Eq, Structural)]
pub enum Outcome {
    /// Every leg filled at once.
    FullyFilled,
    /// No order was placed.
    TotalFailure,
    /// Anything else: some legs filled, rest or failed.
    Mixed,
}

impl ExecutionResultView {
    /// Something filled, and nothing rests, has another status or failed.
    pub open spec fn fully_filled(self) -> bool {
        self.filled.len() > 0 && self.resting.len() == 0 && self.other.len() == 0
            && self.api_failures.len() == 0
    }

    /// No order was placed at all.
    pub open spec fn total_failure(self) -> bool {
        self.filled.len() == 0 && self.resting.len() == 0 && self.other.len() == 0
    }

    /// The overall outcome.
    pub open spec fn outcome(self) -> Outcome {
        if self.fully_filled() {
            Outcome::FullyFilled
        } else if self.total_failure() {
            Outcome::TotalFailure
        } else {
            Outcome::Mixed
        }
    }

    /// The result after one more leg came back: a failed dispatch adds the
    /// ticker to the failures, an accepted order joins the list of its
    /// status.
    pub open spec fn with_leg(self, ticker: Seq<char>, placed: Option<OrderView>) -> Self {
        match placed {
            None => ExecutionResultView {
                api_failures: self.api_failures.push(ticker),
                ..self
            },
            Some(order) => match leg_status_of(order.status) {
                LegStatus::Filled => ExecutionResultView {
                    filled: self.filled.push((ticker, order)),
                    ..self
                },
                LegStatus::Resting => ExecutionResultView {
                    resting: self.resting.push((ticker, order)),
                    ..self
                },
                LegStatus::Other => ExecutionResultView {
                    other: self.other.push((ticker, order)),
                    ..self
                },
            },
        }
    }

    /// The number of orders that the exchange accepted.
    pub open spec fn orders_placed(self) -> nat {
        self.filled.len() + self.resting.len() + self.other.len()
    }
}

/// The view of an optional order.
pub open spec fn order_opt_view(o: Option<Order>) -> Option<OrderView> {
    match o {
        Some(order) => Some(order@),
        None => None,
    }
}

impl ExecutionResult {
    /// The result of an execution of which no leg has come back yet.
    pub fn new(event_ticker: &str, direction: ArbDirection) -> (result: ExecutionResult)
        ensures
            result@ == (ExecutionResultView {
                event_ticker: event_ticker@,
                direction,
                filled: Seq::empty(),
                resting: Seq::empty(),
                other: Seq::empty(),
                api_failures: Seq::empty(),
            }),
    {
        let result = ExecutionResult {
            event_ticker: event_ticker.to_owned(),
            direction,
            filled: Vec::new(),
            resting: Vec::new(),
            other: Vec::new(),
            api_failures: Vec::new(),
        };
        assert(result@.filled =~= Seq::empty());
        assert(result@.resting =~= Seq::empty());
        assert(result@.other =~= Seq::empty());
        assert(result@.api_failures =~= Seq::empty());
        result
    }

    /// Records what came back for one leg: `None` for a dispatch that
    /// failed, otherwise the order as the exchange reported it.
    pub fn record_leg(&mut self, ticker: String, placed: Option<Order>)
        ensures
            final(self)@ == old(self)@.with_leg(ticker@, order_opt_view(placed)),
    {
        match placed {
            None => {
                self.api_failures.push(ticker);
                assert(ticker_views(self.api_failures@) =~= ticker_views(
                    old(self).api_failures@,
                ).push(ticker@));
            },
            Some(order) => {
                let ghost leg = (ticker@, order@);
                match classify_status(order.status.as_str()) {
                    LegStatus::Filled => {
                        self.filled.push((ticker, order));
                        assert(leg_views(self.filled@) =~= leg_views(old(self).filled@).push(leg));
                    },
                    LegStatus::Resting => {
                        self.resting.push((ticker, order));
                        assert(leg_views(self.resting@) =~= leg_views(old(self).resting@).push(
                            leg,
                        ));
                    },
                    LegStatus::Other => {
                        self.other.push((ticker, order));
                        assert(leg_views(self.other@) =~= leg_views(old(self).other@).push(leg));
                    },
                }
            },
        }
    }

    /// All brackets filled immediately.
    pub fn is_fully_filled(&self) -> (r: bool)
        ensures
            r == self@.fully_filled(),
    {
        self.resting.is_empty() && self.other.is_empty() && self.api_failures.is_empty()
            && !self.filled.is_empty()
    }

    /// Every bracket failed: there is nothing to cancel.
    pub fn is_total_failure(&self) -> (r: bool)
        ensures
            r == self@.total_failure(),
    {
        self.filled.is_empty() && self.resting.is_empty() && self.other.is_empty()
    }

    /// The overall outcome: fully filled, total failure, or mixed.
    pub fn outcome(&self) -> (o: Outcome)
        ensures
            o == self@.outcome(),
    {
        if self.is_fully_filled() {
            Outcome::FullyFilled
        } else if self.is_total_failure() {
            Outcome::TotalFailure
        } else {
            Outcome::Mixed
        }
    }
}

// --- Settlement ---

/// The most legs of one list that the settlement supports.
pub const MAX_LEGS: usize = 1_000_000;

/// An optional amount, 0 when it is absent.
pub open spec fn or_zero(v: Option<int>) -> int {
    match v {
        Some(n) => n,
        None => 0,
    }
}

/// An order whose amounts are what the exchange can report: a YES price
/// within 0 to 100 cents and counts within 32 bits.
pub open spec fn order_in_range(o: OrderView) -> bool {
    &&& 0 <= or_zero(o.yes_price) <= 100
    &&& 0 <= or_zero(o.count) <= u32::MAX
    &&& 0 <= or_zero(o.fill_count) <= u32::MAX
}

/// Legs that are few enough, each with amounts in range.
pub open spec fn legs_in_range(legs: Seq<(Seq<char>, OrderView)>) -> bool {
    &&& legs.len() <= MAX_LEGS
    &&& forall|i: int| 0 <= i < legs.len() ==> order_in_range((#[trigger] legs[i]).1)
}

/// A result that the settlement supports.
pub open spec fn result_in_range(result: ExecutionResultView) -> bool {
    &&& legs_in_range(result.filled)
    &&& result.resting.len() <= MAX_LEGS
    &&& result.other.len() <= MAX_LEGS
}

/// The worst-case loss of legs that filled without their hedge: what they
/// cost, price times count, summed.
pub open spec fn worst_case_loss(filled: Seq<(Seq<char>, OrderView)>) -> int
    decreases filled.len(),
{
    if filled.len() == 0 {
        0
    } else {
        worst_case_loss(filled.drop_last()) + or_zero(filled.last().1.yes_price) * or_zero(
            filled.last().1.count,
        )
    }
}

/// The order ids of a list of legs.
pub open spec fn order_ids(legs: Seq<(Seq<char>, OrderView)>) -> Seq<Seq<char>> {
    legs.map_values(|leg: (Seq<char>, OrderView)| leg.1.order_id)
}

/// The orders to cancel: after a mixed outcome every resting order, then
/// every order of another status; otherwise none.
pub open spec fn cancellations(result: ExecutionResultView) -> Seq<Seq<char>> {
    if result.outcome() == Outcome::Mixed {
        order_ids(result.resting) + order_ids(result.other)
    } else {
        Seq::empty()
    }
}

/// What follows from an execution.
#[derive(Debug, PartialEq, Eq)]
pub struct Settlement {
    pub outcome: Outcome,
    /// The change of the risk counters.
    pub delta: RiskDelta,
    /// The ids of the orders to cancel, in order.
    pub cancel_order_ids: Vec<String>,
}

/// The worst-case loss lies within 0 and 100 cents times 2^32 per leg.
pub proof fn lemma_worst_case_loss_bounds(filled: Seq<(Seq<char>, OrderView)>)
    requires
        forall|i: int| 0 <= i < filled.len() ==> order_in_range((#[trigger] filled[i]).1),
    ensures
        0 <= worst_case_loss(filled) <= filled.len() * 429_496_729_500,
    decreases filled.len(),
{
    if filled.len() > 0 {
        let front = filled.drop_last();
        assert forall|i: int| 0 <= i < front.len() implies order_in_range(
            (#[trigger] front[i]).1,
        ) by {
            assert(front[i] == filled[i]);
        }
        lemma_worst_case_loss_bounds(front);
        let o = filled[filled.len() - 1].1;
        assert(order_in_range(o));
        assert(0 <= or_zero(o.yes_price) * or_zero(o.count) <= 429_496_729_500)
            by (nonlinear_arith)
            requires
                0 <= or_zero(o.yes_price) <= 100,
                0 <= or_zero(o.count) <= 4_294_967_295,
        ;
    }
}

/// Whether legs are few enough and each has its amounts in range.
pub fn legs_are_in_range(legs: &[(String, Order)]) -> (ok: bool)
    ensures
        ok == legs_in_range(leg_views(legs@)),
{
    if legs.len() > MAX_LEGS {
        return false;
    }
    let ghost views = leg_views(legs@);
    let mut i: usize = 0;
    while i < legs.len()
        invariant
            i <= legs.len(),
            views == leg_views(legs@),
            forall|j: int| 0 <= j < i ==> order_in_range((#[trigger] views[j]).1),
        decreases legs.len() - i,
    {
        let order = &legs[i].1;
        assert(views[i as int].1 == order@);
        let price = match order.yes_price {
            Some(p) => p,
            None => 0,
        };
        let count = match order.count {
            Some(c) => c,
            None => 0,
        };
        let fill = match order.fill_count {
            Some(c) => c,
            None => 0,
        };
        if price < 0 || price > 100 || count < 0 || count > u32::MAX as i64 || fill < 0 || fill
            > u32::MAX as i64 {
            return false;
        }
        i += 1;
    }
    true
}

impl ExecutionResult {
    /// Whether the settlement supports this result: every list has at most
    /// `MAX_LEGS` legs and every filled order has its amounts in range.
    pub fn is_in_range(&self) -> (ok: bool)
        ensures
            ok == result_in_range(self@),
    {
        self.resting.len() <= MAX_LEGS && self.other.len() <= MAX_LEGS && legs_are_in_range(
            self.filled.as_slice(),
        )
    }

    /// The worst-case loss of the filled legs: price times count, summed.
    pub fn filled_cost(&self) -> (loss: i64)
        requires
            legs_in_range(self@.filled),
        ensures
            loss == worst_case_loss(self@.filled),
    {
        let ghost legs = leg_views(self.filled@);
        let mut loss: i64 = 0;
        let mut i: usize = 0;
        while i < self.filled.len()
            invariant
                i <= self.filled.len(),
                legs == leg_views(self.filled@),
                legs_in_range(legs),
                loss == worst_case_loss(legs.take(i as int)),
                0 <= loss <= i * 429_496_729_500,
            decreases self.filled.len() - i,
        {
            let order = &self.filled[i].1;
            proof {
                assert(legs[i as int].1 == order@);
                assert(legs.take(i + 1).drop_last() =~= legs.take(i as int));
                assert(legs.take(i + 1).last() == legs[i as int]);
                assert(order_in_range(legs[i as int].1));
            }
            let price = match order.yes_price {
                Some(p) => p,
                None => 0,
            };
            let count = match order.count {
                Some(c) => c,
                None => 0,
            };
            assert(0 <= price * count <= 429_496_729_500) by (nonlinear_arith)
                requires
                    0 <= price <= 100,
                    0 <= count <= 4_294_967_295,
            ;
            loss = loss + price * count;
            i += 1;
        }
        assert(legs.take(self.filled.len() as int) =~= legs);
        loss
    }

    /// The ids of the orders to cancel: after a mixed outcome every resting
    /// order, then every order of another status; otherwise none.
    pub fn orders_to_cancel(&self) -> (ids: Vec<String>)
        ensures
            ticker_views(ids@) == cancellations(self@),
    {
        let mut ids: Vec<String> = Vec::new();
        if !matches!(self.outcome(), Outcome::Mixed) {
            assert(ticker_views(ids@) =~= cancellations(self@));
            return ids;
        }
        let ghost resting = leg_views(self.resting@);
        let ghost other = leg_views(self.other@);
        let mut i: usize = 0;
        while i < self.resting.len()
            invariant
                i <= self.resting.len(),
                resting == leg_views(self.resting@),
                ticker_views(ids@) =~= order_ids(resting.take(i as int)),
            decreases self.resting.len() - i,
        {
            ids.push(self.resting[i].1.order_id.clone());
            assert(resting[i as int].1 == self.resting[i as int].1@);
            assert(order_ids(resting.take(i + 1)) =~= order_ids(resting.take(i as int)).push(
                resting[i as int].1.order_id,
            ));
            i += 1;
        }
        assert(resting.take(self.resting.len() as int) =~= resting);
        let mut k: usize = 0;
        while k < self.other.len()
            invariant
                k <= self.other.len(),
                other == leg_views(self.other@),
                ticker_views(ids@) =~= order_ids(resting) + order_ids(other.take(k as int)),
            decreases self.other.len() - k,
        {
            let ghost before = ticker_views(ids@);
            ids.push(self.other[k].1.order_id.clone());
            assert(other[k as int].1 == self.other[k as int].1@);
            assert(ticker_views(ids@) =~= before.push(other[k as int].1.order_id));
            assert(order_ids(other.take(k + 1)) =~= order_ids(other.take(k as int)).push(
                other[k as int].1.order_id,
            ));
            k += 1;
        }
        assert(other.take(self.other.len() as int) =~= other);
        ids
    }

    /// What follows from this execution of an opportunity whose expected net
    /// profit was `expected_net_cents`: the outcome, the change of the risk
    /// counters and the orders to cancel. The accepted orders count against
    /// the daily orders whatever the outcome; failed dispatches do not.
    pub fn settle(&self, expected_net_cents: i64) -> (settlement: Settlement)
        requires
            result_in_range(self@),
        ensures
            settlement.outcome == self@.outcome(),
            (
                settlement.delta.opened,
                settlement.delta.pnl_cents as int,
                settlement.delta.orders as nat,
            ) == delta_of(
                self@.outcome(),
                expected_net_cents as int,
                worst_case_loss(self@.filled),
                self@.orders_placed(),
            ),
            ticker_views(settlement.cancel_order_ids@) == cancellations(self@),
    {
        let outcome = self.outcome();
        let orders = self.filled.len() + self.resting.len() + self.other.len();
        let delta = match outcome {
            Outcome::FullyFilled => RiskDelta { opened: true, pnl_cents: expected_net_cents, orders },
            Outcome::TotalFailure => RiskDelta { opened: false, pnl_cents: 0, orders },
            Outcome::Mixed => {
                proof {
                    lemma_worst_case_loss_bounds(self@.filled);
                }
                RiskDelta { opened: false, pnl_cents: -self.filled_cost(), orders }
            },
        };
        Settlement { outcome, delta, cancel_order_ids: self.orders_to_cancel() }
    }
}

} // verus!
